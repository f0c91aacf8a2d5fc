//! Quorum decision over a burst of probes.
//!
//! Each probe that produced an embedding is compared with every enrolled template; the
//! comparison results form one row of booleans per probe. A probe is accepted when at least
//! half of the templates (rounded up) match it, and the burst is accepted when any probe is.

use vstd::prelude::*;

verus! {

/// At least half of `template_count`, rounded up.
pub open spec fn quorum(template_count: nat) -> nat {
    ((template_count + 1) / 2) as nat
}

/// Number of `true` entries in a row of per-template match results.
pub open spec fn count_matches(row: Seq<bool>) -> nat
    decreases row.len(),
{
    if row.len() == 0 {
        0
    } else {
        count_matches(row.drop_last()) + if row.last() {
            1nat
        } else {
            0nat
        }
    }
}

/// A probe meets the quorum when it has an embedding that matches enough templates.
pub open spec fn probe_meets_quorum(template_count: nat, probe: Option<Seq<bool>>) -> bool {
    match probe {
        Some(row) => count_matches(row) >= quorum(template_count),
        None => false,
    }
}

/// A burst is accepted when there are templates and some probe meets the quorum.
pub open spec fn burst_accepts(template_count: nat, probes: Seq<Option<Seq<bool>>>) -> bool {
    template_count > 0 && exists|i: int|
        0 <= i < probes.len() && #[trigger] probe_meets_quorum(template_count, probes[i])
}

/// A burst has a probe when there are templates and some frame produced an embedding.
pub open spec fn burst_has_probe(template_count: nat, probes: Seq<Option<Seq<bool>>>) -> bool {
    template_count > 0 && exists|i: int| 0 <= i < probes.len() && (#[trigger] probes[i]) is Some
}

/// Every row holds one match result per template.
pub open spec fn rows_fit(template_count: nat, probes: Seq<Option<Seq<bool>>>) -> bool {
    forall|i: int|
        0 <= i < probes.len() ==> match #[trigger] probes[i] {
            Some(row) => row.len() == template_count,
            None => true,
        }
}

/// Number of templates a single probe must match: `ceil(template_count / 2)`.
pub fn template_quorum_required(template_count: usize) -> (r: usize)
    ensures
        r == quorum(template_count as nat),
{
    template_count / 2 + template_count % 2
}

/// Outcome of deciding a burst of probes.
#[derive(Debug, Clone, Copy, PartialEq, Eq, Structural)]
pub struct BurstDecision {
    pub accepted: bool,
    pub quorum: bool,
    pub has_probe: bool,
}

/// Counts the `true` entries of one probe's row.
pub fn count_row_matches(row: &[bool]) -> (r: usize)
    ensures
        r == count_matches(row@),
{
    let mut n: usize = 0;
    let mut i: usize = 0;
    while i < row.len()
        invariant
            i <= row@.len(),
            n == count_matches(row@.take(i as int)),
            n <= i,
        decreases row@.len() - i,
    {
        assert(row@.take(i as int + 1).drop_last() =~= row@.take(i as int));
        if row[i] {
            n = n + 1;
        }
        i = i + 1;
    }
    assert(row@.take(row@.len() as int) =~= row@);
    n
}

/// Decides whether one probe row meets the quorum.
fn evaluate_probe(template_count: usize, probe: &Option<Vec<bool>>) -> (r: bool)
    ensures
        r == probe_meets_quorum(template_count as nat, probe.deep_view()),
{
    match probe {
        Some(row) => {
            assert(row.deep_view() =~= row@);
            let required = template_quorum_required(template_count);
            let pass_count = count_row_matches(row.as_slice());
            pass_count >= required
        },
        None => false,
    }
}

/// Decides a burst: `probes[i]` holds, for a frame that produced an embedding, whether that
/// embedding matched each of the `template_count` enrolled templates.
pub fn verify_burst(template_count: usize, probes: &[Option<Vec<bool>>]) -> (r: BurstDecision)
    requires
        rows_fit(template_count as nat, probes.deep_view()),
    ensures
        r.accepted == burst_accepts(template_count as nat, probes.deep_view()),
        r.quorum == r.accepted,
        r.has_probe == burst_has_probe(template_count as nat, probes.deep_view()),
{
    let ghost ps = probes.deep_view();
    if template_count == 0 || probes.len() == 0 {
        return BurstDecision { accepted: false, quorum: false, has_probe: false };
    }
    let mut has_probe = false;
    let mut any_quorum = false;
    let mut i: usize = 0;
    while i < probes.len()
        invariant
            i <= probes@.len(),
            template_count > 0,
            ps == probes.deep_view(),
            ps.len() == probes@.len(),
            has_probe == exists|k: int| 0 <= k < i && (#[trigger] ps[k]) is Some,
            any_quorum == exists|k: int|
                0 <= k < i && #[trigger] probe_meets_quorum(template_count as nat, ps[k]),
        decreases probes@.len() - i,
    {
        let p = &probes[i];
        assert(p.deep_view() == ps[i as int]);
        let q = evaluate_probe(template_count, p);
        if p.is_some() {
            has_probe = true;
        }
        if q {
            any_quorum = true;
        }
        assert(ps[i as int] is Some == p.is_some());
        i = i + 1;
    }
    BurstDecision { accepted: any_quorum, quorum: any_quorum, has_probe }
}

/// Adding more probes to an accepted burst keeps it accepted, so stopping at the first
/// accepting frame gives the same answer as deciding over every frame.
pub proof fn lemma_accept_is_monotonic(
    template_count: nat,
    probes: Seq<Option<Seq<bool>>>,
    more: Seq<Option<Seq<bool>>>,
)
    requires
        burst_accepts(template_count, probes),
    ensures
        burst_accepts(template_count, probes + more),
{
    let i = choose|i: int|
        0 <= i < probes.len() && #[trigger] probe_meets_quorum(template_count, probes[i]);
    assert((probes + more)[i] == probes[i]);
}

/// A burst with no probe that produced an embedding is never accepted.
pub proof fn lemma_no_probe_rejects(template_count: nat, probes: Seq<Option<Seq<bool>>>)
    requires
        !burst_has_probe(template_count, probes),
    ensures
        !burst_accepts(template_count, probes),
{
    if burst_accepts(template_count, probes) {
        let i = choose|i: int|
            0 <= i < probes.len() && #[trigger] probe_meets_quorum(template_count, probes[i]);
        assert(probes[i] is Some);
    }
}

/// A probe matching every template meets the quorum, so an exact re-capture of the only
/// enrolled template is accepted.
pub proof fn lemma_full_match_meets_quorum(template_count: nat, row: Seq<bool>)
    requires
        template_count > 0,
        row.len() == template_count,
        forall|j: int| 0 <= j < row.len() ==> row[j],
    ensures
        probe_meets_quorum(template_count, Some(row)),
        burst_accepts(template_count, seq![Some(row)]),
{
    lemma_count_all_true(row);
    let ps = seq![Some(row)];
    assert(ps[0] == Some(row));
    assert(probe_meets_quorum(template_count, ps[0]));
}

proof fn lemma_count_all_true(row: Seq<bool>)
    requires
        forall|j: int| 0 <= j < row.len() ==> row[j],
    ensures
        count_matches(row) == row.len(),
    decreases row.len(),
{
    if row.len() > 0 {
        lemma_count_all_true(row.drop_last());
    }
}

} // verus!
