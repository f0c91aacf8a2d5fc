//! Enrolled templates of one user, and the shape rule for averaging embeddings.

use vstd::prelude::*;

verus! {

/// All probe templates for one user (from the active camera stream at enrollment time).
/// `E` is the embedding representation.
#[derive(Debug, Clone, PartialEq)]
pub struct TemplateBundle<E> {
    pub templates: Vec<E>,
}

impl<E> TemplateBundle<E> {
    pub fn empty() -> (r: Self)
        ensures
            r.templates@ == Seq::<E>::empty(),
    {
        TemplateBundle { templates: Vec::new() }
    }

    pub fn is_empty(&self) -> (r: bool)
        ensures
            r == (self.templates@.len() == 0),
    {
        self.templates.len() == 0
    }

    pub fn has_any_enrollment(&self) -> (r: bool)
        ensures
            r == (self.templates@.len() > 0),
    {
        !self.is_empty()
    }

    /// Appends a template, keeping every template already enrolled and their order.
    pub fn push_template(&mut self, template: E)
        ensures
            final(self).templates@ == old(self).templates@.push(template),
    {
        self.templates.push(template);
    }
}

/// How a bundle's templates are stored: every template under RGB, none under IR.
pub open spec fn spec_stored<E>(templates: Seq<E>) -> (Seq<E>, Seq<E>) {
    (templates, Seq::<E>::empty())
}

/// What stored RGB and IR lists read back as: both lists in order, RGB first; `None` (not
/// enrolled) when there is no template at all.
pub open spec fn spec_loaded<E>(rgb: Seq<E>, ir: Seq<E>) -> Option<Seq<E>> {
    if rgb.len() + ir.len() == 0 {
        None
    } else {
        Some(rgb + ir)
    }
}

impl<E> TemplateBundle<E> {
    /// The bundle read back from stored RGB and IR template lists.
    pub fn from_streams(rgb: Vec<E>, ir: Vec<E>) -> (r: Option<Self>)
        ensures
            spec_loaded(rgb@, ir@) is None ==> r is None,
            spec_loaded(rgb@, ir@) matches Some(t) ==> (r matches Some(b) && b.templates@ == t),
    {
        let mut templates = rgb;
        let mut ir = ir;
        templates.append(&mut ir);
        if templates.len() == 0 {
            None
        } else {
            Some(TemplateBundle { templates })
        }
    }

    /// The lists a bundle is stored as.
    pub fn into_streams(self) -> (r: (Vec<E>, Vec<E>))
        ensures
            (r.0@, r.1@) == spec_stored(self.templates@),
    {
        (self.templates, Vec::new())
    }
}

/// Saving a bundle and loading it back gives the same templates in the same order; a bundle
/// without templates reads back as not enrolled.
pub proof fn lemma_store_roundtrip<E>(templates: Seq<E>)
    ensures
        templates.len() > 0 ==> spec_loaded(spec_stored(templates).0, spec_stored(templates).1)
            == Some(templates),
        templates.len() == 0 ==> spec_loaded(spec_stored(templates).0, spec_stored(templates).1)
            is None,
{
    assert(templates + Seq::<E>::empty() =~= templates);
}

impl<E> Default for TemplateBundle<E> {
    fn default() -> (r: Self)
        ensures
            r.templates@ == Seq::<E>::empty(),
    {
        Self::empty()
    }
}

/// Embeddings can be averaged when there is at least one, the first is non-empty, and all
/// have the same dimension; the average then has that dimension.
pub open spec fn spec_common_dim(dims: Seq<usize>) -> Option<usize> {
    if dims.len() == 0 || dims[0] == 0 || exists|i: int| 0 <= i < dims.len() && #[trigger] dims[i] != dims[0] {
        None
    } else {
        Some(dims[0])
    }
}

/// The dimension shared by all embeddings to be averaged, given their dimensions.
pub fn common_dim(dims: &[usize]) -> (r: Option<usize>)
    ensures
        r == spec_common_dim(dims@),
{
    if dims.len() == 0 {
        return None;
    }
    let dim = dims[0];
    if dim == 0 {
        return None;
    }
    let mut i: usize = 1;
    while i < dims.len()
        invariant
            1 <= i <= dims@.len(),
            dim == dims@[0],
            forall|k: int| 0 <= k < i ==> dims@[k] == dim,
        decreases dims@.len() - i,
    {
        if dims[i] != dim {
            return None;
        }
        i = i + 1;
    }
    Some(dim)
}

/// Averaging needs one common, non-zero dimension: when a dimension is found, every
/// embedding has exactly that many components (so the average has it too); none is found
/// exactly when there is no embedding, the first is empty, or two embeddings differ.
pub proof fn lemma_common_dim_is_shared(dims: Seq<usize>)
    ensures
        spec_common_dim(dims) matches Some(d) ==> d > 0 && dims.len() > 0 && forall|i: int|
            0 <= i < dims.len() ==> #[trigger] dims[i] == d,
        spec_common_dim(dims) is None <==> (dims.len() == 0 || exists|i: int, j: int|
            0 <= i < dims.len() && 0 <= j < dims.len() && #[trigger] dims[i] != #[trigger] dims[j])
            || (dims.len() > 0 && dims[0] == 0),
{
    if dims.len() > 0 && dims[0] != 0 && (exists|i: int, j: int|
        0 <= i < dims.len() && 0 <= j < dims.len() && #[trigger] dims[i] != #[trigger] dims[j]) {
        let (i, j) = choose|i: int, j: int|
            0 <= i < dims.len() && 0 <= j < dims.len() && #[trigger] dims[i] != #[trigger] dims[j];
        if dims[i] == dims[0] {
            assert(dims[j] != dims[0]);
        } else {
            assert(dims[i] != dims[0]);
        }
    }
}

} // verus!
