//! Face detector adapters: the full-frame stub and the geometry of the YuNet model input.

use vstd::prelude::*;

verus! {

/// Detector stub that reports the whole frame as the face (no landmarks).
pub struct FullFrameFaceDetector;

/// YuNet's feature strides divide the padded input.
pub const DIVISOR: u32 = 32;

/// Fixed YuNet input width.
pub const INPUT_W: u32 = 640;

/// Fixed YuNet input height.
pub const INPUT_H: u32 = 640;

/// `n` rounded up to a multiple of 32, where 0 counts as 1 (so it pads to 32).
pub open spec fn spec_pad(n: nat) -> nat {
    if n == 0 {
        32
    } else {
        (((n - 1) as nat / 32 + 1) * 32) as nat
    }
}

/// Padding gives the smallest positive multiple of 32 that is at least `n`.
pub proof fn lemma_pad_is_next_multiple(n: nat)
    ensures
        spec_pad(n) % 32 == 0,
        spec_pad(n) >= n,
        spec_pad(n) >= 32,
        n > 0 ==> spec_pad(n) < n + 32,
{
    if n > 0 {
        let k = (n - 1) as nat / 32;
        let r = (n - 1) as nat % 32;
        assert((n - 1) as nat == 32 * k + r);
        assert(spec_pad(n) == 32 * k + 32);
    }
}

/// Input dimensions padded up to the stride divisor.
pub fn pad_dims(input_w: u32, input_h: u32) -> (r: (u32, u32))
    requires
        spec_pad(input_w as nat) <= u32::MAX,
        spec_pad(input_h as nat) <= u32::MAX,
    ensures
        r.0 == spec_pad(input_w as nat),
        r.1 == spec_pad(input_h as nat),
{
    let pad_w = (input_w.saturating_sub(1) / DIVISOR + 1) * DIVISOR;
    let pad_h = (input_h.saturating_sub(1) / DIVISOR + 1) * DIVISOR;
    (pad_w, pad_h)
}

} // verus!
