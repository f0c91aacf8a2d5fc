//! Face embedder adapters: the memory layout of the model input.

use vstd::prelude::*;

use crate::ports::FaceEmbedError;
use crate::text::{debug_list, decimal_string, spec_debug_list, spec_decimal};

verus! {

/// Channel layout of a rank-4 image input tensor.
#[derive(Clone, Copy, Debug, PartialEq, Eq, Structural)]
pub enum InputLayout {
    /// `[N, C, H, W]`
    Nchw,
    /// `[N, H, W, C]`
    Nhwc,
}

/// Layout and `(height, width)` read from a model input shape: `[_, 3, H, W]` (with `H != 3`)
/// is NCHW, otherwise `[_, H, W, 3]` is NHWC; anything else is refused.
pub open spec fn spec_input_shape(shape: Seq<usize>) -> Option<(InputLayout, usize, usize)> {
    if shape.len() != 4 {
        None
    } else if shape[1] == 3 && shape[2] != 3 {
        Some((InputLayout::Nchw, shape[2], shape[3]))
    } else if shape[3] == 3 {
        Some((InputLayout::Nhwc, shape[1], shape[2]))
    } else {
        None
    }
}

/// Message of the refusal of a shape.
pub open spec fn input_shape_message(shape: Seq<usize>) -> Seq<char> {
    if shape.len() == 4 {
        "unrecognized 4D input shape "@ + spec_debug_list(shape)
            + ": expected [1,3,H,W] or [1,H,W,3]"@
    } else {
        "expected rank-4 ONNX input, got rank "@ + spec_decimal(shape.len()) + " shape "@
            + spec_debug_list(shape)
    }
}

/// Reads the layout and spatial size of the embedder's input tensor from its shape.
pub fn interpret_input_shape(shape: &[usize]) -> (r: Result<
    (InputLayout, usize, usize),
    FaceEmbedError,
>)
    ensures
        spec_input_shape(shape@) matches Some(t) ==> r == Ok::<
            (InputLayout, usize, usize),
            FaceEmbedError,
        >(t),
        spec_input_shape(shape@) is None ==> (r matches Err(FaceEmbedError::Failed(m)) && m@
            == input_shape_message(shape@)),
{
    if shape.len() == 4 {
        if shape[1] == 3 && shape[2] != 3 {
            Ok((InputLayout::Nchw, shape[2], shape[3]))
        } else if shape[3] == 3 {
            Ok((InputLayout::Nhwc, shape[1], shape[2]))
        } else {
            let m = String::from_str("unrecognized 4D input shape ").concat(
                debug_list(shape).as_str(),
            ).concat(": expected [1,3,H,W] or [1,H,W,3]");
            Err(FaceEmbedError::Failed(m))
        }
    } else {
        let m = String::from_str("expected rank-4 ONNX input, got rank ").concat(
            decimal_string(shape.len() as u64).as_str(),
        ).concat(" shape ").concat(debug_list(shape).as_str());
        Err(FaceEmbedError::Failed(m))
    }
}

} // verus!
