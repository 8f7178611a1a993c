//! What the pipeline hands to a sequence's sampler.

use vstd::prelude::*;
use candle_core::Tensor;
use crate::error::PipelineError;
use crate::inputs::tokens_from;
use crate::tensor::{
    squeeze_front, squeezed_front, tensor_f32_bits, tensor_is_contiguous, tensor_is_f32,
    tensor_shape, to_single_precision,
};

verus! {

/// The arguments of one call of a sampler.
pub struct SamplerInput {
    /// The distribution to sample from, flat and in single precision.
    pub logits: Tensor,
    /// The tokens that the repetition penalty looks at.
    pub context: Vec<u32>,
}

/// The sampler input is the one that belongs to the logits and the history:
/// its logits are the flat form of the given ones, and its context is the
/// repetition window of the history.
pub open spec fn is_sampler_input_of(
    input: SamplerInput,
    logits: Tensor,
    history: Seq<u32>,
    repeat_last_n: usize,
) -> bool {
    &&& is_flat_form_of(input.logits, logits)
    &&& input.context@ == repetition_window(history, repeat_last_n)
}

/// How many tokens the repetition penalty looks at.
pub open spec fn window_len(history_len: int, repeat_last_n: int) -> int {
    if history_len <= repeat_last_n {
        history_len
    } else {
        repeat_last_n
    }
}

/// The trailing tokens of a history that the repetition penalty looks at, in
/// the order of the history.
pub open spec fn repetition_window(history: Seq<u32>, repeat_last_n: usize) -> Seq<u32> {
    history.subrange(
        history.len() - window_len(history.len() as int, repeat_last_n as int),
        history.len() as int,
    )
}

/// The repetition-penalty context of a history: its last `repeat_last_n`
/// tokens, or all of them where it has fewer.
pub fn repetition_context(history: &Vec<u32>, repeat_last_n: usize) -> (context: Vec<u32>)
    ensures
        context@ == repetition_window(history@, repeat_last_n),
        context@.len() == window_len(history@.len() as int, repeat_last_n as int),
        forall|i: int|
            0 <= i < context@.len() ==> context@[i] == history@[history@.len() - context@.len()
                + i],
{
    let start_at: usize = if history.len() <= repeat_last_n {
        0
    } else {
        history.len() - repeat_last_n
    };
    tokens_from(history, start_at)
}

/// The shape of the flat distribution that is made of logits of a shape.
pub open spec fn flat_shape(shape: Seq<usize>) -> Seq<usize> {
    squeezed_front(squeezed_front(shape))
}

/// The flat tensor is the flat distribution of the logits: it has their
/// shape without up to two leading dimensions of size one, it is in single
/// precision, and it holds their elements, converted, in the same order.
pub open spec fn is_flat_form_of(flat: Tensor, logits: Tensor) -> bool {
    &&& tensor_shape(flat) == flat_shape(tensor_shape(logits))
    &&& tensor_is_f32(flat)
    &&& tensor_f32_bits(flat) == tensor_f32_bits(logits)
}

/// Whether the two leading dimensions of a shape can be looked at: the shape
/// has a dimension, and still has one after a leading one is dropped.
pub open spec fn can_be_flattened(shape: Seq<usize>) -> bool {
    squeezed_front(shape).len() > 0
}

/// Reduces the logits of one sequence to a flat distribution in single
/// precision: two leading dimensions of size one are dropped, one after the
/// other, and the elements are converted.
///
/// Logits whose two leading dimensions cannot be looked at fail. Contiguous
/// logits in single precision that can be flattened succeed, and so do
/// single-precision logits whose leading dimension is not one. In every other
/// case the tensor library decides.
pub fn flatten_logits(logits: &Tensor) -> (r: Result<Tensor, PipelineError>)
    ensures
        r matches Ok(flat) ==> is_flat_form_of(flat, *logits),
        r matches Err(e) ==> e is ComputeFailure,
        !can_be_flattened(tensor_shape(*logits)) ==> r is Err,
        can_be_flattened(tensor_shape(*logits)) && tensor_is_f32(*logits) && (tensor_is_contiguous(
            *logits,
        ) || tensor_shape(*logits)[0] != 1) ==> r is Ok,
{
    let first = match squeeze_front(logits) {
        Ok(t) => t,
        Err(e) => {
            return Err(PipelineError::ComputeFailure(e));
        },
    };
    let second = match squeeze_front(&first) {
        Ok(t) => t,
        Err(e) => {
            return Err(PipelineError::ComputeFailure(e));
        },
    };
    match to_single_precision(&second) {
        Ok(t) => Ok(t),
        Err(e) => Err(PipelineError::ComputeFailure(e)),
    }
}

} // verus!
