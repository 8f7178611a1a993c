//! What the pipeline relies on from the tensor library.
//!
//! Tensors, devices and the tensor library's errors are opaque here. The
//! contracts below are taken on trust from the tensor library's source; the
//! rest of the crate is proved from them.

use vstd::prelude::*;
use candle_core::{Device, Tensor};

verus! {

/// A tensor of the tensor library, carried through as an opaque value.
#[verifier::external_type_specification]
#[verifier::external_body]
pub struct ExTensor(candle_core::Tensor);

/// A compute device of the tensor library, carried through as an opaque value.
#[verifier::external_type_specification]
#[verifier::external_body]
pub struct ExDevice(candle_core::Device);

/// The tensor library's error, carried through as an opaque value.
#[verifier::external_type_specification]
#[verifier::external_body]
pub struct ExTensorError(candle_core::Error);

/// The dimensions of a tensor, outermost first.
pub uninterp spec fn tensor_shape(t: Tensor) -> Seq<usize>;

/// Whether a tensor's elements are single-precision floats.
pub uninterp spec fn tensor_is_f32(t: Tensor) -> bool;

/// Whether a tensor's elements lie in memory in row-major order without
/// gaps.
pub uninterp spec fn tensor_is_contiguous(t: Tensor) -> bool;

/// The elements of a tensor in row-major order, each as the bit pattern of
/// the single-precision float that the tensor library converts it to. For a
/// single-precision tensor these are the elements themselves.
pub uninterp spec fn tensor_f32_bits(t: Tensor) -> Seq<u32>;

/// Whether a device is a CUDA accelerator.
pub uninterp spec fn device_is_cuda(d: Device) -> bool;

/// The shape left when a leading dimension of size one is dropped; any other
/// shape stays as it is.
pub open spec fn squeezed_front(shape: Seq<usize>) -> Seq<usize> {
    if shape.len() > 0 && shape[0] == 1 {
        shape.drop_first()
    } else {
        shape
    }
}

/// `Tensor::squeeze` on dimension 0.
///
/// Trusted: the call fails on a tensor without dimensions. It succeeds where
/// the leading dimension is not one, and on every contiguous tensor that has
/// a dimension. Whenever it succeeds the result has the leading dimension
/// dropped if that was one, the elements and the element type of the
/// argument, and is contiguous if the argument is.
#[verifier::external_body]
pub(crate) fn squeeze_front(t: &Tensor) -> (r: Result<Tensor, candle_core::Error>)
    ensures
        tensor_shape(*t).len() == 0 ==> r is Err,
        tensor_shape(*t).len() > 0 && tensor_shape(*t)[0] != 1 ==> r is Ok,
        tensor_shape(*t).len() > 0 && tensor_is_contiguous(*t) ==> r is Ok,
        r matches Ok(s) ==> {
            &&& tensor_shape(s) == squeezed_front(tensor_shape(*t))
            &&& tensor_is_f32(s) == tensor_is_f32(*t)
            &&& tensor_f32_bits(s) == tensor_f32_bits(*t)
            &&& tensor_is_contiguous(*t) ==> tensor_is_contiguous(s)
        },
{
    t.squeeze(0)
}

/// `Tensor::to_dtype` with single precision as the target.
///
/// Trusted: the call succeeds on a tensor that is single precision already.
/// Whenever it succeeds the result is single precision, has the argument's
/// shape, and holds the argument's elements converted to single precision.
#[verifier::external_body]
pub(crate) fn to_single_precision(t: &Tensor) -> (r: Result<Tensor, candle_core::Error>)
    ensures
        tensor_is_f32(*t) ==> r is Ok,
        r matches Ok(s) ==> {
            &&& tensor_shape(s) == tensor_shape(*t)
            &&& tensor_is_f32(s)
            &&& tensor_f32_bits(s) == tensor_f32_bits(*t)
        },
{
    t.to_dtype(candle_core::DType::F32)
}

/// `Device::is_cuda`.
///
/// Trusted: the result is the device's own answer, which depends on nothing
/// but the device.
#[verifier::external_body]
pub(crate) fn is_cuda(d: &Device) -> (r: bool)
    ensures
        r == device_is_cuda(*d),
{
    d.is_cuda()
}

} // verus!
