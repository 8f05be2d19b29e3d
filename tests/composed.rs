use fused_ops::composed::{
    broadcast_shape, layer_norm_slow, log_softmax, rms_norm_slow, softmax, swiglu,
};
use fused_ops::device::Device;
use fused_ops::dtype::DType;
use fused_ops::error::OpError;
use fused_ops::layout::Layout;
use fused_ops::rowwise::{layer_norm, rms_norm, softmax_last_dim};
use fused_ops::tensor::{Dim, Tensor};

fn t(dtype: DType, device: Device, shape: &[usize]) -> Tensor {
    Tensor::contiguous(dtype, device, shape.to_vec()).unwrap()
}

#[test]
fn broadcasting_aligns_trailing_dimensions() {
    assert_eq!(broadcast_shape(&vec![2, 3, 4], &vec![4]).unwrap(), vec![2, 3, 4]);
    assert_eq!(broadcast_shape(&vec![2, 1, 4], &vec![3, 1]).unwrap(), vec![2, 3, 4]);
    assert_eq!(broadcast_shape(&vec![], &vec![5]).unwrap(), vec![5]);
    assert_eq!(broadcast_shape(&vec![2, 3], &vec![4]).err(), Some(OpError::ShapeMismatch));
}

#[test]
fn composed_softmax_accepts_any_layout() {
    let layout = Layout::new(vec![3, 4], vec![1, 3], 2).unwrap();
    let xs = Tensor::new(DType::F32, Device::Cpu, layout);
    let out = softmax(&xs, Dim::Minus(1)).unwrap();
    assert_eq!(out.dims(), &vec![3, 4]);
    assert!(out.layout.is_contiguous());
    assert_eq!(log_softmax(&xs, Dim::Index(0)).unwrap().dims(), &vec![3, 4]);
    assert_eq!(softmax(&xs, Dim::Index(2)).err(), Some(OpError::ShapeMismatch));
    assert_eq!(softmax(&xs, Dim::Minus(3)).err(), Some(OpError::ShapeMismatch));
    let ints = t(DType::I64, Device::Cpu, &[3, 4]);
    assert_eq!(log_softmax(&ints, Dim::Minus(1)).err(), Some(OpError::UnsupportedDType));
}

#[test]
fn fused_and_composed_softmax_agree_on_result_shape() {
    let xs = t(DType::BF16, Device::Cuda(0), &[2, 5, 7]);
    let fused = softmax_last_dim(&xs).unwrap();
    let composed = softmax(&xs, Dim::Minus(1)).unwrap();
    assert_eq!(&fused.out_shape, composed.dims());
    assert_eq!(fused.dtype, composed.dtype);
}

#[test]
fn rms_norm_slow_broadcasts_alpha() {
    let x = t(DType::F16, Device::Cpu, &[2, 8]);
    let alpha = t(DType::F16, Device::Cpu, &[8]);
    let slow = rms_norm_slow(&x, &alpha).unwrap();
    let fused = rms_norm(&x, &alpha).unwrap();
    assert_eq!(slow.dims(), &fused.out_shape);
    assert_eq!(slow.dtype, DType::F16);
    let alpha = t(DType::F16, Device::Cpu, &[1]);
    assert_eq!(rms_norm_slow(&x, &alpha).unwrap().dims(), &vec![2, 8]);
    let alpha = t(DType::F16, Device::Cpu, &[3]);
    assert_eq!(rms_norm_slow(&x, &alpha).err(), Some(OpError::ShapeMismatch));
    let alpha = t(DType::F32, Device::Cpu, &[8]);
    assert_eq!(rms_norm_slow(&x, &alpha).err(), Some(OpError::UnsupportedDType));
}

#[test]
fn layer_norm_slow_matches_fused_shape() {
    let x = t(DType::F32, Device::Cpu, &[4, 6]);
    let alpha = t(DType::F32, Device::Cpu, &[6]);
    let beta = t(DType::F32, Device::Cpu, &[6]);
    let slow = layer_norm_slow(&x, &alpha, &beta).unwrap();
    let fused = layer_norm(&x, &alpha, &beta).unwrap();
    assert_eq!(slow.dims(), &fused.out_shape);
    let beta = t(DType::F32, Device::Cpu, &[5]);
    assert_eq!(layer_norm_slow(&x, &alpha, &beta).err(), Some(OpError::ShapeMismatch));
    let beta = t(DType::F32, Device::Metal(0), &[6]);
    assert_eq!(
        layer_norm_slow(&x, &alpha, &beta).err(),
        Some(OpError::PreconditionViolation)
    );
}

#[test]
fn swiglu_halves_the_last_dimension() {
    let xs = t(DType::F32, Device::Cpu, &[2, 6]);
    assert_eq!(swiglu(&xs).unwrap().dims(), &vec![2, 3]);
    let odd = t(DType::F32, Device::Cpu, &[2, 5]);
    assert_eq!(swiglu(&odd).err(), Some(OpError::ShapeMismatch));
    let empty = t(DType::F32, Device::Cpu, &[2, 0]);
    assert_eq!(swiglu(&empty).err(), Some(OpError::ShapeMismatch));
    let ints = t(DType::I32, Device::Cpu, &[2, 6]);
    assert_eq!(swiglu(&ints).err(), Some(OpError::UnsupportedDType));
}
