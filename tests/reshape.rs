use fused_ops::device::Device;
use fused_ops::dtype::DType;
use fused_ops::error::OpError;
use fused_ops::layout::Layout;
use fused_ops::reshape::{kvconcat, pixel_shuffle, pixel_unshuffle, replication_pad2d, Identity};
use fused_ops::tensor::Tensor;

fn t(dtype: DType, device: Device, shape: &[usize]) -> Tensor {
    Tensor::contiguous(dtype, device, shape.to_vec()).unwrap()
}

#[test]
fn pixel_shuffle_moves_channels_into_space() {
    let xs = t(DType::F32, Device::Cpu, &[1, 8, 3, 5]);
    assert_eq!(pixel_shuffle(&xs, 2).unwrap().dims(), &vec![1, 2, 6, 10]);
    let xs = t(DType::F32, Device::Cpu, &[1, 6, 3, 5]);
    assert_eq!(pixel_shuffle(&xs, 2).err(), Some(OpError::ShapeMismatch));
    assert_eq!(pixel_shuffle(&xs, 0).err(), Some(OpError::OutOfDomain));
    let xs = t(DType::F32, Device::Cpu, &[6, 3, 5]);
    assert_eq!(pixel_shuffle(&xs, 1).err(), Some(OpError::ShapeMismatch));
}

#[test]
fn pixel_unshuffle_inverts_shuffle() {
    let xs = t(DType::F16, Device::Cpu, &[2, 3, 8, 4]);
    let down = pixel_unshuffle(&xs, 2).unwrap();
    assert_eq!(down.dims(), &vec![2, 12, 4, 2]);
    assert_eq!(pixel_shuffle(&down, 2).unwrap().dims(), &vec![2, 3, 8, 4]);
    let xs = t(DType::F16, Device::Cpu, &[2, 3, 7, 4]);
    assert_eq!(pixel_unshuffle(&xs, 2).err(), Some(OpError::ShapeMismatch));
    assert_eq!(pixel_unshuffle(&xs, 0).err(), Some(OpError::OutOfDomain));
}

#[test]
fn replication_pad_grows_spatial_dimensions() {
    let layout = Layout::new(vec![1, 2, 3, 4], vec![24, 1, 8, 2], 5).unwrap();
    let xs = Tensor::new(DType::F32, Device::Cpu, layout);
    let same = replication_pad2d(&xs, 0).unwrap();
    assert_eq!(same.dims(), &vec![1, 2, 3, 4]);
    assert_eq!(same.layout.stride(), &vec![24, 1, 8, 2]);
    assert_eq!(same.layout.start_offset(), 5);
    let padded = replication_pad2d(&xs, 1).unwrap();
    assert_eq!(padded.dims(), &vec![1, 2, 5, 6]);
    assert!(padded.layout.is_contiguous());
    assert_eq!(replication_pad2d(&xs, 2).err(), Some(OpError::OutOfDomain));
    let empty = t(DType::F32, Device::Cpu, &[1, 2, 0, 4]);
    assert_eq!(replication_pad2d(&empty, 1).err(), Some(OpError::ShapeMismatch));
}

#[test]
fn kvconcat_joins_along_one_dimension() {
    let l = t(DType::BF16, Device::Cuda(0), &[1, 4, 10, 64]);
    let r = t(DType::BF16, Device::Cuda(0), &[1, 4, 3, 64]);
    assert_eq!(kvconcat(&l, &r, 2).unwrap().dims(), &vec![1, 4, 13, 64]);
    assert_eq!(kvconcat(&l, &r, 1).err(), Some(OpError::ShapeMismatch));
    assert_eq!(kvconcat(&l, &r, 4).err(), Some(OpError::ShapeMismatch));
    let r = t(DType::F16, Device::Cuda(0), &[1, 4, 3, 64]);
    assert_eq!(kvconcat(&l, &r, 2).err(), Some(OpError::UnsupportedDType));
    let r = t(DType::BF16, Device::Cpu, &[1, 4, 3, 64]);
    assert_eq!(kvconcat(&l, &r, 2).err(), Some(OpError::PreconditionViolation));
}

#[test]
fn identity_returns_its_input() {
    let layout = Layout::new(vec![2, 2], vec![1, 2], 4).unwrap();
    let xs = Tensor::new(DType::U32, Device::Metal(1), layout);
    let out = Identity::new().forward(&xs);
    assert_eq!(out.dims(), &vec![2, 2]);
    assert_eq!(out.layout.stride(), &vec![1, 2]);
    assert_eq!(out.layout.start_offset(), 4);
    assert_eq!(out.dtype, DType::U32);
    assert_eq!(out.device, Device::Metal(1));
    assert_eq!(Identity::default(), Identity::new());
}
