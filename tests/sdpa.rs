use fused_ops::device::Device;
use fused_ops::dtype::DType;
use fused_ops::error::OpError;
use fused_ops::sdpa::{sdpa, SdpaKernel};
use fused_ops::tensor::Tensor;

const MTL: Device = Device::Metal(0);

fn t(dtype: DType, device: Device, shape: &[usize]) -> Tensor {
    Tensor::contiguous(dtype, device, shape.to_vec()).unwrap()
}

#[test]
fn single_query_uses_vector_kernel() {
    let q = t(DType::F16, MTL, &[1, 8, 1, 64]);
    let k = t(DType::F16, MTL, &[1, 2, 100, 64]);
    let v = t(DType::F16, MTL, &[1, 2, 100, 32]);
    let l = sdpa(&q, &k, &v).unwrap();
    assert_eq!(l.kernel, SdpaKernel::Vector);
    assert_eq!(l.out_shape, vec![1, 8, 1, 32]);
    assert!(l.partials_shape.is_empty());
    assert!(l.stats_shape.is_empty());
}

#[test]
fn long_context_uses_two_pass_kernel() {
    let q = t(DType::BF16, MTL, &[2, 4, 1, 128]);
    let k = t(DType::BF16, MTL, &[2, 4, 2000, 128]);
    let v = t(DType::BF16, MTL, &[2, 4, 2000, 128]);
    let l = sdpa(&q, &k, &v).unwrap();
    assert_eq!(l.kernel, SdpaKernel::VectorTwoPass);
    assert_eq!(l.partials_shape, vec![2, 4, 32, 128]);
    assert_eq!(l.stats_shape, vec![2, 4, 32]);
    let k = t(DType::BF16, MTL, &[2, 4, 1024, 128]);
    let v = t(DType::BF16, MTL, &[2, 4, 1024, 128]);
    assert_eq!(sdpa(&q, &k, &v).unwrap().kernel, SdpaKernel::Vector);
    let k = t(DType::BF16, MTL, &[2, 4, 1025, 128]);
    let v = t(DType::BF16, MTL, &[2, 4, 1025, 128]);
    assert_eq!(sdpa(&q, &k, &v).unwrap().kernel, SdpaKernel::VectorTwoPass);
}

#[test]
fn equal_lengths_use_full_kernel() {
    let q = t(DType::F32, MTL, &[1, 4, 16, 32]);
    let k = t(DType::F32, MTL, &[1, 4, 16, 32]);
    let v = t(DType::F32, MTL, &[1, 4, 16, 96]);
    let l = sdpa(&q, &k, &v).unwrap();
    assert_eq!(l.kernel, SdpaKernel::Full);
    assert_eq!(l.out_shape, vec![1, 4, 16, 96]);
}

#[test]
fn unsupported_head_dim_is_refused() {
    let q = t(DType::F32, MTL, &[1, 4, 1, 17]);
    let k = t(DType::F32, MTL, &[1, 4, 9, 17]);
    let v = t(DType::F32, MTL, &[1, 4, 9, 17]);
    assert_eq!(sdpa(&q, &k, &v).err(), Some(OpError::PreconditionViolation));
}

#[test]
fn query_heads_must_group_kv_heads() {
    let q = t(DType::F32, MTL, &[1, 6, 1, 64]);
    let k = t(DType::F32, MTL, &[1, 4, 9, 64]);
    let v = t(DType::F32, MTL, &[1, 4, 9, 64]);
    assert_eq!(sdpa(&q, &k, &v).err(), Some(OpError::PreconditionViolation));
}

#[test]
fn full_path_refuses_grouping_and_cross_attention() {
    let q = t(DType::F32, MTL, &[1, 8, 16, 64]);
    let k = t(DType::F32, MTL, &[1, 4, 16, 64]);
    let v = t(DType::F32, MTL, &[1, 4, 16, 64]);
    assert_eq!(sdpa(&q, &k, &v).err(), Some(OpError::PreconditionViolation));
    let q = t(DType::F32, MTL, &[1, 4, 16, 64]);
    let k = t(DType::F32, MTL, &[1, 4, 20, 64]);
    let v = t(DType::F32, MTL, &[1, 4, 20, 64]);
    assert_eq!(sdpa(&q, &k, &v).err(), Some(OpError::PreconditionViolation));
}

#[test]
fn mismatched_operands_are_refused() {
    let q = t(DType::F32, MTL, &[1, 4, 1, 64]);
    let k = t(DType::F32, MTL, &[1, 4, 9, 32]);
    let v = t(DType::F32, MTL, &[1, 4, 9, 64]);
    assert_eq!(sdpa(&q, &k, &v).err(), Some(OpError::PreconditionViolation));
    let k = t(DType::F32, MTL, &[1, 4, 9, 64]);
    let v = t(DType::F32, MTL, &[1, 2, 9, 64]);
    assert_eq!(sdpa(&q, &k, &v).err(), Some(OpError::PreconditionViolation));
    let v = t(DType::F16, MTL, &[1, 4, 9, 64]);
    assert_eq!(sdpa(&q, &k, &v).err(), Some(OpError::PreconditionViolation));
    let v = t(DType::F32, MTL, &[4, 9, 64]);
    assert_eq!(sdpa(&q, &k, &v).err(), Some(OpError::ShapeMismatch));
}

#[test]
fn only_metal_and_three_element_types() {
    let q = t(DType::F32, Device::Cpu, &[1, 4, 1, 64]);
    let k = t(DType::F32, Device::Cpu, &[1, 4, 9, 64]);
    let v = t(DType::F32, Device::Cpu, &[1, 4, 9, 64]);
    assert_eq!(sdpa(&q, &k, &v).err(), Some(OpError::BackendUnsupported));
    let q = t(DType::F32, Device::Cuda(0), &[1, 4, 1, 64]);
    let k = t(DType::F32, Device::Cuda(0), &[1, 4, 9, 64]);
    let v = t(DType::F32, Device::Cuda(0), &[1, 4, 9, 64]);
    assert_eq!(sdpa(&q, &k, &v).err(), Some(OpError::BackendUnsupported));
    let q = t(DType::F64, MTL, &[1, 4, 1, 64]);
    let k = t(DType::F64, MTL, &[1, 4, 9, 64]);
    let v = t(DType::F64, MTL, &[1, 4, 9, 64]);
    assert_eq!(sdpa(&q, &k, &v).err(), Some(OpError::UnsupportedDType));
}
