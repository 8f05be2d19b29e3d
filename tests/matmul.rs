use fused_ops::device::Device;
use fused_ops::dtype::DType;
use fused_ops::error::OpError;
use fused_ops::layout::Layout;
use fused_ops::matmul::{fused_batch_matmul, Activation, CublasLTBatchMatmul, CublasLt};
use fused_ops::tensor::Tensor;

const GPU: Device = Device::Cuda(0);

fn t(dtype: DType, device: Device, shape: &[usize]) -> Tensor {
    Tensor::contiguous(dtype, device, shape.to_vec()).unwrap()
}

fn handle() -> CublasLt {
    CublasLt::new(&GPU).unwrap()
}

#[test]
fn handle_needs_cuda_device() {
    assert_eq!(CublasLt::new(&Device::Cpu).err(), Some(OpError::BackendUnsupported));
    assert_eq!(CublasLt::new(&Device::Metal(0)).err(), Some(OpError::BackendUnsupported));
    assert_eq!(CublasLt::new(&Device::Cuda(3)).unwrap().ordinal, 3);
}

#[test]
fn output_shape_is_batch_n_m() {
    let a = t(DType::F32, GPU, &[2, 4, 8]);
    let b = t(DType::F32, GPU, &[2, 5, 8]);
    let l = fused_batch_matmul(&a, &b, None, None, None, handle()).unwrap();
    assert_eq!(l.out_shape, vec![2, 5, 4]);
    assert_eq!(l.dtype, DType::F32);
    assert!(l.config.transa);
    assert!(!l.config.transb);
    assert_eq!((l.config.m, l.config.n, l.config.k), (4, 5, 8));
    assert_eq!((l.config.lda, l.config.ldb, l.config.ldc), (8, 8, 4));
    assert_eq!((l.config.stride_a, l.config.stride_b, l.config.stride_c), (32, 40, 20));
    assert_eq!(l.config.batch_size, 2);
    assert!(!l.accumulate);
    assert_eq!(l.bias_start, None);
}

#[test]
fn bias_of_wrong_length_is_a_shape_mismatch() {
    let a = t(DType::F16, GPU, &[2, 4, 8]);
    let b = t(DType::F16, GPU, &[2, 5, 8]);
    let bias = t(DType::F16, GPU, &[5]);
    let r = fused_batch_matmul(&a, &b, None, Some(&bias), None, handle());
    assert_eq!(r.err(), Some(OpError::ShapeMismatch));
}

#[test]
fn bias_of_length_m_is_fused() {
    let a = t(DType::BF16, GPU, &[2, 4, 8]);
    let b = t(DType::BF16, GPU, &[2, 5, 8]);
    let layout = Layout::contiguous_with_offset(vec![4], 7).unwrap();
    let bias = Tensor::new(DType::BF16, GPU, layout);
    let l = fused_batch_matmul(&a, &b, None, Some(&bias), Some(Activation::Gelu), handle())
        .unwrap();
    assert_eq!(l.bias_start, Some(7));
    assert_eq!(l.act, Some(Activation::Gelu));
    assert_eq!(l.out_shape, vec![2, 5, 4]);
}

#[test]
fn accumulator_of_wrong_element_count_fails() {
    let a = t(DType::F32, GPU, &[2, 4, 8]);
    let b = t(DType::F32, GPU, &[2, 5, 8]);
    let c = t(DType::F32, GPU, &[2, 5, 5]);
    let r = fused_batch_matmul(&a, &b, Some(&c), None, None, handle());
    assert_eq!(r.err(), Some(OpError::ShapeMismatch));
    let c = t(DType::F32, GPU, &[2, 4, 5]);
    let r = fused_batch_matmul(&a, &b, Some(&c), None, None, handle());
    assert_eq!(r.err(), Some(OpError::ShapeMismatch));
}

#[test]
fn accumulator_of_right_shape_is_written_over() {
    let a = t(DType::F32, GPU, &[2, 4, 8]);
    let b = t(DType::F32, GPU, &[2, 5, 8]);
    let c = t(DType::F32, GPU, &[2, 5, 4]);
    let l = fused_batch_matmul(&a, &b, Some(&c), None, Some(Activation::Relu), handle()).unwrap();
    assert!(l.accumulate);
    assert_eq!(l.config.stride_c, 20);
    assert_eq!(l.act, Some(Activation::Relu));
}

#[test]
fn accumulator_must_be_contiguous_from_zero() {
    let a = t(DType::F32, GPU, &[2, 4, 8]);
    let b = t(DType::F32, GPU, &[2, 5, 8]);
    let shifted = Tensor::new(
        DType::F32,
        GPU,
        Layout::contiguous_with_offset(vec![2, 5, 4], 1).unwrap(),
    );
    let r = fused_batch_matmul(&a, &b, Some(&shifted), None, None, handle());
    assert_eq!(r.err(), Some(OpError::PreconditionViolation));
    let strided = Tensor::new(
        DType::F32,
        GPU,
        Layout::new(vec![2, 5, 4], vec![20, 1, 5], 0).unwrap(),
    );
    let r = fused_batch_matmul(&a, &b, Some(&strided), None, None, handle());
    assert_eq!(r.err(), Some(OpError::PreconditionViolation));
    let host = t(DType::F32, Device::Cpu, &[2, 5, 4]);
    let r = fused_batch_matmul(&a, &b, Some(&host), None, None, handle());
    assert_eq!(r.err(), Some(OpError::PreconditionViolation));
    let other_type = t(DType::F16, GPU, &[2, 5, 4]);
    let r = fused_batch_matmul(&a, &b, Some(&other_type), None, None, handle());
    assert_eq!(r.err(), Some(OpError::UnsupportedDType));
}

#[test]
fn operand_dimensions_must_agree() {
    let a = t(DType::F32, GPU, &[2, 4, 8]);
    let b = t(DType::F32, GPU, &[2, 5, 7]);
    let r = fused_batch_matmul(&a, &b, None, None, None, handle());
    assert_eq!(r.err(), Some(OpError::ShapeMismatch));
    let b = t(DType::F32, GPU, &[3, 5, 8]);
    let r = fused_batch_matmul(&a, &b, None, None, None, handle());
    assert_eq!(r.err(), Some(OpError::ShapeMismatch));
    let b = t(DType::F32, GPU, &[5, 8]);
    let r = fused_batch_matmul(&a, &b, None, None, None, handle());
    assert_eq!(r.err(), Some(OpError::ShapeMismatch));
}

#[test]
fn only_cuda_and_three_element_types() {
    let a = t(DType::F32, Device::Cpu, &[2, 4, 8]);
    let b = t(DType::F32, Device::Cpu, &[2, 5, 8]);
    let r = fused_batch_matmul(&a, &b, None, None, None, handle());
    assert_eq!(r.err(), Some(OpError::BackendUnsupported));
    let a = t(DType::F32, Device::Metal(0), &[2, 4, 8]);
    let b = t(DType::F32, Device::Metal(0), &[2, 5, 8]);
    let r = fused_batch_matmul(&a, &b, None, None, None, handle());
    assert_eq!(r.err(), Some(OpError::BackendUnsupported));
    let a = t(DType::F64, GPU, &[2, 4, 8]);
    let b = t(DType::F64, GPU, &[2, 5, 8]);
    let r = fused_batch_matmul(&a, &b, None, None, None, handle());
    assert_eq!(r.err(), Some(OpError::UnsupportedDType));
    let a = t(DType::F32, GPU, &[2, 4, 8]);
    let b = t(DType::F32, Device::Cuda(1), &[2, 5, 8]);
    let r = fused_batch_matmul(&a, &b, None, None, None, handle());
    assert_eq!(r.err(), Some(OpError::PreconditionViolation));
}

#[test]
fn typed_forwards_check_their_element_type() {
    let op = CublasLTBatchMatmul { cublaslt: handle(), act: None, c: None };
    let a = t(DType::F16, GPU, &[1, 2, 3]);
    let b = t(DType::F16, GPU, &[1, 4, 3]);
    assert!(op.fwd_f16(&a, &b, None).is_ok());
    assert_eq!(op.fwd_bf16(&a, &b, None).err(), Some(OpError::UnsupportedDType));
    assert_eq!(op.fwd_f32(&a, &b, None).err(), Some(OpError::UnsupportedDType));
    assert_eq!(op.cpu_fwd(&a, &b, None).err(), Some(OpError::BackendUnsupported));
    assert_eq!(op.cuda_fwd(&a, &b, None).unwrap().out_shape, vec![1, 4, 2]);
    assert_eq!(op.op(false).name(), "cublaslt-batch-matmul");
    assert_eq!(op.op(true).name(), "cublaslt-batch-matmul-add");
}

#[test]
fn batch_beyond_i32_is_refused() {
    let big = (i32::MAX as usize) + 1;
    let a = t(DType::F32, GPU, &[big, 1, 1]);
    let b = t(DType::F32, GPU, &[big, 1, 1]);
    let r = fused_batch_matmul(&a, &b, None, None, None, handle());
    assert_eq!(r.err(), Some(OpError::PreconditionViolation));
}
