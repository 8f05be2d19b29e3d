use fused_ops::device::Backend;
use fused_ops::registry::FusedOp;

#[test]
fn operator_names_are_stable() {
    assert_eq!(FusedOp::Sigmoid.name(), "sigmoid");
    assert_eq!(FusedOp::SoftmaxLastDim.name(), "softmax-last-dim");
    assert_eq!(FusedOp::AttnSoftmaxLastDim.name(), "attn-softmax-last-dim");
    assert_eq!(FusedOp::RmsNorm.name(), "rms-norm");
    assert_eq!(FusedOp::LayerNorm.name(), "layer-norm");
    assert_eq!(FusedOp::Sdpa.name(), "metal-sdpa");
    assert_eq!(FusedOp::BatchMatmul.name(), "cublaslt-batch-matmul");
    assert_eq!(FusedOp::BatchMatmulAdd.name(), "cublaslt-batch-matmul-add");
}

#[test]
fn operator_capabilities() {
    assert_eq!(FusedOp::Sigmoid.arity(), 1);
    assert_eq!(FusedOp::RmsNorm.arity(), 2);
    assert_eq!(FusedOp::LayerNorm.arity(), 3);
    assert_eq!(FusedOp::Sdpa.arity(), 3);
    assert_eq!(FusedOp::BatchMatmul.arity(), 2);
    assert_eq!(FusedOp::BatchMatmulAdd.arity(), 3);
    assert!(FusedOp::SoftmaxLastDim.has_in_place_form());
    assert!(FusedOp::AttnSoftmaxLastDim.has_in_place_form());
    assert!(!FusedOp::RmsNorm.has_in_place_form());
    assert!(FusedOp::Sigmoid.has_backward());
    assert!(!FusedOp::SoftmaxLastDim.has_backward());
    assert!(!FusedOp::LayerNorm.has_backward());
    assert!(FusedOp::Sdpa.runs_on(Backend::Metal));
    assert!(!FusedOp::Sdpa.runs_on(Backend::Cpu));
    assert!(FusedOp::BatchMatmul.runs_on(Backend::Cuda));
    assert!(!FusedOp::BatchMatmulAdd.runs_on(Backend::Cpu));
    assert!(FusedOp::RmsNorm.runs_on(Backend::Cpu));
}
