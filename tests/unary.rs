use fused_ops::device::Device;
use fused_ops::dtype::DType;
use fused_ops::error::OpError;
use fused_ops::layout::Layout;
use fused_ops::tensor::Tensor;
use fused_ops::unary::{sigmoid, SigmoidPath};

fn t(dtype: DType, device: Device, shape: &[usize]) -> Tensor {
    Tensor::contiguous(dtype, device, shape.to_vec()).unwrap()
}

#[test]
fn sigmoid_on_host_follows_strides() {
    let layout = Layout::new(vec![3, 4], vec![1, 3], 2).unwrap();
    let xs = Tensor::new(DType::F64, Device::Cpu, layout);
    let l = sigmoid(&xs).unwrap();
    assert_eq!(l.path, SigmoidPath::Host);
    assert_eq!((l.src_start, l.elem_count), (2, 12));
    assert_eq!(l.out_shape, vec![3, 4]);
    let ints = t(DType::I32, Device::Cpu, &[3]);
    assert_eq!(sigmoid(&ints).err(), Some(OpError::UnsupportedDType));
}

#[test]
fn sigmoid_cuda_grid_covers_every_element() {
    let xs = t(DType::F32, Device::Cuda(0), &[2049]);
    assert_eq!(sigmoid(&xs).unwrap().path, SigmoidPath::CudaGrid { blocks: 3, threads: 1024 });
    let xs = t(DType::F32, Device::Cuda(0), &[2, 1024]);
    assert_eq!(sigmoid(&xs).unwrap().path, SigmoidPath::CudaGrid { blocks: 2, threads: 1024 });
    let xs = t(DType::F32, Device::Cuda(0), &[0]);
    assert_eq!(sigmoid(&xs).unwrap().path, SigmoidPath::CudaGrid { blocks: 0, threads: 1024 });
    let xs = t(DType::F32, Device::Cuda(0), &[1 << 32]);
    assert_eq!(sigmoid(&xs).err(), Some(OpError::ShapeTooLarge));
}

#[test]
fn sigmoid_metal_kernel_choice() {
    let dev = Device::Metal(0);
    assert_eq!(sigmoid(&t(DType::F16, dev, &[4])).unwrap().path, SigmoidPath::MetalTiled);
    assert_eq!(sigmoid(&t(DType::F16, dev, &[5])).unwrap().path, SigmoidPath::MetalContiguous);
    assert_eq!(sigmoid(&t(DType::F32, dev, &[4])).unwrap().path, SigmoidPath::MetalContiguous);
    let strided = Tensor::new(DType::BF16, dev, Layout::new(vec![4], vec![2], 0).unwrap());
    assert_eq!(sigmoid(&strided).unwrap().path, SigmoidPath::MetalStrided);
    assert_eq!(sigmoid(&t(DType::F64, dev, &[4])).err(), Some(OpError::UnsupportedDType));
}
