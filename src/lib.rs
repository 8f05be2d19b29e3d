//! Operator dispatch and launch planning for fused tensor kernels.
//!
//! Every public operator validates its operands (shape, element type,
//! layout, backend) and, on success, returns a launch description that names
//! the kernel to run and the exact buffer geometry it works on. Computing the
//! floating-point results is left to the backend that executes the launch.
pub mod error;
pub mod dtype;
pub mod device;
pub mod layout;
pub mod tensor;
pub mod matmul;
pub mod sdpa;
pub mod rowwise;
pub mod unary;
pub mod composed;
pub mod consistency;
pub mod reshape;
pub mod registry;
