use vstd::prelude::*;

verus! {

/// The kind of backend that owns a buffer.
#[derive(Debug, Clone, Copy, PartialEq, Eq, Structural)]
pub enum Backend {
    Cpu,
    Cuda,
    Metal,
}

/// Where a tensor's storage lives: host memory or one accelerator.
#[derive(Debug, Clone, Copy, PartialEq, Eq, Structural)]
pub enum Device {
    Cpu,
    Cuda(usize),
    Metal(usize),
}

pub open spec fn backend_of(d: Device) -> Backend {
    match d {
        Device::Cpu => Backend::Cpu,
        Device::Cuda(_) => Backend::Cuda,
        Device::Metal(_) => Backend::Metal,
    }
}

impl Device {
    pub fn backend(&self) -> (r: Backend)
        ensures
            r == backend_of(*self),
    {
        match self {
            Device::Cpu => Backend::Cpu,
            Device::Cuda(_) => Backend::Cuda,
            Device::Metal(_) => Backend::Metal,
        }
    }

    pub fn is_cuda(&self) -> (r: bool)
        ensures
            r == (*self is Cuda),
    {
        match self {
            Device::Cuda(_) => true,
            _ => false,
        }
    }

    pub fn is_metal(&self) -> (r: bool)
        ensures
            r == (*self is Metal),
    {
        match self {
            Device::Metal(_) => true,
            _ => false,
        }
    }

    pub fn same_device(&self, other: &Device) -> (r: bool)
        ensures
            r == (*self == *other),
    {
        match (self, other) {
            (Device::Cpu, Device::Cpu) => true,
            (Device::Cuda(a), Device::Cuda(b)) => *a == *b,
            (Device::Metal(a), Device::Metal(b)) => *a == *b,
            _ => false,
        }
    }
}

} // verus!
