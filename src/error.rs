use vstd::prelude::*;

verus! {

/// Status code that the driver returns on success.
pub const CUDA_SUCCESS: u32 = 0;

/// The failures surfaced by every fallible operation of the runtime.
#[derive(Debug, Clone, Copy, PartialEq, Eq, Structural)]
pub enum CUDAError {
    /// A native driver call returned this non-success status code.
    CUResult(u32),
    /// The requested device ordinal is not below the number of devices.
    DeviceIdIsOutOfRange,
    /// A launch named a kernel entry point that was never registered.
    UnregisteredFunction,
}

impl CUDAError {
    /// Wraps a status code returned by the driver.
    pub fn new(code: u32) -> (r: CUDAError)
        ensures
            r == CUDAError::CUResult(code),
    {
        CUDAError::CUResult(code)
    }
}

/// The answer of one native driver call, as the caller observed it.
#[derive(Debug, Clone, Copy, PartialEq, Eq, Structural)]
pub enum DriverReply {
    /// A call that returns only a status code.
    Status(u32),
    /// The device enumeration: its status and the number of devices.
    Count { status: u32, count: i32 },
    /// A call that creates an object: its status and the handle it wrote.
    Handle { status: u32, handle: u64 },
}

} // verus!
