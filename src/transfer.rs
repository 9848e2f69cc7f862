use core::marker::PhantomData;
use vstd::layout::size_of;
use vstd::prelude::*;

use crate::error::{CUDAError, DriverReply, CUDA_SUCCESS};
use crate::runtime::Runtime;

verus! {

/// An address in device memory.
pub type DevicePtr = u64;

/// Copy of host data into a freshly allocated device region, one driver call
/// at a time: allocation of the region, then the host-to-device copy. A region
/// of zero bytes needs neither call and is done at once.
#[derive(Debug, Clone, Copy, PartialEq, Eq, Structural)]
pub enum Upload {
    /// Allocate `bytes` bytes of device memory.
    Allocate { bytes: usize },
    /// Copy `bytes` bytes of the host data to the device address `ptr`.
    Copy { ptr: DevicePtr, bytes: usize },
    /// Done: the device address of the filled region.
    Uploaded { ptr: DevicePtr },
    /// Done: the first failure met.
    Failed(CUDAError),
}

impl Upload {
    pub open spec fn start_spec(bytes: usize) -> Upload {
        if bytes == 0 {
            Upload::Uploaded { ptr: 0 }
        } else {
            Upload::Allocate { bytes }
        }
    }

    /// Whether `reply` is the kind of answer the pending call gives.
    pub open spec fn expects(self, reply: DriverReply) -> bool {
        match self {
            Upload::Allocate { .. } => reply is Handle,
            Upload::Copy { .. } => reply is Status,
            _ => false,
        }
    }

    pub open spec fn is_finished_spec(self) -> bool {
        self is Uploaded || self is Failed
    }

    /// The state that follows the pending call's reply.
    pub open spec fn next(self, reply: DriverReply) -> Upload {
        match (self, reply) {
            (Upload::Allocate { bytes }, DriverReply::Handle { status, handle }) => {
                if status == CUDA_SUCCESS {
                    Upload::Copy { ptr: handle, bytes }
                } else {
                    Upload::Failed(CUDAError::CUResult(status))
                }
            },
            (Upload::Copy { ptr, .. }, DriverReply::Status(status)) => {
                if status == CUDA_SUCCESS {
                    Upload::Uploaded { ptr }
                } else {
                    Upload::Failed(CUDAError::CUResult(status))
                }
            },
            _ => self,
        }
    }

    /// Where the upload of `bytes` bytes begins.
    pub fn start(bytes: usize) -> (r: Upload)
        ensures
            r == Upload::start_spec(bytes),
    {
        if bytes == 0 {
            Upload::Uploaded { ptr: 0 }
        } else {
            Upload::Allocate { bytes }
        }
    }

    /// Whether the upload has ended, filled or failed.
    pub fn is_finished(&self) -> (r: bool)
        ensures
            r == self.is_finished_spec(),
    {
        match self {
            Upload::Uploaded { .. } | Upload::Failed(_) => true,
            _ => false,
        }
    }

    /// Whether `reply` answers the pending call.
    pub fn accepts(&self, reply: &DriverReply) -> (r: bool)
        ensures
            r == self.expects(*reply),
    {
        match (self, reply) {
            (Upload::Allocate { .. }, DriverReply::Handle { .. }) => true,
            (Upload::Copy { .. }, DriverReply::Status(_)) => true,
            _ => false,
        }
    }

    /// Advances the upload by the reply of the pending call.
    pub fn step(self, reply: DriverReply) -> (r: Upload)
        requires
            self.expects(reply),
        ensures
            r == self.next(reply),
    {
        match (self, reply) {
            (Upload::Allocate { bytes }, DriverReply::Handle { status, handle }) => {
                if status == CUDA_SUCCESS {
                    Upload::Copy { ptr: handle, bytes }
                } else {
                    Upload::Failed(CUDAError::new(status))
                }
            },
            (Upload::Copy { ptr, .. }, DriverReply::Status(status)) => {
                if status == CUDA_SUCCESS {
                    Upload::Uploaded { ptr }
                } else {
                    Upload::Failed(CUDAError::new(status))
                }
            },
            _ => self,
        }
    }
}

/// The host-side result of a device-to-host copy: the filled host value where
/// the copy succeeded, else the copy's status code.
pub open spec fn copy_result<V>(status: u32, host: V) -> Result<V, CUDAError> {
    if status == CUDA_SUCCESS {
        Ok(host)
    } else {
        Err(CUDAError::CUResult(status))
    }
}

/// Exclusive handle on a device region that holds one value of type `T`.
pub struct CUDABox<T> {
    ptr: DevicePtr,
    marker: PhantomData<T>,
}

impl<T> CUDABox<T> {
    /// The device address of the region.
    pub closed spec fn addr(&self) -> DevicePtr {
        self.ptr
    }

    /// The size of the region in bytes.
    pub open spec fn byte_len(&self) -> nat {
        size_of::<T>()
    }

    /// The handle on the region at device address `ptr`, filled by an upload.
    pub fn new(ptr: DevicePtr) -> (r: CUDABox<T>)
        ensures
            r.addr() == ptr,
    {
        CUDABox { ptr, marker: PhantomData }
    }

    /// The device address of the region, as a kernel receives it.
    pub fn get(&self) -> (r: DevicePtr)
        ensures
            r == self.addr(),
    {
        self.ptr
    }

    /// The device-to-host copy that reads the value back: the source address
    /// and the byte count, or `None` for a value of no bytes, which needs no
    /// copy.
    pub fn read_back(&self) -> (r: Option<(DevicePtr, usize)>)
        ensures
            r == (if self.byte_len() == 0 {
                None
            } else {
                Some((self.addr(), self.byte_len() as usize))
            }),
    {
        let bytes = core::mem::size_of::<T>();
        if bytes == 0 {
            None
        } else {
            Some((self.ptr, bytes))
        }
    }

    /// Ends a read-back: `status` is the copy's status (`CUDA_SUCCESS` where
    /// no copy was needed), `host` the value the copy filled.
    pub fn to_host_result(&self, status: u32, host: T) -> (r: Result<T, CUDAError>)
        ensures
            r == copy_result(status, host),
    {
        if status == CUDA_SUCCESS {
            Ok(host)
        } else {
            Err(CUDAError::new(status))
        }
    }
}

/// Exclusive handle on a device region that holds `len` contiguous values of
/// type `T`; its byte size fits in `usize`.
pub struct CUDASlice<T> {
    ptr: DevicePtr,
    len: usize,
    marker: PhantomData<T>,
}

impl<T> CUDASlice<T> {
    /// The device address of the region.
    pub closed spec fn addr(&self) -> DevicePtr {
        self.ptr
    }

    /// The number of values in the region.
    pub closed spec fn len_spec(&self) -> nat {
        self.len as nat
    }

    /// The size of the region in bytes.
    pub open spec fn byte_len(&self) -> nat {
        size_of::<T>() * self.len_spec()
    }

    /// Whether the byte size of the region fits in `usize`.
    pub open spec fn wf(&self) -> bool {
        self.byte_len() <= usize::MAX
    }

    /// The handle on the region of `len` values at device address `ptr`,
    /// filled by an upload.
    pub fn new(ptr: DevicePtr, len: usize) -> (r: CUDASlice<T>)
        requires
            size_of::<T>() * len <= usize::MAX,
        ensures
            r.addr() == ptr,
            r.len_spec() == len,
            r.wf(),
    {
        CUDASlice { ptr, len, marker: PhantomData }
    }

    /// The device address of the region, as a kernel receives it.
    pub fn get(&self) -> (r: DevicePtr)
        ensures
            r == self.addr(),
    {
        self.ptr
    }

    /// The number of values in the region.
    pub fn len(&self) -> (r: usize)
        ensures
            r == self.len_spec(),
    {
        self.len
    }

    /// The device-to-host copy that reads the values back, as one bulk copy:
    /// the source address and the byte count, or `None` for a region of no
    /// bytes, which needs no copy.
    pub fn read_back(&self) -> (r: Option<(DevicePtr, usize)>)
        requires
            self.wf(),
        ensures
            r == (if self.byte_len() == 0 {
                None
            } else {
                Some((self.addr(), self.byte_len() as usize))
            }),
    {
        let bytes = core::mem::size_of::<T>() * self.len;
        if bytes == 0 {
            None
        } else {
            Some((self.ptr, bytes))
        }
    }

    /// Ends a read-back: `status` is the copy's status (`CUDA_SUCCESS` where
    /// no copy was needed), `host` the `len` values the copy filled.
    pub fn to_host_result(&self, status: u32, host: Vec<T>) -> (r: Result<Vec<T>, CUDAError>)
        requires
            host@.len() == self.len_spec(),
        ensures
            r == copy_result(status, host),
    {
        if status == CUDA_SUCCESS {
            Ok(host)
        } else {
            Err(CUDAError::new(status))
        }
    }
}

impl Runtime {
    /// Begins copying the value `x` into a fresh device region of its size.
    pub fn alloc_box<T>(&self, x: &T) -> (r: Upload)
        ensures
            r == Upload::start_spec(size_of::<T>() as usize),
    {
        Upload::start(core::mem::size_of::<T>())
    }

    /// Begins copying the values `xs` into a fresh device region of their
    /// total size.
    pub fn alloc_slice<T>(&self, xs: &[T]) -> (r: Upload)
        ensures
            size_of::<T>() * xs@.len() <= usize::MAX,
            r == Upload::start_spec((size_of::<T>() * xs@.len()) as usize),
    {
        broadcast use vstd::layout::layout_of_slices;

        let bytes = core::mem::size_of_val(xs);
        proof {
            vstd::arithmetic::mul::lemma_mul_is_commutative(
                xs@.len() as int,
                size_of::<T>() as int,
            );
        }
        Upload::start(bytes)
    }
}

} // verus!
