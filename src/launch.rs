use vstd::layout::size_of;
use vstd::prelude::*;

use crate::error::{CUDAError, DriverReply, CUDA_SUCCESS};
use crate::runtime::Runtime;
use crate::setup::Setup;
use crate::transfer::{copy_result, Upload};

verus! {

/// A three-dimensional launch shape, as the driver takes it.
#[derive(Debug, Clone, Copy, PartialEq, Eq, Structural)]
pub struct Dim3 {
    pub x: u32,
    pub y: u32,
    pub z: u32,
}

/// A kernel launch, one driver call at a time: resolution of the registered
/// symbol in the module, upload of the argument struct into a fresh device
/// region, then the launch itself with that region's address as the kernel's
/// one parameter, no dynamic shared memory, on the default stream.
#[derive(Debug)]
pub enum Launch {
    /// Resolve the symbol `name` in the module `module`.
    GetFunction { module: u64, name: String, args_bytes: usize, grid: Dim3, block: Dim3 },
    /// Upload the argument struct; `upload` names the pending call.
    Arguments { function: u64, upload: Upload, grid: Dim3, block: Dim3 },
    /// Launch `function` with the argument region at device address `args`.
    Kernel { function: u64, args: u64, grid: Dim3, block: Dim3 },
    /// Done: the kernel was launched.
    Launched,
    /// Done: the first failure met.
    Failed(CUDAError),
}

/// The launch state once the argument upload has reached `upload`.
pub open spec fn after_upload(function: u64, upload: Upload, grid: Dim3, block: Dim3) -> Launch {
    match upload {
        Upload::Uploaded { ptr } => Launch::Kernel { function, args: ptr, grid, block },
        Upload::Failed(e) => Launch::Failed(e),
        _ => Launch::Arguments { function, upload, grid, block },
    }
}

fn advance_upload(function: u64, upload: Upload, grid: Dim3, block: Dim3) -> (r: Launch)
    ensures
        r == after_upload(function, upload, grid, block),
{
    match upload {
        Upload::Uploaded { ptr } => Launch::Kernel { function, args: ptr, grid, block },
        Upload::Failed(e) => Launch::Failed(e),
        _ => Launch::Arguments { function, upload, grid, block },
    }
}

impl Launch {
    /// Whether `reply` is the kind of answer the pending call gives.
    pub open spec fn expects(self, reply: DriverReply) -> bool {
        match self {
            Launch::GetFunction { .. } => reply is Handle,
            Launch::Arguments { upload, .. } => upload.expects(reply),
            Launch::Kernel { .. } => reply is Status,
            _ => false,
        }
    }

    pub open spec fn is_finished_spec(self) -> bool {
        self is Launched || self is Failed
    }

    /// The state that follows the pending call's reply.
    pub open spec fn next(self, reply: DriverReply) -> Launch {
        match (self, reply) {
            (
                Launch::GetFunction { args_bytes, grid, block, .. },
                DriverReply::Handle { status, handle },
            ) => {
                if status == CUDA_SUCCESS {
                    after_upload(handle, Upload::start_spec(args_bytes), grid, block)
                } else {
                    Launch::Failed(CUDAError::CUResult(status))
                }
            },
            (Launch::Arguments { function, upload, grid, block }, _) => {
                after_upload(function, upload.next(reply), grid, block)
            },
            (Launch::Kernel { .. }, DriverReply::Status(status)) => {
                if status == CUDA_SUCCESS {
                    Launch::Launched
                } else {
                    Launch::Failed(CUDAError::CUResult(status))
                }
            },
            _ => self,
        }
    }

    /// Whether the launch has ended, launched or failed.
    pub fn is_finished(&self) -> (r: bool)
        ensures
            r == self.is_finished_spec(),
    {
        match self {
            Launch::Launched | Launch::Failed(_) => true,
            _ => false,
        }
    }

    /// Whether `reply` answers the pending call.
    pub fn accepts(&self, reply: &DriverReply) -> (r: bool)
        ensures
            r == self.expects(*reply),
    {
        match (self, reply) {
            (Launch::GetFunction { .. }, DriverReply::Handle { .. }) => true,
            (Launch::Arguments { upload, .. }, _) => upload.accepts(reply),
            (Launch::Kernel { .. }, DriverReply::Status(_)) => true,
            _ => false,
        }
    }

    /// Advances the launch by the reply of the pending call.
    pub fn step(self, reply: DriverReply) -> (r: Launch)
        requires
            self.expects(reply),
        ensures
            r == self.next(reply),
    {
        match (self, reply) {
            (
                Launch::GetFunction { args_bytes, grid, block, .. },
                DriverReply::Handle { status, handle },
            ) => {
                if status == CUDA_SUCCESS {
                    advance_upload(handle, Upload::start(args_bytes), grid, block)
                } else {
                    Launch::Failed(CUDAError::new(status))
                }
            },
            (Launch::Arguments { function, upload, grid, block }, _) => {
                advance_upload(function, upload.step(reply), grid, block)
            },
            (Launch::Kernel { .. }, DriverReply::Status(status)) => {
                if status == CUDA_SUCCESS {
                    Launch::Launched
                } else {
                    Launch::Failed(CUDAError::new(status))
                }
            },
            (s, _) => s,
        }
    }
}

impl Runtime {
    /// Begins a launch of the entry point `f` on a grid of blocks, whose
    /// argument struct is of type `Args`. An entry point that was never
    /// registered fails at once with `UnregisteredFunction`; otherwise the
    /// symbol registered for it is resolved first.
    pub fn launch<Args>(
        &self,
        f: u64,
        grid_dim_x: usize,
        grid_dim_y: usize,
        grid_dim_z: usize,
        block_dim_x: usize,
        block_dim_y: usize,
        block_dim_z: usize,
    ) -> (r: Launch)
        requires
            grid_dim_x <= u32::MAX,
            grid_dim_y <= u32::MAX,
            grid_dim_z <= u32::MAX,
            block_dim_x <= u32::MAX,
            block_dim_y <= u32::MAX,
            block_dim_z <= u32::MAX,
        ensures
            match r {
                Launch::GetFunction { module, name, args_bytes, grid, block } => {
                    &&& self.names().contains_key(f)
                    &&& name@ == self.names()[f]
                    &&& module == self.module_spec()
                    &&& args_bytes == size_of::<Args>()
                    &&& grid == (Dim3 {
                        x: grid_dim_x as u32,
                        y: grid_dim_y as u32,
                        z: grid_dim_z as u32,
                    })
                    &&& block == (Dim3 {
                        x: block_dim_x as u32,
                        y: block_dim_y as u32,
                        z: block_dim_z as u32,
                    })
                },
                Launch::Failed(e) => {
                    &&& !self.names().contains_key(f)
                    &&& e == CUDAError::UnregisteredFunction
                },
                _ => false,
            },
    {
        match self.function_name(f) {
            Some(name) => Launch::GetFunction {
                module: self.module(),
                name: name.clone(),
                args_bytes: core::mem::size_of::<Args>(),
                grid: Dim3 { x: grid_dim_x as u32, y: grid_dim_y as u32, z: grid_dim_z as u32 },
                block: Dim3 {
                    x: block_dim_x as u32,
                    y: block_dim_y as u32,
                    z: block_dim_z as u32,
                },
            },
            None => Launch::Failed(CUDAError::UnregisteredFunction),
        }
    }
}

/// A failing status from any native call surfaces as `CUResult` carrying
/// that very status code, in every protocol and at every step.
pub proof fn lemma_failure_keeps_status(
    status: u32,
    handle: u64,
    count: i32,
    device_id: i32,
    context: u64,
    ptr: u64,
    bytes: usize,
    function: u64,
    pending: Launch,
)
    requires
        status != CUDA_SUCCESS,
        pending is GetFunction,
    ensures
        ({
            let failed = CUDAError::CUResult(status);
            let status_reply = DriverReply::Status(status);
            let handle_reply = DriverReply::Handle { status, handle };
            let count_reply = DriverReply::Count { status, count };
            let copy = Upload::Copy { ptr, bytes };
            let allocate = Upload::Allocate { bytes };
            let grid = Dim3 { x: 1, y: 1, z: 1 };
            &&& copy_result(status, ptr) == Err::<u64, CUDAError>(failed)
            &&& (Setup::InitDriver { device_id }).next(status_reply) == Setup::Failed(failed)
            &&& (Setup::CountDevices { device_id }).next(count_reply) == Setup::Failed(failed)
            &&& (Setup::CreateContext { device_id }).next(handle_reply) == Setup::Failed(failed)
            &&& (Setup::LoadModule { context }).next(handle_reply) == Setup::Failed(failed)
            &&& allocate.next(handle_reply) == Upload::Failed(failed)
            &&& copy.next(status_reply) == Upload::Failed(failed)
            &&& pending.next(handle_reply) == Launch::Failed(failed)
            &&& (Launch::Arguments { function, upload: allocate, grid, block: grid }).next(
                handle_reply,
            ) == Launch::Failed(failed)
            &&& (Launch::Arguments { function, upload: copy, grid, block: grid }).next(
                status_reply,
            ) == Launch::Failed(failed)
            &&& (Launch::Kernel { function, args: ptr, grid, block: grid }).next(status_reply)
                == Launch::Failed(failed)
        }),
{
}

} // verus!
