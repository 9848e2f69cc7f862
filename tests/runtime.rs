use cuda_tools::error::{CUDAError, DriverReply, CUDA_SUCCESS};
use cuda_tools::launch::{Dim3, Launch};
use cuda_tools::runtime::Runtime;
use cuda_tools::setup::Setup;
use cuda_tools::transfer::{CUDABox, CUDASlice, DevicePtr, Upload};

fn drive_setup(mut s: Setup, replies: &[DriverReply]) -> Setup {
    for r in replies {
        assert!(s.accepts(r));
        s = s.step(*r);
    }
    s
}

fn drive_launch(mut l: Launch, replies: &[DriverReply]) -> Launch {
    for r in replies {
        assert!(l.accepts(r));
        l = l.step(*r);
    }
    l
}

fn handle(handle: u64) -> DriverReply {
    DriverReply::Handle { status: CUDA_SUCCESS, handle }
}

#[test]
fn test_device_ptr_size() {
    assert_eq!(
        core::mem::size_of::<DevicePtr>(),
        core::mem::size_of::<u64>()
    );
}

#[test]
fn error_new_keeps_code() {
    assert_eq!(CUDAError::new(700), CUDAError::CUResult(700));
}

#[test]
fn setup_starts_with_init_unless_done() {
    assert_eq!(Setup::start(0, false), Setup::InitDriver { device_id: 0 });
    assert_eq!(Setup::start(0, true), Setup::CountDevices { device_id: 0 });
}

#[test]
fn setup_valid_ordinal_is_ready() {
    let s = drive_setup(
        Setup::start(1, false),
        &[
            DriverReply::Status(CUDA_SUCCESS),
            DriverReply::Count { status: CUDA_SUCCESS, count: 2 },
            handle(0xc0),
            handle(0xd0),
        ],
    );
    assert_eq!(s, Setup::Ready { context: 0xc0, module: 0xd0 });
    assert!(s.is_finished());
}

#[test]
fn setup_ordinal_equal_to_count_is_out_of_range() {
    let s = drive_setup(
        Setup::start(2, true),
        &[DriverReply::Count { status: CUDA_SUCCESS, count: 2 }],
    );
    assert_eq!(s, Setup::Failed(CUDAError::DeviceIdIsOutOfRange));
    assert!(s.is_finished());
    assert!(!s.accepts(&handle(0xc0)));
}

#[test]
fn setup_no_devices_is_out_of_range() {
    let s = drive_setup(
        Setup::start(0, false),
        &[
            DriverReply::Status(CUDA_SUCCESS),
            DriverReply::Count { status: CUDA_SUCCESS, count: 0 },
        ],
    );
    assert_eq!(s, Setup::Failed(CUDAError::DeviceIdIsOutOfRange));
}

#[test]
fn setup_driver_failures_keep_code() {
    let s = drive_setup(Setup::start(0, false), &[DriverReply::Status(100)]);
    assert_eq!(s, Setup::Failed(CUDAError::CUResult(100)));
    let s = drive_setup(
        Setup::start(0, true),
        &[DriverReply::Count { status: 3, count: 4 }],
    );
    assert_eq!(s, Setup::Failed(CUDAError::CUResult(3)));
    let s = drive_setup(
        Setup::start(0, true),
        &[
            DriverReply::Count { status: CUDA_SUCCESS, count: 1 },
            DriverReply::Handle { status: 101, handle: 0 },
        ],
    );
    assert_eq!(s, Setup::Failed(CUDAError::CUResult(101)));
    let s = drive_setup(
        Setup::start(0, true),
        &[
            DriverReply::Count { status: CUDA_SUCCESS, count: 1 },
            handle(0xc0),
            DriverReply::Handle { status: 218, handle: 0 },
        ],
    );
    assert_eq!(s, Setup::Failed(CUDAError::CUResult(218)));
}

#[test]
fn setup_rejects_mismatched_reply() {
    let s = Setup::start(0, false);
    assert!(!s.accepts(&handle(1)));
    assert!(s.accepts(&DriverReply::Status(CUDA_SUCCESS)));
}

#[test]
fn runtime_keeps_handles() {
    let rt = Runtime::from_handles(0xc0, 0xd0);
    assert_eq!(rt.context(), 0xc0);
    assert_eq!(rt.module(), 0xd0);
    assert!(rt.function_name(7).is_none());
}

#[test]
fn registry_overwrite_resolves_second_name() {
    let mut rt = Runtime::from_handles(1, 2);
    rt.record_function_name(0x4000, "first_kernel");
    rt.record_function_name(0x4000, "second_kernel");
    assert_eq!(rt.function_name(0x4000).map(|s| s.as_str()), Some("second_kernel"));
    match rt.launch::<u32>(0x4000, 1, 1, 1, 1, 1, 1) {
        Launch::GetFunction { module, name, .. } => {
            assert_eq!(module, 2);
            assert_eq!(name, "second_kernel");
        }
        other => panic!("unexpected {:?}", other),
    }
}

#[test]
fn registry_keeps_other_entries() {
    let mut rt = Runtime::from_handles(1, 2);
    rt.record_function_name(10, "a");
    rt.record_function_with_shared_memory_name(20, "b");
    assert_eq!(rt.function_name(10).map(|s| s.as_str()), Some("a"));
    assert_eq!(rt.function_name(20).map(|s| s.as_str()), Some("b"));
}

#[test]
fn launch_unregistered_fails() {
    let rt = Runtime::from_handles(1, 2);
    let l = rt.launch::<u32>(0x4000, 1, 1, 1, 1, 1, 1);
    assert!(matches!(l, Launch::Failed(CUDAError::UnregisteredFunction)));
    assert!(l.is_finished());
}

#[test]
fn launch_unit_shape_end_to_end() {
    let mut rt = Runtime::from_handles(1, 2);
    rt.record_function_name(0x4000, "write_constant");
    let l = rt.launch::<u32>(0x4000, 1, 1, 1, 1, 1, 1);
    let one = Dim3 { x: 1, y: 1, z: 1 };
    match &l {
        Launch::GetFunction { args_bytes, grid, block, .. } => {
            assert_eq!(*args_bytes, 4);
            assert_eq!(*grid, one);
            assert_eq!(*block, one);
        }
        other => panic!("unexpected {:?}", other),
    }
    let l = drive_launch(l, &[handle(0x77)]);
    assert!(matches!(
        l,
        Launch::Arguments { function: 0x77, upload: Upload::Allocate { bytes: 4 }, .. }
    ));
    let l = drive_launch(l, &[handle(0x1000)]);
    assert!(matches!(
        l,
        Launch::Arguments { function: 0x77, upload: Upload::Copy { ptr: 0x1000, bytes: 4 }, .. }
    ));
    let l = drive_launch(l, &[DriverReply::Status(CUDA_SUCCESS)]);
    match &l {
        Launch::Kernel { function, args, grid, block } => {
            assert_eq!(*function, 0x77);
            assert_eq!(*args, 0x1000);
            assert_eq!(*grid, one);
            assert_eq!(*block, one);
        }
        other => panic!("unexpected {:?}", other),
    }
    let l = drive_launch(l, &[DriverReply::Status(CUDA_SUCCESS)]);
    assert!(matches!(l, Launch::Launched));
    assert!(l.is_finished());
    // the kernel wrote 42 into its argument struct; read it back
    let b: CUDABox<u32> = CUDABox::new(0x1000);
    assert_eq!(b.read_back(), Some((0x1000, 4)));
    assert_eq!(b.to_host_result(CUDA_SUCCESS, 42), Ok(42));
}

#[test]
fn launch_passes_shape() {
    let mut rt = Runtime::from_handles(1, 2);
    rt.record_function_name(5, "k");
    match rt.launch::<u64>(5, 4, 3, 2, 32, 8, 1) {
        Launch::GetFunction { grid, block, args_bytes, .. } => {
            assert_eq!(grid, Dim3 { x: 4, y: 3, z: 2 });
            assert_eq!(block, Dim3 { x: 32, y: 8, z: 1 });
            assert_eq!(args_bytes, 8);
        }
        other => panic!("unexpected {:?}", other),
    }
}

#[test]
fn launch_failures_keep_code() {
    let mut rt = Runtime::from_handles(1, 2);
    rt.record_function_name(5, "k");
    let start = || rt.launch::<u32>(5, 1, 1, 1, 1, 1, 1);
    let l = drive_launch(start(), &[DriverReply::Handle { status: 500, handle: 0 }]);
    assert!(matches!(l, Launch::Failed(CUDAError::CUResult(500))));
    let l = drive_launch(
        start(),
        &[handle(0x77), DriverReply::Handle { status: 2, handle: 0 }],
    );
    assert!(matches!(l, Launch::Failed(CUDAError::CUResult(2))));
    let l = drive_launch(start(), &[handle(0x77), handle(0x10), DriverReply::Status(1)]);
    assert!(matches!(l, Launch::Failed(CUDAError::CUResult(1))));
    let l = drive_launch(
        start(),
        &[
            handle(0x77),
            handle(0x10),
            DriverReply::Status(CUDA_SUCCESS),
            DriverReply::Status(719),
        ],
    );
    assert!(matches!(l, Launch::Failed(CUDAError::CUResult(719))));
}

#[test]
fn launch_with_empty_arguments_skips_upload() {
    let mut rt = Runtime::from_handles(1, 2);
    rt.record_function_name(5, "k");
    let l = drive_launch(rt.launch::<()>(5, 1, 1, 1, 1, 1, 1), &[handle(0x77)]);
    assert!(matches!(l, Launch::Kernel { function: 0x77, args: 0, .. }));
}

#[test]
fn upload_scalar_steps() {
    let rt = Runtime::from_handles(1, 2);
    let u = rt.alloc_box(&7u64);
    assert_eq!(u, Upload::Allocate { bytes: 8 });
    assert!(!u.is_finished());
    let u = u.step(handle(0x2000));
    assert_eq!(u, Upload::Copy { ptr: 0x2000, bytes: 8 });
    let u = u.step(DriverReply::Status(CUDA_SUCCESS));
    assert_eq!(u, Upload::Uploaded { ptr: 0x2000 });
    assert!(u.is_finished());
}

#[test]
fn upload_failures_keep_code() {
    let u = Upload::start(8).step(DriverReply::Handle { status: 2, handle: 0 });
    assert_eq!(u, Upload::Failed(CUDAError::CUResult(2)));
    let u = Upload::start(8).step(handle(0x10)).step(DriverReply::Status(700));
    assert_eq!(u, Upload::Failed(CUDAError::CUResult(700)));
}

#[test]
fn upload_slice_is_sized_by_length() {
    let rt = Runtime::from_handles(1, 2);
    let xs: [u32; 3] = [1, 2, 3];
    assert_eq!(rt.alloc_slice(&xs), Upload::Allocate { bytes: 12 });
}

#[test]
fn empty_slice_round_trip() {
    let rt = Runtime::from_handles(1, 2);
    let xs: [u32; 0] = [];
    let u = rt.alloc_slice(&xs);
    assert_eq!(u, Upload::Uploaded { ptr: 0 });
    let s: CUDASlice<u32> = CUDASlice::new(0, 0);
    assert_eq!(s.len(), 0);
    assert_eq!(s.read_back(), None);
    assert_eq!(s.to_host_result(CUDA_SUCCESS, vec![]), Ok(vec![]));
}

#[test]
fn slice_read_back_covers_region() {
    let s: CUDASlice<u16> = CUDASlice::new(0x3000, 5);
    assert_eq!(s.get(), 0x3000);
    assert_eq!(s.read_back(), Some((0x3000, 10)));
    assert_eq!(s.to_host_result(CUDA_SUCCESS, vec![1, 2, 3, 4, 5]), Ok(vec![1, 2, 3, 4, 5]));
    assert_eq!(s.to_host_result(1, vec![0; 5]), Err(CUDAError::CUResult(1)));
}

#[test]
fn read_back_twice_is_the_same() {
    let b: CUDABox<[u8; 3]> = CUDABox::new(0x5000);
    assert_eq!(b.read_back(), Some((0x5000, 3)));
    assert_eq!(b.read_back(), Some((0x5000, 3)));
    assert_eq!(b.get(), 0x5000);
    assert_eq!(b.to_host_result(CUDA_SUCCESS, [9, 8, 7]), Ok([9, 8, 7]));
    assert_eq!(b.to_host_result(CUDA_SUCCESS, [9, 8, 7]), Ok([9, 8, 7]));
}

#[test]
fn box_of_zero_size_needs_no_copy() {
    let rt = Runtime::from_handles(1, 2);
    assert_eq!(rt.alloc_box(&()), Upload::Uploaded { ptr: 0 });
    let b: CUDABox<()> = CUDABox::new(0);
    assert_eq!(b.read_back(), None);
    assert_eq!(b.to_host_result(3, ()), Err(CUDAError::CUResult(3)));
}
