use vstd::prelude::*;

use crate::error::{CUDAError, DriverReply, CUDA_SUCCESS};

verus! {

/// Construction of a runtime, one driver call at a time.
///
/// Each unfinished state names the call to make next; the caller makes it and
/// hands its reply to `step`. The sequence is driver initialisation (skipped
/// once done in this process), device enumeration, context creation on the
/// requested device, and loading of the kernel module into that context. The
/// first failure ends it.
#[derive(Debug, Clone, Copy, PartialEq, Eq, Structural)]
pub enum Setup {
    /// Initialise the driver.
    InitDriver { device_id: i32 },
    /// Ask the driver for the number of devices.
    CountDevices { device_id: i32 },
    /// Create a context with the default scheduling policy on the device.
    CreateContext { device_id: i32 },
    /// Load the kernel module into the context.
    LoadModule { context: u64 },
    /// Done: the context and module from which the runtime is built.
    Ready { context: u64, module: u64 },
    /// Done: the first failure met.
    Failed(CUDAError),
}

impl Setup {
    pub open spec fn start_spec(device_id: i32, driver_initialized: bool) -> Setup {
        if driver_initialized {
            Setup::CountDevices { device_id }
        } else {
            Setup::InitDriver { device_id }
        }
    }

    /// Whether `reply` is the kind of answer the pending call gives.
    pub open spec fn expects(self, reply: DriverReply) -> bool {
        match self {
            Setup::InitDriver { .. } => reply is Status,
            Setup::CountDevices { .. } => reply is Count,
            Setup::CreateContext { .. } => reply is Handle,
            Setup::LoadModule { .. } => reply is Handle,
            _ => false,
        }
    }

    pub open spec fn is_finished_spec(self) -> bool {
        self is Ready || self is Failed
    }

    /// The state that follows the pending call's reply.
    pub open spec fn next(self, reply: DriverReply) -> Setup {
        match (self, reply) {
            (Setup::InitDriver { device_id }, DriverReply::Status(status)) => {
                if status == CUDA_SUCCESS {
                    Setup::CountDevices { device_id }
                } else {
                    Setup::Failed(CUDAError::CUResult(status))
                }
            },
            (Setup::CountDevices { device_id }, DriverReply::Count { status, count }) => {
                if status != CUDA_SUCCESS {
                    Setup::Failed(CUDAError::CUResult(status))
                } else if device_id >= count {
                    Setup::Failed(CUDAError::DeviceIdIsOutOfRange)
                } else {
                    Setup::CreateContext { device_id }
                }
            },
            (Setup::CreateContext { .. }, DriverReply::Handle { status, handle }) => {
                if status == CUDA_SUCCESS {
                    Setup::LoadModule { context: handle }
                } else {
                    Setup::Failed(CUDAError::CUResult(status))
                }
            },
            (Setup::LoadModule { context }, DriverReply::Handle { status, handle }) => {
                if status == CUDA_SUCCESS {
                    Setup::Ready { context, module: handle }
                } else {
                    Setup::Failed(CUDAError::CUResult(status))
                }
            },
            _ => self,
        }
    }

    /// The state reached after a sequence of replies; a reply that the state
    /// does not expect leaves it where it is.
    pub open spec fn run(self, replies: Seq<DriverReply>) -> Setup
        decreases replies.len(),
    {
        if replies.len() == 0 {
            self
        } else if self.expects(replies[0]) {
            self.next(replies[0]).run(replies.skip(1))
        } else {
            self.run(replies.skip(1))
        }
    }

    /// Where construction on `device_id` begins: with driver initialisation,
    /// unless the driver was already initialised in this process.
    pub fn start(device_id: i32, driver_initialized: bool) -> (r: Setup)
        ensures
            r == Setup::start_spec(device_id, driver_initialized),
    {
        if driver_initialized {
            Setup::CountDevices { device_id }
        } else {
            Setup::InitDriver { device_id }
        }
    }

    /// Whether construction has ended, in a runtime or in a failure.
    pub fn is_finished(&self) -> (r: bool)
        ensures
            r == self.is_finished_spec(),
    {
        match self {
            Setup::Ready { .. } | Setup::Failed(_) => true,
            _ => false,
        }
    }

    /// Whether `reply` answers the pending call.
    pub fn accepts(&self, reply: &DriverReply) -> (r: bool)
        ensures
            r == self.expects(*reply),
    {
        match (self, reply) {
            (Setup::InitDriver { .. }, DriverReply::Status(_)) => true,
            (Setup::CountDevices { .. }, DriverReply::Count { .. }) => true,
            (Setup::CreateContext { .. }, DriverReply::Handle { .. }) => true,
            (Setup::LoadModule { .. }, DriverReply::Handle { .. }) => true,
            _ => false,
        }
    }

    /// Advances construction by the reply of the pending call.
    pub fn step(self, reply: DriverReply) -> (r: Setup)
        requires
            self.expects(reply),
        ensures
            r == self.next(reply),
    {
        match (self, reply) {
            (Setup::InitDriver { device_id }, DriverReply::Status(status)) => {
                if status == CUDA_SUCCESS {
                    Setup::CountDevices { device_id }
                } else {
                    Setup::Failed(CUDAError::new(status))
                }
            },
            (Setup::CountDevices { device_id }, DriverReply::Count { status, count }) => {
                if status != CUDA_SUCCESS {
                    Setup::Failed(CUDAError::new(status))
                } else if device_id >= count {
                    Setup::Failed(CUDAError::DeviceIdIsOutOfRange)
                } else {
                    Setup::CreateContext { device_id }
                }
            },
            (Setup::CreateContext { .. }, DriverReply::Handle { status, handle }) => {
                if status == CUDA_SUCCESS {
                    Setup::LoadModule { context: handle }
                } else {
                    Setup::Failed(CUDAError::new(status))
                }
            },
            (Setup::LoadModule { context }, DriverReply::Handle { status, handle }) => {
                if status == CUDA_SUCCESS {
                    Setup::Ready { context, module: handle }
                } else {
                    Setup::Failed(CUDAError::new(status))
                }
            },
            _ => self,
        }
    }
}

/// The replies of the driver's initialisation: none where it was already done.
pub open spec fn init_replies(driver_initialized: bool) -> Seq<DriverReply> {
    if driver_initialized {
        seq![]
    } else {
        seq![DriverReply::Status(CUDA_SUCCESS)]
    }
}

proof fn lemma_run_concat(s: Setup, a: Seq<DriverReply>, b: Seq<DriverReply>)
    ensures
        s.run(a + b) == s.run(a).run(b),
    decreases a.len(),
{
    if a.len() > 0 {
        assert((a + b).skip(1) =~= a.skip(1) + b);
        assert((a + b)[0] == a[0]);
        if s.expects(a[0]) {
            lemma_run_concat(s.next(a[0]), a.skip(1), b);
        } else {
            lemma_run_concat(s, a.skip(1), b);
        }
    } else {
        assert(a + b =~= b);
    }
}

proof fn lemma_run_one(s: Setup, r: DriverReply)
    ensures
        s.run(seq![r]) == (if s.expects(r) { s.next(r) } else { s }),
{
    let rest = seq![r].skip(1);
    assert(rest =~= Seq::<DriverReply>::empty());
    assert(s.next(r).run(rest) == s.next(r));
    assert(s.run(rest) == s);
}

proof fn lemma_finished_stays(s: Setup, rest: Seq<DriverReply>)
    requires
        s.is_finished_spec(),
    ensures
        s.run(rest) == s,
    decreases rest.len(),
{
    if rest.len() > 0 {
        lemma_finished_stays(s, rest.skip(1));
    }
}

/// With every driver call succeeding, construction on an ordinal below the
/// device count goes on to context creation and ends ready over the context
/// and module that the driver created. On any other ordinal it fails with
/// `DeviceIdIsOutOfRange` right after the enumeration, and whatever replies
/// follow, no context is asked for.
pub proof fn lemma_device_ordinal_range(
    device_id: i32,
    driver_initialized: bool,
    count: i32,
    context: u64,
    module: u64,
)
    ensures
        ({
            let start = Setup::start_spec(device_id, driver_initialized);
            let enumerated = init_replies(driver_initialized).push(
                DriverReply::Count { status: CUDA_SUCCESS, count },
            );
            &&& device_id < count ==> start.run(enumerated) == (Setup::CreateContext { device_id })
            &&& device_id < count ==> start.run(
                enumerated + seq![
                    DriverReply::Handle { status: CUDA_SUCCESS, handle: context },
                    DriverReply::Handle { status: CUDA_SUCCESS, handle: module },
                ],
            ) == (Setup::Ready { context, module })
            &&& device_id >= count ==> forall|rest: Seq<DriverReply>|
                #[trigger] start.run(enumerated + rest) == Setup::Failed(
                    CUDAError::DeviceIdIsOutOfRange,
                )
        }),
{
    let start = Setup::start_spec(device_id, driver_initialized);
    let init = init_replies(driver_initialized);
    let count_reply = DriverReply::Count { status: CUDA_SUCCESS, count };
    let enumerated = init.push(count_reply);
    let counting = Setup::CountDevices { device_id };
    if driver_initialized {
        assert(start.run(init) == counting);
    } else {
        lemma_run_one(start, DriverReply::Status(CUDA_SUCCESS));
    }
    assert(enumerated =~= init + seq![count_reply]);
    lemma_run_concat(start, init, seq![count_reply]);
    lemma_run_one(counting, count_reply);
    let after = start.run(enumerated);
    if device_id < count {
        let c = DriverReply::Handle { status: CUDA_SUCCESS, handle: context };
        let m = DriverReply::Handle { status: CUDA_SUCCESS, handle: module };
        lemma_run_concat(start, enumerated, seq![c, m]);
        assert(seq![c, m] =~= seq![c] + seq![m]);
        lemma_run_concat(after, seq![c], seq![m]);
        lemma_run_one(after, c);
        lemma_run_one(Setup::LoadModule { context }, m);
    } else {
        assert forall|rest: Seq<DriverReply>|
            #[trigger] start.run(enumerated + rest) == Setup::Failed(
                CUDAError::DeviceIdIsOutOfRange,
            ) by {
            lemma_run_concat(start, enumerated, rest);
            lemma_finished_stays(after, rest);
        }
    }
}

} // verus!
