//! The process-wide latch around initialization and shutdown of the native
//! error and network subsystems, held as an owned value rather than a global.

use vstd::prelude::*;
use crate::error::{CoreBaseResult, ErrorKind, ErrorView, outcome, status_result};

verus! {

/// Detail message of the error returned when the native subsystems fail to
/// start.
pub open spec fn init_failed_message() -> Seq<char> {
    "Failed to initialize CoreBase components"@
}

/// Detail message of the error returned when the native subsystems fail to
/// stop.
pub open spec fn shutdown_failed_message() -> Seq<char> {
    "Failed to shutdown CoreBase components"@
}

/// Tracks whether the native subsystems are running. `initialize` and
/// `shutdown` are idempotent: each reaches the native layer only when the
/// flag says there is something to do.
#[derive(Debug)]
pub struct CoreRuntime {
    initialized: bool,
}

impl CoreRuntime {
    /// Whether the native subsystems are running.
    pub closed spec fn spec_initialized(&self) -> bool {
        self.initialized
    }

    /// A latch with the native subsystems not yet started.
    pub fn new() -> (r: CoreRuntime)
        ensures
            !r.spec_initialized(),
    {
        CoreRuntime { initialized: false }
    }

    /// Whether the native subsystems are running.
    pub fn is_initialized(&self) -> (r: bool)
        ensures
            r == self.spec_initialized(),
    {
        self.initialized
    }

    /// Whether `initialize` has the native subsystems to start, i.e. whether
    /// the caller must start them and pass their statuses in.
    pub fn needs_initialization(&self) -> (r: bool)
        ensures
            r == !self.spec_initialized(),
    {
        !self.initialized
    }

    /// Records the start of the native subsystems, given the statuses the
    /// error subsystem and the network subsystem answered with (0 is
    /// success). When already running, nothing is started and the statuses
    /// are not read.
    pub fn initialize(&mut self, error_status: i32, network_status: i32) -> (r: CoreBaseResult<()>)
        ensures
            old(self).spec_initialized() ==> r is Ok && final(self).spec_initialized(),
            !old(self).spec_initialized() ==> final(self).spec_initialized() == (error_status == 0
                && network_status == 0),
            !old(self).spec_initialized() ==> outcome(r) == (if error_status == 0 && network_status
                == 0 {
                Ok::<(), ErrorView>(())
            } else {
                Err((ErrorKind::InitializationFailed, init_failed_message()))
            }),
    {
        if self.initialized {
            return Ok(());
        }
        let status: i32 = if error_status == 0 && network_status == 0 {
            0
        } else {
            1
        };
        let r = status_result(
            status,
            ErrorKind::InitializationFailed,
            "Failed to initialize CoreBase components",
        );
        if status == 0 {
            self.initialized = true;
        }
        r
    }

    /// Records the stop of the native subsystems, given the status the error
    /// subsystem answered with (0 is success). When not running, nothing is
    /// stopped and the status is not read.
    pub fn shutdown(&mut self, status: i32) -> (r: CoreBaseResult<()>)
        ensures
            !old(self).spec_initialized() ==> r is Ok && !final(self).spec_initialized(),
            old(self).spec_initialized() ==> final(self).spec_initialized() == (status != 0),
            old(self).spec_initialized() ==> outcome(r) == (if status == 0 {
                Ok::<(), ErrorView>(())
            } else {
                Err((ErrorKind::ShutdownFailed, shutdown_failed_message()))
            }),
    {
        if !self.initialized {
            return Ok(());
        }
        let r = status_result(status, ErrorKind::ShutdownFailed, "Failed to shutdown CoreBase components");
        if status == 0 {
            self.initialized = false;
        }
        r
    }
}

impl Default for CoreRuntime {
    fn default() -> (r: CoreRuntime)
        ensures
            !r.spec_initialized(),
    {
        CoreRuntime::new()
    }
}

} // verus!
