//! Session and power operations, and the snapshot of which of them the
//! machine currently offers.

use vstd::prelude::*;

verus! {

/// A privileged operation on the user's session.
#[derive(Debug, Clone, Copy, PartialEq, Eq, Structural)]
pub enum SessionOperation {
    Suspend,
    Reboot,
    PowerOff,
}

/// What the session service is asked to do.
#[derive(Debug, Clone, Copy, PartialEq, Eq, Structural)]
pub struct SessionRequest {
    pub operation: SessionOperation,
    /// Whether the service may ask the user for authorisation.
    pub interactive: bool,
}

/// Which session operations are enabled, as found when the engine started.
#[derive(Debug, Clone, Copy, PartialEq, Eq, Structural)]
pub struct SessionMgr {
    pub enable_suspend: bool,
    pub enable_reboot: bool,
    pub enable_poweroff: bool,
}

impl SessionMgr {
    /// The operation `op` is enabled.
    pub open spec fn permits(&self, op: SessionOperation) -> bool {
        match op {
            SessionOperation::Suspend => self.enable_suspend,
            SessionOperation::Reboot => self.enable_reboot,
            SessionOperation::PowerOff => self.enable_poweroff,
        }
    }

    /// Records the three capability flags.
    pub fn new(enable_suspend: bool, enable_reboot: bool, enable_poweroff: bool) -> (mgr: Self)
        ensures
            mgr.enable_suspend == enable_suspend,
            mgr.enable_reboot == enable_reboot,
            mgr.enable_poweroff == enable_poweroff,
    {
        SessionMgr { enable_suspend, enable_reboot, enable_poweroff }
    }

    /// Whether the operation `op` is enabled.
    pub fn allows(&self, op: &SessionOperation) -> (allowed: bool)
        ensures
            allowed == self.permits(*op),
    {
        match op {
            SessionOperation::Suspend => self.enable_suspend,
            SessionOperation::Reboot => self.enable_reboot,
            SessionOperation::PowerOff => self.enable_poweroff,
        }
    }

    /// The request to hand to the session service for an enabled operation:
    /// the operation itself, never interactive.
    pub fn perform(&self, op: &SessionOperation) -> (request: SessionRequest)
        requires
            self.permits(*op),
        ensures
            request.operation == *op,
            !request.interactive,
    {
        SessionRequest { operation: *op, interactive: false }
    }
}

} // verus!
