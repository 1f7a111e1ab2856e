//! Why the board last reset, over Matter.
//!
//! A manufacturer-specific cluster on the root endpoint, beside General Diagnostics, with
//! two attributes that are both fixed for the life of a boot:
//!
//! - `BootReason`: the General Diagnostics boot reason.
//! - `ResetCause`: the raw reset-reason code the boot reason was derived from, `0` if it
//!   is not known. The boot reason is coarse, and this is what tells resets apart.

use vstd::prelude::*;

use crate::attr::{concerns, AttrError, ATTR_BOOT_REASON, ATTR_RESET_CAUSE, BOOT_DIAG_CLUSTER_ID};
use crate::supervisor::{boot_reason, reset_cause_code, BootReason, ResetCause};

verus! {

/// What reading an attribute of the cluster is answered with.
#[derive(Clone, Copy, Debug, PartialEq, Eq, Structural)]
pub enum BootRead {
    /// A global attribute, which the cluster's own description answers.
    Global,
    /// The boot reason.
    BootReason(BootReason),
    /// The raw reset-reason code.
    ResetCause(u8),
}

/// Serves the cluster.
#[derive(Clone, Copy, Debug, PartialEq, Eq, Structural)]
pub struct BootDiagHandler {
    /// Why the board booted.
    pub boot_reason: BootReason,
    /// The raw reset-reason code.
    pub reset_cause: u8,
}

/// What a read of an attribute is answered with.
pub open spec fn read_of(
    handler: BootDiagHandler,
    global: bool,
    attr: u32,
) -> Result<BootRead, AttrError> {
    if global {
        Ok(BootRead::Global)
    } else if attr == ATTR_BOOT_REASON {
        Ok(BootRead::BootReason(handler.boot_reason))
    } else if attr == ATTR_RESET_CAUSE {
        Ok(BootRead::ResetCause(handler.reset_cause))
    } else {
        Err(AttrError::AttributeNotFound)
    }
}

impl BootDiagHandler {
    /// What is served once the last reset left `cause` behind.
    pub open spec fn of_cause(cause: Option<ResetCause>) -> BootDiagHandler {
        BootDiagHandler {
            boot_reason: crate::supervisor::reason_of(cause),
            reset_cause: crate::supervisor::code_of(cause),
        }
    }

    /// Whether the boot reason is one to warn about.
    pub open spec fn alarms(self) -> bool {
        self.boot_reason == BootReason::BrownOutReset || self.boot_reason
            == BootReason::HardwareWatchdogReset
    }

    /// Take the reset cause once, and hold it for the life of the boot.
    pub fn new(cause: Option<ResetCause>) -> (handler: Self)
        ensures
            handler.boot_reason == crate::supervisor::reason_of(cause),
            handler.reset_cause == crate::supervisor::code_of(cause),
            handler == BootDiagHandler::of_cause(cause),
    {
        BootDiagHandler { boot_reason: boot_reason(cause), reset_cause: reset_cause_code(cause) }
    }

    /// Whether the boot reason is one to warn about: a supply that sagged, or a board
    /// that stalled.
    pub fn is_alarming(&self) -> (alarming: bool)
        ensures
            alarming == (self.boot_reason == BootReason::BrownOutReset || self.boot_reason
                == BootReason::HardwareWatchdogReset),
            alarming == self.alarms(),
    {
        match self.boot_reason {
            BootReason::BrownOutReset | BootReason::HardwareWatchdogReset => true,
            _ => false,
        }
    }

    /// Read an attribute; `global` says that it is one of the global ones.
    pub fn read(&self, global: bool, attr: u32) -> (result: Result<BootRead, AttrError>)
        ensures
            result == read_of(*self, global, attr),
    {
        if global {
            return Ok(BootRead::Global);
        }

        if attr == ATTR_BOOT_REASON {
            Ok(BootRead::BootReason(self.boot_reason))
        } else if attr == ATTR_RESET_CAUSE {
            Ok(BootRead::ResetCause(self.reset_cause))
        } else {
            Err(AttrError::AttributeNotFound)
        }
    }

    /// Whether an operation on `cluster`, or on every cluster if there is none, changes
    /// this cluster's data version.
    pub fn bump_dataver(&self, cluster: Option<u32>) -> (bump: bool)
        ensures
            bump == (cluster is None || cluster == Some(BOOT_DIAG_CLUSTER_ID)),
    {
        concerns(cluster, BOOT_DIAG_CLUSTER_ID)
    }
}

/// The two attributes agree: the boot reason served is the one that the raw code served
/// beside it means.
pub proof fn law_attributes_agree(
    handler: BootDiagHandler,
    cause: Option<ResetCause>,
    read: Option<ResetCause>,
)
    requires
        handler.boot_reason == crate::supervisor::reason_of(cause),
        handler.reset_cause == crate::supervisor::code_of(cause),
        handler.reset_cause == crate::supervisor::code_of(read),
    ensures
        handler.boot_reason == crate::supervisor::reason_of(read),
{
    crate::supervisor::law_codes_tell_causes_apart(cause, read);
}

/// The two attributes are served as they are held, each under its own identifier, and no other
/// is.
pub proof fn law_both_attributes_are_served(handler: BootDiagHandler, global: bool, attr: u32)
    ensures
        read_of(handler, global, attr) == Ok::<BootRead, AttrError>(BootRead::Global) <==> global,
        !global && attr == 0 ==> read_of(handler, global, attr) == Ok::<BootRead, AttrError>(
            BootRead::BootReason(handler.boot_reason),
        ),
        !global && attr == 1 ==> read_of(handler, global, attr) == Ok::<BootRead, AttrError>(
            BootRead::ResetCause(handler.reset_cause),
        ),
        !global && attr > 1 ==> read_of(handler, global, attr) == Err::<BootRead, AttrError>(
            AttrError::AttributeNotFound,
        ),
{
}

/// What is served of a reset is that reset: the boot reason it means and the code it left, and
/// no two causes are served alike. A brownout and every watchdog are warned about; a power-on,
/// a software reset and a cause that is not known are not.
pub proof fn law_resets_are_served(cause: Option<ResetCause>, other: Option<ResetCause>)
    ensures
        ({
            let handler = BootDiagHandler::of_cause(cause);
            &&& read_of(handler, false, 0) == Ok::<BootRead, AttrError>(
                BootRead::BootReason(crate::supervisor::reason_of(cause)),
            )
            &&& read_of(handler, false, 1) == Ok::<BootRead, AttrError>(
                BootRead::ResetCause(crate::supervisor::code_of(cause)),
            )
            &&& handler == BootDiagHandler::of_cause(other) <==> cause == other
            &&& handler.alarms() <==> (cause matches Some(cause) && (cause
                == ResetCause::SysBrownOut || cause.is_watchdog()))
        }),
{
    crate::supervisor::law_codes_tell_causes_apart(cause, other);
    crate::supervisor::law_brownouts_are_told_apart(cause);
}

} // verus!
