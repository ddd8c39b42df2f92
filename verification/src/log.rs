//! The decision logic of the logging bridge: severity classification and
//! the exclusive install/clear protocol for the two callback shapes.
//!
//! The process-wide slot storage itself lives with the embedding program;
//! this module owns the rules it must follow.

use crate::error::{MdfError, MdfResult};
use crate::types::MdfLogSeverity;
use vstd::prelude::*;
use vstd::string::StringExecFns;

verus! {

/// The level a log record is forwarded at.
#[derive(Debug, Clone, Copy, PartialEq, Eq, Structural)]
pub enum LogLevel {
    Trace,
    Debug,
    Info,
    Warn,
}

/// The level a record of the given severity is forwarded at: trace and
/// debug map to themselves, info and notice to info, everything else to
/// warn.
pub open spec fn spec_log_level_for(severity: MdfLogSeverity) -> LogLevel {
    match severity {
        MdfLogSeverity::Trace => LogLevel::Trace,
        MdfLogSeverity::Debug => LogLevel::Debug,
        MdfLogSeverity::Info => LogLevel::Info,
        MdfLogSeverity::Notice => LogLevel::Info,
        _ => LogLevel::Warn,
    }
}

/// Classifies a severity into the level it is forwarded at.
pub fn log_level_for(severity: MdfLogSeverity) -> (r: LogLevel)
    ensures
        r == spec_log_level_for(severity),
{
    match severity {
        MdfLogSeverity::Trace => LogLevel::Trace,
        MdfLogSeverity::Debug => LogLevel::Debug,
        MdfLogSeverity::Info => LogLevel::Info,
        MdfLogSeverity::Notice => LogLevel::Info,
        _ => LogLevel::Warn,
    }
}

/// The occupancy of the two process-wide callback slots: one for the
/// severity-and-text shape, one for the severity, function and text shape.
#[derive(Debug, Clone, Copy, PartialEq, Eq, Structural)]
pub struct LogCallbackSlots {
    /// Whether a callback of the first shape is installed.
    pub slot1: bool,
    /// Whether a callback of the second shape is installed.
    pub slot2: bool,
}

impl LogCallbackSlots {
    /// Both slots start vacant.
    pub fn new() -> (r: LogCallbackSlots)
        ensures
            !r.slot1,
            !r.slot2,
    {
        LogCallbackSlots { slot1: false, slot2: false }
    }

    /// Installs (`install` true) or clears (`install` false) the callback
    /// of the first shape.  Installing over an installed callback fails
    /// and changes nothing; clearing always succeeds.
    pub fn set_log_callback_1(&mut self, install: bool) -> (r: MdfResult<()>)
        ensures
            r is Ok <==> !(install && old(self).slot1),
            r is Ok ==> *final(self) == (LogCallbackSlots { slot1: install, ..*old(self) }),
            r is Err ==> *final(self) == *old(self) && (r matches Err(e) && e matches
                MdfError::CallbackError(m) && m@ == "Failed to set log callback, already set"@),
    {
        if install {
            if self.slot1 {
                return Err(
                    MdfError::CallbackError(
                        String::from_str("Failed to set log callback, already set"),
                    ),
                );
            }
            self.slot1 = true;
        } else {
            self.slot1 = false;
        }
        Ok(())
    }

    /// Installs or clears the callback of the second shape, under the same
    /// exclusivity rule as the first.
    pub fn set_log_callback_2(&mut self, install: bool) -> (r: MdfResult<()>)
        ensures
            r is Ok <==> !(install && old(self).slot2),
            r is Ok ==> *final(self) == (LogCallbackSlots { slot2: install, ..*old(self) }),
            r is Err ==> *final(self) == *old(self) && (r matches Err(e) && e matches
                MdfError::CallbackError(m) && m@ == "Failed to set log callback, already set"@),
    {
        if install {
            if self.slot2 {
                return Err(
                    MdfError::CallbackError(
                        String::from_str("Failed to set log callback, already set"),
                    ),
                );
            }
            self.slot2 = true;
        } else {
            self.slot2 = false;
        }
        Ok(())
    }
}

impl Default for LogCallbackSlots {
    /// Both slots vacant.
    fn default() -> (r: LogCallbackSlots)
        ensures
            !r.slot1,
            !r.slot2,
    {
        LogCallbackSlots { slot1: false, slot2: false }
    }
}

} // verus!
