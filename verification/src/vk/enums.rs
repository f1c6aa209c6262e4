//! Status codes and the enum-like and flag-like wire values that typed
//! operations carry, each modeled as a plain integer newtype.

use vstd::prelude::*;

verus! {

/// Raw status reported by a native operation.
///
/// The three statuses this layer interprets are named variants; every other
/// native code travels verbatim inside `Failure`.
#[derive(Clone, Copy, PartialEq, Eq, Structural, Debug)]
pub enum Status {
    /// The distinguished success status.
    Success,
    /// Degraded-but-usable success reported by the present family of
    /// operations; never surfaced as an error.
    Suboptimal,
    /// More records were available than the supplied buffer could hold.
    Incomplete,
    /// Any other native status code, carried verbatim.
    Failure(i32),
}

impl Status {
    /// Whether this is the distinguished success status.
    pub open spec fn is_success_spec(self) -> bool {
        self is Success
    }

    pub fn is_success(&self) -> (r: bool)
        ensures
            r == self.is_success_spec(),
    {
        matches!(self, Status::Success)
    }
}

/// Presentation mode selector.
#[derive(Clone, Copy, PartialEq, Eq, Structural, Debug)]
pub struct PresentModeKHR {
    pub raw: i32,
}

/// Time domain selector for timestamp calibration.
#[derive(Clone, Copy, PartialEq, Eq, Structural, Debug)]
pub struct TimeDomainEXT {
    pub raw: i32,
}

/// Bitmask of device-group presentation modes.
#[derive(Clone, Copy, PartialEq, Eq, Structural, Debug)]
pub struct DeviceGroupPresentModeFlagsKHR {
    pub raw: u32,
}

/// Bitmask of sample counts.
#[derive(Clone, Copy, PartialEq, Eq, Structural, Debug)]
pub struct SampleCountFlags {
    pub raw: u32,
}

/// Bitmask of diagnostic message severities.
#[derive(Clone, Copy, PartialEq, Eq, Structural, Debug)]
pub struct DebugUtilsMessageSeverityFlagsEXT {
    pub raw: u32,
}

/// Bitmask of diagnostic message categories.
#[derive(Clone, Copy, PartialEq, Eq, Structural, Debug)]
pub struct DebugUtilsMessageTypeFlagsEXT {
    pub raw: u32,
}

} // verus!
