use vstd::prelude::*;

verus! {

/// The status that `IOPMAssertionCreateWithName` returns on success (`kIOReturnSuccess`).
pub const IO_RETURN_SUCCESS: i32 = 0;

/// The three kinds of sleep a guard can prevent.
#[derive(Clone, Copy, Debug, PartialEq, Eq, Structural)]
pub enum AssertionKind {
    /// Display sleep while the user is idle.
    Display,
    /// System sleep while the user is idle.
    Idle,
    /// System sleep outright.
    Sleep,
}

impl AssertionKind {
    /// The IOKit assertion type that stands for this kind.
    pub open spec fn assertion_type_spec(self) -> Seq<char> {
        match self {
            AssertionKind::Display => "PreventUserIdleDisplaySleep"@,
            AssertionKind::Idle => "PreventUserIdleSystemSleep"@,
            AssertionKind::Sleep => "PreventSystemSleep"@,
        }
    }

    /// The IOKit assertion type to request for this kind.
    pub fn assertion_type(&self) -> (r: &'static str)
        ensures
            r@ == self.assertion_type_spec(),
    {
        match self {
            AssertionKind::Display => "PreventUserIdleDisplaySleep",
            AssertionKind::Idle => "PreventUserIdleSystemSleep",
            AssertionKind::Sleep => "PreventSystemSleep",
        }
    }
}

/// Why an operation of a guard failed.
#[derive(Clone, Copy, Debug, PartialEq, Eq, Structural)]
pub enum AwakeError {
    /// IOKit refused to create an assertion; holds the status it returned.
    Io(i32),
    /// The assertion of this kind was held where none was expected, or the
    /// other way round.
    Mismatch(AssertionKind),
}

} // verus!
