//! The kind of environment an application is built for.

use vstd::prelude::*;

verus! {

/// The target environment of a build.
#[derive(Clone, Copy, Debug, PartialEq, Eq, Structural)]
pub enum Platform {
    /// A desktop environment, where an application can be started at login.
    Desktop,
    /// A mobile environment, which has no such mechanism.
    Mobile,
}

impl Platform {
    /// Whether capabilities that exist on the desktop only are attached.
    pub open spec fn spec_is_desktop(self) -> bool {
        self is Desktop
    }

    /// Whether capabilities that exist on the desktop only are attached.
    #[verifier::when_used_as_spec(spec_is_desktop)]
    pub fn is_desktop(self) -> (desktop: bool)
        ensures
            desktop == (self is Desktop),
    {
        match self {
            Platform::Desktop => true,
            Platform::Mobile => false,
        }
    }
}

} // verus!
