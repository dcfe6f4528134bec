//! Protocol profile: a fixed complexity tier selected at session
//! construction, immutable thereafter.

use vstd::prelude::*;

verus! {

/// Wire value of the minimal-feature tier in the native engine.
pub const RAW_PROFILE_SIMPLE: i32 = 0;

/// Wire value of the standard-feature tier in the native engine.
pub const RAW_PROFILE_MAIN: i32 = 1;

/// Wire value of the full-feature tier in the native engine.
pub const RAW_PROFILE_ADVANCED: i32 = 2;

/// Protocol profile.
///
/// Profiles determine which features and complexity levels are available.
#[derive(Debug, Clone, Copy, PartialEq, Eq, Structural)]
pub enum Profile {
    /// Simple profile - basic functionality, lowest complexity.
    Simple,
    /// Main profile - standard functionality for most use cases.
    Main,
    /// Advanced profile - full feature set.
    Advanced,
}

impl Profile {
    /// The profile's value in the native engine's numbering.
    pub open spec fn raw_value(self) -> i32 {
        match self {
            Profile::Simple => RAW_PROFILE_SIMPLE,
            Profile::Main => RAW_PROFILE_MAIN,
            Profile::Advanced => RAW_PROFILE_ADVANCED,
        }
    }

    /// Convert the profile to the native engine's numbering.
    #[verifier::when_used_as_spec(raw_value)]
    pub fn to_raw(self) -> (r: i32)
        ensures
            r == self.raw_value(),
    {
        match self {
            Profile::Simple => RAW_PROFILE_SIMPLE,
            Profile::Main => RAW_PROFILE_MAIN,
            Profile::Advanced => RAW_PROFILE_ADVANCED,
        }
    }
}

impl Default for Profile {
    /// The standard tier is the default.
    fn default() -> (r: Self)
        ensures
            r is Main,
    {
        Profile::Main
    }
}

} // verus!
