//! The build target as plain values.
use vstd::prelude::*;

verus! {

/// The operating system a build is compiled for.
#[derive(Clone, Copy, Debug, PartialEq, Eq, Structural)]
pub enum TargetOs {
    Android,
    Ios,
    Linux,
    Macos,
    Windows,
    /// Any other desktop or server system.
    Other,
}

/// The build profile: debug builds carry extra diagnostics.
#[derive(Clone, Copy, Debug, PartialEq, Eq, Structural)]
pub enum Profile {
    Debug,
    Release,
}

/// What a build is compiled for.
#[derive(Clone, Copy, Debug, PartialEq, Eq, Structural)]
pub struct Target {
    pub os: TargetOs,
    pub profile: Profile,
}

/// The mobile family: the systems that need the mobile-only capabilities.
pub open spec fn is_mobile_spec(os: TargetOs) -> bool {
    os == TargetOs::Android || os == TargetOs::Ios
}

/// The one mobile system whose web view lacks WebAuthn, sharing and file
/// access, so that the shell brings its own.
pub open spec fn needs_native_bridges_spec(os: TargetOs) -> bool {
    os == TargetOs::Android
}

impl TargetOs {
    /// Whether this system belongs to the mobile family.
    pub fn is_mobile(&self) -> (r: bool)
        ensures
            r == is_mobile_spec(*self),
    {
        match self {
            TargetOs::Android | TargetOs::Ios => true,
            _ => false,
        }
    }

    /// Whether the shell must bring WebAuthn, sharing and file access itself.
    pub fn needs_native_bridges(&self) -> (r: bool)
        ensures
            r == needs_native_bridges_spec(*self),
    {
        match self {
            TargetOs::Android => true,
            _ => false,
        }
    }
}

impl Target {
    pub fn new(os: TargetOs, profile: Profile) -> (r: Target)
        ensures
            r.os == os,
            r.profile == profile,
    {
        Target { os, profile }
    }

    /// Whether this is a debug build.
    pub fn is_debug(&self) -> (r: bool)
        ensures
            r == (self.profile == Profile::Debug),
    {
        match self.profile {
            Profile::Debug => true,
            Profile::Release => false,
        }
    }
}

} // verus!
