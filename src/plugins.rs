//! The native capabilities that a build registers with the host framework.
use vstd::prelude::*;
use crate::platform::{is_mobile_spec, needs_native_bridges_spec, Target, TargetOs};

verus! {

/// A native capability, registered with the host framework as a plugin.
#[derive(Clone, Copy, Debug, PartialEq, Eq, Structural)]
pub enum Capability {
    /// Safe-area inset queries, on every system.
    SafeAreaInsets,
    /// The biometric prompt, on the mobile family.
    Biometric,
    /// WebAuthn ceremonies, where the web view has none of its own.
    WebAuthn,
    /// The native share sheet.
    Share,
    /// File system access.
    Filesystem,
}

/// The capabilities a build for `os` registers, in registration order.
pub open spec fn plan_spec(os: TargetOs) -> Seq<Capability> {
    seq![Capability::SafeAreaInsets]
        + (if is_mobile_spec(os) { seq![Capability::Biometric] } else { Seq::empty() })
        + (if needs_native_bridges_spec(os) {
            seq![Capability::WebAuthn, Capability::Share, Capability::Filesystem]
        } else {
            Seq::empty()
        })
}

/// The capabilities to register for `target`, in registration order: safe-area
/// insets always, then the biometric prompt on the mobile family, then
/// WebAuthn, sharing and file access where the web view lacks them.
pub fn plugin_plan(target: &Target) -> (r: Vec<Capability>)
    ensures
        r@ == plan_spec(target.os),
{
    let mut r: Vec<Capability> = Vec::new();
    r.push(Capability::SafeAreaInsets);
    if target.os.is_mobile() {
        r.push(Capability::Biometric);
    }
    if target.os.needs_native_bridges() {
        r.push(Capability::WebAuthn);
        r.push(Capability::Share);
        r.push(Capability::Filesystem);
    }
    assert(r@ =~= plan_spec(target.os));
    r
}

/// A build for a system outside the mobile family never registers the
/// biometric prompt.
pub proof fn lemma_desktop_has_no_biometric(os: TargetOs)
    requires
        !is_mobile_spec(os),
    ensures
        !plan_spec(os).contains(Capability::Biometric),
{
    assert(plan_spec(os) =~= seq![Capability::SafeAreaInsets]);
    assert(plan_spec(os)[0] != Capability::Biometric);
}

/// Every build for the mobile family registers the biometric prompt.
pub proof fn lemma_mobile_has_biometric(os: TargetOs)
    requires
        is_mobile_spec(os),
    ensures
        plan_spec(os).contains(Capability::Biometric),
{
    assert(plan_spec(os)[1] == Capability::Biometric);
}

/// WebAuthn, sharing and file access are registered on Android and on no
/// other mobile system.
pub proof fn lemma_native_bridges_only_on_android(os: TargetOs)
    requires
        is_mobile_spec(os),
    ensures
        os == TargetOs::Android ==> {
            &&& plan_spec(os).contains(Capability::WebAuthn)
            &&& plan_spec(os).contains(Capability::Share)
            &&& plan_spec(os).contains(Capability::Filesystem)
        },
        os == TargetOs::Ios ==> {
            &&& !plan_spec(os).contains(Capability::WebAuthn)
            &&& !plan_spec(os).contains(Capability::Share)
            &&& !plan_spec(os).contains(Capability::Filesystem)
        },
{
    if os == TargetOs::Android {
        assert(plan_spec(os)[2] == Capability::WebAuthn);
        assert(plan_spec(os)[3] == Capability::Share);
        assert(plan_spec(os)[4] == Capability::Filesystem);
    } else {
        assert(plan_spec(os) =~= seq![Capability::SafeAreaInsets, Capability::Biometric]);
    }
}

} // verus!
