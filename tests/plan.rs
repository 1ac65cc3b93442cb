use wallet::platform::{Profile, Target, TargetOs};
use wallet::plugins::{plugin_plan, Capability};

fn plan_for(os: TargetOs) -> Vec<Capability> {
    plugin_plan(&Target::new(os, Profile::Release))
}

#[test]
fn desktop_plan_is_safe_area_only() {
    for os in [TargetOs::Linux, TargetOs::Macos, TargetOs::Windows, TargetOs::Other] {
        assert_eq!(plan_for(os), vec![Capability::SafeAreaInsets]);
        assert!(!plan_for(os).contains(&Capability::Biometric));
    }
}

#[test]
fn mobile_plans_have_biometric() {
    assert!(plan_for(TargetOs::Android).contains(&Capability::Biometric));
    assert!(plan_for(TargetOs::Ios).contains(&Capability::Biometric));
}

#[test]
fn android_plan_has_native_bridges() {
    assert_eq!(
        plan_for(TargetOs::Android),
        vec![
            Capability::SafeAreaInsets,
            Capability::Biometric,
            Capability::WebAuthn,
            Capability::Share,
            Capability::Filesystem,
        ]
    );
}

#[test]
fn ios_plan_lacks_native_bridges() {
    let plan = plan_for(TargetOs::Ios);
    assert_eq!(plan, vec![Capability::SafeAreaInsets, Capability::Biometric]);
    assert!(!plan.contains(&Capability::WebAuthn));
    assert!(!plan.contains(&Capability::Share));
    assert!(!plan.contains(&Capability::Filesystem));
}

#[test]
fn plan_does_not_depend_on_profile() {
    for os in [TargetOs::Android, TargetOs::Ios, TargetOs::Linux] {
        assert_eq!(
            plugin_plan(&Target::new(os, Profile::Debug)),
            plugin_plan(&Target::new(os, Profile::Release))
        );
    }
}

#[test]
fn target_queries() {
    assert!(TargetOs::Android.is_mobile());
    assert!(TargetOs::Ios.is_mobile());
    assert!(!TargetOs::Windows.is_mobile());
    assert!(TargetOs::Android.needs_native_bridges());
    assert!(!TargetOs::Ios.needs_native_bridges());
    assert!(Target::new(TargetOs::Linux, Profile::Debug).is_debug());
    assert!(!Target::new(TargetOs::Linux, Profile::Release).is_debug());
}
