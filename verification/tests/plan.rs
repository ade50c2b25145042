use bootstrap_sequencer::capability::{AutostartConfig, Capability, FailurePolicy, Launcher};
use bootstrap_sequencer::plan::{capability_at, plan, plan_len};
use bootstrap_sequencer::platform::Platform;

#[test]
fn desktop_plan_starts_with_autostart() {
    assert_eq!(
        plan(Platform::Desktop),
        vec![
            Capability::Autostart,
            Capability::Opener,
            Capability::Store,
            Capability::Notification,
        ]
    );
    assert_eq!(plan_len(Platform::Desktop), 4);
}

#[test]
fn mobile_plan_has_no_autostart() {
    assert_eq!(
        plan(Platform::Mobile),
        vec![Capability::Opener, Capability::Store, Capability::Notification]
    );
    assert_eq!(plan_len(Platform::Mobile), 3);
}

#[test]
fn capability_at_follows_the_plan() {
    for platform in [Platform::Desktop, Platform::Mobile] {
        let order = plan(platform);
        for (index, capability) in order.iter().enumerate() {
            assert_eq!(capability_at(platform, index), Some(*capability));
        }
        assert_eq!(capability_at(platform, order.len()), None);
    }
}

#[test]
fn capability_at_past_the_end_is_none() {
    assert_eq!(capability_at(Platform::Desktop, 4), None);
    assert_eq!(capability_at(Platform::Mobile, 3), None);
    assert_eq!(capability_at(Platform::Mobile, usize::MAX), None);
    assert_eq!(capability_at(Platform::Desktop, usize::MAX), None);
}

#[test]
fn capability_at_each_position() {
    assert_eq!(capability_at(Platform::Desktop, 0), Some(Capability::Autostart));
    assert_eq!(capability_at(Platform::Desktop, 1), Some(Capability::Opener));
    assert_eq!(capability_at(Platform::Desktop, 2), Some(Capability::Store));
    assert_eq!(capability_at(Platform::Desktop, 3), Some(Capability::Notification));
    assert_eq!(capability_at(Platform::Mobile, 0), Some(Capability::Opener));
    assert_eq!(capability_at(Platform::Mobile, 1), Some(Capability::Store));
    assert_eq!(capability_at(Platform::Mobile, 2), Some(Capability::Notification));
}

#[test]
fn only_autostart_failures_are_ignored() {
    assert_eq!(Capability::Autostart.failure_policy(), FailurePolicy::Ignore);
    assert_eq!(Capability::Opener.failure_policy(), FailurePolicy::Propagate);
    assert_eq!(Capability::Store.failure_policy(), FailurePolicy::Propagate);
    assert_eq!(Capability::Notification.failure_policy(), FailurePolicy::Propagate);
}

#[test]
fn autostart_is_available_on_the_desktop_only() {
    assert!(Capability::Autostart.is_available_on(Platform::Desktop));
    assert!(!Capability::Autostart.is_available_on(Platform::Mobile));
    for capability in [Capability::Opener, Capability::Store, Capability::Notification] {
        assert!(capability.is_available_on(Platform::Desktop));
        assert!(capability.is_available_on(Platform::Mobile));
    }
}

#[test]
fn plan_holds_what_is_available() {
    let all = [
        Capability::Autostart,
        Capability::Opener,
        Capability::Store,
        Capability::Notification,
    ];
    for platform in [Platform::Desktop, Platform::Mobile] {
        let order = plan(platform);
        for capability in all {
            let count = order.iter().filter(|c| **c == capability).count();
            let expected = if capability.is_available_on(platform) { 1 } else { 0 };
            assert_eq!(count, expected);
        }
    }
}

#[test]
fn platform_is_desktop() {
    assert!(Platform::Desktop.is_desktop());
    assert!(!Platform::Mobile.is_desktop());
}

#[test]
fn autostart_launches_minimized_as_launch_agent() {
    let config = AutostartConfig::standard();
    assert_eq!(config.launcher, Launcher::LaunchAgent);
    assert_eq!(config.args, vec!["--minimized"]);
}
