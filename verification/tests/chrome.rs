use window_hotkeys::bindings::OsFamily;
use window_hotkeys::chrome::{
    icon_logs_missing_window, set_always_on_top, set_app_icon_visibility,
};
use window_hotkeys::error::{HostFailure, ShortcutError};
use window_hotkeys::host::{ActivationPolicy, HostOp, Visibility, WindowStatus};
use window_hotkeys::plan::{OnFailure, Outcome, Plan, Step};

const STATUSES: [WindowStatus; 4] = [
    WindowStatus::Missing,
    WindowStatus::Present(Visibility::Visible),
    WindowStatus::Present(Visibility::Hidden),
    WindowStatus::Present(Visibility::Unknown),
];

fn single(op: HostOp, failure: HostFailure) -> Plan {
    Plan { steps: vec![Step { op, on_failure: OnFailure::Raise(failure) }], ending: Outcome::Completed }
}

#[test]
fn icon_plan_on_macos_needs_no_window() {
    for window in STATUSES {
        assert_eq!(
            set_app_icon_visibility(OsFamily::MacOs, true, window),
            single(
                HostOp::SetActivationPolicy(ActivationPolicy::Regular),
                HostFailure::ActivationPolicy
            )
        );
        assert_eq!(
            set_app_icon_visibility(OsFamily::MacOs, false, window),
            single(
                HostOp::SetActivationPolicy(ActivationPolicy::Accessory),
                HostFailure::ActivationPolicy
            )
        );
    }
}

#[test]
fn icon_plan_on_windows_sets_the_taskbar_flag() {
    for window in &STATUSES[1..] {
        assert_eq!(
            set_app_icon_visibility(OsFamily::Windows, true, *window),
            single(HostOp::SetSkipTaskbar(false), HostFailure::TaskbarVisibility)
        );
        assert_eq!(
            set_app_icon_visibility(OsFamily::Windows, false, *window),
            single(HostOp::SetSkipTaskbar(true), HostFailure::TaskbarVisibility)
        );
    }
}

#[test]
fn icon_plan_on_linux_sets_the_panel_flag() {
    for window in &STATUSES[1..] {
        assert_eq!(
            set_app_icon_visibility(OsFamily::Linux, true, *window),
            single(HostOp::SetSkipTaskbar(false), HostFailure::PanelVisibility)
        );
        assert_eq!(
            set_app_icon_visibility(OsFamily::Linux, false, *window),
            single(HostOp::SetSkipTaskbar(true), HostFailure::PanelVisibility)
        );
    }
}

#[test]
fn icon_plan_without_a_window_succeeds_without_asking() {
    for os in [OsFamily::Windows, OsFamily::Linux] {
        for visible in [false, true] {
            assert_eq!(set_app_icon_visibility(os, visible, WindowStatus::Missing), Plan::idle());
        }
    }
}

#[test]
fn always_on_top_plan_is_one_call_on_the_window() {
    for window in &STATUSES[1..] {
        for enabled in [false, true] {
            assert_eq!(
                set_always_on_top(enabled, *window),
                single(HostOp::SetAlwaysOnTop(enabled), HostFailure::AlwaysOnTop)
            );
        }
    }
}

#[test]
fn always_on_top_plan_without_a_window_is_a_refusal() {
    for enabled in [false, true] {
        assert_eq!(
            set_always_on_top(enabled, WindowStatus::Missing),
            Plan::refuse(ShortcutError::MissingWindow)
        );
    }
}

#[test]
fn a_missing_window_is_logged_where_it_would_have_been_asked() {
    for window in STATUSES {
        assert!(!icon_logs_missing_window(OsFamily::MacOs, window));
    }
    for os in [OsFamily::Windows, OsFamily::Linux] {
        assert!(icon_logs_missing_window(os, WindowStatus::Missing));
        for window in &STATUSES[1..] {
            assert!(!icon_logs_missing_window(os, *window));
        }
    }
}
