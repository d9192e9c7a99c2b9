use zen_manager::bootstrap::{launch_actions, on_run_finished, Action};
use zen_manager::capability::{capabilities, Capability};
use zen_manager::platform::Platform;
use zen_manager::report::{dialog_args, dialog_program, dialog_text, failure_line, StartupFailure};

fn failed(message: &str) -> Result<(), StartupFailure> {
    Err(StartupFailure::new(message.to_string()))
}

fn count_registrations(actions: &[Action], capability: Capability) -> usize {
    actions.iter().filter(|a| **a == Action::Register(capability)).count()
}

#[test]
fn capabilities_are_the_three_plugins() {
    assert_eq!(
        capabilities(),
        vec![Capability::Filesystem, Capability::Notification, Capability::Http]
    );
}

#[test]
fn launch_registers_then_runs() {
    assert_eq!(
        launch_actions(),
        vec![
            Action::Register(Capability::Filesystem),
            Action::Register(Capability::Notification),
            Action::Register(Capability::Http),
            Action::RunEventLoop,
        ]
    );
}

#[test]
fn success_does_nothing_more_and_exits_normally() {
    for platform in [Platform::Windows, Platform::OtherDesktop, Platform::Mobile] {
        let after = on_run_finished(platform, &Ok(()));
        assert!(after.is_empty());
        let mut trace = launch_actions();
        trace.extend(after);
        assert_eq!(trace.last(), Some(&Action::RunEventLoop));
        assert!(!trace.iter().any(|a| matches!(a, Action::Exit(_))));
    }
}

#[test]
fn port_in_use_on_linux_desktop() {
    let actions = on_run_finished(Platform::OtherDesktop, &failed("port in use"));
    assert_eq!(
        actions,
        vec![
            Action::WriteStderr("Failed to start Zen Manager: port in use".to_string()),
            Action::Exit(1),
        ]
    );
}

#[test]
fn port_in_use_on_windows_spawns_dialog() {
    let actions = on_run_finished(Platform::Windows, &failed("port in use"));
    assert_eq!(
        actions,
        vec![
            Action::WriteStderr("Failed to start Zen Manager: port in use".to_string()),
            Action::SpawnProcess {
                program: "msg".to_string(),
                args: vec![
                    "/w".to_string(),
                    "*".to_string(),
                    "Zen Manager failed to start: port in use".to_string(),
                ],
            },
            Action::Exit(1),
        ]
    );
}

#[test]
fn failure_on_mobile_reports_and_exits() {
    let actions = on_run_finished(Platform::Mobile, &failed("no window"));
    assert_eq!(
        actions,
        vec![
            Action::WriteStderr("Failed to start Zen Manager: no window".to_string()),
            Action::Exit(1),
        ]
    );
}

#[test]
fn failure_exits_with_one_on_every_platform() {
    for platform in [Platform::Windows, Platform::OtherDesktop, Platform::Mobile] {
        let actions = on_run_finished(platform, &failed("boom"));
        assert_eq!(actions.last(), Some(&Action::Exit(1)));
        match &actions[0] {
            Action::WriteStderr(line) => {
                assert!(line.starts_with("Failed to start Zen Manager:"));
                assert!(line.ends_with("boom"));
            }
            other => panic!("unexpected first action {:?}", other),
        }
    }
}

#[test]
fn no_spawn_on_other_desktop() {
    for outcome in [Ok(()), failed("port in use"), failed("")] {
        let mut trace = launch_actions();
        trace.extend(on_run_finished(Platform::OtherDesktop, &outcome));
        assert!(!trace.iter().any(|a| matches!(a, Action::SpawnProcess { .. })));
    }
}

#[test]
fn each_capability_registered_once_on_both_paths() {
    for platform in [Platform::Windows, Platform::OtherDesktop, Platform::Mobile] {
        for outcome in [Ok(()), failed("port in use")] {
            let mut trace = launch_actions();
            trace.extend(on_run_finished(platform, &outcome));
            for capability in [Capability::Filesystem, Capability::Notification, Capability::Http] {
                assert_eq!(count_registrations(&trace, capability), 1);
            }
        }
    }
}

#[test]
fn failure_line_text() {
    assert_eq!(failure_line("port in use"), "Failed to start Zen Manager: port in use");
    assert_eq!(failure_line(""), "Failed to start Zen Manager: ");
}

#[test]
fn dialog_text_and_arguments() {
    assert_eq!(dialog_text("oops"), "Zen Manager failed to start: oops");
    assert_eq!(dialog_program(), "msg");
    assert_eq!(
        dialog_args("oops"),
        vec!["/w".to_string(), "*".to_string(), "Zen Manager failed to start: oops".to_string()]
    );
}

#[test]
fn startup_failure_keeps_message() {
    let f = StartupFailure::new("cannot create window".to_string());
    assert_eq!(f.message(), "cannot create window");
    assert_eq!(f.message, "cannot create window");
}

#[test]
fn platform_kinds() {
    assert!(Platform::Windows.is_desktop());
    assert!(Platform::OtherDesktop.is_desktop());
    assert!(!Platform::Mobile.is_desktop());
    assert!(Platform::Windows.shows_dialog());
    assert!(!Platform::OtherDesktop.shows_dialog());
    assert!(!Platform::Mobile.shows_dialog());
}
