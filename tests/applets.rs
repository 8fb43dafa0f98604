use cosmic_panel::spawn::{plan_from_words, plan_restart, plan_spawn, EnvValue, EnvVar, SpawnError};
use cosmic_panel::supervisor::{AppletRegistry, ExitStep, SupervisorError};
use cosmic_panel::Alignment;

fn slots(v: &[(&str, u64)]) -> Vec<(String, u64)> {
    v.iter().map(|(s, t)| (s.to_string(), *t)).collect()
}

fn registry() -> AppletRegistry {
    let mut r = AppletRegistry::new();
    r.populate(&slots(&[("app.menu", 1), ("app.workspaces", 2)]), &slots(&[("app.time", 3)]), &slots(&[("app.notify", 4)]))
        .unwrap();
    r
}

fn env(key: &str, value: EnvValue) -> EnvVar {
    EnvVar { key: key.to_string(), value }
}

#[test]
fn populate_orders_lists() {
    let r = registry();
    let ids: Vec<&str> = r.records().iter().map(|x| x.id.as_str()).collect();
    assert_eq!(ids, vec!["app.menu", "app.workspaces", "app.time", "app.notify"]);
    assert_eq!(r.records()[2].alignment, Alignment::Center);
    assert!(r.records().iter().all(|x| x.process.is_none()));
}

#[test]
fn populate_twice_is_refused() {
    let mut r = registry();
    assert_eq!(r.populate(&slots(&[("x", 9)]), &vec![], &vec![]), Err(SupervisorError::AlreadySpawned));
    assert_eq!(r.records().len(), 4);
}

#[test]
fn populate_with_shared_transport_is_refused() {
    let mut r = AppletRegistry::new();
    assert_eq!(r.populate(&slots(&[("a", 1)]), &slots(&[("b", 1)]), &vec![]), Err(SupervisorError::DuplicateTransport));
    assert!(r.records().is_empty());
}

#[test]
fn restart_swaps_transport() {
    let mut r = registry();
    let id = "app.time".to_string();
    r.record_spawned(Alignment::Center, &id, 77, None).unwrap();
    assert_eq!(r.process_exited(Alignment::Center, &id, true, false), Ok(ExitStep::Restart));
    assert_eq!(r.records()[2].process, Some(77));
    assert_eq!(r.complete_restart(Alignment::Center, &id, 30, None), Ok(3));
    let rec = &r.records()[2];
    assert_eq!(rec.transport, 30);
    assert_eq!(rec.process, Some(77));
    assert_eq!(rec.generation, 1);
    assert_eq!(r.scale_factor_for(3, 120), None);
    assert_eq!(r.scale_factor_for(30, 120), Some(120));
    assert_eq!(r.records().iter().filter(|x| x.id == "app.time").count(), 1);
}

#[test]
fn notifications_applet_waits_for_handle() {
    let mut r = registry();
    let id = "app.notify".to_string();
    r.record_spawned(Alignment::Right, &id, 5, Some(8)).unwrap();
    assert_eq!(r.records()[3].security, Some(8));
    assert_eq!(r.process_exited(Alignment::Right, &id, true, true), Ok(ExitStep::AwaitNotificationHandle));
    assert_eq!(r.complete_restart(Alignment::Right, &id, 40, Some(41)), Ok(4));
    assert_eq!(r.records()[3].security, Some(41));
}

#[test]
fn exit_without_restart_stops() {
    let mut r = registry();
    let id = "app.menu".to_string();
    r.record_spawned(Alignment::Left, &id, 5, None).unwrap();
    assert_eq!(r.process_exited(Alignment::Left, &id, false, false), Ok(ExitStep::Stopped));
    assert_eq!(r.records()[0].process, None);
    assert_eq!(r.complete_restart(Alignment::Left, &id, 50, None), Err(SupervisorError::NotRunning));
}

#[test]
fn supervisor_errors() {
    let mut r = registry();
    let id = "app.menu".to_string();
    let gone = "app.gone".to_string();
    assert_eq!(r.record_spawned(Alignment::Right, &id, 5, None), Err(SupervisorError::NotFound));
    assert_eq!(r.process_exited(Alignment::Left, &gone, true, false), Err(SupervisorError::NotFound));
    assert_eq!(r.complete_restart(Alignment::Left, &gone, 50, None), Err(SupervisorError::NotFound));
    r.record_spawned(Alignment::Left, &id, 5, None).unwrap();
    assert_eq!(r.record_spawned(Alignment::Left, &id, 6, None), Err(SupervisorError::AlreadyRunning));
    assert_eq!(r.complete_restart(Alignment::Left, &id, 2, None), Err(SupervisorError::TransportInUse));
    assert_eq!(r.records()[0].transport, 1);
}

#[test]
fn spawn_splits_quoted_command() {
    let base = vec![("COSMIC_PANEL_SIZE".to_string(), "M".to_string())];
    let plan = plan_spawn("cosmic-applet-time --label \"a b\"", false, None, 9, &base).unwrap();
    assert_eq!(plan.executable, "cosmic-applet-time");
    assert_eq!(plan.args, vec!["--label".to_string(), "a b".to_string()]);
    assert_eq!(plan.handles, vec![9]);
    assert_eq!(
        plan.env,
        vec![env("COSMIC_PANEL_SIZE", EnvValue::Text("M".to_string())), env("WAYLAND_SOCKET", EnvValue::Handle(9))]
    );
}

#[test]
fn spawn_with_host_access_gets_listener_first() {
    let base = vec![
        ("WAYLAND_DISPLAY".to_string(), "wayland-1".to_string()),
        ("COSMIC_PANEL_OUTPUT".to_string(), "DP-1".to_string()),
    ];
    let plan = plan_spawn("applet", true, Some(4), 9, &base).unwrap();
    assert_eq!(plan.handles, vec![4, 9]);
    assert_eq!(plan.env[0], env("X_PRIVILEGED_WAYLAND_SOCKET", EnvValue::Handle(4)));
    assert_eq!(plan.env.len(), 4);
    let plain = plan_spawn("applet", false, Some(4), 9, &base).unwrap();
    assert_eq!(plain.handles, vec![9]);
    assert_eq!(
        plain.env,
        vec![env("COSMIC_PANEL_OUTPUT", EnvValue::Text("DP-1".to_string())), env("WAYLAND_SOCKET", EnvValue::Handle(9))]
    );
}

#[test]
fn spawn_of_empty_command_fails() {
    assert_eq!(plan_spawn("   ", false, None, 1, &vec![]).unwrap_err(), SpawnError::EmptyCommand);
    assert_eq!(plan_from_words(vec![], false, None, 1, &vec![]).unwrap_err(), SpawnError::EmptyCommand);
}

#[test]
fn restart_plan_orders_handles() {
    let plan = plan_restart(Some(4), Some(6), 9);
    assert_eq!(plan.handles, vec![4, 6, 9]);
    assert_eq!(
        plan.env,
        vec![
            env("X_PRIVILEGED_WAYLAND_SOCKET", EnvValue::Handle(4)),
            env("COSMIC_NOTIFICATIONS", EnvValue::Handle(6)),
            env("WAYLAND_SOCKET", EnvValue::Handle(9)),
        ]
    );
    assert_eq!(plan_restart(None, None, 9).handles, vec![9]);
}

#[test]
fn desktop_file_claims_applet_once() {
    let mut pending = vec!["app.menu".to_string(), "app.time".to_string(), "app.time".to_string()];
    assert!(pending_taken(&mut pending, "app.time"));
    assert_eq!(pending, vec!["app.menu".to_string(), "app.time".to_string()]);
    assert!(pending_taken(&mut pending, "app.time"));
    assert!(!pending_taken(&mut pending, "app.time"));
    assert_eq!(pending, vec!["app.menu".to_string()]);
}

fn pending_taken(pending: &mut Vec<String>, stem: &str) -> bool {
    cosmic_panel::spawn::take_pending(pending, &stem.to_string())
}
