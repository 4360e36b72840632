use promptliano_supervisor::greet;
use promptliano_supervisor::health::ProbeOutcome;
use promptliano_supervisor::health::server_is_up;
use promptliano_supervisor::messages::health_probe_url;
use promptliano_supervisor::messages::ready_notice_tag;
use promptliano_supervisor::messages::sidecar_args;
use promptliano_supervisor::messages::sidecar_name;
use promptliano_supervisor::messages::start_reply;
use promptliano_supervisor::messages::stop_reply;
use promptliano_supervisor::messages::terminated_notice_tag;
use promptliano_supervisor::registry::Registry;
use promptliano_supervisor::registry::StartAction;
use promptliano_supervisor::registry::StopAction;

/// Drives one start request the way the host shell does: spawn only when
/// the registry says so, counting spawns in a test double.
fn drive_start(registry: &mut Registry, spawn_count: &mut u32, next_handle: u64) -> &'static str {
    match registry.start_action() {
        StartAction::Spawn => {
            *spawn_count += 1;
            registry.record_spawn(next_handle);
            start_reply(&StartAction::Spawn)
        }
        StartAction::AlreadyRunning => start_reply(&StartAction::AlreadyRunning),
    }
}

/// Drives one stop request the way the host shell does: kill only when the
/// registry hands out a handle, counting kill requests in a test double.
fn drive_stop(registry: &mut Registry, kill_count: &mut u32) -> &'static str {
    let action = registry.stop_action();
    if let StopAction::Kill(_) = action {
        *kill_count += 1;
    }
    stop_reply(&action)
}

#[test]
fn start_twice_spawns_exactly_once() {
    let mut registry = Registry::new();
    let mut spawn_count: u32 = 0;
    let first = drive_start(&mut registry, &mut spawn_count, 41);
    let second = drive_start(&mut registry, &mut spawn_count, 42);
    assert_eq!(spawn_count, 1);
    assert_eq!(first, "Promptliano server starting on port 3147");
    assert_eq!(second, "Promptliano server is already running");
}

#[test]
fn stop_without_start_reports_not_running() {
    let mut registry = Registry::new();
    let mut kill_count: u32 = 0;
    let reply = drive_stop(&mut registry, &mut kill_count);
    assert_eq!(kill_count, 0);
    assert_eq!(reply, "Promptliano server was not running");
}

#[test]
fn stop_after_start_kills_once_then_reports_not_running() {
    let mut registry = Registry::new();
    let mut spawn_count: u32 = 0;
    let mut kill_count: u32 = 0;
    drive_start(&mut registry, &mut spawn_count, 7);
    let first = drive_stop(&mut registry, &mut kill_count);
    let second = drive_stop(&mut registry, &mut kill_count);
    assert_eq!(kill_count, 1);
    assert_eq!(first, "Promptliano server stopped");
    assert_eq!(second, "Promptliano server was not running");
}

#[test]
fn stop_hands_back_the_recorded_handle() {
    let mut registry = Registry::new();
    registry.record_spawn(99);
    assert_eq!(registry.stop_action(), StopAction::Kill(99));
    assert!(!registry.is_tracking());
}

#[test]
fn monitor_clearing_lets_a_new_start_spawn() {
    let mut registry = Registry::new();
    let mut spawn_count: u32 = 0;
    drive_start(&mut registry, &mut spawn_count, 1);
    registry.clear();
    drive_start(&mut registry, &mut spawn_count, 2);
    assert_eq!(spawn_count, 2);
}

#[test]
fn health_check_is_true_exactly_on_success_responses() {
    assert!(server_is_up(&ProbeOutcome::Response(200)));
    assert!(server_is_up(&ProbeOutcome::Response(204)));
    assert!(server_is_up(&ProbeOutcome::Response(299)));
    assert!(!server_is_up(&ProbeOutcome::Response(199)));
    assert!(!server_is_up(&ProbeOutcome::Response(300)));
    assert!(!server_is_up(&ProbeOutcome::Response(404)));
    assert!(!server_is_up(&ProbeOutcome::Response(500)));
}

#[test]
fn health_check_is_false_when_unreachable() {
    assert!(!server_is_up(&ProbeOutcome::Unreachable));
}

#[test]
fn greeting_names_the_caller() {
    assert_eq!(greet("World"), "Hello, World! You've been greeted from Rust!");
    assert_eq!(greet(""), "Hello, ! You've been greeted from Rust!");
}

#[test]
fn fixed_parameters_match_the_deployment() {
    assert_eq!(sidecar_name(), "promptliano-server");
    assert_eq!(sidecar_args(), ("--port", "3147"));
    assert_eq!(health_probe_url(), "http://localhost:3147/api/health");
    assert_eq!(ready_notice_tag(), "promptliano-server-ready");
    assert_eq!(terminated_notice_tag(), "promptliano-server-terminated");
}
