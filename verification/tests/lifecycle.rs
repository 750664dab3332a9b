use local_server_supervisor::launch::{
    plan_launch, server_launch_plan, LaunchError, StdioMode,
};
use local_server_supervisor::mode::{setup_action, BuildMode, LogVerbosity, SetupAction};
use local_server_supervisor::supervisor::{AppEvent, ProcessHandle, Supervisor};

#[test]
fn resolution_failure_propagates() {
    let resolved: Result<String, String> = Err(String::from("resource not found"));
    let planned = plan_launch(resolved);
    match planned {
        Ok(_) => panic!("a failed resolution must not produce a plan"),
        Err(err) => {
            assert!(matches!(&err, LaunchError::Resolve(d) if d == "resource not found"));
            assert_eq!(
                err.message(),
                "failed to resolve bundled server.mjs: resource not found"
            );
        }
    }
}

#[test]
fn spawn_failure_propagates_and_installs_nothing() {
    let mut sup = Supervisor::new();
    let spawned: Result<ProcessHandle, String> =
        Err(String::from("No such file or directory (os error 2)"));
    let registered = sup.register_launch(spawned);
    match registered {
        Ok(()) => panic!("a failed spawn must not register"),
        Err(err) => {
            assert!(matches!(
                &err,
                LaunchError::Spawn(d) if d == "No such file or directory (os error 2)"
            ));
            assert_eq!(
                err.message(),
                "failed to spawn local API server: No such file or directory (os error 2)"
            );
        }
    }
    assert_eq!(sup.current(), None);
}

#[test]
fn successful_launch_registers_exactly_one_handle() {
    let mut sup = Supervisor::new();
    let handle = ProcessHandle { id: 4242 };
    let registered = sup.register_launch(Ok(handle));
    assert!(registered.is_ok());
    assert_eq!(sup.current(), Some(handle));
}

#[test]
fn termination_is_idempotent() {
    let mut sup = Supervisor::new();
    let handle = ProcessHandle { id: 7 };
    sup.register_launch(Ok(handle)).unwrap();

    let first = sup.terminate();
    assert_eq!(first, Some(handle));
    assert_eq!(sup.current(), None);

    let second = sup.terminate();
    assert_eq!(second, None);
    assert_eq!(sup.current(), None);
}

#[test]
fn termination_without_launch_is_a_noop() {
    let mut sup = Supervisor::new();
    let victim = sup.terminate();
    assert_eq!(victim, None);
    assert_eq!(sup.current(), None);
}

#[test]
fn environment_propagation() {
    let plan = server_launch_plan(String::from("/opt/app/resources/server.mjs"));
    assert_eq!(plan.program, "node");
    assert_eq!(plan.args, vec![String::from("/opt/app/resources/server.mjs")]);
    assert_eq!(plan.env_name, "NEURAL_COMPUTER_SERVER_PORT");
    assert_eq!(plan.env_value, "8787");
    assert_eq!(plan.stdin, StdioMode::Null);
    assert_eq!(plan.stdout, StdioMode::Null);
    assert_eq!(plan.stderr, StdioMode::Null);
}

#[test]
fn successful_resolution_yields_the_server_plan() {
    let planned = plan_launch(Ok(String::from("/bundle/server.mjs")));
    match planned {
        Ok(plan) => {
            assert_eq!(plan.program, "node");
            assert_eq!(plan.args, vec![String::from("/bundle/server.mjs")]);
            assert_eq!(plan.env_value, "8787");
        }
        Err(_) => panic!("a resolved path must produce a plan"),
    }
}

#[test]
fn debug_build_installs_info_logging() {
    let action = setup_action(BuildMode::Debug);
    assert_eq!(action, SetupAction::InstallLogging(LogVerbosity::Info));
}

#[test]
fn release_build_launches_the_server() {
    let action = setup_action(BuildMode::Release);
    assert_eq!(action, SetupAction::LaunchServer);
}

#[test]
fn both_shutdown_signals_terminate() {
    let mut sup = Supervisor::new();
    let handle = ProcessHandle { id: 11 };
    sup.register_launch(Ok(handle)).unwrap();
    assert_eq!(sup.on_event(AppEvent::ExitRequested), Some(handle));
    assert_eq!(sup.current(), None);

    let mut sup2 = Supervisor::new();
    sup2.register_launch(Ok(handle)).unwrap();
    assert_eq!(sup2.on_event(AppEvent::Exit), Some(handle));
    assert_eq!(sup2.current(), None);
}

#[test]
fn other_events_leave_the_supervisor_alone() {
    let mut sup = Supervisor::new();
    let handle = ProcessHandle { id: 3 };
    sup.register_launch(Ok(handle)).unwrap();
    assert_eq!(sup.on_event(AppEvent::Other), None);
    assert_eq!(sup.current(), Some(handle));
}

#[test]
fn replacement_registers_the_new_handle() {
    let mut sup = Supervisor::new();
    sup.register_launch(Ok(ProcessHandle { id: 1 })).unwrap();
    sup.register_launch(Ok(ProcessHandle { id: 2 })).unwrap();
    assert_eq!(sup.current(), Some(ProcessHandle { id: 2 }));
}
