use platform_manager::actions::deploy::{DeployAction, PROBE_MAX_ATTEMPTS};
use platform_manager::actions::deploy_flow::{DeployCommand, DeployEvent, DeployFlow, FlowStage};
use platform_manager::errors::AppError;
use platform_manager::models::DeployRequest;

fn plan_for(listen: Option<&str>) -> platform_manager::actions::deploy::DeployPlan {
    DeployAction::new()
        .plan(&DeployRequest {
            application: "orders-api".to_string(),
            url: None,
            listen: listen.map(|l| l.to_string()),
        })
        .unwrap()
}

#[test]
fn flow_without_listen_records_at_once() {
    let (flow, command) = DeployFlow::start(plan_for(None));
    assert!(matches!(command, DeployCommand::Record));
    assert_eq!(flow.stage(), FlowStage::Finished);
    assert_eq!(flow.plan().url, "http://localhost/orders-api");
}

#[test]
fn flow_starts_probes_and_records() {
    let (mut flow, command) = DeployFlow::start(plan_for(Some("http://127.0.0.1:7000")));
    match command {
        DeployCommand::Spawn { program, listen_arg } => {
            assert_eq!(program, "orders-api");
            assert_eq!(listen_arg, "127.0.0.1:7000");
        }
        _ => panic!("expected a start"),
    }
    assert!(!flow.accepts(&DeployEvent::Waited));
    let next = flow.step(DeployEvent::Spawned);
    match next {
        DeployCommand::RunProbe { server_url } => assert_eq!(server_url, "http://http://127.0.0.1:7000"),
        _ => panic!("expected a probe"),
    }
    let next = flow.step(DeployEvent::ProbeRan(Err("refused".to_string())));
    assert!(matches!(next, DeployCommand::Wait { millis: 250 }));
    let next = flow.step(DeployEvent::Waited);
    assert!(matches!(next, DeployCommand::RunProbe { .. }));
    let next = flow.step(DeployEvent::ProbeRan(Ok(())));
    assert!(matches!(next, DeployCommand::Record));
    assert_eq!(flow.stage(), FlowStage::Finished);
}

#[test]
fn flow_spawn_failure_fails() {
    let (mut flow, _) = DeployFlow::start(plan_for(Some("0.0.0.0:1")));
    match flow.step(DeployEvent::SpawnFailed("not found".to_string())) {
        DeployCommand::Fail(AppError::Execution(m)) => {
            assert_eq!(m, "failed to spawn 'orders-api': not found")
        }
        _ => panic!("expected a failure"),
    }
}

#[test]
fn flow_stops_program_when_probing_gives_up() {
    let (mut flow, _) = DeployFlow::start(plan_for(Some("0.0.0.0:1")));
    let mut command = flow.step(DeployEvent::Spawned);
    let mut probes = 0;
    loop {
        match command {
            DeployCommand::RunProbe { .. } => {
                probes += 1;
                command = flow.step(DeployEvent::ProbeRan(Err(format!("failure {probes}"))));
            }
            DeployCommand::Wait { .. } => command = flow.step(DeployEvent::Waited),
            DeployCommand::StopAndFail(AppError::Execution(m)) => {
                assert!(m.ends_with(": failure 10"));
                break;
            }
            _ => panic!("unexpected command"),
        }
    }
    assert_eq!(probes, PROBE_MAX_ATTEMPTS);
}

#[test]
fn flow_stops_program_when_no_probe_can_run() {
    let (mut flow, _) = DeployFlow::start(plan_for(Some("0.0.0.0:1")));
    let _ = flow.step(DeployEvent::Spawned);
    let e = AppError::Execution("no client".to_string());
    assert!(matches!(flow.step(DeployEvent::ProbeUnavailable(e)), DeployCommand::StopAndFail(_)));
}
