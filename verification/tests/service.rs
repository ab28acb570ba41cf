use platform_manager::actions::deploy::DeployAction;
use platform_manager::actions::deploy_agent::DeployAgentAction;
use platform_manager::actions::info::InfoAction;
use platform_manager::actions::Action;
use platform_manager::errors::AppError;
use platform_manager::launched_apps::LaunchedApps;
use platform_manager::models::{ApplicationAccess, DeployAgentRequest, DeployRequest};
use platform_manager::registry::ActionRegistry;
use platform_manager::service::AppService;

/// An action registered under the name of the info RPC, which would answer
/// if it were run.
struct InfoByName;

impl Action for InfoByName {
    fn name(&self) -> &'static str {
        "info"
    }

    fn execute(&self, _input: Vec<u8>) -> Result<Vec<u8>, AppError> {
        Ok(b"{}".to_vec())
    }
}

fn build_service() -> AppService {
    let launched_apps = LaunchedApps::new(vec![ApplicationAccess {
        application: "platform-manager".to_string(),
        url: "http://localhost:50051".to_string(),
    }]);
    let mut registry: ActionRegistry<Box<dyn Action>> = ActionRegistry::new();
    registry.register(Box::new(InfoByName));
    AppService::new(
        InfoAction::new(),
        DeployAction::new(),
        DeployAgentAction::new(),
        launched_apps,
        registry,
    )
}

#[test]
fn test_app_service_get_info() {
    let svc = build_service();
    let output = svc.get_info().unwrap();
    assert_eq!(output.application, "platform-manager");
}

#[test]
fn test_app_service_deploy() {
    let mut svc = build_service();
    let input = DeployRequest {
        application: "orders-api".to_string(),
        url: Some("https://orders.example.com".to_string()),
        listen: None,
    };
    let plan = svc.plan_deploy(&input).unwrap();
    let output = svc.finish_deploy(&plan);
    assert_eq!(output.application, "orders-api");
}

#[test]
fn deploy_agent_shows_in_info() {
    let mut svc = build_service();
    let req = DeployAgentRequest {
        application: "orders-api".to_string(),
        url: Some("https://orders.example.com".to_string()),
    };
    svc.deploy_agent(&req).unwrap();
    let info = svc.get_info().unwrap();
    assert_eq!(info.launched_applications, vec![
        ApplicationAccess {
            application: "platform-manager".to_string(),
            url: "http://localhost:50051".to_string(),
        },
        ApplicationAccess {
            application: "orders-api".to_string(),
            url: "https://orders.example.com".to_string(),
        },
    ]);
    assert_eq!(svc.launched_applications().len(), 2);
}

#[test]
fn service_execute_by_name() {
    let svc = build_service();
    match svc.execute("info", vec![]) {
        Err(e) => assert!(e.message().contains("only via Info RPC")),
        Ok(_) => panic!("info must be refused"),
    }
    assert!(matches!(svc.execute("echo", vec![]), Err(AppError::ActionNotFound(_))));
}

#[test]
fn deploy_shows_in_info() {
    let mut svc = build_service();
    let req = DeployRequest {
        application: "billing".to_string(),
        url: Some("billing.local:8080".to_string()),
        listen: None,
    };
    let plan = svc.plan_deploy(&req).unwrap();
    let resp = svc.finish_deploy(&plan);
    assert_eq!(resp.url, "http://billing.local:8080");
    let info = svc.get_info().unwrap();
    assert!(info.launched_applications.contains(&ApplicationAccess {
        application: "billing".to_string(),
        url: "http://billing.local:8080".to_string(),
    }));
}

#[test]
fn refused_deploy_agent_changes_nothing() {
    let mut svc = build_service();
    let before = svc.launched_applications();
    let req = DeployAgentRequest { application: " ".to_string(), url: None };
    assert!(matches!(svc.deploy_agent(&req), Err(AppError::InvalidPayload)));
    assert_eq!(svc.launched_applications(), before);
}
