use platform_manager::actions::deploy::DeployAction;
use platform_manager::actions::deploy_agent::DeployAgentAction;
use platform_manager::actions::echo::EchoAction;
use platform_manager::actions::info::InfoAction;
use platform_manager::actions::Action;
use platform_manager::errors::AppError;
use platform_manager::launched_apps::LaunchedApps;
use platform_manager::models::{ApplicationAccess, DeployAgentRequest, DeployRequest, EchoRequest};

fn platform_only() -> LaunchedApps {
    LaunchedApps::new(vec![ApplicationAccess {
        application: "platform-manager".to_string(),
        url: "http://localhost:50051".to_string(),
    }])
}

#[test]
fn test_deploy_success() {
    let mut launched_apps = platform_only();
    let action = DeployAction::new();

    let input = DeployRequest {
        application: "billing-api".to_string(),
        url: Some("https://billing.example.com".to_string()),
        listen: None,
    };

    let plan = action.plan(&input).unwrap();
    assert!(plan.launch.is_none());
    let resp = action.finish(&mut launched_apps, &plan);

    assert_eq!(resp.application, "billing-api");
    assert_eq!(resp.url, "https://billing.example.com");
    assert_eq!(resp.status, "deployed");
    assert!(resp.message.contains("billing-api"));
    assert!(launched_apps.list().contains(&ApplicationAccess {
        application: "billing-api".to_string(),
        url: "https://billing.example.com".to_string(),
    }));
}

#[test]
fn test_deploy_rejects_empty_application() {
    let action = DeployAction::new();

    let input = DeployRequest {
        application: "   ".to_string(),
        url: None,
        listen: None,
    };

    let result = action.plan(&input);
    assert!(matches!(result, Err(AppError::InvalidPayload)));
}

#[test]
fn test_deploy_generates_default_url() {
    let mut launched_apps = LaunchedApps::new(vec![]);
    let action = DeployAction::new();

    let input = DeployRequest {
        application: "orders-api".to_string(),
        url: None,
        listen: None,
    };

    let plan = action.plan(&input).unwrap();
    let resp = action.finish(&mut launched_apps, &plan);
    assert_eq!(resp.url, "http://localhost/orders-api");
}

#[test]
fn test_deploy_normalizes_url_without_scheme() {
    let mut launched_apps = LaunchedApps::new(vec![]);
    let action = DeployAction::new();

    let input = DeployRequest {
        application: "orders-api".to_string(),
        url: Some("127.0.0.1:50051".to_string()),
        listen: None,
    };

    let plan = action.plan(&input).unwrap();
    let resp = action.finish(&mut launched_apps, &plan);
    assert_eq!(resp.url, "http://127.0.0.1:50051");
    assert!(resp.message.contains("deployed by deploy"));
}

#[test]
fn deploy_with_listen_address_starts_the_program() {
    let action = DeployAction::new();
    let input = DeployRequest {
        application: "  orders-api ".to_string(),
        url: Some("   ".to_string()),
        listen: Some(" https://127.0.0.1:7000 ".to_string()),
    };
    let plan = action.plan(&input).unwrap();
    assert_eq!(plan.application, "orders-api");
    assert_eq!(plan.url, "http://https://127.0.0.1:7000");
    let launch = plan.launch.unwrap();
    assert_eq!(launch.program, "orders-api");
    assert_eq!(launch.listen_arg, "127.0.0.1:7000");
}

#[test]
fn deploy_keeps_an_https_url() {
    let action = DeployAction::new();
    let input = DeployRequest {
        application: "orders-api".to_string(),
        url: Some(" https://orders.example.com ".to_string()),
        listen: Some("0.0.0.0:9000".to_string()),
    };
    let plan = action.plan(&input).unwrap();
    assert_eq!(plan.url, "https://orders.example.com");
    assert_eq!(plan.launch.unwrap().listen_arg, "0.0.0.0:9000");
}

#[test]
fn normalize_url_and_listen_arg() {
    assert_eq!(DeployAction::normalize_url("http://a"), "http://a");
    assert_eq!(DeployAction::normalize_url("https://a"), "https://a");
    assert_eq!(DeployAction::normalize_url("a:1"), "http://a:1");
    assert_eq!(DeployAction::normalize_url("ftp://a"), "http://ftp://a");
    assert_eq!(DeployAction::to_listen_arg("http://h:1"), "h:1");
    assert_eq!(DeployAction::to_listen_arg("https://h:1"), "h:1");
    assert_eq!(DeployAction::to_listen_arg("h:1"), "h:1");
}

#[test]
fn test_deploy_agent_success() {
    let mut launched_apps = platform_only();
    let action = DeployAgentAction::new();

    let input = DeployAgentRequest {
        application: "billing-api".to_string(),
        url: Some("https://billing.example.com".to_string()),
    };

    let resp = action.deploy(&mut launched_apps, &input).unwrap();

    assert_eq!(resp.application, "billing-api");
    assert_eq!(resp.url, "https://billing.example.com");
    assert_eq!(resp.status, "deployed");
    assert!(resp.message.contains("billing-api"));
    assert!(launched_apps.list().contains(&ApplicationAccess {
        application: "billing-api".to_string(),
        url: "https://billing.example.com".to_string(),
    }));
}

#[test]
fn test_deploy_agent_rejects_empty_application() {
    let mut launched_apps = LaunchedApps::new(vec![]);
    let action = DeployAgentAction::new();

    let input = DeployAgentRequest {
        application: "   ".to_string(),
        url: None,
    };

    let result = action.deploy(&mut launched_apps, &input);
    assert!(matches!(result, Err(AppError::InvalidPayload)));
    assert!(launched_apps.list().is_empty());
}

#[test]
fn test_deploy_agent_generates_default_url() {
    let mut launched_apps = LaunchedApps::new(vec![]);
    let action = DeployAgentAction::new();

    let input = DeployAgentRequest {
        application: "orders-api".to_string(),
        url: None,
    };

    let resp = action.deploy(&mut launched_apps, &input).unwrap();
    assert_eq!(resp.url, "http://localhost/orders-api");
}

#[test]
fn deploy_agent_rejects_blank_url_and_trims() {
    let mut launched_apps = LaunchedApps::new(vec![]);
    let action = DeployAgentAction::new();
    let blank = DeployAgentRequest { application: "x".to_string(), url: Some(" \t".to_string()) };
    assert!(matches!(action.deploy(&mut launched_apps, &blank), Err(AppError::InvalidPayload)));
    let padded = DeployAgentRequest {
        application: "\u{3000}api\u{a0}".to_string(),
        url: Some(" https://api.example.com\n".to_string()),
    };
    let resp = action.deploy(&mut launched_apps, &padded).unwrap();
    assert_eq!(resp.application, "api");
    assert_eq!(resp.url, "https://api.example.com");
    assert_eq!(resp.message, "application 'api' deployed by deploy-agent");
    assert_eq!(launched_apps.list().len(), 1);
}

#[test]
fn test_info_success() {
    let action = InfoAction;
    let apps = platform_only();
    let resp = action.execute(vec![], &apps).unwrap();
    assert_eq!(resp.application, "platform-manager");
    assert_eq!(resp.endpoints.len(), 2);
    assert!(resp.task_id.starts_with("task-"));
}

#[test]
fn test_info_rejects_non_empty_payload() {
    let action = InfoAction;
    let apps = platform_only();
    let result = action.execute(br#"{"ignored":true}"#.to_vec(), &apps);
    assert!(matches!(result, Err(AppError::InvalidPayload)));
}

#[test]
fn info_at_a_given_time() {
    let action = InfoAction::new();
    let apps = platform_only();
    let resp = action.info_at(1725029869000, &apps);
    assert_eq!(resp.task_id, "task-1725029869000");
    assert_eq!(resp.endpoints[0].name, "grpc_info_rpc");
    assert_eq!(resp.endpoints[0].value, "/manager.InfoService/Info (InfoRequest -> InfoResponse)");
    assert_eq!(resp.endpoints[1].name, "grpc_execute_rpc");
    assert_eq!(resp.launched_applications, apps.list());
    let zero = action.info_at(0, &apps);
    assert_eq!(zero.task_id, "task-0");
}

#[test]
fn info_from_clock_reports_errors() {
    let action = InfoAction::new();
    let apps = LaunchedApps::new(vec![]);
    let failed = action.info_from_clock(&[], Err("clock before epoch".to_string()), &apps);
    assert_eq!(failed, Err(AppError::Execution("clock before epoch".to_string())));
    let refused = action.info_from_clock(b"x", Ok(5), &apps);
    assert_eq!(refused, Err(AppError::InvalidPayload));
    let ok = action.info_from_clock(&[], Ok(42), &apps).unwrap();
    assert_eq!(ok.task_id, "task-42");
    assert!(ok.launched_applications.is_empty());
}

#[test]
fn test_echo_success() {
    let action = EchoAction;
    let resp = action.echo(&EchoRequest { message: "hello".to_string() });
    assert_eq!(resp.message, "hello");
    assert_eq!(action.name(), "echo");
}
