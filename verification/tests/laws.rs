use platform_manager::actions::deploy::{
    DeployAction,
    cli_path_error, probe_failure_text, spawn_failed, CliPathProblem, ProbeDecision, ProbeState,
    PROBE_MAX_ATTEMPTS, PROBE_RETRY_DELAY_MILLIS,
};
use platform_manager::errors::AppError;
use platform_manager::launched_apps::LaunchedApps;
use platform_manager::models::ApplicationAccess;
use platform_manager::text::{decimal_string, padded, starts_with, strip_prefix, trim_str};

fn access(a: &str, u: &str) -> ApplicationAccess {
    ApplicationAccess { application: a.to_string(), url: u.to_string() }
}

#[test]
fn record_is_listed_and_idempotent() {
    let mut apps = LaunchedApps::new(vec![access("a", "1"), access("b", "2")]);
    apps.record("c".to_string(), "3".to_string());
    let once = apps.list();
    assert!(once.contains(&access("c", "3")));
    apps.record("c".to_string(), "3".to_string());
    assert_eq!(apps.list(), once);
}

#[test]
fn record_overwrites_first_entry_and_keeps_others() {
    let mut apps = LaunchedApps::new(vec![access("a", "1"), access("b", "2"), access("a", "9")]);
    apps.record("a".to_string(), "7".to_string());
    assert_eq!(apps.list(), vec![access("a", "7"), access("b", "2"), access("a", "9")]);
    apps.record("a".to_string(), "8".to_string());
    assert_eq!(apps.list(), vec![access("a", "8"), access("b", "2"), access("a", "9")]);
}

#[test]
fn probe_gives_up_after_ten_failures() {
    let mut state = ProbeState::new();
    for attempt in 1..PROBE_MAX_ATTEMPTS {
        let d = state.observe("http://h:1", Err(format!("failure {attempt}")));
        assert!(matches!(d, ProbeDecision::RetryAfter(PROBE_RETRY_DELAY_MILLIS)));
        assert!(!state.is_finished());
    }
    let d = state.observe("http://h:1", Err("last".to_string()));
    match d {
        ProbeDecision::GiveUp(AppError::Execution(m)) => assert_eq!(
            m,
            "failed to validate deployment via info command against 'http://h:1': last"
        ),
        _ => panic!("expected to give up"),
    }
    assert!(state.is_finished());
    assert_eq!(state.attempts(), 10);
}

#[test]
fn probe_success_ends_probing() {
    let mut state = ProbeState::new();
    assert!(matches!(state.observe("u", Err("x".to_string())), ProbeDecision::RetryAfter(250)));
    assert!(matches!(state.observe("u", Ok(())), ProbeDecision::Ready));
    assert!(state.is_finished());
}

#[test]
fn probe_failure_and_spawn_texts() {
    assert_eq!(probe_failure_text("  \n", "exit status: 2"), "info command exited with exit status: 2");
    assert_eq!(probe_failure_text(" connection refused \n", "exit status: 1"), "connection refused");
    assert_eq!(
        spawn_failed("orders-api", "No such file"),
        AppError::Execution("failed to spawn 'orders-api': No such file".to_string())
    );
    assert_eq!(
        cli_path_error(&CliPathProblem::NotFound("cli".to_string())),
        AppError::Execution(
            "unable to find 'cli' for info probe. Set PLATFORM_MANAGER_CLI_PATH to override".to_string()
        )
    );
    assert_eq!(
        cli_path_error(&CliPathProblem::NoExecutableDirectory),
        AppError::Execution("failed to resolve executable directory for info probe".to_string())
    );
    assert_eq!(
        cli_path_error(&CliPathProblem::ExecutableUnresolved("gone".to_string())),
        AppError::Execution("failed to resolve current executable: gone".to_string())
    );
}

#[test]
fn text_helpers() {
    assert_eq!(trim_str("\u{2003} a b \u{85}"), "a b");
    assert_eq!(trim_str(" \t\n"), "");
    assert_eq!(trim_str("x\u{200b}"), "x\u{200b}");
    assert!(starts_with("https://x", "https://"));
    assert!(!starts_with("http", "https://"));
    assert_eq!(strip_prefix("http://h", "http://"), Some("h"));
    assert_eq!(strip_prefix("h", "http://"), None);
    assert_eq!(decimal_string(0), "0");
    assert_eq!(decimal_string(340282366920938463463374607431768211455), "340282366920938463463374607431768211455");
    assert_eq!(padded("é", 3), "é  ");
    assert_eq!(padded("long", 2), "long");
}

#[test]
fn error_messages() {
    assert_eq!(AppError::InvalidPayload.message(), "invalid payload");
    assert_eq!(AppError::Execution("x".to_string()).message(), "execution failed: x");
    assert_eq!(AppError::ActionNotFound("y".to_string()).message(), "action not found: y");
}

#[test]
fn record_keeps_names_unique() {
    let mut apps = LaunchedApps::new(vec![access("a", "1"), access("b", "2")]);
    apps.record("b".to_string(), "3".to_string());
    apps.record("c".to_string(), "4".to_string());
    let names: Vec<String> = apps.list().into_iter().map(|a| a.application).collect();
    assert_eq!(names, vec!["a".to_string(), "b".to_string(), "c".to_string()]);
}

#[test]
fn normalize_url_is_idempotent() {
    for url in ["orders:1", "http://x", "https://y", ""] {
        let once = DeployAction::normalize_url(url);
        assert_eq!(DeployAction::normalize_url(&once), once);
    }
}
