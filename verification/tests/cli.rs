use platform_manager::cli::{
    action_request, format_two_columns, indexed_rows, info_table_lines, is_info_object,
    reply_error_line, table_lines, Cli, Commands, OutputFormat, TableShape, DEFAULT_SERVER,
};

#[test]
fn cli_defaults() {
    let cli = Cli::new(None, None, Commands::Info);
    assert_eq!(cli.server, "http://[::1]:50051");
    assert_eq!(cli.server, DEFAULT_SERVER);
    assert_eq!(cli.output, OutputFormat::Json);
    let cli = Cli::new(Some("http://h:1".to_string()), Some(OutputFormat::Table), Commands::Info);
    assert_eq!(cli.server, "http://h:1");
    assert_eq!(cli.output, OutputFormat::Table);
}

#[test]
fn execute_command_builds_request() {
    let cmd = Commands::Execute { action: "echo".to_string(), payload: "{\"message\":\"é\"}".to_string() };
    let req = action_request(&cmd).unwrap();
    assert_eq!(req.action, "echo");
    assert_eq!(req.payload, "{\"message\":\"é\"}".as_bytes());
    assert!(action_request(&Commands::Info).is_none());
    assert!(action_request(&Commands::Deploy { file: "app.json".to_string() }).is_none());
}

#[test]
fn error_line() {
    assert_eq!(reply_error_line(""), None);
    assert_eq!(reply_error_line("boom"), Some("Error: boom".to_string()));
}

#[test]
fn two_columns_are_padded() {
    let rows = vec![
        ("a".to_string(), "1".to_string()),
        ("longer".to_string(), "é".to_string()),
    ];
    let lines = format_two_columns("Key", "Value", &rows);
    assert_eq!(lines, vec![
        "Key     Value".to_string(),
        "a       1    ".to_string(),
        "longer  é    ".to_string(),
    ]);
    let empty: Vec<(String, String)> = vec![];
    assert_eq!(format_two_columns("Index", "Value", &empty), vec!["Index  Value".to_string()]);
}

#[test]
fn info_table_layout() {
    let endpoints = vec![
        (Some("grpc_info_rpc".to_string()), Some("/x".to_string())),
        (None, None),
    ];
    let lines = info_table_lines(Some("platform-manager".to_string()), None, &endpoints);
    assert_eq!(lines, vec![
        "Field        Value           ".to_string(),
        "application  platform-manager".to_string(),
        "task_id      -               ".to_string(),
        "".to_string(),
        "Endpoint       Value".to_string(),
        "grpc_info_rpc  /x   ".to_string(),
        "-              -    ".to_string(),
    ]);
}

#[test]
fn array_and_scalar_tables() {
    let values: Vec<String> = (0..11).map(|i| format!("v{i}")).collect();
    let rows = indexed_rows(&values);
    assert_eq!(rows[10], ("10".to_string(), "v10".to_string()));
    let lines = table_lines(TableShape::Array(vec!["x".to_string()]));
    assert_eq!(lines, vec!["Index  Value".to_string(), "0      x    ".to_string()]);
    let lines = table_lines(TableShape::Scalar("42".to_string()));
    assert_eq!(lines, vec!["Key     Value".to_string(), "result  42   ".to_string()]);
    let lines = table_lines(TableShape::Object(vec![("message".to_string(), "hi".to_string())]));
    assert_eq!(lines, vec!["Key      Value".to_string(), "message  hi   ".to_string()]);
}

#[test]
fn info_object_detection() {
    let keys = vec!["task_id".to_string(), "application".to_string(), "endpoints".to_string()];
    assert!(is_info_object(&keys));
    let keys = vec!["application".to_string(), "endpoints".to_string()];
    assert!(!is_info_object(&keys));
}
