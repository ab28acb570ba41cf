use platform_manager::actions::echo::EchoAction;
use platform_manager::actions::Action;
use platform_manager::errors::AppError;
use platform_manager::models::EchoRequest;
use platform_manager::registry::ActionRegistry;

/// The echo action behind the generic endpoint: JSON in, JSON out.
struct JsonEcho;

impl Action for JsonEcho {
    fn name(&self) -> &'static str {
        EchoAction.name()
    }

    fn execute(&self, input: Vec<u8>) -> Result<Vec<u8>, AppError> {
        let value: serde_json::Value =
            serde_json::from_slice(&input).map_err(|_| AppError::InvalidPayload)?;
        let message = value
            .get("message")
            .and_then(|m| m.as_str())
            .ok_or(AppError::InvalidPayload)?;
        let resp = EchoAction.echo(&EchoRequest { message: message.to_string() });
        let mut out = serde_json::Map::new();
        out.insert("message".to_string(), serde_json::Value::String(resp.message));
        serde_json::to_vec(&serde_json::Value::Object(out))
            .map_err(|e| AppError::Execution(e.to_string()))
    }
}

/// An action that answers with its tag, to tell registrations apart.
struct Tagged {
    name: &'static str,
    tag: u8,
}

impl Action for Tagged {
    fn name(&self) -> &'static str {
        self.name
    }

    fn execute(&self, _input: Vec<u8>) -> Result<Vec<u8>, AppError> {
        Ok(vec![self.tag])
    }
}

#[test]
fn test_registry_action_not_found() {
    let registry = ActionRegistry::new();
    let result = registry.execute("nonexistent", vec![]);
    assert!(matches!(result, Err(AppError::ActionNotFound(_))));
}

#[test]
fn test_registry_echo() {
    let mut registry = ActionRegistry::new();
    registry.register(Box::new(JsonEcho));
    let mut body = serde_json::Map::new();
    body.insert("message".to_string(), serde_json::Value::String("test".to_string()));
    let input = serde_json::Value::Object(body).to_string().into_bytes();
    let output = registry.execute("echo", input).unwrap();
    let val: serde_json::Value = serde_json::from_slice(&output).unwrap();
    assert_eq!(val["message"], "test");
}

#[test]
fn registry_get_and_replace() {
    let mut registry: ActionRegistry<Box<dyn Action>> = ActionRegistry::new();
    assert!(registry.get("ping").is_none());
    registry.register(Box::new(Tagged { name: "ping", tag: 1 }));
    registry.register(Box::new(JsonEcho));
    assert_eq!(registry.get("ping").unwrap().name(), "ping");
    assert_eq!(registry.get("echo").unwrap().name(), "echo");
    assert_eq!(registry.execute("ping", vec![]).unwrap(), vec![1]);
    registry.register(Box::new(Tagged { name: "ping", tag: 2 }));
    assert_eq!(registry.get("ping").unwrap().name(), "ping");
    assert_eq!(registry.execute("ping", vec![]).unwrap(), vec![2]);
    match registry.execute("missing", vec![1, 2]) {
        Err(AppError::ActionNotFound(name)) => assert_eq!(name, "missing"),
        other => panic!("unexpected {:?}", other),
    }
}

#[test]
fn registrations_last_of_a_name_wins() {
    let mut registry: ActionRegistry<Box<dyn Action>> = ActionRegistry::new();
    registry.register(Box::new(Tagged { name: "a", tag: 1 }));
    registry.register(Box::new(Tagged { name: "b", tag: 2 }));
    registry.register(Box::new(Tagged { name: "a", tag: 3 }));
    assert_eq!(registry.execute("a", vec![]).unwrap(), vec![3]);
    assert_eq!(registry.execute("b", vec![]).unwrap(), vec![2]);
    assert!(registry.get("c").is_none());
}

#[test]
fn registry_default_is_empty() {
    let registry: ActionRegistry<Box<dyn Action>> = ActionRegistry::default();
    assert!(registry.get("echo").is_none());
}
