use calc_tools::decimal::{i64_dec_string, u64_dec_string};
use calc_tools::provider::{CallError, Calculator};
use calc_tools::schema::{format_tools, validate_args, ArgValue, InputSchema, Property, Tool};
use calc_tools::session::{Session, SessionEvent, SessionState};

fn num_args(a: i64, b: i64) -> Vec<(String, ArgValue)> {
    vec![
        ("a".to_string(), ArgValue::Num(a)),
        ("b".to_string(), ArgValue::Num(b)),
    ]
}

#[test]
fn add_renders_sum_as_decimal_text() {
    let c = Calculator::new();
    assert_eq!(c.add(3, 2), "5");
    assert_eq!(c.add(0, 0), "0");
    assert_eq!(c.add(-3, 1), "-2");
    assert_eq!(c.add(-3, -4), "-7");
    assert_eq!(c.add(120, 3), "123");
    assert_eq!(c.add(i64::MAX, 0), "9223372036854775807");
    assert_eq!(c.add(i64::MIN, 0), "-9223372036854775808");
}

#[test]
fn decimal_rendering_exact_values() {
    assert_eq!(u64_dec_string(0), "0");
    assert_eq!(u64_dec_string(10), "10");
    assert_eq!(u64_dec_string(90210), "90210");
    assert_eq!(i64_dec_string(0), "0");
    assert_eq!(i64_dec_string(-1), "-1");
    assert_eq!(i64_dec_string(-10), "-10");
    assert_eq!(i64_dec_string(1000000), "1000000");
    assert_eq!(i64_dec_string(i64::MIN), "-9223372036854775808");
    assert_eq!(i64_dec_string(i64::MAX), "9223372036854775807");
}

#[test]
fn listing_has_exactly_one_add_descriptor() {
    let c = Calculator::new();
    let tools = c.list_tools();
    assert_eq!(tools.len(), 1);
    let t = &tools[0];
    assert_eq!(t.name, "add");
    assert_eq!(t.description, "Add two numbers");
    assert_eq!(t.input_schema.required, vec!["a".to_string(), "b".to_string()]);
    assert_eq!(t.input_schema.properties.len(), 2);
    assert_eq!(t.input_schema.properties[0].name, "a");
    assert_eq!(t.input_schema.properties[0].kind_name, "number");
    assert_eq!(t.input_schema.properties[1].name, "b");
    assert_eq!(t.input_schema.properties[1].kind_name, "number");
}

#[test]
fn handshake_info_advertises_tools() {
    let c = Calculator::new();
    let info = c.get_info();
    assert!(info.tools_enabled);
    assert_eq!(info.instructions, Some("A simple calculator tool".to_string()));
}

#[test]
fn invocation_computes_sum() {
    let c = Calculator::new();
    let r = c.handle_call(&"add".to_string(), &num_args(3, 2));
    assert_eq!(r, Ok("5".to_string()));
    let r = c.handle_call(&"add".to_string(), &num_args(-40, 18));
    assert_eq!(r, Ok("-22".to_string()));
}

#[test]
fn invocation_with_missing_field_fails_validation() {
    let c = Calculator::new();
    let args = vec![("a".to_string(), ArgValue::Num(3))];
    let r = c.handle_call(&"add".to_string(), &args);
    assert_eq!(r, Err(CallError::InvalidArguments));
    let r = c.handle_call(&"add".to_string(), &Vec::new());
    assert_eq!(r, Err(CallError::InvalidArguments));
}

#[test]
fn invocation_with_non_numeric_field_fails_validation() {
    let c = Calculator::new();
    let args = vec![
        ("a".to_string(), ArgValue::Text("3".to_string())),
        ("b".to_string(), ArgValue::Num(2)),
    ];
    let r = c.handle_call(&"add".to_string(), &args);
    assert_eq!(r, Err(CallError::InvalidArguments));
    let args = vec![
        ("a".to_string(), ArgValue::Num(3)),
        ("b".to_string(), ArgValue::Null),
    ];
    let r = c.handle_call(&"add".to_string(), &args);
    assert_eq!(r, Err(CallError::InvalidArguments));
    let args = vec![
        ("a".to_string(), ArgValue::Flag(true)),
        ("b".to_string(), ArgValue::Num(2)),
    ];
    let r = c.handle_call(&"add".to_string(), &args);
    assert_eq!(r, Err(CallError::InvalidArguments));
}

#[test]
fn invocation_of_unknown_tool_fails() {
    let c = Calculator::new();
    let r = c.handle_call(&"mul".to_string(), &num_args(3, 2));
    assert_eq!(r, Err(CallError::UnknownTool));
}

#[test]
fn invocation_outside_numeric_range_fails() {
    let c = Calculator::new();
    let r = c.handle_call(&"add".to_string(), &num_args(i64::MAX, 1));
    assert_eq!(r, Err(CallError::OutOfRange));
    let r = c.handle_call(&"add".to_string(), &num_args(i64::MIN, -1));
    assert_eq!(r, Err(CallError::OutOfRange));
}

#[test]
fn validation_accepts_exact_schema_arguments() {
    let c = Calculator::new();
    let schema = &c.list_tools()[0].input_schema;
    assert!(validate_args(schema, &num_args(3, 2)));
    assert!(!validate_args(schema, &vec![("a".to_string(), ArgValue::Num(3))]));
    let extra = vec![
        ("a".to_string(), ArgValue::Num(3)),
        ("b".to_string(), ArgValue::Num(2)),
        ("c".to_string(), ArgValue::Text("ignored".to_string())),
    ];
    assert!(validate_args(schema, &extra));
}

#[test]
fn repeated_invocation_yields_same_result() {
    let c = Calculator::new();
    let args = num_args(3, 2);
    let first = c.handle_call(&"add".to_string(), &args);
    let second = c.handle_call(&"add".to_string(), &args);
    assert_eq!(first, second);
    assert_eq!(first, Ok("5".to_string()));
}

#[test]
fn full_session_lists_add_and_computes_five() {
    let provider = Calculator::new();
    let mut session = Session::new();
    assert_eq!(session.state, SessionState::Unstarted);

    assert_eq!(session.step(SessionEvent::Open), SessionState::Initializing);
    let info = provider.get_info();
    assert!(info.tools_enabled);
    assert_eq!(session.step(SessionEvent::HandshakeOk), SessionState::Ready);

    assert_eq!(session.step(SessionEvent::ListRequested), SessionState::ListingTools);
    let tools = provider.list_tools();
    assert!(tools.iter().any(|t| t.name == "add"));
    assert_eq!(session.step(SessionEvent::ListCompleted), SessionState::Ready);

    assert_eq!(session.step(SessionEvent::CallRequested), SessionState::Invoking);
    let result = provider.handle_call(&"add".to_string(), &num_args(3, 2));
    assert_eq!(result, Ok("5".to_string()));
    assert_eq!(session.step(SessionEvent::CallCompleted), SessionState::Ready);

    assert_eq!(session.step(SessionEvent::CloseRequested), SessionState::Closed);
}

#[test]
fn closed_session_stays_closed() {
    let mut session = Session::new();
    session.step(SessionEvent::Open);
    session.step(SessionEvent::HandshakeOk);
    session.step(SessionEvent::CloseRequested);
    assert_eq!(session.state, SessionState::Closed);
    assert_eq!(session.step(SessionEvent::CallRequested), SessionState::Closed);
    assert_eq!(session.step(SessionEvent::Open), SessionState::Closed);
}

#[test]
fn out_of_order_event_fails_session() {
    let mut session = Session::new();
    assert_eq!(session.step(SessionEvent::CallRequested), SessionState::Failed);
    assert_eq!(session.step(SessionEvent::Open), SessionState::Failed);

    let mut session = Session::new();
    session.step(SessionEvent::Open);
    assert_eq!(session.step(SessionEvent::HandshakeFailed), SessionState::Failed);
}

#[test]
fn format_tools_keeps_each_descriptor() {
    let c = Calculator::new();
    let formatted = format_tools(c.list_tools());
    assert_eq!(formatted.len(), 1);
    let f = &formatted[0];
    assert_eq!(f.name, "add");
    assert_eq!(f.description, "Add two numbers");
    assert_eq!(f.parameters.required, vec!["a".to_string(), "b".to_string()]);
    assert_eq!(f.parameters.properties.len(), 2);
    assert_eq!(f.parameters.properties[0].name, "a");
    assert_eq!(f.parameters.properties[0].kind_name, "number");
    assert_eq!(f.parameters.properties[1].name, "b");
    assert_eq!(f.parameters.properties[1].kind_name, "number");
}

#[test]
fn format_tools_of_empty_listing_is_empty() {
    let tools: Vec<Tool> = Vec::new();
    let formatted = format_tools(&tools);
    assert!(formatted.is_empty());
}

#[test]
fn format_tools_keeps_order_of_several_descriptors() {
    let tools = vec![
        Tool {
            name: "add".to_string(),
            description: "Add two numbers".to_string(),
            input_schema: InputSchema {
                properties: vec![Property {
                    name: "a".to_string(),
                    kind_name: "number".to_string(),
                }],
                required: vec!["a".to_string()],
            },
        },
        Tool {
            name: "echo".to_string(),
            description: "Echo a string".to_string(),
            input_schema: InputSchema {
                properties: vec![Property {
                    name: "text".to_string(),
                    kind_name: "string".to_string(),
                }],
                required: vec!["text".to_string()],
            },
        },
    ];
    let formatted = format_tools(&tools);
    assert_eq!(formatted.len(), 2);
    assert_eq!(formatted[0].name, "add");
    assert_eq!(formatted[1].name, "echo");
    assert_eq!(formatted[1].parameters.properties[0].kind_name, "string");
}
