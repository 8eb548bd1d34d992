//! Tests for the MCP tool schema types

use claude_agent_sdk::mcp::{tool_schema, ToolParameter};

#[test]
fn test_tool_parameter_serialization() {
    let param = ToolParameter {
        param_type: "string".to_string(),
        description: Some("A test parameter".to_string()),
    };

    let json = param.to_json();
    assert_eq!(json["type"], "string");
    assert_eq!(json["description"], "A test parameter");
}

#[test]
fn test_tool_parameter_deserialization() {
    let json: serde_json::Value =
        serde_json::from_str(r#"{"type": "number", "description": "A number param"}"#).unwrap();

    let param: ToolParameter = ToolParameter::from_json(&json).unwrap();
    assert_eq!(param.param_type, "number");
    assert_eq!(param.description, Some("A number param".to_string()));
}

#[test]
fn tool_parameter_from_json_rejects_missing_type() {
    let json: serde_json::Value =
        serde_json::from_str(r#"{"description": "no type here"}"#).unwrap();
    assert!(ToolParameter::from_json(&json).is_none());
}

#[test]
fn tool_parameter_from_json_null_description() {
    let json: serde_json::Value =
        serde_json::from_str(r#"{"type": "string", "description": null}"#).unwrap();
    let param = ToolParameter::from_json(&json).unwrap();
    assert_eq!(param.param_type, "string");
    assert_eq!(param.description, None);
}

#[test]
fn tool_schema_shape() {
    let params = vec![
        (
            "name".to_string(),
            ToolParameter {
                param_type: "string".to_string(),
                description: Some("User name".to_string()),
            },
        ),
        (
            "age".to_string(),
            ToolParameter {
                param_type: "number".to_string(),
                description: Some("User age".to_string()),
            },
        ),
    ];

    let schema = tool_schema("greet", "Greet a user", &params);
    assert_eq!(schema["name"], "greet");
    assert_eq!(schema["description"], "Greet a user");
    assert_eq!(schema["inputSchema"]["type"], "object");
    assert_eq!(schema["inputSchema"]["properties"]["name"]["type"], "string");
    assert_eq!(schema["inputSchema"]["properties"]["age"]["description"], "User age");
    let required = schema["inputSchema"]["required"].as_array().unwrap();
    assert_eq!(required.len(), 2);
    assert_eq!(required[0], "name");
    assert_eq!(required[1], "age");
}
