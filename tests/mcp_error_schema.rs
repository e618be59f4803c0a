use jsonschema::validator_for;
use serde_json::Value;

use mcp_context_server::error::{McpErrorCode, McpErrorResponse};

#[test]
fn golden_mcp_error_schema_validation() {
    // A canonical error response, rendered and pretty-printed.
    let response = McpErrorResponse::new(McpErrorCode::CacheInvalid, "Cache exists but is invalid");

    let compact = response.to_json();
    let json_value: Value = serde_json::from_str(&compact).unwrap();
    let json_str = serde_json::to_string_pretty(&json_value).unwrap();

    let schema_str = r#"{
  "$schema": "https://json-schema.org/draft/2020-12/schema",
  "$id": "https://context.dev/schemas/mcp/error-v0.json",
  "title": "MCP Error Response v0",
  "type": "object",
  "required": ["error"],
  "additionalProperties": false,
  "properties": {
    "error": {
      "type": "object",
      "required": ["code", "message"],
      "additionalProperties": false,
      "properties": {
        "code": {
          "type": "string",
          "enum": [
            "cache_missing",
            "cache_invalid",
            "invalid_query",
            "invalid_budget",
            "io_error",
            "internal_error"
          ]
        },
        "message": {
          "type": "string",
          "minLength": 1
        }
      }
    }
  }
}"#;

    let schema_json: Value = serde_json::from_str(schema_str).unwrap();
    let validator = validator_for(&schema_json).unwrap();

    assert!(validator.is_valid(&json_value), "MCP error JSON must satisfy v0 schema");

    let expected = r#"{
  "error": {
    "code": "cache_invalid",
    "message": "Cache exists but is invalid"
  }
}"#;

    assert_eq!(json_str.trim(), expected.trim(), "MCP error JSON snapshot mismatch");
    assert_eq!(
        compact,
        r#"{"error":{"code":"cache_invalid","message":"Cache exists but is invalid"}}"#
    );
}
