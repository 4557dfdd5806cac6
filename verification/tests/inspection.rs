use cokernel::json::{JsonNumber, JsonValue};
use cokernel::session::inspection::{
    validate_variable_list_result, validate_variable_value_result, SessionInspectionError,
    MAX_INSPECTION_LIST_ITEMS, MAX_INSPECTION_METADATA_CHARS, MAX_INSPECTION_RESPONSE_BYTES,
};
use serde_json::{Number, Value};

fn to_serde(v: &JsonValue) -> Value {
    match v {
        JsonValue::Null => Value::Null,
        JsonValue::Bool(b) => Value::Bool(*b),
        JsonValue::Number(JsonNumber::PosInt(n)) => Value::Number(Number::from(*n)),
        JsonValue::Number(JsonNumber::NegInt(n)) => Value::Number(Number::from(*n)),
        JsonValue::Number(JsonNumber::Float(bits)) => {
            Number::from_f64(f64::from_bits(*bits)).map(Value::Number).unwrap_or(Value::Null)
        }
        JsonValue::String(s) => Value::String(s.clone()),
        JsonValue::Array(items) => Value::Array(items.iter().map(to_serde).collect()),
        JsonValue::Object(entries) => {
            let mut map = serde_json::Map::new();
            for (k, v) in entries {
                map.insert(k.clone(), to_serde(v));
            }
            Value::Object(map)
        }
    }
}

fn encoded_len(v: &JsonValue) -> usize {
    serde_json::to_vec(&to_serde(v)).unwrap().len()
}

fn list(v: JsonValue) -> Result<usize, SessionInspectionError> {
    let len = encoded_len(&v);
    validate_variable_list_result(&v, len).map(|vars| vars.len())
}

fn get(v: JsonValue, name: &str) -> Result<cokernel::session::inspection::SessionVariableValue, SessionInspectionError> {
    let len = encoded_len(&v);
    validate_variable_value_result(v, name, len)
}

fn s(v: &str) -> JsonValue {
    JsonValue::String(v.to_string())
}

fn n(v: u64) -> JsonValue {
    JsonValue::Number(JsonNumber::PosInt(v))
}

fn obj(entries: Vec<(&str, JsonValue)>) -> JsonValue {
    JsonValue::Object(entries.into_iter().map(|(k, v)| (k.to_string(), v)).collect())
}

fn summary(name: &str, module: &str, tname: &str, supported: bool) -> JsonValue {
    obj(vec![
        ("name", s(name)),
        ("type_module", s(module)),
        ("type_name", s(tname)),
        ("supported", JsonValue::Bool(supported)),
    ])
}

fn supported_value(name: &str, value: JsonValue) -> JsonValue {
    obj(vec![
        ("name", s(name)),
        ("type_module", s("builtins")),
        ("type_name", s("int")),
        ("supported", JsonValue::Bool(true)),
        ("value", value),
        ("reason", JsonValue::Null),
    ])
}

fn value_entry(
    module: &str,
    tname: &str,
    supported: bool,
    value: Option<JsonValue>,
    reason: JsonValue,
) -> JsonValue {
    let mut entries = vec![
        ("name", s("value")),
        ("type_module", s(module)),
        ("type_name", s(tname)),
        ("supported", JsonValue::Bool(supported)),
    ];
    if let Some(v) = value {
        entries.push(("value", v));
    }
    entries.push(("reason", reason));
    obj(entries)
}

#[test]
fn inspection_list_contract_accepts_unique_bounded_metadata() {
    let variables = list(obj(vec![(
        "variables",
        JsonValue::Array(vec![
            summary("x", "builtins", "int", true),
            summary("secret", "user", "Secret", false),
        ]),
    )]))
    .unwrap();
    assert_eq!(variables, 2);
}

#[test]
fn inspection_list_contract_rejects_duplicate_names() {
    let result = list(obj(vec![(
        "variables",
        JsonValue::Array(vec![summary("x", "builtins", "int", true), summary("x", "builtins", "str", true)]),
    )]));
    assert!(matches!(result, Err(SessionInspectionError::InvalidResponse(_))));
}

#[test]
fn inspection_list_contract_rejects_too_many_entries() {
    let variables = (0..=MAX_INSPECTION_LIST_ITEMS)
        .map(|index| summary(&format!("value_{index}"), "builtins", "int", true))
        .collect::<Vec<_>>();
    assert!(list(obj(vec![("variables", JsonValue::Array(variables))])).is_err());
}

#[test]
fn inspection_get_contract_distinguishes_supported_none_from_missing_value() {
    let none_value = get(supported_value("value", JsonValue::Null), "value").unwrap();
    assert!(none_value.supported);
    assert_eq!(none_value.value, None);
    assert_eq!(none_value.reason, None);

    let missing = get(value_entry("builtins", "NoneType", true, None, JsonValue::Null), "value");
    assert!(missing.is_err());
}

#[test]
fn inspection_get_contract_rejects_supported_reason_and_wrong_name() {
    let with_reason = get(value_entry("builtins", "int", true, Some(n(1)), s("unexpected")), "value");
    assert!(with_reason.is_err());

    assert!(get(supported_value("other", n(1)), "value").is_err());
}

#[test]
fn inspection_get_contract_rejects_malformed_unsupported_value() {
    let non_null = get(
        value_entry(
            "user",
            "Secret",
            false,
            Some(obj(vec![("leak", JsonValue::Bool(true))])),
            s("unsupported variable type: user.Secret"),
        ),
        "value",
    );
    assert!(non_null.is_err());

    let missing_reason = get(value_entry("user", "Secret", false, Some(JsonValue::Null), JsonValue::Null), "value");
    assert!(missing_reason.is_err());
}

#[test]
fn inspection_contract_rejects_empty_and_oversized_metadata() {
    let empty_name = list(obj(vec![("variables", JsonValue::Array(vec![summary("", "builtins", "int", true)]))]));
    assert!(empty_name.is_err());

    let huge = "x".repeat(MAX_INSPECTION_METADATA_CHARS + 1);
    assert!(get(value_entry(&huge, "Secret", false, Some(JsonValue::Null), s("unsupported")), "value").is_err());
}

#[test]
fn inspection_contract_rejects_oversized_serialized_result() {
    let huge = "x".repeat(MAX_INSPECTION_RESPONSE_BYTES);
    assert!(get(
        value_entry("builtins", "str", true, Some(s(&huge)), JsonValue::Null),
        "value"
    )
    .is_err());
}

#[test]
fn accepted_value_is_handed_on_unchanged() {
    let accepted = get(supported_value("value", n(42)), "value").unwrap();
    assert_eq!(accepted.name, "value");
    assert_eq!(accepted.type_module, "builtins");
    assert_eq!(accepted.typename, "int");
    assert_eq!(accepted.value, Some(n(42)));
    let unsupported = get(
        value_entry("user", "Secret", false, Some(JsonValue::Null), s("unsupported variable type: user.Secret")),
        "value",
    )
    .unwrap();
    assert!(!unsupported.supported);
    assert_eq!(unsupported.reason.as_deref(), Some("unsupported variable type: user.Secret"));
}
