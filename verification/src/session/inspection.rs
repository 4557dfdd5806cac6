//! The safe-inspection contract: what a worker may answer to `inspect_variables`
//! and `get_variable`, and what the Session hands on.
//!
//! A result is decoded as the typed Rust structures of the contract are
//! decoded from JSON: a structure from an object (by member name, other
//! members ignored) or from an array holding its fields in order; an optional
//! field reads `null` or a missing member as absent.
use vstd::prelude::*;

use crate::json::{entries_lookup, lemma_lookup_step, JsonValue};
use crate::text::{concat3, str_eq, string_of};

verus! {

pub const MAX_INSPECTION_LIST_ITEMS: usize = 512;
pub const MAX_INSPECTION_RESPONSE_BYTES: usize = 1048576;
pub const MAX_INSPECTION_METADATA_CHARS: usize = 65536;

/// Why an inspection request gave no answer.
#[derive(Debug)]
pub enum SessionInspectionError {
    CommandChannelClosed,
    Unavailable(String),
    WorkerRequest { code: String, summary: String },
    InvalidResponse(String),
}

/// One variable of a Session namespace, without its value.
#[derive(Debug)]
pub struct SessionVariableSummary {
    pub name: String,
    pub type_module: String,
    pub typename: String,
    pub supported: bool,
}

/// One variable of a Session namespace with its value, when its type is supported.
#[derive(Debug)]
pub struct SessionVariableValue {
    pub name: String,
    pub type_module: String,
    pub typename: String,
    pub supported: bool,
    pub value: Option<JsonValue>,
    pub reason: Option<String>,
}

pub struct SummaryView {
    pub name: Seq<char>,
    pub type_module: Seq<char>,
    pub typename: Seq<char>,
    pub supported: bool,
}

pub struct ValueView {
    pub name: Seq<char>,
    pub type_module: Seq<char>,
    pub typename: Seq<char>,
    pub supported: bool,
    pub value: Option<JsonValue>,
    pub reason: Option<Seq<char>>,
}

impl View for SessionVariableSummary {
    type V = SummaryView;

    open spec fn view(&self) -> SummaryView {
        SummaryView {
            name: self.name@,
            type_module: self.type_module@,
            typename: self.typename@,
            supported: self.supported,
        }
    }
}

impl View for SessionVariableValue {
    type V = ValueView;

    open spec fn view(&self) -> ValueView {
        ValueView {
            name: self.name@,
            type_module: self.type_module@,
            typename: self.typename@,
            supported: self.supported,
            value: self.value,
            reason: match self.reason {
                Some(r) => Some(r@),
                None => None,
            },
        }
    }
}

/// The summary that a JSON value decodes to, if any.
pub open spec fn decode_summary(v: JsonValue) -> Option<SummaryView> {
    match v {
        JsonValue::Object(_) => match (
            v.field_str("name"@),
            v.field_str("type_module"@),
            v.field_str("type_name"@),
            v.field_bool("supported"@),
        ) {
            (Some(name), Some(type_module), Some(typename), Some(supported)) => Some(
                SummaryView { name, type_module, typename, supported },
            ),
            _ => None,
        },
        JsonValue::Array(items) => if items@.len() == 4 {
            match (
                items@[0].spec_as_str(),
                items@[1].spec_as_str(),
                items@[2].spec_as_str(),
                items@[3].spec_as_bool(),
            ) {
                (Some(name), Some(type_module), Some(typename), Some(supported)) => Some(
                    SummaryView { name, type_module, typename, supported },
                ),
                _ => None,
            }
        } else {
            None
        },
        _ => None,
    }
}

/// The `variables` list of a list result, if the result has that shape.
pub open spec fn list_items(result: JsonValue) -> Option<Seq<JsonValue>> {
    match result {
        JsonValue::Object(_) => result.field_array("variables"@),
        JsonValue::Array(items) => if items@.len() == 1 {
            items@[0].spec_as_array()
        } else {
            None
        },
        _ => None,
    }
}

/// Inspection metadata is non-empty and at most 65536 characters long.
pub open spec fn metadata_ok(value: Seq<char>) -> bool {
    0 < value.len() <= MAX_INSPECTION_METADATA_CHARS
}

/// The variables of a list result that the Session accepts: a result of at most
/// 1 MiB (encoded) whose `variables` all decode, at most 512 of them, each with
/// well-formed metadata, no name twice. `None` when the result is refused.
pub open spec fn list_outcome(result: JsonValue, encoded_len: nat) -> Option<Seq<SummaryView>> {
    if encoded_len > MAX_INSPECTION_RESPONSE_BYTES {
        None
    } else {
        match list_items(result) {
            None => None,
            Some(items) => if exists|i: int|
                0 <= i < items.len() && (#[trigger] decode_summary(items[i])) is None {
                None
            } else {
                let vars = Seq::new(items.len(), |i: int| decode_summary(items[i])->0);
                if vars.len() > MAX_INSPECTION_LIST_ITEMS {
                    None
                } else if (forall|i: int|
                    0 <= i < vars.len() ==> metadata_ok((#[trigger] vars[i]).name) && metadata_ok(
                        vars[i].type_module,
                    ) && metadata_ok(vars[i].typename)) && (forall|i: int, j: int|
                    0 <= i < j < vars.len() ==> (#[trigger] vars[i]).name != (
                    #[trigger] vars[j]).name) {
                    Some(vars)
                } else {
                    None
                }
            },
        }
    }
}

/// An invalid-response error with the given message.
pub fn invalid_inspection_response(message: &str) -> (e: SessionInspectionError)
    ensures
        e matches SessionInspectionError::InvalidResponse(m) && m@ == message@,
{
    SessionInspectionError::InvalidResponse(string_of(message))
}

/// Checks one metadata field (`label` and `field` name it in the message).
pub fn validate_inspection_metadata(label: &str, field: &str, value: &str) -> (r: Result<
    (),
    SessionInspectionError,
>)
    ensures
        r is Ok <==> metadata_ok(value@),
        r matches Err(e) ==> e is InvalidResponse,
{
    let n = value.unicode_len();
    if n == 0 {
        return Err(
            SessionInspectionError::InvalidResponse(
                concat3(label, " field must be non-empty: ", field),
            ),
        );
    }
    if n > MAX_INSPECTION_METADATA_CHARS {
        return Err(
            SessionInspectionError::InvalidResponse(
                concat3(label, " field exceeds maximum length: ", field),
            ),
        );
    }
    Ok(())
}

fn decode_summary_exec(v: &JsonValue) -> (r: Option<SessionVariableSummary>)
    ensures
        match decode_summary(*v) {
            None => r is None,
            Some(s) => r matches Some(x) && x@ == s,
        },
{
    match v {
        JsonValue::Object(_) => {
            let name = match v.get_str("name") {
                Some(s) => s,
                None => {
                    return None;
                },
            };
            let type_module = match v.get_str("type_module") {
                Some(s) => s,
                None => {
                    return None;
                },
            };
            let typename = match v.get_str("type_name") {
                Some(s) => s,
                None => {
                    return None;
                },
            };
            let supported = match v.get_bool("supported") {
                Some(b) => b,
                None => {
                    return None;
                },
            };
            Some(
                SessionVariableSummary {
                    name: string_of(name),
                    type_module: string_of(type_module),
                    typename: string_of(typename),
                    supported,
                },
            )
        },
        JsonValue::Array(items) => {
            if items.len() != 4 {
                return None;
            }
            let name = match items[0].as_str() {
                Some(s) => s,
                None => {
                    return None;
                },
            };
            let type_module = match items[1].as_str() {
                Some(s) => s,
                None => {
                    return None;
                },
            };
            let typename = match items[2].as_str() {
                Some(s) => s,
                None => {
                    return None;
                },
            };
            let supported = match items[3].as_bool() {
                Some(b) => b,
                None => {
                    return None;
                },
            };
            Some(
                SessionVariableSummary {
                    name: string_of(name),
                    type_module: string_of(type_module),
                    typename: string_of(typename),
                    supported,
                },
            )
        },
        _ => None,
    }
}

fn list_items_exec(result: &JsonValue) -> (r: Option<&Vec<JsonValue>>)
    ensures
        r is Some <==> list_items(*result) is Some,
        r matches Some(items) ==> list_items(*result) == Some(items@),
{
    match result {
        JsonValue::Object(_) => result.get_array("variables"),
        JsonValue::Array(items) => {
            if items.len() == 1 {
                items[0].as_array()
            } else {
                None
            }
        },
        _ => None,
    }
}

/// Checks a worker's answer to `inspect_variables` (`encoded_len` is the length
/// of its JSON encoding) and hands on the variables, as `list_outcome` states.
pub fn validate_variable_list_result(result: &JsonValue, encoded_len: usize) -> (r: Result<
    Vec<SessionVariableSummary>,
    SessionInspectionError,
>)
    ensures
        match list_outcome(*result, encoded_len as nat) {
            Some(vars) => r matches Ok(v) && v@.len() == vars.len() && forall|i: int|
                0 <= i < vars.len() ==> (#[trigger] v@[i])@ == vars[i],
            None => r matches Err(e) && e is InvalidResponse,
        },
{
    if encoded_len > MAX_INSPECTION_RESPONSE_BYTES {
        return Err(
            invalid_inspection_response(
                "list_variables result exceeds maximum serialized response size",
            ),
        );
    }
    let items = match list_items_exec(result) {
        Some(items) => items,
        None => {
            return Err(
                invalid_inspection_response("list_variables result does not have a variables list"),
            );
        },
    };
    let ghost vars = Seq::new(items@.len(), |i: int| decode_summary(items@[i])->0);
    let mut out: Vec<SessionVariableSummary> = Vec::new();
    let mut i: usize = 0;
    while i < items.len()
        invariant
            0 <= i <= items.len(),
            encoded_len <= MAX_INSPECTION_RESPONSE_BYTES,
            list_items(*result) == Some(items@),
            out@.len() == i,
            vars == Seq::new(items@.len(), |i: int| decode_summary(items@[i])->0),
            forall|k: int| 0 <= k < i ==> (#[trigger] decode_summary(items@[k])) is Some,
            forall|k: int| 0 <= k < i ==> (#[trigger] out@[k])@ == vars[k],
        decreases items.len() - i,
    {
        match decode_summary_exec(&items[i]) {
            Some(s) => {
                out.push(s);
            },
            None => {
                assert(decode_summary(items@[i as int]) is None);
                return Err(
                    invalid_inspection_response("list_variables result has a malformed variable"),
                );
            },
        }
        i += 1;
    }
    assert(!exists|k: int| 0 <= k < items@.len() && (#[trigger] decode_summary(items@[k])) is None);
    assert(list_outcome(*result, encoded_len as nat) == if vars.len() > MAX_INSPECTION_LIST_ITEMS {
        None
    } else if (forall|i: int|
        0 <= i < vars.len() ==> metadata_ok((#[trigger] vars[i]).name) && metadata_ok(
            vars[i].type_module,
        ) && metadata_ok(vars[i].typename)) && (forall|i: int, j: int|
        0 <= i < j < vars.len() ==> (#[trigger] vars[i]).name != (#[trigger] vars[j]).name) {
        Some(vars)
    } else {
        None
    });
    if out.len() > MAX_INSPECTION_LIST_ITEMS {
        return Err(
            invalid_inspection_response("list_variables result exceeds maximum item count"),
        );
    }
    let mut j: usize = 0;
    while j < out.len()
        invariant
            0 <= j <= out.len(),
            out@.len() == vars.len(),
            vars.len() <= MAX_INSPECTION_LIST_ITEMS,
            list_outcome(*result, encoded_len as nat) == if (forall|i: int|
                0 <= i < vars.len() ==> metadata_ok((#[trigger] vars[i]).name) && metadata_ok(
                    vars[i].type_module,
                ) && metadata_ok(vars[i].typename)) && (forall|i: int, j: int|
                0 <= i < j < vars.len() ==> (#[trigger] vars[i]).name != (
                #[trigger] vars[j]).name) {
                Some(vars)
            } else {
                None
            },
            forall|k: int| 0 <= k < out@.len() ==> (#[trigger] out@[k])@ == vars[k],
            forall|k: int|
                0 <= k < j ==> metadata_ok((#[trigger] vars[k]).name) && metadata_ok(
                    vars[k].type_module,
                ) && metadata_ok(vars[k].typename),
            forall|a: int, b: int|
                0 <= a < b < j ==> (#[trigger] vars[a]).name != (#[trigger] vars[b]).name,
        decreases out.len() - j,
    {
        assert(out@[j as int]@ == vars[j as int]);
        validate_inspection_metadata("list_variables result", "name", out[j].name.as_str())?;
        validate_inspection_metadata(
            "list_variables result",
            "type_module",
            out[j].type_module.as_str(),
        )?;
        validate_inspection_metadata(
            "list_variables result",
            "type_name",
            out[j].typename.as_str(),
        )?;
        let mut k: usize = 0;
        while k < j
            invariant
                0 <= k <= j < out.len(),
                out@.len() == vars.len(),
                forall|m: int| 0 <= m < out@.len() ==> (#[trigger] out@[m])@ == vars[m],
                forall|m: int| 0 <= m < k ==> (#[trigger] vars[m]).name != vars[j as int].name,
                list_outcome(*result, encoded_len as nat) == if (forall|i: int|
                    0 <= i < vars.len() ==> metadata_ok((#[trigger] vars[i]).name) && metadata_ok(
                        vars[i].type_module,
                    ) && metadata_ok(vars[i].typename)) && (forall|i: int, j: int|
                    0 <= i < j < vars.len() ==> (#[trigger] vars[i]).name != (
                    #[trigger] vars[j]).name) {
                    Some(vars)
                } else {
                    None
                },
            decreases j - k,
        {
            if str_eq(out[k].name.as_str(), out[j].name.as_str()) {
                assert(out@[k as int]@ == vars[k as int]);
                assert(vars[k as int].name == vars[j as int].name);
                return Err(
                    invalid_inspection_response("list_variables returned a duplicate variable"),
                );
            }
            assert(out@[k as int]@ == vars[k as int]);
            k += 1;
        }
        j += 1;
    }
    Ok(out)
}

/// The variable value that the Session accepts as the answer to
/// `get_variable(requested)`: a result of at most 1 MiB (encoded) that is an
/// object with all six members, decodes, names the requested variable, has
/// well-formed metadata; a supported value carries no reason, an unsupported
/// one carries a `null` value and a non-empty reason of at most 65536
/// characters. `None` when the result is refused.
pub open spec fn value_outcome(result: JsonValue, requested: Seq<char>, encoded_len: nat) -> Option<
    ValueView,
> {
    if encoded_len > MAX_INSPECTION_RESPONSE_BYTES {
        None
    } else if !(result is Object) {
        None
    } else if result.field("name"@) is None || result.field("type_module"@) is None || result.field(
        "type_name"@,
    ) is None || result.field("supported"@) is None || result.field("value"@) is None
        || result.field("reason"@) is None {
        None
    } else {
        match decode_value(result) {
            None => None,
            Some(v) => if v.name != requested {
                None
            } else if !(metadata_ok(v.name) && metadata_ok(v.type_module) && metadata_ok(v.typename)) {
                None
            } else if v.supported {
                if v.reason is Some {
                    None
                } else {
                    Some(v)
                }
            } else if v.value is Some {
                None
            } else {
                match v.reason {
                    Some(reason) => if 0 < reason.len() <= MAX_INSPECTION_METADATA_CHARS {
                        Some(v)
                    } else {
                        None
                    },
                    None => None,
                }
            },
        }
    }
}

/// The typed reading of a `get_variable` object: `value` absent or `null` is no
/// value; `reason` absent or `null` is no reason, otherwise it must be a string.
pub open spec fn decode_value(result: JsonValue) -> Option<ValueView> {
    match (
        result.field_str("name"@),
        result.field_str("type_module"@),
        result.field_str("type_name"@),
        result.field_bool("supported"@),
    ) {
        (Some(name), Some(module), Some(tname), Some(supported)) => {
            let value = match result.field("value"@) {
                Some(JsonValue::Null) => None,
                Some(v) => Some(v),
                None => None,
            };
            match result.field("reason"@) {
                None => Some(ValueView {
                        name,
                        type_module: module,
                        typename: tname,
                        supported,
                        value,
                        reason: None,
                    }),
                Some(JsonValue::Null) => Some(
                    ValueView {
                        name,
                        type_module: module,
                        typename: tname,
                        supported,
                        value,
                        reason: None,
                    },
                ),
                Some(JsonValue::String(s)) => Some(
                    ValueView {
                        name,
                        type_module: module,
                        typename: tname,
                        supported,
                        value,
                        reason: Some(s@),
                    },
                ),
                _ => None,
            }
        },
        _ => None,
    }
}

/// Takes the value of the first entry with key `key` out of `entries`.
fn take_entry(source: Vec<(String, JsonValue)>, key: &str) -> (r: Option<JsonValue>)
    ensures
        r == entries_lookup(source@, key@),
{
    let ghost original = source@;
    let mut entries = source;
    let mut i: usize = 0;
    assert(original.skip(0) =~= original);
    while i < entries.len()
        invariant
            entries@ == original,
            source@ == original,
            0 <= i <= entries.len(),
            entries_lookup(original, key@) == entries_lookup(original.skip(i as int), key@),
        decreases entries.len() - i,
    {
        proof {
            lemma_lookup_step(original, i as int, key@);
        }
        if str_eq(entries[i].0.as_str(), key) {
            let ghost expected = original[i as int].1;
            let entry = entries.remove(i);
            let (_, value) = entry;
            return Some(value);
        }
        i += 1;
    }
    assert(original.skip(i as int).len() == 0);
    None
}

/// Checks a worker's answer to `get_variable` for `requested_name`
/// (`encoded_len` is the length of its JSON encoding) and hands on the
/// variable, as `value_outcome` states.
pub fn validate_variable_value_result(
    result: JsonValue,
    requested_name: &str,
    encoded_len: usize,
) -> (r: Result<SessionVariableValue, SessionInspectionError>)
    ensures
        match value_outcome(result, requested_name@, encoded_len as nat) {
            Some(v) => r matches Ok(x) && x@ == v,
            None => r matches Err(e) && e is InvalidResponse,
        },
{
    if encoded_len > MAX_INSPECTION_RESPONSE_BYTES {
        return Err(
            invalid_inspection_response("get_variable result exceeds maximum serialized response size"),
        );
    }
    if !result.is_object() {
        return Err(invalid_inspection_response("get_variable result must be an object"));
    }
    if result.get("name").is_none() || result.get("type_module").is_none() || result.get(
        "type_name",
    ).is_none() || result.get("supported").is_none() || result.get("value").is_none()
        || result.get("reason").is_none() {
        return Err(invalid_inspection_response("get_variable result omitted a field"));
    }
    let name = match result.get_str("name") {
        Some(s) => string_of(s),
        None => {
            return Err(invalid_inspection_response("get_variable result field name is invalid"));
        },
    };
    let type_module = match result.get_str("type_module") {
        Some(s) => string_of(s),
        None => {
            return Err(
                invalid_inspection_response("get_variable result field type_module is invalid"),
            );
        },
    };
    let typename = match result.get_str("type_name") {
        Some(s) => string_of(s),
        None => {
            return Err(
                invalid_inspection_response("get_variable result field typename is invalid"),
            );
        },
    };
    let supported = match result.get_bool("supported") {
        Some(b) => b,
        None => {
            return Err(
                invalid_inspection_response("get_variable result field supported is invalid"),
            );
        },
    };
    let reason: Option<String> = match result.get("reason") {
        Some(JsonValue::Null) => None,
        Some(JsonValue::String(s)) => Some(s.clone()),
        _ => {
            return Err(invalid_inspection_response("get_variable result field reason is invalid"));
        },
    };
    let value_is_null = match result.get("value") {
        Some(v) => v.is_null(),
        None => true,
    };
    if !str_eq(name.as_str(), requested_name) {
        return Err(
            invalid_inspection_response(
                "worker returned a different variable than the one requested",
            ),
        );
    }
    validate_inspection_metadata("get_variable result", "name", name.as_str())?;
    validate_inspection_metadata("get_variable result", "type_module", type_module.as_str())?;
    validate_inspection_metadata("get_variable result", "type_name", typename.as_str())?;
    if supported {
        if reason.is_some() {
            return Err(
                invalid_inspection_response(
                    "supported get_variable result must not include a reason",
                ),
            );
        }
    } else {
        if !value_is_null {
            return Err(
                invalid_inspection_response("unsupported get_variable result must carry null value"),
            );
        }
        match &reason {
            Some(text) => {
                let n = text.as_str().unicode_len();
                if n == 0 {
                    return Err(
                        invalid_inspection_response(
                            "unsupported get_variable result requires a non-empty reason",
                        ),
                    );
                }
                if n > MAX_INSPECTION_METADATA_CHARS {
                    return Err(
                        invalid_inspection_response(
                            "get_variable result reason exceeds maximum length",
                        ),
                    );
                }
            },
            None => {
                return Err(
                    invalid_inspection_response(
                        "unsupported get_variable result requires a non-empty reason",
                    ),
                );
            },
        }
    }
    let value = match result {
        JsonValue::Object(entries) => match take_entry(entries, "value") {
            Some(JsonValue::Null) => None,
            Some(v) => Some(v),
            None => None,
        },
        _ => None,
    };
    Ok(SessionVariableValue { name, type_module, typename, supported, value, reason })
}

/// The message of an inspection error.
pub open spec fn inspection_error_text(e: SessionInspectionError) -> Seq<char> {
    match e {
        SessionInspectionError::CommandChannelClosed => "session inspection channel is closed"@,
        SessionInspectionError::Unavailable(m) => "worker inspection is unavailable: "@ + m@,
        SessionInspectionError::WorkerRequest { code, summary } => "worker rejected inspection request ("@
            + code@ + "): "@ + summary@,
        SessionInspectionError::InvalidResponse(m) => "worker inspection response is invalid: "@ + m@,
    }
}

impl SessionInspectionError {
    /// The message of the error.
    pub fn describe(&self) -> (r: String)
        ensures
            r@ == inspection_error_text(*self),
    {
        match self {
            SessionInspectionError::CommandChannelClosed => crate::text::string_of(
                "session inspection channel is closed",
            ),
            SessionInspectionError::Unavailable(m) => crate::text::concat2(
                "worker inspection is unavailable: ",
                m.as_str(),
            ),
            SessionInspectionError::WorkerRequest { code, summary } => {
                let head = crate::text::concat3("worker rejected inspection request (", code.as_str(), "): ");
                crate::text::concat2(head.as_str(), summary.as_str())
            },
            SessionInspectionError::InvalidResponse(m) => crate::text::concat2(
                "worker inspection response is invalid: ",
                m.as_str(),
            ),
        }
    }
}

/// Each accepted variable summary is read off its list entry by member name:
/// an object entry gives its `name`, `type_module`, `type_name` and
/// `supported` members, in that order of the summary's fields; an array entry
/// of four gives them by position in the same order.
pub proof fn lemma_list_summaries_follow_members(result: JsonValue, encoded_len: nat, i: int)
    requires
        list_outcome(result, encoded_len) is Some,
        list_items(result) matches Some(items) && 0 <= i < items.len(),
    ensures
        ({
            let vars = list_outcome(result, encoded_len)->0;
            let item = list_items(result)->0[i];
            &&& vars.len() == list_items(result)->0.len()
            &&& item is Object ==> {
                &&& item.field_str("name"@) == Some(vars[i].name)
                &&& item.field_str("type_module"@) == Some(vars[i].type_module)
                &&& item.field_str("type_name"@) == Some(vars[i].typename)
                &&& item.field_bool("supported"@) == Some(vars[i].supported)
            }
            &&& item matches JsonValue::Array(a) ==> {
                &&& a@.len() == 4
                &&& a@[0].spec_as_str() == Some(vars[i].name)
                &&& a@[1].spec_as_str() == Some(vars[i].type_module)
                &&& a@[2].spec_as_str() == Some(vars[i].typename)
                &&& a@[3].spec_as_bool() == Some(vars[i].supported)
            }
        }),
{
    let items = list_items(result)->0;
    assert(decode_summary(items[i]) is Some);
}

/// An accepted variable value names the requested variable and is read off the
/// result's members by name: `name`, `type_module`, `type_name` and
/// `supported`.
pub proof fn lemma_value_follows_members(result: JsonValue, requested: Seq<char>, encoded_len: nat)
    requires
        value_outcome(result, requested, encoded_len) is Some,
    ensures
        ({
            let v = value_outcome(result, requested, encoded_len)->0;
            &&& result is Object
            &&& v.name == requested
            &&& result.field_str("name"@) == Some(requested)
            &&& result.field_str("type_module"@) == Some(v.type_module)
            &&& result.field_str("type_name"@) == Some(v.typename)
            &&& result.field_bool("supported"@) == Some(v.supported)
        }),
{
}

} // verus!
