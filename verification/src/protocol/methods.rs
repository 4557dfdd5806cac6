//! Runtime method names and their parameter and result shapes.
use vstd::prelude::*;

use crate::domain::{uuid_parse, NotebookId, ProjectId, SessionId};
use crate::json::{JsonNumber, JsonValue};
use crate::text::{concat3, string_of};

pub mod name;

verus! {

#[derive(Debug, Clone, PartialEq, Eq)]
pub struct BridgeHelloParams {
    pub host_product_version: String,
    pub supported_protocols: Vec<u32>,
}

#[derive(Debug, Clone, PartialEq, Eq)]
pub struct BridgeHelloResult {
    pub selected_protocol: u32,
    pub runtime_product_version: String,
    pub capabilities: Vec<String>,
}

#[derive(Debug, Clone, PartialEq, Eq)]
pub struct CreateProjectParams {
    pub name: String,
}

#[derive(Debug, Clone, PartialEq, Eq)]
pub struct RegisterProjectParams {
    pub path: String,
}

#[derive(Debug, Clone, PartialEq, Eq)]
pub struct ProjectIdParams {
    pub project_id: ProjectId,
}

#[derive(Debug, Clone, PartialEq, Eq)]
pub struct PackageMutationParams {
    pub project_id: ProjectId,
    pub packages: Vec<String>,
}

#[derive(Debug, Clone, PartialEq, Eq)]
pub struct EnsurePrimarySessionParams {
    pub project_id: ProjectId,
    pub notebook_id: NotebookId,
}

#[derive(Debug, Clone, PartialEq, Eq)]
pub struct GetVariableParams {
    pub session_id: SessionId,
    pub name: String,
}

/// The value of a struct's field as serde reads it from a JSON value: by name
/// from an object (other members ignored), by position from an array holding
/// exactly as many elements as the struct has fields.
pub open spec fn field_at(v: JsonValue, name: Seq<char>, index: int, count: nat) -> Option<JsonValue> {
    match v {
        JsonValue::Object(_) => v.field(name),
        JsonValue::Array(items) => if items@.len() == count {
            Some(items@[index])
        } else {
            None
        },
        _ => None,
    }
}

/// Whether a JSON value is an integer that fits in a `u32`.
pub open spec fn is_u32(j: JsonValue) -> bool {
    match j {
        JsonValue::Number(JsonNumber::PosInt(n)) => n <= u32::MAX,
        _ => false,
    }
}

/// The elements of a JSON array of integers that all fit in a `u32`.
pub open spec fn u32_list(v: JsonValue) -> Option<Seq<u32>> {
    match v {
        JsonValue::Array(items) => if forall|i: int| 0 <= i < items@.len() ==> is_u32(#[trigger] items@[i]) {
            Some(items@.map_values(|j: JsonValue| j->Number_0->PosInt_0 as u32))
        } else {
            None
        },
        _ => None,
    }
}

/// The elements of a JSON array of strings.
pub open spec fn str_list(v: JsonValue) -> Option<Seq<Seq<char>>> {
    match v {
        JsonValue::Array(items) => if forall|i: int| 0 <= i < items@.len() ==> (#[trigger] items@[i]) is String {
            Some(items@.map_values(|j: JsonValue| j->String_0@))
        } else {
            None
        },
        _ => None,
    }
}

/// A UUID read from its JSON string form.
pub open spec fn uuid_value(v: JsonValue) -> Option<u128> {
    match v {
        JsonValue::String(s) => uuid_parse(s@),
        _ => None,
    }
}

/// The field of `v`, as `field_at` reads it.
fn field_at_exec<'a>(v: &'a JsonValue, name: &str, index: usize, count: usize) -> (r: Option<&'a JsonValue>)
    requires
        index < count,
    ensures
        r is Some <==> field_at(*v, name@, index as int, count as nat) is Some,
        r matches Some(x) ==> field_at(*v, name@, index as int, count as nat) == Some(*x),
{
    match v {
        JsonValue::Object(_) => v.get(name),
        JsonValue::Array(items) => if items.len() == count {
            Some(&items[index])
        } else {
            None
        },
        _ => None,
    }
}

/// Why a struct could not be read: the missing member of an object, or else the struct's shape.
fn shape_error(v: &JsonValue, name: &str, struct_name: &str) -> (r: String)
    ensures
        r@ == (match *v {
            JsonValue::Object(_) => "missing or invalid field `"@ + name@ + "`"@,
            _ => "invalid type: expected struct "@ + struct_name@ + ""@,
        }),
{
    match v {
        JsonValue::Object(_) => concat3("missing or invalid field `", name, "`"),
        _ => concat3("invalid type: expected struct ", struct_name, ""),
    }
}

fn read_string(v: &JsonValue) -> (r: Option<String>)
    ensures
        match r {
            Some(s) => v.spec_as_str() == Some(s@),
            None => v.spec_as_str() is None,
        },
{
    match v {
        JsonValue::String(s) => Some(string_of(s.as_str())),
        _ => None,
    }
}

fn read_u32_list(v: &JsonValue) -> (r: Option<Vec<u32>>)
    ensures
        match r {
            Some(l) => u32_list(*v) == Some(l@),
            None => u32_list(*v) is None,
        },
{
    let items = match v {
        JsonValue::Array(items) => items,
        _ => {
            return None;
        },
    };
    let mut out: Vec<u32> = Vec::new();
    let mut i: usize = 0;
    while i < items.len()
        invariant
            i <= items.len(),
            out@.len() == i,
            v.spec_as_array() == Some(items@),
            forall|k: int| 0 <= k < i ==> is_u32(#[trigger] items@[k]) && out@[k] == items@[k]->Number_0->PosInt_0 as u32,
        decreases items.len() - i,
    {
        match &items[i] {
            JsonValue::Number(JsonNumber::PosInt(n)) => {
                if *n > 4294967295u64 {
                    assert(!is_u32(items@[i as int]));
                    return None;
                }
                out.push(*n as u32);
            },
            _ => {
                assert(!is_u32(items@[i as int]));
                return None;
            },
        }
        i += 1;
    }
    assert(out@ =~= items@.map_values(|j: JsonValue| j->Number_0->PosInt_0 as u32));
    Some(out)
}

fn read_str_list(v: &JsonValue) -> (r: Option<Vec<String>>)
    ensures
        match r {
            Some(l) => str_list(*v) == Some(l@.map_values(|s: String| s@)),
            None => str_list(*v) is None,
        },
{
    let items = match v {
        JsonValue::Array(items) => items,
        _ => {
            return None;
        },
    };
    let mut out: Vec<String> = Vec::new();
    let mut i: usize = 0;
    while i < items.len()
        invariant
            i <= items.len(),
            out@.len() == i,
            v.spec_as_array() == Some(items@),
            forall|k: int| 0 <= k < i ==> (#[trigger] items@[k]) is String && out@[k]@ == items@[k]->String_0@,
        decreases items.len() - i,
    {
        match &items[i] {
            JsonValue::String(s) => {
                out.push(string_of(s.as_str()));
            },
            _ => {
                assert(!(items@[i as int] is String));
                return None;
            },
        }
        i += 1;
    }
    assert(out@.map_values(|s: String| s@) =~= items@.map_values(|j: JsonValue| j->String_0@));
    Some(out)
}

fn read_uuid(v: &JsonValue) -> (r: Option<u128>)
    ensures
        r == uuid_value(*v),
{
    match v {
        JsonValue::String(s) => match ProjectId::parse(s.as_str()) {
            Some(id) => Some(id.0),
            None => None,
        },
        _ => None,
    }
}

/// What `bridge.hello` parameters a JSON value holds.
pub open spec fn hello_params(v: JsonValue) -> Option<(Seq<char>, Seq<u32>)> {
    match (field_at(v, "host_product_version"@, 0, 2), field_at(v, "supported_protocols"@, 1, 2)) {
        (Some(a), Some(b)) => match (a.spec_as_str(), u32_list(b)) {
            (Some(x), Some(y)) => Some((x, y)),
            _ => None,
        },
        _ => None,
    }
}

impl BridgeHelloParams {
    /// Reads the parameters as serde reads the struct; on failure, a message.
    pub fn from_json(v: &JsonValue) -> (r: Result<BridgeHelloParams, String>)
        ensures
            match hello_params(*v) {
                Some((x, y)) => r matches Ok(p) && p.host_product_version@ == x && p.supported_protocols@ == y,
                None => r is Err,
            },
    {
        let a = match field_at_exec(v, "host_product_version", 0, 2) {
            Some(a) => a,
            None => {
                return Err(shape_error(v, "host_product_version", "BridgeHelloParams"));
            },
        };
        let b = match field_at_exec(v, "supported_protocols", 1, 2) {
            Some(b) => b,
            None => {
                return Err(shape_error(v, "supported_protocols", "BridgeHelloParams"));
            },
        };
        let x = match read_string(a) {
            Some(x) => x,
            None => {
                return Err(shape_error(v, "host_product_version", "BridgeHelloParams"));
            },
        };
        let y = match read_u32_list(b) {
            Some(y) => y,
            None => {
                return Err(shape_error(v, "supported_protocols", "BridgeHelloParams"));
            },
        };
        Ok(BridgeHelloParams { host_product_version: x, supported_protocols: y })
    }
}

/// The name a `projects.create` request carries.
pub open spec fn create_params(v: JsonValue) -> Option<Seq<char>> {
    match field_at(v, "name"@, 0, 1) {
        Some(a) => a.spec_as_str(),
        None => None,
    }
}

impl CreateProjectParams {
    /// Reads the parameters as serde reads the struct; on failure, a message.
    pub fn from_json(v: &JsonValue) -> (r: Result<CreateProjectParams, String>)
        ensures
            match create_params(*v) {
                Some(x) => r matches Ok(p) && p.name@ == x,
                None => r is Err,
            },
    {
        match field_at_exec(v, "name", 0, 1) {
            Some(a) => match read_string(a) {
                Some(x) => Ok(CreateProjectParams { name: x }),
                None => Err(shape_error(v, "name", "CreateProjectParams")),
            },
            None => Err(shape_error(v, "name", "CreateProjectParams")),
        }
    }
}

/// The path a `projects.register` request carries.
pub open spec fn register_params(v: JsonValue) -> Option<Seq<char>> {
    match field_at(v, "path"@, 0, 1) {
        Some(a) => a.spec_as_str(),
        None => None,
    }
}

impl RegisterProjectParams {
    /// Reads the parameters as serde reads the struct; on failure, a message.
    pub fn from_json(v: &JsonValue) -> (r: Result<RegisterProjectParams, String>)
        ensures
            match register_params(*v) {
                Some(x) => r matches Ok(p) && p.path@ == x,
                None => r is Err,
            },
    {
        match field_at_exec(v, "path", 0, 1) {
            Some(a) => match read_string(a) {
                Some(x) => Ok(RegisterProjectParams { path: x }),
                None => Err(shape_error(v, "path", "RegisterProjectParams")),
            },
            None => Err(shape_error(v, "path", "RegisterProjectParams")),
        }
    }
}

/// The Project identifier a request carries.
pub open spec fn project_id_params(v: JsonValue) -> Option<u128> {
    match field_at(v, "project_id"@, 0, 1) {
        Some(a) => uuid_value(a),
        None => None,
    }
}

impl ProjectIdParams {
    /// Reads the parameters as serde reads the struct; on failure, a message.
    pub fn from_json(v: &JsonValue) -> (r: Result<ProjectIdParams, String>)
        ensures
            match project_id_params(*v) {
                Some(x) => r matches Ok(p) && p.project_id.0 == x,
                None => r is Err,
            },
    {
        match field_at_exec(v, "project_id", 0, 1) {
            Some(a) => match read_uuid(a) {
                Some(x) => Ok(ProjectIdParams { project_id: ProjectId(x) }),
                None => Err(shape_error(v, "project_id", "ProjectIdParams")),
            },
            None => Err(shape_error(v, "project_id", "ProjectIdParams")),
        }
    }
}

/// The Project identifier and packages a package request carries.
pub open spec fn package_params(v: JsonValue) -> Option<(u128, Seq<Seq<char>>)> {
    match (field_at(v, "project_id"@, 0, 2), field_at(v, "packages"@, 1, 2)) {
        (Some(a), Some(b)) => match (uuid_value(a), str_list(b)) {
            (Some(x), Some(y)) => Some((x, y)),
            _ => None,
        },
        _ => None,
    }
}

impl PackageMutationParams {
    /// Reads the parameters as serde reads the struct; on failure, a message.
    pub fn from_json(v: &JsonValue) -> (r: Result<PackageMutationParams, String>)
        ensures
            match package_params(*v) {
                Some((x, y)) => r matches Ok(p) && p.project_id.0 == x && p.packages@.map_values(
                    |s: String| s@,
                ) == y,
                None => r is Err,
            },
    {
        let a = match field_at_exec(v, "project_id", 0, 2) {
            Some(a) => a,
            None => {
                return Err(shape_error(v, "project_id", "PackageMutationParams"));
            },
        };
        let b = match field_at_exec(v, "packages", 1, 2) {
            Some(b) => b,
            None => {
                return Err(shape_error(v, "packages", "PackageMutationParams"));
            },
        };
        let x = match read_uuid(a) {
            Some(x) => x,
            None => {
                return Err(shape_error(v, "project_id", "PackageMutationParams"));
            },
        };
        let y = match read_str_list(b) {
            Some(y) => y,
            None => {
                return Err(shape_error(v, "packages", "PackageMutationParams"));
            },
        };
        Ok(PackageMutationParams { project_id: ProjectId(x), packages: y })
    }
}

} // verus!
