//! The Runtime's request dispatcher: protocol check, method routing, parameter
//! reading, and the structured errors that clients see.
use vstd::prelude::*;

use crate::domain::{DomainError, ProjectId};
use crate::ids::{uuid_text, uuid_to_text};
use crate::json::{member, object_keys, opt_str_json, str_json, JsonNumber, JsonValue};
use crate::paths::join;
use crate::project::{
    absent, added, create_steps, status_steps, package_steps, register_steps, removal_steps, sync_steps, created, first_with_id, name_ok, opt_view, packages_ok, project_error_text,
    refreshed_last, refreshed_once, registered, sorted_by_name, status_of, uv_then_refresh,
    Exchange, ProjectEnvironmentStatus, ProjectError, ProjectManager, ProjectRecord, ProjectStore, RecordView,
};
use crate::protocol::methods::{
    create_params, hello_params, package_params, project_id_params, register_params,
    BridgeHelloParams, CreateProjectParams, PackageMutationParams, ProjectIdParams,
    RegisterProjectParams,
};
use crate::protocol::methods::name;
use crate::protocol::{RequestEnvelope, ResponseEnvelope, PROTOCOL_V1};
use crate::text::{concat2, str_eq, string_of, u64_to_decimal};
use crate::uv::{package_args, UvRunner};

verus! {

/// The product version the Runtime reports in `bridge.hello`.
pub const RUNTIME_PRODUCT_VERSION: &'static str = "0.1.0";

/// A Runtime method that the dispatcher serves.
#[derive(Clone, Copy, PartialEq, Eq, Structural, Debug)]
pub enum RuntimeMethod {
    BridgeHello,
    BridgePing,
    ProjectsList,
    ProjectsCreate,
    ProjectsRegister,
    ProjectsGet,
    ProjectsRemoveFromRegistry,
    PackagesSync,
    PackagesAdd,
    PackagesRemove,
    EnvironmentGetStatus,
}

/// The method a request names, when the dispatcher serves it.
pub open spec fn method_of(m: Seq<char>) -> Option<RuntimeMethod> {
    if m == name::BRIDGE_HELLO@ {
        Some(RuntimeMethod::BridgeHello)
    } else if m == name::BRIDGE_PING@ {
        Some(RuntimeMethod::BridgePing)
    } else if m == name::PROJECTS_LIST@ {
        Some(RuntimeMethod::ProjectsList)
    } else if m == name::PROJECTS_CREATE@ {
        Some(RuntimeMethod::ProjectsCreate)
    } else if m == name::PROJECTS_REGISTER@ {
        Some(RuntimeMethod::ProjectsRegister)
    } else if m == name::PROJECTS_GET@ {
        Some(RuntimeMethod::ProjectsGet)
    } else if m == name::PROJECTS_REMOVE_FROM_REGISTRY@ {
        Some(RuntimeMethod::ProjectsRemoveFromRegistry)
    } else if m == name::PACKAGES_SYNC@ {
        Some(RuntimeMethod::PackagesSync)
    } else if m == name::PACKAGES_ADD@ {
        Some(RuntimeMethod::PackagesAdd)
    } else if m == name::PACKAGES_REMOVE@ {
        Some(RuntimeMethod::PackagesRemove)
    } else if m == name::ENVIRONMENT_GET_STATUS@ {
        Some(RuntimeMethod::EnvironmentGetStatus)
    } else {
        None
    }
}

/// The method a request names, as `method_of` states.
pub fn route_method(m: &str) -> (r: Option<RuntimeMethod>)
    ensures
        r == method_of(m@),
{
    if str_eq(m, name::BRIDGE_HELLO) {
        Some(RuntimeMethod::BridgeHello)
    } else if str_eq(m, name::BRIDGE_PING) {
        Some(RuntimeMethod::BridgePing)
    } else if str_eq(m, name::PROJECTS_LIST) {
        Some(RuntimeMethod::ProjectsList)
    } else if str_eq(m, name::PROJECTS_CREATE) {
        Some(RuntimeMethod::ProjectsCreate)
    } else if str_eq(m, name::PROJECTS_REGISTER) {
        Some(RuntimeMethod::ProjectsRegister)
    } else if str_eq(m, name::PROJECTS_GET) {
        Some(RuntimeMethod::ProjectsGet)
    } else if str_eq(m, name::PROJECTS_REMOVE_FROM_REGISTRY) {
        Some(RuntimeMethod::ProjectsRemoveFromRegistry)
    } else if str_eq(m, name::PACKAGES_SYNC) {
        Some(RuntimeMethod::PackagesSync)
    } else if str_eq(m, name::PACKAGES_ADD) {
        Some(RuntimeMethod::PackagesAdd)
    } else if str_eq(m, name::PACKAGES_REMOVE) {
        Some(RuntimeMethod::PackagesRemove)
    } else if str_eq(m, name::ENVIRONMENT_GET_STATUS) {
        Some(RuntimeMethod::EnvironmentGetStatus)
    } else {
        None
    }
}

// ---- The JSON forms of results ----

/// The JSON form of a Project.
pub open spec fn project_json(j: JsonValue, r: RecordView) -> bool {
    &&& object_keys(j, seq!["project_id"@, "name"@, "root_path"@, "environment_generation"@])
    &&& str_json(member(j, 0), uuid_text(r.id))
    &&& str_json(member(j, 1), r.name)
    &&& str_json(member(j, 2), r.root)
    &&& member(j, 3) == JsonValue::Number(JsonNumber::PosInt(r.generation))
}

/// The JSON form of a Project record.
pub open spec fn record_json(j: JsonValue, r: RecordView) -> bool {
    &&& object_keys(j, seq!["project"@, "lock_fingerprint"@])
    &&& project_json(member(j, 0), r)
    &&& opt_str_json(member(j, 1), r.fingerprint)
}

/// The JSON form of a list of Project records.
pub open spec fn records_json(j: JsonValue, rs: Seq<RecordView>) -> bool {
    match j {
        JsonValue::Array(items) => items@.len() == rs.len() && forall|i: int| 0 <= i < rs.len() ==> record_json(
            #[trigger] items@[i],
            rs[i],
        ),
        _ => false,
    }
}

/// The JSON form of an environment status.
pub open spec fn status_json(j: JsonValue, st: ProjectEnvironmentStatus) -> bool {
    &&& object_keys(
        j,
        seq!["project_id"@, "environment_generation"@, "lock_fingerprint"@, "python_executable"@, "ready"@],
    )
    &&& str_json(member(j, 0), uuid_text(st.project_id.0))
    &&& member(j, 1) == JsonValue::Number(JsonNumber::PosInt(st.environment_generation))
    &&& opt_str_json(member(j, 2), opt_view(st.lock_fingerprint))
    &&& opt_str_json(member(j, 3), opt_view(st.python_executable))
    &&& member(j, 4) == JsonValue::Bool(st.ready)
}

/// The capabilities the Runtime announces.
pub open spec fn capabilities() -> Seq<Seq<char>> {
    seq!["projects"@, "packages"@, "environment-status"@]
}

/// The JSON form of the `bridge.hello` result.
pub open spec fn hello_json(j: JsonValue) -> bool {
    &&& object_keys(j, seq!["selected_protocol"@, "runtime_product_version"@, "capabilities"@])
    &&& member(j, 0) == JsonValue::Number(JsonNumber::PosInt(PROTOCOL_V1 as u64))
    &&& str_json(member(j, 1), RUNTIME_PRODUCT_VERSION@)
    &&& match member(j, 2) {
        JsonValue::Array(items) => items@.len() == 3 && forall|i: int| 0 <= i < 3 ==> str_json(
            #[trigger] items@[i],
            capabilities()[i],
        ),
        _ => false,
    }
}

/// The JSON form of the `bridge.ping` result.
pub open spec fn pong_json(j: JsonValue) -> bool {
    object_keys(j, seq!["pong"@]) && member(j, 0) == JsonValue::Bool(true)
}

fn str_value(s: &str) -> (j: JsonValue)
    ensures
        str_json(j, s@),
{
    JsonValue::String(string_of(s))
}

fn opt_str_value(s: &Option<String>) -> (j: JsonValue)
    ensures
        opt_str_json(j, opt_view(*s)),
{
    match s {
        Some(x) => JsonValue::String(string_of(x.as_str())),
        None => JsonValue::Null,
    }
}

fn entry(k: &str, v: JsonValue) -> (e: (String, JsonValue))
    ensures
        e.0@ == k@,
        e.1 == v,
{
    (string_of(k), v)
}

/// The JSON form of a Project record.
pub fn record_to_json(r: &ProjectRecord) -> (j: JsonValue)
    ensures
        record_json(j, r@),
{
    let id = uuid_to_text(r.project.project_id.0);
    let project = JsonValue::Object(
        vec![
            entry("project_id", JsonValue::String(id)),
            entry("name", str_value(r.project.name.as_str())),
            entry("root_path", str_value(r.project.root_path.as_str())),
            entry(
                "environment_generation",
                JsonValue::Number(JsonNumber::PosInt(r.project.environment_generation)),
            ),
        ],
    );
    let j = JsonValue::Object(
        vec![entry("project", project), entry("lock_fingerprint", opt_str_value(&r.lock_fingerprint))],
    );
    j
}

/// The JSON form of a list of Project records.
pub fn records_to_json(rs: &Vec<ProjectRecord>) -> (j: JsonValue)
    ensures
        records_json(j, rs@.map_values(|p: ProjectRecord| p@)),
{
    let mut items: Vec<JsonValue> = Vec::new();
    let mut i: usize = 0;
    while i < rs.len()
        invariant
            i <= rs.len(),
            items@.len() == i,
            forall|k: int| 0 <= k < i ==> record_json(#[trigger] items@[k], rs@[k]@),
        decreases rs.len() - i,
    {
        items.push(record_to_json(&rs[i]));
        i += 1;
    }
    JsonValue::Array(items)
}

/// The JSON form of an environment status.
pub fn status_to_json(st: &ProjectEnvironmentStatus) -> (j: JsonValue)
    ensures
        status_json(j, *st),
{
    let id = uuid_to_text(st.project_id.0);
    JsonValue::Object(
        vec![
            entry("project_id", JsonValue::String(id)),
            entry(
                "environment_generation",
                JsonValue::Number(JsonNumber::PosInt(st.environment_generation)),
            ),
            entry("lock_fingerprint", opt_str_value(&st.lock_fingerprint)),
            entry("python_executable", opt_str_value(&st.python_executable)),
            entry("ready", JsonValue::Bool(st.ready)),
        ],
    )
}

/// The JSON form of the `bridge.hello` result.
pub fn hello_result_json() -> (j: JsonValue)
    ensures
        hello_json(j),
{
    let caps = JsonValue::Array(
        vec![str_value("projects"), str_value("packages"), str_value("environment-status")],
    );
    JsonValue::Object(
        vec![
            entry("selected_protocol", JsonValue::Number(JsonNumber::PosInt(PROTOCOL_V1 as u64))),
            entry("runtime_product_version", str_value(RUNTIME_PRODUCT_VERSION)),
            entry("capabilities", caps),
        ],
    )
}

fn pong_result_json() -> (j: JsonValue)
    ensures
        pong_json(j),
{
    JsonValue::Object(vec![entry("pong", JsonValue::Bool(true))])
}

// ---- Structured errors ----

/// `d` carries exactly these texts.
pub open spec fn error_is(
    d: DomainError,
    code: Seq<char>,
    component: Seq<char>,
    summary: Seq<char>,
    action: Seq<char>,
    detail: Option<Seq<char>>,
) -> bool {
    &&& d.code@ == code
    &&& d.component@ == component
    &&& d.summary@ == summary
    &&& d.action@ == action
    &&& opt_view(d.detail) == detail
}

fn domain_error(code: &str, component: &str, summary: String, action: &str, detail: Option<String>) -> (d: DomainError)
    ensures
        error_is(d, code@, component@, summary@, action@, opt_view(detail)),
{
    DomainError {
        code: string_of(code),
        component: string_of(component),
        summary,
        action: string_of(action),
        detail,
    }
}

/// The code, component, summary and action that a Project error is reported with.
pub open spec fn project_error_parts(e: ProjectError) -> (Seq<char>, Seq<char>, Seq<char>, Seq<char>) {
    match e {
        ProjectError::InvalidName(_) => (
            "CK-PROJ-INVALID-NAME"@,
            "project"@,
            "Project name is invalid"@,
            "Choose a single safe Project directory name"@,
        ),
        ProjectError::PathOutsideRoot(_) => (
            "CK-SEC-PROJECT-PATH"@,
            "project"@,
            "Project path is outside the managed Project root"@,
            "Choose or import a Project inside the CoKernel Project root"@,
        ),
        ProjectError::AlreadyExists(_) => (
            "CK-PROJ-EXISTS"@,
            "project"@,
            "Project already exists"@,
            "Choose another Project name or register the existing Project"@,
        ),
        ProjectError::NotFound(_) => (
            "CK-PROJ-NOT-FOUND"@,
            "project"@,
            "Project was not found"@,
            "Refresh the Project list or choose another Project"@,
        ),
        ProjectError::MissingPyproject(_) => (
            "CK-PROJ-NOT-UV"@,
            "project"@,
            "Project does not contain pyproject.toml"@,
            "Initialize the Project with uv or create a new CoKernel Project"@,
        ),
        ProjectError::EmptyPackageList => (
            "CK-UV-EMPTY-PACKAGES"@,
            "environment"@,
            "No packages were specified"@,
            "Specify at least one package"@,
        ),
        ProjectError::PythonMissing(_) => (
            "CK-UV-PYTHON-MISSING"@,
            "environment"@,
            "Project Python environment is not ready"@,
            "Synchronize the Project environment"@,
        ),
        ProjectError::Uv(_) => (
            "CK-UV-COMMAND"@,
            "environment"@,
            "uv operation failed"@,
            "Review the dependency error and retry the Project operation"@,
        ),
        ProjectError::InvalidRegistry(_) => (
            "CK-PROJ-REGISTRY"@,
            "project"@,
            "Project registry is invalid"@,
            "Run CoKernel repair or restore the Project registry"@,
        ),
        ProjectError::NonUtf8Path(_) | ProjectError::Io { .. } => (
            "CK-PROJ-IO"@,
            "project"@,
            "Project filesystem operation failed"@,
            "Check Project storage permissions and run diagnostics"@,
        ),
    }
}

/// How a Project error is reported: its code, component, summary and action,
/// with the error's message as detail.
pub open spec fn project_error_is(d: DomainError, e: ProjectError) -> bool {
    let p = project_error_parts(e);
    error_is(d, p.0, p.1, p.2, p.3, Some(project_error_text(e)))
}

/// Reports a Project error.
pub fn project_error(e: &ProjectError) -> (d: DomainError)
    ensures
        project_error_is(d, *e),
{
    let detail = Some(e.describe());
    let (code, component, summary, action) = match e {
        ProjectError::InvalidName(_) => (
            "CK-PROJ-INVALID-NAME",
            "project",
            "Project name is invalid",
            "Choose a single safe Project directory name",
        ),
        ProjectError::PathOutsideRoot(_) => (
            "CK-SEC-PROJECT-PATH",
            "project",
            "Project path is outside the managed Project root",
            "Choose or import a Project inside the CoKernel Project root",
        ),
        ProjectError::AlreadyExists(_) => (
            "CK-PROJ-EXISTS",
            "project",
            "Project already exists",
            "Choose another Project name or register the existing Project",
        ),
        ProjectError::NotFound(_) => (
            "CK-PROJ-NOT-FOUND",
            "project",
            "Project was not found",
            "Refresh the Project list or choose another Project",
        ),
        ProjectError::MissingPyproject(_) => (
            "CK-PROJ-NOT-UV",
            "project",
            "Project does not contain pyproject.toml",
            "Initialize the Project with uv or create a new CoKernel Project",
        ),
        ProjectError::EmptyPackageList => (
            "CK-UV-EMPTY-PACKAGES",
            "environment",
            "No packages were specified",
            "Specify at least one package",
        ),
        ProjectError::PythonMissing(_) => (
            "CK-UV-PYTHON-MISSING",
            "environment",
            "Project Python environment is not ready",
            "Synchronize the Project environment",
        ),
        ProjectError::Uv(_) => (
            "CK-UV-COMMAND",
            "environment",
            "uv operation failed",
            "Review the dependency error and retry the Project operation",
        ),
        ProjectError::InvalidRegistry(_) => (
            "CK-PROJ-REGISTRY",
            "project",
            "Project registry is invalid",
            "Run CoKernel repair or restore the Project registry",
        ),
        ProjectError::NonUtf8Path(_) | ProjectError::Io { .. } => (
            "CK-PROJ-IO",
            "project",
            "Project filesystem operation failed",
            "Check Project storage permissions and run diagnostics",
        ),
    };
    domain_error(code, component, string_of(summary), action, detail)
}

/// The error for a request of another protocol version.
pub open spec fn protocol_mismatch_is(d: DomainError, protocol: u32) -> bool {
    error_is(
        d,
        "CK-RUN-PROTOCOL"@,
        "runtime"@,
        "Unsupported protocol version "@ + crate::text::decimal(protocol as nat),
        "Update CoKernel Host and Runtime to compatible versions"@,
        Some("runtime supports protocol 1"@),
    )
}

fn protocol_mismatch(protocol: u32) -> (d: DomainError)
    ensures
        protocol_mismatch_is(d, protocol),
{
    let n = u64_to_decimal(protocol as u64);
    domain_error(
        "CK-RUN-PROTOCOL",
        "runtime",
        concat2("Unsupported protocol version ", n.as_str()),
        "Update CoKernel Host and Runtime to compatible versions",
        Some(string_of("runtime supports protocol 1")),
    )
}

/// Integers as `{:?}` writes a `Vec<u32>`: `[1, 2]`.
pub open spec fn u32_list_debug(xs: Seq<u32>) -> Seq<char> {
    "["@ + u32_items(xs) + "]"@
}

pub open spec fn u32_items(xs: Seq<u32>) -> Seq<char>
    decreases xs.len(),
{
    if xs.len() == 0 {
        Seq::empty()
    } else if xs.len() == 1 {
        crate::text::decimal(xs[0] as nat)
    } else {
        u32_items(xs.drop_last()) + ", "@ + crate::text::decimal(xs.last() as nat)
    }
}

fn u32_list_debug_exec(xs: &Vec<u32>) -> (r: String)
    ensures
        r@ == u32_list_debug(xs@),
{
    let mut items = String::new();
    let mut i: usize = 0;
    assert(xs@.take(0) =~= Seq::<u32>::empty());
    while i < xs.len()
        invariant
            i <= xs.len(),
            items@ == u32_items(xs@.take(i as int)),
        decreases xs.len() - i,
    {
        if i > 0 {
            crate::text::append_text(&mut items, ", ");
        }
        let d = u64_to_decimal(xs[i] as u64);
        crate::text::append_text(&mut items, d.as_str());
        proof {
            let t = xs@.take(i + 1);
            assert(t.drop_last() =~= xs@.take(i as int));
            assert(t.last() == xs@[i as int]);
            if i == 0 {
                assert(items@ =~= u32_items(t));
            } else {
                assert(items@ =~= u32_items(t));
            }
        }
        i += 1;
    }
    assert(xs@.take(xs.len() as int) =~= xs@);
    let mut r = string_of("[");
    crate::text::append_text(&mut r, items.as_str());
    crate::text::append_text(&mut r, "]");
    r
}

/// The error for a Host that supports no protocol version of this Runtime.
pub open spec fn no_compatible_protocol_is(d: DomainError, supported: Seq<u32>) -> bool {
    error_is(
        d,
        "CK-RUN-PROTOCOL"@,
        "runtime"@,
        "No compatible Host/Runtime protocol"@,
        "Update CoKernel Host and Runtime together"@,
        Some("host supports "@ + u32_list_debug(supported) + "; runtime supports 1"@),
    )
}

fn no_compatible_protocol(supported: &Vec<u32>) -> (d: DomainError)
    ensures
        no_compatible_protocol_is(d, supported@),
{
    let list = u32_list_debug_exec(supported);
    let mut detail = concat2("host supports ", list.as_str());
    crate::text::append_text(&mut detail, "; runtime supports 1");
    domain_error(
        "CK-RUN-PROTOCOL",
        "runtime",
        string_of("No compatible Host/Runtime protocol"),
        "Update CoKernel Host and Runtime together",
        Some(detail),
    )
}

/// The error for a method the Runtime does not serve.
pub open spec fn unknown_method_is(d: DomainError, method: Seq<char>) -> bool {
    error_is(
        d,
        "CK-RUN-404"@,
        "runtime"@,
        "Unknown Runtime method: "@ + method,
        "Update the caller or use a supported Runtime method"@,
        None,
    )
}

fn unknown_method(method: &str) -> (d: DomainError)
    ensures
        unknown_method_is(d, method@),
{
    domain_error(
        "CK-RUN-404",
        "runtime",
        concat2("Unknown Runtime method: ", method),
        "Update the caller or use a supported Runtime method",
        None,
    )
}

/// The error for parameters that do not have the method's shape; the detail
/// says what was wrong.
pub open spec fn bad_params_is(d: DomainError) -> bool {
    &&& d.code@ == "CK-RUN-BAD-PARAMS"@
    &&& d.component@ == "runtime"@
    &&& d.summary@ == "Runtime request parameters are invalid"@
    &&& d.action@ == "Refresh the client state and retry with valid parameters"@
    &&& d.detail is Some
}

fn bad_params(detail: String) -> (d: DomainError)
    ensures
        bad_params_is(d),
{
    domain_error(
        "CK-RUN-BAD-PARAMS",
        "runtime",
        string_of("Runtime request parameters are invalid"),
        "Refresh the client state and retry with valid parameters",
        Some(detail),
    )
}

// ---- Dispatch ----

/// `out` is an error with the given code.
pub open spec fn fails_with(out: Result<JsonValue, DomainError>, code: Seq<char>) -> bool {
    match out {
        Err(d) => d.code@ == code,
        Ok(_) => false,
    }
}

/// `out` is the error for malformed parameters.
pub open spec fn fails_bad_params(out: Result<JsonValue, DomainError>) -> bool {
    match out {
        Err(d) => bad_params_is(d),
        Ok(_) => false,
    }
}

/// `out` is how the service answers the manager's result `r`: the record's
/// JSON, or the error as a Project error.
pub open spec fn answers(r: Result<ProjectRecord, ProjectError>, out: Result<JsonValue, DomainError>) -> bool {
    match r {
        Ok(rec) => out matches Ok(j) && record_json(j, rec@),
        Err(x) => match out {
            Err(d) => project_error_is(d, x),
            Ok(_) => false,
        },
    }
}

/// `out` is how the service answers the manager's environment status `r`.
pub open spec fn status_answers(r: Result<ProjectEnvironmentStatus, ProjectError>, out: Result<JsonValue, DomainError>) -> bool {
    match r {
        Ok(st) => out matches Ok(j) && status_json(j, st),
        Err(x) => match out {
            Err(d) => project_error_is(d, x),
            Ok(_) => false,
        },
    }
}

/// The uv command a package method runs.
pub open spec fn package_command(method: Seq<char>) -> Seq<char> {
    if method_of(method) == Some(RuntimeMethod::PackagesAdd) {
        "add"@
    } else {
        "remove"@
    }
}

/// What serving `method` with `params` answers and does to the registry, from
/// `before` to `after`, given the projects root `root`.
pub open spec fn method_outcome(
    method: Seq<char>,
    params: JsonValue,
    root: Seq<char>,
    before: Seq<RecordView>,
    after: Seq<RecordView>,
    e: Seq<Exchange>,
    out: Result<JsonValue, DomainError>,
) -> bool {
    match method_of(method) {
        None => after == before && e.len() == 0 && (match out {
            Err(d) => unknown_method_is(d, method),
            Ok(_) => false,
        }),
        Some(RuntimeMethod::BridgeHello) => after == before && e.len() == 0 && match hello_params(params) {
            None => fails_bad_params(out),
            Some((_, protocols)) => if protocols.contains(PROTOCOL_V1) {
                out matches Ok(j) && hello_json(j)
            } else {
                match out {
                    Err(d) => no_compatible_protocol_is(d, protocols),
                    Ok(_) => false,
                }
            },
        },
        Some(RuntimeMethod::BridgePing) => after == before && e.len() == 0 && (match out {
            Ok(j) => pong_json(j),
            Err(_) => false,
        }),
        Some(RuntimeMethod::ProjectsList) => after == before && e.len() == 0 && (match out {
            Ok(j) => records_json(j, sorted_by_name(before)),
            Err(_) => false,
        }),
        Some(RuntimeMethod::ProjectsCreate) => match create_params(params) {
            None => after == before && e.len() == 0 && fails_bad_params(out),
            Some(n) => {
                &&& exists|r: Result<ProjectRecord, ProjectError>| #[trigger] create_steps(root, n, before, after, e, r) && answers(r, out)
                &&& !name_ok(n) ==> after == before && e.len() == 0 && fails_with(out, "CK-PROJ-INVALID-NAME"@)
                &&& out matches Ok(j) ==> name_ok(n) && after.len() == before.len() + 1
                    && after.drop_last() == before && created(after.last(), n, join(root, n))
                    && record_json(j, after.last())
            },
        },
        Some(RuntimeMethod::ProjectsRegister) => match register_params(params) {
            None => after == before && e.len() == 0 && fails_bad_params(out),
            Some(path) => {
                &&& exists|r: Result<ProjectRecord, ProjectError>| #[trigger] register_steps(root, path, before, after, e, r) && answers(r, out)
                &&& out matches Ok(j) ==> (after == before && exists|i: int| 0 <= i < before.len()
                && record_json(j, before[i])) || (after.len() == before.len() + 1 && after.drop_last()
                == before && registered(after.last()) && record_json(j, after.last()))
            },
        },
        Some(RuntimeMethod::ProjectsGet) => after == before && e.len() == 0 && match project_id_params(params) {
            None => fails_bad_params(out),
            Some(id) => if absent(before, id) {
                fails_with(out, "CK-PROJ-NOT-FOUND"@)
            } else {
                out matches Ok(j) && exists|i: int| first_with_id(before, i, id) && record_json(j, before[i])
            },
        },
        Some(RuntimeMethod::ProjectsRemoveFromRegistry) => match project_id_params(params) {
            None => after == before && e.len() == 0 && fails_bad_params(out),
            Some(id) => {
                &&& exists|r: Result<ProjectRecord, ProjectError>| #[trigger] removal_steps(id, before, after, e, r) && answers(r, out)
                &&& absent(before, id) ==> after == before && e.len() == 0 && fails_with(out, "CK-PROJ-NOT-FOUND"@)
                &&& forall|i: int| first_with_id(before, i, id) ==> after == before.remove(i) && (out matches Ok(
                    j,
                ) ==> record_json(j, before[i]))
            },
        },
        Some(RuntimeMethod::PackagesSync) => match project_id_params(params) {
            None => after == before && e.len() == 0 && fails_bad_params(out),
            Some(id) => {
                &&& exists|r: Result<ProjectRecord, ProjectError>| #[trigger] sync_steps(id, before, after, e, r) && answers(r, out)
                &&& absent(before, id) ==> after == before && e.len() == 0 && fails_with(out, "CK-PROJ-NOT-FOUND"@)
                &&& out matches Ok(j) ==> refreshed_once(before, after, id) && record_json(
                    j,
                    refreshed_last(before, after, id),
                )
            },
        },
        Some(RuntimeMethod::PackagesAdd) | Some(RuntimeMethod::PackagesRemove) => match package_params(params) {
            None => after == before && e.len() == 0 && fails_bad_params(out),
            Some((id, packages)) => {
                &&& exists|r: Result<ProjectRecord, ProjectError>| #[trigger] package_steps(
                    package_command(method),
                    packages,
                    id,
                    before,
                    after,
                    e,
                    r,
                ) && answers(r, out)
                &&& !packages_ok(packages) ==> after == before && e.len() == 0 && fails_with(out, "CK-UV-EMPTY-PACKAGES"@)
                &&& packages_ok(packages) && absent(before, id) ==> after == before && e.len() == 0 && fails_with(
                    out,
                    "CK-PROJ-NOT-FOUND"@,
                )
                &&& out matches Ok(j) ==> refreshed_once(before, after, id) && record_json(
                    j,
                    refreshed_last(before, after, id),
                )
            },
        },
        Some(RuntimeMethod::EnvironmentGetStatus) => after == before && match project_id_params(params) {
            None => e.len() == 0 && fails_bad_params(out),
            Some(id) => {
                &&& exists|r: Result<ProjectEnvironmentStatus, ProjectError>| #[trigger] status_steps(id, before, e, r)
                    && status_answers(r, out)
                &&& if absent(before, id) {
                    fails_with(out, "CK-PROJ-NOT-FOUND"@)
                } else {
                    out matches Ok(j) && exists|i: int, st: ProjectEnvironmentStatus|
                        first_with_id(before, i, id) && status_of(st, before[i]) && status_json(j, st)
                }
            },
        },
    }
}

/// What a response answers: its result, or its error.
pub open spec fn response_outcome(resp: ResponseEnvelope) -> Result<JsonValue, DomainError> {
    if resp.ok {
        Ok(resp.result.unwrap())
    } else {
        Err(resp.error.unwrap())
    }
}

/// The Runtime's request handler over a Project manager.
pub struct RuntimeService<R, S> {
    projects: ProjectManager<R, S>,
}

impl<R, S> RuntimeService<R, S> {
    /// The manager the service works on.
    pub closed spec fn manager(&self) -> ProjectManager<R, S> {
        self.projects
    }
}

impl<R: UvRunner, S: ProjectStore> RuntimeService<R, S> {
    /// A service over `projects`.
    pub fn new(projects: ProjectManager<R, S>) -> (r: Self)
        ensures
            r.manager() == projects,
    {
        RuntimeService { projects }
    }

    /// The Project manager.
    pub fn projects(&self) -> (r: &ProjectManager<R, S>)
        ensures
            *r == self.manager(),
    {
        &self.projects
    }

    /// The Project manager, for changes.
    pub fn projects_mut(&mut self) -> (r: &mut ProjectManager<R, S>)
        ensures
            *r == old(self).manager(),
            final(self).manager() == *final(r),
    {
        &mut self.projects
    }

    fn project_result(r: Result<ProjectRecord, ProjectError>) -> (out: Result<JsonValue, DomainError>)
        ensures
            answers(r, out),
    {
        match r {
            Ok(rec) => Ok(record_to_json(&rec)),
            Err(e) => Err(project_error(&e)),
        }
    }

    /// Serves one method with its parameters, as `method_outcome` states.
    pub fn dispatch_method(&mut self, method: &str, params: &JsonValue) -> (out: Result<JsonValue, DomainError>)
        ensures
            final(self).manager().root_view() == old(self).manager().root_view(),
            final(self).manager().registry_path_view() == old(self).manager().registry_path_view(),
            method_outcome(
                method@,
                *params,
                old(self).manager().root_view(),
                old(self).manager().records(),
                final(self).manager().records(),
                added(old(self).manager().log(), final(self).manager().log()),
                out,
            ),
    {
        let ghost before = self.projects.records();
        let ghost root = self.projects.root_view();
        let ghost log0 = self.projects.log();
        match route_method(method) {
            None => Err(unknown_method(method)),
            Some(RuntimeMethod::BridgeHello) => {
                let p = match BridgeHelloParams::from_json(params) {
                    Ok(p) => p,
                    Err(m) => {
                        return Err(bad_params(m));
                    },
                };
                let mut supported = false;
                let mut i: usize = 0;
                while i < p.supported_protocols.len()
                    invariant
                        i <= p.supported_protocols.len(),
                        supported == (exists|k: int| 0 <= k < i && p.supported_protocols@[k] == PROTOCOL_V1),
                    decreases p.supported_protocols.len() - i,
                {
                    if p.supported_protocols[i] == PROTOCOL_V1 {
                        supported = true;
                    }
                    i += 1;
                }
                proof {
                    if p.supported_protocols@.contains(PROTOCOL_V1) {
                        let k = choose|k: int| 0 <= k < p.supported_protocols@.len() && p.supported_protocols@[k] == PROTOCOL_V1;
                        assert(supported);
                    }
                    if supported {
                        let k = choose|k: int| 0 <= k < p.supported_protocols@.len() && p.supported_protocols@[k] == PROTOCOL_V1;
                        assert(p.supported_protocols@.contains(PROTOCOL_V1));
                    }
                }
                if !supported {
                    return Err(no_compatible_protocol(&p.supported_protocols));
                }
                Ok(hello_result_json())
            },
            Some(RuntimeMethod::BridgePing) => Ok(pong_result_json()),
            Some(RuntimeMethod::ProjectsList) => {
                let list = self.projects.list();
                Ok(records_to_json(&list))
            },
            Some(RuntimeMethod::ProjectsCreate) => {
                let p = match CreateProjectParams::from_json(params) {
                    Ok(p) => p,
                    Err(m) => {
                        return Err(bad_params(m));
                    },
                };
                let r = self.projects.create_project(p.name.as_str());
                let ghost rr = r;
                proof {
                    if r is Ok {
                        assert(self.projects.records().drop_last() =~= before);
                    }
                    assert(create_steps(root, p.name@, before, self.projects.records(), added(log0, self.projects.log()), rr));
                }
                Self::project_result(r)
            },
            Some(RuntimeMethod::ProjectsRegister) => {
                let p = match RegisterProjectParams::from_json(params) {
                    Ok(p) => p,
                    Err(m) => {
                        return Err(bad_params(m));
                    },
                };
                let r = self.projects.register_existing(p.path.as_str());
                let ghost rr = r;
                proof {
                    assert(register_steps(root, p.path@, before, self.projects.records(), added(log0, self.projects.log()), rr));
                    if r is Ok {
                        if self.projects.records() != before {
                            assert(self.projects.records().drop_last() =~= before);
                        }
                    }
                }
                Self::project_result(r)
            },
            Some(RuntimeMethod::ProjectsGet) => {
                let p = match ProjectIdParams::from_json(params) {
                    Ok(p) => p,
                    Err(m) => {
                        return Err(bad_params(m));
                    },
                };
                Self::project_result(self.projects.get(p.project_id))
            },
            Some(RuntimeMethod::ProjectsRemoveFromRegistry) => {
                let p = match ProjectIdParams::from_json(params) {
                    Ok(p) => p,
                    Err(m) => {
                        return Err(bad_params(m));
                    },
                };
                let r = self.projects.remove_from_registry(p.project_id);
                let ghost rr = r;
                proof {
                    assert(removal_steps(p.project_id.0, before, self.projects.records(), added(log0, self.projects.log()), rr));
                }
                Self::project_result(r)
            },
            Some(RuntimeMethod::PackagesSync) => {
                let p = match ProjectIdParams::from_json(params) {
                    Ok(p) => p,
                    Err(m) => {
                        return Err(bad_params(m));
                    },
                };
                let r = self.projects.sync_project(p.project_id);
                let ghost rr = r;
                proof {
                    assert(sync_steps(p.project_id.0, before, self.projects.records(), added(log0, self.projects.log()), rr));
                }
                Self::project_result(r)
            },
            Some(RuntimeMethod::PackagesAdd) => {
                let p = match PackageMutationParams::from_json(params) {
                    Ok(p) => p,
                    Err(m) => {
                        return Err(bad_params(m));
                    },
                };
                let r = self.projects.add_packages(p.project_id, p.packages.as_slice());
                let ghost rr = r;
                proof {
                    assert(package_command(method@) == "add"@);
                    assert(package_steps(package_command(method@), p.packages@.map_values(|q: String| q@), p.project_id.0, before, self.projects.records(), added(log0, self.projects.log()), rr));
                }
                Self::project_result(r)
            },
            Some(RuntimeMethod::PackagesRemove) => {
                let p = match PackageMutationParams::from_json(params) {
                    Ok(p) => p,
                    Err(m) => {
                        return Err(bad_params(m));
                    },
                };
                let r = self.projects.remove_packages(p.project_id, p.packages.as_slice());
                let ghost rr = r;
                proof {
                    assert(package_command(method@) == "remove"@);
                    assert(package_steps(package_command(method@), p.packages@.map_values(|q: String| q@), p.project_id.0, before, self.projects.records(), added(log0, self.projects.log()), rr));
                }
                Self::project_result(r)
            },
            Some(RuntimeMethod::EnvironmentGetStatus) => {
                let p = match ProjectIdParams::from_json(params) {
                    Ok(p) => p,
                    Err(m) => {
                        return Err(bad_params(m));
                    },
                };
                let r = self.projects.environment_status(p.project_id);
                let ghost rr = r;
                let out = match r {
                    Ok(st) => Ok(status_to_json(&st)),
                    Err(e) => Err(project_error(&e)),
                };
                proof {
                    assert(status_steps(p.project_id.0, before, added(log0, self.projects.log()), rr));
                }
                out
            },
        }
    }

    /// Answers one request: a request of another protocol version is refused
    /// before anything else; otherwise the method is served.
    pub fn dispatch(&mut self, request: RequestEnvelope) -> (resp: ResponseEnvelope)
        ensures
            resp.protocol == PROTOCOL_V1,
            resp.request_id@ == request.request_id@,
            resp.ok == (resp.result is Some),
            resp.ok == (resp.error is None),
            final(self).manager().root_view() == old(self).manager().root_view(),
            final(self).manager().registry_path_view() == old(self).manager().registry_path_view(),
            request.protocol != PROTOCOL_V1 ==> final(self).manager().log() == old(self).manager().log(),
            request.protocol != PROTOCOL_V1 ==> final(self).manager().records() == old(self).manager().records()
                && (match resp.error {
                Some(d) => protocol_mismatch_is(d, request.protocol),
                None => false,
            }),
            request.protocol == PROTOCOL_V1 ==> method_outcome(
                request.method@,
                request.params,
                old(self).manager().root_view(),
                old(self).manager().records(),
                final(self).manager().records(),
                added(old(self).manager().log(), final(self).manager().log()),
                response_outcome(resp),
            ),
    {
        if request.protocol != PROTOCOL_V1 {
            return error_response(request.request_id, protocol_mismatch(request.protocol));
        }
        let request_id = request.request_id;
        match self.dispatch_method(request.method.as_str(), &request.params) {
            Ok(value) => success_response(request_id, value),
            Err(error) => error_response(request_id, error),
        }
    }
}

/// A successful response carrying `result`.
pub fn success_response(request_id: String, result: JsonValue) -> (r: ResponseEnvelope)
    ensures
        r.protocol == PROTOCOL_V1,
        r.request_id == request_id,
        r.ok,
        r.result == Some(result),
        r.error is None,
{
    ResponseEnvelope { protocol: PROTOCOL_V1, request_id, ok: true, result: Some(result), error: None }
}

/// A failed response carrying `error`.
pub fn error_response(request_id: String, error: DomainError) -> (r: ResponseEnvelope)
    ensures
        r.protocol == PROTOCOL_V1,
        r.request_id == request_id,
        !r.ok,
        r.result is None,
        r.error == Some(error),
{
    ResponseEnvelope { protocol: PROTOCOL_V1, request_id, ok: false, result: None, error: Some(error) }
}

// ---- Routing laws ----

/// Each method name of protocol v1 that the Runtime serves routes to its own
/// operation, and only that name routes there.
pub proof fn lemma_routing_table(m: Seq<char>)
    ensures
        method_of(m) == Some(RuntimeMethod::BridgeHello) <==> m == "bridge.hello"@,
        method_of(m) == Some(RuntimeMethod::BridgePing) <==> m == "bridge.ping"@,
        method_of(m) == Some(RuntimeMethod::ProjectsList) <==> m == "projects.list"@,
        method_of(m) == Some(RuntimeMethod::ProjectsCreate) <==> m == "projects.create"@,
        method_of(m) == Some(RuntimeMethod::ProjectsRegister) <==> m == "projects.register"@,
        method_of(m) == Some(RuntimeMethod::ProjectsGet) <==> m == "projects.get"@,
        method_of(m) == Some(RuntimeMethod::ProjectsRemoveFromRegistry) <==> m == "projects.remove_from_registry"@,
        method_of(m) == Some(RuntimeMethod::PackagesSync) <==> m == "packages.sync"@,
        method_of(m) == Some(RuntimeMethod::PackagesAdd) <==> m == "packages.add"@,
        method_of(m) == Some(RuntimeMethod::PackagesRemove) <==> m == "packages.remove"@,
        method_of(m) == Some(RuntimeMethod::EnvironmentGetStatus) <==> m == "environment.get_status"@,
{
    reveal_strlit("bridge.hello");
    reveal_strlit("bridge.ping");
    reveal_strlit("projects.list");
    reveal_strlit("projects.create");
    reveal_strlit("projects.register");
    reveal_strlit("projects.get");
    reveal_strlit("projects.remove_from_registry");
    reveal_strlit("packages.sync");
    reveal_strlit("packages.add");
    reveal_strlit("packages.remove");
    reveal_strlit("environment.get_status");
    assert(name::BRIDGE_HELLO@ == "bridge.hello"@);
    assert(name::BRIDGE_PING@ == "bridge.ping"@);
    assert(name::PROJECTS_LIST@ == "projects.list"@);
    assert(name::PROJECTS_CREATE@ == "projects.create"@);
    assert(name::PROJECTS_REGISTER@ == "projects.register"@);
    assert(name::PROJECTS_GET@ == "projects.get"@);
    assert(name::PROJECTS_REMOVE_FROM_REGISTRY@ == "projects.remove_from_registry"@);
    assert(name::PACKAGES_SYNC@ == "packages.sync"@);
    assert(name::PACKAGES_ADD@ == "packages.add"@);
    assert(name::PACKAGES_REMOVE@ == "packages.remove"@);
    assert(name::ENVIRONMENT_GET_STATUS@ == "environment.get_status"@);
    assert("bridge.hello"@.len() == 12);
    assert("bridge.ping"@.len() == 11);
    assert("projects.list"@.len() == 13);
    assert("projects.create"@.len() == 15);
    assert("projects.register"@.len() == 17);
    assert("projects.get"@.len() == 12);
    assert("projects.remove_from_registry"@.len() == 29);
    assert("packages.sync"@.len() == 13);
    assert("packages.add"@.len() == 12);
    assert("packages.remove"@.len() == 15);
    assert("environment.get_status"@.len() == 22);
    assert("bridge.hello"@[0] != "projects.get"@[0]);
    assert("bridge.hello"@[0] != "packages.add"@[0]);
    assert("projects.get"@[1] != "packages.add"@[1]);
    assert("projects.list"@[1] != "packages.sync"@[1]);
    assert("projects.create"@[1] != "packages.remove"@[1]);
}

/// Serving `packages.add` for a registered Project with a usable package list
/// first runs `uv add --project <root> <packages..>`, and serving
/// `packages.remove` first runs `uv remove --project <root> <packages..>`.
pub proof fn lemma_package_methods_run_their_uv_command(
    method: Seq<char>,
    params: JsonValue,
    root: Seq<char>,
    before: Seq<RecordView>,
    after: Seq<RecordView>,
    e: Seq<Exchange>,
    out: Result<JsonValue, DomainError>,
    id: u128,
    packages: Seq<Seq<char>>,
    i: int,
)
    requires
        method == "packages.add"@ || method == "packages.remove"@,
        method_outcome(method, params, root, before, after, e, out),
        package_params(params) == Some((id, packages)),
        packages_ok(packages),
        first_with_id(before, i, id),
    ensures
        e.len() >= 1,
        method == "packages.add"@ ==> (e[0] matches Exchange::Uv { args, .. } && args == seq![
            "add"@,
            "--project"@,
            before[i].root,
        ] + packages),
        method == "packages.remove"@ ==> (e[0] matches Exchange::Uv { args, .. } && args == seq![
            "remove"@,
            "--project"@,
            before[i].root,
        ] + packages),
{
    lemma_routing_table(method);
    reveal_strlit("packages.add");
    reveal_strlit("packages.remove");
    reveal_strlit("add");
    reveal_strlit("remove");
    let r = choose|r: Result<ProjectRecord, ProjectError>| #[trigger] package_steps(
        package_command(method),
        packages,
        id,
        before,
        after,
        e,
        r,
    ) && answers(r, out);
    assert(!absent(before, id));
    assert(uv_then_refresh(
        package_args(package_command(method), before[i].root, packages),
        id,
        i,
        before,
        after,
        e,
        r,
    ));
}

} // verus!
