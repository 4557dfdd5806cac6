use std::cell::RefCell;
use std::collections::{BTreeMap, BTreeSet};
use std::rc::Rc;

use cokernel::json::{JsonNumber, JsonValue};
use cokernel::project::{
    project_python_path, PathText, ProjectManager, ProjectStore, RegistryFile, RegistryWriteError,
};
use cokernel::protocol::methods::name;
use cokernel::protocol::{RequestEnvelope, PROTOCOL_V1};
use cokernel::service::{route_method, RuntimeMethod, RuntimeService, RUNTIME_PRODUCT_VERSION};
use cokernel::uv::{UvCommandResult, UvError, UvInvocation, UvRunner};

#[derive(Default)]
struct Disk {
    files: BTreeMap<String, Vec<u8>>,
    dirs: BTreeSet<String>,
    registry_writes: usize,
    stored_registry: Option<Vec<u8>>,
}

#[derive(Clone, Default)]
struct FakeStore(Rc<RefCell<Disk>>);

impl FakeStore {
    fn write(&self, path: &str, bytes: &[u8]) {
        self.0.borrow_mut().files.insert(path.to_string(), bytes.to_vec());
    }
}

impl ProjectStore for FakeStore {
    fn create_dir_all(&self, path: &str) -> Result<(), String> {
        self.0.borrow_mut().dirs.insert(path.trim_end_matches('/').to_string());
        Ok(())
    }

    fn path_exists(&self, path: &str) -> bool {
        let disk = self.0.borrow();
        let p = path.trim_end_matches('/');
        disk.files.contains_key(p)
            || disk.dirs.contains(p)
            || disk.files.keys().any(|f| f.starts_with(&format!("{p}/")))
    }

    fn is_file(&self, path: &str) -> bool {
        self.0.borrow().files.contains_key(path)
    }

    fn read(&self, path: &str) -> Result<Vec<u8>, String> {
        self.0.borrow().files.get(path).cloned().ok_or_else(|| "No such file or directory".to_string())
    }

    fn remove_dir_all(&self, path: &str) {
        let prefix = format!("{}/", path.trim_end_matches('/'));
        let mut disk = self.0.borrow_mut();
        disk.files.retain(|f, _| !f.starts_with(&prefix));
        disk.dirs.retain(|d| d != path && !d.starts_with(&prefix));
    }

    fn canonicalize(&self, path: &str) -> Result<PathText, String> {
        if self.path_exists(path) {
            Ok(PathText { text: path.trim_end_matches('/').to_string(), utf8: true })
        } else {
            Err("No such file or directory".to_string())
        }
    }

    fn decode_registry(&self, bytes: &[u8]) -> Result<RegistryFile, String> {
        let text = String::from_utf8_lossy(bytes);
        match text.strip_prefix("schema ") {
            Some(v) => Ok(RegistryFile {
                schema_version: v.trim().parse().map_err(|_| "bad schema".to_string())?,
                projects: Vec::new(),
            }),
            None => Err("expected value at line 1 column 1".to_string()),
        }
    }

    fn write_registry(&self, registry_path: &str, registry: &RegistryFile) -> Result<(), RegistryWriteError> {
        let mut disk = self.0.borrow_mut();
        disk.registry_writes += 1;
        let bytes = format!("schema {} projects {}", registry.schema_version, registry.projects.len());
        disk.stored_registry = Some(bytes.clone().into_bytes());
        disk.files.insert(registry_path.to_string(), bytes.into_bytes());
        Ok(())
    }
}

struct FakeUv {
    store: FakeStore,
    calls: RefCell<Vec<String>>,
    fail_sync: bool,
}

impl FakeUv {
    fn new(store: &FakeStore) -> Self {
        FakeUv { store: store.clone(), calls: RefCell::new(Vec::new()), fail_sync: false }
    }
}

fn project_arg(args: &[String]) -> String {
    let index = args.iter().position(|value| value == "--project").unwrap();
    args[index + 1].clone()
}

impl UvRunner for FakeUv {
    fn run(&self, invocation: &UvInvocation) -> Result<UvCommandResult, UvError> {
        let args = invocation.args.clone();
        self.calls.borrow_mut().push(args.join(" "));
        match args.first().map(String::as_str) {
            Some("init") => {
                let root = args.last().unwrap().clone();
                self.store.create_dir_all(&root).unwrap();
                self.store.write(
                    &format!("{root}/pyproject.toml"),
                    b"[project]\nname = \"demo\"\nversion = \"0.1.0\"\nrequires-python = \">=3.12\"\ndependencies = []\n",
                );
            }
            Some("sync") => {
                if self.fail_sync {
                    return Err(UvError::CommandFailed {
                        invocation: invocation.display(),
                        status_code: Some(2),
                        stderr: "resolution failed".into(),
                    });
                }
                let root = project_arg(&args);
                if !self.store.is_file(&format!("{root}/uv.lock")) {
                    self.store.write(&format!("{root}/uv.lock"), b"version = 1\n");
                }
                self.store.write(&project_python_path(&root), b"");
            }
            Some("add") | Some("remove") => {
                let root = project_arg(&args);
                self.store.write(&format!("{root}/uv.lock"), args.join("\n").as_bytes());
            }
            other => panic!("unexpected fake uv invocation: {other:?}"),
        }
        Ok(UvCommandResult { status_code: Some(0), stdout: String::new(), stderr: String::new() })
    }
}

fn service() -> RuntimeService<FakeUv, FakeStore> {
    let store = FakeStore::default();
    let uv = FakeUv::new(&store);
    let manager = ProjectManager::load("/tmp/ck/projects", "/tmp/ck/state/projects.json", uv, store).unwrap();
    RuntimeService::new(manager)
}

fn s(v: &str) -> JsonValue {
    JsonValue::String(v.to_string())
}

fn n(v: u64) -> JsonValue {
    JsonValue::Number(JsonNumber::PosInt(v))
}

fn obj(entries: Vec<(&str, JsonValue)>) -> JsonValue {
    JsonValue::Object(entries.into_iter().map(|(k, v)| (k.to_string(), v)).collect())
}

fn field<'a>(v: &'a JsonValue, key: &str) -> &'a JsonValue {
    match v {
        JsonValue::Object(entries) => &entries.iter().find(|(k, _)| k == key).expect(key).1,
        other => panic!("not an object: {other:?}"),
    }
}

fn request(method: &str, params: JsonValue) -> RequestEnvelope {
    RequestEnvelope { protocol: PROTOCOL_V1, request_id: "req-1".into(), method: method.into(), params }
}

#[test]
fn create_list_and_environment_status_share_typed_domain_state() {
    let mut service = service();

    let created = service.dispatch(request(name::PROJECTS_CREATE, obj(vec![("name", s("demo"))])));
    assert!(created.ok);
    let project_id = match field(field(created.result.as_ref().unwrap(), "project"), "project_id") {
        JsonValue::String(id) => id.clone(),
        other => panic!("unexpected id {other:?}"),
    };

    let listed = service.dispatch(request(name::PROJECTS_LIST, obj(vec![])));
    match listed.result.unwrap() {
        JsonValue::Array(items) => assert_eq!(items.len(), 1),
        other => panic!("unexpected list {other:?}"),
    }

    let status = service.dispatch(request(
        name::ENVIRONMENT_GET_STATUS,
        obj(vec![("project_id", JsonValue::String(project_id))]),
    ));
    assert!(status.ok);
    assert_eq!(field(status.result.as_ref().unwrap(), "ready"), &JsonValue::Bool(true));
}

#[test]
fn bad_params_and_unknown_methods_are_structured_errors() {
    let mut service = service();

    let bad = service.dispatch(request(name::PROJECTS_CREATE, obj(vec![])));
    assert!(!bad.ok);
    assert_eq!(bad.error.unwrap().code, "CK-RUN-BAD-PARAMS");

    let unknown = service.dispatch(request("not.real", obj(vec![])));
    assert!(!unknown.ok);
    assert_eq!(unknown.error.unwrap().code, "CK-RUN-404");
}

#[test]
fn protocol_mismatch_fails_before_dispatch() {
    let mut service = service();
    let response = service.dispatch(RequestEnvelope {
        protocol: 99,
        request_id: "req-99".into(),
        method: name::PROJECTS_LIST.into(),
        params: obj(vec![]),
    });
    assert!(!response.ok);
    assert_eq!(response.request_id, "req-99");
    let error = response.error.unwrap();
    assert_eq!(error.code, "CK-RUN-PROTOCOL");
    assert_eq!(error.summary, "Unsupported protocol version 99");
    assert_eq!(error.detail.as_deref(), Some("runtime supports protocol 1"));
}

#[test]
fn hello_negotiates_protocol_one_or_refuses() {
    let mut service = service();
    let hello = service.dispatch(request(
        name::BRIDGE_HELLO,
        obj(vec![
            ("host_product_version", s("1.2.3")),
            ("supported_protocols", JsonValue::Array(vec![n(2), n(1)])),
        ]),
    ));
    assert!(hello.ok);
    let result = hello.result.unwrap();
    assert_eq!(field(&result, "selected_protocol"), &n(1));
    assert_eq!(field(&result, "runtime_product_version"), &s(RUNTIME_PRODUCT_VERSION));

    let refused = service.dispatch(request(
        name::BRIDGE_HELLO,
        obj(vec![
            ("host_product_version", s("1.2.3")),
            ("supported_protocols", JsonValue::Array(vec![n(2), n(3)])),
        ]),
    ));
    assert!(!refused.ok);
    let error = refused.error.unwrap();
    assert_eq!(error.code, "CK-RUN-PROTOCOL");
    assert_eq!(error.detail.as_deref(), Some("host supports [2, 3]; runtime supports 1"));

    let pong = service.dispatch(request(name::BRIDGE_PING, JsonValue::Null));
    assert_eq!(pong.result.unwrap(), obj(vec![("pong", JsonValue::Bool(true))]));
}

#[test]
fn project_errors_carry_their_codes() {
    let mut service = service();
    let invalid = service.dispatch(request(name::PROJECTS_CREATE, obj(vec![("name", s("../x"))])));
    let error = invalid.error.unwrap();
    assert_eq!(error.code, "CK-PROJ-INVALID-NAME");
    assert_eq!(error.component, "project");
    assert_eq!(error.detail.as_deref(), Some("project name is invalid: ../x"));

    let missing = service.dispatch(request(
        name::PROJECTS_GET,
        obj(vec![("project_id", s("6f1c0a52-2f6e-4c1e-9d7e-3b5f2a1c0d9e"))]),
    ));
    assert_eq!(missing.error.unwrap().code, "CK-PROJ-NOT-FOUND");

    let empty = service.dispatch(request(
        name::PACKAGES_ADD,
        obj(vec![("project_id", s("6f1c0a52-2f6e-4c1e-9d7e-3b5f2a1c0d9e")), ("packages", JsonValue::Array(vec![]))]),
    ));
    assert_eq!(empty.error.unwrap().code, "CK-UV-EMPTY-PACKAGES");

    let bad_id = service.dispatch(request(name::PACKAGES_SYNC, obj(vec![("project_id", s("not-a-uuid"))])));
    assert_eq!(bad_id.error.unwrap().code, "CK-RUN-BAD-PARAMS");
}

#[test]
fn session_methods_are_not_served_by_the_project_dispatcher() {
    assert_eq!(route_method(name::PROJECTS_LIST), Some(RuntimeMethod::ProjectsList));
    assert_eq!(route_method(name::SESSIONS_LIST), None);
    assert_eq!(route_method(name::BRIDGE_SHUTDOWN), None);
}
