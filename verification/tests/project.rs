use std::cell::RefCell;
use std::collections::{BTreeMap, BTreeSet};
use std::rc::Rc;

use cokernel::domain::{Project, ProjectId};
use cokernel::project::{
    canonical_outcome, check_managed_path, existing_root_outcome, lock_fingerprint,
    project_python_path, pyproject_outcome, python_outcome, registry_write_outcome, status_for,
    uv_outcome, validate_packages, validate_project_name, PathText, ProjectError, ProjectManager,
    ProjectRecord, ProjectStore, RegistryFile, RegistryWriteError, REGISTRY_SCHEMA_VERSION,
};
use cokernel::uv::{UvCommandResult, UvError, UvInvocation, UvRunner};
use sha2::{Digest, Sha256};

#[derive(Default)]
struct Disk {
    files: BTreeMap<String, Vec<u8>>,
    dirs: BTreeSet<String>,
    registry_writes: usize,
    stored_registry: Option<Vec<u8>>,
}

#[derive(Clone, Default)]
struct FakeStore(Rc<RefCell<Disk>>);

impl FakeStore {
    fn write(&self, path: &str, bytes: &[u8]) {
        self.0.borrow_mut().files.insert(path.to_string(), bytes.to_vec());
    }
}

impl ProjectStore for FakeStore {
    fn create_dir_all(&self, path: &str) -> Result<(), String> {
        self.0.borrow_mut().dirs.insert(path.trim_end_matches('/').to_string());
        Ok(())
    }

    fn path_exists(&self, path: &str) -> bool {
        let disk = self.0.borrow();
        let p = path.trim_end_matches('/');
        disk.files.contains_key(p)
            || disk.dirs.contains(p)
            || disk.files.keys().any(|f| f.starts_with(&format!("{p}/")))
    }

    fn is_file(&self, path: &str) -> bool {
        self.0.borrow().files.contains_key(path)
    }

    fn read(&self, path: &str) -> Result<Vec<u8>, String> {
        self.0.borrow().files.get(path).cloned().ok_or_else(|| "No such file or directory".to_string())
    }

    fn remove_dir_all(&self, path: &str) {
        let prefix = format!("{}/", path.trim_end_matches('/'));
        let mut disk = self.0.borrow_mut();
        disk.files.retain(|f, _| !f.starts_with(&prefix));
        disk.dirs.retain(|d| d != path && !d.starts_with(&prefix));
    }

    fn canonicalize(&self, path: &str) -> Result<PathText, String> {
        if self.path_exists(path) {
            Ok(PathText { text: path.trim_end_matches('/').to_string(), utf8: !path.contains('\u{fffd}') })
        } else {
            Err("No such file or directory".to_string())
        }
    }

    fn decode_registry(&self, bytes: &[u8]) -> Result<RegistryFile, String> {
        let text = String::from_utf8_lossy(bytes);
        match text.strip_prefix("schema ") {
            Some(v) => Ok(RegistryFile {
                schema_version: v.trim().parse().map_err(|_| "bad schema".to_string())?,
                projects: Vec::new(),
            }),
            None => Err("expected value at line 1 column 1".to_string()),
        }
    }

    fn write_registry(&self, registry_path: &str, registry: &RegistryFile) -> Result<(), RegistryWriteError> {
        let mut disk = self.0.borrow_mut();
        disk.registry_writes += 1;
        let bytes = format!("schema {} projects {}", registry.schema_version, registry.projects.len());
        disk.stored_registry = Some(bytes.clone().into_bytes());
        disk.files.insert(registry_path.to_string(), bytes.into_bytes());
        Ok(())
    }
}

struct FakeUv {
    store: FakeStore,
    calls: RefCell<Vec<String>>,
    fail_sync: bool,
}

impl FakeUv {
    fn new(store: &FakeStore) -> Self {
        FakeUv { store: store.clone(), calls: RefCell::new(Vec::new()), fail_sync: false }
    }
}

fn project_arg(args: &[String]) -> String {
    let index = args.iter().position(|value| value == "--project").unwrap();
    args[index + 1].clone()
}

impl UvRunner for FakeUv {
    fn run(&self, invocation: &UvInvocation) -> Result<UvCommandResult, UvError> {
        let args = invocation.args.clone();
        self.calls.borrow_mut().push(args.join(" "));
        match args.first().map(String::as_str) {
            Some("init") => {
                let root = args.last().unwrap().clone();
                self.store.create_dir_all(&root).unwrap();
                self.store.write(
                    &format!("{root}/pyproject.toml"),
                    b"[project]\nname = \"demo\"\nversion = \"0.1.0\"\nrequires-python = \">=3.12\"\ndependencies = []\n",
                );
            }
            Some("sync") => {
                if self.fail_sync {
                    return Err(UvError::CommandFailed {
                        invocation: invocation.display(),
                        status_code: Some(2),
                        stderr: "resolution failed".into(),
                    });
                }
                let root = project_arg(&args);
                self.store.write(&format!("{root}/uv.lock"), b"version = 1\n");
                self.store.write(&project_python_path(&root), b"");
            }
            Some("add") | Some("remove") => {
                let root = project_arg(&args);
                self.store.write(&format!("{root}/uv.lock"), args.join("\n").as_bytes());
            }
            other => panic!("unexpected fake uv invocation: {other:?}"),
        }
        Ok(UvCommandResult { status_code: Some(0), stdout: String::new(), stderr: String::new() })
    }
}

fn manager() -> (ProjectManager<FakeUv, FakeStore>, FakeStore) {
    let store = FakeStore::default();
    let uv = FakeUv::new(&store);
    let manager = ProjectManager::load("/tmp/ck/projects", "/tmp/ck/state/projects.json", uv, store.clone()).unwrap();
    (manager, store)
}

#[test]
fn rejects_project_path_components() {
    for name in ["", ".", "..", "../escape", "a/b"] {
        assert!(validate_project_name(name).is_err(), "{name}");
    }
    assert!(validate_project_name("demo-project_1").is_ok());
}

#[test]
fn create_project_initializes_and_syncs_uv_environment() {
    let (mut manager, store) = manager();

    let created = manager.create_project("demo").unwrap();
    assert_eq!(created.project.environment_generation, 1);
    assert!(store.is_file(&format!("{}/pyproject.toml", created.project.root_path)));
    assert!(manager.environment_status(created.project.project_id).unwrap().ready);

    let calls = manager.uv_runner().calls.borrow().clone();
    assert_eq!(calls.len(), 2);
    assert!(calls[0].starts_with("init --bare --no-workspace --name demo"));
    assert!(calls[1].starts_with("sync --project"));
}

#[test]
fn package_change_increments_generation_but_noop_sync_does_not() {
    let (mut manager, _store) = manager();
    let project = manager.create_project("demo").unwrap();

    let after_add = manager.add_packages(project.project.project_id, &["numpy".to_owned()]).unwrap();
    assert_eq!(after_add.project.environment_generation, 2);

    let after_sync = manager.sync_project(project.project.project_id).unwrap();
    assert_eq!(after_sync.project.environment_generation, 3);
    let second_sync = manager.sync_project(project.project.project_id).unwrap();
    assert_eq!(second_sync.project.environment_generation, 3);
}

#[test]
fn remove_from_registry_does_not_delete_project_files() {
    let (mut manager, store) = manager();
    let project = manager.create_project("demo").unwrap();
    let root = project.project.root_path.clone();

    manager.remove_from_registry(project.project.project_id).unwrap();
    assert!(store.path_exists(&root));
    assert!(manager.list().is_empty());
}

#[test]
fn created_project_lives_under_the_projects_root_and_is_persisted() {
    let (mut manager, store) = manager();
    let created = manager.create_project("demo").unwrap();
    assert_eq!(created.project.name, "demo");
    assert_eq!(created.project.root_path, "/tmp/ck/projects/demo");
    assert_eq!(store.0.borrow().registry_writes, 1);
    assert_eq!(manager.get(created.project.project_id).unwrap().project.root_path, created.project.root_path);
    assert!(matches!(manager.create_project("demo"), Err(ProjectError::AlreadyExists(p)) if p == "/tmp/ck/projects/demo"));
}

#[test]
fn failed_uv_run_removes_the_half_created_project() {
    let store = FakeStore::default();
    let mut uv = FakeUv::new(&store);
    uv.fail_sync = true;
    let mut manager = ProjectManager::load("/tmp/ck/projects", "/tmp/ck/state/projects.json", uv, store.clone()).unwrap();
    let error = manager.create_project("demo").unwrap_err();
    assert!(matches!(error, ProjectError::Uv(UvError::CommandFailed { status_code: Some(2), .. })));
    assert!(!store.path_exists("/tmp/ck/projects/demo"));
    assert!(manager.list().is_empty());
    assert_eq!(error.describe(), "uv command failed (sync --project /tmp/ck/projects/demo): resolution failed");
}

#[test]
fn list_orders_projects_by_name() {
    let (mut manager, _store) = manager();
    manager.create_project("zeta").unwrap();
    manager.create_project("alpha").unwrap();
    manager.create_project("mid").unwrap();
    let names: Vec<String> = manager.list().into_iter().map(|r| r.project.name).collect();
    assert_eq!(names, vec!["alpha", "mid", "zeta"]);
}

#[test]
fn unknown_project_is_not_found_with_its_identifier() {
    let (mut manager, _store) = manager();
    let id = ProjectId::new();
    assert!(matches!(manager.get(id), Err(ProjectError::NotFound(t)) if t == id.to_string()));
    assert!(matches!(manager.sync_project(id), Err(ProjectError::NotFound(_))));
    assert!(matches!(manager.remove_from_registry(id), Err(ProjectError::NotFound(_))));
    assert!(matches!(manager.environment_status(id), Err(ProjectError::NotFound(_))));
    let error = manager.get(id).unwrap_err();
    assert_eq!(error.describe(), format!("project does not exist: {id}", id = id.to_string()));
}

#[test]
fn package_lists_must_name_real_packages() {
    assert!(matches!(validate_packages(&[]), Err(ProjectError::EmptyPackageList)));
    assert!(matches!(validate_packages(&["numpy".into(), "  ".into()]), Err(ProjectError::EmptyPackageList)));
    assert!(validate_packages(&["numpy".into(), "pandas".into()]).is_ok());
    let (mut manager, _store) = manager();
    let project = manager.create_project("demo").unwrap();
    assert!(matches!(
        manager.add_packages(project.project.project_id, &[]),
        Err(ProjectError::EmptyPackageList)
    ));
}

#[test]
fn python_interpreter_is_required_to_be_a_file() {
    let (mut manager, store) = manager();
    let project = manager.create_project("demo").unwrap();
    let python = manager.require_python(project.project.project_id).unwrap();
    assert_eq!(python, "/tmp/ck/projects/demo/.venv/bin/python");
    store.0.borrow_mut().files.remove(&python);
    assert!(matches!(
        manager.require_python(project.project.project_id),
        Err(ProjectError::PythonMissing(p)) if p == "/tmp/ck/projects/demo/.venv/bin/python"
    ));
    let status = manager.environment_status(project.project.project_id).unwrap();
    assert!(!status.ready);
    assert!(status.python_executable.is_none());
}

#[test]
fn python_path_is_inside_the_project_environment() {
    assert_eq!(project_python_path("/p/demo"), "/p/demo/.venv/bin/python");
    assert_eq!(project_python_path("/p/demo/"), "/p/demo/.venv/bin/python");
}

#[test]
fn registration_is_confined_to_the_projects_root() {
    let (mut manager, store) = manager();
    store.create_dir_all("/tmp/ck/projects").unwrap();
    store.create_dir_all("/elsewhere/demo").unwrap();
    store.write("/elsewhere/demo/pyproject.toml", b"[project]\n");
    assert!(matches!(
        manager.register_existing("/elsewhere/demo"),
        Err(ProjectError::PathOutsideRoot(p)) if p == "/elsewhere/demo"
    ));

    store.create_dir_all("/tmp/ck/projects/plain").unwrap();
    assert!(matches!(
        manager.register_existing("/tmp/ck/projects/plain"),
        Err(ProjectError::MissingPyproject(_))
    ));

    store.write("/tmp/ck/projects/existing/pyproject.toml", b"[project]\n");
    let registered = manager.register_existing("/tmp/ck/projects/existing").unwrap();
    assert_eq!(registered.project.name, "existing");
    assert_eq!(registered.project.environment_generation, 1);
    let again = manager.register_existing("/tmp/ck/projects/existing").unwrap();
    assert_eq!(again.project.project_id, registered.project.project_id);
    assert_eq!(manager.list().len(), 1);
}

#[test]
fn managed_path_check_compares_whole_components() {
    assert!(check_managed_path("/tmp/ck/projects", "/tmp/ck/projects/demo").is_ok());
    assert!(check_managed_path("/tmp/ck/projects", "/tmp/ck/projects").is_ok());
    assert!(matches!(
        check_managed_path("/tmp/ck/projects", "/tmp/ck/projects-evil/demo"),
        Err(ProjectError::PathOutsideRoot(p)) if p == "/tmp/ck/projects-evil/demo"
    ));
}

#[test]
fn registry_of_another_layout_version_is_refused() {
    let store = FakeStore::default();
    store.write("/tmp/ck/state/projects.json", b"schema 2");
    let uv = FakeUv::new(&store);
    let result = ProjectManager::load("/tmp/ck/projects", "/tmp/ck/state/projects.json", uv, store.clone());
    assert!(matches!(result, Err(ProjectError::InvalidRegistry(m)) if m == "unsupported project registry schema 2"));

    store.write("/tmp/ck/state/projects.json", b"garbage");
    let uv = FakeUv::new(&store);
    let result = ProjectManager::load("/tmp/ck/projects", "/tmp/ck/state/projects.json", uv, store.clone());
    assert!(matches!(result, Err(ProjectError::InvalidRegistry(_))));

    store.write("/tmp/ck/state/projects.json", format!("schema {REGISTRY_SCHEMA_VERSION}").as_bytes());
    let uv = FakeUv::new(&store);
    assert!(ProjectManager::load("/tmp/ck/projects", "/tmp/ck/state/projects.json", uv, store.clone()).is_ok());
    assert_eq!(
        ProjectError::InvalidRegistry("unsupported project registry schema 2".into()).describe(),
        "project registry is invalid JSON: unsupported project registry schema 2"
    );
}

#[test]
fn fingerprint_is_hex_sha256_of_named_length_prefixed_inputs() {
    let pyproject = b"[project]\n".to_vec();
    let mut data = Vec::new();
    data.extend_from_slice(b"pyproject.toml");
    data.push(0);
    data.extend_from_slice(&(pyproject.len() as u64).to_be_bytes());
    data.extend_from_slice(&pyproject);
    data.extend_from_slice(b"uv.lock");
    data.push(0);
    data.extend_from_slice(&0u64.to_be_bytes());
    data.extend_from_slice(b".python-version");
    data.push(0);
    data.extend_from_slice(&0u64.to_be_bytes());
    let expected = format!("{:x}", Sha256::digest(&data));
    let actual = lock_fingerprint(&Some(pyproject), &None, &None);
    assert_eq!(actual, expected);
    assert_eq!(actual.len(), 64);
    assert_eq!(actual, lock_fingerprint(&Some(b"[project]\n".to_vec()), &Some(Vec::new()), &None));
    assert_ne!(actual, lock_fingerprint(&Some(b"[project]\n".to_vec()), &Some(b"x".to_vec()), &None));
}

#[test]
fn projects_of_one_name_keep_their_registration_order() {
    let (mut manager, store) = manager();
    store.write("/tmp/ck/projects/b/demo/pyproject.toml", b"[project]\n");
    store.write("/tmp/ck/projects/a/demo/pyproject.toml", b"[project]\n");
    store.write("/tmp/ck/projects/a/alpha/pyproject.toml", b"[project]\n");
    let first = manager.register_existing("/tmp/ck/projects/b/demo").unwrap();
    let second = manager.register_existing("/tmp/ck/projects/a/demo").unwrap();
    manager.register_existing("/tmp/ck/projects/a/alpha").unwrap();
    let listed = manager.list();
    let roots: Vec<&str> = listed.iter().map(|r| r.project.root_path.as_str()).collect();
    assert_eq!(roots, vec!["/tmp/ck/projects/a/alpha", "/tmp/ck/projects/b/demo", "/tmp/ck/projects/a/demo"]);
    assert_eq!(listed[1].project.project_id, first.project.project_id);
    assert_eq!(listed[2].project.project_id, second.project.project_id);
}

#[test]
fn a_removed_project_is_no_longer_found() {
    let (mut manager, _store) = manager();
    let project = manager.create_project("demo").unwrap();
    let removed = manager.remove_from_registry(project.project.project_id).unwrap();
    assert_eq!(removed.project.project_id, project.project.project_id);
    assert!(matches!(manager.get(project.project.project_id), Err(ProjectError::NotFound(_))));
}

#[test]
fn unreadable_or_lossy_paths_are_reported() {
    let (mut manager, store) = manager();
    assert!(matches!(
        manager.register_existing("/tmp/ck/projects/missing"),
        Err(ProjectError::Io { path, message }) if path == "/tmp/ck/projects/missing" && message == "No such file or directory"
    ));
    store.write("/tmp/ck/projects/caf\u{fffd}/pyproject.toml", b"[project]\n");
    assert!(matches!(
        manager.register_existing("/tmp/ck/projects/caf\u{fffd}"),
        Err(ProjectError::NonUtf8Path(p)) if p == "/tmp/ck/projects/caf\u{fffd}"
    ));
    let io = ProjectError::Io { path: "/x".into(), message: "denied".into() };
    assert_eq!(io.describe(), "filesystem operation failed for /x: denied");
    assert_eq!(ProjectError::EmptyPackageList.describe(), "package operation requires at least one package");
}

fn sample_record(root: &str, generation: u64) -> ProjectRecord {
    ProjectRecord {
        project: Project {
            project_id: ProjectId::new(),
            name: "demo".into(),
            root_path: root.into(),
            environment_generation: generation,
        },
        lock_fingerprint: Some("abc".into()),
    }
}

#[test]
fn store_answers_decide_each_step() {
    assert!(matches!(uv_outcome(Ok(UvCommandResult { status_code: Some(0), stdout: String::new(), stderr: String::new() })), Ok(())));
    match uv_outcome(Err(UvError::Launch { message: "missing".into() })) {
        Err(ProjectError::Uv(UvError::Launch { message })) => assert_eq!(message, "missing"),
        other => panic!("unexpected {other:?}"),
    }
    assert_eq!(existing_root_outcome("/p/demo".into(), false).unwrap(), "/p/demo");
    assert!(matches!(existing_root_outcome("/p/demo".into(), true), Err(ProjectError::AlreadyExists(p)) if p == "/p/demo"));
    let canonical = canonical_outcome("/p/x", Ok(PathText { text: "/real/x".into(), utf8: true })).unwrap();
    assert_eq!(canonical.text, "/real/x");
    assert!(matches!(
        canonical_outcome("/p/x", Err("denied".into())),
        Err(ProjectError::Io { path, message }) if path == "/p/x" && message == "denied"
    ));
    assert_eq!(pyproject_outcome("/p/demo".into(), true).unwrap(), "/p/demo");
    assert!(matches!(pyproject_outcome("/p/demo".into(), false), Err(ProjectError::MissingPyproject(p)) if p == "/p/demo"));
    assert_eq!(python_outcome("/p/demo/.venv/bin/python".into(), true).unwrap(), "/p/demo/.venv/bin/python");
    assert!(matches!(
        python_outcome("/p/demo/.venv/bin/python".into(), false),
        Err(ProjectError::PythonMissing(p)) if p == "/p/demo/.venv/bin/python"
    ));
    assert!(registry_write_outcome(Ok(())).is_ok());
    assert!(matches!(
        registry_write_outcome(Err(RegistryWriteError::Io { path: "/r".into(), message: "full".into() })),
        Err(ProjectError::Io { path, message }) if path == "/r" && message == "full"
    ));
    assert!(matches!(
        registry_write_outcome(Err(RegistryWriteError::Encode("bad".into()))),
        Err(ProjectError::InvalidRegistry(m)) if m == "bad"
    ));
}

#[test]
fn environment_is_ready_only_when_both_files_are_there() {
    let record = sample_record("/p/demo", 3);
    let ready = status_for(&record, true, true);
    assert!(ready.ready);
    assert_eq!(ready.project_id, record.project.project_id);
    assert_eq!(ready.environment_generation, 3);
    assert_eq!(ready.lock_fingerprint.as_deref(), Some("abc"));
    assert_eq!(ready.python_executable, Some(project_python_path("/p/demo")));
    for (pyproject, python) in [(true, false), (false, true), (false, false)] {
        let status = status_for(&record, pyproject, python);
        assert!(!status.ready);
        assert_eq!(status.python_executable, None);
    }
}
