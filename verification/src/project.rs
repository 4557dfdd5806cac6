//! The Project registry: uv Projects under one managed root, their environment
//! generations and the fingerprints of their lock inputs.
use vstd::prelude::*;

use sha2::Digest;

use crate::domain::{Project, ProjectId};
use crate::ids::{hex_digit, hex_digit_exec, uuid_text};
use crate::paths::{components, components_prefix, file_name, join, path_file_name, path_join, path_starts_with, ComponentView};
use crate::text::{all_white, chars_of, concat2, has_control, is_blank, is_control, push_char, str_eq};
use crate::uv::{self, init_args, package_args, project_command_args, uv_error_text, UvCommandResult, UvError, UvInvocation, UvRunner};

verus! {

/// The registry layout this version reads and writes.
pub const REGISTRY_SCHEMA_VERSION: u32 = 1;

/// Why a Project operation was refused or failed.
#[derive(Debug)]
pub enum ProjectError {
    InvalidName(String),
    PathOutsideRoot(String),
    AlreadyExists(String),
    NotFound(String),
    MissingPyproject(String),
    NonUtf8Path(String),
    EmptyPackageList,
    PythonMissing(String),
    Uv(UvError),
    /// A filesystem operation on `path` failed with the system's `message`.
    Io { path: String, message: String },
    /// The registry file is not valid JSON of the expected shape, or was
    /// written by another layout version.
    InvalidRegistry(String),
}

/// The message of a Project error.
pub open spec fn project_error_text(e: ProjectError) -> Seq<char> {
    match e {
        ProjectError::InvalidName(s) => "project name is invalid: "@ + s@,
        ProjectError::PathOutsideRoot(s) => "project path escapes the managed projects root: "@ + s@,
        ProjectError::AlreadyExists(s) => "project already exists: "@ + s@,
        ProjectError::NotFound(s) => "project does not exist: "@ + s@,
        ProjectError::MissingPyproject(s) => "project is missing pyproject.toml: "@ + s@,
        ProjectError::NonUtf8Path(s) => "project path is not valid UTF-8: "@ + s@,
        ProjectError::EmptyPackageList => "package operation requires at least one package"@,
        ProjectError::PythonMissing(s) => "project environment is not ready; Python executable not found at "@
            + s@,
        ProjectError::Uv(u) => uv_error_text(u),
        ProjectError::Io { path, message } => "filesystem operation failed for "@ + path@ + ": "@
            + message@,
        ProjectError::InvalidRegistry(s) => "project registry is invalid JSON: "@ + s@,
    }
}

impl ProjectError {
    /// The message of the error.
    pub fn describe(&self) -> (r: String)
        ensures
            r@ == project_error_text(*self),
    {
        match self {
            ProjectError::InvalidName(s) => concat2("project name is invalid: ", s.as_str()),
            ProjectError::PathOutsideRoot(s) => concat2(
                "project path escapes the managed projects root: ",
                s.as_str(),
            ),
            ProjectError::AlreadyExists(s) => concat2("project already exists: ", s.as_str()),
            ProjectError::NotFound(s) => concat2("project does not exist: ", s.as_str()),
            ProjectError::MissingPyproject(s) => concat2(
                "project is missing pyproject.toml: ",
                s.as_str(),
            ),
            ProjectError::NonUtf8Path(s) => concat2("project path is not valid UTF-8: ", s.as_str()),
            ProjectError::EmptyPackageList => crate::text::string_of(
                "package operation requires at least one package",
            ),
            ProjectError::PythonMissing(s) => concat2(
                "project environment is not ready; Python executable not found at ",
                s.as_str(),
            ),
            ProjectError::Uv(u) => u.describe(),
            ProjectError::Io { path, message } => {
                let mut r = concat2("filesystem operation failed for ", path.as_str());
                crate::text::append_text(&mut r, ": ");
                crate::text::append_text(&mut r, message.as_str());
                r
            },
            ProjectError::InvalidRegistry(s) => concat2(
                "project registry is invalid JSON: ",
                s.as_str(),
            ),
        }
    }
}

/// A registered Project and the fingerprint of its lock inputs when it was last synchronized.
#[derive(Debug)]
pub struct ProjectRecord {
    pub project: Project,
    pub lock_fingerprint: Option<String>,
}

/// The model of a registered Project.
pub struct RecordView {
    pub id: u128,
    pub name: Seq<char>,
    pub root: Seq<char>,
    pub generation: u64,
    pub fingerprint: Option<Seq<char>>,
}

pub open spec fn opt_view(s: Option<String>) -> Option<Seq<char>> {
    match s {
        Some(v) => Some(v@),
        None => None,
    }
}

impl View for ProjectRecord {
    type V = RecordView;

    open spec fn view(&self) -> RecordView {
        RecordView {
            id: self.project.project_id.0,
            name: self.project.name@,
            root: self.project.root_path@,
            generation: self.project.environment_generation,
            fingerprint: opt_view(self.lock_fingerprint),
        }
    }
}

fn clone_opt(s: &Option<String>) -> (r: Option<String>)
    ensures
        r == *s,
{
    match s {
        Some(v) => Some(v.clone()),
        None => None,
    }
}

impl Clone for ProjectRecord {
    fn clone(&self) -> (r: Self)
        ensures
            r == *self,
    {
        ProjectRecord { project: self.project.clone(), lock_fingerprint: clone_opt(&self.lock_fingerprint) }
    }
}

/// What the Runtime reports of a Project's environment.
#[derive(Debug)]
pub struct ProjectEnvironmentStatus {
    pub project_id: ProjectId,
    pub environment_generation: u64,
    pub lock_fingerprint: Option<String>,
    pub python_executable: Option<String>,
    pub ready: bool,
}

/// The registry as stored: its layout version and the records in insertion order.
#[derive(Debug)]
pub struct RegistryFile {
    pub schema_version: u32,
    pub projects: Vec<ProjectRecord>,
}

/// A valid Project name: a single normal path component with no control character.
pub open spec fn name_ok(name: Seq<char>) -> bool {
    &&& name.len() > 0
    &&& name != "."@
    &&& name != ".."@
    &&& components(name).len() == 1
    &&& components(name)[0] is Normal
    &&& !(exists|i: int| 0 <= i < name.len() && is_control(#[trigger] name[i]))
}

/// A name whose single component is normal does not begin with a separator.
proof fn lemma_normal_name_relative(name: Seq<char>)
    requires
        name.len() > 0,
        components(name).len() == 1,
        components(name)[0] is Normal,
    ensures
        name[0] != '/',
{
}

/// Checks a Project name: it must be one normal path component, neither `.`
/// nor `..`, and free of control characters.
pub fn validate_project_name(name: &str) -> (r: Result<(), ProjectError>)
    ensures
        name_ok(name@) ==> r is Ok,
        !name_ok(name@) ==> (match r {
            Err(ProjectError::InvalidName(s)) => s@ == name@,
            _ => false,
        }),
{
    proof {
        reveal_strlit(".");
        reveal_strlit("..");
    }
    if str_eq(name, "") || str_eq(name, ".") || str_eq(name, "..") {
        proof {
            reveal_strlit("");
        }
        return Err(ProjectError::InvalidName(name.to_owned()));
    }
    let cs = crate::paths::path_components(name);
    let single = cs.len() == 1 && match &cs[0] {
        crate::paths::PathComponent::Normal(_) => true,
        _ => false,
    };
    if !single {
        return Err(ProjectError::InvalidName(name.to_owned()));
    }
    if has_control(name) {
        return Err(ProjectError::InvalidName(name.to_owned()));
    }
    Ok(())
}

/// Whether the package list names at least one package and none is blank.
pub open spec fn packages_ok(packages: Seq<Seq<char>>) -> bool {
    packages.len() > 0 && forall|i: int| 0 <= i < packages.len() ==> !all_white(#[trigger] packages[i])
}

/// Refuses an empty package list or a blank package name.
pub fn validate_packages(packages: &[String]) -> (r: Result<(), ProjectError>)
    ensures
        packages_ok(packages@.map_values(|p: String| p@)) ==> r is Ok,
        !packages_ok(packages@.map_values(|p: String| p@)) ==> r matches Err(
            ProjectError::EmptyPackageList,
        ),
{
    if packages.len() == 0 {
        return Err(ProjectError::EmptyPackageList);
    }
    let ghost pv = packages@.map_values(|p: String| p@);
    let mut i: usize = 0;
    while i < packages.len()
        invariant
            i <= packages.len(),
            pv == packages@.map_values(|p: String| p@),
            forall|k: int| 0 <= k < i ==> !all_white(#[trigger] pv[k]),
        decreases packages.len() - i,
    {
        if is_blank(packages[i].as_str()) {
            assert(all_white(pv[i as int]));
            return Err(ProjectError::EmptyPackageList);
        }
        i += 1;
    }
    Ok(())
}

/// Where a Project's environment keeps its Python interpreter.
pub open spec fn python_path(project_root: Seq<char>) -> Seq<char> {
    join(join(join(project_root, ".venv"@), "bin"@), "python"@)
}

/// The Python interpreter of the Project at `project_root`.
pub fn project_python_path(project_root: &str) -> (r: String)
    ensures
        r@ == python_path(project_root@),
{
    proof {
        reveal_strlit(".venv");
        reveal_strlit("bin");
        reveal_strlit("python");
    }
    let venv = path_join(project_root, ".venv");
    let bin = path_join(venv.as_str(), "bin");
    path_join(bin.as_str(), "python")
}

/// The eight big-endian bytes of `n`.
pub open spec fn u64_be(n: u64) -> Seq<u8> {
    seq![
        (n / 0x100000000000000) as u8,
        ((n / 0x1000000000000) % 256) as u8,
        ((n / 0x10000000000) % 256) as u8,
        ((n / 0x100000000) % 256) as u8,
        ((n / 0x1000000) % 256) as u8,
        ((n / 0x10000) % 256) as u8,
        ((n / 0x100) % 256) as u8,
        (n % 256) as u8,
    ]
}

fn u64_be_exec(n: u64) -> (r: Vec<u8>)
    ensures
        r@ == u64_be(n),
{
    let r = vec![
        (n / 0x100000000000000) as u8,
        ((n / 0x1000000000000) % 256) as u8,
        ((n / 0x10000000000) % 256) as u8,
        ((n / 0x100000000) % 256) as u8,
        ((n / 0x1000000) % 256) as u8,
        ((n / 0x10000) % 256) as u8,
        ((n / 0x100) % 256) as u8,
        (n % 256) as u8,
    ];
    assert(r@ =~= u64_be(n));
    r
}

/// The bytes of an ASCII text.
pub open spec fn ascii_bytes(s: Seq<char>) -> Seq<u8> {
    s.map_values(|c: char| c as u8)
}

fn ascii_bytes_exec(s: &str) -> (r: Vec<u8>)
    requires
        forall|i: int| 0 <= i < s@.len() ==> (#[trigger] s@[i] as u32) < 128,
    ensures
        r@ == ascii_bytes(s@),
{
    let chars = chars_of(s);
    let mut out: Vec<u8> = Vec::new();
    let mut i: usize = 0;
    while i < chars.len()
        invariant
            chars@ == s@,
            i <= chars.len(),
            out@ == ascii_bytes(s@).take(i as int),
        decreases chars.len() - i,
    {
        out.push(chars[i] as u8);
        assert(ascii_bytes(s@).take(i + 1) =~= ascii_bytes(s@).take(i as int).push(chars@[i as int] as u8));
        i += 1;
    }
    assert(ascii_bytes(s@).take(chars.len() as int) =~= ascii_bytes(s@));
    out
}

/// The files whose contents make up a Project's lock fingerprint, in digest order.
pub open spec fn lock_input_names() -> Seq<Seq<char>> {
    seq!["pyproject.toml"@, "uv.lock"@, ".python-version"@]
}

/// The digest input for one lock input file: its name, a zero byte, then its
/// length as eight big-endian bytes and its bytes, or eight zero bytes when the
/// file is absent.
pub open spec fn lock_input_part(name: Seq<char>, content: Option<Seq<u8>>) -> Seq<u8> {
    ascii_bytes(name) + seq![0u8] + match content {
        Some(b) => u64_be(b.len() as u64) + b,
        None => u64_be(0),
    }
}

/// The whole digest input of a Project's lock fingerprint.
pub open spec fn lock_input(contents: Seq<Option<Seq<u8>>>) -> Seq<u8> {
    lock_input_part(lock_input_names()[0], contents[0]) + lock_input_part(
        lock_input_names()[1],
        contents[1],
    ) + lock_input_part(lock_input_names()[2], contents[2])
}

/// What SHA-256 makes of a byte sequence.
pub uninterp spec fn sha256(data: Seq<u8>) -> Seq<u8>;

/// The SHA-256 digest of `data`; the wrapped call is `sha2::Sha256::digest`.
/// Its result is named by `sha256`; it has the 32 bytes that SHA-256 gives.
#[verifier::external_body]
fn sha256_digest(data: &[u8]) -> (r: Vec<u8>)
    ensures
        r@ == sha256(data@),
        r@.len() == 32,
{
    sha2::Sha256::digest(data).to_vec()
}

/// Bytes written as lowercase hexadecimal, two digits each, as `{:x}` writes a digest.
pub open spec fn hex_lower(bytes: Seq<u8>) -> Seq<char>
    decreases bytes.len(),
{
    if bytes.len() == 0 {
        Seq::empty()
    } else {
        hex_lower(bytes.drop_last()) + seq![
            hex_digit((bytes.last() / 16) as nat),
            hex_digit((bytes.last() % 16) as nat),
        ]
    }
}

fn hex_lower_exec(bytes: &Vec<u8>) -> (r: String)
    ensures
        r@ == hex_lower(bytes@),
{
    let mut out = String::new();
    let mut i: usize = 0;
    assert(bytes@.take(0) =~= Seq::<u8>::empty());
    while i < bytes.len()
        invariant
            i <= bytes.len(),
            out@ == hex_lower(bytes@.take(i as int)),
        decreases bytes.len() - i,
    {
        let b = bytes[i];
        push_char(&mut out, hex_digit_exec(b / 16));
        push_char(&mut out, hex_digit_exec(b % 16));
        proof {
            let t = bytes@.take(i + 1);
            assert(t.drop_last() =~= bytes@.take(i as int));
            assert(t.last() == b);
            assert(out@ =~= hex_lower(t));
        }
        i += 1;
    }
    assert(bytes@.take(bytes.len() as int) =~= bytes@);
    out
}

/// A lock fingerprint: the lowercase hex SHA-256 of the lock inputs.
pub open spec fn fingerprint_text(contents: Seq<Option<Seq<u8>>>) -> Seq<char> {
    hex_lower(sha256(lock_input(contents)))
}

pub open spec fn opt_bytes(c: Option<Vec<u8>>) -> Option<Seq<u8>> {
    match c {
        Some(b) => Some(b@),
        None => None,
    }
}

fn append_bytes(out: &mut Vec<u8>, b: &[u8])
    ensures
        final(out)@ == old(out)@ + b@,
{
    let ghost start = out@;
    let mut i: usize = 0;
    while i < b.len()
        invariant
            i <= b.len(),
            out@ == start + b@.take(i as int),
        decreases b.len() - i,
    {
        out.push(b[i]);
        assert(b@.take(i + 1) =~= b@.take(i as int).push(b@[i as int]));
        assert(out@ =~= start + b@.take(i + 1));
        i += 1;
    }
    assert(b@.take(b.len() as int) =~= b@);
}

fn append_lock_input_part(out: &mut Vec<u8>, name: &str, content: &Option<Vec<u8>>)
    requires
        forall|i: int| 0 <= i < name@.len() ==> (#[trigger] name@[i] as u32) < 128,
    ensures
        final(out)@ == old(out)@ + lock_input_part(name@, opt_bytes(*content)),
{
    let name_bytes = ascii_bytes_exec(name);
    append_bytes(out, name_bytes.as_slice());
    out.push(0u8);
    match content {
        Some(b) => {
            let len = u64_be_exec(b.len() as u64);
            append_bytes(out, len.as_slice());
            append_bytes(out, b.as_slice());
        },
        None => {
            let len = u64_be_exec(0);
            append_bytes(out, len.as_slice());
        },
    }
    assert(final(out)@ =~= old(out)@ + lock_input_part(name@, opt_bytes(*content)));
}

/// The lock fingerprint of the lock inputs' contents, `None` for an absent file:
/// the lowercase hex SHA-256 of `lock_input`.
pub fn lock_fingerprint(
    pyproject: &Option<Vec<u8>>,
    lock: &Option<Vec<u8>>,
    python_version: &Option<Vec<u8>>,
) -> (r: String)
    ensures
        r@ == fingerprint_text(seq![opt_bytes(*pyproject), opt_bytes(*lock), opt_bytes(*python_version)]),
{
    proof {
        reveal_strlit("pyproject.toml");
        reveal_strlit("uv.lock");
        reveal_strlit(".python-version");
    }
    let mut data: Vec<u8> = Vec::new();
    append_lock_input_part(&mut data, "pyproject.toml", pyproject);
    append_lock_input_part(&mut data, "uv.lock", lock);
    append_lock_input_part(&mut data, ".python-version", python_version);
    let ghost contents = seq![opt_bytes(*pyproject), opt_bytes(*lock), opt_bytes(*python_version)];
    assert(data@ =~= lock_input(contents));
    let digest = sha256_digest(data.as_slice());
    hex_lower_exec(&digest)
}

/// A canonical path as the filesystem reports it: its text (lossy where the
/// path is not UTF-8) and whether that text is exact.
#[derive(Debug)]
pub struct PathText {
    pub text: String,
    pub utf8: bool,
}

/// The filesystem and registry encoding that the manager works through.
/// Implementations decide how; the manager is correct whatever they answer.
pub trait ProjectStore {
    /// Creates a directory and its missing parents; on failure, the system's message.
    fn create_dir_all(&self, path: &str) -> Result<(), String>;

    /// Whether anything exists at `path`.
    fn path_exists(&self, path: &str) -> bool;

    /// Whether `path` is a regular file.
    fn is_file(&self, path: &str) -> bool;

    /// The bytes of the file at `path`; on failure, the system's message.
    fn read(&self, path: &str) -> Result<Vec<u8>, String>;

    /// Removes a directory tree, ignoring failure.
    fn remove_dir_all(&self, path: &str);

    /// The absolute path with links resolved; on failure, the system's message.
    fn canonicalize(&self, path: &str) -> Result<PathText, String>;

    /// Decodes a stored registry; on failure, the decoder's message.
    fn decode_registry(&self, bytes: &[u8]) -> Result<RegistryFile, String>;

    /// Stores the registry at `registry_path`, replacing it as a whole.
    fn write_registry(&self, registry_path: &str, registry: &RegistryFile) -> Result<(), RegistryWriteError>;
}

/// Why the registry could not be stored.
#[derive(Debug)]
pub enum RegistryWriteError {
    /// A filesystem operation on `path` failed with the system's `message`.
    Io { path: String, message: String },
    /// The registry could not be encoded.
    Encode(String),
}

/// No record of `records` has the identifier.
pub open spec fn absent(records: Seq<RecordView>, id: u128) -> bool {
    forall|j: int| 0 <= j < records.len() ==> (#[trigger] records[j]).id != id
}

/// `i` is the first record with the identifier.
pub open spec fn first_with_id(records: Seq<RecordView>, i: int, id: u128) -> bool {
    &&& 0 <= i < records.len()
    &&& records[i].id == id
    &&& forall|j: int| 0 <= j < i ==> (#[trigger] records[j]).id != id
}

/// The first record with the identifier is unique.
pub proof fn lemma_first_unique(records: Seq<RecordView>, i: int, k: int, id: u128)
    requires
        first_with_id(records, i, id),
        first_with_id(records, k, id),
    ensures
        i == k,
{
    if i < k {
        assert(records[i].id != id);
    } else if k < i {
        assert(records[k].id != id);
    }
}

/// Some record has the identifier, so a first one does.
pub proof fn lemma_first_exists(records: Seq<RecordView>, id: u128)
    requires
        !absent(records, id),
    ensures
        exists|i: int| first_with_id(records, i, id),
    decreases records.len(),
{
    if records[0].id == id {
        assert(first_with_id(records, 0, id));
    } else {
        let rest = records.skip(1);
        let j = choose|j: int| 0 <= j < records.len() && (#[trigger] records[j]).id == id;
        assert(rest[j - 1].id == id);
        lemma_first_exists(rest, id);
        let k = choose|k: int| first_with_id(rest, k, id);
        assert forall|m: int| 0 <= m < k + 1 implies (#[trigger] records[m]).id != id by {
            if m > 0 {
                assert(records[m] == rest[m - 1]);
            }
        }
        assert(first_with_id(records, k + 1, id));
    }
}

/// The generation after a change: one more, stopping at the largest value.
pub open spec fn next_generation(g: u64) -> u64 {
    if g == u64::MAX {
        g
    } else {
        (g + 1) as u64
    }
}

/// A record after its lock inputs were fingerprinted anew: unchanged when the
/// fingerprint is the recorded one, else the next generation with the new fingerprint.
pub open spec fn refreshed(r: RecordView, fingerprint: Seq<char>) -> RecordView {
    if r.fingerprint == Some(fingerprint) {
        r
    } else {
        RecordView { generation: next_generation(r.generation), fingerprint: Some(fingerprint), ..r }
    }
}

/// A record freshly made for a Project named `name` at `root`.
pub open spec fn created(r: RecordView, name: Seq<char>, root: Seq<char>) -> bool {
    &&& r.name == name
    &&& r.root == root
    &&& r.generation == 1
    &&& r.fingerprint is Some
}

/// One exchange of the manager with uv or with its store, as the manager saw it.
pub enum Exchange {
    /// uv was run with `args`; `ok` whether it reported success.
    Uv { args: Seq<Seq<char>>, ok: bool },
    /// The store was asked whether anything exists at `path`.
    Exists { path: Seq<char>, answer: bool },
    /// The store was asked whether `path` is a regular file.
    IsFile { path: Seq<char>, answer: bool },
    /// The store was asked for the bytes of the file at `path`: the bytes, or
    /// `None` when the read failed.
    Read { path: Seq<char>, bytes: Option<Seq<u8>> },
    /// The store was asked for the canonical form of `path`: its text and
    /// whether that text is exact, or `None` when it failed.
    Canonical { path: Seq<char>, reply: Option<(Seq<char>, bool)> },
    /// The store was told to remove the directory tree at `path`.
    RemoveDir { path: Seq<char> },
    /// The store was told to write the registry with `records`; `ok` whether it did.
    WriteRegistry { records: Seq<RecordView>, ok: bool },
}

/// What the exchanges of one call added to the log.
pub open spec fn added(before: Seq<Exchange>, after: Seq<Exchange>) -> Seq<Exchange> {
    after.skip(before.len() as int)
}

/// `after` continues `before`.
pub open spec fn extends(before: Seq<Exchange>, after: Seq<Exchange>) -> bool {
    before.len() <= after.len() && after.take(before.len() as int) =~= before
}

/// A log that continues one that continues `a` continues `a`, and what the
/// two spans added is what the whole added.
proof fn lemma_extends_trans(a: Seq<Exchange>, b: Seq<Exchange>, c: Seq<Exchange>)
    requires
        extends(a, b),
        extends(b, c),
    ensures
        extends(a, c),
        added(a, c) == added(a, b) + added(b, c),
{
    assert(c.take(a.len() as int) =~= b.take(a.len() as int));
    assert(added(a, c) =~= added(a, b) + added(b, c));
}

/// Manages the Projects under one root and the registry that lists them.
pub struct ProjectManager<R, S> {
    projects_root: String,
    registry_path: String,
    uv: R,
    store: S,
    registry: RegistryFile,
    log: Ghost<Seq<Exchange>>,
}

impl<R, S> ProjectManager<R, S> {
    /// The registered Projects, in registry order.
    pub closed spec fn records(&self) -> Seq<RecordView> {
        self.registry.projects@.map_values(|r: ProjectRecord| r@)
    }

    /// The directory under which the Projects live.
    pub closed spec fn root_view(&self) -> Seq<char> {
        self.projects_root@
    }

    /// Where the registry is stored.
    pub closed spec fn registry_path_view(&self) -> Seq<char> {
        self.registry_path@
    }

    /// The uv runner the manager was made with.
    pub closed spec fn runner(&self) -> R {
        self.uv
    }

    /// The store the manager was made with.
    pub closed spec fn store_view(&self) -> S {
        self.store
    }

    /// Every uv run, directory removal, registry write and decisive store
    /// question of this manager so far, oldest first.
    pub closed spec fn log(&self) -> Seq<Exchange> {
        self.log@
    }
}

impl<R: UvRunner, S: ProjectStore> ProjectManager<R, S> {
    /// A manager over an empty registry.
    pub fn new(projects_root: &str, registry_path: &str, uv: R, store: S) -> (r: Self)
        ensures
            r.root_view() == projects_root@,
            r.registry_path_view() == registry_path@,
            r.records() == Seq::<RecordView>::empty(),
            r.runner() == uv,
            r.store_view() == store,
            r.log() == Seq::<Exchange>::empty(),
    {
        let r = ProjectManager {
            projects_root: projects_root.to_owned(),
            registry_path: registry_path.to_owned(),
            uv,
            store,
            registry: RegistryFile { schema_version: REGISTRY_SCHEMA_VERSION, projects: Vec::new() },
            log: Ghost(Seq::empty()),
        };
        assert(r.records() =~= Seq::<RecordView>::empty());
        r
    }

    /// A manager over a registry read from storage: refused unless its layout
    /// version is the one this version writes.
    pub fn from_registry(
        projects_root: &str,
        registry_path: &str,
        uv: R,
        store: S,
        registry: RegistryFile,
    ) -> (r: Result<Self, ProjectError>)
        ensures
            registry.schema_version != REGISTRY_SCHEMA_VERSION ==> (match r {
                Err(ProjectError::InvalidRegistry(m)) => m@ == "unsupported project registry schema "@
                    + crate::text::decimal(registry.schema_version as nat),
                _ => false,
            }),
            registry.schema_version == REGISTRY_SCHEMA_VERSION ==> (match r {
                Ok(m) => m.root_view() == projects_root@ && m.registry_path_view() == registry_path@
                    && m.records() == registry.projects@.map_values(|p: ProjectRecord| p@)
                    && m.runner() == uv && m.store_view() == store && m.log() == Seq::<Exchange>::empty(),
                Err(_) => false,
            }),
    {
        if registry.schema_version != REGISTRY_SCHEMA_VERSION {
            let n = crate::text::u64_to_decimal(registry.schema_version as u64);
            return Err(ProjectError::InvalidRegistry(concat2("unsupported project registry schema ", n.as_str())));
        }
        Ok(ProjectManager {
            projects_root: projects_root.to_owned(),
            registry_path: registry_path.to_owned(),
            uv,
            store,
            registry,
            log: Ghost(Seq::empty()),
        })
    }

    /// Opens the manager: creates the projects root, then reads the registry
    /// when one is stored, else starts from an empty one.
    pub fn load(projects_root: &str, registry_path: &str, uv: R, store: S) -> (r: Result<Self, ProjectError>)
        ensures
            r matches Ok(m) ==> m.root_view() == projects_root@ && m.registry_path_view() == registry_path@
                && m.runner() == uv && m.store_view() == store && m.log() == Seq::<Exchange>::empty(),
            r matches Err(ProjectError::Io { path, .. }) ==> path@ == projects_root@ || path@ == registry_path@,
            r matches Err(e) ==> e is Io || e is InvalidRegistry,
    {
        if let Err(message) = store.create_dir_all(projects_root) {
            return Err(ProjectError::Io { path: projects_root.to_owned(), message });
        }
        if store.path_exists(registry_path) {
            let bytes = match store.read(registry_path) {
                Ok(b) => b,
                Err(message) => {
                    return Err(ProjectError::Io { path: registry_path.to_owned(), message });
                },
            };
            let parsed = match store.decode_registry(bytes.as_slice()) {
                Ok(p) => p,
                Err(message) => {
                    return Err(ProjectError::InvalidRegistry(message));
                },
            };
            Self::from_registry(projects_root, registry_path, uv, store, parsed)
        } else {
            Ok(Self::new(projects_root, registry_path, uv, store))
        }
    }

    /// The directory under which the Projects live.
    pub fn projects_root(&self) -> (r: &str)
        ensures
            r@ == self.root_view(),
    {
        self.projects_root.as_str()
    }

    /// The uv runner the manager uses.
    pub fn uv_runner(&self) -> (r: &R)
        ensures
            *r == self.runner(),
    {
        &self.uv
    }

    /// The store the manager uses.
    pub fn store(&self) -> (r: &S)
        ensures
            *r == self.store_view(),
    {
        &self.store
    }

    fn find_index(&self, project_id: ProjectId) -> (r: Option<usize>)
        ensures
            r is None ==> absent(self.records(), project_id.0),
            r matches Some(i) ==> first_with_id(self.records(), i as int, project_id.0),
    {
        let mut i: usize = 0;
        while i < self.registry.projects.len()
            invariant
                i <= self.registry.projects.len(),
                forall|j: int| 0 <= j < i ==> (#[trigger] self.records()[j]).id != project_id.0,
            decreases self.registry.projects.len() - i,
        {
            if self.registry.projects[i].project.project_id.0 == project_id.0 {
                return Some(i);
            }
            i += 1;
        }
        None
    }

    /// The record of a Project.
    pub fn get(&self, project_id: ProjectId) -> (r: Result<ProjectRecord, ProjectError>)
        ensures
            absent(self.records(), project_id.0) ==> (match r {
                Err(ProjectError::NotFound(t)) => t@ == uuid_text(project_id.0),
                _ => false,
            }),
            !absent(self.records(), project_id.0) ==> (match r {
                Ok(rec) => exists|i: int| first_with_id(self.records(), i, project_id.0) && rec@ == self.records()[i],
                Err(_) => false,
            }),
    {
        match self.find_index(project_id) {
            Some(i) => Ok(self.registry.projects[i].clone()),
            None => Err(ProjectError::NotFound(project_id.to_string())),
        }
    }

    /// The root directory of a registered Project.
    fn project_root(&self, project_id: ProjectId) -> (r: Result<String, ProjectError>)
        ensures
            absent(self.records(), project_id.0) ==> (match r {
                Err(ProjectError::NotFound(t)) => t@ == uuid_text(project_id.0),
                _ => false,
            }),
            !absent(self.records(), project_id.0) ==> (match r {
                Ok(root) => exists|i: int| first_with_id(self.records(), i, project_id.0) && root@ == self.records()[i].root,
                Err(_) => false,
            }),
    {
        match self.find_index(project_id) {
            Some(i) => Ok(self.registry.projects[i].project.root_path.clone()),
            None => Err(ProjectError::NotFound(project_id.to_string())),
        }
    }

    /// Records a new fingerprint of a Project's lock inputs: the generation
    /// moves on only when the fingerprint differs from the recorded one.
    pub fn record_fingerprint(&mut self, project_id: ProjectId, fingerprint: String) -> (r: Result<ProjectRecord, ProjectError>)
        ensures
            final(self).root_view() == old(self).root_view(),
            final(self).registry_path_view() == old(self).registry_path_view(),
            final(self).runner() == old(self).runner(),
            final(self).store_view() == old(self).store_view(),
            final(self).log() == old(self).log(),
            absent(old(self).records(), project_id.0) ==> final(self).records() == old(self).records() && (match r {
                Err(ProjectError::NotFound(t)) => t@ == uuid_text(project_id.0),
                _ => false,
            }),
            forall|i: int| first_with_id(old(self).records(), i, project_id.0) ==> {
                &&& final(self).records() == old(self).records().update(i, refreshed(old(self).records()[i], fingerprint@))
                &&& r matches Ok(rec) && rec@ == refreshed(old(self).records()[i], fingerprint@)
            },
    {
        let i = match self.find_index(project_id) {
            Some(i) => i,
            None => {
                return Err(ProjectError::NotFound(project_id.to_string()));
            },
        };
        let ghost old_records = self.records();
        let mut record = self.registry.projects[i].clone();
        let same = match &record.lock_fingerprint {
            Some(f) => str_eq(f.as_str(), fingerprint.as_str()),
            None => false,
        };
        if !same {
            record.project.environment_generation = if record.project.environment_generation == u64::MAX {
                u64::MAX
            } else {
                record.project.environment_generation + 1
            };
            record.lock_fingerprint = Some(fingerprint);
        }
        let ghost fp = fingerprint@;
        assert(record@ == refreshed(old_records[i as int], fp));
        let updated = record.clone();
        self.registry.projects[i] = record;
        proof {
            assert(self.records() =~= old_records.update(i as int, refreshed(old_records[i as int], fp)));
            assert forall|k: int| first_with_id(old_records, k, project_id.0) implies k == i by {
                lemma_first_unique(old_records, k, i as int, project_id.0);
            }
        }
        Ok(updated)
    }

    /// Runs uv and logs the run.
    fn run_uv(&mut self, invocation: &UvInvocation) -> (r: Result<UvCommandResult, UvError>)
        ensures
            final(self).log() == old(self).log().push(Exchange::Uv { args: invocation@, ok: r is Ok }),
            final(self).records() == old(self).records(),
            final(self).root_view() == old(self).root_view(),
            final(self).registry_path_view() == old(self).registry_path_view(),
            final(self).runner() == old(self).runner(),
            final(self).store_view() == old(self).store_view(),
    {
        let r = self.uv.run(invocation);
        self.log = Ghost(self.log@.push(Exchange::Uv { args: invocation@, ok: r is Ok }));
        r
    }

    /// Asks the store whether anything exists at `path`, and logs the answer.
    fn ask_exists(&mut self, path: &str) -> (r: bool)
        ensures
            final(self).log() == old(self).log().push(Exchange::Exists { path: path@, answer: r }),
            final(self).records() == old(self).records(),
            final(self).root_view() == old(self).root_view(),
            final(self).registry_path_view() == old(self).registry_path_view(),
            final(self).runner() == old(self).runner(),
            final(self).store_view() == old(self).store_view(),
    {
        let r = self.store.path_exists(path);
        self.log = Ghost(self.log@.push(Exchange::Exists { path: path@, answer: r }));
        r
    }

    /// Asks the store whether `path` is a regular file, and logs the answer.
    fn ask_is_file(&mut self, path: &str) -> (r: bool)
        ensures
            final(self).log() == old(self).log().push(Exchange::IsFile { path: path@, answer: r }),
            final(self).records() == old(self).records(),
            final(self).root_view() == old(self).root_view(),
            final(self).registry_path_view() == old(self).registry_path_view(),
            final(self).runner() == old(self).runner(),
            final(self).store_view() == old(self).store_view(),
    {
        let r = self.store.is_file(path);
        self.log = Ghost(self.log@.push(Exchange::IsFile { path: path@, answer: r }));
        r
    }

    /// Asks the store for the bytes of the file at `path`, and logs the answer.
    fn ask_read(&mut self, path: &str) -> (r: Result<Vec<u8>, String>)
        ensures
            final(self).log() == old(self).log().push(Exchange::Read { path: path@, bytes: read_answer(r) }),
            final(self).records() == old(self).records(),
            final(self).root_view() == old(self).root_view(),
            final(self).registry_path_view() == old(self).registry_path_view(),
            final(self).runner() == old(self).runner(),
            final(self).store_view() == old(self).store_view(),
    {
        let r = self.store.read(path);
        self.log = Ghost(self.log@.push(Exchange::Read { path: path@, bytes: read_answer(r) }));
        r
    }

    /// The lock input `name` of the Project at `root`: its bytes, or `None`
    /// when it is not a file; each store question is logged.
    fn read_lock_input(&mut self, root: &str, name: &str) -> (r: Result<Option<Vec<u8>>, ProjectError>)
        requires
            name@.len() > 0,
            name@[0] != '/',
        ensures
            extends(old(self).log(), final(self).log()),
            input_read(join(root@, name@), added(old(self).log(), final(self).log())) == Some(
                (added(old(self).log(), final(self).log()).len() as int, read_content(r)),
            ),
            r matches Err(ProjectError::Io { path, .. }) ==> path@ == join(root@, name@),
            r matches Err(e) ==> e is Io,
            final(self).records() == old(self).records(),
            final(self).root_view() == old(self).root_view(),
            final(self).registry_path_view() == old(self).registry_path_view(),
            final(self).runner() == old(self).runner(),
            final(self).store_view() == old(self).store_view(),
    {
        let ghost log0 = self.log();
        let path = path_join(root, name);
        let found = self.ask_is_file(path.as_str());
        if !found {
            assert(added(log0, self.log()) =~= seq![Exchange::IsFile { path: path@, answer: false }]);
            return Ok(None);
        }
        let read = self.ask_read(path.as_str());
        let ghost e1 = Exchange::Read { path: path@, bytes: read_answer(read) };
        assert(added(log0, self.log()) =~= seq![Exchange::IsFile { path: path@, answer: true }, e1]);
        match read {
            Ok(bytes) => Ok(Some(bytes)),
            Err(message) => Err(ProjectError::Io { path, message }),
        }
    }

    /// Asks the store for the canonical form of `path`, and logs the answer.
    fn ask_canonical(&mut self, path: &str) -> (r: Result<PathText, String>)
        ensures
            final(self).log() == old(self).log().push(
                Exchange::Canonical { path: path@, reply: canonical_answer(r) },
            ),
            final(self).records() == old(self).records(),
            final(self).root_view() == old(self).root_view(),
            final(self).registry_path_view() == old(self).registry_path_view(),
            final(self).runner() == old(self).runner(),
            final(self).store_view() == old(self).store_view(),
    {
        let r = self.store.canonicalize(path);
        self.log = Ghost(self.log@.push(Exchange::Canonical { path: path@, reply: canonical_answer(r) }));
        r
    }

    /// Tells the store to remove the directory tree at `path`, and logs it.
    fn remove_tree(&mut self, path: &str)
        ensures
            final(self).log() == old(self).log().push(Exchange::RemoveDir { path: path@ }),
            final(self).records() == old(self).records(),
            final(self).root_view() == old(self).root_view(),
            final(self).registry_path_view() == old(self).registry_path_view(),
            final(self).runner() == old(self).runner(),
            final(self).store_view() == old(self).store_view(),
    {
        self.store.remove_dir_all(path);
        self.log = Ghost(self.log@.push(Exchange::RemoveDir { path: path@ }));
    }

    /// Stores the registry, and logs the write.
    fn save_registry(&mut self) -> (r: Result<(), ProjectError>)
        ensures
            final(self).log() == old(self).log().push(
                Exchange::WriteRegistry { records: old(self).records(), ok: r is Ok },
            ),
            final(self).records() == old(self).records(),
            final(self).root_view() == old(self).root_view(),
            final(self).registry_path_view() == old(self).registry_path_view(),
            final(self).runner() == old(self).runner(),
            final(self).store_view() == old(self).store_view(),
            r matches Err(e) ==> e is Io || e is InvalidRegistry,
    {
        let written = self.store.write_registry(self.registry_path.as_str(), &self.registry);
        let r = registry_write_outcome(written);
        self.log = Ghost(self.log@.push(Exchange::WriteRegistry { records: self.records(), ok: r is Ok }));
        r
    }

    /// The lock fingerprint of the Project at `root`, read from the store;
    /// each store question is logged.
    fn read_fingerprint(&mut self, root: &str) -> (r: Result<String, ProjectError>)
        ensures
            extends(old(self).log(), final(self).log()),
            fingerprint_read(root@, added(old(self).log(), final(self).log()), r),
            final(self).records() == old(self).records(),
            final(self).root_view() == old(self).root_view(),
            final(self).registry_path_view() == old(self).registry_path_view(),
            final(self).runner() == old(self).runner(),
            final(self).store_view() == old(self).store_view(),
    {
        proof {
            reveal_strlit("pyproject.toml");
            reveal_strlit("uv.lock");
            reveal_strlit(".python-version");
        }
        let ghost log0 = self.log();
        let ghost p0 = join(root@, lock_input_names()[0]);
        let ghost p1 = join(root@, lock_input_names()[1]);
        let ghost p2 = join(root@, lock_input_names()[2]);
        let a = self.read_lock_input(root, "pyproject.toml");
        let ghost log1 = self.log();
        let ghost a0 = added(log0, log1);
        let a = match a {
            Ok(a) => a,
            Err(e) => {
                assert(input_read(p0, a0) == Some((a0.len() as int, None::<Option<Seq<u8>>>)));
                return Err(e);
            },
        };
        let b = self.read_lock_input(root, "uv.lock");
        let ghost log2 = self.log();
        let ghost a1 = added(log1, log2);
        proof {
            lemma_input_read_prefix(p0, a0, a1);
            assert(added(log0, log2) =~= a0 + a1);
            assert((a0 + a1).skip(a0.len() as int) =~= a1);
        }
        let b = match b {
            Ok(b) => b,
            Err(e) => {
                return Err(e);
            },
        };
        let c = self.read_lock_input(root, ".python-version");
        let ghost log3 = self.log();
        let ghost a2 = added(log2, log3);
        proof {
            lemma_input_read_prefix(p0, a0, a1 + a2);
            lemma_input_read_prefix(p1, a1, a2);
            assert(added(log0, log3) =~= a0 + (a1 + a2));
            assert((a0 + (a1 + a2)).skip(a0.len() as int) =~= a1 + a2);
            assert((a0 + (a1 + a2)).skip((a0.len() + a1.len()) as int) =~= a2);
        }
        let c = match c {
            Ok(c) => c,
            Err(e) => {
                return Err(e);
            },
        };
        let f = lock_fingerprint(&a, &b, &c);
        Ok(f)
    }

    /// Creates a Project named `name` under the projects root: `uv init`, then
    /// `uv sync`; a failed uv run removes what it left behind. The new record
    /// starts at generation 1 with the fingerprint of the new lock inputs.
    #[verifier::rlimit(30)]
    pub fn create_project(&mut self, name: &str) -> (r: Result<ProjectRecord, ProjectError>)
        ensures
            final(self).root_view() == old(self).root_view(),
            final(self).registry_path_view() == old(self).registry_path_view(),
            final(self).runner() == old(self).runner(),
            final(self).store_view() == old(self).store_view(),
            extends(old(self).log(), final(self).log()),
            create_steps(
                old(self).root_view(),
                name@,
                old(self).records(),
                final(self).records(),
                added(old(self).log(), final(self).log()),
                r,
            ),
            !name_ok(name@) ==> final(self).records() == old(self).records() && (match r {
                Err(ProjectError::InvalidName(n)) => n@ == name@,
                _ => false,
            }),
            r matches Ok(rec) ==> name_ok(name@) && created(rec@, name@, join(old(self).root_view(), name@))
                && final(self).records() == old(self).records().push(rec@),
            r is Err ==> final(self).records() == old(self).records() || (final(self).records().len()
                == old(self).records().len() + 1 && final(self).records().drop_last() == old(self).records()
                && created(final(self).records().last(), name@, join(old(self).root_view(), name@))),
    {
        let ghost log0 = self.log();
        let ghost before = self.records();
        let ghost root0 = self.root_view();
        if let Err(e) = validate_project_name(name) {
            assert(added(log0, self.log()) =~= Seq::<Exchange>::empty());
            return Err(e);
        }
        proof {
            lemma_normal_name_relative(name@);
        }
        let project_root = path_join(self.projects_root.as_str(), name);
        let ghost p = project_root@;
        let exists = self.ask_exists(project_root.as_str());
        let project_root = match existing_root_outcome(project_root, exists) {
            Ok(root) => root,
            Err(e) => {
                assert(added(log0, self.log()) =~= seq![Exchange::Exists { path: p, answer: true }]);
                return Err(e);
            },
        };
        let ran = self.run_uv(&uv::init_project(project_root.as_str(), name));
        if let Err(e) = uv_outcome(ran) {
            self.remove_tree(project_root.as_str());
            assert(added(log0, self.log()) =~= seq![
                Exchange::Exists { path: p, answer: false },
                Exchange::Uv { args: init_args(p, name@), ok: false },
                Exchange::RemoveDir { path: p },
            ]);
            return Err(e);
        }
        let ran = self.run_uv(&uv::sync_project(project_root.as_str()));
        if let Err(e) = uv_outcome(ran) {
            self.remove_tree(project_root.as_str());
            assert(added(log0, self.log()) =~= seq![
                Exchange::Exists { path: p, answer: false },
                Exchange::Uv { args: init_args(p, name@), ok: true },
                Exchange::Uv { args: project_command_args(p, "sync"@), ok: false },
                Exchange::RemoveDir { path: p },
            ]);
            return Err(e);
        }
        let ghost made = seq![
            Exchange::Exists { path: p, answer: false },
            Exchange::Uv { args: init_args(p, name@), ok: true },
            Exchange::Uv { args: project_command_args(p, "sync"@), ok: true },
        ];
        assert(added(log0, self.log()) =~= made);
        let ghost log3 = self.log();
        let read = self.read_fingerprint(project_root.as_str());
        let ghost reads = added(log3, self.log());
        proof {
            lemma_extends_trans(log0, log3, self.log());
        }
        let fingerprint = match read {
            Ok(f) => f,
            Err(x) => {
                let r: Result<ProjectRecord, ProjectError> = Err(x);
                proof {
                    let e = added(log0, self.log());
                    assert(e =~= made + reads);
                    assert(e.take(3) =~= made);
                    assert(e.skip(3) =~= reads);
                    assert(create_steps(root0, name@, before, self.records(), e, r));
                }
                return r;
            },
        };
        let record = ProjectRecord {
            project: Project {
                project_id: ProjectId::new(),
                name: name.to_owned(),
                root_path: project_root,
                environment_generation: 1,
            },
            lock_fingerprint: Some(fingerprint),
        };
        self.registry.projects.push(record.clone());
        assert(self.records() =~= before.push(record@));
        assert(self.records().drop_last() =~= before);
        let saved = self.save_registry();
        let r = match saved {
            Ok(()) => Ok(record),
            Err(e) => Err(e),
        };
        proof {
            let w = Exchange::WriteRegistry { records: self.records(), ok: r is Ok };
            let e = added(log0, self.log());
            assert(e =~= made + reads.push(w));
            assert(e.take(3) =~= made);
            assert(e.skip(3) =~= reads.push(w));
            assert(reads.push(w).drop_last() =~= reads);
            assert(create_steps(root0, name@, before, self.records(), e, r));
        }
        r
    }

    /// Registers a uv Project that already exists under the projects root. A
    /// Project already registered at that root is returned as it is; otherwise
    /// it is synchronized and recorded at generation 1, named after its directory.
    #[verifier::rlimit(40)]
    pub fn register_existing(&mut self, project_root: &str) -> (r: Result<ProjectRecord, ProjectError>)
        ensures
            final(self).root_view() == old(self).root_view(),
            final(self).registry_path_view() == old(self).registry_path_view(),
            final(self).runner() == old(self).runner(),
            final(self).store_view() == old(self).store_view(),
            extends(old(self).log(), final(self).log()),
            register_steps(
                old(self).root_view(),
                project_root@,
                old(self).records(),
                final(self).records(),
                added(old(self).log(), final(self).log()),
                r,
            ),
            r matches Ok(rec) ==> (final(self).records() == old(self).records() && exists|i: int|
                first_with_root(old(self).records(), i, rec@.root) && rec@ == old(self).records()[i])
                || (root_absent(old(self).records(), rec@.root) && registered(rec@)
                && final(self).records() == old(self).records().push(rec@)),
            r is Err ==> final(self).records() == old(self).records() || (final(self).records().len()
                == old(self).records().len() + 1 && final(self).records().drop_last() == old(self).records()
                && registered(final(self).records().last())),
    {
        let ghost log0 = self.log();
        let ghost before = self.records();
        let ghost root = self.root_view();
        let projects_root = self.projects_root.clone();
        let answer = self.ask_canonical(projects_root.as_str());
        let base = match canonical_outcome(projects_root.as_str(), answer) {
            Ok(b) => b,
            Err(e) => {
                assert(added(log0, self.log()) =~= seq![Exchange::Canonical { path: root, reply: None }]);
                return Err(e);
            },
        };
        let ghost e0 = Exchange::Canonical { path: root, reply: Some((base.text@, base.utf8)) };
        let answer = self.ask_canonical(project_root);
        let candidate = match canonical_outcome(project_root, answer) {
            Ok(c) => c,
            Err(e) => {
                assert(added(log0, self.log()) =~= seq![e0, Exchange::Canonical { path: project_root@, reply: None }]);
                return Err(e);
            },
        };
        let ghost c = candidate.text@;
        let ghost e1 = Exchange::Canonical { path: project_root@, reply: Some((c, candidate.utf8)) };
        if let Err(e) = check_managed_path(base.text.as_str(), candidate.text.as_str()) {
            assert(added(log0, self.log()) =~= seq![e0, e1]);
            return Err(e);
        }
        proof {
            reveal_strlit("pyproject.toml");
        }
        let pyproject = path_join(candidate.text.as_str(), "pyproject.toml");
        let found = self.ask_is_file(pyproject.as_str());
        let ghost e2 = Exchange::IsFile { path: join(c, "pyproject.toml"@), answer: found };
        assert(added(log0, self.log()) =~= seq![e0, e1, e2]);
        let utf8 = candidate.utf8;
        let root_path = match pyproject_outcome(candidate.text, found) {
            Ok(t) => t,
            Err(e) => {
                return Err(e);
            },
        };
        if !utf8 {
            return Err(ProjectError::NonUtf8Path(root_path));
        }
        match self.find_root(root_path.as_str()) {
            Some(i) => {
                return Ok(self.registry.projects[i].clone());
            },
            None => {},
        }
        let ran = self.run_uv(&uv::sync_project(root_path.as_str()));
        let ghost e3 = Exchange::Uv { args: project_command_args(c, "sync"@), ok: ran is Ok };
        assert(added(log0, self.log()) =~= seq![e0, e1, e2, e3]);
        uv_outcome(ran)?;
        let name = match path_file_name(root_path.as_str()) {
            Some(n) => n,
            None => {
                return Err(ProjectError::NonUtf8Path(root_path));
            },
        };
        validate_project_name(name.as_str())?;
        let ghost log4 = self.log();
        let read = self.read_fingerprint(root_path.as_str());
        let ghost reads = added(log4, self.log());
        proof {
            lemma_extends_trans(log0, log4, self.log());
        }
        let fingerprint = match read {
            Ok(f) => f,
            Err(x) => {
                let r: Result<ProjectRecord, ProjectError> = Err(x);
                proof {
                    let e = added(log0, self.log());
                    assert(e =~= seq![e0, e1, e2, e3] + reads);
                    assert(e.skip(3).skip(1) =~= reads);
                    assert(e.skip(3)[0] == e3);
                    assert(register_found(c, true, true, before, self.records(), e.skip(3), r));
                    assert(register_steps(root, project_root@, before, self.records(), e, r));
                }
                return r;
            },
        };
        let record = ProjectRecord {
            project: Project {
                project_id: ProjectId::new(),
                name,
                root_path,
                environment_generation: 1,
            },
            lock_fingerprint: Some(fingerprint),
        };
        self.registry.projects.push(record.clone());
        assert(self.records() =~= before.push(record@));
        assert(self.records().drop_last() =~= before);
        let saved = self.save_registry();
        let r = match saved {
            Ok(()) => Ok(record),
            Err(e) => Err(e),
        };
        proof {
            let e4 = Exchange::WriteRegistry { records: self.records(), ok: r is Ok };
            let e = added(log0, self.log());
            assert(e =~= seq![e0, e1, e2, e3] + reads.push(e4));
            assert(e.skip(3).skip(1) =~= reads.push(e4));
            assert(reads.push(e4).drop_last() =~= reads);
            assert(e.skip(3)[0] == e3);
            assert(register_found(c, true, true, before, self.records(), e.skip(3), r));
            assert(register_steps(root, project_root@, before, self.records(), e, r));
        }
        r
    }

    fn find_root(&self, root: &str) -> (r: Option<usize>)
        ensures
            r is None ==> root_absent(self.records(), root@),
            r matches Some(i) ==> first_with_root(self.records(), i as int, root@),
    {
        let mut i: usize = 0;
        while i < self.registry.projects.len()
            invariant
                i <= self.registry.projects.len(),
                forall|j: int| 0 <= j < i ==> (#[trigger] self.records()[j]).root != root@,
            decreases self.registry.projects.len() - i,
        {
            if str_eq(self.registry.projects[i].project.root_path.as_str(), root) {
                return Some(i);
            }
            i += 1;
        }
        None
    }

    /// Fingerprints the Project's lock inputs anew and records the result.
    #[verifier::rlimit(30)]
    fn refresh_generation(&mut self, project_id: ProjectId, root: &str) -> (r: Result<ProjectRecord, ProjectError>)
        requires
            !absent(old(self).records(), project_id.0),
            forall|i: int| first_with_id(old(self).records(), i, project_id.0) ==> old(self).records()[i].root == root@,
        ensures
            final(self).root_view() == old(self).root_view(),
            final(self).registry_path_view() == old(self).registry_path_view(),
            final(self).runner() == old(self).runner(),
            final(self).store_view() == old(self).store_view(),
            extends(old(self).log(), final(self).log()),
            forall|i: int| first_with_id(old(self).records(), i, project_id.0) ==> refresh_steps(
                project_id.0,
                i,
                old(self).records(),
                final(self).records(),
                added(old(self).log(), final(self).log()),
                r,
            ),
    {
        let ghost log0 = self.log();
        let ghost before = self.records();
        proof {
            lemma_first_exists(before, project_id.0);
        }
        let ghost i = choose|i: int| first_with_id(before, i, project_id.0);
        let read = self.read_fingerprint(root);
        let ghost log1 = self.log();
        let ghost reads = added(log0, log1);
        let fingerprint = match read {
            Ok(f) => f,
            Err(e) => {
                let r: Result<ProjectRecord, ProjectError> = Err(e);
                proof {
                    assert forall|k: int| first_with_id(before, k, project_id.0) implies refresh_steps(
                        project_id.0,
                        k,
                        before,
                        self.records(),
                        added(log0, self.log()),
                        r,
                    ) by {
                        lemma_first_unique(before, k, i, project_id.0);
                    }
                }
                return r;
            },
        };
        let ghost fp = fingerprint@;
        let record = match self.record_fingerprint(project_id, fingerprint) {
            Ok(rec) => rec,
            Err(e) => {
                return Err(e);
            },
        };
        proof {
            assert(first_with_id(before, i, project_id.0));
            assert(self.records() == before.update(i, refreshed(before[i], fp)));
            assert(refreshed_by(before, self.records(), project_id.0, i, fp));
        }
        let ghost after = self.records();
        let saved = self.save_registry();
        let r = match saved {
            Ok(()) => Ok(record),
            Err(e) => Err(e),
        };
        proof {
            let e = added(log0, self.log());
            assert(e =~= reads.push(Exchange::WriteRegistry { records: after, ok: r is Ok }));
            assert(e.drop_last() =~= reads);
            assert forall|k: int| first_with_id(before, k, project_id.0) implies refresh_steps(
                project_id.0,
                k,
                before,
                self.records(),
                e,
                r,
            ) by {
                lemma_first_unique(before, k, i, project_id.0);
            }
        }
        r
    }

    /// Runs uv for a registered Project at `root`, then records its lock fingerprint.
    fn run_and_refresh(&mut self, project_id: ProjectId, root: &str, invocation: &UvInvocation) -> (r: Result<ProjectRecord, ProjectError>)
        requires
            !absent(old(self).records(), project_id.0),
            forall|i: int| first_with_id(old(self).records(), i, project_id.0) ==> old(self).records()[i].root == root@,
        ensures
            final(self).root_view() == old(self).root_view(),
            final(self).registry_path_view() == old(self).registry_path_view(),
            final(self).runner() == old(self).runner(),
            final(self).store_view() == old(self).store_view(),
            extends(old(self).log(), final(self).log()),
            forall|i: int| first_with_id(old(self).records(), i, project_id.0) ==> uv_then_refresh(
                invocation@,
                project_id.0,
                i,
                old(self).records(),
                final(self).records(),
                added(old(self).log(), final(self).log()),
                r,
            ),
    {
        let ghost log0 = self.log();
        let ran = self.run_uv(invocation);
        let ghost e0 = Exchange::Uv { args: invocation@, ok: ran is Ok };
        let ghost log1 = self.log();
        assert(added(log0, log1) =~= seq![e0]);
        if let Err(e) = uv_outcome(ran) {
            return Err(e);
        }
        let r = self.refresh_generation(project_id, root);
        assert(added(log0, self.log()) =~= seq![e0] + added(log1, self.log()));
        assert(added(log0, self.log()).skip(1) =~= added(log1, self.log()));
        r
    }

    /// Runs `uv sync` for a Project, then records its lock fingerprint.
    pub fn sync_project(&mut self, project_id: ProjectId) -> (r: Result<ProjectRecord, ProjectError>)
        ensures
            final(self).root_view() == old(self).root_view(),
            final(self).registry_path_view() == old(self).registry_path_view(),
            final(self).runner() == old(self).runner(),
            final(self).store_view() == old(self).store_view(),
            extends(old(self).log(), final(self).log()),
            sync_steps(
                project_id.0,
                old(self).records(),
                final(self).records(),
                added(old(self).log(), final(self).log()),
                r,
            ),
            absent(old(self).records(), project_id.0) ==> final(self).records() == old(self).records()
                && (match r {
                Err(ProjectError::NotFound(t)) => t@ == uuid_text(project_id.0),
                _ => false,
            }),
            r matches Ok(rec) ==> refreshed_once(old(self).records(), final(self).records(), project_id.0)
                && rec@ == refreshed_last(old(self).records(), final(self).records(), project_id.0),
    {
        let ghost log0 = self.log();
        let root = match self.project_root(project_id) {
            Ok(root) => root,
            Err(e) => {
                assert(added(log0, self.log()) =~= Seq::<Exchange>::empty());
                return Err(e);
            },
        };
        let ghost before = self.records();
        let ghost i0 = choose|i: int| first_with_id(before, i, project_id.0) && root@ == before[i].root;
        proof {
            assert forall|k: int| first_with_id(before, k, project_id.0) implies before[k].root == root@ by {
                lemma_first_unique(before, k, i0, project_id.0);
            }
        }
        let r = self.run_and_refresh(project_id, root.as_str(), &uv::sync_project(root.as_str()));
        proof {
            assert forall|k: int| first_with_id(before, k, project_id.0) implies uv_then_refresh(
                project_command_args(before[k].root, "sync"@),
                project_id.0,
                k,
                before,
                self.records(),
                added(log0, self.log()),
                r,
            ) by {
                lemma_first_unique(before, k, i0, project_id.0);
            }
        }
        r
    }

    /// Runs `uv add` of the packages for a Project, then records its lock fingerprint.
    pub fn add_packages(&mut self, project_id: ProjectId, packages: &[String]) -> (r: Result<ProjectRecord, ProjectError>)
        ensures
            final(self).root_view() == old(self).root_view(),
            final(self).registry_path_view() == old(self).registry_path_view(),
            final(self).runner() == old(self).runner(),
            final(self).store_view() == old(self).store_view(),
            extends(old(self).log(), final(self).log()),
            package_steps(
                "add"@,
                packages@.map_values(|p: String| p@),
                project_id.0,
                old(self).records(),
                final(self).records(),
                added(old(self).log(), final(self).log()),
                r,
            ),
            !packages_ok(packages@.map_values(|p: String| p@)) ==> final(self).records() == old(self).records()
                && r matches Err(ProjectError::EmptyPackageList),
            packages_ok(packages@.map_values(|p: String| p@)) && absent(old(self).records(), project_id.0)
                ==> final(self).records() == old(self).records() && (match r {
                Err(ProjectError::NotFound(t)) => t@ == uuid_text(project_id.0),
                _ => false,
            }),
            r matches Ok(rec) ==> refreshed_once(old(self).records(), final(self).records(), project_id.0)
                && rec@ == refreshed_last(old(self).records(), final(self).records(), project_id.0),
    {
        let ghost before = self.records();
        let r = self.change_packages(project_id, packages, "add");
        proof {
            if !absent(before, project_id.0) {
                lemma_first_exists(before, project_id.0);
                let i = choose|i: int| first_with_id(before, i, project_id.0);
                assert(first_with_id(before, i, project_id.0));
            }
        }
        r
    }

    /// Runs `uv remove` of the packages for a Project, then records its lock fingerprint.
    pub fn remove_packages(&mut self, project_id: ProjectId, packages: &[String]) -> (r: Result<ProjectRecord, ProjectError>)
        ensures
            final(self).root_view() == old(self).root_view(),
            final(self).registry_path_view() == old(self).registry_path_view(),
            final(self).runner() == old(self).runner(),
            final(self).store_view() == old(self).store_view(),
            extends(old(self).log(), final(self).log()),
            package_steps(
                "remove"@,
                packages@.map_values(|p: String| p@),
                project_id.0,
                old(self).records(),
                final(self).records(),
                added(old(self).log(), final(self).log()),
                r,
            ),
            !packages_ok(packages@.map_values(|p: String| p@)) ==> final(self).records() == old(self).records()
                && r matches Err(ProjectError::EmptyPackageList),
            packages_ok(packages@.map_values(|p: String| p@)) && absent(old(self).records(), project_id.0)
                ==> final(self).records() == old(self).records() && (match r {
                Err(ProjectError::NotFound(t)) => t@ == uuid_text(project_id.0),
                _ => false,
            }),
            r matches Ok(rec) ==> refreshed_once(old(self).records(), final(self).records(), project_id.0)
                && rec@ == refreshed_last(old(self).records(), final(self).records(), project_id.0),
    {
        let ghost before = self.records();
        let r = self.change_packages(project_id, packages, "remove");
        proof {
            if !absent(before, project_id.0) {
                lemma_first_exists(before, project_id.0);
                let i = choose|i: int| first_with_id(before, i, project_id.0);
                assert(first_with_id(before, i, project_id.0));
            }
        }
        r
    }

    /// `uv <command>` of the packages for a Project, then its lock fingerprint.
    fn change_packages(&mut self, project_id: ProjectId, packages: &[String], command: &str) -> (r: Result<ProjectRecord, ProjectError>)
        requires
            command@ == "add"@ || command@ == "remove"@,
        ensures
            final(self).root_view() == old(self).root_view(),
            final(self).registry_path_view() == old(self).registry_path_view(),
            final(self).runner() == old(self).runner(),
            final(self).store_view() == old(self).store_view(),
            extends(old(self).log(), final(self).log()),
            package_steps(
                command@,
                packages@.map_values(|p: String| p@),
                project_id.0,
                old(self).records(),
                final(self).records(),
                added(old(self).log(), final(self).log()),
                r,
            ),
    {
        let ghost log0 = self.log();
        if let Err(e) = validate_packages(packages) {
            assert(added(log0, self.log()) =~= Seq::<Exchange>::empty());
            return Err(e);
        }
        let root = match self.project_root(project_id) {
            Ok(root) => root,
            Err(e) => {
                assert(added(log0, self.log()) =~= Seq::<Exchange>::empty());
                return Err(e);
            },
        };
        let invocation = if str_eq(command, "add") {
            uv::add_packages(root.as_str(), packages)
        } else {
            uv::remove_packages(root.as_str(), packages)
        };
        let ghost before = self.records();
        let ghost pk = packages@.map_values(|p: String| p@);
        let ghost i0 = choose|i: int| first_with_id(before, i, project_id.0) && root@ == before[i].root;
        assert(invocation@ == package_args(command@, root@, pk));
        proof {
            assert forall|k: int| first_with_id(before, k, project_id.0) implies before[k].root == root@ by {
                lemma_first_unique(before, k, i0, project_id.0);
            }
        }
        let r = self.run_and_refresh(project_id, root.as_str(), &invocation);
        proof {
            assert forall|k: int| first_with_id(before, k, project_id.0) implies uv_then_refresh(
                package_args(command@, before[k].root, pk),
                project_id.0,
                k,
                before,
                self.records(),
                added(log0, self.log()),
                r,
            ) by {
                lemma_first_unique(before, k, i0, project_id.0);
            }
        }
        r
    }

    /// What the Runtime reports of a Project's environment: ready when both
    /// `pyproject.toml` and the environment's Python interpreter are files, as
    /// the store answers; each question is logged.
    pub fn environment_status(&mut self, project_id: ProjectId) -> (r: Result<ProjectEnvironmentStatus, ProjectError>)
        ensures
            final(self).records() == old(self).records(),
            final(self).root_view() == old(self).root_view(),
            final(self).registry_path_view() == old(self).registry_path_view(),
            final(self).runner() == old(self).runner(),
            final(self).store_view() == old(self).store_view(),
            extends(old(self).log(), final(self).log()),
            status_steps(project_id.0, old(self).records(), added(old(self).log(), final(self).log()), r),
            absent(old(self).records(), project_id.0) ==> (match r {
                Err(ProjectError::NotFound(t)) => t@ == uuid_text(project_id.0),
                _ => false,
            }),
            !absent(old(self).records(), project_id.0) ==> (match r {
                Ok(st) => exists|i: int| first_with_id(old(self).records(), i, project_id.0) && status_of(
                    st,
                    old(self).records()[i],
                ),
                Err(_) => false,
            }),
    {
        let ghost log0 = self.log();
        let ghost records = self.records();
        let record = match self.get(project_id) {
            Ok(rec) => rec,
            Err(e) => {
                assert(added(log0, self.log()) =~= Seq::<Exchange>::empty());
                return Err(e);
            },
        };
        let ghost i0 = choose|i: int| first_with_id(records, i, project_id.0) && record@ == records[i];
        let root = record.project.root_path.as_str();
        proof {
            reveal_strlit("pyproject.toml");
        }
        let pyproject = path_join(root, "pyproject.toml");
        let python = project_python_path(root);
        let pyproject_is_file = self.ask_is_file(pyproject.as_str());
        let ghost e0 = Exchange::IsFile { path: pyproject@, answer: pyproject_is_file };
        let python_is_file = if pyproject_is_file {
            let b = self.ask_is_file(python.as_str());
            assert(added(log0, self.log()) =~= seq![e0, Exchange::IsFile { path: python@, answer: b }]);
            b
        } else {
            assert(added(log0, self.log()) =~= seq![e0]);
            false
        };
        let r = Ok(status_for(&record, pyproject_is_file, python_is_file));
        proof {
            assert forall|k: int| first_with_id(records, k, project_id.0) implies status_at(
                records[k],
                added(log0, self.log()),
                r,
            ) by {
                lemma_first_unique(records, k, i0, project_id.0);
            }
        }
        r
    }

    /// The Python interpreter of a Project's environment, refused when the
    /// store does not answer that it is a file; the question is logged.
    pub fn require_python(&mut self, project_id: ProjectId) -> (r: Result<String, ProjectError>)
        ensures
            final(self).records() == old(self).records(),
            final(self).root_view() == old(self).root_view(),
            final(self).registry_path_view() == old(self).registry_path_view(),
            final(self).runner() == old(self).runner(),
            final(self).store_view() == old(self).store_view(),
            extends(old(self).log(), final(self).log()),
            python_steps(project_id.0, old(self).records(), added(old(self).log(), final(self).log()), r),
    {
        let ghost log0 = self.log();
        let ghost records = self.records();
        let root = match self.project_root(project_id) {
            Ok(root) => root,
            Err(e) => {
                assert(added(log0, self.log()) =~= Seq::<Exchange>::empty());
                return Err(e);
            },
        };
        let ghost i0 = choose|i: int| first_with_id(records, i, project_id.0) && root@ == records[i].root;
        let python = project_python_path(root.as_str());
        let is_file = self.ask_is_file(python.as_str());
        assert(added(log0, self.log()) =~= seq![Exchange::IsFile { path: python@, answer: is_file }]);
        let r = python_outcome(python, is_file);
        proof {
            assert forall|k: int| first_with_id(records, k, project_id.0) implies python_at(
                records[k],
                added(log0, self.log()),
                r,
            ) by {
                lemma_first_unique(records, k, i0, project_id.0);
            }
        }
        r
    }

    /// Drops a Project from the registry; its files stay where they are.
    pub fn remove_from_registry(&mut self, project_id: ProjectId) -> (r: Result<ProjectRecord, ProjectError>)
        ensures
            final(self).root_view() == old(self).root_view(),
            final(self).registry_path_view() == old(self).registry_path_view(),
            final(self).runner() == old(self).runner(),
            final(self).store_view() == old(self).store_view(),
            extends(old(self).log(), final(self).log()),
            removal_steps(
                project_id.0,
                old(self).records(),
                final(self).records(),
                added(old(self).log(), final(self).log()),
                r,
            ),
    {
        let ghost log0 = self.log();
        let i = match self.find_index(project_id) {
            Some(i) => i,
            None => {
                assert(added(log0, self.log()) =~= Seq::<Exchange>::empty());
                return Err(ProjectError::NotFound(project_id.to_string()));
            },
        };
        let ghost before = self.records();
        let record = self.registry.projects.remove(i);
        proof {
            assert(self.records() =~= before.remove(i as int));
            assert forall|k: int| first_with_id(before, k, project_id.0) implies k == i by {
                lemma_first_unique(before, k, i as int, project_id.0);
            }
        }
        let saved = self.save_registry();
        assert(added(log0, self.log()) =~= seq![
            Exchange::WriteRegistry { records: before.remove(i as int), ok: saved is Ok },
        ]);
        saved?;
        Ok(record)
    }
}

/// Refuses a candidate path that does not lie under `base`, comparing whole components.
pub fn check_managed_path(base: &str, candidate: &str) -> (r: Result<(), ProjectError>)
    ensures
        components_prefix(components(base@), components(candidate@)) ==> r is Ok,
        !components_prefix(components(base@), components(candidate@)) ==> (match r {
            Err(ProjectError::PathOutsideRoot(p)) => p@ == candidate@,
            _ => false,
        }),
{
    if path_starts_with(candidate, base) {
        Ok(())
    } else {
        Err(ProjectError::PathOutsideRoot(candidate.to_owned()))
    }
}

/// The canonical form the store gave, as the log keeps it.
pub open spec fn canonical_answer(r: Result<PathText, String>) -> Option<(Seq<char>, bool)> {
    match r {
        Ok(p) => Some((p.text@, p.utf8)),
        Err(_) => None,
    }
}

/// What the store answered to a read, as the log keeps it.
pub open spec fn read_answer(r: Result<Vec<u8>, String>) -> Option<Seq<u8>> {
    match r {
        Ok(b) => Some(b@),
        Err(_) => None,
    }
}

/// What reading one lock input gave: its content (`None` for no file), or
/// `None` when the read failed.
pub open spec fn read_content(r: Result<Option<Vec<u8>>, ProjectError>) -> Option<Option<Seq<u8>>> {
    match r {
        Ok(c) => Some(opt_bytes(c)),
        Err(_) => None,
    }
}

/// How reading the lock input at `path` went, as the front of the log `e`
/// shows it: the number of entries it took and the content read (`None` for
/// no file), or `None` as the content when the read failed. The store is
/// asked whether `path` is a file, and only then for its bytes.
pub open spec fn input_read(path: Seq<char>, e: Seq<Exchange>) -> Option<(int, Option<Option<Seq<u8>>>)> {
    if e.len() >= 1 && e[0] == (Exchange::IsFile { path, answer: false }) {
        Some((1, Some(None)))
    } else if e.len() >= 2 && e[0] == (Exchange::IsFile { path, answer: true }) {
        match e[1] {
            Exchange::Read { path: q, bytes } => if q == path {
                Some(
                    (
                        2,
                        match bytes {
                            Some(b) => Some(Some(b)),
                            None => None,
                        },
                    ),
                )
            } else {
                None
            },
            _ => None,
        }
    } else {
        None
    }
}

/// Reading a lock input depends only on the entries it logged.
proof fn lemma_input_read_prefix(path: Seq<char>, a: Seq<Exchange>, b: Seq<Exchange>)
    requires
        input_read(path, a) matches Some((n, _)) && n == a.len(),
    ensures
        input_read(path, a + b) == input_read(path, a),
{
    assert((a + b)[0] == a[0]);
    if a.len() >= 2 {
        assert((a + b)[1] == a[1]);
    }
}

/// What reading the three lock inputs of the Project at `root` gives, from
/// the entries `e` that it logged: the fingerprint of the contents read, or
/// the path whose read failed; `None` when `e` is not such a reading.
pub open spec fn lock_reading(root: Seq<char>, e: Seq<Exchange>) -> Option<Result<Seq<char>, Seq<char>>> {
    let p0 = join(root, lock_input_names()[0]);
    let p1 = join(root, lock_input_names()[1]);
    let p2 = join(root, lock_input_names()[2]);
    match input_read(p0, e) {
        None => None,
        Some((n0, None)) => if e.len() == n0 { Some(Err(p0)) } else { None },
        Some((n0, Some(c0))) => match input_read(p1, e.skip(n0)) {
            None => None,
            Some((n1, None)) => if e.len() == n0 + n1 { Some(Err(p1)) } else { None },
            Some((n1, Some(c1))) => match input_read(p2, e.skip(n0 + n1)) {
                None => None,
                Some((n2, None)) => if e.len() == n0 + n1 + n2 { Some(Err(p2)) } else { None },
                Some((n2, Some(c2))) => if e.len() == n0 + n1 + n2 {
                    Some(Ok(fingerprint_text(seq![c0, c1, c2])))
                } else {
                    None
                },
            },
        },
    }
}

/// `r` is what fingerprinting the lock inputs of `root` gives, given the
/// reads `e` that it logged: the fingerprint of what was read, or the `Io`
/// error of the read that failed.
pub open spec fn fingerprint_read(root: Seq<char>, e: Seq<Exchange>, r: Result<String, ProjectError>) -> bool {
    match lock_reading(root, e) {
        None => false,
        Some(Ok(f)) => r matches Ok(s) && s@ == f,
        Some(Err(p)) => r matches Err(ProjectError::Io { path, .. }) && path@ == p,
    }
}

/// What creating the Project `name` under `root` does: `e` is what it adds to
/// the log, `before` and `after` the registry around it, `r` its answer.
pub open spec fn create_steps(
    root: Seq<char>,
    name: Seq<char>,
    before: Seq<RecordView>,
    after: Seq<RecordView>,
    e: Seq<Exchange>,
    r: Result<ProjectRecord, ProjectError>,
) -> bool {
    let p = join(root, name);
    let init = init_args(p, name);
    let sync = project_command_args(p, "sync"@);
    if !name_ok(name) {
        &&& e == Seq::<Exchange>::empty()
        &&& after == before
        &&& r matches Err(ProjectError::InvalidName(n)) && n@ == name
    } else {
        ||| {
            &&& e == seq![Exchange::Exists { path: p, answer: true }]
            &&& after == before
            &&& r matches Err(ProjectError::AlreadyExists(q)) && q@ == p
        }
        ||| {
            &&& e == seq![
                Exchange::Exists { path: p, answer: false },
                Exchange::Uv { args: init, ok: false },
                Exchange::RemoveDir { path: p },
            ]
            &&& after == before
            &&& r matches Err(ProjectError::Uv(_))
        }
        ||| {
            &&& e == seq![
                Exchange::Exists { path: p, answer: false },
                Exchange::Uv { args: init, ok: true },
                Exchange::Uv { args: sync, ok: false },
                Exchange::RemoveDir { path: p },
            ]
            &&& after == before
            &&& r matches Err(ProjectError::Uv(_))
        }
        ||| {
            &&& e.len() >= 3
            &&& e.take(3) == seq![
                Exchange::Exists { path: p, answer: false },
                Exchange::Uv { args: init, ok: true },
                Exchange::Uv { args: sync, ok: true },
            ]
            &&& record_after_reading(p, e.skip(3), before, after, r)
            &&& after.len() > before.len() ==> created(after.last(), name, p)
        }
    }
}

/// What recording a new Project at `root` does once uv has set it up: `e` is
/// what it logs. It reads the three lock inputs; a failed read is the `Io`
/// error of that read, else the record with the fingerprint of what was read
/// is appended and the registry written, and the answer is the record exactly
/// when the write succeeded.
pub open spec fn record_after_reading(
    root: Seq<char>,
    e: Seq<Exchange>,
    before: Seq<RecordView>,
    after: Seq<RecordView>,
    r: Result<ProjectRecord, ProjectError>,
) -> bool {
    ||| (lock_reading(root, e) matches Some(Err(q)) && after == before && (r matches Err(
        ProjectError::Io { path, .. },
    ) && path@ == q))
    ||| e.len() >= 1 && match lock_reading(root, e.drop_last()) {
            Some(Ok(f)) => {
                &&& e.last() == (Exchange::WriteRegistry { records: after, ok: r is Ok })
                &&& after.len() == before.len() + 1
                &&& after.drop_last() == before
                &&& after.last().root == root
                &&& after.last().fingerprint == Some(f)
                &&& r matches Ok(rec) ==> rec@ == after.last()
                &&& r matches Err(x) ==> x is Io || x is InvalidRegistry
            },
            _ => false,
        }
}

/// What registering the Project directory `path` under `root` does, from the
/// first question to the store on: `e` is what it adds to the log.
pub open spec fn register_steps(
    root: Seq<char>,
    path: Seq<char>,
    before: Seq<RecordView>,
    after: Seq<RecordView>,
    e: Seq<Exchange>,
    r: Result<ProjectRecord, ProjectError>,
) -> bool {
    &&& e.len() >= 1
    &&& match e[0] {
        Exchange::Canonical { path: q0, reply: None } => {
            &&& q0 == root
            &&& e.len() == 1
            &&& after == before
            &&& r matches Err(ProjectError::Io { path: q, .. }) && q@ == root
        },
        Exchange::Canonical { path: q0, reply: Some((base, _)) } => {
            &&& q0 == root
            &&& e.len() >= 2
            &&& match e[1] {
                Exchange::Canonical { path: q1, reply: None } => {
                    &&& q1 == path
                    &&& e.len() == 2
                    &&& after == before
                    &&& r matches Err(ProjectError::Io { path: q, .. }) && q@ == path
                },
                Exchange::Canonical { path: q1, reply: Some((c, exact)) } => {
                    &&& q1 == path
                    &&& if !components_prefix(components(base), components(c)) {
                        &&& e.len() == 2
                        &&& after == before
                        &&& r matches Err(ProjectError::PathOutsideRoot(q)) && q@ == c
                    } else {
                        &&& e.len() >= 3
                        &&& match e[2] {
                            Exchange::IsFile { path: q2, answer: found } => q2 == join(c, "pyproject.toml"@)
                                && register_found(c, exact, found, before, after, e.skip(3), r),
                            _ => false,
                        }
                    }
                },
                _ => false,
            }
        },
        _ => false,
    }
}

/// How registering the canonical directory `c` goes on once the store has
/// answered whether its `pyproject.toml` is a file: `e` is what it adds to the log.
pub open spec fn register_found(
    c: Seq<char>,
    exact: bool,
    found: bool,
    before: Seq<RecordView>,
    after: Seq<RecordView>,
    e: Seq<Exchange>,
    r: Result<ProjectRecord, ProjectError>,
) -> bool {
    if !found {
        &&& e.len() == 0
        &&& after == before
        &&& r matches Err(ProjectError::MissingPyproject(q)) && q@ == c
    } else if !exact {
        &&& e.len() == 0
        &&& after == before
        &&& r matches Err(ProjectError::NonUtf8Path(q)) && q@ == c
    } else if !root_absent(before, c) {
        &&& e.len() == 0
        &&& after == before
        &&& exists|i: int| first_with_root(before, i, c) && (r matches Ok(rec) && rec@ == before[i])
    } else {
        &&& e.len() >= 1
        &&& match e[0] {
            Exchange::Uv { args, ok } => {
                &&& args == project_command_args(c, "sync"@)
                &&& if !ok {
                    &&& e.len() == 1
                    &&& after == before
                    &&& r matches Err(ProjectError::Uv(_))
                } else {
                    match file_name(c) {
                        None => e.len() == 1 && after == before && (r matches Err(ProjectError::NonUtf8Path(q)) && q@ == c),
                        Some(n) => if !name_ok(n) {
                            e.len() == 1 && after == before && (r matches Err(ProjectError::InvalidName(q)) && q@ == n)
                        } else {
                            &&& record_after_reading(c, e.skip(1), before, after, r)
                            &&& after.len() > before.len() ==> registered(after.last())
                        },
                    }
                }
            },
            _ => false,
        }
    }
}

/// What fingerprinting a registered Project anew and recording it does: `e`
/// is what it adds to the log.
pub open spec fn refresh_steps(
    id: u128,
    i: int,
    before: Seq<RecordView>,
    after: Seq<RecordView>,
    e: Seq<Exchange>,
    r: Result<ProjectRecord, ProjectError>,
) -> bool {
    let root = before[i].root;
    ||| (lock_reading(root, e) matches Some(Err(q)) && after == before && (r matches Err(
        ProjectError::Io { path, .. },
    ) && path@ == q))
    ||| e.len() >= 1 && match lock_reading(root, e.drop_last()) {
            Some(Ok(f)) => {
                &&& e.last() == (Exchange::WriteRegistry { records: after, ok: r is Ok })
                &&& refreshed_by(before, after, id, i, f)
                &&& refreshed_once(before, after, id)
                &&& r matches Ok(rec) ==> rec@ == refreshed(before[i], f) && rec@ == refreshed_last(before, after, id)
                &&& r matches Err(x) ==> x is Io || x is InvalidRegistry
            },
            _ => false,
        }
}

/// Running uv with `args` for the registered Project `id` and then recording
/// its lock fingerprint: a failed run stops there as `Uv`.
pub open spec fn uv_then_refresh(
    args: Seq<Seq<char>>,
    id: u128,
    i: int,
    before: Seq<RecordView>,
    after: Seq<RecordView>,
    e: Seq<Exchange>,
    r: Result<ProjectRecord, ProjectError>,
) -> bool {
    &&& e.len() >= 1
    &&& match e[0] {
        Exchange::Uv { args: a, ok } => {
            &&& a == args
            &&& if !ok {
                &&& e.len() == 1
                &&& after == before
                &&& r matches Err(ProjectError::Uv(_))
            } else {
                refresh_steps(id, i, before, after, e.skip(1), r)
            }
        },
        _ => false,
    }
}

/// `r` refuses the identifier as not registered.
pub open spec fn not_found_is(r: Result<ProjectRecord, ProjectError>, id: u128) -> bool {
    r matches Err(ProjectError::NotFound(t)) && t@ == uuid_text(id)
}

/// What dropping the Project `id` from the registry does: one registry write,
/// and no directory removed.
pub open spec fn removal_steps(
    id: u128,
    before: Seq<RecordView>,
    after: Seq<RecordView>,
    e: Seq<Exchange>,
    r: Result<ProjectRecord, ProjectError>,
) -> bool {
    if absent(before, id) {
        e.len() == 0 && after == before && not_found_is(r, id)
    } else {
        forall|i: int| #[trigger] first_with_id(before, i, id) ==> {
            &&& after == before.remove(i)
            &&& e == seq![Exchange::WriteRegistry { records: after, ok: r is Ok }]
            &&& r matches Ok(rec) ==> rec@ == before[i]
            &&& r matches Err(x) ==> x is Io || x is InvalidRegistry
        }
    }
}

/// What reporting the environment of the Project recorded as `rec` does: `e`
/// is what it logs. The store is asked whether `pyproject.toml` is a file and,
/// only when it is, whether the interpreter is; the status is ready exactly
/// when both answers are yes.
pub open spec fn status_at(rec: RecordView, e: Seq<Exchange>, r: Result<ProjectEnvironmentStatus, ProjectError>) -> bool {
    &&& e.len() >= 1
    &&& match e[0] {
        Exchange::IsFile { path: q, answer: a } => {
            &&& q == join(rec.root, "pyproject.toml"@)
            &&& if !a {
                e.len() == 1 && (r matches Ok(st) && status_of(st, rec) && !st.ready)
            } else {
                e.len() == 2 && match e[1] {
                    Exchange::IsFile { path: q2, answer: b } => q2 == python_path(rec.root) && (r matches Ok(
                        st,
                    ) && status_of(st, rec) && st.ready == b),
                    _ => false,
                }
            }
        },
        _ => false,
    }
}

/// What reporting the environment of the Project `id` does: `e` is what it logs.
pub open spec fn status_steps(
    id: u128,
    records: Seq<RecordView>,
    e: Seq<Exchange>,
    r: Result<ProjectEnvironmentStatus, ProjectError>,
) -> bool {
    if absent(records, id) {
        e.len() == 0 && (r matches Err(ProjectError::NotFound(t)) && t@ == uuid_text(id))
    } else {
        forall|i: int| #[trigger] first_with_id(records, i, id) ==> status_at(records[i], e, r)
    }
}

/// What asking for the interpreter of the Project recorded as `rec` does: the
/// store is asked whether `python_path` of its root is a file, and the answer
/// decides between that path and `PythonMissing` of it.
pub open spec fn python_at(rec: RecordView, e: Seq<Exchange>, r: Result<String, ProjectError>) -> bool {
    &&& e.len() == 1
    &&& match e[0] {
        Exchange::IsFile { path: q, answer: a } => {
            &&& q == python_path(rec.root)
            &&& if a {
                r matches Ok(p) && p@ == q
            } else {
                r matches Err(ProjectError::PythonMissing(p)) && p@ == q
            }
        },
        _ => false,
    }
}

/// What asking for the interpreter of the Project `id` does: `e` is what it logs.
pub open spec fn python_steps(id: u128, records: Seq<RecordView>, e: Seq<Exchange>, r: Result<String, ProjectError>) -> bool {
    if absent(records, id) {
        e.len() == 0 && (r matches Err(ProjectError::NotFound(t)) && t@ == uuid_text(id))
    } else {
        forall|i: int| #[trigger] first_with_id(records, i, id) ==> python_at(records[i], e, r)
    }
}

/// What `uv sync` of the Project `id` does: `e` is what it adds to the log.
pub open spec fn sync_steps(
    id: u128,
    before: Seq<RecordView>,
    after: Seq<RecordView>,
    e: Seq<Exchange>,
    r: Result<ProjectRecord, ProjectError>,
) -> bool {
    if absent(before, id) {
        e.len() == 0 && after == before && not_found_is(r, id)
    } else {
        forall|i: int| #[trigger] first_with_id(before, i, id) ==> uv_then_refresh(
            project_command_args(before[i].root, "sync"@),
            id,
            i,
            before,
            after,
            e,
            r,
        )
    }
}

/// What `uv <command>` of `packages` for the Project `id` does: `e` is what it
/// adds to the log.
pub open spec fn package_steps(
    command: Seq<char>,
    packages: Seq<Seq<char>>,
    id: u128,
    before: Seq<RecordView>,
    after: Seq<RecordView>,
    e: Seq<Exchange>,
    r: Result<ProjectRecord, ProjectError>,
) -> bool {
    if !packages_ok(packages) {
        e.len() == 0 && after == before && r matches Err(ProjectError::EmptyPackageList)
    } else if absent(before, id) {
        e.len() == 0 && after == before && not_found_is(r, id)
    } else {
        forall|i: int| #[trigger] first_with_id(before, i, id) ==> uv_then_refresh(
            package_args(command, before[i].root, packages),
            id,
            i,
            before,
            after,
            e,
            r,
        )
    }
}

/// What a uv run means for a Project operation: success goes on, and a failure
/// is the operation's `Uv` error.
pub fn uv_outcome(result: Result<UvCommandResult, UvError>) -> (r: Result<(), ProjectError>)
    ensures
        result is Ok ==> r is Ok,
        result matches Err(e) ==> r == Err::<(), ProjectError>(ProjectError::Uv(e)),
{
    match result {
        Ok(_) => Ok(()),
        Err(e) => Err(ProjectError::Uv(e)),
    }
}

/// The root of a new Project, refused when something already exists there.
pub fn existing_root_outcome(root: String, exists: bool) -> (r: Result<String, ProjectError>)
    ensures
        !exists ==> r == Ok::<String, ProjectError>(root),
        exists ==> (r matches Err(ProjectError::AlreadyExists(p)) && p@ == root@),
{
    if exists {
        Err(ProjectError::AlreadyExists(root))
    } else {
        Ok(root)
    }
}

/// A canonical path from the store, or its failure as an `Io` error on `path`.
pub fn canonical_outcome(path: &str, answer: Result<PathText, String>) -> (r: Result<PathText, ProjectError>)
    ensures
        match answer {
            Ok(p) => r == Ok::<PathText, ProjectError>(p),
            Err(m) => r matches Err(ProjectError::Io { path: q, message }) && q@ == path@ && message == m,
        },
{
    match answer {
        Ok(p) => Ok(p),
        Err(message) => Err(ProjectError::Io { path: path.to_owned(), message }),
    }
}

/// A directory whose `pyproject.toml` was looked for, refused when that is not a file.
pub fn pyproject_outcome(root: String, is_file: bool) -> (r: Result<String, ProjectError>)
    ensures
        is_file ==> r == Ok::<String, ProjectError>(root),
        !is_file ==> (r matches Err(ProjectError::MissingPyproject(p)) && p@ == root@),
{
    if is_file {
        Ok(root)
    } else {
        Err(ProjectError::MissingPyproject(root))
    }
}

/// An environment's interpreter, refused when it is not a file.
pub fn python_outcome(python: String, is_file: bool) -> (r: Result<String, ProjectError>)
    ensures
        is_file ==> r == Ok::<String, ProjectError>(python),
        !is_file ==> (r matches Err(ProjectError::PythonMissing(p)) && p@ == python@),
{
    if is_file {
        Ok(python)
    } else {
        Err(ProjectError::PythonMissing(python))
    }
}

/// What the Runtime reports of a Project's environment, given whether its
/// `pyproject.toml` and its interpreter are files: ready when both are.
pub fn status_for(record: &ProjectRecord, pyproject_is_file: bool, python_is_file: bool) -> (st: ProjectEnvironmentStatus)
    ensures
        status_of(st, record@),
        st.ready == (pyproject_is_file && python_is_file),
{
    let ready = pyproject_is_file && python_is_file;
    ProjectEnvironmentStatus {
        project_id: record.project.project_id,
        environment_generation: record.project.environment_generation,
        lock_fingerprint: clone_opt(&record.lock_fingerprint),
        python_executable: if ready {
            Some(project_python_path(record.project.root_path.as_str()))
        } else {
            None
        },
        ready,
    }
}

/// What a registry write means for the operation that made it.
pub fn registry_write_outcome(result: Result<(), RegistryWriteError>) -> (r: Result<(), ProjectError>)
    ensures
        match result {
            Ok(()) => r is Ok,
            Err(RegistryWriteError::Io { path, message }) => r == Err::<(), ProjectError>(
                ProjectError::Io { path, message },
            ),
            Err(RegistryWriteError::Encode(m)) => r == Err::<(), ProjectError>(ProjectError::InvalidRegistry(m)),
        },
{
    match result {
        Ok(()) => Ok(()),
        Err(RegistryWriteError::Io { path, message }) => Err(ProjectError::Io { path, message }),
        Err(RegistryWriteError::Encode(message)) => Err(ProjectError::InvalidRegistry(message)),
    }
}

/// No uv run is among the exchanges `e`.
pub open spec fn no_uv_run(e: Seq<Exchange>) -> bool {
    forall|k: int| 0 <= k < e.len() ==> !(#[trigger] e[k] is Uv)
}

/// Reading lock inputs asks the store only: it runs no uv command.
pub proof fn lemma_lock_reading_runs_no_uv(root: Seq<char>, e: Seq<Exchange>)
    requires
        lock_reading(root, e) is Some,
    ensures
        no_uv_run(e),
{
    let p0 = join(root, lock_input_names()[0]);
    let p1 = join(root, lock_input_names()[1]);
    let p2 = join(root, lock_input_names()[2]);
    let (n0, c0) = input_read(p0, e)->0;
    assert forall|k: int| 0 <= k < n0 implies !(#[trigger] e[k] is Uv) by {}
    if c0 is Some {
        let e1 = e.skip(n0);
        let (n1, c1) = input_read(p1, e1)->0;
        assert forall|k: int| n0 <= k < n0 + n1 implies !(#[trigger] e[k] is Uv) by {
            assert(e[k] == e1[k - n0]);
        }
        if c1 is Some {
            let e2 = e.skip(n0 + n1);
            assert forall|k: int| n0 + n1 <= k < e.len() implies !(#[trigger] e[k] is Uv) by {
                assert(e[k] == e2[k - n0 - n1]);
            }
        }
    }
}

/// Creating a Project: a refused name or an existing directory runs no uv
/// command and changes nothing; a failed uv run ends by removing the new
/// directory and changes nothing; any other failure leaves the registry as it
/// was or appends the record whose write failed; success appends the new record,
/// named `name`, at `root/name`, at generation 1.
pub proof fn lemma_create_outcomes(
    root: Seq<char>,
    name: Seq<char>,
    before: Seq<RecordView>,
    after: Seq<RecordView>,
    e: Seq<Exchange>,
    r: Result<ProjectRecord, ProjectError>,
)
    requires
        create_steps(root, name, before, after, e, r),
    ensures
        (r matches Err(ProjectError::InvalidName(_)) || r matches Err(ProjectError::AlreadyExists(_)))
            ==> no_uv_run(e) && after == before,
        r matches Err(ProjectError::Uv(_)) ==> after == before && e.last() == (Exchange::RemoveDir {
            path: join(root, name),
        }),
        r is Err ==> after == before || (after.len() == before.len() + 1 && after.drop_last() == before
            && e.last() == (Exchange::WriteRegistry { records: after, ok: false })),
        r matches Ok(rec) ==> after == before.push(rec@) && rec@.name == name && rec@.root == join(root, name)
            && rec@.generation == 1,
{
    match r {
        Ok(rec) => {
            assert(after =~= before.push(rec@));
        },
        Err(_) => {},
    }
}

/// Registering a directory that is already registered at its canonical root
/// gives back that record, runs no uv command and leaves the registry as it was.
pub proof fn lemma_register_registered(
    root: Seq<char>,
    path: Seq<char>,
    before: Seq<RecordView>,
    after: Seq<RecordView>,
    e: Seq<Exchange>,
    r: Result<ProjectRecord, ProjectError>,
    base: Seq<char>,
    base_exact: bool,
    c: Seq<char>,
    i: int,
)
    requires
        register_steps(root, path, before, after, e, r),
        e.len() >= 3,
        e[0] == (Exchange::Canonical { path: root, reply: Some((base, base_exact)) }),
        e[1] == (Exchange::Canonical { path, reply: Some((c, true)) }),
        components_prefix(components(base), components(c)),
        e[2] == (Exchange::IsFile { path: join(c, "pyproject.toml"@), answer: true }),
        first_with_root(before, i, c),
    ensures
        r matches Ok(rec) && rec@ == before[i],
        after == before,
        e.len() == 3,
        no_uv_run(e),
{
    assert(!root_absent(before, c));
    let j = choose|j: int| first_with_root(before, j, c) && (r matches Ok(rec) && rec@ == before[j]);
    if j < i {
        assert(before[j].root != c);
    }
    if i < j {
        assert(before[i].root != c);
    }
}

/// Registering refuses, without any uv run and with the registry unchanged, a
/// path the store cannot canonicalize, one outside the projects root and one
/// without `pyproject.toml`; a newly registered Project comes after exactly one
/// uv run, `uv sync` of its canonical root, at generation 1 and named after its
/// directory, appended to the registry.
pub proof fn lemma_register_outcomes(
    root: Seq<char>,
    path: Seq<char>,
    before: Seq<RecordView>,
    after: Seq<RecordView>,
    e: Seq<Exchange>,
    r: Result<ProjectRecord, ProjectError>,
)
    requires
        register_steps(root, path, before, after, e, r),
    ensures
        (r matches Err(ProjectError::Io { .. }) && e.len() <= 2) ==> no_uv_run(e) && after == before,
        r matches Err(ProjectError::PathOutsideRoot(_)) ==> no_uv_run(e) && after == before,
        r matches Err(ProjectError::MissingPyproject(_)) ==> no_uv_run(e) && after == before,
        match r {
            Ok(rec) => after != before ==> {
                &&& after == before.push(rec@)
                &&& rec@.generation == 1
                &&& file_name(rec@.root) == Some(rec@.name)
                &&& e[3] == (Exchange::Uv { args: project_command_args(rec@.root, "sync"@), ok: true })
                &&& no_uv_run(e.take(3))
                &&& no_uv_run(e.skip(4))
            },
            Err(_) => true,
        },
{
    if let Ok(rec) = r {
        if after != before {
            let rest = e.skip(3).skip(1);
            lemma_lock_reading_runs_no_uv(rec@.root, rest.drop_last());
            assert(e.skip(4) =~= rest);
            assert forall|k: int| 0 <= k < e.skip(4).len() implies !(#[trigger] e.skip(4)[k] is Uv) by {
                if k < rest.len() - 1 {
                    assert(rest[k] == rest.drop_last()[k]);
                }
            }
            assert(after =~= before.push(rec@));
        }
    }
}

/// No record of `records` is at `root`.
pub open spec fn root_absent(records: Seq<RecordView>, root: Seq<char>) -> bool {
    forall|j: int| 0 <= j < records.len() ==> (#[trigger] records[j]).root != root
}

/// `i` is the first record at `root`.
pub open spec fn first_with_root(records: Seq<RecordView>, i: int, root: Seq<char>) -> bool {
    &&& 0 <= i < records.len()
    &&& records[i].root == root
    &&& forall|j: int| 0 <= j < i ==> (#[trigger] records[j]).root != root
}

/// A record freshly made for an existing Project directory: named after the
/// directory, with a valid name, at generation 1 with a fingerprint.
pub open spec fn registered(r: RecordView) -> bool {
    &&& file_name(r.root) == Some(r.name)
    &&& name_ok(r.name)
    &&& r.generation == 1
    &&& r.fingerprint is Some
}

/// `after` is `before` with the first record of `id`, at `i`, refreshed by `fingerprint`.
pub open spec fn refreshed_by(before: Seq<RecordView>, after: Seq<RecordView>, id: u128, i: int, fingerprint: Seq<char>) -> bool {
    first_with_id(before, i, id) && after == before.update(i, refreshed(before[i], fingerprint))
}

/// `after` is `before` with the first record of `id` refreshed by some fingerprint.
pub open spec fn refreshed_once(before: Seq<RecordView>, after: Seq<RecordView>, id: u128) -> bool {
    exists|i: int, fingerprint: Seq<char>| refreshed_by(before, after, id, i, fingerprint)
}

/// The refreshed record, where `refreshed_once` holds.
pub open spec fn refreshed_last(before: Seq<RecordView>, after: Seq<RecordView>, id: u128) -> RecordView {
    let i = choose|i: int| first_with_id(before, i, id);
    after[i]
}

/// What the environment status reports of a record.
pub open spec fn status_of(st: ProjectEnvironmentStatus, rec: RecordView) -> bool {
    &&& st.project_id.0 == rec.id
    &&& st.environment_generation == rec.generation
    &&& opt_view(st.lock_fingerprint) == rec.fingerprint
    &&& st.ready ==> opt_view(st.python_executable) == Some(python_path(rec.root))
    &&& !st.ready ==> st.python_executable is None
}

/// Lexicographic order of names by character, the order in which `String` values compare.
pub open spec fn name_le(a: Seq<char>, b: Seq<char>) -> bool
    decreases a.len(),
{
    if a.len() == 0 {
        true
    } else if b.len() == 0 {
        false
    } else if a[0] != b[0] {
        a[0] < b[0]
    } else {
        name_le(a.skip(1), b.skip(1))
    }
}

/// Where a stable insertion puts a record named `name`: after the last record
/// whose name is not greater.
pub open spec fn insert_pos(s: Seq<RecordView>, name: Seq<char>) -> nat
    decreases s.len(),
{
    if s.len() == 0 {
        0
    } else if name_le(s.last().name, name) {
        s.len()
    } else {
        insert_pos(s.drop_last(), name)
    }
}

/// The records in name order, records of equal names in registry order.
pub open spec fn sorted_by_name(s: Seq<RecordView>) -> Seq<RecordView>
    decreases s.len(),
{
    if s.len() == 0 {
        Seq::empty()
    } else {
        let t = sorted_by_name(s.drop_last());
        t.insert(insert_pos(t, s.last().name) as int, s.last())
    }
}

fn name_le_exec(a: &str, b: &str) -> (r: bool)
    ensures
        r == name_le(a@, b@),
{
    let x = chars_of(a);
    let y = chars_of(b);
    let mut i: usize = 0;
    assert(a@.skip(0) =~= a@);
    assert(b@.skip(0) =~= b@);
    while i < x.len() && i < y.len() && x[i] == y[i]
        invariant
            x@ == a@,
            y@ == b@,
            i <= x.len(),
            i <= y.len(),
            name_le(a@, b@) == name_le(a@.skip(i as int), b@.skip(i as int)),
        decreases x.len() - i,
    {
        proof {
            let sa = a@.skip(i as int);
            let sb = b@.skip(i as int);
            assert(sa[0] == sb[0]);
            assert(sa.skip(1) =~= a@.skip(i + 1));
            assert(sb.skip(1) =~= b@.skip(i + 1));
        }
        i += 1;
    }
    if i == x.len() {
        return true;
    }
    if i == y.len() {
        return false;
    }
    assert(a@.skip(i as int)[0] == x@[i as int]);
    assert(b@.skip(i as int)[0] == y@[i as int]);
    x[i] < y[i]
}

impl<R: UvRunner, S: ProjectStore> ProjectManager<R, S> {
    /// The registered Projects ordered by name; Projects of equal names keep
    /// their registry order.
    pub fn list(&self) -> (r: Vec<ProjectRecord>)
        ensures
            r@.map_values(|p: ProjectRecord| p@) == sorted_by_name(self.records()),
            names_sorted(r@.map_values(|p: ProjectRecord| p@)),
            r@.map_values(|p: ProjectRecord| p@).to_multiset() == self.records().to_multiset(),
            forall|n: Seq<char>| named(r@.map_values(|p: ProjectRecord| p@), n) == #[trigger] named(self.records(), n),
    {
        let mut out: Vec<ProjectRecord> = Vec::new();
        let mut i: usize = 0;
        while i < self.registry.projects.len()
            invariant
                i <= self.registry.projects.len(),
                out@.map_values(|p: ProjectRecord| p@) == sorted_by_name(self.records().take(i as int)),
            decreases self.registry.projects.len() - i,
        {
            let record = self.registry.projects[i].clone();
            let ghost ov = out@.map_values(|p: ProjectRecord| p@);
            let ghost nm = record@.name;
            let mut p: usize = out.len();
            assert(ov.take(p as int) =~= ov);
            while p > 0 && !name_le_exec(
                out[p - 1].project.name.as_str(),
                record.project.name.as_str(),
            )
                invariant
                    p <= out.len(),
                    ov == out@.map_values(|q: ProjectRecord| q@),
                    nm == record@.name,
                    insert_pos(ov, nm) == insert_pos(ov.take(p as int), nm),
                decreases p,
            {
                proof {
                    let t = ov.take(p as int);
                    assert(t.last() == ov[p - 1]);
                    assert(t.drop_last() =~= ov.take(p - 1));
                }
                p -= 1;
            }
            proof {
                let t = ov.take(p as int);
                if p > 0 {
                    assert(t.last() == ov[p - 1]);
                }
                assert(insert_pos(ov, nm) == p);
                let s = self.records().take(i + 1);
                assert(s.drop_last() =~= self.records().take(i as int));
                assert(s.last() == record@);
            }
            out.insert(p, record);
            proof {
                assert(out@.map_values(|q: ProjectRecord| q@) =~= ov.insert(p as int, self.records()[i as int]));
            }
            i += 1;
        }
        assert(self.records().take(self.registry.projects.len() as int) =~= self.records());
        proof {
            lemma_list_sorted(self.records());
            lemma_list_permutation(self.records());
            assert forall|n: Seq<char>| named(out@.map_values(|p: ProjectRecord| p@), n) == #[trigger] named(self.records(), n) by {
                lemma_list_stable(self.records(), n);
            }
        }
        out
    }
}

/// Every name is ordered before or equal to itself.
pub proof fn lemma_name_le_reflexive(a: Seq<char>)
    ensures
        name_le(a, a),
    decreases a.len(),
{
    if a.len() > 0 {
        lemma_name_le_reflexive(a.skip(1));
    }
}

/// Any two names are ordered one way or the other.
pub proof fn lemma_name_le_total(a: Seq<char>, b: Seq<char>)
    ensures
        name_le(a, b) || name_le(b, a),
    decreases a.len(),
{
    if a.len() > 0 && b.len() > 0 && a[0] == b[0] {
        lemma_name_le_total(a.skip(1), b.skip(1));
    }
}

/// The name order is transitive.
pub proof fn lemma_name_le_transitive(a: Seq<char>, b: Seq<char>, c: Seq<char>)
    requires
        name_le(a, b),
        name_le(b, c),
    ensures
        name_le(a, c),
    decreases a.len(),
{
    if a.len() > 0 && b.len() > 0 && c.len() > 0 && a[0] == b[0] && b[0] == c[0] {
        lemma_name_le_transitive(a.skip(1), b.skip(1), c.skip(1));
    }
}

/// Names in non-decreasing order.
pub open spec fn names_sorted(s: Seq<RecordView>) -> bool {
    forall|i: int, j: int| 0 <= i < j < s.len() ==> name_le(#[trigger] s[i].name, #[trigger] s[j].name)
}

proof fn lemma_insert_pos(t: Seq<RecordView>, name: Seq<char>)
    ensures
        insert_pos(t, name) <= t.len(),
        insert_pos(t, name) > 0 ==> name_le(t[insert_pos(t, name) - 1].name, name),
        forall|k: int| insert_pos(t, name) <= k < t.len() ==> !name_le(#[trigger] t[k].name, name),
    decreases t.len(),
{
    if t.len() > 0 && !name_le(t.last().name, name) {
        lemma_insert_pos(t.drop_last(), name);
        let p = insert_pos(t, name);
        assert forall|k: int| p <= k < t.len() implies !name_le(#[trigger] t[k].name, name) by {
            if k < t.len() - 1 {
                assert(t[k] == t.drop_last()[k]);
            }
        }
        if p > 0 {
            assert(t[p - 1] == t.drop_last()[p - 1]);
        }
    }
}

proof fn lemma_insert_sorted(t: Seq<RecordView>, x: RecordView)
    requires
        names_sorted(t),
    ensures
        names_sorted(t.insert(insert_pos(t, x.name) as int, x)),
{
    let p = insert_pos(t, x.name) as int;
    lemma_insert_pos(t, x.name);
    let u = t.insert(p, x);
    assert(u.len() == t.len() + 1);
    assert forall|k: int| 0 <= k < p implies name_le(#[trigger] t[k].name, x.name) by {
        if k < p - 1 {
            assert(name_le(t[k].name, t[p - 1].name));
            lemma_name_le_transitive(t[k].name, t[p - 1].name, x.name);
        }
    }
    assert forall|k: int| p <= k < t.len() implies name_le(x.name, #[trigger] t[k].name) by {
        lemma_name_le_total(x.name, t[k].name);
    }
    assert forall|k: int| 0 <= k < u.len() implies #[trigger] u[k] == (if k < p {
        t[k]
    } else if k == p {
        x
    } else {
        t[k - 1]
    }) by {}
    assert forall|i: int, j: int| 0 <= i < j < u.len() implies name_le(#[trigger] u[i].name, #[trigger] u[j].name) by {
        if j < p {
            assert(name_le(t[i].name, t[j].name));
        } else if j == p {
        } else if i < p {
            lemma_name_le_transitive(t[i].name, x.name, t[j - 1].name);
        } else if i == p {
        } else {
            assert(name_le(t[i - 1].name, t[j - 1].name));
        }
    }
}

/// The listing is in name order.
pub proof fn lemma_list_sorted(records: Seq<RecordView>)
    ensures
        names_sorted(sorted_by_name(records)),
    decreases records.len(),
{
    if records.len() > 0 {
        lemma_list_sorted(records.drop_last());
        lemma_insert_sorted(sorted_by_name(records.drop_last()), records.last());
    }
}

/// The listing holds exactly the registered records.
pub proof fn lemma_list_permutation(records: Seq<RecordView>)
    ensures
        sorted_by_name(records).to_multiset() == records.to_multiset(),
    decreases records.len(),
{
    if records.len() > 0 {
        let t = sorted_by_name(records.drop_last());
        let p = insert_pos(t, records.last().name) as int;
        lemma_list_permutation(records.drop_last());
        lemma_insert_pos(t, records.last().name);
        assert(sorted_by_name(records) == t.insert(p, records.last()));
        vstd::seq_lib::to_multiset_insert(t, p, records.last());
        vstd::seq_lib::to_multiset_build(records.drop_last(), records.last());
        assert(records.drop_last().push(records.last()) =~= records);
        assert(t.insert(p, records.last()).to_multiset() == t.to_multiset().insert(records.last()));
    } else {
        assert(records =~= Seq::<RecordView>::empty());
    }
}

/// Recording the same fingerprint again changes nothing: a second sync with
/// unchanged lock inputs keeps the generation.
pub proof fn lemma_refresh_idempotent(before: Seq<RecordView>, id: u128, i: int, fingerprint: Seq<char>)
    requires
        first_with_id(before, i, id),
    ensures
        first_with_id(before.update(i, refreshed(before[i], fingerprint)), i, id),
        ({
            let after = before.update(i, refreshed(before[i], fingerprint));
            after.update(i, refreshed(after[i], fingerprint)) == after
        }),
{
    let after = before.update(i, refreshed(before[i], fingerprint));
    assert(after[i].fingerprint == Some(fingerprint));
    assert forall|j: int| 0 <= j < i implies (#[trigger] after[j]).id != id by {
        assert(after[j] == before[j]);
    }
    assert(after.update(i, refreshed(after[i], fingerprint)) =~= after);
}

/// A new fingerprint moves the generation on by one (until it reaches its
/// largest value); the same fingerprint leaves it; it never goes back.
pub proof fn lemma_refresh_generation(r: RecordView, fingerprint: Seq<char>)
    ensures
        refreshed(r, fingerprint).generation >= r.generation,
        refreshed(r, fingerprint).fingerprint == Some(fingerprint),
        r.fingerprint == Some(fingerprint) ==> refreshed(r, fingerprint) == r,
        r.fingerprint != Some(fingerprint) && r.generation < u64::MAX ==> refreshed(r, fingerprint).generation
            == r.generation + 1,
        refreshed(r, fingerprint).id == r.id && refreshed(r, fingerprint).name == r.name && refreshed(
            r,
            fingerprint,
        ).root == r.root,
{
}

/// A record is listed after it was added: the listing of the records with a
/// new one pushed contains it.
pub proof fn lemma_created_is_listed(records: Seq<RecordView>, rec: RecordView)
    ensures
        sorted_by_name(records.push(rec)).contains(rec),
{
    lemma_list_permutation(records.push(rec));
    vstd::seq_lib::to_multiset_build(records, rec);
    assert(records.push(rec).to_multiset().count(rec) > 0) by {
        broadcast use vstd::multiset::group_multiset_axioms;
    }
    vstd::seq_lib::to_multiset_contains(sorted_by_name(records.push(rec)), rec);
}

/// Dropping a freshly created or registered Project from the registry gives
/// back the registry as it was before: the record appended last is the first
/// with its identifier when the identifier was new, and removing it undoes the append.
pub proof fn lemma_remove_undoes_append(before: Seq<RecordView>, rec: RecordView)
    requires
        absent(before, rec.id),
    ensures
        first_with_id(before.push(rec), before.len() as int, rec.id),
        forall|i: int| first_with_id(before.push(rec), i, rec.id) ==> before.push(rec).remove(i) == before,
{
    let after = before.push(rec);
    assert(after[before.len() as int] == rec);
    assert forall|j: int| 0 <= j < before.len() implies (#[trigger] after[j]).id != rec.id by {
        assert(after[j] == before[j]);
    }
    assert forall|i: int| first_with_id(after, i, rec.id) implies after.remove(i) == before by {
        lemma_first_unique(after, i, before.len() as int, rec.id);
        assert(after.remove(i) =~= before);
    }
}

/// Removing the only record of an identifier leaves none: a Project removed
/// from the registry is not found afterwards.
pub proof fn lemma_removed_is_absent(records: Seq<RecordView>, i: int, id: u128)
    requires
        first_with_id(records, i, id),
        forall|j: int| 0 <= j < records.len() && j != i ==> (#[trigger] records[j]).id != id,
    ensures
        absent(records.remove(i), id),
{
    assert forall|j: int| 0 <= j < records.remove(i).len() implies (#[trigger] records.remove(i)[j]).id != id by {
        if j < i {
            assert(records.remove(i)[j] == records[j]);
        } else {
            assert(records.remove(i)[j] == records[j + 1]);
        }
    }
}

/// The records named `n`, in order.
pub open spec fn named(s: Seq<RecordView>, n: Seq<char>) -> Seq<RecordView> {
    s.filter(|r: RecordView| r.name == n)
}

/// The listing is stable: records of one name come in their registry order.
pub proof fn lemma_list_stable(records: Seq<RecordView>, n: Seq<char>)
    ensures
        named(sorted_by_name(records), n) == named(records, n),
    decreases records.len(),
{
    let pred = |r: RecordView| r.name == n;
    if records.len() == 0 {
        assert(sorted_by_name(records) =~= records);
    } else {
        let s1 = records.drop_last();
        let x = records.last();
        let t = sorted_by_name(s1);
        let p = insert_pos(t, x.name) as int;
        lemma_list_stable(s1, n);
        lemma_insert_pos(t, x.name);
        let a = t.take(p);
        let b = t.skip(p);
        assert(sorted_by_name(records) == t.insert(p, x));
        assert(t.insert(p, x) =~= a + seq![x] + b);
        assert(t =~= a + b);
        Seq::filter_distributes_over_add(a + seq![x], b, pred);
        Seq::filter_distributes_over_add(a, seq![x], pred);
        Seq::filter_distributes_over_add(a, b, pred);
        assert(seq![x] =~= Seq::<RecordView>::empty().push(x));
        Seq::<RecordView>::empty().lemma_filter_push(x, pred);
        assert(Seq::<RecordView>::empty().filter(pred) =~= Seq::<RecordView>::empty()) by {
            reveal(Seq::filter);
        }
        assert(records =~= s1.push(x));
        s1.lemma_filter_push(x, pred);
        if x.name == n {
            assert forall|k: int| 0 <= k < b.len() implies !pred(#[trigger] b[k]) by {
                assert(b[k] == t[p + k]);
                lemma_name_le_reflexive(n);
            }
            b.lemma_all_neg_filter_empty(pred);
            assert(b.filter(pred) =~= Seq::<RecordView>::empty());
            assert(named(sorted_by_name(records), n) =~= named(records, n));
        } else {
            assert(named(sorted_by_name(records), n) =~= named(records, n));
        }
    }
}

} // verus!
