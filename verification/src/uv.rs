//! The uv command lines that manage a Project's environment, and how the
//! outcome of one run is judged.
use vstd::prelude::*;

use crate::session::evidence::{from_utf8_lossy, utf8_lossy};
use crate::text::{concat3, push_char, string_of};

verus! {

/// The arguments of one uv run, program name excluded.
#[derive(Debug)]
pub struct UvInvocation {
    pub args: Vec<String>,
}

impl View for UvInvocation {
    type V = Seq<Seq<char>>;

    open spec fn view(&self) -> Seq<Seq<char>> {
        self.args@.map_values(|a: String| a@)
    }
}

/// The arguments joined by single spaces.
pub open spec fn joined(args: Seq<Seq<char>>) -> Seq<char>
    decreases args.len(),
{
    if args.len() == 0 {
        Seq::empty()
    } else if args.len() == 1 {
        args[0]
    } else {
        joined(args.drop_last()) + seq![' '] + args.last()
    }
}

impl UvInvocation {
    /// The command line as one text, arguments separated by a space.
    pub fn display(&self) -> (r: String)
        ensures
            r@ == joined(self@),
    {
        let mut out = String::new();
        let mut i: usize = 0;
        assert(self@.take(0) =~= Seq::<Seq<char>>::empty());
        while i < self.args.len()
            invariant
                i <= self.args.len(),
                out@ == joined(self@.take(i as int)),
            decreases self.args.len() - i,
        {
            if i > 0 {
                push_char(&mut out, ' ');
            }
            crate::text::append_text(&mut out, self.args[i].as_str());
            proof {
                let t = self@.take(i + 1);
                assert(t.drop_last() =~= self@.take(i as int));
                assert(t.last() == self.args@[i as int]@);
                if i == 0 {
                    assert(out@ =~= joined(t));
                }
            }
            i += 1;
        }
        assert(self@.take(self.args.len() as int) =~= self@);
        out
    }
}

impl Clone for UvInvocation {
    fn clone(&self) -> (r: Self)
        ensures
            r@ == self@,
    {
        let mut args: Vec<String> = Vec::new();
        let mut i: usize = 0;
        while i < self.args.len()
            invariant
                i <= self.args.len(),
                args@.len() == i,
                forall|k: int| 0 <= k < i ==> (#[trigger] args@[k])@ == self.args@[k]@,
            decreases self.args.len() - i,
        {
            args.push(string_of(self.args[i].as_str()));
            i += 1;
        }
        let r = UvInvocation { args };
        assert(r@ =~= self@);
        r
    }
}

/// What a finished uv run printed and how it exited.
#[derive(Debug)]
pub struct UvCommandResult {
    pub status_code: Option<i32>,
    pub stdout: String,
    pub stderr: String,
}

/// A uv run that did not succeed.
#[derive(Debug)]
pub enum UvError {
    /// The program could not be started; the system's message.
    Launch { message: String },
    /// The program exited unsuccessfully.
    CommandFailed { invocation: String, status_code: Option<i32>, stderr: String },
}

/// The text of a uv error.
pub open spec fn uv_error_text(e: UvError) -> Seq<char> {
    match e {
        UvError::Launch { message } => "failed to launch uv: "@ + message@,
        UvError::CommandFailed { invocation, stderr, .. } => "uv command failed ("@ + invocation@
            + "): "@ + stderr@,
    }
}

impl UvError {
    /// The message of the error.
    pub fn describe(&self) -> (r: String)
        ensures
            r@ == uv_error_text(*self),
    {
        match self {
            UvError::Launch { message } => crate::text::concat2("failed to launch uv: ", message.as_str()),
            UvError::CommandFailed { invocation, stderr, .. } => {
                let mut r = concat3("uv command failed (", invocation.as_str(), "): ");
                crate::text::append_text(&mut r, stderr.as_str());
                r
            },
        }
    }
}

impl Clone for UvError {
    fn clone(&self) -> (r: Self)
        ensures
            r == *self,
    {
        match self {
            UvError::Launch { message } => UvError::Launch { message: message.clone() },
            UvError::CommandFailed { invocation, status_code, stderr } => UvError::CommandFailed {
                invocation: invocation.clone(),
                status_code: *status_code,
                stderr: stderr.clone(),
            },
        }
    }
}

/// Runs uv. Implementations decide how; the manager is correct whatever they answer.
pub trait UvRunner {
    fn run(&self, invocation: &UvInvocation) -> Result<UvCommandResult, UvError>;
}

/// Runs the uv program found at `executable`.
#[derive(Debug)]
pub struct CommandUvRunner {
    pub executable: String,
}

impl CommandUvRunner {
    /// A runner for the given program.
    pub fn new(executable: &str) -> (r: Self)
        ensures
            r.executable@ == executable@,
    {
        CommandUvRunner { executable: string_of(executable) }
    }

    /// Judges a finished run: an exit code of 0 is success; any other code, or
    /// none (ended by a signal), is `CommandFailed` with the invocation's text.
    /// The output bytes are decoded leniently.
    pub fn finish(
        &self,
        invocation: &UvInvocation,
        status_code: Option<i32>,
        stdout: &[u8],
        stderr: &[u8],
    ) -> (r: Result<UvCommandResult, UvError>)
        ensures
            status_code == Some(0i32) ==> (match r {
                Ok(res) => res.status_code == status_code && res.stdout@ == utf8_lossy(stdout@)
                    && res.stderr@ == utf8_lossy(stderr@),
                Err(_) => false,
            }),
            status_code != Some(0i32) ==> (match r {
                Err(UvError::CommandFailed { invocation: inv, status_code: code, stderr: err }) =>
                    inv@ == joined(invocation@) && code == status_code && err@ == utf8_lossy(stderr@),
                _ => false,
            }),
    {
        let out = from_utf8_lossy(stdout);
        let err = from_utf8_lossy(stderr);
        match status_code {
            Some(0i32) => Ok(UvCommandResult { status_code, stdout: out, stderr: err }),
            _ => Err(UvError::CommandFailed { invocation: invocation.display(), status_code, stderr: err }),
        }
    }
}

/// The arguments of `uv init` for a bare Project that joins no parent workspace.
pub open spec fn init_args(project_root: Seq<char>, name: Seq<char>) -> Seq<Seq<char>> {
    seq!["init"@, "--bare"@, "--no-workspace"@, "--name"@, name, project_root]
}

/// `command --project <root>`.
pub open spec fn project_command_args(project_root: Seq<char>, command: Seq<char>) -> Seq<Seq<char>> {
    seq![command, "--project"@, project_root]
}

/// `command --project <root>` followed by the packages.
pub open spec fn package_args(command: Seq<char>, project_root: Seq<char>, packages: Seq<Seq<char>>) -> Seq<Seq<char>> {
    project_command_args(project_root, command) + packages
}

/// `uv init` for a new Project at `project_root` named `name`.
pub fn init_project(project_root: &str, name: &str) -> (r: UvInvocation)
    ensures
        r@ == init_args(project_root@, name@),
{
    let args = vec![
        string_of("init"),
        string_of("--bare"),
        string_of("--no-workspace"),
        string_of("--name"),
        string_of(name),
        string_of(project_root),
    ];
    let r = UvInvocation { args };
    assert(r@ =~= init_args(project_root@, name@));
    r
}

/// A uv command that names the Project root explicitly.
fn project_command(project_root: &str, command: &str) -> (r: UvInvocation)
    ensures
        r@ == project_command_args(project_root@, command@),
{
    let args = vec![string_of(command), string_of("--project"), string_of(project_root)];
    let r = UvInvocation { args };
    assert(r@ =~= project_command_args(project_root@, command@));
    r
}

/// `uv sync` for the Project at `project_root`.
pub fn sync_project(project_root: &str) -> (r: UvInvocation)
    ensures
        r@ == project_command_args(project_root@, "sync"@),
{
    project_command(project_root, "sync")
}

fn with_packages(command: &str, project_root: &str, packages: &[String]) -> (r: UvInvocation)
    ensures
        r@ == package_args(command@, project_root@, packages@.map_values(|p: String| p@)),
{
    let mut inv = project_command(project_root, command);
    let ghost base = inv@;
    let mut i: usize = 0;
    while i < packages.len()
        invariant
            i <= packages.len(),
            base == project_command_args(project_root@, command@),
            inv@ == base + packages@.map_values(|p: String| p@).take(i as int),
        decreases packages.len() - i,
    {
        let ghost before = inv@;
        inv.args.push(string_of(packages[i].as_str()));
        assert(inv@ =~= before.push(packages@[i as int]@));
        assert(packages@.map_values(|p: String| p@).take(i + 1) =~= packages@.map_values(
            |p: String| p@,
        ).take(i as int).push(packages@[i as int]@));
        assert(inv@ =~= base + packages@.map_values(|p: String| p@).take(i + 1));
        i += 1;
    }
    assert(packages@.map_values(|p: String| p@).take(packages.len() as int) =~= packages@.map_values(
        |p: String| p@,
    ));
    inv
}

/// `uv add` of the packages to the Project at `project_root`.
pub fn add_packages(project_root: &str, packages: &[String]) -> (r: UvInvocation)
    ensures
        r@ == package_args("add"@, project_root@, packages@.map_values(|p: String| p@)),
{
    with_packages("add", project_root, packages)
}

/// `uv remove` of the packages from the Project at `project_root`.
pub fn remove_packages(project_root: &str, packages: &[String]) -> (r: UvInvocation)
    ensures
        r@ == package_args("remove"@, project_root@, packages@.map_values(|p: String| p@)),
{
    with_packages("remove", project_root, packages)
}

} // verus!
