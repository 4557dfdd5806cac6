use cokernel::uv::{add_packages, init_project, remove_packages, sync_project, CommandUvRunner, UvError};

#[test]
fn init_is_bare_and_does_not_join_parent_workspace() {
    let invocation = init_project("/projects/demo", "demo");
    let rendered = invocation.display();
    assert!(rendered.contains("init --bare --no-workspace --name demo"));
    assert!(rendered.ends_with("/projects/demo"));
}

#[test]
fn project_commands_use_explicit_project_root() {
    let sync = sync_project("/projects/demo").display();
    assert_eq!(sync, "sync --project /projects/demo");

    let add = add_packages("/projects/demo", &["numpy".to_string(), "torch".to_string()]).display();
    assert_eq!(add, "add --project /projects/demo numpy torch");

    let remove = remove_packages("/projects/demo", &["numpy".to_string()]).display();
    assert_eq!(remove, "remove --project /projects/demo numpy");
}

#[test]
fn a_run_succeeds_only_with_exit_code_zero() {
    let runner = CommandUvRunner::new("uv");
    assert_eq!(runner.executable, "uv");
    let invocation = sync_project("/projects/demo");
    let ok = runner.finish(&invocation, Some(0), b"Resolved 1 package", b"").unwrap();
    assert_eq!(ok.status_code, Some(0));
    assert_eq!(ok.stdout, "Resolved 1 package");

    match runner.finish(&invocation, Some(1), b"", b"error: no lock\xff") {
        Err(UvError::CommandFailed { invocation, status_code, stderr }) => {
            assert_eq!(invocation, "sync --project /projects/demo");
            assert_eq!(status_code, Some(1));
            assert_eq!(stderr, "error: no lock\u{fffd}");
        }
        other => panic!("unexpected outcome {other:?}"),
    }
    assert!(matches!(runner.finish(&invocation, None, b"", b""), Err(UvError::CommandFailed { status_code: None, .. })));
    let launch = UvError::Launch { message: "No such file or directory (os error 2)".into() };
    assert_eq!(launch.describe(), "failed to launch uv: No such file or directory (os error 2)");
}
