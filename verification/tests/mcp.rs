use cokernel::mcp::{safe_read_annotations, GetVariableParams};

#[test]
fn safe_read_annotations_serialize_with_expected_hints() {
    let hints = safe_read_annotations("Get Variable");
    assert_eq!(hints.title.as_deref(), Some("Get Variable"));
    assert_eq!(hints.read_only_hint, Some(true));
    assert_eq!(hints.destructive_hint, Some(false));
    assert_eq!(hints.idempotent_hint, Some(true));
    assert_eq!(hints.open_world_hint, Some(false));
}

#[test]
fn variable_inspection_parameters_name_project_notebook_and_variable() {
    let params = GetVariableParams {
        project_id: "p".into(),
        notebook_id: "n".into(),
        name: "x".into(),
    };
    assert_eq!((params.project_id.as_str(), params.notebook_id.as_str(), params.name.as_str()), ("p", "n", "x"));
}
