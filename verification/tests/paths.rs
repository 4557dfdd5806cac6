use cokernel::ids::uuid_to_text;
use cokernel::paths::{path_components, path_file_name, path_join, path_starts_with, PathComponent};

fn normal(c: &PathComponent) -> Option<&str> {
    match c {
        PathComponent::Normal(s) => Some(s.as_str()),
        _ => None,
    }
}

#[test]
fn components_drop_repeated_separators_and_inner_dots() {
    let cs = path_components("/a//b/./c/");
    assert!(matches!(cs[0], PathComponent::RootDir));
    let rest: Vec<_> = cs[1..].iter().map(|c| normal(c).unwrap()).collect();
    assert_eq!(rest, vec!["a", "b", "c"]);

    let cur = path_components("./x/../y");
    assert!(matches!(cur[0], PathComponent::CurDir));
    assert_eq!(normal(&cur[1]), Some("x"));
    assert!(matches!(cur[2], PathComponent::ParentDir));
    assert_eq!(normal(&cur[3]), Some("y"));
    assert!(path_components("").is_empty());
}

#[test]
fn prefix_and_file_name_follow_components() {
    assert!(path_starts_with("/srv/projects/demo", "/srv/projects"));
    assert!(path_starts_with("/srv//projects/demo", "/srv/projects/"));
    assert!(!path_starts_with("/srv/projects2", "/srv/projects"));
    assert_eq!(path_file_name("/srv/projects/demo/").as_deref(), Some("demo"));
    assert_eq!(path_file_name("/srv/.."), None);
    assert_eq!(path_file_name("/"), None);
}

#[test]
fn join_adds_one_separator() {
    assert_eq!(path_join("/srv", "demo"), "/srv/demo");
    assert_eq!(path_join("/srv/", "demo"), "/srv/demo");
    assert_eq!(path_join("", "demo"), "demo");
}

#[test]
fn uuid_text_is_lowercase_hyphenated() {
    assert_eq!(uuid_to_text(0x0123456789abcdef0123456789abcdef), "01234567-89ab-cdef-0123-456789abcdef");
    assert_eq!(uuid_to_text(0), "00000000-0000-0000-0000-000000000000");
}

#[test]
fn identifiers_read_back_from_their_text() {
    let id = cokernel::domain::ProjectId::new();
    assert_eq!(cokernel::domain::ProjectId::parse(&id.to_string()), Some(id));
    assert_eq!(cokernel::domain::ProjectId::parse("not-a-uuid"), None);
    let op = cokernel::domain::OperationId::new();
    assert_eq!(cokernel::domain::OperationId::parse(&op.to_string()), Some(op));
}
