use open_editor::editor::path_or_name;
use open_editor::{Editor, EditorKind};

#[test]
fn from_bin_path_is_unknown_editor() {
    let ed = Editor::from_bin_path("/opt/ed".to_string());
    assert_eq!(ed.binary_path, "/opt/ed");
    match ed.editor_type {
        EditorKind::UnknownEditor(n) => assert_eq!(n, "/opt/ed"),
        other => panic!("unexpected {:?}", other),
    }
}

#[test]
fn path_or_name_prefers_found_path() {
    assert_eq!(path_or_name(Some("/usr/bin/vim".to_string()), "vim".to_string()), "/usr/bin/vim");
    assert_eq!(path_or_name(None, "vim".to_string()), "vim");
}

#[test]
fn full_path_of_missing_program_is_its_name() {
    let name = "no-such-editor-program-here";
    assert_eq!(Editor::get_full_path(name.to_string()), name);
}

#[test]
fn full_path_of_shell_is_searched() {
    // `sh` is on the search path of any Unix system
    let p = Editor::get_full_path("sh".to_string());
    assert_ne!(p, "sh");
    assert!(p.ends_with("/sh"), "{}", p);
}

#[test]
fn from_editor_kind_keeps_kind() {
    let ed = Editor::from_editor_kind(EditorKind::Kakoune);
    assert!(matches!(ed.editor_type, EditorKind::Kakoune));
    assert!(ed.binary_path.ends_with("kak"));
}
