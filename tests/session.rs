use std::collections::HashMap;

use open_editor::editor_call_builder::scratch_path;
use open_editor::{
    BinaryInfo, Editor, EditorCallBuilder, EditorKind, EditorSession, Event, OpenEditorError,
    Progress, Request, Stage,
};

fn io_err(msg: &str) -> std::io::Error {
    std::io::Error::new(std::io::ErrorKind::Other, msg.to_string())
}

/// A stand-in for the outside world: environment, files and an editor.
struct World {
    env: HashMap<String, String>,
    files: HashMap<String, String>,
    binary_is_file: bool,
    binary_mode: Option<u32>,
    exit_code: Option<i32>,
    spawn_fails: bool,
    /// What the editor saves into the file, if anything.
    saves: Option<String>,
    write_fails: bool,
    read_fails: bool,
    remove_fails: bool,
    log: Vec<String>,
    spawned: Vec<(String, Vec<String>, bool)>,
}

impl World {
    fn new() -> Self {
        World {
            env: HashMap::new(),
            files: HashMap::new(),
            binary_is_file: true,
            binary_mode: Some(0o755),
            exit_code: Some(0),
            spawn_fails: false,
            saves: None,
            write_fails: false,
            read_fails: false,
            remove_fails: false,
            log: Vec::new(),
            spawned: Vec::new(),
        }
    }

    fn perform(&mut self, req: Request) -> Event {
        match req {
            Request::WriteFile { path, content } => {
                self.log.push(format!("write {}", path));
                if self.write_fails {
                    return Event::Written(Err(io_err("write")));
                }
                self.files.insert(path, content);
                Event::Written(Ok(()))
            }
            Request::ReadEnv { names } => {
                self.log.push(format!("env {}", names.join(",")));
                Event::EnvRead(names.iter().map(|n| self.env.get(n).cloned()).collect())
            }
            Request::InspectBinary { path } => {
                self.log.push(format!("inspect {}", path));
                Event::Inspected(BinaryInfo {
                    is_file: self.binary_is_file,
                    unix_mode: self.binary_mode.map(Ok),
                })
            }
            Request::Spawn { program, args, wait } => {
                self.log.push(format!("spawn {}", program));
                self.spawned.push((program, args.clone(), wait));
                if self.spawn_fails {
                    return Event::ProcessFailed(io_err("spawn"));
                }
                if let Some(text) = &self.saves {
                    let path = args.last().unwrap().clone();
                    self.files.insert(path, text.clone());
                }
                if wait {
                    Event::Exited { exit_code: self.exit_code, stderr: "oops".to_string() }
                } else {
                    Event::Detached
                }
            }
            Request::ReadFile { path } => {
                self.log.push(format!("read {}", path));
                if self.read_fails {
                    return Event::FileRead(Err(io_err("read")));
                }
                match self.files.get(&path) {
                    Some(t) => Event::FileRead(Ok(t.clone())),
                    None => Event::FileRead(Err(io_err("missing"))),
                }
            }
            Request::RemoveFile { path } => {
                self.log.push(format!("remove {}", path));
                if self.remove_fails {
                    return Event::Removed(Err(io_err("remove")));
                }
                self.files.remove(&path);
                Event::Removed(Ok(()))
            }
        }
    }

    fn run(&mut self, mut session: EditorSession) -> Result<Option<String>, OpenEditorError> {
        loop {
            let req = session.request();
            let event = self.perform(req);
            assert!(session.accepts_event(&event));
            match session.advance(event) {
                Progress::Pending(next) => session = next,
                Progress::Finished(outcome) => return outcome,
            }
        }
    }
}

fn unknown_editor() -> Editor {
    Editor::from_bin_path("/usr/bin/myedit".to_string())
}

#[test]
fn search_order_puts_custom_vars_first() {
    let b = EditorCallBuilder::new().with_env_vars(&["MY_EDITOR"]).with_env_vars(&["OTHER"]);
    assert_eq!(b.search_order(), vec!["MY_EDITOR", "OTHER", "VISUAL", "EDITOR"]);
    assert_eq!(EditorCallBuilder::new().search_order(), vec!["VISUAL", "EDITOR"]);
}

#[test]
fn custom_var_wins_over_editor() {
    let s = EditorCallBuilder::new().with_env_vars(&["MY_EDITOR"]).open_file("/tmp/f");
    assert!(matches!(s.request(), Request::ReadEnv { names } if names == vec!["MY_EDITOR", "VISUAL", "EDITOR"]));
    let values = vec![Some("nano".to_string()), None, Some("vim".to_string())];
    match s.advance(Event::EnvRead(values)) {
        Progress::Pending(next) => match &next.stage {
            Stage::Inspect(ed) => assert!(matches!(ed.editor_type, EditorKind::Nano)),
            other => panic!("unexpected {:?}", other),
        },
        other => panic!("unexpected {:?}", other),
    }
}

#[test]
fn visual_wins_over_editor() {
    let s = EditorCallBuilder::new().open_file("/tmp/f");
    let values = vec![Some("emacs".to_string()), Some("vim".to_string())];
    match s.advance(Event::EnvRead(values)) {
        Progress::Pending(next) => match &next.stage {
            Stage::Inspect(ed) => assert!(matches!(ed.editor_type, EditorKind::Emacs)),
            other => panic!("unexpected {:?}", other),
        },
        other => panic!("unexpected {:?}", other),
    }
}

#[test]
fn empty_value_is_unset() {
    let s = EditorCallBuilder::new().open_file("/tmp/f");
    let values = vec![Some("".to_string()), Some("vi".to_string())];
    match s.advance(Event::EnvRead(values)) {
        Progress::Pending(next) => match &next.stage {
            Stage::Inspect(ed) => assert!(matches!(ed.editor_type, EditorKind::Vi)),
            other => panic!("unexpected {:?}", other),
        },
        other => panic!("unexpected {:?}", other),
    }
}

#[test]
fn empty_editor_var_gives_no_editor_found() {
    let mut w = World::new();
    w.env.insert("EDITOR".to_string(), String::new());
    let s = EditorCallBuilder::new().open_file("/tmp/f");
    assert!(matches!(w.run(s), Err(OpenEditorError::NoEditorFound)));
}

#[test]
fn unknown_env_editor_keeps_name_and_gets_path_only() {
    let mut w = World::new();
    w.env.insert("EDITOR".to_string(), "some-random-name".to_string());
    let s = EditorCallBuilder::new().at_line(4).open_file("/tmp/f");
    let _ = w.run(s);
    assert_eq!(w.spawned.len(), 1);
    assert_eq!(w.spawned[0].1, vec!["/tmp/f"]);
}

#[test]
fn open_file_with_editor_runs_at_position() {
    let mut w = World::new();
    let ed = Editor::new(EditorKind::Vim, "/usr/bin/vim".to_string());
    let s = EditorCallBuilder::new().with_editor(ed).at_line(3).at_column(7).open_file("/tmp/f");
    assert!(matches!(w.run(s), Ok(None)));
    assert_eq!(w.log, vec!["inspect /usr/bin/vim", "spawn /usr/bin/vim"]);
    assert_eq!(
        w.spawned[0],
        ("/usr/bin/vim".to_string(), vec!["+call cursor(3, 7)".to_string(), "/tmp/f".to_string()], true)
    );
}

#[test]
fn detached_editor_succeeds_at_once() {
    let mut w = World::new();
    w.exit_code = Some(3);
    let ed = Editor::new(EditorKind::Code, "/usr/bin/code".to_string());
    let s = EditorCallBuilder::new().with_editor(ed).wait_for_editor(false).open_file("/tmp/f");
    assert!(matches!(w.run(s), Ok(None)));
    assert_eq!(w.spawned[0].1, vec!["--goto", "/tmp/f:1:1"]);
    assert!(!w.spawned[0].2);
}

#[test]
fn missing_binary_is_editor_not_found() {
    let mut w = World::new();
    w.binary_is_file = false;
    let s = EditorCallBuilder::new().with_editor(unknown_editor()).open_file("/tmp/f");
    match w.run(s) {
        Err(OpenEditorError::EditorNotFound { binary_path }) => assert_eq!(binary_path, "/usr/bin/myedit"),
        other => panic!("unexpected {:?}", other),
    }
    assert!(w.spawned.is_empty());
}

#[test]
fn binary_without_exec_bit_is_not_executable() {
    let mut w = World::new();
    w.binary_mode = Some(0o644);
    let s = EditorCallBuilder::new().with_editor(unknown_editor()).open_file("/tmp/f");
    match w.run(s) {
        Err(OpenEditorError::EditorNotExecutable { binary_path, error }) => {
            assert_eq!(binary_path, "/usr/bin/myedit");
            assert!(error.is_none());
        }
        other => panic!("unexpected {:?}", other),
    }
}

#[test]
fn exec_bit_for_others_is_enough_and_no_bits_is_fine_without_modes() {
    let ed = unknown_editor();
    assert!(ed.validate_executable(BinaryInfo { is_file: true, unix_mode: Some(Ok(0o001)) }).is_ok());
    assert!(ed.validate_executable(BinaryInfo { is_file: true, unix_mode: Some(Ok(0o010)) }).is_ok());
    assert!(ed.validate_executable(BinaryInfo { is_file: true, unix_mode: None }).is_ok());
    match ed.validate_executable(BinaryInfo { is_file: true, unix_mode: Some(Err(io_err("meta"))) }) {
        Err(OpenEditorError::EditorNotExecutable { error: Some(_), .. }) => {}
        other => panic!("unexpected {:?}", other),
    }
}

#[test]
fn spawn_failure_is_command_fail() {
    let mut w = World::new();
    w.spawn_fails = true;
    let s = EditorCallBuilder::new().with_editor(unknown_editor()).open_file("/tmp/f");
    assert!(matches!(w.run(s), Err(OpenEditorError::CommandFail { .. })));
}

#[test]
fn failing_exit_is_editor_call_error() {
    let mut w = World::new();
    w.exit_code = None;
    let s = EditorCallBuilder::new().with_editor(unknown_editor()).open_file("/tmp/f");
    match w.run(s) {
        Err(OpenEditorError::EditorCallError { exit_code, stderr }) => {
            assert_eq!(exit_code, None);
            assert_eq!(stderr, "oops");
        }
        other => panic!("unexpected {:?}", other),
    }
}

#[test]
fn scratch_path_joins_directory_and_name() {
    assert_eq!(scratch_path("/tmp"), "/tmp/open_editor_tmp_file");
    assert_eq!(scratch_path("/tmp/"), "/tmp/open_editor_tmp_file");
    assert_eq!(scratch_path(""), "/open_editor_tmp_file");
}

#[test]
fn edit_string_returns_saved_text_and_removes_scratch() {
    let mut w = World::new();
    w.saves = Some("edited".to_string());
    let b = EditorCallBuilder::new().with_editor(unknown_editor());
    let s = b.edit_string("initial", "/tmp");
    assert_eq!(s.target, "/tmp/open_editor_tmp_file");
    assert!(s.scratch);
    match w.run(s) {
        Ok(Some(t)) => assert_eq!(t, "edited"),
        other => panic!("unexpected {:?}", other),
    }
    assert!(w.files.is_empty());
    assert_eq!(w.log.last().unwrap(), "remove /tmp/open_editor_tmp_file");
}

#[test]
fn two_empty_edits_leave_no_scratch_file() {
    let mut w = World::new();
    w.env.insert("EDITOR".to_string(), "true".to_string());
    let b = EditorCallBuilder::new();
    for _ in 0..2 {
        let s = b.edit_string("", "/tmp");
        match w.run(s) {
            Ok(Some(t)) => assert_eq!(t, ""),
            other => panic!("unexpected {:?}", other),
        }
        assert!(w.files.is_empty());
    }
    let removes = w.log.iter().filter(|l| l.starts_with("remove ")).count();
    assert_eq!(removes, 2);
}

#[test]
fn open_editor_starts_from_empty_text() {
    let s = EditorCallBuilder::new().open_editor("/tmp");
    assert_eq!(s.content, "");
    assert!(matches!(s.request(), Request::WriteFile { path, content } if path == "/tmp/open_editor_tmp_file" && content.is_empty()));
}

#[test]
fn editor_failure_still_removes_scratch() {
    let mut w = World::new();
    w.exit_code = Some(1);
    let s = EditorCallBuilder::new().with_editor(unknown_editor()).edit_string("x", "/tmp");
    match w.run(s) {
        Err(OpenEditorError::EditorCallError { exit_code, .. }) => assert_eq!(exit_code, Some(1)),
        other => panic!("unexpected {:?}", other),
    }
    assert!(w.files.is_empty());
    assert_eq!(w.log.last().unwrap(), "remove /tmp/open_editor_tmp_file");
}

#[test]
fn editor_failure_is_not_masked_by_cleanup_failure() {
    let mut w = World::new();
    w.exit_code = Some(2);
    w.remove_fails = true;
    let s = EditorCallBuilder::new().with_editor(unknown_editor()).edit_string("x", "/tmp");
    assert!(matches!(w.run(s), Err(OpenEditorError::EditorCallError { exit_code: Some(2), .. })));
}

#[test]
fn cleanup_failure_alone_is_reported() {
    let mut w = World::new();
    w.remove_fails = true;
    let s = EditorCallBuilder::new().with_editor(unknown_editor()).edit_string("x", "/tmp");
    match w.run(s) {
        Err(OpenEditorError::TempFileCleanupFail(p)) => assert_eq!(p, "/tmp/open_editor_tmp_file"),
        other => panic!("unexpected {:?}", other),
    }
}

#[test]
fn write_failure_is_file_manipulation_fail() {
    let mut w = World::new();
    w.write_fails = true;
    let s = EditorCallBuilder::new().with_editor(unknown_editor()).edit_string("x", "/tmp");
    assert!(matches!(w.run(s), Err(OpenEditorError::FileManipulationFail(_))));
    assert!(w.spawned.is_empty());
    assert_eq!(w.log.last().unwrap(), "remove /tmp/open_editor_tmp_file");
}

#[test]
fn read_failure_is_file_manipulation_fail_and_cleans_up() {
    let mut w = World::new();
    w.read_fails = true;
    let s = EditorCallBuilder::new().with_editor(unknown_editor()).edit_string("x", "/tmp");
    assert!(matches!(w.run(s), Err(OpenEditorError::FileManipulationFail(_))));
    assert!(w.files.is_empty());
}

#[test]
fn caller_file_is_never_removed() {
    let mut w = World::new();
    w.saves = Some("new".to_string());
    let b = EditorCallBuilder::new()
        .with_editor(unknown_editor())
        .with_file_path("/home/u/notes.txt".to_string());
    let s = b.edit_string("old", "/tmp");
    assert!(!s.scratch);
    match w.run(s) {
        Ok(Some(t)) => assert_eq!(t, "new"),
        other => panic!("unexpected {:?}", other),
    }
    assert_eq!(w.files.get("/home/u/notes.txt").unwrap(), "new");
    assert!(w.log.iter().all(|l| !l.starts_with("remove ")));
}

#[test]
fn caller_file_failure_keeps_file() {
    let mut w = World::new();
    w.exit_code = Some(1);
    let b = EditorCallBuilder::new()
        .with_editor(unknown_editor())
        .with_file_path("/home/u/notes.txt".to_string());
    assert!(matches!(w.run(b.edit_string("old", "/tmp")), Err(OpenEditorError::EditorCallError { .. })));
    assert!(w.files.contains_key("/home/u/notes.txt"));
}

#[test]
fn edit_string_mut_replaces_on_success_only() {
    let mut s = "before".to_string();
    assert!(EditorCallBuilder::edit_string_mut(&mut s, Ok("after".to_string())).is_ok());
    assert_eq!(s, "after");
    let r = EditorCallBuilder::edit_string_mut(&mut s, Err(OpenEditorError::NoEditorFound));
    assert!(matches!(r, Err(OpenEditorError::NoEditorFound)));
    assert_eq!(s, "after");
}

#[test]
fn mismatched_event_is_refused() {
    let s = EditorCallBuilder::new().open_file("/tmp/f");
    assert!(!s.accepts_event(&Event::Detached));
    assert!(!s.accepts_event(&Event::EnvRead(vec![None])));
    assert!(s.accepts_event(&Event::EnvRead(vec![None, None])));
}

#[test]
fn builder_defaults() {
    let s = EditorCallBuilder::default().open_file("f");
    assert!(s.wait);
    assert_eq!((s.line, s.column), (1, 1));
    assert!(s.editor.is_none());
}
