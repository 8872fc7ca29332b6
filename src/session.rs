use crate::editor::{path_or_name_spec, validation, BinaryInfo, Editor};
use crate::editor_kind::{editor_args, kind_named, EditorKind};
use crate::errors::OpenEditorError;
use vstd::prelude::*;

verus! {

/// Where a session stands: the next piece of outside work it waits for.
#[derive(Debug)]
pub enum Stage {
    /// The initial text is to be written to the target file.
    Write,
    /// The environment variables of the search order are to be read.
    Env,
    /// The chosen editor's binary is to be inspected.
    Inspect(Editor),
    /// The chosen editor is to be run on the target file.
    Run(Editor),
    /// The edited file is to be read back.
    ReadBack,
    /// The scratch file is to be removed; the outcome so far is kept.
    Cleanup(Result<String, OpenEditorError>),
}

/// One run of an editor, from the first outside step to its outcome.
///
/// The session decides; a runner performs each [`Request`] it makes and hands
/// back the matching [`Event`].
#[derive(Debug)]
pub struct EditorSession {
    /// The editor to run; `None` to choose one from the environment.
    pub editor: Option<Editor>,
    /// The environment variables to look in, in order.
    pub env_names: Vec<String>,
    /// Whether to wait for the editor to exit.
    pub wait: bool,
    /// The line to open the file at.
    pub line: usize,
    /// The column to open the file at.
    pub column: usize,
    /// The file that the editor opens.
    pub target: String,
    /// The text written to the target before the edit, when `text_mode`.
    pub content: String,
    /// Whether the text is written first and read back after the edit.
    pub text_mode: bool,
    /// Whether the target is a scratch file of this session, removed at the end.
    pub scratch: bool,
    /// The next step.
    pub stage: Stage,
}

/// Outside work that a session asks of its runner.
#[derive(Debug)]
pub enum Request {
    /// Write `content` to `path`, truncating it.
    WriteFile { path: String, content: String },
    /// Read the environment variables `names`, in this order.
    ReadEnv { names: Vec<String> },
    /// Report what the file system says of the binary at `path`.
    InspectBinary { path: String },
    /// Run `program` with `args`, the standard streams inherited; wait for it
    /// to exit when `wait`.
    Spawn { program: String, args: Vec<String>, wait: bool },
    /// Read the file at `path` as text.
    ReadFile { path: String },
    /// Delete the file at `path`.
    RemoveFile { path: String },
}

/// What a runner reports back after performing a [`Request`].
#[derive(Debug)]
pub enum Event {
    /// The outcome of `WriteFile`.
    Written(Result<(), std::io::Error>),
    /// The values of the variables of `ReadEnv`, one for each name, `None` where
    /// unset or not valid text.
    EnvRead(Vec<Option<String>>),
    /// What `InspectBinary` found.
    Inspected(BinaryInfo),
    /// The waited-for editor exited with this code (`None`: ended by a signal)
    /// and this error output.
    Exited { exit_code: Option<i32>, stderr: String },
    /// The editor was started and left running, as asked when not waiting.
    Detached,
    /// The editor could not be started, or not waited for.
    ProcessFailed(std::io::Error),
    /// The outcome of `ReadFile`.
    FileRead(Result<String, std::io::Error>),
    /// The outcome of `RemoveFile`.
    Removed(Result<(), std::io::Error>),
}

/// A session after one step: still going, or done with its outcome (the
/// edited text for a session on a string, `None` for one on a file).
#[derive(Debug)]
pub enum Progress {
    Pending(EditorSession),
    Finished(Result<Option<String>, OpenEditorError>),
}

/// An environment value that names an editor: set and not empty.
pub open spec fn is_set(v: Option<String>) -> bool {
    v matches Some(s) && s@.len() > 0
}

/// `i` is the first position of `values` that names an editor.
pub open spec fn is_first_set(values: Seq<Option<String>>, i: int) -> bool {
    &&& 0 <= i < values.len()
    &&& is_set(values[i])
    &&& forall|j: int| 0 <= j < i ==> !is_set(#[trigger] values[j])
}

/// The first position of `values` that names an editor, if any.
pub open spec fn first_set(values: Seq<Option<String>>) -> Option<int> {
    if exists|i: int| is_first_set(values, i) {
        Some(choose|i: int| is_first_set(values, i))
    } else {
        None
    }
}

/// The editor named by the first set value of `values`, its binary path being
/// what a program search found (`found`) or else the value itself.
pub open spec fn editor_from_env(values: Seq<Option<String>>, found: Option<String>) -> Result<
    Editor,
    OpenEditorError,
> {
    match first_set(values) {
        None => Err(OpenEditorError::NoEditorFound),
        Some(i) => {
            let v = values[i]->Some_0;
            Ok(Editor { editor_type: kind_named(v), binary_path: path_or_name_spec(found, v) })
        },
    }
}

/// The first position that names an editor is unique.
pub proof fn lemma_first_set_unique(values: Seq<Option<String>>, i: int)
    requires
        is_first_set(values, i),
    ensures
        first_set(values) == Some(i),
{
    let k = choose|k: int| is_first_set(values, k);
    assert(is_first_set(values, k));
    if k < i {
        assert(!is_set(values[k]));
    }
    if i < k {
        assert(!is_set(values[i]));
    }
}

/// No position names an editor exactly when every value is unset or empty.
pub proof fn lemma_first_set_none(values: Seq<Option<String>>)
    ensures
        first_set(values) is None <==> forall|j: int| 0 <= j < values.len() ==> !is_set(#[trigger] values[j]),
{
    if exists|j: int| 0 <= j < values.len() && is_set(#[trigger] values[j]) {
        let j = choose|j: int| 0 <= j < values.len() && is_set(#[trigger] values[j]);
        lemma_first_set_exists(values, j);
    }
}

proof fn lemma_first_set_exists(values: Seq<Option<String>>, j: int)
    requires
        0 <= j < values.len(),
        is_set(values[j]),
    ensures
        first_set(values) is Some,
        first_set(values)->Some_0 <= j,
    decreases j,
{
    if forall|k: int| 0 <= k < j ==> !is_set(#[trigger] values[k]) {
        assert(is_first_set(values, j));
        lemma_first_set_unique(values, j);
    } else {
        let k = choose|k: int| 0 <= k < j && is_set(#[trigger] values[k]);
        lemma_first_set_exists(values, k);
    }
}

/// With custom variables placed before the standard ones, a custom variable
/// that names an editor wins over every standard one: the chosen position is
/// among the first `n_custom`.
pub proof fn lemma_custom_vars_first(values: Seq<Option<String>>, n_custom: int, i: int)
    requires
        0 <= i < n_custom <= values.len(),
        is_set(values[i]),
    ensures
        first_set(values) is Some,
        first_set(values)->Some_0 < n_custom,
        is_set(values[first_set(values)->Some_0]),
{
    lemma_first_set_exists(values, i);
    let k = choose|k: int| is_first_set(values, k);
    assert(is_first_set(values, k));
}

/// Finds the first value that names an editor.
fn first_set_index(values: &Vec<Option<String>>) -> (r: Option<usize>)
    ensures
        match r {
            Some(i) => first_set(values@) == Some(i as int),
            None => first_set(values@) is None,
        },
{
    let mut i: usize = 0;
    while i < values.len()
        invariant
            i <= values@.len(),
            forall|j: int| 0 <= j < i ==> !is_set(#[trigger] values@[j]),
        decreases values@.len() - i,
    {
        match &values[i] {
            Some(v) => {
                if v.as_str().unicode_len() > 0 {
                    proof {
                        assert(is_first_set(values@, i as int));
                        lemma_first_set_unique(values@, i as int);
                    }
                    return Some(i);
                }
            },
            None => {},
        }
        i += 1;
    }
    proof {
        lemma_first_set_none(values@);
    }
    None
}

/// Chooses the editor from the values of the search-order variables: the
/// first one that is set and not empty wins, resolved to its family and,
/// through a program search, to a binary path.
pub fn default_editor(values: &Vec<Option<String>>) -> (r: Result<Editor, OpenEditorError>)
    ensures
        exists|found: Option<String>| r == editor_from_env(values@, found),
        r is Err <==> forall|j: int| 0 <= j < values@.len() ==> !is_set(#[trigger] values@[j]),
{
    proof {
        lemma_first_set_none(values@);
    }
    match first_set_index(values) {
        None => {
            assert(Err::<Editor, OpenEditorError>(OpenEditorError::NoEditorFound) == editor_from_env(
                values@,
                None,
            ));
            Err(OpenEditorError::NoEditorFound)
        },
        Some(i) => {
            let v = values[i].clone().unwrap();
            let kind = EditorKind::from_name(v.clone());
            let path = Editor::get_full_path(v);
            let ghost found = choose|f: Option<String>| path == path_or_name_spec(f, v);
            let r = Editor::new(kind, path);
            assert(r == editor_from_env(values@, found).unwrap());
            Ok(r)
        },
    }
}

impl EditorSession {
    /// The step that comes once the target file is ready: inspect the
    /// configured editor, or first choose one from the environment.
    pub open spec fn start_open(self) -> Stage {
        match self.editor {
            Some(ed) => Stage::Inspect(ed),
            None => Stage::Env,
        }
    }

    /// This session moved to `stage`.
    pub open spec fn at(self, stage: Stage) -> EditorSession {
        EditorSession { stage, ..self }
    }

    /// Failing with `err`: a scratch file is removed first, the error kept.
    pub open spec fn fail(self, err: OpenEditorError) -> Progress {
        if self.scratch {
            Progress::Pending(self.at(Stage::Cleanup(Err(err))))
        } else {
            Progress::Finished(Err(err))
        }
    }

    /// The editor run succeeded: read the text back, or finish a session on a file.
    pub open spec fn after_run(self) -> Progress {
        if self.text_mode {
            Progress::Pending(self.at(Stage::ReadBack))
        } else {
            Progress::Finished(Ok(None))
        }
    }

    /// Whether `e` answers the request of this session's stage.
    pub open spec fn accepts(self, e: Event) -> bool {
        match self.stage {
            Stage::Write => e is Written,
            Stage::Env => e matches Event::EnvRead(values) && values@.len() == self.env_names@.len(),
            Stage::Inspect(_) => e is Inspected,
            Stage::Run(_) => {
                ||| e is ProcessFailed
                ||| e is Exited && self.wait
                ||| e is Detached && !self.wait
            },
            Stage::ReadBack => e is FileRead,
            Stage::Cleanup(_) => e is Removed,
        }
    }

    /// The step taken on event `e`, where a program search (made only when
    /// the editor is chosen from the environment) found `found`.
    pub open spec fn next(self, e: Event, found: Option<String>) -> Progress {
        match (self.stage, e) {
            (Stage::Write, Event::Written(Ok(()))) => Progress::Pending(self.at(self.start_open())),
            (Stage::Write, Event::Written(Err(err))) => self.fail(
                OpenEditorError::FileManipulationFail(err),
            ),
            (Stage::Env, Event::EnvRead(values)) => match editor_from_env(values@, found) {
                Ok(ed) => Progress::Pending(self.at(Stage::Inspect(ed))),
                Err(err) => self.fail(err),
            },
            (Stage::Inspect(ed), Event::Inspected(info)) => match validation(ed.binary_path, info) {
                Ok(()) => Progress::Pending(self.at(Stage::Run(ed))),
                Err(err) => self.fail(err),
            },
            (Stage::Run(_), Event::ProcessFailed(err)) => self.fail(
                OpenEditorError::CommandFail { error: err },
            ),
            (Stage::Run(_), Event::Detached) => self.after_run(),
            (Stage::Run(_), Event::Exited { exit_code, stderr }) => if exit_code == Some(0i32) {
                self.after_run()
            } else {
                self.fail(OpenEditorError::EditorCallError { exit_code, stderr })
            },
            (Stage::ReadBack, Event::FileRead(Ok(text))) => if self.scratch {
                Progress::Pending(self.at(Stage::Cleanup(Ok(text))))
            } else {
                Progress::Finished(Ok(Some(text)))
            },
            (Stage::ReadBack, Event::FileRead(Err(err))) => self.fail(
                OpenEditorError::FileManipulationFail(err),
            ),
            (Stage::Cleanup(Ok(text)), Event::Removed(Ok(()))) => Progress::Finished(Ok(Some(text))),
            (Stage::Cleanup(Ok(_)), Event::Removed(Err(_))) => Progress::Finished(
                Err(OpenEditorError::TempFileCleanupFail(self.target)),
            ),
            (Stage::Cleanup(Err(err)), Event::Removed(_)) => Progress::Finished(Err(err)),
            // events that do not answer the stage's request are refused by `accepts`
            (_, _) => Progress::Finished(Err(OpenEditorError::NoEditorFound)),
        }
    }
}

/// A copy of a list of strings.
fn copy_strings(v: &Vec<String>) -> (r: Vec<String>)
    ensures
        r@ == v@,
{
    let mut r: Vec<String> = Vec::new();
    let mut i: usize = 0;
    while i < v.len()
        invariant
            i <= v@.len(),
            r@ == v@.subrange(0, i as int),
        decreases v@.len() - i,
    {
        r.push(v[i].clone());
        i += 1;
    }
    assert(r@ =~= v@);
    r
}

impl EditorSession {
    /// Whether `r` is the request that this session makes at its stage.
    pub open spec fn requested(self, r: Request) -> bool {
        match self.stage {
            Stage::Write => r == Request::WriteFile { path: self.target, content: self.content },
            Stage::Env => r matches Request::ReadEnv { names } && names@ == self.env_names@,
            Stage::Inspect(ed) => r == Request::InspectBinary { path: ed.binary_path },
            Stage::Run(ed) => r matches Request::Spawn { program, args, wait } && program
                == ed.binary_path && wait == self.wait && args@.map_values(|a: String| a@)
                == editor_args(
                ed.editor_type,
                self.target@,
                self.wait,
                self.line as nat,
                self.column as nat,
            ),
            Stage::ReadBack => r == Request::ReadFile { path: self.target },
            Stage::Cleanup(_) => r == Request::RemoveFile { path: self.target },
        }
    }

    /// The outside work this session waits for.
    pub fn request(&self) -> (r: Request)
        ensures
            self.requested(r),
    {
        match &self.stage {
            Stage::Write => Request::WriteFile {
                path: self.target.clone(),
                content: self.content.clone(),
            },
            Stage::Env => Request::ReadEnv { names: copy_strings(&self.env_names) },
            Stage::Inspect(ed) => Request::InspectBinary { path: ed.binary_path.clone() },
            Stage::Run(ed) => Request::Spawn {
                program: ed.binary_path.clone(),
                args: ed.editor_type.get_editor_args(
                    self.target.as_str(),
                    self.wait,
                    self.line,
                    self.column,
                ),
                wait: self.wait,
            },
            Stage::ReadBack => Request::ReadFile { path: self.target.clone() },
            Stage::Cleanup(_) => Request::RemoveFile { path: self.target.clone() },
        }
    }

    /// Whether `e` answers this session's request; a runner checks this
    /// before [`EditorSession::advance`].
    pub fn accepts_event(&self, e: &Event) -> (r: bool)
        ensures
            r == self.accepts(*e),
    {
        match &self.stage {
            Stage::Write => matches!(e, Event::Written(_)),
            Stage::Env => match e {
                Event::EnvRead(values) => values.len() == self.env_names.len(),
                _ => false,
            },
            Stage::Inspect(_) => matches!(e, Event::Inspected(_)),
            Stage::Run(_) => match e {
                Event::ProcessFailed(_) => true,
                Event::Exited { .. } => self.wait,
                Event::Detached => !self.wait,
                _ => false,
            },
            Stage::ReadBack => matches!(e, Event::FileRead(_)),
            Stage::Cleanup(_) => matches!(e, Event::Removed(_)),
        }
    }

    /// Moves the session to `stage`, handing back the stage it was at.
    fn swap_stage(self, stage: Stage) -> (r: (EditorSession, Stage))
        ensures
            r.0 == self.at(stage),
            r.1 == self.stage,
    {
        let EditorSession {
            editor,
            env_names,
            wait,
            line,
            column,
            target,
            content,
            text_mode,
            scratch,
            stage: old_stage,
        } = self;
        (
            EditorSession {
                editor,
                env_names,
                wait,
                line,
                column,
                target,
                content,
                text_mode,
                scratch,
                stage,
            },
            old_stage,
        )
    }

    fn moved_to(self, stage: Stage) -> (r: EditorSession)
        ensures
            r == self.at(stage),
    {
        self.swap_stage(stage).0
    }

    fn failing(self, err: OpenEditorError) -> (r: Progress)
        ensures
            r == self.fail(err),
    {
        if self.scratch {
            Progress::Pending(self.moved_to(Stage::Cleanup(Err(err))))
        } else {
            Progress::Finished(Err(err))
        }
    }

    fn after_running(self) -> (r: Progress)
        ensures
            r == self.after_run(),
    {
        if self.text_mode {
            Progress::Pending(self.moved_to(Stage::ReadBack))
        } else {
            Progress::Finished(Ok(None))
        }
    }

    /// Takes one step on the runner's report `e` of the requested work.
    pub fn advance(self, e: Event) -> (r: Progress)
        requires
            self.accepts(e),
        ensures
            exists|found: Option<String>| r == self.next(e, found),
            !(e is EnvRead) ==> r == self.next(e, None),
    {
        let ghost s0 = self;
        let (s, stage) = self.swap_stage(Stage::Write);
        assert(s.at(stage) == s0);
        match e {
            Event::Written(res) => match res {
                Ok(()) => {
                    let open_stage = match &s.editor {
                        Some(ed) => Stage::Inspect(ed.duplicate()),
                        None => Stage::Env,
                    };
                    Progress::Pending(s.moved_to(open_stage))
                },
                Err(err) => s.failing(OpenEditorError::FileManipulationFail(err)),
            },
            Event::EnvRead(values) => {
                let chosen = default_editor(&values);
                let ghost found = choose|f: Option<String>| chosen == editor_from_env(values@, f);
                let r = match chosen {
                    Ok(ed) => Progress::Pending(s.moved_to(Stage::Inspect(ed))),
                    Err(err) => s.failing(err),
                };
                assert(r == s0.next(Event::EnvRead(values), found));
                r
            },
            Event::Inspected(info) => {
                let ed = match stage {
                    Stage::Inspect(ed) => ed,
                    _ => {
                        // `accepts` pairs an `Inspected` event with the inspect stage
                        proof {
                            assert(false);
                        }
                        Editor::from_bin_path(String::new())
                    },
                };
                match ed.validate_executable(info) {
                    Ok(()) => Progress::Pending(s.moved_to(Stage::Run(ed))),
                    Err(err) => s.failing(err),
                }
            },
            Event::ProcessFailed(err) => s.failing(OpenEditorError::CommandFail { error: err }),
            Event::Detached => s.after_running(),
            Event::Exited { exit_code, stderr } => {
                let ok = match exit_code {
                    Some(code) => code == 0i32,
                    None => false,
                };
                if ok {
                    s.after_running()
                } else {
                    s.failing(OpenEditorError::EditorCallError { exit_code, stderr })
                }
            },
            Event::FileRead(res) => match res {
                Ok(text) => if s.scratch {
                    Progress::Pending(s.moved_to(Stage::Cleanup(Ok(text))))
                } else {
                    Progress::Finished(Ok(Some(text)))
                },
                Err(err) => s.failing(OpenEditorError::FileManipulationFail(err)),
            },
            Event::Removed(res) => match stage {
                Stage::Cleanup(Ok(text)) => match res {
                    Ok(()) => Progress::Finished(Ok(Some(text))),
                    Err(_) => Progress::Finished(Err(OpenEditorError::TempFileCleanupFail(s.target))),
                },
                Stage::Cleanup(Err(err)) => Progress::Finished(Err(err)),
                _ => {
                    // `accepts` pairs a `Removed` event with the cleanup stage
                    proof {
                        assert(false);
                    }
                    Progress::Finished(Err(OpenEditorError::NoEditorFound))
                },
            },
        }
    }
}

impl EditorSession {
    /// A scratch file is only made for editing text, and only a scratch file
    /// is ever cleaned up.
    pub open spec fn wf(self) -> bool {
        &&& self.scratch ==> self.text_mode
        &&& !self.scratch ==> !(self.stage is Cleanup)
    }
}

/// Every step keeps a session well formed.
pub proof fn lemma_next_keeps_wf(s: EditorSession, e: Event, found: Option<String>)
    requires
        s.wf(),
        s.accepts(e),
    ensures
        s.next(e, found) matches Progress::Pending(t) ==> t.wf(),
{
}

/// A session on a scratch file finishes only from its cleanup step, whose
/// request is the file's removal: no outcome comes before the removal has been
/// asked for and answered, whatever failed before.
pub proof fn lemma_scratch_removed_before_finish(s: EditorSession, e: Event, found: Option<String>)
    requires
        s.wf(),
        s.scratch,
        s.accepts(e),
    ensures
        s.next(e, found) is Finished ==> s.stage is Cleanup,
        s.stage is Cleanup ==> s.requested(Request::RemoveFile { path: s.target }),
{
}

/// A session on a file that the caller owns never reaches the cleanup step,
/// so it never asks for that file's removal.
pub proof fn lemma_caller_file_never_removed(s: EditorSession, e: Event, found: Option<String>)
    requires
        s.wf(),
        !s.scratch,
        s.accepts(e),
    ensures
        s.next(e, found) matches Progress::Pending(t) ==> !t.scratch && !(t.stage is Cleanup),
{
}

/// When the waited-for editor exits with a failure in a session on a scratch
/// file, the file's removal is asked for next, and the outcome is the editor's
/// error whatever the removal's own outcome.
pub proof fn lemma_editor_failure_cleans_up(
    s: EditorSession,
    exit_code: Option<i32>,
    stderr: String,
    removal: Result<(), std::io::Error>,
)
    requires
        s.scratch,
        s.stage is Run,
        s.wait,
        exit_code != Some(0i32),
    ensures
        ({
            let err = OpenEditorError::EditorCallError { exit_code, stderr };
            let t = s.at(Stage::Cleanup(Err(err)));
            &&& s.accepts(Event::Exited { exit_code, stderr })
            &&& s.next(Event::Exited { exit_code, stderr }, None) == Progress::Pending(t)
            &&& t.requested(Request::RemoveFile { path: s.target })
            &&& t.accepts(Event::Removed(removal))
            &&& t.next(Event::Removed(removal), None) == Progress::Finished(Err::<Option<String>, _>(err))
        }),
{
}

} // verus!
