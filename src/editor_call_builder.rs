use crate::editor::Editor;
use crate::errors::OpenEditorError;
use crate::session::{EditorSession, Stage};
use vstd::prelude::*;

verus! {

/// The name of the scratch file used to edit a string, in the temporary
/// directory. The same name serves every call: two calls at once without a
/// file path of their own collide.
pub const SCRATCH_FILE_NAME: &'static str = "open_editor_tmp_file";

/// The path of the scratch file in the directory `dir`.
pub open spec fn scratch_file_in(dir: Seq<char>) -> Seq<char> {
    if dir.len() > 0 && dir.last() == '/' {
        dir + SCRATCH_FILE_NAME@
    } else {
        dir + "/"@ + SCRATCH_FILE_NAME@
    }
}

/// The environment variables that name an editor when nothing else does,
/// looked in after the custom ones: `VISUAL`, then `EDITOR`.
pub open spec fn standard_env_vars() -> Seq<Seq<char>> {
    seq!["VISUAL"@, "EDITOR"@]
}

/// The views of a list of strings.
pub open spec fn views(v: Seq<String>) -> Seq<Seq<char>> {
    v.map_values(|s: String| s@)
}

/// Configures a call of an editor: the editor (else one from the
/// environment), the file (else a scratch file), where to open it, and
/// whether to wait.
pub struct EditorCallBuilder {
    editor: Option<Editor>,
    file_path: Option<String>,
    custom_env_vars: Vec<String>,
    wait: bool,
    line_number: usize,
    column_number: usize,
}

impl EditorCallBuilder {
    /// The configured editor, if any.
    pub closed spec fn editor(&self) -> Option<Editor> {
        self.editor
    }

    /// The configured file, if any.
    pub closed spec fn file_path(&self) -> Option<String> {
        self.file_path
    }

    /// The extra environment variables, looked in before the standard ones.
    pub closed spec fn env_vars(&self) -> Seq<Seq<char>> {
        views(self.custom_env_vars@)
    }

    /// Whether the call waits for the editor to exit.
    pub closed spec fn wait(&self) -> bool {
        self.wait
    }

    /// The line to open the file at.
    pub closed spec fn line(&self) -> usize {
        self.line_number
    }

    /// The column to open the file at.
    pub closed spec fn column(&self) -> usize {
        self.column_number
    }

    /// The order in which environment variables are looked in.
    pub open spec fn search_order_spec(&self) -> Seq<Seq<char>> {
        self.env_vars() + standard_env_vars()
    }

    /// `s` runs with this configuration.
    pub open spec fn carries_config(&self, s: EditorSession) -> bool {
        &&& s.editor == self.editor()
        &&& views(s.env_names@) == self.search_order_spec()
        &&& s.wait == self.wait()
        &&& s.line == self.line()
        &&& s.column == self.column()
    }

    /// A builder with no editor, no file, no extra variables, waiting, at
    /// line 1 and column 1.
    pub fn new() -> (r: Self)
        ensures
            r.editor() is None,
            r.file_path() is None,
            r.env_vars() == Seq::<Seq<char>>::empty(),
            r.wait(),
            r.line() == 1,
            r.column() == 1,
    {
        let r = Self {
            editor: None,
            file_path: None,
            custom_env_vars: Vec::new(),
            wait: true,
            line_number: 1,
            column_number: 1,
        };
        assert(views(r.custom_env_vars@) =~= Seq::<Seq<char>>::empty());
        r
    }

    /// Sets the line to open the file at.
    pub fn at_line(self, line: usize) -> (r: Self)
        ensures
            r.line() == line,
            r.column() == self.column(),
            r.wait() == self.wait(),
            r.editor() == self.editor(),
            r.file_path() == self.file_path(),
            r.env_vars() == self.env_vars(),
    {
        Self { line_number: line, ..self }
    }

    /// Sets the column to open the file at.
    pub fn at_column(self, column: usize) -> (r: Self)
        ensures
            r.column() == column,
            r.line() == self.line(),
            r.wait() == self.wait(),
            r.editor() == self.editor(),
            r.file_path() == self.file_path(),
            r.env_vars() == self.env_vars(),
    {
        Self { column_number: column, ..self }
    }

    /// Sets whether to wait for the editor to exit before the call returns.
    pub fn wait_for_editor(self, value: bool) -> (r: Self)
        ensures
            r.wait() == value,
            r.line() == self.line(),
            r.column() == self.column(),
            r.editor() == self.editor(),
            r.file_path() == self.file_path(),
            r.env_vars() == self.env_vars(),
    {
        Self { wait: value, ..self }
    }

    /// Sets the editor to use instead of one from the environment.
    pub fn with_editor(self, editor: Editor) -> (r: Self)
        ensures
            r.editor() == Some(editor),
            r.wait() == self.wait(),
            r.line() == self.line(),
            r.column() == self.column(),
            r.file_path() == self.file_path(),
            r.env_vars() == self.env_vars(),
    {
        Self { editor: Some(editor), ..self }
    }

    /// Sets the file that edited strings go through instead of a scratch
    /// file. The caller owns it: it is never deleted.
    pub fn with_file_path(self, file_path: String) -> (r: Self)
        ensures
            r.file_path() == Some(file_path),
            r.wait() == self.wait(),
            r.line() == self.line(),
            r.column() == self.column(),
            r.editor() == self.editor(),
            r.env_vars() == self.env_vars(),
    {
        Self { file_path: Some(file_path), ..self }
    }

    /// Adds environment variables to look for the editor in, after those
    /// added before and before `VISUAL` and `EDITOR`.
    pub fn with_env_vars(self, env_vars: &[&str]) -> (r: Self)
        ensures
            r.env_vars() == self.env_vars() + env_vars@.map_values(|s: &str| s@),
            r.wait() == self.wait(),
            r.line() == self.line(),
            r.column() == self.column(),
            r.editor() == self.editor(),
            r.file_path() == self.file_path(),
    {
        let mut custom_env_vars = self.custom_env_vars;
        let ghost start = custom_env_vars@;
        let mut i: usize = 0;
        while i < env_vars.len()
            invariant
                i <= env_vars@.len(),
                custom_env_vars@.len() == start.len() + i,
                forall|k: int| 0 <= k < start.len() ==> #[trigger] custom_env_vars@[k] == start[k],
                forall|k: int|
                    0 <= k < i ==> (#[trigger] custom_env_vars@[start.len() + k])@ == env_vars@[k]@,
            decreases env_vars@.len() - i,
        {
            custom_env_vars.push(String::from_str(env_vars[i]));
            i += 1;
        }
        assert(views(custom_env_vars@) =~= views(start) + env_vars@.map_values(|s: &str| s@)) by {
            assert forall|k: int| start.len() <= k < custom_env_vars@.len() implies (
            #[trigger] custom_env_vars@[k])@ == env_vars@[k - start.len()]@ by {
                assert(custom_env_vars@[start.len() + (k - start.len())] == custom_env_vars@[k]);
            }
        }
        Self { custom_env_vars, ..self }
    }

    /// The environment variables to look in for an editor, in order: the
    /// custom ones as added, then `VISUAL`, then `EDITOR`.
    pub fn search_order(&self) -> (r: Vec<String>)
        ensures
            views(r@) == self.search_order_spec(),
    {
        let mut r: Vec<String> = Vec::new();
        let mut i: usize = 0;
        while i < self.custom_env_vars.len()
            invariant
                i <= self.custom_env_vars@.len(),
                r@ == self.custom_env_vars@.subrange(0, i as int),
            decreases self.custom_env_vars@.len() - i,
        {
            r.push(self.custom_env_vars[i].clone());
            i += 1;
        }
        assert(self.custom_env_vars@.subrange(0, i as int) =~= self.custom_env_vars@);
        r.push(String::from_str("VISUAL"));
        r.push(String::from_str("EDITOR"));
        assert(views(r@) =~= self.search_order_spec());
        r
    }

    /// A session with this configuration on `target`.
    fn session(&self, target: String, content: String, text_mode: bool, scratch: bool) -> (r:
        EditorSession)
        ensures
            self.carries_config(r),
            r.target == target,
            r.content == content,
            r.text_mode == text_mode,
            r.scratch == scratch,
            r.stage == (if text_mode {
                Stage::Write
            } else {
                r.start_open()
            }),
    {
        let editor = match &self.editor {
            Some(ed) => Some(ed.duplicate()),
            None => None,
        };
        let stage = if text_mode {
            Stage::Write
        } else {
            match &editor {
                Some(ed) => Stage::Inspect(ed.duplicate()),
                None => Stage::Env,
            }
        };
        EditorSession {
            editor,
            env_names: self.search_order(),
            wait: self.wait,
            line: self.line_number,
            column: self.column_number,
            target,
            content,
            text_mode,
            scratch,
            stage,
        }
    }

    /// Starts opening `file_path` in the editor. The file is the caller's:
    /// nothing is written to it, read from it or deleted.
    pub fn open_file(&self, file_path: &str) -> (r: EditorSession)
        ensures
            self.carries_config(r),
            r.target@ == file_path@,
            !r.text_mode,
            !r.scratch,
            r.stage == r.start_open(),
            r.wf(),
    {
        self.session(String::from_str(file_path), String::new(), false, false)
    }

    /// Starts editing `string`: it is written to the configured file, or
    /// else to the scratch file in `temp_dir`, the editor is run on it, and
    /// the file is read back. A scratch file is deleted at the end, on every
    /// path.
    pub fn edit_string(&self, string: &str, temp_dir: &str) -> (r: EditorSession)
        ensures
            self.carries_config(r),
            r.content@ == string@,
            r.text_mode,
            r.stage is Write,
            match self.file_path() {
                Some(p) => r.target == p && !r.scratch,
                None => r.target@ == scratch_file_in(temp_dir@) && r.scratch,
            },
            r.wf(),
    {
        let (target, scratch) = match &self.file_path {
            Some(p) => (p.clone(), false),
            None => (scratch_path(temp_dir), true),
        };
        self.session(target, String::from_str(string), true, scratch)
    }

    /// Starts editing an empty text: what the user writes is the outcome.
    pub fn open_editor(&self, temp_dir: &str) -> (r: EditorSession)
        ensures
            self.carries_config(r),
            r.content@ == Seq::<char>::empty(),
            r.text_mode,
            r.stage is Write,
            match self.file_path() {
                Some(p) => r.target == p && !r.scratch,
                None => r.target@ == scratch_file_in(temp_dir@) && r.scratch,
            },
            r.wf(),
    {
        proof {
            reveal_strlit("");
        }
        self.edit_string("", temp_dir)
    }

    /// Stores the outcome of editing `string` back into it: replaced by the
    /// edited text on success, left as it was on failure, the error passed on.
    pub fn edit_string_mut(string: &mut String, outcome: Result<String, OpenEditorError>) -> (r:
        Result<(), OpenEditorError>)
        ensures
            match outcome {
                Ok(text) => *final(string) == text && r is Ok,
                Err(err) => *final(string) == *old(string) && r == Err::<(), _>(err),
            },
    {
        match outcome {
            Ok(text) => {
                *string = text;
                Ok(())
            },
            Err(err) => Err(err),
        }
    }
}

impl Default for EditorCallBuilder {
    fn default() -> (r: Self)
        ensures
            r.editor() is None,
            r.file_path() is None,
            r.env_vars() == Seq::<Seq<char>>::empty(),
            r.wait(),
            r.line() == 1,
            r.column() == 1,
    {
        Self::new()
    }
}

/// The path of the scratch file in the directory `temp_dir`.
pub fn scratch_path(temp_dir: &str) -> (r: String)
    ensures
        r@ == scratch_file_in(temp_dir@),
{
    let mut r = String::from_str(temp_dir);
    let n = temp_dir.unicode_len();
    if n > 0 && temp_dir.get_char(n - 1) == '/' {
        r.append(SCRATCH_FILE_NAME);
    } else {
        r.append("/");
        r.append(SCRATCH_FILE_NAME);
    }
    r
}

} // verus!
