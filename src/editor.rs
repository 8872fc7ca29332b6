use crate::editor_kind::EditorKind;
use crate::errors::OpenEditorError;
use vstd::prelude::*;

verus! {

/// An editor: its family and the path of its binary.
#[derive(Debug, Clone)]
pub struct Editor {
    pub editor_type: EditorKind,
    pub binary_path: String,
}

/// What the file system says of an editor's binary, as a runner found it.
#[derive(Debug)]
pub struct BinaryInfo {
    /// The path exists and is a regular file.
    pub is_file: bool,
    /// The file's Unix mode, or the error met reading it; `None` on a
    /// platform without permission bits.
    pub unix_mode: Option<Result<u32, std::io::Error>>,
}

/// Any of the execute bits (owner, group, others) is set.
pub open spec fn any_exec_bit(mode: u32) -> bool {
    mode & 0o111u32 != 0
}

/// The path used for an editor name: what the search found, else the bare name.
pub open spec fn path_or_name_spec(found: Option<String>, name: String) -> String {
    match found {
        Some(p) => p,
        None => name,
    }
}

/// The outcome of validating a binary at `path` with what `info` reports.
pub open spec fn validation(path: String, info: BinaryInfo) -> Result<(), OpenEditorError> {
    if !info.is_file {
        Err(OpenEditorError::EditorNotFound { binary_path: path })
    } else {
        match info.unix_mode {
            None => Ok(()),
            Some(Err(e)) => Err(OpenEditorError::EditorNotExecutable { binary_path: path, error: Some(e) }),
            Some(Ok(mode)) => if any_exec_bit(mode) {
                Ok(())
            } else {
                Err(OpenEditorError::EditorNotExecutable { binary_path: path, error: None })
            },
        }
    }
}

/// Relies on `which::which`: looks `name` up as a program, through `PATH`
/// unless it holds a path separator. What it finds depends on the
/// environment and the disk, so nothing is promised of it.
#[verifier::external_body]
fn which_path(name: &str) -> (r: Option<String>) {
    match which::which(name) {
        Ok(path) => Some(path.to_string_lossy().into_owned()),
        Err(_) => None,
    }
}

/// The path to run for an editor name, given what a program search found:
/// the found path, or the bare name when the search found nothing (the run
/// then fails with a clear "not found" error rather than silently).
pub fn path_or_name(found: Option<String>, name: String) -> (r: String)
    ensures
        r == path_or_name_spec(found, name),
{
    match found {
        Some(p) => p,
        None => name,
    }
}

/// Checks the binary at `path` against what `info` reports: it must be a
/// regular file, and where the platform has permission bits, one of the
/// execute bits must be set.
pub fn validate_binary(path: &String, info: BinaryInfo) -> (r: Result<(), OpenEditorError>)
    ensures
        r == validation(*path, info),
{
    if !info.is_file {
        return Err(OpenEditorError::EditorNotFound { binary_path: path.clone() });
    }
    match info.unix_mode {
        None => Ok(()),
        Some(Err(e)) => Err(OpenEditorError::EditorNotExecutable { binary_path: path.clone(), error: Some(e) }),
        Some(Ok(mode)) => {
            if mode & 0o111u32 != 0 {
                Ok(())
            } else {
                Err(OpenEditorError::EditorNotExecutable { binary_path: path.clone(), error: None })
            }
        },
    }
}

impl Editor {
    /// An editor of unknown family at `binary_path`: it is handed the file
    /// path alone.
    pub fn from_bin_path(binary_path: String) -> (r: Self)
        ensures
            r.editor_type == EditorKind::UnknownEditor(binary_path),
            r.binary_path == binary_path,
    {
        Self { editor_type: EditorKind::UnknownEditor(binary_path.clone()), binary_path }
    }

    /// The editor of a family, its binary found by a program search on the
    /// family's display name (or the bare name where the search fails).
    pub fn from_editor_kind(editor_type: EditorKind) -> (r: Self)
        ensures
            r.editor_type == editor_type,
    {
        let binary_path = Self::get_full_path(editor_type.display_name());
        Self { editor_type, binary_path }
    }

    /// An editor of the given family at the given path.
    pub fn new(editor_type: EditorKind, binary_path: String) -> (r: Self)
        ensures
            r.editor_type == editor_type,
            r.binary_path == binary_path,
    {
        Self { editor_type, binary_path }
    }

    /// The path to run for `editor_name`: the result of a program search, or
    /// the name itself where the search finds nothing.
    pub fn get_full_path(editor_name: String) -> (r: String)
        ensures
            exists|found: Option<String>| r == path_or_name_spec(found, editor_name),
    {
        let found = which_path(editor_name.as_str());
        let ghost g = found;
        let r = path_or_name(found, editor_name);
        assert(r == path_or_name_spec(g, editor_name));
        r
    }

    /// A copy of this editor.
    pub fn duplicate(&self) -> (r: Self)
        ensures
            r == *self,
    {
        Self { editor_type: self.editor_type.duplicate(), binary_path: self.binary_path.clone() }
    }

    /// Checks this editor's binary against what `info` reports of it.
    pub fn validate_executable(&self, info: BinaryInfo) -> (r: Result<(), OpenEditorError>)
        ensures
            r == validation(self.binary_path, info),
    {
        validate_binary(&self.binary_path, info)
    }
}

} // verus!
