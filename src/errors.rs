use vstd::prelude::*;

verus! {

/// `std::io::Error`, carried unchanged inside [`OpenEditorError`].
#[verifier::external_type_specification]
#[verifier::external_body]
pub struct ExIoError(std::io::Error);

/// Errors that can occur when trying to open an editor.
#[derive(Debug)]
pub enum OpenEditorError {
    /// No configured environment variable named an editor.
    NoEditorFound,
    /// The editor ran and exited with a failure status.
    EditorCallError { exit_code: Option<i32>, stderr: String },
    /// The operating system could not start or wait for the editor.
    CommandFail { error: std::io::Error },
    /// The editor binary does not exist or is not a regular file.
    EditorNotFound { binary_path: String },
    /// The editor binary lacks execute permission, or its metadata could not be read.
    EditorNotExecutable { binary_path: String, error: Option<std::io::Error> },
    /// Writing or reading the edited file failed.
    FileManipulationFail(std::io::Error),
    /// The scratch file could not be deleted after use.
    TempFileCleanupFail(String),
}

} // verus!
