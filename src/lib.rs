//! Launches the user's preferred text editor on a file or on a string.
//!
//! The library decides everything that is not I/O: which editor to use, how
//! to validate its binary, the command line for each editor family, and the
//! lifecycle of a scratch file. A runner performs the requests of an
//! [`EditorSession`] (writing files, reading the environment, spawning the
//! editor) and feeds the results back.
pub mod editor;
pub mod editor_call_builder;
pub mod editor_kind;
pub mod errors;
pub mod session;

pub use editor::{BinaryInfo, Editor};
pub use editor_call_builder::EditorCallBuilder;
pub use editor_kind::EditorKind;
pub use errors::OpenEditorError;
pub use session::{EditorSession, Event, Progress, Request, Stage};
