//! File system events. Paths are kept as text.
use vstd::prelude::*;
use crate::trusted::now_millis;

verus! {

/// The type of a file system event.
#[derive(Debug, Clone, Copy, PartialEq, Eq, Structural)]
pub enum FileEventKind {
    Created,
    Modified,
    Deleted,
    Renamed,
}

/// A file system event. The timestamp is in milliseconds since the Unix
/// epoch.
#[derive(Debug, Clone)]
pub struct FileEvent {
    /// Type of the event.
    pub kind: FileEventKind,
    /// Path to the file or directory.
    pub path: String,
    /// Old path (for rename events).
    pub old_path: Option<String>,
    /// When the event occurred.
    pub timestamp: i64,
    /// Size of the file (if available).
    pub file_size: Option<u64>,
    /// Whether this is a directory.
    pub is_directory: bool,
}

impl FileEvent {
    /// An event of the given kind on `path`, stamped now, with no old path,
    /// no size, and not a directory.
    pub fn new(kind: FileEventKind, path: String) -> (e: FileEvent)
        ensures
            e.kind == kind,
            e.path == path,
            e.old_path is None,
            e.timestamp >= 0,
            e.file_size is None,
            e.is_directory == false,
    {
        FileEvent { kind, path, old_path: None, timestamp: now_millis(), file_size: None, is_directory: false }
    }

    /// Sets the old path (for rename events).
    pub fn with_old_path(self, old_path: String) -> (e: FileEvent)
        ensures
            e == (FileEvent { old_path: Some(old_path), ..self }),
    {
        FileEvent { old_path: Some(old_path), ..self }
    }

    /// Sets the file size.
    pub fn with_file_size(self, size: u64) -> (e: FileEvent)
        ensures
            e == (FileEvent { file_size: Some(size), ..self }),
    {
        FileEvent { file_size: Some(size), ..self }
    }

    /// Sets whether this is a directory.
    pub fn with_is_directory(self, is_dir: bool) -> (e: FileEvent)
        ensures
            e == (FileEvent { is_directory: is_dir, ..self }),
    {
        FileEvent { is_directory: is_dir, ..self }
    }
}

} // verus!
