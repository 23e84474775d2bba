//! The run's error taxonomy. Every error is fatal: a failed open aborts
//! the run before any byte flows, and a failed read, write or sync aborts
//! it mid-stream. Each error names the offending path where one exists.

use vstd::prelude::*;

verus! {

/// A fatal condition of a copy run.
pub enum CopyError {
    /// The named source path could not be opened for reading.
    OpenForRead { path: String },
    /// The named destination path could not be created for writing.
    OpenForWrite { path: String },
    /// A read from the named source failed mid-stream.
    ReadFailed { path: String },
    /// A write to the named destination failed mid-stream.
    WriteFailed { path: String },
    /// A durable-commit request on the named destination failed.
    SyncFailed { path: String },
}

impl CopyError {
    /// The diagnostic text for this error, naming the offending path.
    pub open spec fn spec_message(self) -> Seq<char> {
        match self {
            CopyError::OpenForRead { path } => "Failed to open "@ + path@ + " for reading"@,
            CopyError::OpenForWrite { path } => "Failed to open file "@ + path@ + " for writing"@,
            CopyError::ReadFailed { path } => "Failed to read from "@ + path@,
            CopyError::WriteFailed { path } => "Failed to write to "@ + path@,
            CopyError::SyncFailed { path } => "Failed to sync "@ + path@,
        }
    }

    /// Render the diagnostic text.
    pub fn message(&self) -> (r: String)
        ensures
            r@ == self.spec_message(),
    {
        match self {
            CopyError::OpenForRead { path } => {
                let mut s = "Failed to open ".to_owned();
                s.append(path.as_str());
                s.append(" for reading");
                s
            },
            CopyError::OpenForWrite { path } => {
                let mut s = "Failed to open file ".to_owned();
                s.append(path.as_str());
                s.append(" for writing");
                s
            },
            CopyError::ReadFailed { path } => {
                let mut s = "Failed to read from ".to_owned();
                s.append(path.as_str());
                s
            },
            CopyError::WriteFailed { path } => {
                let mut s = "Failed to write to ".to_owned();
                s.append(path.as_str());
                s
            },
            CopyError::SyncFailed { path } => {
                let mut s = "Failed to sync ".to_owned();
                s.append(path.as_str());
                s
            },
        }
    }
}

} // verus!
