use vstd::prelude::*;

verus! {

/// State of a compression job.  `Compressing` is the initial state; `Passed`
/// and `Failed` are terminal: once a job has been observed in one of them it
/// never changes again.
#[derive(Clone, Copy, Debug, PartialEq, Eq, Structural)]
pub enum FileStatus {
    Compressing,
    Passed,
    Failed,
}

impl FileStatus {
    /// A terminal status admits no further transition.
    pub open spec fn is_terminal(self) -> bool {
        self == FileStatus::Passed || self == FileStatus::Failed
    }

    /// The lower-case name under which the status is exposed to clients.
    pub fn as_str(&self) -> (r: &'static str)
        ensures
            *self == FileStatus::Compressing ==> r@ == "compressing"@,
            *self == FileStatus::Passed ==> r@ == "passed"@,
            *self == FileStatus::Failed ==> r@ == "failed"@,
    {
        match self {
            FileStatus::Compressing => "compressing",
            FileStatus::Passed => "passed",
            FileStatus::Failed => "failed",
        }
    }
}

/// Record of one uploaded artifact.  Created once, on a successful upload,
/// and immutable thereafter.
#[derive(Debug)]
pub struct File {
    /// Store-assigned identifier, unique among uploaded files.
    pub id: u64,
    /// Size of the uploaded artifact in bytes.
    pub size: u64,
    /// Storage locator of the uploaded bytes.
    pub file_ref: String,
}

impl Clone for File {
    fn clone(&self) -> (r: Self)
        ensures
            r == *self,
    {
        File { id: self.id, size: self.size, file_ref: self.file_ref.clone() }
    }
}

/// Record of one compression job.  `file_ref` names the source artifact and
/// never changes; `level` is the effective level actually applied by the
/// engine, not necessarily the caller-supplied raw value.
#[derive(Debug)]
pub struct CompressedFile {
    /// Store-assigned identifier, unique among jobs.
    pub id: u64,
    /// Current lifecycle state of the job.
    pub status: FileStatus,
    /// Storage locator of the source artifact.
    pub file_ref: String,
    /// Effective compression level handed to the engine.
    pub level: i32,
    /// Identifier of the compression algorithm.
    pub alg: String,
}

impl Clone for CompressedFile {
    fn clone(&self) -> (r: Self)
        ensures
            r == *self,
    {
        CompressedFile {
            id: self.id,
            status: self.status,
            file_ref: self.file_ref.clone(),
            level: self.level,
            alg: self.alg.clone(),
        }
    }
}

} // verus!
