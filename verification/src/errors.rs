//! Errors of instance provisioning.

use vstd::prelude::*;

verus! {

/// `std::io::Error`, the operating system's report of a failed operation.
/// The library carries such a value from the event that reports it to the
/// error it returns and never looks inside it; nothing is claimed of it.
#[verifier::external_type_specification]
#[verifier::external_body]
pub struct ExIoError(std::io::Error);

/// What a command wrote before it ended in failure.
#[derive(Debug, Clone, PartialEq, Eq)]
pub struct ProcessCapture {
    /// Everything the command wrote to standard output.
    pub stdout: String,
    /// Everything the command wrote to standard error.
    pub stderr: String,
}

/// A capture seen through the characters of its two texts.
pub struct CaptureView {
    pub stdout: Seq<char>,
    pub stderr: Seq<char>,
}

impl View for ProcessCapture {
    type V = CaptureView;

    open spec fn view(&self) -> CaptureView {
        CaptureView { stdout: self.stdout@, stderr: self.stderr@ }
    }
}

/// Why a factory or an instance could not be provided.
#[derive(Debug)]
pub enum TmpPostgrustError {
    /// A command could not be launched at all.
    ExecSubprocessFailed {
        /// The launch failure.
        source: std::io::Error,
        /// The command line that was attempted.
        command: String,
    },
    /// The database server could not be launched.
    SpawnSubprocessFailed(std::io::Error),
    /// The cluster initialisation command ran and failed.
    InitDBFailed(ProcessCapture),
    /// A copy command ran and failed while cloning the template.
    CopyCachedInitDBFailed(ProcessCapture),
    /// The template could not be listed, or one of its entries not read.
    CopyCachedInitDBFailedFileNotFound(std::io::Error),
    /// The role creation command ran and failed.
    CreateUserFailed(ProcessCapture),
    /// The database creation command ran and failed.
    CreateDBFailed(ProcessCapture),
    /// The server configuration could not be written.
    CreateConfigFailed(std::io::Error),
    /// The cloned data directory holds no version marker.
    EmptyDataDirectory,
    /// A template or instance directory could not be created.
    CreateCacheDirFailed(std::io::Error),
    /// The socket directory could not be created.
    CreateSocketDirFailed(std::io::Error),
    /// The server's diagnostic stream ended before it announced readiness.
    ExitedBeforeReady,
}

/// An error seen through the characters of the texts it carries.
pub enum ErrorView {
    ExecSubprocessFailed { source: std::io::Error, command: Seq<char> },
    SpawnSubprocessFailed(std::io::Error),
    InitDBFailed(CaptureView),
    CopyCachedInitDBFailed(CaptureView),
    CopyCachedInitDBFailedFileNotFound(std::io::Error),
    CreateUserFailed(CaptureView),
    CreateDBFailed(CaptureView),
    CreateConfigFailed(std::io::Error),
    EmptyDataDirectory,
    CreateCacheDirFailed(std::io::Error),
    CreateSocketDirFailed(std::io::Error),
    ExitedBeforeReady,
}

impl View for TmpPostgrustError {
    type V = ErrorView;

    open spec fn view(&self) -> ErrorView {
        match *self {
            TmpPostgrustError::ExecSubprocessFailed { source, command } => {
                ErrorView::ExecSubprocessFailed { source, command: command@ }
            },
            TmpPostgrustError::SpawnSubprocessFailed(e) => ErrorView::SpawnSubprocessFailed(e),
            TmpPostgrustError::InitDBFailed(c) => ErrorView::InitDBFailed(c@),
            TmpPostgrustError::CopyCachedInitDBFailed(c) => ErrorView::CopyCachedInitDBFailed(c@),
            TmpPostgrustError::CopyCachedInitDBFailedFileNotFound(e) => {
                ErrorView::CopyCachedInitDBFailedFileNotFound(e)
            },
            TmpPostgrustError::CreateUserFailed(c) => ErrorView::CreateUserFailed(c@),
            TmpPostgrustError::CreateDBFailed(c) => ErrorView::CreateDBFailed(c@),
            TmpPostgrustError::CreateConfigFailed(e) => ErrorView::CreateConfigFailed(e),
            TmpPostgrustError::EmptyDataDirectory => ErrorView::EmptyDataDirectory,
            TmpPostgrustError::CreateCacheDirFailed(e) => ErrorView::CreateCacheDirFailed(e),
            TmpPostgrustError::CreateSocketDirFailed(e) => ErrorView::CreateSocketDirFailed(e),
            TmpPostgrustError::ExitedBeforeReady => ErrorView::ExitedBeforeReady,
        }
    }
}

} // verus!
