//! What comes of a command that was run to completion: its output when
//! it succeeded, and the error that stands for it when it did not.

use vstd::prelude::*;
use vstd::utf8::{decode_utf8, valid_utf8};
use crate::command::{description, CommandLine, CommandView};
use crate::errors::{CaptureView, ErrorView, ProcessCapture, TmpPostgrustError};

verus! {

/// What a command left behind when it ended.
#[derive(Debug, Clone, PartialEq, Eq)]
pub struct ProcessOutput {
    /// Whether the command ended with exit status zero.
    pub success: bool,
    /// The bytes written to standard output.
    pub stdout: Vec<u8>,
    /// The bytes written to standard error.
    pub stderr: Vec<u8>,
}

/// The output of a command seen through its bytes.
pub struct OutputView {
    pub success: bool,
    pub stdout: Seq<u8>,
    pub stderr: Seq<u8>,
}

impl View for ProcessOutput {
    type V = OutputView;

    open spec fn view(&self) -> OutputView {
        OutputView { success: self.success, stdout: self.stdout@, stderr: self.stderr@ }
    }
}

/// The place in provisioning from which a command is run. It decides
/// which error reports a command that ran and failed.
#[derive(Debug, Clone, Copy, PartialEq, Eq, Structural)]
pub enum CallSite {
    /// Initialising the template cluster.
    InitDb,
    /// Copying one entry of the template.
    CopyTemplate,
    /// Creating the default role.
    CreateRole,
    /// Creating the default database.
    CreateDatabase,
}

/// The error that reports a command which ran and failed at `site`.
pub open spec fn failure_at(site: CallSite, capture: CaptureView) -> ErrorView {
    match site {
        CallSite::InitDb => ErrorView::InitDBFailed(capture),
        CallSite::CopyTemplate => ErrorView::CopyCachedInitDBFailed(capture),
        CallSite::CreateRole => ErrorView::CreateUserFailed(capture),
        CallSite::CreateDatabase => ErrorView::CreateDBFailed(capture),
    }
}

/// Whether every stream that has to be read as text is valid UTF-8: the
/// standard output always, the standard error of a command that failed.
pub open spec fn decodable(output: OutputView) -> bool {
    &&& valid_utf8(output.stdout)
    &&& !output.success ==> valid_utf8(output.stderr)
}

/// What comes of a command that was launched and ended: its standard
/// output as text if it succeeded, else the error of its call site with
/// both streams as text.
pub open spec fn ended(output: OutputView, site: CallSite) -> Result<Seq<char>, ErrorView> {
    if output.success {
        Ok(decode_utf8(output.stdout))
    } else {
        Err(
            failure_at(
                site,
                CaptureView {
                    stdout: decode_utf8(output.stdout),
                    stderr: decode_utf8(output.stderr),
                },
            ),
        )
    }
}

/// What comes of an attempt to run `line`: a launch failure is reported
/// with the command line's description, anything else as `ended` says.
pub open spec fn attempted(
    outcome: Result<OutputView, std::io::Error>,
    line: CommandView,
    site: CallSite,
) -> Result<Seq<char>, ErrorView> {
    match outcome {
        Ok(output) => ended(output, site),
        Err(source) => Err(
            ErrorView::ExecSubprocessFailed { source, command: description(line) },
        ),
    }
}

/// The view of what running a command gave.
pub open spec fn outcome_view(outcome: Result<ProcessOutput, std::io::Error>) -> Result<
    OutputView,
    std::io::Error,
> {
    match outcome {
        Ok(output) => Ok(output@),
        Err(source) => Err(source),
    }
}

/// The view of what came of a command.
pub open spec fn result_view(result: Result<String, TmpPostgrustError>) -> Result<
    Seq<char>,
    ErrorView,
> {
    match result {
        Ok(text) => Ok(text@),
        Err(error) => Err(error@),
    }
}

/// Reads bytes as UTF-8 text with `String::from_utf8`: the text is there
/// exactly when the bytes are valid UTF-8, and it is the characters that
/// the bytes encode.
#[verifier::external_body]
fn decode(bytes: Vec<u8>) -> (text: Option<String>)
    ensures
        text is Some <==> valid_utf8(bytes@),
        text matches Some(t) ==> t@ == decode_utf8(bytes@),
{
    match String::from_utf8(bytes) {
        Ok(text) => Some(text),
        Err(_) => None,
    }
}

/// Reads as text bytes that are known to be valid UTF-8.
fn decoded(bytes: Vec<u8>) -> (text: String)
    requires
        valid_utf8(bytes@),
    ensures
        text@ == decode_utf8(bytes@),
{
    match decode(bytes) {
        Some(text) => text,
        None => String::new(),
    }
}

/// Whether `output` can be read: whether the streams that are read as
/// text are valid UTF-8.
pub fn is_decodable(output: &ProcessOutput) -> (yes: bool)
    ensures
        yes == decodable(output@),
{
    let out = decode(output.stdout.clone());
    if out.is_none() {
        return false;
    }
    if output.success {
        return true;
    }
    decode(output.stderr.clone()).is_some()
}

/// Says what came of an attempt to run `line` at `site`.
///
/// A command that could not be launched is an `ExecSubprocessFailed` with
/// the launch failure and the description of `line`. A command that ended
/// with status zero gives its standard output as text. A command that
/// ended otherwise gives the error of `site` with both streams as text.
pub fn exec_process(
    outcome: Result<ProcessOutput, std::io::Error>,
    line: &CommandLine,
    site: CallSite,
) -> (result: Result<String, TmpPostgrustError>)
    requires
        outcome matches Ok(output) ==> decodable(output@),
    ensures
        result_view(result) == attempted(outcome_view(outcome), line@, site),
{
    match outcome {
        Err(source) => Err(
            TmpPostgrustError::ExecSubprocessFailed { source, command: line.describe() },
        ),
        Ok(output) => {
            let ProcessOutput { success, stdout, stderr } = output;
            let out = decoded(stdout);
            if success {
                Ok(out)
            } else {
                let capture = ProcessCapture { stdout: out, stderr: decoded(stderr) };
                Err(
                    match site {
                        CallSite::InitDb => TmpPostgrustError::InitDBFailed(capture),
                        CallSite::CopyTemplate => TmpPostgrustError::CopyCachedInitDBFailed(
                            capture,
                        ),
                        CallSite::CreateRole => TmpPostgrustError::CreateUserFailed(capture),
                        CallSite::CreateDatabase => TmpPostgrustError::CreateDBFailed(capture),
                    },
                )
            }
        },
    }
}

/// A command that ran and failed is reported under a kind of its own for
/// each call site: whatever the two commands wrote, the failure of one
/// site is never the failure of another.
pub proof fn lemma_call_sites_are_told_apart(
    one: CallSite,
    other: CallSite,
    wrote: CaptureView,
    other_wrote: CaptureView,
)
    requires
        one != other,
    ensures
        failure_at(one, wrote) != failure_at(other, other_wrote),
{
}

} // verus!
