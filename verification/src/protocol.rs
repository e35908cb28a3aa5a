//! What provisioning asks of its driver, and what the driver reports
//! back. The library decides; the driver touches the file system and the
//! processes.

use vstd::prelude::*;
use crate::command::{CommandLine, CommandView};
use crate::process::{decodable, is_decodable, OutputView, ProcessOutput};

verus! {

/// One piece of outside work.
#[derive(Debug, Clone, PartialEq, Eq)]
pub enum Request {
    /// Wait for a concurrency permit. Answered by `PermitGranted`.
    AcquirePermit,
    /// Create a fresh, empty, private directory whose name starts with
    /// `prefix`. Answered by `Directory`.
    CreateDirectory {
        /// The start of the directory's name.
        prefix: String,
    },
    /// Give the directory `to` the permission bits of `from`. Answered by
    /// `PermissionsCopied`.
    CopyPermissions {
        /// The directory whose permissions are read.
        from: String,
        /// The directory whose permissions are set.
        to: String,
    },
    /// List the entries directly under `path`. Answered by `Listing`.
    ListDirectory {
        /// The directory to list.
        path: String,
    },
    /// Run the command to its end and capture what it writes. Answered by
    /// `Ran`.
    Run(CommandLine),
    /// Say whether `path` exists. Answered by `Exists`.
    CheckExists {
        /// The path to look for.
        path: String,
    },
    /// Create the file `path` with `contents`. Answered by `Written`.
    WriteFile {
        /// The file to create.
        path: String,
        /// The text to write into it.
        contents: String,
    },
    /// Launch the command and keep it running, its output piped. Answered
    /// by `Spawned`.
    Spawn(CommandLine),
    /// Read the next line that the launched process writes to its
    /// diagnostic stream. Answered by `Line`.
    ReadLine,
}

/// A request seen through the characters of its texts.
pub enum RequestView {
    AcquirePermit,
    CreateDirectory { prefix: Seq<char> },
    CopyPermissions { from: Seq<char>, to: Seq<char> },
    ListDirectory { path: Seq<char> },
    Run(CommandView),
    CheckExists { path: Seq<char> },
    WriteFile { path: Seq<char>, contents: Seq<char> },
    Spawn(CommandView),
    ReadLine,
}

impl View for Request {
    type V = RequestView;

    open spec fn view(&self) -> RequestView {
        match *self {
            Request::AcquirePermit => RequestView::AcquirePermit,
            Request::CreateDirectory { prefix } => RequestView::CreateDirectory {
                prefix: prefix@,
            },
            Request::CopyPermissions { from, to } => RequestView::CopyPermissions {
                from: from@,
                to: to@,
            },
            Request::ListDirectory { path } => RequestView::ListDirectory { path: path@ },
            Request::Run(line) => RequestView::Run(line@),
            Request::CheckExists { path } => RequestView::CheckExists { path: path@ },
            Request::WriteFile { path, contents } => RequestView::WriteFile {
                path: path@,
                contents: contents@,
            },
            Request::Spawn(line) => RequestView::Spawn(line@),
            Request::ReadLine => RequestView::ReadLine,
        }
    }
}

/// What came of one piece of outside work.
#[derive(Debug)]
pub enum Event {
    /// A concurrency permit is now held.
    PermitGranted,
    /// The path of the directory that was created, or why none was.
    Directory(Result<String, std::io::Error>),
    /// Whether the permission bits were carried over.
    PermissionsCopied(Result<(), std::io::Error>),
    /// The paths of the entries of the listed directory, each of which may
    /// itself have failed to be read; or why the directory could not be
    /// listed at all.
    Listing(Result<Vec<Result<String, std::io::Error>>, std::io::Error>),
    /// What the command left behind, or why it could not be launched.
    Ran(Result<ProcessOutput, std::io::Error>),
    /// Whether the path exists.
    Exists(bool),
    /// Whether the file was written.
    Written(Result<(), std::io::Error>),
    /// The process that was launched, or why none was.
    Spawned(Result<u32, std::io::Error>),
    /// The next line of the diagnostic stream, without its line ending;
    /// `None` when the stream has ended or cannot be read any further.
    Line(Option<String>),
}

/// One entry of a listing seen through the characters of its path.
pub open spec fn entry_view(entry: Result<String, std::io::Error>) -> Result<
    Seq<char>,
    std::io::Error,
> {
    match entry {
        Ok(path) => Ok(path@),
        Err(error) => Err(error),
    }
}

/// The entries of a listing seen through the characters of their paths.
pub open spec fn entries_view(entries: Seq<Result<String, std::io::Error>>) -> Seq<
    Result<Seq<char>, std::io::Error>,
> {
    entries.map_values(|entry: Result<String, std::io::Error>| entry_view(entry))
}

/// An event seen through the characters and bytes of what it carries.
pub enum EventView {
    PermitGranted,
    Directory(Result<Seq<char>, std::io::Error>),
    PermissionsCopied(Result<(), std::io::Error>),
    Listing(Result<Seq<Result<Seq<char>, std::io::Error>>, std::io::Error>),
    Ran(Result<OutputView, std::io::Error>),
    Exists(bool),
    Written(Result<(), std::io::Error>),
    Spawned(Result<u32, std::io::Error>),
    Line(Option<Seq<char>>),
}

impl View for Event {
    type V = EventView;

    open spec fn view(&self) -> EventView {
        match *self {
            Event::PermitGranted => EventView::PermitGranted,
            Event::Directory(result) => EventView::Directory(entry_view(result)),
            Event::PermissionsCopied(result) => EventView::PermissionsCopied(result),
            Event::Listing(result) => EventView::Listing(
                match result {
                    Ok(entries) => Ok(entries_view(entries@)),
                    Err(error) => Err(error),
                },
            ),
            Event::Ran(result) => EventView::Ran(
                match result {
                    Ok(output) => Ok(output@),
                    Err(error) => Err(error),
                },
            ),
            Event::Exists(found) => EventView::Exists(found),
            Event::Written(result) => EventView::Written(result),
            Event::Spawned(result) => EventView::Spawned(result),
            Event::Line(line) => EventView::Line(
                match line {
                    Some(text) => Some(text@),
                    None => None,
                },
            ),
        }
    }
}

/// Whether an event can be acted on: whether, if it reports a command
/// that ran, the command's output can be read as text.
pub open spec fn readable(event: EventView) -> bool {
    event matches EventView::Ran(Ok(output)) ==> decodable(output)
}

impl Event {
    /// Whether this event can be acted on.
    pub fn is_readable(&self) -> (yes: bool)
        ensures
            yes == readable(self@),
    {
        match self {
            Event::Ran(Ok(output)) => is_decodable(output),
            _ => true,
        }
    }
}

} // verus!
