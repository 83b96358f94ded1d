//! The stream copier: a download that is driven from outside.
//!
//! The copier performs nothing itself. It names the next thing to do as a
//! [`Command`]; the caller does it and reports the result as an [`Event`];
//! [`Download::step`] moves on and says what the progress display does.

use crate::error::{DownloadError, Failure};
use crate::filename::{extract_filename, fallback_name, url_stem};
use crate::progress::{create_progress_bar, ProgressReporter, ProgressState};
use crate::transfer::{awaited, Command, Occurrence, Phase, Render, Transfer};
use vstd::prelude::*;
use vstd::string::*;

verus! {

/// What happened to the last command.
#[derive(Clone, Debug, PartialEq, Eq)]
pub enum Event {
    /// The response's head came, with its status and the length of the
    /// body where the server declared it.
    Responded { status: u16, content_length: Option<u64> },
    /// The output file was created.
    FileCreated,
    /// A chunk of `len` bytes came.
    Chunk { len: u64 },
    /// The body has ended.
    EndOfStream,
    /// The chunk was written in full.
    Written,
    /// The request or the reading of the body failed.
    TransportFailed { reason: String },
    /// The creation of the output file or the writing of a chunk failed.
    OutputFailed { reason: String },
}

impl View for Event {
    type V = Occurrence;

    open spec fn view(&self) -> Occurrence {
        match self {
            Event::Responded { status, content_length } => Occurrence::Responded {
                status: *status,
                content_length: *content_length,
            },
            Event::FileCreated => Occurrence::FileCreated,
            Event::Chunk { len } => Occurrence::Chunk { len: *len },
            Event::EndOfStream => Occurrence::EndOfStream,
            Event::Written => Occurrence::Written,
            Event::TransportFailed { reason } => Occurrence::TransportFailed { reason: reason@ },
            Event::OutputFailed { reason } => Occurrence::OutputFailed { reason: reason@ },
        }
    }
}

/// The view of a reporter that may not be there yet.
pub open spec fn reporter_state(reporter: Option<ProgressReporter>) -> Option<ProgressState> {
    match reporter {
        Some(reporter) => Some(reporter@),
        None => None,
    }
}

/// The view of an error that may not have happened.
pub open spec fn failure_state(failure: Option<DownloadError>) -> Option<Failure> {
    match failure {
        Some(failure) => Some(failure@),
        None => None,
    }
}

/// One download, from the request to the end of the process.
#[derive(Debug)]
pub struct Download {
    target: String,
    filename: String,
    quiet: bool,
    phase: Phase,
    reporter: Option<ProgressReporter>,
    pending: u64,
    written: u64,
    failure: Option<DownloadError>,
}

impl View for Download {
    type V = Transfer;

    closed spec fn view(&self) -> Transfer {
        Transfer {
            target: self.target@,
            filename: self.filename@,
            quiet: self.quiet,
            phase: self.phase,
            reporter: reporter_state(self.reporter),
            pending: self.pending,
            written: self.written,
            failure: failure_state(self.failure),
        }
    }
}

impl Download {
    /// A download of `target` into the file `filename`, about to send its
    /// request.
    pub fn new(target: String, filename: String, quiet: bool) -> (download: Download)
        ensures
            download@ == Transfer::start(target@, filename@, quiet),
    {
        Download {
            target,
            filename,
            quiet,
            phase: Phase::Requesting,
            reporter: None,
            pending: 0,
            written: 0,
            failure: None,
        }
    }

    /// Takes in what happened to the last command, and returns what the
    /// progress display does. The next command is then [`Download::command`].
    pub fn step(&mut self, event: Event) -> (render: Render)
        ensures
            final(self)@ == old(self)@.step(event@),
            render == old(self)@.render(event@),
    {
        match (self.phase, event) {
            (Phase::Requesting, Event::Responded { status, content_length }) => {
                if 400 <= status && status < 600 {
                    self.phase = Phase::Failed;
                    self.failure = Some(DownloadError::HttpStatus(status));
                    Render::Nothing
                } else {
                    self.phase = Phase::Creating;
                    self.reporter = Some(
                        create_progress_bar(self.quiet, self.filename.as_str(), content_length),
                    );
                    Render::Show
                }
            },
            (Phase::Requesting, Event::TransportFailed { reason }) => {
                self.phase = Phase::Failed;
                self.failure = Some(DownloadError::Transport(reason));
                Render::Nothing
            },
            (Phase::Creating, Event::FileCreated) => {
                self.phase = Phase::Reading;
                Render::Nothing
            },
            (Phase::Creating, Event::OutputFailed { reason }) => {
                self.phase = Phase::Failed;
                self.failure = Some(DownloadError::Output(reason));
                Render::Nothing
            },
            (Phase::Reading, Event::Chunk { len }) => {
                self.phase = Phase::Writing;
                self.pending = len;
                Render::Nothing
            },
            (Phase::Reading, Event::EndOfStream) => {
                self.phase = Phase::Done;
                let mut message = self.filename.clone();
                message.append(" downloaded");
                match &mut self.reporter {
                    Some(reporter) => reporter.finish(message.as_str()),
                    None => {},
                }
                Render::Finish
            },
            (Phase::Reading, Event::TransportFailed { reason }) => {
                self.phase = Phase::Failed;
                self.failure = Some(DownloadError::Transport(reason));
                Render::Nothing
            },
            (Phase::Writing, Event::Written) => {
                let len = self.pending;
                self.phase = Phase::Reading;
                self.pending = 0;
                self.written = self.written.wrapping_add(len);
                match &mut self.reporter {
                    Some(reporter) => reporter.advance(len),
                    None => {},
                }
                Render::Advance(len)
            },
            (Phase::Writing, Event::OutputFailed { reason }) => {
                self.phase = Phase::Failed;
                self.failure = Some(DownloadError::Output(reason));
                Render::Nothing
            },
            _ => Render::Nothing,
        }
    }

    /// What the caller is to do next.
    pub fn command(&self) -> (command: Command)
        ensures
            command == awaited(self@.phase),
    {
        match self.phase {
            Phase::Requesting => Command::Send,
            Phase::Creating => Command::CreateFile,
            Phase::Reading => Command::ReadChunk,
            Phase::Writing => Command::WriteChunk,
            Phase::Done => Command::Exit { code: 0 },
            Phase::Failed => Command::Exit { code: 1 },
        }
    }

    /// Where the download stands.
    pub fn phase(&self) -> (phase: Phase)
        ensures
            phase == self@.phase,
    {
        self.phase
    }

    /// The URL that is downloaded.
    pub fn target(&self) -> (target: &str)
        ensures
            target@ == self@.target,
    {
        self.target.as_str()
    }

    /// The name of the output file.
    pub fn filename(&self) -> (filename: &str)
        ensures
            filename@ == self@.filename,
    {
        self.filename.as_str()
    }

    /// The number of bytes written to the output file.
    pub fn written(&self) -> (written: u64)
        ensures
            written == self@.written,
    {
        self.written
    }

    /// Whether the download is over, for better or worse.
    pub fn is_over(&self) -> (over: bool)
        ensures
            over == self@.is_over(),
    {
        match self.phase {
            Phase::Done => true,
            Phase::Failed => true,
            _ => false,
        }
    }

    /// Whether the server declared a length that the finished download did
    /// not have. This is no failure.
    pub fn length_mismatch(&self) -> (mismatch: bool)
        ensures
            mismatch == self@.length_mismatch(),
    {
        match (self.phase, &self.reporter) {
            (Phase::Done, Some(reporter)) => match reporter.total() {
                Some(declared) => declared != self.written,
                None => false,
            },
            _ => false,
        }
    }

    /// The progress reporter, from the moment the response is accepted.
    pub fn reporter(&self) -> (reporter: &Option<ProgressReporter>)
        ensures
            reporter_state(*reporter) == self@.reporter,
    {
        &self.reporter
    }

    /// Why the download failed, once it has.
    pub fn failure(&self) -> (failure: &Option<DownloadError>)
        ensures
            failure_state(*failure) == self@.failure,
    {
        &self.failure
    }
}

/// Starts the download of `target`: resolves the name of the output file
/// and returns a download that is about to send its request. The name is
/// the last segment of the URL's path or, where that is empty, the fallback
/// name for the second in which the clock is read.
pub fn download(target: &str, quiet_mode: bool) -> (download: Download)
    ensures
        url_stem(target@).len() > 0 ==> download@ == Transfer::start(
            target@,
            url_stem(target@),
            quiet_mode,
        ),
        url_stem(target@).len() == 0 ==> exists|secs: u64|
            download@ == Transfer::start(target@, #[trigger] fallback_name(secs as nat), quiet_mode),
        download@.filename.len() > 0,
{
    let filename = extract_filename(target);
    Download::new(String::from_str(target), filename, quiet_mode)
}

} // verus!
