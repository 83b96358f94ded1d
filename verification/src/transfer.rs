//! The order of a download, as a state machine over plain values, and what
//! holds of every run of it.
//!
//! A download waits on one [`Command`] at a time. What happened to the
//! command comes back as an [`Occurrence`]; [`Transfer::step`] gives the
//! state that follows and [`Transfer::render`] what the progress display
//! does. One chunk is in flight at a time: the next is asked for only after
//! the last has been written and counted.

use crate::error::Failure;
use crate::progress::{advanced, ProgressState, Rendering};
use vstd::arithmetic::div_mod::lemma_add_mod_noop_right;
use vstd::prelude::*;

verus! {

/// Where a download stands.
#[derive(Clone, Copy, Debug, PartialEq, Eq, Structural)]
pub enum Phase {
    /// The request is to be sent; no response has come yet.
    Requesting,
    /// The response was accepted; the output file is to be created.
    Creating,
    /// The output file is open; the next chunk of the body is awaited.
    Reading,
    /// A chunk has come and is to be written to the output file.
    Writing,
    /// The body ended and the download succeeded.
    Done,
    /// The download failed.
    Failed,
}

/// What the caller is to do next.
#[derive(Clone, Copy, Debug, PartialEq, Eq, Structural)]
pub enum Command {
    /// Send the GET request and wait for the response's head.
    Send,
    /// Create the output file, emptying one that is already there.
    CreateFile,
    /// Wait for the next chunk of the body.
    ReadChunk,
    /// Write the chunk that came last to the output file, in full.
    WriteChunk,
    /// Close what is open and end the process with this status.
    Exit { code: i32 },
}

/// What the progress display does after a step.
#[derive(Clone, Copy, Debug, PartialEq, Eq, Structural)]
pub enum Render {
    /// Nothing changes.
    Nothing,
    /// The display is set up as the reporter's rendering says.
    Show,
    /// The display moves on by this many bytes.
    Advance(u64),
    /// The display is frozen with the reporter's label as its last message.
    Finish,
}

/// What happened to the last command, as plain values.
pub enum Occurrence {
    /// The response's head came, with its status and the length of the
    /// body where the server declared it.
    Responded { status: u16, content_length: Option<u64> },
    /// The output file was created.
    FileCreated,
    /// A chunk of `len` bytes came.
    Chunk { len: u64 },
    /// The body has ended.
    EndOfStream,
    /// The chunk was written in full.
    Written,
    /// The request or the reading of the body failed.
    TransportFailed { reason: Seq<char> },
    /// The creation of the output file or the writing of a chunk failed.
    OutputFailed { reason: Seq<char> },
}

/// Whether a response with this status is refused: the statuses of client
/// errors and of server errors.
pub open spec fn is_error_status(status: u16) -> bool {
    400 <= status < 600
}

/// The last message of the progress display for a finished download.
pub open spec fn completion_message(filename: Seq<char>) -> Seq<char> {
    filename + " downloaded"@
}

/// The command that a phase waits on.
pub open spec fn awaited(phase: Phase) -> Command {
    match phase {
        Phase::Requesting => Command::Send,
        Phase::Creating => Command::CreateFile,
        Phase::Reading => Command::ReadChunk,
        Phase::Writing => Command::WriteChunk,
        Phase::Done => Command::Exit { code: 0 },
        Phase::Failed => Command::Exit { code: 1 },
    }
}

/// A count of bytes as the 64 bits that hold it.
pub open spec fn wrapped(count: nat) -> u64 {
    (count % 0x1_0000_0000_0000_0000) as u64
}

/// A download, as plain values.
pub struct Transfer {
    /// The URL that is downloaded.
    pub target: Seq<char>,
    /// The name of the output file.
    pub filename: Seq<char>,
    /// Whether the progress display is suppressed.
    pub quiet: bool,
    /// Where the download stands.
    pub phase: Phase,
    /// The progress reporter, from the moment the response is accepted.
    pub reporter: Option<ProgressState>,
    /// The length of the chunk that is being written.
    pub pending: u64,
    /// The number of bytes written to the output file.
    pub written: u64,
    /// Why the download failed, once it has.
    pub failure: Option<Failure>,
}

impl Transfer {
    /// A download that is about to send its request.
    pub open spec fn start(target: Seq<char>, filename: Seq<char>, quiet: bool) -> Transfer {
        Transfer {
            target,
            filename,
            quiet,
            phase: Phase::Requesting,
            reporter: None,
            pending: 0,
            written: 0,
            failure: None,
        }
    }

    /// The download after it has failed with `failure`.
    pub open spec fn fail(self, failure: Failure) -> Transfer {
        Transfer { phase: Phase::Failed, failure: Some(failure), ..self }
    }

    /// The download after `event`. An event that the phase does not wait
    /// for changes nothing.
    pub open spec fn step(self, event: Occurrence) -> Transfer {
        match (self.phase, event) {
            (Phase::Requesting, Occurrence::Responded { status, content_length }) => {
                if is_error_status(status) {
                    self.fail(Failure::HttpStatus(status))
                } else {
                    Transfer {
                        phase: Phase::Creating,
                        reporter: Some(
                            ProgressState::start(self.quiet, self.filename, content_length),
                        ),
                        ..self
                    }
                }
            },
            (Phase::Requesting, Occurrence::TransportFailed { reason }) => self.fail(
                Failure::Transport(reason),
            ),
            (Phase::Creating, Occurrence::FileCreated) => Transfer {
                phase: Phase::Reading,
                ..self
            },
            (Phase::Creating, Occurrence::OutputFailed { reason }) => self.fail(
                Failure::Output(reason),
            ),
            (Phase::Reading, Occurrence::Chunk { len }) => Transfer {
                phase: Phase::Writing,
                pending: len,
                ..self
            },
            (Phase::Reading, Occurrence::EndOfStream) => Transfer {
                phase: Phase::Done,
                reporter: match self.reporter {
                    Some(reporter) => Some(reporter.finish(completion_message(self.filename))),
                    None => None,
                },
                ..self
            },
            (Phase::Reading, Occurrence::TransportFailed { reason }) => self.fail(
                Failure::Transport(reason),
            ),
            (Phase::Writing, Occurrence::Written) => Transfer {
                phase: Phase::Reading,
                pending: 0,
                written: advanced(self.written, self.pending),
                reporter: match self.reporter {
                    Some(reporter) => Some(reporter.advance(self.pending)),
                    None => None,
                },
                ..self
            },
            (Phase::Writing, Occurrence::OutputFailed { reason }) => self.fail(
                Failure::Output(reason),
            ),
            _ => self,
        }
    }

    /// What the progress display does when `event` comes.
    pub open spec fn render(self, event: Occurrence) -> Render {
        match (self.phase, event) {
            (Phase::Requesting, Occurrence::Responded { status, content_length }) => {
                if is_error_status(status) {
                    Render::Nothing
                } else {
                    Render::Show
                }
            },
            (Phase::Reading, Occurrence::EndOfStream) => Render::Finish,
            (Phase::Writing, Occurrence::Written) => Render::Advance(self.pending),
            _ => Render::Nothing,
        }
    }

    /// The download after all of `events`, in their order.
    pub open spec fn run(self, events: Seq<Occurrence>) -> Transfer
        decreases events.len(),
    {
        if events.len() == 0 {
            self
        } else {
            self.run(events.drop_last()).step(events.last())
        }
    }

    /// What the progress display does, step by step, while `events` come.
    pub open spec fn renders(self, events: Seq<Occurrence>) -> Seq<Render>
        decreases events.len(),
    {
        if events.len() == 0 {
            Seq::empty()
        } else {
            self.renders(events.drop_last()).push(
                self.run(events.drop_last()).render(events.last()),
            )
        }
    }

    /// Whether the download is over, for better or worse.
    pub open spec fn is_over(self) -> bool {
        self.phase == Phase::Done || self.phase == Phase::Failed
    }

    /// Whether the server declared a length that the finished download did
    /// not have. This is no failure.
    pub open spec fn length_mismatch(self) -> bool {
        &&& self.phase == Phase::Done
        &&& self.reporter matches Some(reporter)
        &&& reporter.total matches Some(declared)
        &&& declared != self.written
    }

    /// What holds of a download at every moment.
    pub open spec fn well_formed(self) -> bool {
        &&& self.phase == Phase::Failed <==> self.failure is Some
        &&& self.phase == Phase::Requesting ==> self.reporter is None
        &&& self.phase != Phase::Requesting && self.phase != Phase::Failed
            ==> self.reporter is Some
        &&& self.phase != Phase::Writing && self.phase != Phase::Failed ==> self.pending == 0
        &&& self.reporter is None ==> self.written == 0
        &&& self.phase == Phase::Creating ==> self.written == 0
        &&& self.failure matches Some(Failure::HttpStatus(status)) ==> is_error_status(status)
            && self.reporter is None
        &&& self.reporter matches Some(reporter) ==> {
            &&& reporter.quiet == self.quiet
            &&& reporter.position == self.written
            &&& reporter.finished <==> self.phase == Phase::Done
            &&& reporter.label == if reporter.finished {
                completion_message(self.filename)
            } else {
                self.filename
            }
        }
    }
}

/// The bytes by which the display was moved on in `renders`.
pub open spec fn bytes_advanced(renders: Seq<Render>) -> nat
    decreases renders.len(),
{
    if renders.len() == 0 {
        0
    } else {
        bytes_advanced(renders.drop_last()) + match renders.last() {
            Render::Advance(n) => n as nat,
            _ => 0,
        }
    }
}

/// How often the display was frozen in `renders`.
pub open spec fn finishes(renders: Seq<Render>) -> nat
    decreases renders.len(),
{
    if renders.len() == 0 {
        0
    } else {
        finishes(renders.drop_last()) + if renders.last() == Render::Finish {
            1nat
        } else {
            0nat
        }
    }
}

/// The sum of the lengths of `chunks`.
pub open spec fn total_length(chunks: Seq<u64>) -> nat
    decreases chunks.len(),
{
    if chunks.len() == 0 {
        0
    } else {
        total_length(chunks.drop_last()) + chunks.last() as nat
    }
}

/// The events of a body that comes as `chunks`, each written before the
/// next is read.
pub open spec fn chunk_events(chunks: Seq<u64>) -> Seq<Occurrence>
    decreases chunks.len(),
{
    if chunks.len() == 0 {
        Seq::empty()
    } else {
        chunk_events(chunks.drop_last()).push(Occurrence::Chunk { len: chunks.last() }).push(
            Occurrence::Written,
        )
    }
}

/// The events of a download up to the moment when `chunks` have been
/// written: the response, the creation of the file, and the chunks.
pub open spec fn streamed(status: u16, content_length: Option<u64>, chunks: Seq<u64>) -> Seq<
    Occurrence,
> {
    seq![Occurrence::Responded { status, content_length }, Occurrence::FileCreated] + chunk_events(
        chunks,
    )
}

/// Counting on in 64 bits from a wrapped count gives the wrapped sum.
pub proof fn lemma_wrapped_sum(count: nat, n: u64)
    ensures
        advanced(wrapped(count), n) == wrapped(count + n as nat),
{
    lemma_add_mod_noop_right(n as int, count as int, 0x1_0000_0000_0000_0000);
}

/// A step writes what it moves the display on by, and nothing else.
proof fn lemma_step_counts(before: Transfer, event: Occurrence)
    ensures
        before.step(event).written == match before.render(event) {
            Render::Advance(n) => advanced(before.written, n),
            _ => before.written,
        },
{
}

/// What one more step of the display adds to the two counts.
pub proof fn lemma_counts_push(renders: Seq<Render>, render: Render)
    ensures
        bytes_advanced(renders.push(render)) == bytes_advanced(renders) + match render {
            Render::Advance(n) => n as nat,
            _ => 0,
        },
        finishes(renders.push(render)) == finishes(renders) + if render == Render::Finish {
            1nat
        } else {
            0nat
        },
{
    assert(renders.push(render).drop_last() == renders);
}

/// A run goes on from where the run of its events so far has ended.
pub proof fn lemma_run_push(start: Transfer, events: Seq<Occurrence>, event: Occurrence)
    ensures
        start.run(events.push(event)) == start.run(events).step(event),
        start.renders(events.push(event)) == start.renders(events).push(
            start.run(events).render(event),
        ),
{
    assert(events.push(event).drop_last() == events);
}

/// Every download that began at its start is well formed, whatever has
/// happened since.
pub proof fn lemma_run_well_formed(
    target: Seq<char>,
    filename: Seq<char>,
    quiet: bool,
    events: Seq<Occurrence>,
)
    ensures
        Transfer::start(target, filename, quiet).run(events).well_formed(),
    decreases events.len(),
{
    if events.len() > 0 {
        lemma_run_well_formed(target, filename, quiet, events.drop_last());
    }
}

/// A download that is over stays as it is: no event changes it or moves
/// the display, and the command stays the exit.
pub proof fn lemma_over_is_final(end: Transfer, events: Seq<Occurrence>)
    requires
        end.is_over(),
    ensures
        end.run(events) == end,
        bytes_advanced(end.renders(events)) == 0,
        finishes(end.renders(events)) == 0,
    decreases events.len(),
{
    if events.len() > 0 {
        lemma_over_is_final(end, events.drop_last());
        assert(end.renders(events).drop_last() == end.renders(events.drop_last()));
    }
}

/// The display is frozen once in a download that succeeded, and never in
/// any other.
pub proof fn lemma_finished_once(
    target: Seq<char>,
    filename: Seq<char>,
    quiet: bool,
    events: Seq<Occurrence>,
)
    ensures
        finishes(Transfer::start(target, filename, quiet).renders(events)) == if Transfer::start(
            target,
            filename,
            quiet,
        ).run(events).phase == Phase::Done {
            1nat
        } else {
            0nat
        },
    decreases events.len(),
{
    let start = Transfer::start(target, filename, quiet);
    if events.len() > 0 {
        lemma_finished_once(target, filename, quiet, events.drop_last());
        assert(start.renders(events).drop_last() == start.renders(events.drop_last()));
    }
}

/// The bytes written are the bytes by which the display was moved on, and
/// the bytes that the reporter has recorded.
pub proof fn lemma_written_is_advanced(
    target: Seq<char>,
    filename: Seq<char>,
    quiet: bool,
    events: Seq<Occurrence>,
)
    ensures
        ({
            let start = Transfer::start(target, filename, quiet);
            &&& start.run(events).written == wrapped(bytes_advanced(start.renders(events)))
            &&& start.run(events).reporter matches Some(reporter) ==> reporter.position
                == start.run(events).written
        }),
    decreases events.len(),
{
    let start = Transfer::start(target, filename, quiet);
    lemma_run_well_formed(target, filename, quiet, events);
    if events.len() > 0 {
        let earlier = events.drop_last();
        lemma_written_is_advanced(target, filename, quiet, earlier);
        assert(start.renders(events).drop_last() == start.renders(earlier));
        lemma_step_counts(start.run(earlier), events.last());
        match start.run(earlier).render(events.last()) {
            Render::Advance(n) => {
                lemma_wrapped_sum(bytes_advanced(start.renders(earlier)), n);
            },
            _ => {},
        }
    }
}

/// Where a download stands after a response that was accepted, the
/// creation of the file, and `chunks` written one after the other: it
/// waits for the next chunk, has written and recorded the sum of their
/// lengths, and has moved the display on by as much.
pub proof fn lemma_streaming(
    target: Seq<char>,
    filename: Seq<char>,
    quiet: bool,
    status: u16,
    content_length: Option<u64>,
    chunks: Seq<u64>,
)
    requires
        !is_error_status(status),
    ensures
        ({
            let start = Transfer::start(target, filename, quiet);
            let events = streamed(status, content_length, chunks);
            &&& start.run(events) == Transfer {
                phase: Phase::Reading,
                reporter: Some(
                    ProgressState {
                        position: wrapped(total_length(chunks)),
                        ..ProgressState::start(quiet, filename, content_length)
                    },
                ),
                written: wrapped(total_length(chunks)),
                ..start
            }
            &&& bytes_advanced(start.renders(events)) == total_length(chunks)
            &&& finishes(start.renders(events)) == 0
        }),
    decreases chunks.len(),
{
    let start = Transfer::start(target, filename, quiet);
    if chunks.len() == 0 {
        let response = Occurrence::Responded { status, content_length };
        let first = Seq::<Occurrence>::empty().push(response);
        assert(streamed(status, content_length, chunks) == first.push(Occurrence::FileCreated));
        lemma_run_push(start, Seq::empty(), response);
        lemma_run_push(start, first, Occurrence::FileCreated);
        lemma_counts_push(Seq::empty(), Render::Show);
        lemma_counts_push(start.renders(first), Render::Nothing);
    } else {
        let before = chunks.drop_last();
        let len = chunks.last();
        lemma_streaming(target, filename, quiet, status, content_length, before);
        let so_far = streamed(status, content_length, before);
        let read = so_far.push(Occurrence::Chunk { len });
        assert(streamed(status, content_length, chunks) == read.push(Occurrence::Written));
        lemma_run_push(start, so_far, Occurrence::Chunk { len });
        lemma_run_push(start, read, Occurrence::Written);
        lemma_counts_push(start.renders(so_far), Render::Nothing);
        lemma_counts_push(start.renders(read), Render::Advance(len));
        lemma_wrapped_sum(total_length(before), len);
    }
}

/// A download whose response is accepted and whose body comes to its end
/// succeeds: it has written the sum of the chunks' lengths, the reporter
/// has recorded as much and is finished with the completion message, and
/// the display was moved on by that sum and frozen once. Where the sum is
/// the length that the server declared, the bytes written are that length.
pub proof fn lemma_complete_download(
    target: Seq<char>,
    filename: Seq<char>,
    quiet: bool,
    status: u16,
    content_length: Option<u64>,
    chunks: Seq<u64>,
)
    requires
        !is_error_status(status),
    ensures
        ({
            let start = Transfer::start(target, filename, quiet);
            let events = streamed(status, content_length, chunks).push(Occurrence::EndOfStream);
            let end = start.run(events);
            &&& end == Transfer {
                phase: Phase::Done,
                reporter: Some(
                    ProgressState {
                        quiet,
                        label: completion_message(filename),
                        total: content_length,
                        position: wrapped(total_length(chunks)),
                        finished: true,
                    },
                ),
                written: wrapped(total_length(chunks)),
                ..start
            }
            &&& awaited(end.phase) == Command::Exit { code: 0 }
            &&& bytes_advanced(start.renders(events)) == total_length(chunks)
            &&& finishes(start.renders(events)) == 1
            &&& content_length == Some(wrapped(total_length(chunks))) ==> !end.length_mismatch()
            &&& forall|declared: u64|
                content_length == Some(declared) && total_length(chunks) == declared ==> {
                    &&& end.written == declared
                    &&& end.reporter->0.position == declared
                    &&& !end.length_mismatch()
                }
        }),
{
    let start = Transfer::start(target, filename, quiet);
    let body = streamed(status, content_length, chunks);
    lemma_streaming(target, filename, quiet, status, content_length, chunks);
    lemma_run_push(start, body, Occurrence::EndOfStream);
    lemma_counts_push(start.renders(body), Render::Finish);
}

/// A download that breaks off while the body is read, after `chunks` have
/// been written, fails with a transport error. The bytes written are those
/// chunks and no more, whatever comes after, and the display is never
/// frozen.
pub proof fn lemma_interrupted_download(
    target: Seq<char>,
    filename: Seq<char>,
    quiet: bool,
    status: u16,
    content_length: Option<u64>,
    chunks: Seq<u64>,
    reason: Seq<char>,
    later: Seq<Occurrence>,
)
    requires
        !is_error_status(status),
    ensures
        ({
            let start = Transfer::start(target, filename, quiet);
            let events = streamed(status, content_length, chunks).push(
                Occurrence::TransportFailed { reason },
            );
            let end = start.run(events);
            &&& end.phase == Phase::Failed
            &&& end.failure == Some(Failure::Transport(reason))
            &&& end.written == wrapped(total_length(chunks))
            &&& awaited(end.phase) == Command::Exit { code: 1 }
            &&& finishes(start.renders(events)) == 0
            &&& end.run(later) == end
        }),
{
    let start = Transfer::start(target, filename, quiet);
    let body = streamed(status, content_length, chunks);
    let event = Occurrence::TransportFailed { reason };
    lemma_streaming(target, filename, quiet, status, content_length, chunks);
    lemma_run_push(start, body, event);
    lemma_counts_push(start.renders(body), Render::Nothing);
    lemma_over_is_final(start.run(body.push(event)), later);
}

/// A response with the status of a client or server error ends the
/// download at once: it fails with that status, nothing is written, no
/// reporter is made, and no later event brings a command but the exit with
/// status 1, so that no file is ever created.
pub proof fn lemma_refused_status(
    target: Seq<char>,
    filename: Seq<char>,
    quiet: bool,
    status: u16,
    content_length: Option<u64>,
    later: Seq<Occurrence>,
)
    requires
        is_error_status(status),
    ensures
        ({
            let start = Transfer::start(target, filename, quiet);
            let end = start.step(Occurrence::Responded { status, content_length });
            &&& end == start.fail(Failure::HttpStatus(status))
            &&& end.written == 0
            &&& end.reporter is None
            &&& end.run(later) == end
            &&& awaited(end.run(later).phase) == Command::Exit { code: 1 }
        }),
{
    let start = Transfer::start(target, filename, quiet);
    lemma_over_is_final(start.step(Occurrence::Responded { status, content_length }), later);
}

/// Quiet or not, a download takes the same course: after the same events
/// the two stand in the same phase, have written the same bytes, wait on
/// the same command and have failed, if at all, with the same error. They
/// differ only in the reporter's rendering, which is hidden when quiet.
pub proof fn lemma_quiet_changes_nothing(
    target: Seq<char>,
    filename: Seq<char>,
    events: Seq<Occurrence>,
)
    ensures
        ({
            let loud = Transfer::start(target, filename, false).run(events);
            let quiet = Transfer::start(target, filename, true).run(events);
            &&& quiet == Transfer {
                quiet: true,
                reporter: match loud.reporter {
                    Some(reporter) => Some(ProgressState { quiet: true, ..reporter }),
                    None => None,
                },
                ..loud
            }
            &&& awaited(quiet.phase) == awaited(loud.phase)
            &&& quiet.reporter matches Some(reporter) ==> reporter.rendering() == Rendering::Hidden
            &&& Transfer::start(target, filename, true).renders(events) == Transfer::start(
                target,
                filename,
                false,
            ).renders(events)
        }),
    decreases events.len(),
{
    if events.len() > 0 {
        lemma_quiet_changes_nothing(target, filename, events.drop_last());
        lemma_run_well_formed(target, filename, true, events);
    }
}

} // verus!
