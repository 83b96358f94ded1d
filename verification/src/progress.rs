//! The progress reporter: what the terminal is to show of a transfer, and
//! how far the transfer has come.
//!
//! The reporter holds no terminal. Whoever draws reads [`Rendering`] once
//! to set the display up and follows each [`ProgressReporter::advance`] and
//! the final [`ProgressReporter::finish`].

use vstd::prelude::*;
use vstd::string::*;

verus! {

/// What the terminal shows of a transfer.
#[derive(Clone, Copy, Debug, PartialEq, Eq, Structural)]
pub enum Rendering {
    /// Nothing is drawn.
    Hidden,
    /// A bar that fills up to `total` bytes, with the elapsed time, the
    /// bytes so far over `total`, and the label.
    Bar { total: u64 },
    /// A spinner with the label and no numbers.
    Spinner,
}

/// The rendering for a reporter that is quiet or not and knows the total
/// number of bytes or not.
pub open spec fn rendering_for(quiet: bool, total: Option<u64>) -> Rendering {
    if quiet {
        Rendering::Hidden
    } else {
        match total {
            Some(total) => Rendering::Bar { total },
            None => Rendering::Spinner,
        }
    }
}

/// The bytes counted after `n` more bytes on top of `position`. The count
/// is kept in 64 bits and wraps round.
pub open spec fn advanced(position: u64, n: u64) -> u64 {
    ((position + n) % 0x1_0000_0000_0000_0000) as u64
}

/// What a reporter holds, as plain values.
pub struct ProgressState {
    /// Whether drawing is suppressed.
    pub quiet: bool,
    /// The text shown beside the bar or spinner.
    pub label: Seq<char>,
    /// The number of bytes expected, where it is known.
    pub total: Option<u64>,
    /// The number of bytes recorded so far.
    pub position: u64,
    /// Whether the transfer has been marked complete.
    pub finished: bool,
}

impl ProgressState {
    /// A reporter at the start of a transfer.
    pub open spec fn start(quiet: bool, label: Seq<char>, total: Option<u64>) -> ProgressState {
        ProgressState { quiet, label, total, position: 0, finished: false }
    }

    /// The state after `n` more bytes.
    pub open spec fn advance(self, n: u64) -> ProgressState {
        ProgressState { position: advanced(self.position, n), ..self }
    }

    /// The state after completion with the final `message`.
    pub open spec fn finish(self, message: Seq<char>) -> ProgressState {
        ProgressState { label: message, finished: true, ..self }
    }

    /// What the terminal shows for this state.
    pub open spec fn rendering(self) -> Rendering {
        rendering_for(self.quiet, self.total)
    }
}

/// The progress reporter of one transfer.
#[derive(Debug)]
pub struct ProgressReporter {
    quiet: bool,
    label: String,
    total: Option<u64>,
    position: u64,
    finished: bool,
}

impl View for ProgressReporter {
    type V = ProgressState;

    closed spec fn view(&self) -> ProgressState {
        ProgressState {
            quiet: self.quiet,
            label: self.label@,
            total: self.total,
            position: self.position,
            finished: self.finished,
        }
    }
}

/// A reporter for a transfer of `length` bytes, where known, labelled
/// `msg`: nothing recorded yet, not finished, and drawn as
/// [`rendering_for`] says.
pub fn create_progress_bar(quiet_mode: bool, msg: &str, length: Option<u64>) -> (reporter:
    ProgressReporter)
    ensures
        reporter@ == ProgressState::start(quiet_mode, msg@, length),
{
    ProgressReporter {
        quiet: quiet_mode,
        label: String::from_str(msg),
        total: length,
        position: 0,
        finished: false,
    }
}

impl ProgressReporter {
    /// Records that `n` more bytes have been transferred.
    pub fn advance(&mut self, n: u64)
        ensures
            final(self)@ == old(self)@.advance(n),
    {
        self.position = self.position.wrapping_add(n);
    }

    /// Marks the transfer complete and replaces the label by `message`.
    pub fn finish(&mut self, message: &str)
        ensures
            final(self)@ == old(self)@.finish(message@),
    {
        self.label = String::from_str(message);
        self.finished = true;
    }

    /// What the terminal is to show.
    pub fn rendering(&self) -> (rendering: Rendering)
        ensures
            rendering == self@.rendering(),
    {
        if self.quiet {
            Rendering::Hidden
        } else {
            match self.total {
                Some(total) => Rendering::Bar { total },
                None => Rendering::Spinner,
            }
        }
    }

    /// Whether drawing is suppressed.
    pub fn is_quiet(&self) -> (quiet: bool)
        ensures
            quiet == self@.quiet,
    {
        self.quiet
    }

    /// The text shown beside the bar or spinner: the label given at the
    /// start, or the final message once finished.
    pub fn label(&self) -> (label: &str)
        ensures
            label@ == self@.label,
    {
        self.label.as_str()
    }

    /// The number of bytes expected, where it is known.
    pub fn total(&self) -> (total: Option<u64>)
        ensures
            total == self@.total,
    {
        self.total
    }

    /// The number of bytes recorded so far.
    pub fn position(&self) -> (position: u64)
        ensures
            position == self@.position,
    {
        self.position
    }

    /// Whether the transfer has been marked complete.
    pub fn is_finished(&self) -> (finished: bool)
        ensures
            finished == self@.finished,
    {
        self.finished
    }
}

} // verus!
