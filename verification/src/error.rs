//! The ways a download fails, and what the user is told.

use crate::decimal::{decimal, decimal_string};
use vstd::prelude::*;
use vstd::string::*;

verus! {

/// A fatal error of a download, as plain values.
pub enum Failure {
    /// The request could not be made, or the body broke off while it was
    /// read. The text says why.
    Transport(Seq<char>),
    /// The server answered with the status of a client or server error.
    HttpStatus(u16),
    /// The output file could not be created, or a chunk could not be
    /// written in full. The text says why.
    Output(Seq<char>),
}

impl Failure {
    /// The one-line description of the error.
    pub open spec fn message(self) -> Seq<char> {
        match self {
            Failure::Transport(reason) => reason,
            Failure::HttpStatus(status) => "HTTP status "@ + decimal(status as nat),
            Failure::Output(reason) => reason,
        }
    }

    /// The line printed for the error.
    pub open spec fn report(self) -> Seq<char> {
        "Error: "@ + self.message()
    }
}

/// A fatal error of a download.
#[derive(Clone, Debug, PartialEq, Eq)]
pub enum DownloadError {
    /// The request could not be made, or the body broke off while it was
    /// read. The text says why.
    Transport(String),
    /// The server answered with the status of a client or server error.
    HttpStatus(u16),
    /// The output file could not be created, or a chunk could not be
    /// written in full. The text says why.
    Output(String),
}

impl View for DownloadError {
    type V = Failure;

    open spec fn view(&self) -> Failure {
        match self {
            DownloadError::Transport(reason) => Failure::Transport(reason@),
            DownloadError::HttpStatus(status) => Failure::HttpStatus(*status),
            DownloadError::Output(reason) => Failure::Output(reason@),
        }
    }
}

impl DownloadError {
    /// The one-line description of the error: the reason given for a
    /// transport or output error, `HTTP status ` and the status in decimal
    /// for a status error.
    pub fn message(&self) -> (text: String)
        ensures
            text@ == self@.message(),
    {
        match self {
            DownloadError::Transport(reason) => reason.clone(),
            DownloadError::HttpStatus(status) => {
                let mut text = String::from_str("HTTP status ");
                let digits = decimal_string(*status as u64);
                text.append(digits.as_str());
                text
            },
            DownloadError::Output(reason) => reason.clone(),
        }
    }

    /// The line printed for the error: `Error: ` and the description.
    pub fn report(&self) -> (line: String)
        ensures
            line@ == self@.report(),
    {
        let mut line = String::from_str("Error: ");
        let text = self.message();
        line.append(text.as_str());
        line
    }
}

/// The description of a status error holds the status in decimal, from the
/// thirteenth character on.
pub proof fn lemma_status_message_holds_code(status: u16)
    ensures
        Failure::HttpStatus(status).message().skip(12) == decimal(status as nat),
{
    reveal_strlit("HTTP status ");
    assert(Failure::HttpStatus(status).message().skip(12) == decimal(status as nat));
}

} // verus!
