//! A single-file HTTP downloader, as a library of decisions.
//!
//! The crate holds everything the downloader decides: the name of the
//! output file, what the progress display shows, and the order in which the
//! request, the file and the chunks of the body are handled. The network,
//! the disk and the terminal are left to the caller, who performs each
//! [`Command`] and reports back what happened as an [`Event`].

pub mod clock;
pub mod copier;
pub mod decimal;
pub mod error;
pub mod filename;
pub mod progress;
pub mod transfer;

pub use copier::{download, Download, Event};
pub use error::DownloadError;
pub use filename::{extract_filename, resolve_filename};
pub use progress::{create_progress_bar, ProgressReporter, Rendering};
pub use transfer::{Command, Phase, Render};
