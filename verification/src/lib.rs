//! Single-document text-editing session manager.
//!
//! The crate holds an editable text buffer, tracks whether it has unsaved
//! changes through a content fingerprint, and decides, for every user or
//! completed-I/O event, what the new session state is and which background
//! file operation (if any) to launch next.  The surrounding program performs
//! the file reads, writes and dialogs and feeds their results back in as
//! events; every decision lives here and is verified.

pub mod document;
pub mod fingerprint;
pub mod gateway;
pub mod laws;
pub mod session;
