//! Decision logic of the file gateway.
//!
//! The gateway operations themselves — dialogs, reads, writes — suspend and
//! touch the outside world, so the surrounding program performs them.  Every
//! decision along the way is a function here: how a dismissed dialog becomes
//! an error, how a read or write result is folded into the completion event,
//! and when a save must first ask for a path.

use vstd::prelude::*;

use crate::session::{Error, IoKind};

verus! {

/// The outcome of a file dialog: the chosen path, or the cancellation error
/// when the user closed the dialog without choosing.
pub fn dialog_outcome(choice: Option<String>) -> (r: Result<String, Error>)
    ensures
        (match choice {
            Some(p) => r matches Ok(q) && q == p,
            None => r matches Err(e) && e == Error::DialogClosed,
        }),
{
    match choice {
        Some(p) => Ok(p),
        None => Err(Error::DialogClosed),
    }
}

/// Folds the result of reading a file into the open-completion payload:
/// the path together with the text, or the classified failure.
pub fn read_outcome(path: String, contents: Result<String, IoKind>) -> (r: Result<
    (String, String),
    Error,
>)
    ensures
        (match contents {
            Ok(text) => r matches Ok(pt) && pt.0 == path && pt.1 == text,
            Err(k) => r matches Err(e) && e == Error::IOFailed(k),
        }),
{
    match contents {
        Ok(text) => Ok((path, text)),
        Err(k) => Err(Error::IOFailed(k)),
    }
}

/// Folds the result of writing a file into the save-completion payload:
/// the path actually used, or the classified failure.
pub fn write_outcome(path: String, result: Result<(), IoKind>) -> (r: Result<String, Error>)
    ensures
        (match result {
            Ok(u) => r matches Ok(q) && q == path,
            Err(k) => r matches Err(e) && e == Error::IOFailed(k),
        }),
{
    match result {
        Ok(_) => Ok(path),
        Err(k) => Err(Error::IOFailed(k)),
    }
}

/// A save must first show the save dialog exactly when no path is known yet.
pub fn save_needs_dialog(path: &Option<String>) -> (r: bool)
    ensures
        r == (path is None),
{
    match path {
        Some(_) => false,
        None => true,
    }
}

/// The configured default document: the source file under the build
/// directory that the session loads at startup.
pub fn default_file(manifest_dir: &str) -> (r: String)
    ensures
        r@ == manifest_dir@ + "\\src\\main.rs"@,
{
    manifest_dir.to_owned().concat("\\src\\main.rs")
}

} // verus!
