//! Laws of the session state machine, proved over the transition function.

use vstd::prelude::*;

use crate::document::apply_edit;
use crate::fingerprint::fp_seq;
use crate::session::{action_of, next, ActionV, Error, EventV, SessionView};

verus! {

/// The state after processing a whole sequence of events, first to last.
pub open spec fn run(s: SessionView, es: Seq<EventV>) -> SessionView
    decreases es.len(),
{
    if es.len() == 0 {
        s
    } else {
        next(run(s, es.drop_last()), es.last())
    }
}

/// Dirty invariant: in any event sequence, right after an edit is processed
/// the dirty flag equals the fingerprint comparison — the fingerprint of the
/// current text differs from the snapshot fingerprint.
pub proof fn lemma_dirty_invariant(s: SessionView, es: Seq<EventV>, i: int)
    requires
        0 <= i < es.len(),
        es[i] is EditRequested,
    ensures
        ({
            let t = run(s, es.take(i + 1));
            t.dirty == (fp_seq(t.doc.text) != t.snapshot_fp)
        }),
{
    assert(es.take(i + 1).drop_last() =~= es.take(i));
    assert(es.take(i + 1).last() == es[i]);
}

/// A new document is dirty by design and has no path, whatever went before.
pub proof fn lemma_new_forces_dirty(s: SessionView)
    ensures
        next(s, EventV::NewRequested).dirty,
        next(s, EventV::NewRequested).path is None,
{
}

/// A save requested while no path is known hands the surrounding program a
/// persist operation without a path: the save dialog must run before any
/// write can happen.
pub proof fn lemma_save_without_path_prompts(s: SessionView)
    requires
        s.path is None,
    ensures
        action_of(s, EventV::SaveRequested) == ActionV::Persist(
            None::<Seq<char>>,
            s.doc.text,
        ),
{
}

/// A cancelled dialog is non-fatal: document, path and dirty flag are
/// exactly as before; only the last error changes, to the cancellation.
pub proof fn lemma_cancellation_non_fatal(s: SessionView, e: EventV)
    requires
        e == EventV::OpenCompleted(Err::<(Seq<char>, Seq<char>), Error>(Error::DialogClosed))
            || e == EventV::SaveCompleted(Err::<Seq<char>, Error>(Error::DialogClosed)),
    ensures
        next(s, e).doc == s.doc,
        next(s, e).path == s.path,
        next(s, e).dirty == s.dirty,
        next(s, e).snapshot_fp == s.snapshot_fp,
        next(s, e).theme == s.theme,
        next(s, e).error == Some(Error::DialogClosed),
{
}

/// A completed open overrides whatever came before it: the session then
/// holds exactly the opened file, clean, with no error — also when a reset
/// to a new document slipped in while the open was in flight.
pub proof fn lemma_completed_open_wins(s: SessionView, p: Seq<char>, t: Seq<char>)
    ensures
        ({
            let u = next(s, EventV::OpenCompleted(Ok((p, t))));
            u.doc.text == t && u.doc.cursor == 0 && u.path == Some(p) && u.error is None
                && !u.dirty && u.snapshot_fp == fp_seq(t)
        }),
{
}

/// Right after an edit the dirty flag is the fingerprint comparison against
/// the unchanged snapshot, and the error slot is cleared.
pub proof fn lemma_edit_recomputes_dirty(s: SessionView, op: crate::document::EditOpV)
    ensures
        ({
            let u = next(s, EventV::EditRequested(op));
            u.doc == apply_edit(s.doc, op) && u.snapshot_fp == s.snapshot_fp && u.error is None
                && u.dirty == (fp_seq(u.doc.text) != u.snapshot_fp)
        }),
{
}

} // verus!
