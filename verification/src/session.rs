//! The session controller: one state machine for the whole editing session.
//!
//! The session owns the document, the optional file path, the last error and
//! the dirty flag.  Every user action and every completed file operation
//! arrives as one [`Event`]; [`Session::update`] mutates the state
//! synchronously and returns the [`Action`] the surrounding program must
//! perform next.  The result of that action re-enters later as its own event.
//!
//! The dirty flag is a heuristic: it compares the FNV-1a fingerprint of the
//! current text against the fingerprint recorded at the last load or save, so
//! a fingerprint collision can report a changed document as clean.  On a save
//! request the snapshot fingerprint is updated before the write completes, so
//! a failed write can leave a later edit looking clean; both are deliberate,
//! documented approximations of the design.

use vstd::prelude::*;

use crate::document::{apply_edit, text_hash, Document, DocV, EditOp, EditOpV};
use crate::fingerprint::fp_seq;

verus! {

/// Classification of a failed file-system operation.
#[derive(Clone, Copy, Debug, PartialEq, Eq)]
pub enum IoKind {
    NotFound,
    PermissionDenied,
    Other,
}

/// What a gateway operation can fail with.
#[derive(Clone, Copy, Debug, PartialEq, Eq)]
pub enum Error {
    /// The user dismissed a file dialog without choosing; not a fault.
    DialogClosed,
    /// The underlying file-system operation failed.
    IOFailed(IoKind),
}

/// The syntax-highlighting theme the user picked; presentation only.
#[derive(Clone, Copy, Debug, PartialEq, Eq)]
pub enum ThemeChoice {
    Base16Eighties,
    Base16Mocha,
    Base16Ocean,
    InspiredGitHub,
    SolarizedDark,
}

/// Whether the surrounding window should render dark or light.
#[derive(Clone, Copy, Debug, PartialEq, Eq)]
pub enum ThemeMode {
    Dark,
    Light,
}

/// Whether a theme choice calls for the dark window mode.
pub open spec fn is_dark(t: ThemeChoice) -> bool {
    !(t is InspiredGitHub)
}

impl ThemeChoice {
    /// True for every theme but the one light theme.
    pub fn is_dark(&self) -> (r: bool)
        ensures
            r == is_dark(*self),
    {
        !matches!(self, ThemeChoice::InspiredGitHub)
    }
}

/// One input to the session controller: a user action or a completed
/// gateway operation folding its result back in.
#[derive(Debug)]
pub enum Event {
    NewRequested,
    OpenRequested,
    OpenCompleted(Result<(String, String), Error>),
    SaveRequested,
    SaveCompleted(Result<String, Error>),
    EditRequested(EditOp),
    PresentationPreferenceChanged(ThemeChoice),
}

/// Mathematical form of an event.
pub ghost enum EventV {
    NewRequested,
    OpenRequested,
    OpenCompleted(Result<(Seq<char>, Seq<char>), Error>),
    SaveRequested,
    SaveCompleted(Result<Seq<char>, Error>),
    EditRequested(EditOpV),
    PresentationPreferenceChanged(ThemeChoice),
}

impl View for Event {
    type V = EventV;

    open spec fn view(&self) -> EventV {
        match self {
            Event::NewRequested => EventV::NewRequested,
            Event::OpenRequested => EventV::OpenRequested,
            Event::OpenCompleted(res) => EventV::OpenCompleted(
                match res {
                    Ok((p, t)) => Ok((p@, t@)),
                    Err(e) => Err(*e),
                },
            ),
            Event::SaveRequested => EventV::SaveRequested,
            Event::SaveCompleted(res) => EventV::SaveCompleted(
                match res {
                    Ok(p) => Ok(p@),
                    Err(e) => Err(*e),
                },
            ),
            Event::EditRequested(op) => EventV::EditRequested(op@),
            Event::PresentationPreferenceChanged(t) => EventV::PresentationPreferenceChanged(*t),
        }
    }
}

/// The gateway operation the surrounding program must launch next.
/// Its eventual result re-enters the controller as a completion event.
#[derive(Debug, Clone, PartialEq, Eq)]
pub enum Action {
    /// Nothing to launch.
    Idle,
    /// Read the file at the given path; deliver `OpenCompleted`.
    Load(String),
    /// Show the open dialog, then read the chosen file; deliver
    /// `OpenCompleted`.
    PickAndLoad,
    /// Write the text to the path, first showing the save dialog when the
    /// path is absent; deliver `SaveCompleted`.
    Persist(Option<String>, String),
}

/// Mathematical form of an action.
pub ghost enum ActionV {
    Idle,
    Load(Seq<char>),
    PickAndLoad,
    Persist(Option<Seq<char>>, Seq<char>),
}

impl View for Action {
    type V = ActionV;

    open spec fn view(&self) -> ActionV {
        match self {
            Action::Idle => ActionV::Idle,
            Action::Load(p) => ActionV::Load(p@),
            Action::PickAndLoad => ActionV::PickAndLoad,
            Action::Persist(p, t) => ActionV::Persist(
                match p {
                    Some(q) => Some(q@),
                    None => None,
                },
                t@,
            ),
        }
    }
}

/// Mathematical form of the whole session state.
pub ghost struct SessionView {
    pub doc: DocV,
    pub path: Option<Seq<char>>,
    pub error: Option<Error>,
    pub snapshot_fp: u64,
    pub dirty: bool,
    pub theme: ThemeChoice,
}

/// The state after processing one event.
pub open spec fn next(s: SessionView, e: EventV) -> SessionView {
    match e {
        EventV::NewRequested => SessionView {
            doc: DocV { text: Seq::<char>::empty(), cursor: 0 },
            path: None,
            error: None,
            snapshot_fp: fp_seq(Seq::<char>::empty()),
            dirty: true,
            theme: s.theme,
        },
        EventV::OpenRequested => s,
        EventV::OpenCompleted(res) => match res {
            Ok((p, t)) => SessionView {
                doc: DocV { text: t, cursor: 0 },
                path: Some(p),
                error: None,
                snapshot_fp: fp_seq(t),
                dirty: false,
                theme: s.theme,
            },
            Err(e) => SessionView { error: Some(e), ..s },
        },
        EventV::SaveRequested => SessionView { snapshot_fp: fp_seq(s.doc.text), ..s },
        EventV::SaveCompleted(res) => match res {
            Ok(p) => SessionView { path: Some(p), error: None, dirty: false, ..s },
            Err(e) => SessionView { error: Some(e), ..s },
        },
        EventV::EditRequested(op) => {
            let d = apply_edit(s.doc, op);
            SessionView {
                doc: d,
                error: None,
                dirty: fp_seq(d.text) != s.snapshot_fp,
                ..s
            }
        },
        EventV::PresentationPreferenceChanged(t) => SessionView { theme: t, ..s },
    }
}

/// The gateway operation one event launches.
pub open spec fn action_of(s: SessionView, e: EventV) -> ActionV {
    match e {
        EventV::OpenRequested => ActionV::PickAndLoad,
        EventV::SaveRequested => ActionV::Persist(s.path, s.doc.text),
        _ => ActionV::Idle,
    }
}

/// The single editing session: document, path, dirty flag, last error.
pub struct Session {
    pub doc: Document,
    pub path: Option<String>,
    pub error: Option<Error>,
    pub snapshot_fp: u64,
    pub dirty: bool,
    pub theme: ThemeChoice,
}

impl View for Session {
    type V = SessionView;

    open spec fn view(&self) -> SessionView {
        SessionView {
            doc: self.doc@,
            path: match self.path {
                Some(p) => Some(p@),
                None => None,
            },
            error: self.error,
            snapshot_fp: self.snapshot_fp,
            dirty: self.dirty,
            theme: self.theme,
        }
    }
}

impl Session {
    /// The cursor stands inside the text.
    pub open spec fn wf(&self) -> bool {
        self@.doc.wf()
    }

    /// A fresh session holding the placeholder content, clean, with no path,
    /// together with the initial load of the configured default document.
    pub fn new(placeholder: &str, default_path: &str) -> (r: (Session, Action))
        ensures
            r.0@.doc == (DocV { text: placeholder@, cursor: 0 as int }),
            r.0@.path is None,
            r.0@.error is None,
            r.0@.snapshot_fp == fp_seq(placeholder@),
            r.0@.dirty == false,
            r.0@.theme == ThemeChoice::SolarizedDark,
            r.0.wf(),
            r.1@ == ActionV::Load(default_path@),
    {
        let doc = Document::from_str(placeholder);
        let snapshot_fp = text_hash(&doc);
        let session = Session {
            doc,
            path: None,
            error: None,
            snapshot_fp,
            dirty: false,
            theme: ThemeChoice::SolarizedDark,
        };
        (session, Action::Load(default_path.to_owned()))
    }

    /// Processes one event: mutates the session as [`next`] says and returns
    /// the gateway operation [`action_of`] says to launch.
    pub fn update(&mut self, event: Event) -> (a: Action)
        requires
            old(self).wf(),
        ensures
            final(self)@ == next(old(self)@, event@),
            a@ == action_of(old(self)@, event@),
            final(self).wf(),
    {
        match event {
            Event::NewRequested => {
                self.doc = Document::new();
                self.path = None;
                self.error = None;
                self.dirty = true;
                self.snapshot_fp = text_hash(&self.doc);
                Action::Idle
            },
            Event::OpenRequested => Action::PickAndLoad,
            Event::OpenCompleted(res) => match res {
                Ok((p, t)) => {
                    self.doc = Document::from_str(t.as_str());
                    self.path = Some(p);
                    self.error = None;
                    self.snapshot_fp = text_hash(&self.doc);
                    self.dirty = false;
                    Action::Idle
                },
                Err(e) => {
                    self.error = Some(e);
                    Action::Idle
                },
            },
            Event::SaveRequested => {
                let text = self.doc.text();
                self.snapshot_fp = text_hash(&self.doc);
                let path = match &self.path {
                    Some(p) => Some(p.clone()),
                    None => None,
                };
                Action::Persist(path, text)
            },
            Event::SaveCompleted(res) => match res {
                Ok(p) => {
                    self.path = Some(p);
                    self.error = None;
                    self.dirty = false;
                    Action::Idle
                },
                Err(e) => {
                    self.error = Some(e);
                    Action::Idle
                },
            },
            Event::EditRequested(op) => {
                self.error = None;
                self.doc.apply(&op);
                self.dirty = text_hash(&self.doc) != self.snapshot_fp;
                Action::Idle
            },
            Event::PresentationPreferenceChanged(t) => {
                self.theme = t;
                Action::Idle
            },
        }
    }

    /// The window title.
    pub fn title(&self) -> (r: String)
        ensures
            r@ == "A cool text editor!"@,
    {
        "A cool text editor!".to_owned()
    }

    /// The save command is available exactly while the document is dirty.
    pub fn save_enabled(&self) -> (r: bool)
        ensures
            r == self@.dirty,
    {
        self.dirty
    }

    /// Dark or light window mode, after the picked theme.
    pub fn theme_mode(&self) -> (r: ThemeMode)
        ensures
            (r is Dark) == is_dark(self@.theme),
    {
        if self.theme.is_dark() {
            ThemeMode::Dark
        } else {
            ThemeMode::Light
        }
    }

    /// The status text: a failed file operation takes precedence over the
    /// path display; an unsaved new document shows the untitled label.
    pub fn status_label(&self) -> (r: String)
        ensures
            r@ == status_of(self@),
    {
        match &self.error {
            Some(Error::IOFailed(k)) => io_kind_label(*k),
            _ => match &self.path {
                Some(p) => p.clone(),
                None => "New file.txt".to_owned(),
            },
        }
    }

    /// The cursor as the 1-based (line, column) pair shown to the user.
    pub fn cursor_display(&self) -> (r: (usize, usize))
        requires
            self.wf(),
            self@.doc.text.len() < usize::MAX,
        ensures
            r.0 == crate::document::line_of(self@.doc.text, self@.doc.cursor) + 1,
            r.1 == crate::document::col_of(self@.doc.text, self@.doc.cursor) + 1,
    {
        proof {
            crate::document::lemma_line_col_bounds(self@.doc.text, self@.doc.cursor);
        }
        let (line, col) = self.doc.cursor_position();
        (line + 1, col + 1)
    }
}

/// The status text of a session state.
pub open spec fn status_of(s: SessionView) -> Seq<char> {
    match s.error {
        Some(Error::IOFailed(k)) => io_kind_label_spec(k),
        _ => match s.path {
            Some(p) => p,
            None => "New file.txt"@,
        },
    }
}

/// The display text of a failure classification.
pub open spec fn io_kind_label_spec(k: IoKind) -> Seq<char> {
    match k {
        IoKind::NotFound => "file not found"@,
        IoKind::PermissionDenied => "permission denied"@,
        IoKind::Other => "i/o error"@,
    }
}

/// The display text of a failure classification.
pub fn io_kind_label(k: IoKind) -> (r: String)
    ensures
        r@ == io_kind_label_spec(k),
{
    match k {
        IoKind::NotFound => "file not found".to_owned(),
        IoKind::PermissionDenied => "permission denied".to_owned(),
        IoKind::Other => "i/o error".to_owned(),
    }
}

/// Whether a key press fires the save command: the save accelerator with the
/// command modifier, and only while the document is dirty, mirroring the
/// save button's own enablement.
pub fn save_shortcut_fires(key: char, command_held: bool, dirty: bool) -> (r: bool)
    ensures
        r == (key == 's' && command_held && dirty),
{
    key == 's' && command_held && dirty
}

} // verus!
