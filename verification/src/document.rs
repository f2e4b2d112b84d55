//! The document buffer: the editable text and the cursor.
//!
//! The buffer holds the text as a sequence of characters and the cursor as a
//! flat character index into it.  It is mutated only by applying one edit
//! operation at a time; the line/column position shown to the user is derived
//! from the flat index.

use vstd::prelude::*;

use crate::fingerprint::{fingerprint_chars, fp_seq};

verus! {

/// One discrete edit operation on the document buffer.
#[derive(Debug)]
pub enum EditOp {
    /// Insert one character at the cursor; the cursor moves past it.
    Insert(char),
    /// Insert a string at the cursor; the cursor moves past it.
    InsertText(String),
    /// Remove the character before the cursor, if any.
    Backspace,
    /// Remove the character at the cursor, if any.
    Delete,
    /// Move the cursor one character towards the start.
    MoveLeft,
    /// Move the cursor one character towards the end.
    MoveRight,
    /// Move the cursor to the given character index, clamped to the text end.
    MoveTo(usize),
}

/// Mathematical form of an edit operation.
pub ghost enum EditOpV {
    Insert(char),
    InsertText(Seq<char>),
    Backspace,
    Delete,
    MoveLeft,
    MoveRight,
    MoveTo(int),
}

impl View for EditOp {
    type V = EditOpV;

    open spec fn view(&self) -> EditOpV {
        match self {
            EditOp::Insert(c) => EditOpV::Insert(*c),
            EditOp::InsertText(s) => EditOpV::InsertText(s@),
            EditOp::Backspace => EditOpV::Backspace,
            EditOp::Delete => EditOpV::Delete,
            EditOp::MoveLeft => EditOpV::MoveLeft,
            EditOp::MoveRight => EditOpV::MoveRight,
            EditOp::MoveTo(i) => EditOpV::MoveTo(*i as int),
        }
    }
}

/// Mathematical form of the document buffer.
pub ghost struct DocV {
    pub text: Seq<char>,
    pub cursor: int,
}

impl DocV {
    /// The cursor is a valid position in the text.
    pub open spec fn wf(self) -> bool {
        0 <= self.cursor <= self.text.len()
    }
}

/// What applying one edit operation does to text and cursor.
pub open spec fn apply_edit(d: DocV, op: EditOpV) -> DocV {
    match op {
        EditOpV::Insert(c) => DocV {
            text: d.text.insert(d.cursor, c),
            cursor: d.cursor + 1,
        },
        EditOpV::InsertText(s) => DocV {
            text: d.text.take(d.cursor) + s + d.text.skip(d.cursor),
            cursor: d.cursor + s.len(),
        },
        EditOpV::Backspace => if d.cursor > 0 {
            DocV { text: d.text.remove(d.cursor - 1), cursor: d.cursor - 1 }
        } else {
            d
        },
        EditOpV::Delete => if d.cursor < d.text.len() {
            DocV { text: d.text.remove(d.cursor), cursor: d.cursor }
        } else {
            d
        },
        EditOpV::MoveLeft => DocV {
            text: d.text,
            cursor: if d.cursor > 0 { d.cursor - 1 } else { 0 },
        },
        EditOpV::MoveRight => DocV {
            text: d.text,
            cursor: if d.cursor < d.text.len() { d.cursor + 1 } else { d.text.len() as int },
        },
        EditOpV::MoveTo(i) => DocV {
            text: d.text,
            cursor: if i <= d.text.len() { i } else { d.text.len() as int },
        },
    }
}

/// Number of line breaks in the first `cursor` characters: the 0-based line.
pub open spec fn line_of(text: Seq<char>, cursor: int) -> int
    decreases cursor,
{
    if cursor <= 0 {
        0
    } else {
        line_of(text, cursor - 1) + if text[cursor - 1] == '\n' { 1int } else { 0int }
    }
}

/// Characters since the last line break before `cursor`: the 0-based column.
pub open spec fn col_of(text: Seq<char>, cursor: int) -> int
    decreases cursor,
{
    if cursor <= 0 {
        0
    } else if text[cursor - 1] == '\n' {
        0
    } else {
        col_of(text, cursor - 1) + 1
    }
}

/// The editable document: text plus cursor, mutated one edit at a time.
pub struct Document {
    text: Vec<char>,
    cursor: usize,
}

impl View for Document {
    type V = DocV;

    closed spec fn view(&self) -> DocV {
        DocV { text: self.text@, cursor: self.cursor as int }
    }
}

impl Document {
    /// An empty document with the cursor at the start.
    pub fn new() -> (d: Document)
        ensures
            d@.text == Seq::<char>::empty(),
            d@.cursor == 0,
            d@.wf(),
    {
        Document { text: Vec::new(), cursor: 0 }
    }

    /// A document holding the given text, cursor at the start.
    pub fn from_str(s: &str) -> (d: Document)
        ensures
            d@.text == s@,
            d@.cursor == 0,
            d@.wf(),
    {
        let n = s.unicode_len();
        let mut text: Vec<char> = Vec::new();
        let mut i: usize = 0;
        while i < n
            invariant
                n == s@.len(),
                i <= n,
                text@ =~= s@.take(i as int),
            decreases n - i,
        {
            text.push(s.get_char(i));
            i = i + 1;
        }
        proof {
            assert(text@ =~= s@);
        }
        Document { text, cursor: 0 }
    }

    /// The full current content as a string.
    pub fn text(&self) -> (r: String)
        ensures
            r@ == self@.text,
    {
        let mut r = String::new();
        let n = self.text.len();
        let mut i: usize = 0;
        while i < n
            invariant
                n == self.text@.len(),
                i <= n,
                r@ =~= self.text@.take(i as int),
            decreases n - i,
        {
            push_char(&mut r, self.text[i]);
            proof {
                assert(self.text@.take(i + 1) =~= self.text@.take(i as int).push(self.text@[i as int]));
            }
            i = i + 1;
        }
        proof {
            assert(self.text@.take(n as int) =~= self.text@);
        }
        r
    }

    /// Applies one edit operation to text and cursor, in place.
    pub fn apply(&mut self, op: &EditOp)
        requires
            old(self)@.wf(),
        ensures
            final(self)@ == apply_edit(old(self)@, op@),
            final(self)@.wf(),
    {
        match op {
            EditOp::Insert(c) => {
                self.text.insert(self.cursor, *c);
                // the grown vector's length fits usize, so the cursor after
                // the inserted character does too
                let n = self.text.len();
                self.cursor = self.cursor + 1;
            },
            EditOp::InsertText(s) => {
                let k = s.as_str().unicode_len();
                let n = self.text.len();
                let cur = self.cursor;
                let mut out: Vec<char> = Vec::new();
                let mut i: usize = 0;
                while i < cur
                    invariant
                        cur == old(self)@.cursor,
                        cur <= self.text@.len(),
                        self.text@ == old(self)@.text,
                        i <= cur,
                        out@ =~= self.text@.take(i as int),
                    decreases cur - i,
                {
                    out.push(self.text[i]);
                    proof {
                        assert(self.text@.take(i + 1) =~= self.text@.take(i as int).push(
                            self.text@[i as int],
                        ));
                    }
                    i = i + 1;
                }
                let mut j: usize = 0;
                while j < k
                    invariant
                        cur == old(self)@.cursor,
                        cur <= self.text@.len(),
                        self.text@ == old(self)@.text,
                        k == s@.len(),
                        j <= k,
                        out@ =~= self.text@.take(cur as int) + s@.take(j as int),
                    decreases k - j,
                {
                    out.push(s.as_str().get_char(j));
                    proof {
                        assert(self.text@.take(cur as int) + s@.take(j + 1) =~= (self.text@.take(
                            cur as int,
                        ) + s@.take(j as int)).push(s@[j as int]));
                    }
                    j = j + 1;
                }
                let mid = out.len();
                let mut i2: usize = cur;
                while i2 < n
                    invariant
                        cur == old(self)@.cursor,
                        n == self.text@.len(),
                        cur <= n,
                        self.text@ == old(self)@.text,
                        k == s@.len(),
                        mid == cur + k,
                        cur <= i2 <= n,
                        out@ =~= self.text@.take(cur as int) + s@ + self.text@.subrange(
                            cur as int,
                            i2 as int,
                        ),
                    decreases n - i2,
                {
                    out.push(self.text[i2]);
                    proof {
                        assert(self.text@.take(cur as int) + s@ + self.text@.subrange(
                            cur as int,
                            i2 + 1,
                        ) =~= (self.text@.take(cur as int) + s@ + self.text@.subrange(
                            cur as int,
                            i2 as int,
                        )).push(self.text@[i2 as int]));
                    }
                    i2 = i2 + 1;
                }
                proof {
                    assert(self.text@.subrange(cur as int, n as int) =~= self.text@.skip(
                        cur as int,
                    ));
                    assert(out@ =~= old(self)@.text.take(old(self)@.cursor) + s@
                        + old(self)@.text.skip(old(self)@.cursor));
                }
                self.text = out;
                self.cursor = mid;
            },
            EditOp::Backspace => {
                if self.cursor > 0 {
                    self.text.remove(self.cursor - 1);
                    self.cursor = self.cursor - 1;
                }
            },
            EditOp::Delete => {
                if self.cursor < self.text.len() {
                    self.text.remove(self.cursor);
                }
            },
            EditOp::MoveLeft => {
                if self.cursor > 0 {
                    self.cursor = self.cursor - 1;
                }
            },
            EditOp::MoveRight => {
                if self.cursor < self.text.len() {
                    self.cursor = self.cursor + 1;
                }
            },
            EditOp::MoveTo(i) => {
                let n = self.text.len();
                self.cursor = if *i <= n { *i } else { n };
            },
        }
    }

    /// The cursor as a 0-based (line, column) pair.
    pub fn cursor_position(&self) -> (r: (usize, usize))
        requires
            self@.wf(),
        ensures
            r.0 == line_of(self@.text, self@.cursor),
            r.1 == col_of(self@.text, self@.cursor),
    {
        let mut line: usize = 0;
        let mut col: usize = 0;
        let mut i: usize = 0;
        while i < self.cursor
            invariant
                self@.wf(),
                i <= self@.cursor,
                line == line_of(self@.text, i as int),
                col == col_of(self@.text, i as int),
                line <= i,
                col <= i,
            decreases self@.cursor - i,
        {
            if self.text[i] == '\n' {
                line = line + 1;
                col = 0;
            } else {
                col = col + 1;
            }
            i = i + 1;
        }
        (line, col)
    }
}

/// The fingerprint of the document's text, the dirty-flag signal.
pub fn text_hash(doc: &Document) -> (h: u64)
    ensures
        h == fp_seq(doc@.text),
{
    fingerprint_chars(&doc.text)
}

/// The derived line never passes the cursor, nor does the column.
pub proof fn lemma_line_col_bounds(text: Seq<char>, cursor: int)
    requires
        0 <= cursor <= text.len(),
    ensures
        0 <= line_of(text, cursor) <= cursor,
        0 <= col_of(text, cursor) <= cursor,
    decreases cursor,
{
    if cursor > 0 {
        lemma_line_col_bounds(text, cursor - 1);
    }
}

/// Relies on `String::push`: appends exactly the given character.
#[verifier::external_body]
fn push_char(s: &mut String, c: char)
    ensures
        final(s)@ == old(s)@.push(c),
{
    s.push(c);
}

} // verus!
