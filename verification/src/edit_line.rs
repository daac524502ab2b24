//! The line that the user is typing: a sequence of characters and a cursor
//! between two of them.

use vstd::prelude::*;

verus! {

/// One change to an edit line.
#[derive(Clone, Copy, Debug, PartialEq, Eq, Structural)]
pub enum EditOp {
    /// Put a character at the cursor and step over it.
    Insert(char),
    /// Remove the character before the cursor, if there is one.
    Delete,
    /// Step one character back, unless at the start.
    MoveLeft,
    /// Step one character forward, unless at the end.
    MoveRight,
    /// Go to the start of the line.
    MoveHome,
    /// Go to the end of the line.
    MoveEnd,
}

/// The mathematical value of an edit line.
pub struct LineModel {
    pub buffer: Seq<char>,
    pub cursor: int,
}

impl LineModel {
    /// The cursor lies within the line, or just after its last character.
    pub open spec fn in_bounds(self) -> bool {
        0 <= self.cursor <= self.buffer.len()
    }

    /// The line without characters.
    pub open spec fn empty() -> LineModel {
        LineModel { buffer: Seq::empty(), cursor: 0 }
    }

    /// The line after one operation.
    pub open spec fn apply(self, op: EditOp) -> LineModel {
        match op {
            EditOp::Insert(c) => LineModel {
                buffer: self.buffer.insert(self.cursor, c),
                cursor: self.cursor + 1,
            },
            EditOp::Delete => if self.cursor > 0 {
                LineModel { buffer: self.buffer.remove(self.cursor - 1), cursor: self.cursor - 1 }
            } else {
                self
            },
            EditOp::MoveLeft => if self.cursor > 0 {
                LineModel { cursor: self.cursor - 1, ..self }
            } else {
                self
            },
            EditOp::MoveRight => if self.cursor < self.buffer.len() {
                LineModel { cursor: self.cursor + 1, ..self }
            } else {
                self
            },
            EditOp::MoveHome => LineModel { cursor: 0, ..self },
            EditOp::MoveEnd => LineModel { cursor: self.buffer.len() as int, ..self },
        }
    }

    /// The line after a sequence of operations, first to last.
    pub open spec fn apply_all(self, ops: Seq<EditOp>) -> LineModel
        decreases ops.len(),
    {
        if ops.len() == 0 {
            self
        } else {
            self.apply_all(ops.drop_last()).apply(ops.last())
        }
    }
}

/// Collects characters into a `String` with `String::from_iter`.
///
/// Trusted: the string holds the characters of the vector, in their order.
#[verifier::external_body]
fn string_from_chars(chars: &Vec<char>) -> (r: String)
    ensures
        r@ == chars@,
{
    String::from_iter(chars)
}

/// An editable line with its cursor.
pub struct EditLine {
    buffer: Vec<char>,
    cursor: usize,
}

impl View for EditLine {
    type V = LineModel;

    closed spec fn view(&self) -> LineModel {
        LineModel { buffer: self.buffer@, cursor: self.cursor as int }
    }
}

impl EditLine {
    #[verifier::type_invariant]
    spec fn cursor_in_bounds(self) -> bool {
        self.cursor <= self.buffer@.len()
    }

    /// An empty line with the cursor at its start.
    pub fn new() -> (line: EditLine)
        ensures
            line@ == LineModel::empty(),
    {
        EditLine { buffer: Vec::new(), cursor: 0 }
    }

    /// The position of the cursor, counted in characters from the start.
    pub fn cursor(&self) -> (r: usize)
        ensures
            r == self@.cursor,
            self@.in_bounds(),
    {
        proof {
            use_type_invariant(self);
        }
        self.cursor
    }

    /// The number of characters in the line.
    pub fn len(&self) -> (r: usize)
        ensures
            r == self@.buffer.len(),
    {
        self.buffer.len()
    }

    /// The characters of the line.
    pub fn chars(&self) -> (r: &Vec<char>)
        ensures
            r@ == self@.buffer,
    {
        &self.buffer
    }

    /// The line as text.
    pub fn text(&self) -> (r: String)
        ensures
            r@ == self@.buffer,
    {
        string_from_chars(&self.buffer)
    }

    /// Moves the characters out, leaving the line empty.
    fn take_buffer(&mut self) -> (r: (Vec<char>, usize))
        ensures
            r.0@ == old(self)@.buffer,
            r.1 == old(self)@.cursor,
            old(self)@.in_bounds(),
            final(self)@ == LineModel::empty(),
    {
        proof {
            use_type_invariant(&*self);
        }
        let cursor: usize = self.cursor;
        self.cursor = 0;
        let mut buffer: Vec<char> = Vec::new();
        std::mem::swap(&mut buffer, &mut self.buffer);
        (buffer, cursor)
    }

    /// Applies one operation.
    pub fn apply(&mut self, op: EditOp)
        ensures
            final(self)@ == old(self)@.apply(op),
            final(self)@.in_bounds(),
    {
        let (mut buffer, mut cursor) = self.take_buffer();
        match op {
            EditOp::Insert(c) => {
                buffer.insert(cursor, c);
                let len: usize = buffer.len();
                assert(cursor < len);
                cursor = cursor + 1;
            },
            EditOp::Delete => {
                if cursor > 0 {
                    cursor = cursor - 1;
                    let _ = buffer.remove(cursor);
                }
            },
            EditOp::MoveLeft => {
                if cursor > 0 {
                    cursor = cursor - 1;
                }
            },
            EditOp::MoveRight => {
                if cursor < buffer.len() {
                    cursor = cursor + 1;
                }
            },
            EditOp::MoveHome => {
                cursor = 0;
            },
            EditOp::MoveEnd => {
                cursor = buffer.len();
            },
        }
        *self = EditLine { buffer, cursor };
    }

    /// Empties the line and puts the cursor at its start.
    pub fn clear(&mut self)
        ensures
            final(self)@ == LineModel::empty(),
    {
        *self = EditLine { buffer: Vec::new(), cursor: 0 };
    }
}

/// An operation on a line whose cursor is in bounds leaves it in bounds.
pub proof fn lemma_apply_keeps_cursor_in_bounds(line: LineModel, op: EditOp)
    requires
        line.in_bounds(),
    ensures
        line.apply(op).in_bounds(),
{
}

/// Starting from the empty line, the cursor is in bounds after each
/// operation of any sequence: `done` counts the operations applied so far.
pub proof fn lemma_cursor_in_bounds_after_every_operation(ops: Seq<EditOp>, done: int)
    requires
        0 <= done <= ops.len(),
    ensures
        LineModel::empty().apply_all(ops.take(done)).in_bounds(),
    decreases done,
{
    if done > 0 {
        lemma_cursor_in_bounds_after_every_operation(ops, done - 1);
        assert(ops.take(done).drop_last() =~= ops.take(done - 1));
        lemma_apply_keeps_cursor_in_bounds(
            LineModel::empty().apply_all(ops.take(done - 1)),
            ops.take(done).last(),
        );
    }
}

} // verus!
