use vstd::prelude::*;
use vstd::string::StringExecFns;

use crate::errors::ApplicationError;
use crate::errors::ErrorView;
use crate::text::decimal;
use crate::text::push_decimal;

verus! {

/// A place in CSV data: a byte offset, a line number and a record index.
///
/// Byte offsets and record indices start at `0`, line numbers at `1`.
#[derive(Clone, Copy, Debug, PartialEq, Eq, Structural)]
pub struct Position {
    byte: u64,
    line: u64,
    record: u64,
}

/// The three numbers a [`Position`] holds.
pub struct PositionView {
    pub byte: u64,
    pub line: u64,
    pub record: u64,
}

impl PositionView {
    /// The position before any data: byte `0`, line `1`, record `0`.
    pub open spec fn start() -> PositionView {
        PositionView { byte: 0, line: 1, record: 0 }
    }

    /// What holds of every position: line numbers start at one.
    pub open spec fn wf(self) -> bool {
        self.line >= 1
    }

    /// The position as text, each number in decimal.
    pub open spec fn rendered(self) -> Seq<char> {
        "Position { byte: "@ + decimal(self.byte as nat) + ", line: "@ + decimal(self.line as nat)
            + ", record: "@ + decimal(self.record as nat) + " }"@
    }

    /// `a + b`, stopping at the largest `u64`.
    pub open spec fn capped(a: u64, b: u64) -> u64 {
        if a + b > u64::MAX {
            u64::MAX
        } else {
            (a + b) as u64
        }
    }

    /// This position moved on by the given amounts, each counter capped.
    pub open spec fn advanced(self, bytes: u64, lines: u64, records: u64) -> PositionView {
        PositionView {
            byte: Self::capped(self.byte, bytes),
            line: Self::capped(self.line, lines),
            record: Self::capped(self.record, records),
        }
    }
}

impl View for Position {
    type V = PositionView;

    closed spec fn view(&self) -> PositionView {
        PositionView { byte: self.byte, line: self.line, record: self.record }
    }
}

impl Position {
    #[verifier::type_invariant]
    spec fn line_is_positive(self) -> bool {
        self.line >= 1
    }

    /// The position before any data.
    pub fn new() -> (p: Position)
        ensures
            p@ == PositionView::start(),
    {
        Position { byte: 0, line: 1, record: 0 }
    }

    /// The byte offset, starting at `0`.
    pub fn byte(&self) -> (b: u64)
        ensures
            b == self@.byte,
            self@.wf(),
    {
        proof {
            use_type_invariant(self);
        }
        self.byte
    }

    /// The line number, starting at `1`.
    pub fn line(&self) -> (l: u64)
        ensures
            l == self@.line,
            self@.wf(),
    {
        proof {
            use_type_invariant(self);
        }
        self.line
    }

    /// The record index, starting at `0`.
    pub fn record(&self) -> (r: u64)
        ensures
            r == self@.record,
            self@.wf(),
    {
        proof {
            use_type_invariant(self);
        }
        self.record
    }

    /// Sets the byte offset.
    pub fn set_byte(&mut self, byte: u64) -> (ret: &mut Position)
        ensures
            *final(self) == *final(ret),
            ret@ == (PositionView { byte, ..old(self)@ }),
    {
        proof {
            use_type_invariant(&*self);
        }
        self.byte = byte;
        self
    }

    /// Sets the line number. A line number below one is refused with
    /// `InvalidPosition` and leaves the position as it was.
    pub fn set_line(&mut self, line: u64) -> (res: Result<&mut Position, ApplicationError>)
        ensures
            line >= 1 ==> (res matches Ok(ret) && *final(self) == *final(ret) && ret@ == (
            PositionView { line, ..old(self)@ })),
            line < 1 ==> (res matches Err(e) && e@ == (ErrorView::InvalidPosition { line })
                && final(self)@ == old(self)@),
    {
        if line < 1 {
            return Err(ApplicationError::InvalidPosition { line });
        }
        self.line = line;
        Ok(self)
    }

    /// Sets the record index.
    pub fn set_record(&mut self, record: u64) -> (ret: &mut Position)
        ensures
            *final(self) == *final(ret),
            ret@ == (PositionView { record, ..old(self)@ }),
    {
        proof {
            use_type_invariant(&*self);
        }
        self.record = record;
        self
    }

    /// The position reached from this one after `bytes` more bytes, `lines`
    /// more line breaks and `records` more records. Each counter stops at the
    /// largest value it can hold.
    pub fn advanced(&self, bytes: u64, lines: u64, records: u64) -> (p: Position)
        ensures
            p@ == self@.advanced(bytes, lines, records),
    {
        proof {
            use_type_invariant(self);
        }
        Position {
            byte: self.byte.saturating_add(bytes),
            line: self.line.saturating_add(lines),
            record: self.record.saturating_add(records),
        }
    }

    /// The position as text, for people to read.
    pub fn render(&self) -> (text: String)
        ensures
            text@ == self@.rendered(),
    {
        let mut out = String::new();
        out.append("Position { byte: ");
        push_decimal(&mut out, self.byte);
        out.append(", line: ");
        push_decimal(&mut out, self.line);
        out.append(", record: ");
        push_decimal(&mut out, self.record);
        out.append(" }");
        assert(out@ =~= self@.rendered());
        out
    }

    /// Whether two positions hold the same three numbers.
    pub fn same(&self, other: &Position) -> (b: bool)
        ensures
            b == (self@ == other@),
    {
        self.byte == other.byte && self.line == other.line && self.record == other.record
    }
}

} // verus!
