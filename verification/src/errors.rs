use vstd::prelude::*;
use vstd::string::StringExecFns;

use crate::csv::position::Position;
use crate::csv::position::PositionView;
use crate::text::decimal;
use crate::text::push_decimal;
use crate::text::push_signed;
use crate::text::signed_decimal;

verus! {

/// The category of a failure, without its details.
#[derive(Clone, Copy, Debug, PartialEq, Eq, Structural)]
pub enum ErrorKind {
    Io,
    Encoding,
    FieldCountMismatch,
    InvalidPosition,
    IndexOutOfRange,
    InvalidArgument,
}

/// Every failure the library can report.
#[derive(Debug)]
pub enum ApplicationError {
    /// The byte source or sink failed; `message` is the underlying report.
    Io { message: String },
    /// Field number `field` of the record starting at `position` is not UTF-8.
    Encoding { position: Position, field: usize },
    /// A record has `found` fields where the stream's reference width is
    /// `expected`. A reader names in `start` the position at which the record
    /// starts; a writer has none to name.
    FieldCountMismatch { start: Option<Position>, expected: usize, found: usize },
    /// A line number below one was given.
    InvalidPosition { line: u64 },
    /// A record of `len` fields was indexed with `index`.
    IndexOutOfRange { index: i64, len: usize },
    /// A repetition count below zero was given.
    InvalidArgument { count: i64 },
}

/// The mathematical content of an [`ApplicationError`].
pub enum ErrorView {
    Io { message: Seq<char> },
    Encoding { position: PositionView, field: nat },
    FieldCountMismatch { start: Option<PositionView>, expected: nat, found: nat },
    InvalidPosition { line: u64 },
    IndexOutOfRange { index: i64, len: nat },
    InvalidArgument { count: i64 },
}

/// The words that say where a record starts.
pub open spec fn located(position: PositionView) -> Seq<char> {
    "record "@ + decimal(position.record as nat) + " (line: "@ + decimal(position.line as nat)
        + ", byte: "@ + decimal(position.byte as nat) + "): "@
}

/// The words that say how two widths differ.
pub open spec fn widths(expected: nat, found: nat) -> Seq<char> {
    "found record with "@ + decimal(found) + " fields, but the previous record has "@ + decimal(
        expected,
    ) + " fields"@
}

impl ErrorView {
    /// The failure in words.
    pub open spec fn message(self) -> Seq<char> {
        match self {
            ErrorView::Io { message } => message,
            ErrorView::Encoding { position, field } => located(position) + "field "@ + decimal(
                field,
            ) + " is not valid UTF-8"@,
            ErrorView::FieldCountMismatch { start: Some(position), expected, found } => located(
                position,
            ) + widths(expected, found),
            ErrorView::FieldCountMismatch { start: None, expected, found } => widths(
                expected,
                found,
            ),
            ErrorView::InvalidPosition { line } => "line number "@ + decimal(line as nat)
                + " is less than 1"@,
            ErrorView::IndexOutOfRange { index, len } => "index "@ + signed_decimal(index as int)
                + " is out of range for a record of "@ + decimal(len) + " fields"@,
            ErrorView::InvalidArgument { count } => "repeat count "@ + signed_decimal(
                count as int,
            ) + " is negative"@,
        }
    }

    /// The category of the failure.
    pub open spec fn kind(self) -> ErrorKind {
        match self {
            ErrorView::Io { .. } => ErrorKind::Io,
            ErrorView::Encoding { .. } => ErrorKind::Encoding,
            ErrorView::FieldCountMismatch { .. } => ErrorKind::FieldCountMismatch,
            ErrorView::InvalidPosition { .. } => ErrorKind::InvalidPosition,
            ErrorView::IndexOutOfRange { .. } => ErrorKind::IndexOutOfRange,
            ErrorView::InvalidArgument { .. } => ErrorKind::InvalidArgument,
        }
    }
}

impl View for ApplicationError {
    type V = ErrorView;

    open spec fn view(&self) -> ErrorView {
        match *self {
            ApplicationError::Io { message } => ErrorView::Io { message: message@ },
            ApplicationError::Encoding { position, field } => ErrorView::Encoding {
                position: position@,
                field: field as nat,
            },
            ApplicationError::FieldCountMismatch {
                start,
                expected,
                found,
            } => ErrorView::FieldCountMismatch {
                start: match start {
                    Some(p) => Some(p@),
                    None => None,
                },
                expected: expected as nat,
                found: found as nat,
            },
            ApplicationError::InvalidPosition { line } => ErrorView::InvalidPosition { line },
            ApplicationError::IndexOutOfRange { index, len } => ErrorView::IndexOutOfRange {
                index,
                len: len as nat,
            },
            ApplicationError::InvalidArgument { count } => ErrorView::InvalidArgument { count },
        }
    }
}

/// Adds the words that say where a record starts behind `out`.
fn push_located(out: &mut String, position: &Position)
    ensures
        final(out)@ == old(out)@ + located(position@),
{
    out.append("record ");
    push_decimal(out, position.record());
    out.append(" (line: ");
    push_decimal(out, position.line());
    out.append(", byte: ");
    push_decimal(out, position.byte());
    out.append("): ");
    assert(out@ =~= old(out)@ + located(position@));
}

/// Adds the words that say how two widths differ behind `out`.
fn push_widths(out: &mut String, expected: usize, found: usize)
    ensures
        final(out)@ == old(out)@ + widths(expected as nat, found as nat),
{
    out.append("found record with ");
    push_decimal(out, found as u64);
    out.append(" fields, but the previous record has ");
    push_decimal(out, expected as u64);
    out.append(" fields");
    assert(out@ =~= old(out)@ + widths(expected as nat, found as nat));
}

impl ApplicationError {
    /// The failure in words.
    pub fn message(&self) -> (text: String)
        ensures
            text@ == self@.message(),
    {
        let mut out = String::new();
        match self {
            ApplicationError::Io { message } => {
                out.append(message.as_str());
            },
            ApplicationError::Encoding { position, field } => {
                push_located(&mut out, position);
                out.append("field ");
                push_decimal(&mut out, *field as u64);
                out.append(" is not valid UTF-8");
            },
            ApplicationError::FieldCountMismatch { start, expected, found } => {
                match start {
                    Some(position) => {
                        push_located(&mut out, position);
                    },
                    None => {},
                }
                push_widths(&mut out, *expected, *found);
            },
            ApplicationError::InvalidPosition { line } => {
                out.append("line number ");
                push_decimal(&mut out, *line);
                out.append(" is less than 1");
            },
            ApplicationError::IndexOutOfRange { index, len } => {
                out.append("index ");
                push_signed(&mut out, *index);
                out.append(" is out of range for a record of ");
                push_decimal(&mut out, *len as u64);
                out.append(" fields");
            },
            ApplicationError::InvalidArgument { count } => {
                out.append("repeat count ");
                push_signed(&mut out, *count);
                out.append(" is negative");
            },
        }
        assert(out@ =~= self@.message());
        out
    }

    /// The category of this failure.
    pub fn kind(&self) -> (k: ErrorKind)
        ensures
            k == self@.kind(),
    {
        match self {
            ApplicationError::Io { .. } => ErrorKind::Io,
            ApplicationError::Encoding { .. } => ErrorKind::Encoding,
            ApplicationError::FieldCountMismatch { .. } => ErrorKind::FieldCountMismatch,
            ApplicationError::InvalidPosition { .. } => ErrorKind::InvalidPosition,
            ApplicationError::IndexOutOfRange { .. } => ErrorKind::IndexOutOfRange,
            ApplicationError::InvalidArgument { .. } => ErrorKind::InvalidArgument,
        }
    }
}

} // verus!
