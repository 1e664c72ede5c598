use vstd::prelude::*;

use crate::csv::reader::Reader;
use crate::csv::reader::ReaderState;
use crate::errors::ApplicationError;
use crate::errors::ErrorView;

verus! {

/// The options of a CSV reader, set one by one before a reader is built.
///
/// A reader copies the options when it is built; changing the builder
/// afterwards does not reach readers that already exist.
#[derive(Clone, Copy, Debug, PartialEq, Eq, Structural)]
pub struct ReaderBuilder {
    /// The byte between two fields.
    pub delimiter: u8,
    /// The byte that opens and closes a quoted field.
    pub quote: u8,
    /// The byte that, in front of a quote, makes it literal.
    pub escape: Option<u8>,
    /// Whether two quotes in a row inside a quoted field mean one quote.
    pub double_quote: bool,
    /// Whether quotes have any special meaning at all.
    pub quoting: bool,
    /// The byte that, at the start of a line, turns the line into a comment.
    pub comment: Option<u8>,
    /// The byte that ends a record; `None` stands for `\r`, `\n` or `\r\n`.
    pub terminator: Option<u8>,
    /// Whether records may differ in their number of fields.
    pub flexible: bool,
    /// Whether iteration leaves out the first record.
    pub has_headers: bool,
    /// The size in bytes of the read buffer.
    pub capacity: usize,
}

impl ReaderBuilder {
    /// The options a new builder starts with.
    pub open spec fn initial() -> ReaderBuilder {
        ReaderBuilder {
            delimiter: 0x2C,
            quote: 0x22,
            escape: None,
            double_quote: true,
            quoting: true,
            comment: None,
            terminator: None,
            flexible: false,
            has_headers: true,
            capacity: 8192,
        }
    }

    /// A builder with the default options.
    pub fn new() -> (b: ReaderBuilder)
        ensures
            b == ReaderBuilder::initial(),
    {
        ReaderBuilder {
            delimiter: 0x2C,
            quote: 0x22,
            escape: None,
            double_quote: true,
            quoting: true,
            comment: None,
            terminator: None,
            flexible: false,
            has_headers: true,
            capacity: 8192,
        }
    }

    /// Switches to the ASCII unit separator `0x1F` between fields and the
    /// ASCII record separator `0x1E` between records.
    pub fn ascii(&mut self) -> (ret: &mut ReaderBuilder)
        ensures
            *final(self) == *final(ret),
            *ret == (ReaderBuilder { delimiter: 0x1F, terminator: Some(0x1Eu8), ..*old(self) }),
    {
        self.delimiter = 0x1F;
        self.terminator = Some(0x1E);
        self
    }

    /// Sets the size in bytes of the buffer through which the tokenizer
    /// reads. A buffer without room lets it read nothing: it then finds no
    /// row at all.
    pub fn buffer_capacity(&mut self, capacity: usize) -> (ret: &mut ReaderBuilder)
        ensures
            *final(self) == *final(ret),
            *ret == (ReaderBuilder { capacity, ..*old(self) }),
    {
        self.capacity = capacity;
        self
    }

    /// Sets the comment byte; `None` switches comments off.
    pub fn comment(&mut self, comment: Option<u8>) -> (ret: &mut ReaderBuilder)
        ensures
            *final(self) == *final(ret),
            *ret == (ReaderBuilder { comment, ..*old(self) }),
    {
        self.comment = comment;
        self
    }

    /// Sets the field delimiter.
    pub fn delimiter(&mut self, delimiter: u8) -> (ret: &mut ReaderBuilder)
        ensures
            *final(self) == *final(ret),
            *ret == (ReaderBuilder { delimiter, ..*old(self) }),
    {
        self.delimiter = delimiter;
        self
    }

    /// Switches the doubling of quotes on or off.
    pub fn double_quote(&mut self, yes: bool) -> (ret: &mut ReaderBuilder)
        ensures
            *final(self) == *final(ret),
            *ret == (ReaderBuilder { double_quote: yes, ..*old(self) }),
    {
        self.double_quote = yes;
        self
    }

    /// Sets the escape byte; `None` switches escapes off.
    pub fn escape(&mut self, escape: Option<u8>) -> (ret: &mut ReaderBuilder)
        ensures
            *final(self) == *final(ret),
            *ret == (ReaderBuilder { escape, ..*old(self) }),
    {
        self.escape = escape;
        self
    }

    /// Allows or forbids records of differing widths.
    pub fn flexible(&mut self, yes: bool) -> (ret: &mut ReaderBuilder)
        ensures
            *final(self) == *final(ret),
            *ret == (ReaderBuilder { flexible: yes, ..*old(self) }),
    {
        self.flexible = yes;
        self
    }

    /// Says whether iteration leaves out the first record.
    pub fn has_headers(&mut self, yes: bool) -> (ret: &mut ReaderBuilder)
        ensures
            *final(self) == *final(ret),
            *ret == (ReaderBuilder { has_headers: yes, ..*old(self) }),
    {
        self.has_headers = yes;
        self
    }

    /// Sets the quote byte.
    pub fn quote(&mut self, quote: u8) -> (ret: &mut ReaderBuilder)
        ensures
            *final(self) == *final(ret),
            *ret == (ReaderBuilder { quote, ..*old(self) }),
    {
        self.quote = quote;
        self
    }

    /// Switches the special meaning of quotes on or off.
    pub fn quoting(&mut self, yes: bool) -> (ret: &mut ReaderBuilder)
        ensures
            *final(self) == *final(ret),
            *ret == (ReaderBuilder { quoting: yes, ..*old(self) }),
    {
        self.quoting = yes;
        self
    }
}

impl ReaderBuilder {
    /// A reader over `data` with a copy of these options that has read
    /// nothing yet.
    pub fn from_source(&self, data: Vec<u8>) -> (r: Reader)
        ensures
            r@ == ReaderState::fresh(*self, data@),
            r@.wf(),
    {
        Reader::new(self, data)
    }
}

impl ReaderBuilder {
    /// A reader over what loading a byte source gave: over the bytes where
    /// loading succeeded, and the `Io` failure with the report of the loader
    /// where it did not.
    pub fn from_loaded(&self, loaded: Result<Vec<u8>, String>) -> (res: Result<
        Reader,
        ApplicationError,
    >)
        ensures
            match loaded {
                Ok(data) => res matches Ok(r) && r@ == ReaderState::fresh(*self, data@) && r@.wf(),
                Err(report) => res matches Err(e) && e@ == (ErrorView::Io { message: report@ }),
            },
    {
        match loaded {
            Ok(data) => Ok(Reader::new(self, data)),
            Err(report) => Err(ApplicationError::Io { message: report }),
        }
    }
}

impl Default for ReaderBuilder {
    fn default() -> (b: ReaderBuilder)
        ensures
            b == ReaderBuilder::initial(),
    {
        ReaderBuilder::new()
    }
}

} // verus!
