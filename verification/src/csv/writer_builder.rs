use vstd::prelude::*;

use crate::csv::writer::Writer;
use crate::csv::writer::WriterState;

verus! {

/// The options of a CSV writer, set one by one before a writer is built.
///
/// A writer copies the options when it is built; changing the builder
/// afterwards does not reach writers that already exist.
#[derive(Clone, Copy, Debug, PartialEq, Eq, Structural)]
pub struct WriterBuilder {
    /// The byte between two fields.
    pub delimiter: u8,
    /// The byte put around a field that needs quoting.
    pub quote: u8,
    /// The byte put before a quote inside a quoted field when quotes are not
    /// doubled.
    pub escape: u8,
    /// Whether a quote inside a quoted field is written twice.
    pub double_quote: bool,
    /// Whether records may differ in their number of fields.
    pub flexible: bool,
    /// The size in bytes of the write buffer.
    pub capacity: usize,
}

impl WriterBuilder {
    /// The options a new builder starts with.
    pub open spec fn initial() -> WriterBuilder {
        WriterBuilder {
            delimiter: 0x2C,
            quote: 0x22,
            escape: 0x5C,
            double_quote: true,
            flexible: false,
            capacity: 8192,
        }
    }

    /// A builder with the default options.
    pub fn new() -> (b: WriterBuilder)
        ensures
            b == WriterBuilder::initial(),
    {
        WriterBuilder {
            delimiter: 0x2C,
            quote: 0x22,
            escape: 0x5C,
            double_quote: true,
            flexible: false,
            capacity: 8192,
        }
    }

    /// Sets the size in bytes of the write buffer.
    pub fn buffer_capacity(&mut self, capacity: usize) -> (ret: &mut WriterBuilder)
        ensures
            *final(self) == *final(ret),
            *ret == (WriterBuilder { capacity, ..*old(self) }),
    {
        self.capacity = capacity;
        self
    }

    /// Sets the field delimiter.
    pub fn delimiter(&mut self, delimiter: u8) -> (ret: &mut WriterBuilder)
        ensures
            *final(self) == *final(ret),
            *ret == (WriterBuilder { delimiter, ..*old(self) }),
    {
        self.delimiter = delimiter;
        self
    }

    /// Switches the doubling of quotes on or off. When it is off, quotes in
    /// field data are escaped instead.
    pub fn double_quote(&mut self, yes: bool) -> (ret: &mut WriterBuilder)
        ensures
            *final(self) == *final(ret),
            *ret == (WriterBuilder { double_quote: yes, ..*old(self) }),
    {
        self.double_quote = yes;
        self
    }

    /// Sets the escape byte, which is used only while quotes are not doubled.
    pub fn escape(&mut self, escape: u8) -> (ret: &mut WriterBuilder)
        ensures
            *final(self) == *final(ret),
            *ret == (WriterBuilder { escape, ..*old(self) }),
    {
        self.escape = escape;
        self
    }

    /// Allows or forbids records of differing widths.
    pub fn flexible(&mut self, yes: bool) -> (ret: &mut WriterBuilder)
        ensures
            *final(self) == *final(ret),
            *ret == (WriterBuilder { flexible: yes, ..*old(self) }),
    {
        self.flexible = yes;
        self
    }

    /// Sets the quote byte.
    pub fn quote(&mut self, quote: u8) -> (ret: &mut WriterBuilder)
        ensures
            *final(self) == *final(ret),
            *ret == (WriterBuilder { quote, ..*old(self) }),
    {
        self.quote = quote;
        self
    }

    /// A writer with a copy of these options that has written nothing yet.
    pub fn build(&self) -> (w: Writer)
        ensures
            w@ == WriterState::fresh(*self),
    {
        Writer::new(self)
    }
}

impl Default for WriterBuilder {
    fn default() -> (b: WriterBuilder)
        ensures
            b == WriterBuilder::initial(),
    {
        WriterBuilder::new()
    }
}

} // verus!
