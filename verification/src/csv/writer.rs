use vstd::prelude::*;
use vstd::utf8::encode_utf8;

use crate::csv::reader::width_view;
use crate::csv::record::CsvRecord;
use crate::csv::writer_builder::WriterBuilder;
use crate::errors::ApplicationError;
use crate::errors::ErrorView;

verus! {

/// Whether `byte` forces the field it occurs in into quotes: the delimiter,
/// the quote, a line feed, a carriage return, and the escape byte while
/// quotes are escaped rather than doubled.
pub open spec fn is_special(options: WriterBuilder, byte: u8) -> bool {
    byte == options.delimiter || byte == options.quote || byte == 0x0A || byte == 0x0D || (
    !options.double_quote && byte == options.escape)
}

/// Whether `field` holds a byte that forces it into quotes.
pub open spec fn needs_quotes(options: WriterBuilder, field: Seq<u8>) -> bool {
    exists|i: int| 0 <= i < field.len() && is_special(options, #[trigger] field[i])
}

/// The byte written in front of a quote that occurs inside a quoted field.
pub open spec fn quote_prefix(options: WriterBuilder) -> u8 {
    if options.double_quote {
        options.quote
    } else {
        options.escape
    }
}

/// `field` with [`quote_prefix`] put in front of each quote.
pub open spec fn escaped(options: WriterBuilder, field: Seq<u8>) -> Seq<u8>
    decreases field.len(),
{
    if field.len() == 0 {
        Seq::empty()
    } else if field.last() == options.quote {
        escaped(options, field.drop_last()).push(quote_prefix(options)).push(options.quote)
    } else {
        escaped(options, field.drop_last()).push(field.last())
    }
}

/// The bytes written for one field: the field as it is, or, if it needs
/// quotes, its escaped form between two quotes.
pub open spec fn encoded_field(options: WriterBuilder, field: Seq<u8>) -> Seq<u8> {
    if needs_quotes(options, field) {
        seq![options.quote] + escaped(options, field) + seq![options.quote]
    } else {
        field
    }
}

/// The encoded fields in order, with the delimiter between each two.
pub open spec fn joined(options: WriterBuilder, fields: Seq<Seq<u8>>) -> Seq<u8>
    decreases fields.len(),
{
    if fields.len() == 0 {
        Seq::empty()
    } else if fields.len() == 1 {
        encoded_field(options, fields[0])
    } else {
        joined(options, fields.drop_last()).push(options.delimiter) + encoded_field(
            options,
            fields.last(),
        )
    }
}

/// The bytes written for one record: its joined fields and a line feed. A
/// record that would leave the line empty (no field, or one empty field) is
/// written as a pair of quotes, so that it still reads as a record.
pub open spec fn encoded_record(options: WriterBuilder, fields: Seq<Seq<u8>>) -> Seq<u8> {
    let line = joined(options, fields);
    if line.len() == 0 {
        seq![options.quote, options.quote, 0x0Au8]
    } else {
        line.push(0x0Au8)
    }
}

/// The UTF-8 bytes of each field.
pub open spec fn bytes_of(record: Seq<Seq<char>>) -> Seq<Seq<u8>> {
    Seq::new(record.len(), |i: int| encode_utf8(record[i]))
}

/// Everything a [`Writer`] holds.
pub struct WriterState {
    /// The options the writer was built with.
    pub options: WriterBuilder,
    /// All bytes written so far.
    pub output: Seq<u8>,
    /// The number of fields of the first record written.
    pub width: Option<nat>,
}

impl WriterState {
    /// A writer that has written nothing yet.
    pub open spec fn fresh(options: WriterBuilder) -> WriterState {
        WriterState { options, output: Seq::empty(), width: None }
    }

    /// Writing one record.
    ///
    /// Under the strict policy a record whose number of fields differs from
    /// that of the first record written fails with `FieldCountMismatch` and
    /// writes nothing. Otherwise the encoded record is added behind the
    /// output, and the first record fixes the width.
    pub open spec fn write_record(self, record: Seq<Seq<char>>) -> (
        WriterState,
        Result<(), ErrorView>,
    ) {
        if !self.options.flexible && self.width is Some && self.width.unwrap() != record.len() {
            (
                self,
                Err(
                    ErrorView::FieldCountMismatch {
                        start: None,
                        expected: self.width.unwrap(),
                        found: record.len(),
                    },
                ),
            )
        } else {
            (
                WriterState {
                    output: self.output + encoded_record(self.options, bytes_of(record)),
                    width: if self.width is Some {
                        self.width
                    } else {
                        Some(record.len())
                    },
                    ..self
                },
                Ok(()),
            )
        }
    }
}

/// A CSV writer into a byte sink held in memory.
#[derive(Debug)]
pub struct Writer {
    options: WriterBuilder,
    sink: Vec<u8>,
    width: Option<usize>,
}

impl View for Writer {
    type V = WriterState;

    closed spec fn view(&self) -> WriterState {
        WriterState { options: self.options, output: self.sink@, width: width_view(self.width) }
    }
}

/// Whether `byte` forces the field it occurs in into quotes.
fn special(options: &WriterBuilder, byte: u8) -> (b: bool)
    ensures
        b == is_special(*options, byte),
{
    byte == options.delimiter || byte == options.quote || byte == 0x0A || byte == 0x0D || (
    !options.double_quote && byte == options.escape)
}

/// Whether `field` holds a byte that forces it into quotes.
fn must_quote(options: &WriterBuilder, field: &[u8]) -> (b: bool)
    ensures
        b == needs_quotes(*options, field@),
{
    let mut i: usize = 0;
    while i < field.len()
        invariant
            i <= field@.len(),
            forall|j: int| 0 <= j < i ==> !is_special(*options, #[trigger] field@[j]),
        decreases field@.len() - i,
    {
        if special(options, field[i]) {
            return true;
        }
        i = i + 1;
    }
    false
}

/// Adds the encoded form of `field` behind `out`.
fn put_field(options: &WriterBuilder, field: &[u8], out: &mut Vec<u8>)
    ensures
        final(out)@ == old(out)@ + encoded_field(*options, field@),
{
    if !must_quote(options, field) {
        let mut i: usize = 0;
        while i < field.len()
            invariant
                i <= field@.len(),
                out@ == old(out)@ + field@.take(i as int),
            decreases field@.len() - i,
        {
            out.push(field[i]);
            i = i + 1;
            assert(out@ =~= old(out)@ + field@.take(i as int));
        }
        assert(field@.take(i as int) =~= field@);
        return ;
    }
    out.push(options.quote);
    let prefix: u8 = if options.double_quote {
        options.quote
    } else {
        options.escape
    };
    let mut i: usize = 0;
    assert(escaped(*options, field@.take(0)) =~= Seq::<u8>::empty());
    assert(out@ =~= old(out)@ + seq![options.quote] + escaped(*options, field@.take(0)));
    while i < field.len()
        invariant
            i <= field@.len(),
            prefix == quote_prefix(*options),
            out@ == old(out)@ + seq![options.quote] + escaped(*options, field@.take(i as int)),
        decreases field@.len() - i,
    {
        let ghost before = field@.take(i as int);
        let ghost now = field@.take(i + 1);
        assert(now.drop_last() =~= before);
        assert(now.last() == field@[i as int]);
        let byte: u8 = field[i];
        if byte == options.quote {
            out.push(prefix);
        }
        out.push(byte);
        i = i + 1;
        assert(out@ =~= old(out)@ + seq![options.quote] + escaped(*options, now));
    }
    assert(field@.take(i as int) =~= field@);
    out.push(options.quote);
    assert(out@ =~= old(out)@ + (seq![options.quote] + escaped(*options, field@)
        + seq![options.quote]));
}

impl Writer {
    /// A writer with a copy of `options` that has written nothing yet.
    pub fn new(options: &WriterBuilder) -> (w: Writer)
        ensures
            w@ == WriterState::fresh(*options),
    {
        Writer { options: *options, sink: Vec::new(), width: None }
    }

    /// Writes one record behind what has been written so far.
    pub fn write_record(&mut self, record: &CsvRecord) -> (res: Result<(), ApplicationError>)
        ensures
            final(self)@ == old(self)@.write_record(record@).0,
            match res {
                Ok(()) => old(self)@.write_record(record@).1 == Ok::<(), ErrorView>(()),
                Err(e) => old(self)@.write_record(record@).1 == Err::<(), ErrorView>(e@),
            },
    {
        let count: usize = record.len();
        if !self.options.flexible {
            if let Some(expected) = self.width {
                if expected != count {
                    return Err(
                        ApplicationError::FieldCountMismatch {
                            start: None,
                            expected,
                            found: count,
                        },
                    );
                }
            }
        }
        let ghost start = self.sink@;
        let before: usize = self.sink.len();
        let ghost raw = bytes_of(record@);
        let mut i: usize = 0;
        assert(joined(self.options, raw.take(0)) =~= Seq::<u8>::empty());
        assert(self.sink@ =~= start + joined(self.options, raw.take(0)));
        while i < count
            invariant
                i <= count,
                count == record@.len(),
                raw == bytes_of(record@),
                self.options == old(self).options,
                self.width == old(self).width,
                self.sink@ == start + joined(self.options, raw.take(i as int)),
            decreases count - i,
        {
            let ghost now = raw.take(i + 1);
            assert(now.drop_last() =~= raw.take(i as int));
            assert(now.last() == encode_utf8(record@[i as int]));
            if i > 0 {
                self.sink.push(self.options.delimiter);
            }
            put_field(&self.options, record.field(i).as_bytes(), &mut self.sink);
            i = i + 1;
            assert(self.sink@ =~= start + joined(self.options, now));
        }
        assert(raw.take(i as int) =~= raw);
        if self.sink.len() == before {
            self.sink.push(self.options.quote);
            self.sink.push(self.options.quote);
        }
        self.sink.push(0x0A);
        if self.width.is_none() {
            self.width = Some(count);
        }
        assert(self.sink@ =~= start + encoded_record(self.options, raw));
        Ok(())
    }

    /// Everything written so far.
    pub fn as_bytes(&self) -> (bytes: &[u8])
        ensures
            bytes@ == self@.output,
    {
        self.sink.as_slice()
    }

    /// Gives up the writer for everything it has written.
    pub fn into_inner(self) -> (bytes: Vec<u8>)
        ensures
            bytes@ == self@.output,
    {
        self.sink
    }

    /// A copy of the options the writer was built with.
    pub fn options(&self) -> (o: WriterBuilder)
        ensures
            o == self@.options,
    {
        self.options
    }
}

} // verus!
