use vstd::prelude::*;
use vstd::string::StringSliceAdditionalSpecFns;
use vstd::utf8::decode_utf8;
use vstd::utf8::encode_utf8_decode_utf8;
use vstd::utf8::valid_utf8;

use crate::csv::reader_builder::ReaderBuilder;
use crate::csv::record::CsvRecord;
use crate::errors::ApplicationError;
use crate::errors::ErrorView;

verus! {

/// One row as the tokenizer hands it over: the raw bytes of each field, with
/// quotes and escapes already resolved, and how far the tokenizer got.
///
/// A row without fields means that the input held no further row.
#[derive(Debug)]
pub struct RawRow {
    /// The bytes of each field, in order.
    pub fields: Vec<Vec<u8>>,
    /// How many bytes of the input the tokenizer consumed.
    pub consumed: u64,
    /// The line number the tokenizer reached, counting from one.
    pub line: u64,
}

/// The mathematical content of a [`RawRow`].
pub struct RowView {
    pub fields: Seq<Seq<u8>>,
    pub consumed: u64,
    pub line: u64,
}

/// The bytes of each vector of `fields`, in order.
pub open spec fn contents(fields: Seq<Vec<u8>>) -> Seq<Seq<u8>> {
    Seq::new(fields.len(), |i: int| fields[i]@)
}

impl View for RawRow {
    type V = RowView;

    open spec fn view(&self) -> RowView {
        RowView { fields: contents(self.fields@), consumed: self.consumed, line: self.line }
    }
}

impl RowView {
    /// Whether the tokenizer found a row at all.
    pub open spec fn found(self) -> bool {
        self.fields.len() > 0
    }

    /// How many line breaks the tokenizer passed.
    pub open spec fn lines_passed(self) -> u64 {
        if self.line >= 1 {
            (self.line - 1) as u64
        } else {
            0
        }
    }
}

/// What the `csv` crate reports for the first row of `input` under the given
/// options: the fields of that row (none if `input` holds no row), the number
/// of bytes consumed and the line number reached; or the text of its error.
pub uninterp spec fn csv_first_row(
    delimiter: u8,
    quote: u8,
    escape: Option<u8>,
    double_quote: bool,
    quoting: bool,
    comment: Option<u8>,
    terminator: Option<u8>,
    capacity: usize,
    input: Seq<u8>,
) -> Result<(Seq<Seq<u8>>, u64, u64), Seq<char>>;

/// What the tokenizer handed over, in the shape in which [`csv_first_row`]
/// names it: fields, bytes consumed and line reached, or the error text.
pub open spec fn handed_over(out: Result<RawRow, String>) -> Result<
    (Seq<Seq<u8>>, u64, u64),
    Seq<char>,
> {
    match out {
        Ok(row) => Ok((row@.fields, row@.consumed, row@.line)),
        Err(message) => Err(message@),
    }
}

/// The first row of `input` under `options`, or the failure of the byte source.
pub open spec fn first_row_of(options: ReaderBuilder, input: Seq<u8>) -> Result<
    RowView,
    ErrorView,
> {
    match csv_first_row(
        options.delimiter,
        options.quote,
        options.escape,
        options.double_quote,
        options.quoting,
        options.comment,
        options.terminator,
        options.capacity,
        input,
    ) {
        Ok(row) => Ok(RowView { fields: row.0, consumed: row.1, line: row.2 }),
        Err(message) => Err(ErrorView::Io { message }),
    }
}

/// Calls `csv::ReaderBuilder::from_reader` on `input` with the tokenizer
/// options of `options`, then `csv::Reader::byte_headers` and
/// `csv::Reader::position`.
///
/// Two things are claimed of the outcome. It is the value that
/// [`csv_first_row`] names: the same options and input always give the same
/// fields, byte count and line number, or the same error text. And, as
/// `byte_headers` documents, a source that ends before any data gives a row
/// without fields.
#[verifier::external_body]
fn tokenize(options: &ReaderBuilder, input: &[u8]) -> (out: Result<RawRow, String>)
    ensures
        handed_over(out) == csv_first_row(
            options.delimiter,
            options.quote,
            options.escape,
            options.double_quote,
            options.quoting,
            options.comment,
            options.terminator,
            options.capacity,
            input@,
        ),
        input@.len() == 0 ==> out is Ok && out.unwrap()@.fields.len() == 0,
{
    let end = options.terminator.map_or(::csv::Terminator::CRLF, ::csv::Terminator::Any);
    let mut reader = ::csv::ReaderBuilder::new()
        .delimiter(options.delimiter).quote(options.quote).escape(options.escape)
        .double_quote(options.double_quote).quoting(options.quoting)
        .comment(options.comment).terminator(end)
        .buffer_capacity(options.capacity).from_reader(input);
    match reader.byte_headers() {
        Ok(row) => {
            let fields = row.iter().map(|field| field.to_vec()).collect();
            Ok(RawRow { fields, consumed: reader.position().byte(), line: reader.position().line() })
        },
        Err(error) => Err(error.to_string()),
    }
}

/// Tokenizes the first row of `input` under `options`. Input without any
/// byte holds no row.
pub fn first_row(options: &ReaderBuilder, input: &[u8]) -> (res: Result<RawRow, ApplicationError>)
    ensures
        input@.len() == 0 ==> (res matches Ok(row) && row@.fields.len() == 0),
        match res {
            Ok(row) => first_row_of(*options, input@) == Ok::<RowView, ErrorView>(row@),
            Err(e) => first_row_of(*options, input@) == Err::<RowView, ErrorView>(e@),
        },
{
    match tokenize(options, input) {
        Ok(row) => Ok(row),
        Err(message) => Err(ApplicationError::Io { message }),
    }
}

/// The index of the first field at or behind `from` that is not UTF-8, or the
/// number of fields if there is none.
pub open spec fn invalid_from(fields: Seq<Seq<u8>>, from: nat) -> nat
    decreases fields.len() - from,
{
    if from >= fields.len() {
        fields.len()
    } else if !valid_utf8(fields[from as int]) {
        from
    } else {
        invalid_from(fields, from + 1)
    }
}

/// The index of the first field that is not UTF-8, or the number of fields if
/// every field is UTF-8.
pub open spec fn first_invalid(fields: Seq<Seq<u8>>) -> nat {
    invalid_from(fields, 0)
}

/// The text that each field encodes.
pub open spec fn decoded(fields: Seq<Seq<u8>>) -> Seq<Seq<char>> {
    Seq::new(fields.len(), |i: int| decode_utf8(fields[i]))
}

/// `core::str::from_utf8`: the bytes as text exactly when they are UTF-8; the
/// text then encodes to the very same bytes.
#[verifier::external_body]
fn text_of(bytes: &[u8]) -> (text: Option<&str>)
    ensures
        text is Some <==> valid_utf8(bytes@),
        text matches Some(t) ==> t.spec_bytes() == bytes@,
{
    core::str::from_utf8(bytes).ok()
}

/// Decodes every field as UTF-8. Fails with the index of the first field that
/// is not UTF-8.
pub fn decode_fields(fields: &Vec<Vec<u8>>) -> (res: Result<CsvRecord, usize>)
    ensures
        match res {
            Ok(record) => first_invalid(contents(fields@)) == fields@.len() && record@ == decoded(
                contents(fields@),
            ),
            Err(at) => at < fields@.len() && at == first_invalid(contents(fields@)),
        },
{
    let ghost raw = contents(fields@);
    let mut record = CsvRecord::new();
    let mut i: usize = 0;
    while i < fields.len()
        invariant
            i <= fields@.len(),
            raw == contents(fields@),
            first_invalid(raw) == invalid_from(raw, i as nat),
            record@.len() == i,
            forall|j: int| 0 <= j < i ==> #[trigger] record@[j] == decode_utf8(raw[j]),
        decreases fields@.len() - i,
    {
        assert(raw[i as int] == fields@[i as int]@);
        match text_of(fields[i].as_slice()) {
            Some(text) => {
                proof {
                    encode_utf8_decode_utf8(text@);
                }
                record.push_field(text.to_owned());
            },
            None => {
                return Err(i);
            },
        }
        i = i + 1;
    }
    assert(record@ =~= decoded(raw));
    Ok(record)
}

} // verus!
