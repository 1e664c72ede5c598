use rust_csv::ApplicationError;
use rust_csv::CsvRecord;
use rust_csv::ErrorKind;
use rust_csv::Reader;
use rust_csv::ReaderBuilder;
use rust_csv::Writer;
use rust_csv::WriterBuilder;

fn record_of(items: &[&str]) -> CsvRecord {
    CsvRecord::from_fields(items.iter().map(|s| s.to_string()).collect())
}

fn written(builder: &WriterBuilder, records: &[&[&str]]) -> Vec<u8> {
    let mut writer = builder.build();
    for record in records {
        writer.write_record(&record_of(record)).unwrap();
    }
    writer.into_inner()
}

fn written_by_csv(builder: &WriterBuilder, records: &[&[&str]]) -> Vec<u8> {
    let mut writer = csv::WriterBuilder::new()
        .delimiter(builder.delimiter)
        .quote(builder.quote)
        .escape(builder.escape)
        .double_quote(builder.double_quote)
        .flexible(builder.flexible)
        .from_writer(Vec::new());
    for record in records {
        writer.write_record(record.iter()).unwrap();
    }
    writer.into_inner().unwrap()
}

fn read_back(builder: &ReaderBuilder, data: Vec<u8>) -> Vec<Vec<String>> {
    let mut reader = builder.from_source(data);
    let mut records = Vec::new();
    while let Some(record) = reader.read_record().unwrap() {
        records.push(record.record());
    }
    records
}

fn owned(records: &[&[&str]]) -> Vec<Vec<String>> {
    records.iter().map(|r| r.iter().map(|s| s.to_string()).collect()).collect()
}

#[test]
fn plain_fields_are_written_as_they_are() {
    let out = written(&WriterBuilder::new(), &[&["a", "b", "c"], &["1", "2", "3"]]);
    assert_eq!(out, b"a,b,c\n1,2,3\n");
}

#[test]
fn field_with_delimiter_is_quoted() {
    let out = written(&WriterBuilder::new(), &[&["a,b", "c"]]);
    assert_eq!(out, b"\"a,b\",c\n");
}

#[test]
fn quote_in_a_field_is_doubled() {
    let out = written(&WriterBuilder::new(), &[&["say \"hi\"", "x"]]);
    assert_eq!(out, b"\"say \"\"hi\"\"\",x\n");
}

#[test]
fn line_breaks_in_a_field_are_quoted() {
    let out = written(&WriterBuilder::new(), &[&["a\nb", "c\rd"]]);
    assert_eq!(out, b"\"a\nb\",\"c\rd\"\n");
}

#[test]
fn quote_is_escaped_when_doubling_is_off() {
    let mut builder = WriterBuilder::new();
    builder.double_quote(false).escape(b'\\');
    let out = written(&builder, &[&["a\"b", "c\\d", "e"]]);
    assert_eq!(out, b"\"a\\\"b\",\"c\\d\",e\n");
}

#[test]
fn escape_byte_is_plain_while_quotes_are_doubled() {
    let out = written(&WriterBuilder::new(), &[&["c\\d"]]);
    assert_eq!(out, b"c\\d\n");
}

#[test]
fn other_delimiter_and_quote_are_used() {
    let mut builder = WriterBuilder::new();
    builder.delimiter(b';').quote(b'\'');
    let out = written(&builder, &[&["a;b", "it's", "c,d", "\""]]);
    assert_eq!(out, b"'a;b';'it''s';c,d;\"\n");
}

#[test]
fn empty_line_is_written_as_two_quotes() {
    assert_eq!(written(&WriterBuilder::new(), &[&[""]]), b"\"\"\n");
    assert_eq!(written(&WriterBuilder::new(), &[&[]]), b"\"\"\n");
    assert_eq!(written(&WriterBuilder::new(), &[&["", ""]]), b",\n");
    let mut builder = WriterBuilder::new();
    builder.quote(b'\'');
    assert_eq!(written(&builder, &[&[""]]), b"''\n");
}

#[test]
fn new_writer_has_written_nothing() {
    let writer = Writer::new(&WriterBuilder::new());
    assert!(writer.as_bytes().is_empty());
    assert_eq!(writer.options(), WriterBuilder::default());
}

#[test]
fn other_width_fails_under_strict_policy() {
    let mut writer = WriterBuilder::new().build();
    writer.write_record(&record_of(&["a", "b"])).unwrap();
    let error = writer.write_record(&record_of(&["c", "d", "e"])).unwrap_err();
    assert_eq!(error.kind(), ErrorKind::FieldCountMismatch);
    assert!(matches!(
        error,
        ApplicationError::FieldCountMismatch { start: None, expected: 2, found: 3 }
    ));
    assert_eq!(writer.as_bytes(), b"a,b\n");
    writer.write_record(&record_of(&["f", "g"])).unwrap();
    assert_eq!(writer.into_inner(), b"a,b\nf,g\n");
}

#[test]
fn other_width_passes_under_flexible_policy() {
    let mut builder = WriterBuilder::new();
    builder.flexible(true);
    let out = written(&builder, &[&["a", "b"], &["c"], &["d", "e", "f"]]);
    assert_eq!(out, b"a,b\nc\nd,e,f\n");
}

#[test]
fn writer_builder_starts_with_the_usual_options() {
    let builder = WriterBuilder::new();
    assert_eq!(builder.delimiter, b',');
    assert_eq!(builder.quote, b'"');
    assert_eq!(builder.escape, b'\\');
    assert!(builder.double_quote);
    assert!(!builder.flexible);
    assert_eq!(builder.capacity, 8192);
}

#[test]
fn writer_builder_setters_change_one_option_each() {
    let mut builder = WriterBuilder::new();
    builder
        .delimiter(b'\t')
        .quote(b'\'')
        .escape(b'!')
        .double_quote(false)
        .flexible(true)
        .buffer_capacity(16);
    let expected = WriterBuilder {
        delimiter: b'\t',
        quote: b'\'',
        escape: b'!',
        double_quote: false,
        flexible: true,
        capacity: 16,
    };
    assert_eq!(builder, expected);
}

#[test]
fn writer_options_are_frozen_when_it_is_built() {
    let mut builder = WriterBuilder::new();
    let mut writer = builder.build();
    builder.delimiter(b';');
    writer.write_record(&record_of(&["a", "b;c"])).unwrap();
    assert_eq!(writer.into_inner(), b"a,b;c\n");
}

#[test]
fn output_matches_the_csv_crate() {
    let records: &[&[&str]] = &[
        &["plain", "with,comma", "with \"quote\""],
        &["", "line\nfeed", "carriage\rreturn"],
        &["back\\slash", "#hash", " spaced "],
        &["größe", "日本語", "\"\""],
        &[""],
        &[],
        &["", ""],
    ];
    let mut doubled = WriterBuilder::new();
    doubled.flexible(true);
    assert_eq!(written(&doubled, records), written_by_csv(&doubled, records));
    let mut escaped = WriterBuilder::new();
    escaped.flexible(true).double_quote(false).escape(b'\\');
    assert_eq!(written(&escaped, records), written_by_csv(&escaped, records));
    let mut exotic = WriterBuilder::new();
    exotic.flexible(true).delimiter(b' ').quote(b'#').double_quote(false).escape(b'a');
    assert_eq!(written(&exotic, records), written_by_csv(&exotic, records));
}

#[test]
fn round_trip_under_strict_policy() {
    let records: &[&[&str]] = &[
        &["name", "note", "n"],
        &["a,b", "say \"hi\"", "1"],
        &["", "two\nlines", "2"],
        &["größe", "x\r\ny", ""],
        &["\"", ",", "\n"],
    ];
    let out = written(&WriterBuilder::new(), records);
    let mut options = ReaderBuilder::new();
    options.has_headers(false);
    assert_eq!(read_back(&options, out), owned(records));
}

#[test]
fn round_trip_under_flexible_policy() {
    let records: &[&[&str]] = &[&["a"], &["b", "c,d"], &[""], &["e", "", "f\"g", "h"]];
    let mut writing = WriterBuilder::new();
    writing.flexible(true);
    let out = written(&writing, records);
    let mut reading = ReaderBuilder::new();
    reading.has_headers(false).flexible(true);
    assert_eq!(read_back(&reading, out), owned(records));
}

#[test]
fn round_trip_with_other_delimiter_and_quote() {
    let records: &[&[&str]] = &[&["a;b", "it's"], &["c'd;", "e\nf"]];
    let mut writing = WriterBuilder::new();
    writing.delimiter(b';').quote(b'\'');
    let out = written(&writing, records);
    let mut reading = ReaderBuilder::new();
    reading.has_headers(false).delimiter(b';').quote(b'\'');
    assert_eq!(read_back(&reading, out), owned(records));
}

#[test]
fn round_trip_with_headers() {
    let records: &[&[&str]] = &[&["h1", "h2"], &["1", "2"], &["3", "4"]];
    let out = written(&WriterBuilder::new(), records);
    let mut reader = Reader::from_source(out);
    assert_eq!(reader.headers().unwrap().record(), owned(records)[0]);
    assert_eq!(reader.read_record().unwrap().unwrap().record(), owned(records)[1]);
    assert_eq!(reader.read_record().unwrap().unwrap().record(), owned(records)[2]);
    assert!(reader.read_record().unwrap().is_none());
}
