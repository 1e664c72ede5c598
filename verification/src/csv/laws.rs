use vstd::prelude::*;
use vstd::utf8::encode_utf8_decode_utf8;
use vstd::utf8::encode_utf8_valid_utf8;

use crate::csv::position::PositionView;
use crate::csv::reader::settled;
use crate::csv::reader::ReaderState;
use crate::csv::record::in_range;
use crate::csv::record::normalized;
use crate::csv::record::repeated;
use crate::csv::row::decoded;
use crate::csv::row::first_invalid;
use crate::csv::row::invalid_from;
use crate::csv::row::RowView;
use crate::csv::writer::bytes_of;
use crate::csv::writer::encoded_record;
use crate::csv::writer::WriterState;
use crate::errors::ErrorView;

verus! {

/// What iteration yields when the first record of the source is the one to
/// yield: the record itself, or the end of the stream where the source holds
/// no record and the header is therefore empty.
pub open spec fn yield_of(header: Seq<Seq<char>>) -> Result<Option<Seq<Seq<char>>>, ErrorView> {
    if header.len() > 0 {
        Ok(Some(header))
    } else {
        Ok(None)
    }
}

/// A reader that has read nothing is well-formed, and fetching the header,
/// reading a record and seeking to a position all keep a reader well-formed.
pub proof fn steps_keep_readers_well_formed(s: ReaderState, target: PositionView)
    requires
        s.wf(),
        target.wf(),
    ensures
        ReaderState::fresh(s.options, s.data).wf(),
        s.headers().0.wf(),
        s.read_record().0.wf(),
        s.seek(target).0.wf(),
{
}

/// The options and the byte source of a reader never change.
pub proof fn options_are_frozen(s: ReaderState, target: PositionView)
    ensures
        s.headers().0.options == s.options,
        s.headers().0.data == s.data,
        s.read_record().0.options == s.options,
        s.read_record().0.data == s.data,
        s.seek(target).0.options == s.options,
        s.seek(target).0.data == s.data,
{
}

/// Fetching the header again yields the same record as the first time and
/// changes nothing; a fetch that fails changes nothing either, so it fails
/// the same way again.
pub proof fn headers_are_stable(s: ReaderState)
    requires
        s.wf(),
    ensures
        s.headers().0.headers() == s.headers(),
{
}

/// Fetching the header changes neither the position nor doneness, and
/// iteration goes on exactly as it would have without the fetch.
pub proof fn headers_leave_iteration_alone(s: ReaderState)
    requires
        s.wf(),
    ensures
        s.headers().0.position == s.position,
        s.headers().0.done == s.done,
        s.headers().0.read_record() == s.read_record(),
{
}

/// On a reader built without headers that has neither begun to iterate nor
/// been repositioned, the first step of iteration yields the very record
/// that `headers` returns, whether `headers` was called before or not; where
/// `headers` fails, that step fails in the same way.
pub proof fn first_record_is_header_without_headers(s: ReaderState)
    requires
        s.wf(),
        !s.options.has_headers,
        !s.started,
        !s.seeked,
    ensures
        match s.headers().1 {
            Ok(header) => s.read_record().1 == yield_of(header) && s.headers().0.read_record().1
                == yield_of(header),
            Err(e) => s.read_record().1 == Err::<Option<Seq<Seq<char>>>, ErrorView>(e),
        },
{
}

/// Seeking to the byte offset at which the reader already stands moves
/// nothing: position and doneness are as before. The only marks it leaves are
/// the header, fetched if it was not known, and that the reader counts as
/// repositioned. Where the fetch fails, the state is untouched.
pub proof fn seek_to_current_offset_moves_nothing(s: ReaderState, target: PositionView)
    requires
        s.wf(),
        target.byte == s.position.byte,
    ensures
        s.seek(target).0.position == s.position,
        s.seek(target).0.done == s.done,
        s.seek(target).1 is Ok ==> s.seek(target).0 == (ReaderState {
            seeked: true,
            ..s.headers().0
        }),
        s.seek(target).1 is Err ==> s.seek(target).0 == s,
{
}

/// After a seek to byte `0`, whatever was read before, the next step of
/// iteration yields the first record of the source, the one `headers`
/// returns, also on a reader built with headers.
pub proof fn seek_to_start_yields_first_record(s: ReaderState, target: PositionView)
    requires
        s.wf(),
        target.byte == 0,
    ensures
        s.seek(target).1 is Ok ==> (s.headers().1 matches Ok(header) && s.seek(
            target,
        ).0.read_record().1 == yield_of(header)),
{
}

/// A reader that is done yields nothing more and does not move: reading
/// leaves it exactly as it is, and fetching the header leaves it done. Only
/// a seek can make it read again.
pub proof fn done_readers_stay_done(s: ReaderState)
    requires
        s.wf(),
        s.done,
    ensures
        s.read_record() == (s, Ok::<Option<Seq<Seq<char>>>, ErrorView>(None)),
        s.headers().0.done,
{
}

/// The reference width is fixed once: no step changes a width that is set.
/// Under the strict policy every record that iteration yields has exactly
/// that many fields, and the first record read is the one that sets it.
pub proof fn strict_records_have_reference_width(s: ReaderState, target: PositionView)
    requires
        s.wf(),
    ensures
        s.width is Some ==> s.headers().0.width == s.width && s.read_record().0.width == s.width
            && s.seek(target).0.width == s.width,
        !s.options.flexible ==> (s.read_record().1 matches Ok(Some(record))
            ==> s.read_record().0.width == Some(record.len())),
{
}

/// A writer only ever adds to its output: what was written stays in front,
/// and what a record adds is its encoding, whatever was written before. A
/// write that fails adds nothing and changes nothing.
pub proof fn writes_only_append(s: WriterState, record: Seq<Seq<char>>)
    ensures
        s.write_record(record).1 is Ok ==> s.write_record(record).0.output == s.output
            + encoded_record(s.options, bytes_of(record)),
        s.write_record(record).1 is Err ==> s.write_record(record).0 == s,
        s.output.is_prefix_of(s.write_record(record).0.output),
        s.write_record(record).0.options == s.options,
{
}

/// Every record a writer accepts ends in a line feed and is at least two
/// bytes long, so no record is written as an empty line.
pub proof fn written_records_are_lines(s: WriterState, record: Seq<Seq<char>>)
    ensures
        encoded_record(s.options, bytes_of(record)).len() >= 2,
        encoded_record(s.options, bytes_of(record)).last() == 0x0Au8,
{
}

/// The width of a writer is fixed by the first record it accepts and never
/// changes; under the strict policy every record it accepts has that width.
pub proof fn strict_writes_have_reference_width(s: WriterState, record: Seq<Seq<char>>)
    ensures
        s.width is Some ==> s.write_record(record).0.width == s.width,
        s.write_record(record).1 is Ok ==> s.write_record(record).0.width is Some,
        !s.options.flexible && s.write_record(record).1 is Ok ==> s.write_record(record).0.width
            == Some(record.len()),
{
}

/// From index `from` on, the bytes that a writer makes of the fields of a
/// record hold no field that is not UTF-8.
proof fn written_fields_are_text(record: Seq<Seq<char>>, from: nat)
    requires
        from <= record.len(),
    ensures
        invalid_from(bytes_of(record), from) == record.len(),
    decreases record.len() - from,
{
    if from < record.len() {
        encode_utf8_valid_utf8(record[from as int]);
        written_fields_are_text(record, from + 1);
    }
}

/// The text of a record survives the way through bytes: what a writer makes
/// of the fields decodes to the very same fields. So a reader that is handed,
/// as a row, the bytes of each field of a record with at least one field,
/// and whose reference width does not forbid it, yields that record.
pub proof fn fields_survive_encoding(
    record: Seq<Seq<char>>,
    flexible: bool,
    width: Option<nat>,
    position: PositionView,
    consumed: u64,
    line: u64,
)
    requires
        record.len() > 0,
        flexible || width is None || width == Some(record.len()),
    ensures
        first_invalid(bytes_of(record)) == record.len(),
        decoded(bytes_of(record)) == record,
        settled(flexible, width, position, RowView { fields: bytes_of(record), consumed, line })
            matches Ok(s) && s.record == Some(record),
{
    written_fields_are_text(record, 0);
    assert(decoded(bytes_of(record)) =~= record) by {
        assert forall|i: int| 0 <= i < record.len() implies decoded(bytes_of(record))[i]
            == record[i] by {
            encode_utf8_decode_utf8(record[i]);
        }
    }
}

/// Joining records is associative: `(a + b) + c` and `a + (b + c)` hold the
/// same fields.
pub proof fn concat_is_associative(a: Seq<Seq<char>>, b: Seq<Seq<char>>, c: Seq<Seq<char>>)
    ensures
        (a + b) + c == a + (b + c),
{
    assert((a + b) + c =~= a + (b + c));
}

/// A record repeated zero times is empty, and one more repetition adds the
/// fields once more at the end.
pub proof fn repeat_counts(fields: Seq<Seq<char>>, count: int)
    requires
        count >= 0,
    ensures
        repeated(fields, 0) == Seq::<Seq<char>>::empty(),
        repeated(fields, count + 1) == repeated(fields, count) + fields,
        repeated(fields, count).len() == count * fields.len(),
    decreases count,
{
    if count > 0 {
        repeat_counts(fields, count - 1);
        assert(count * fields.len() == (count - 1) * fields.len() + fields.len())
            by (nonlinear_arith);
    } else {
        assert(0 * fields.len() == 0) by (nonlinear_arith);
    }
}

/// Deleting the field at a valid index leaves one field fewer: the fields in
/// front stay where they are, and each field behind moves up by one.
pub proof fn delete_shifts_the_rest(fields: Seq<Seq<char>>, index: i64)
    requires
        in_range(index, fields.len()),
    ensures
        fields.remove(normalized(index, fields.len())).len() == fields.len() - 1,
        forall|j: int|
            0 <= j < normalized(index, fields.len()) ==> #[trigger] fields.remove(
                normalized(index, fields.len()),
            )[j] == fields[j],
        forall|j: int|
            normalized(index, fields.len()) <= j < fields.len() - 1 ==> #[trigger] fields.remove(
                normalized(index, fields.len()),
            )[j] == fields[j + 1],
{
}

/// Deleting the middle field of a record of three leaves the first and the
/// third, in this order.
pub proof fn delete_middle_of_three(fields: Seq<Seq<char>>)
    requires
        fields.len() == 3,
    ensures
        in_range(1, fields.len()),
        fields.remove(normalized(1, fields.len())) == seq![fields[0], fields[2]],
{
    assert(fields.remove(1) =~= seq![fields[0], fields[2]]);
}

} // verus!
