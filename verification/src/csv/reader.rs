use vstd::prelude::*;
use vstd::slice::slice_subrange;

use crate::csv::position::Position;
use crate::csv::position::PositionView;
use crate::csv::reader_builder::ReaderBuilder;
use crate::csv::record::CsvRecord;
use crate::csv::row::decode_fields;
use crate::csv::row::decoded;
use crate::csv::row::first_invalid;
use crate::csv::row::first_row;
use crate::csv::row::first_row_of;
use crate::csv::row::RawRow;
use crate::csv::row::RowView;
use crate::errors::ApplicationError;
use crate::errors::ErrorView;

verus! {

/// What became of one tokenized row: the record it holds, if the input held a
/// row at all, the position behind it, and the reference width from then on.
#[derive(Debug)]
pub struct Settled {
    /// The decoded record; `None` where the input held no further row.
    pub record: Option<CsvRecord>,
    /// The position behind the row.
    pub position: Position,
    /// The number of fields every later record must have under the strict
    /// policy, once a first record has fixed it.
    pub width: Option<usize>,
}

/// The mathematical content of a [`Settled`].
pub struct SettledView {
    pub record: Option<Seq<Seq<char>>>,
    pub position: PositionView,
    pub width: Option<nat>,
}

impl View for Settled {
    type V = SettledView;

    open spec fn view(&self) -> SettledView {
        SettledView {
            record: match self.record {
                Some(record) => Some(record@),
                None => None,
            },
            position: self.position@,
            width: width_view(self.width),
        }
    }
}

/// A width as a natural number.
pub open spec fn width_view(width: Option<usize>) -> Option<nat> {
    match width {
        Some(w) => Some(w as nat),
        None => None,
    }
}

impl SettledView {
    /// The record, or the empty record where there is none.
    pub open spec fn fields(self) -> Seq<Seq<char>> {
        match self.record {
            Some(record) => record,
            None => Seq::empty(),
        }
    }
}

/// The position behind `row` for a reader that stood at `position`: the bytes
/// and line breaks of the row are added, and the record index goes up by one
/// if the row holds a record.
pub open spec fn stepped(position: PositionView, row: RowView) -> PositionView {
    position.advanced(
        row.consumed,
        row.lines_passed(),
        if row.found() {
            1
        } else {
            0
        },
    )
}

/// What a reader at `position` with reference width `width` makes of `row`.
///
/// * No row: no record, and the position moves behind what was consumed.
/// * Under the strict policy a row whose number of fields differs from
///   `width` fails with `FieldCountMismatch`.
/// * A row with a field that is not UTF-8 fails with `Encoding`, naming the
///   first such field.
/// * Otherwise the decoded record; the first record fixes the width.
///
/// Both failures name `position`, the start of the failing row.
pub open spec fn settled(
    flexible: bool,
    width: Option<nat>,
    position: PositionView,
    row: RowView,
) -> Result<SettledView, ErrorView> {
    if !row.found() {
        Ok(SettledView { record: None, position: stepped(position, row), width })
    } else if !flexible && width is Some && width.unwrap() != row.fields.len() {
        Err(
            ErrorView::FieldCountMismatch {
                start: Some(position),
                expected: width.unwrap(),
                found: row.fields.len(),
            },
        )
    } else if first_invalid(row.fields) < row.fields.len() {
        Err(ErrorView::Encoding { position, field: first_invalid(row.fields) })
    } else {
        Ok(
            SettledView {
                record: Some(decoded(row.fields)),
                position: stepped(position, row),
                width: if width is Some {
                    width
                } else {
                    Some(row.fields.len())
                },
            },
        )
    }
}

/// Decides what a reader at `position` with reference width `width` makes of
/// the tokenized `row`.
pub fn settle(flexible: bool, width: Option<usize>, position: &Position, row: RawRow) -> (res:
    Result<Settled, ApplicationError>)
    ensures
        match res {
            Ok(s) => settled(flexible, width_view(width), position@, row@) == Ok::<
                SettledView,
                ErrorView,
            >(s@),
            Err(e) => settled(flexible, width_view(width), position@, row@) == Err::<
                SettledView,
                ErrorView,
            >(e@),
        },
{
    let count: usize = row.fields.len();
    let lines: u64 = if row.line >= 1 {
        row.line - 1
    } else {
        0
    };
    assert(row@.fields.len() == count);
    if count == 0 {
        return Ok(
            Settled { record: None, position: position.advanced(row.consumed, lines, 0), width },
        );
    }
    if !flexible {
        if let Some(expected) = width {
            if expected != count {
                return Err(
                    ApplicationError::FieldCountMismatch {
                        start: Some(*position),
                        expected,
                        found: count,
                    },
                );
            }
        }
    }
    match decode_fields(&row.fields) {
        Err(at) => Err(ApplicationError::Encoding { position: *position, field: at }),
        Ok(record) => Ok(
            Settled {
                record: Some(record),
                position: position.advanced(row.consumed, lines, 1),
                width: match width {
                    Some(w) => Some(w),
                    None => Some(count),
                },
            },
        ),
    }
}

/// The bytes of `data` from offset `byte` on; nothing if `byte` lies behind
/// the end.
pub open spec fn rest(data: Seq<u8>, byte: u64) -> Seq<u8> {
    if byte <= data.len() {
        data.subrange(byte as int, data.len() as int)
    } else {
        Seq::empty()
    }
}

/// The row that starts at offset `byte` of `data`.
///
/// Each row is tokenized on its own, from its first byte on, as the first
/// row of the rest of the source. So a byte-order mark is skipped in front of
/// any row, not only in front of the first.
pub open spec fn row_at(options: ReaderBuilder, data: Seq<u8>, byte: u64) -> Result<
    RowView,
    ErrorView,
> {
    first_row_of(options, rest(data, byte))
}

/// What the first row of `data` settles to: the header of the stream.
pub open spec fn first_settled(options: ReaderBuilder, data: Seq<u8>) -> Result<
    SettledView,
    ErrorView,
> {
    match row_at(options, data, 0) {
        Ok(row) => settled(true, None, PositionView::start(), row),
        Err(e) => Err(e),
    }
}

/// Everything a [`Reader`] holds.
pub struct ReaderState {
    /// The whole byte source.
    pub data: Seq<u8>,
    /// The options the reader was built with.
    pub options: ReaderBuilder,
    /// Where the next row starts.
    pub position: PositionView,
    /// The first row of the source, once it has been read.
    pub header: Option<SettledView>,
    /// The reference width, once a first record has fixed it.
    pub width: Option<nat>,
    /// Whether iteration has begun.
    pub started: bool,
    /// Whether the reader has been repositioned.
    pub seeked: bool,
    /// Whether the source is exhausted.
    pub done: bool,
}

impl ReaderState {
    /// A reader that has not read anything yet.
    pub open spec fn fresh(options: ReaderBuilder, data: Seq<u8>) -> ReaderState {
        ReaderState {
            data,
            options,
            position: PositionView::start(),
            header: None,
            width: None,
            started: false,
            seeked: false,
            done: false,
        }
    }

    /// What holds of every reader.
    ///
    /// * The position is a position: its line number is at least one.
    /// * The header, once read, is what the first row of the source settles
    ///   to, and where it holds a record, its width is the reference width.
    /// * Nothing moves before the header is read; before iteration begins and
    ///   without a seek, the reader stands at the start and is not done.
    /// * A reader that is done at byte `0` has a source without any record.
    pub open spec fn wf(self) -> bool {
        &&& self.position.wf()
        &&& (self.header is None ==> !self.started && !self.seeked && self.width is None)
        &&& (!self.started && !self.seeked ==> !self.done && self.position
            == PositionView::start())
        &&& (self.header matches Some(h) ==> first_settled(self.options, self.data) == Ok::<
            SettledView,
            ErrorView,
        >(h))
        &&& (self.header matches Some(h) ==> (h.record is Some ==> self.width == h.width))
        &&& (self.done && self.position.byte == 0 ==> (self.header matches Some(h)
            && h.record is None))
    }

    /// The state once the header is known: unchanged if it already is, else
    /// with the first row of the source settled and kept. A header that holds
    /// a record fixes the reference width.
    pub open spec fn with_header(self) -> Result<ReaderState, ErrorView> {
        match self.header {
            Some(_) => Ok(self),
            None => match first_settled(self.options, self.data) {
                Ok(h) => Ok(
                    ReaderState {
                        header: Some(h),
                        width: if h.record is Some {
                            h.width
                        } else {
                            self.width
                        },
                        ..self
                    },
                ),
                Err(e) => Err(e),
            },
        }
    }

    /// Fetching the header: the first record of the source, or the empty
    /// record if the source holds none. Position and doneness stay as they
    /// are; a failure leaves the whole state as it is.
    pub open spec fn headers(self) -> (ReaderState, Result<Seq<Seq<char>>, ErrorView>) {
        match self.with_header() {
            Ok(s) => (s, Ok(s.header.unwrap().fields())),
            Err(e) => (self, Err(e)),
        }
    }

    /// Reading the row at the current position, without regard to headers.
    ///
    /// A reader that is done stays as it is and yields nothing. Otherwise the
    /// row at the current byte offset is settled: a record moves the position
    /// behind it, the end of the source moves it behind what was left and
    /// makes the reader done, and a failure leaves the state as it is.
    pub open spec fn read_row(self) -> (ReaderState, Result<Option<Seq<Seq<char>>>, ErrorView>) {
        if self.done {
            (self, Ok(None))
        } else {
            match row_at(self.options, self.data, self.position.byte) {
                Err(e) => (self, Err(e)),
                Ok(row) => match settled(self.options.flexible, self.width, self.position, row) {
                    Err(e) => (self, Err(e)),
                    Ok(s) => (
                        ReaderState {
                            position: s.position,
                            width: s.width,
                            done: s.record is None,
                            ..self
                        },
                        Ok(s.record),
                    ),
                },
            }
        }
    }

    /// The state in which iteration has begun and the header row lies behind
    /// the reader. Needs the header to be known.
    pub open spec fn past_header(self) -> ReaderState {
        let h = self.header.unwrap();
        ReaderState { started: true, position: h.position, done: h.record is None, ..self }
    }

    /// One step of iteration.
    ///
    /// On a reader that has neither begun to iterate nor been repositioned,
    /// the header is read first (a failure leaves the state as it is) and
    /// passed over. If the source holds no record, the reader is done. If the
    /// reader was built without headers, the header record itself is yielded.
    /// Otherwise the next row is read. In every other state the row at the
    /// current position is read.
    pub open spec fn read_record(self) -> (
        ReaderState,
        Result<Option<Seq<Seq<char>>>, ErrorView>,
    ) {
        if !self.seeked && !self.started {
            match self.with_header() {
                Err(e) => (self, Err(e)),
                Ok(s) => {
                    let h = s.header.unwrap();
                    if h.record is None {
                        (s.past_header(), Ok(None))
                    } else if !self.options.has_headers {
                        (s.past_header(), Ok(h.record))
                    } else {
                        s.past_header().read_row()
                    }
                },
            }
        } else {
            self.read_row()
        }
    }

    /// Repositioning to `target`.
    ///
    /// The header is read first if it is not known yet; a failure there
    /// leaves the state as it is. From then on no row is passed over as a
    /// header. If `target` names the current byte offset, position and
    /// doneness stay as they are; otherwise the position becomes `target` as
    /// given and the reader is no longer done.
    pub open spec fn seek(self, target: PositionView) -> (ReaderState, Result<(), ErrorView>) {
        match self.with_header() {
            Err(e) => (self, Err(e)),
            Ok(s) => if target.byte == s.position.byte {
                (ReaderState { seeked: true, ..s }, Ok(()))
            } else {
                (ReaderState { seeked: true, position: target, done: false, ..s }, Ok(()))
            },
        }
    }
}

/// A CSV reader over a byte source held in memory.
///
/// The options are those of the builder at the moment the reader was built.
#[derive(Debug)]
pub struct Reader {
    data: Vec<u8>,
    options: ReaderBuilder,
    position: Position,
    known: Known,
    started: bool,
    seeked: bool,
    done: bool,
}

/// What a reader has learnt of its source: the header and the reference
/// width.
#[derive(Debug)]
struct Known {
    header: Option<Settled>,
    width: Option<usize>,
}

impl View for Reader {
    type V = ReaderState;

    closed spec fn view(&self) -> ReaderState {
        ReaderState {
            data: self.data@,
            options: self.options,
            position: self.position@,
            header: match self.known.header {
                Some(h) => Some(h@),
                None => None,
            },
            width: width_view(self.known.width),
            started: self.started,
            seeked: self.seeked,
            done: self.done,
        }
    }
}

impl Reader {
    #[verifier::type_invariant]
    spec fn valid(self) -> bool {
        &&& self@.wf()
        &&& (self@.data.len() == 0 ==> (self@.header matches Some(h) ==> h.record is None))
    }

    /// A reader over `data` with a copy of `options`.
    pub fn new(options: &ReaderBuilder, data: Vec<u8>) -> (r: Reader)
        ensures
            r@ == ReaderState::fresh(*options, data@),
            r@.wf(),
    {
        Reader {
            data,
            options: *options,
            position: Position::new(),
            known: Known { header: None, width: None },
            started: false,
            seeked: false,
            done: false,
        }
    }

    /// A reader over `data` with the default options.
    pub fn from_source(data: Vec<u8>) -> (r: Reader)
        ensures
            r@ == ReaderState::fresh(ReaderBuilder::initial(), data@),
            r@.wf(),
    {
        let options = ReaderBuilder::new();
        Reader::new(&options, data)
    }

    /// Tokenizes the row that starts at offset `byte` of the source.
    fn row_here(&self, byte: u64) -> (res: Result<RawRow, ApplicationError>)
        ensures
            self@.data.len() == 0 ==> (res matches Ok(row) && row@.fields.len() == 0),
            match res {
                Ok(row) => row_at(self@.options, self@.data, byte) == Ok::<RowView, ErrorView>(
                    row@,
                ),
                Err(e) => row_at(self@.options, self@.data, byte) == Err::<RowView, ErrorView>(
                    e@,
                ),
            },
    {
        let len: usize = self.data.len();
        let from: usize = if byte <= len as u64 {
            byte as usize
        } else {
            len
        };
        let input: &[u8] = slice_subrange(self.data.as_slice(), from, len);
        assert(input@ =~= rest(self.data@, byte));
        first_row(&self.options, input)
    }

    /// Makes sure the header is known.
    fn ensure_header(&mut self) -> (res: Result<(), ApplicationError>)
        ensures
            old(self)@.data.len() == 0 ==> res is Ok,
            match old(self)@.with_header() {
                Ok(s) => res is Ok && final(self)@ == s,
                Err(e) => res matches Err(x) && x@ == e && final(self)@ == old(self)@,
            },
            final(self)@.wf(),
    {
        proof {
            use_type_invariant(&*self);
        }
        if self.known.header.is_some() {
            return Ok(());
        }
        let row = match self.row_here(0) {
            Ok(row) => row,
            Err(e) => {
                return Err(e);
            },
        };
        let start = Position::new();
        let header = match settle(true, None, &start, row) {
            Ok(header) => header,
            Err(e) => {
                return Err(e);
            },
        };
        let width: Option<usize> = if header.record.is_some() {
            header.width
        } else {
            None
        };
        self.known = Known { header: Some(header), width };
        Ok(())
    }

    /// The first record of the source, or the empty record if the source
    /// holds none, as a source without any byte does. It is read once and
    /// remembered; neither the position nor doneness changes.
    pub fn headers(&mut self) -> (res: Result<CsvRecord, ApplicationError>)
        ensures
            final(self)@ == old(self)@.headers().0,
            old(self)@.data.len() == 0 ==> (res matches Ok(record) && record@.len() == 0),
            match res {
                Ok(record) => old(self)@.headers().1 == Ok::<Seq<Seq<char>>, ErrorView>(record@),
                Err(e) => old(self)@.headers().1 == Err::<Seq<Seq<char>>, ErrorView>(e@),
            },
            final(self)@.wf(),
    {
        match self.ensure_header() {
            Ok(()) => {},
            Err(e) => {
                return Err(e);
            },
        }
        proof {
            use_type_invariant(&*self);
        }
        match &self.known.header {
            Some(header) => match &header.record {
                Some(record) => Ok(record.clone()),
                None => Ok(CsvRecord::new()),
            },
            None => {
                proof {
                    assert(false);
                }
                Ok(CsvRecord::new())
            },
        }
    }

    /// Reads the row at the current position, without regard to headers.
    fn read_row(&mut self) -> (res: Result<Option<CsvRecord>, ApplicationError>)
        requires
            old(self)@.started || old(self)@.seeked,
        ensures
            final(self)@ == old(self)@.read_row().0,
            old(self)@.data.len() == 0 ==> res matches Ok(None),
            match res {
                Ok(Some(record)) => old(self)@.read_row().1 == Ok::<
                    Option<Seq<Seq<char>>>,
                    ErrorView,
                >(Some(record@)),
                Ok(None) => old(self)@.read_row().1 == Ok::<Option<Seq<Seq<char>>>, ErrorView>(
                    None,
                ),
                Err(e) => old(self)@.read_row().1 == Err::<Option<Seq<Seq<char>>>, ErrorView>(e@),
            },
            final(self)@.wf(),
    {
        proof {
            use_type_invariant(&*self);
        }
        if self.done {
            return Ok(None);
        }
        let row = match self.row_here(self.position.byte()) {
            Ok(row) => row,
            Err(e) => {
                return Err(e);
            },
        };
        let outcome = match settle(self.options.flexible, self.known.width, &self.position, row) {
            Ok(outcome) => outcome,
            Err(e) => {
                return Err(e);
            },
        };
        let Settled { record, position, width } = outcome;
        self.position = position;
        self.known.width = width;
        self.done = record.is_none();
        Ok(record)
    }

    /// Reads the next record.
    ///
    /// `Ok(None)` says that the source is exhausted, as a source without any
    /// byte is from the start. A reader built with headers never yields the
    /// first record of the source, unless it has been repositioned. A failure
    /// leaves the reader at the start of the failing record.
    pub fn read_record(&mut self) -> (res: Result<Option<CsvRecord>, ApplicationError>)
        ensures
            final(self)@ == old(self)@.read_record().0,
            old(self)@.data.len() == 0 ==> res matches Ok(None),
            match res {
                Ok(Some(record)) => old(self)@.read_record().1 == Ok::<
                    Option<Seq<Seq<char>>>,
                    ErrorView,
                >(Some(record@)),
                Ok(None) => old(self)@.read_record().1 == Ok::<Option<Seq<Seq<char>>>, ErrorView>(
                    None,
                ),
                Err(e) => old(self)@.read_record().1 == Err::<Option<Seq<Seq<char>>>, ErrorView>(
                    e@,
                ),
            },
            final(self)@.wf(),
    {
        proof {
            use_type_invariant(&*self);
        }
        if !self.seeked && !self.started {
            match self.ensure_header() {
                Ok(()) => {},
                Err(e) => {
                    return Err(e);
                },
            }
            proof {
                use_type_invariant(&*self);
            }
            let (end, found): (Position, bool) = match &self.known.header {
                Some(header) => (header.position, header.record.is_some()),
                None => (Position::new(), false),
            };
            self.started = true;
            self.position = end;
            self.done = !found;
            if !found {
                return Ok(None);
            }
            if !self.options.has_headers {
                return match &self.known.header {
                    Some(header) => match &header.record {
                        Some(record) => Ok(Some(record.clone())),
                        None => Ok(None),
                    },
                    None => Ok(None),
                };
            }
        }
        self.read_row()
    }

    /// Repositions the reader to `target`.
    ///
    /// Only the byte offset of `target` decides where reading goes on; it
    /// must be the start of a record for the records that follow to make
    /// sense. The line number and record index of `target` are taken over
    /// unchecked.
    pub fn seek(&mut self, target: Position) -> (res: Result<(), ApplicationError>)
        ensures
            final(self)@ == old(self)@.seek(target@).0,
            match res {
                Ok(()) => old(self)@.seek(target@).1 == Ok::<(), ErrorView>(()),
                Err(e) => old(self)@.seek(target@).1 == Err::<(), ErrorView>(e@),
            },
            final(self)@.wf(),
    {
        proof {
            use_type_invariant(&*self);
        }
        match self.ensure_header() {
            Ok(()) => {},
            Err(e) => {
                return Err(e);
            },
        }
        proof {
            use_type_invariant(&*self);
        }
        self.seeked = true;
        if target.byte() == self.position.byte() {
            return Ok(());
        }
        self.done = false;
        self.position = target;
        Ok(())
    }

    /// A copy of the position at which the next row starts.
    pub fn position(&self) -> (p: Position)
        ensures
            p@ == self@.position,
            self@.wf(),
    {
        proof {
            use_type_invariant(self);
        }
        self.position
    }

    /// Whether the source is exhausted.
    pub fn is_done(&self) -> (b: bool)
        ensures
            b == self@.done,
            self@.wf(),
    {
        proof {
            use_type_invariant(self);
        }
        self.done
    }

    /// Whether iteration leaves out the first record of the source.
    pub fn has_headers(&self) -> (b: bool)
        ensures
            b == self@.options.has_headers,
    {
        self.options.has_headers
    }

    /// A copy of the options the reader was built with.
    pub fn options(&self) -> (o: ReaderBuilder)
        ensures
            o == self@.options,
    {
        self.options
    }
}

} // verus!
