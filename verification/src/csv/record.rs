use vstd::prelude::*;
use vstd::std_specs::cmp::PartialEqSpecImpl;

use crate::errors::ApplicationError;
use crate::errors::ErrorView;

verus! {

/// One row of CSV data: an ordered sequence of UTF-8 fields.
#[derive(Debug, Default)]
pub struct CsvRecord {
    record: Vec<String>,
}

/// The text of each string of `fields`, in order.
pub open spec fn texts(fields: Seq<String>) -> Seq<Seq<char>> {
    Seq::new(fields.len(), |i: int| fields[i]@)
}

/// The index that `index` stands for in a sequence of `len` items: an index
/// below zero counts from the end.
pub open spec fn normalized(index: i64, len: nat) -> int {
    if index < 0 {
        index + len
    } else {
        index as int
    }
}

/// Whether `index` names one of `len` items.
pub open spec fn in_range(index: i64, len: nat) -> bool {
    0 <= normalized(index, len) < len
}

/// `fields` written `count` times in a row.
pub open spec fn repeated(fields: Seq<Seq<char>>, count: int) -> Seq<Seq<char>>
    decreases count,
{
    if count <= 0 {
        Seq::empty()
    } else {
        repeated(fields, count - 1) + fields
    }
}

impl View for CsvRecord {
    type V = Seq<Seq<char>>;

    closed spec fn view(&self) -> Seq<Seq<char>> {
        texts(self.record@)
    }
}

impl CsvRecord {
    /// A record without fields.
    pub fn new() -> (r: CsvRecord)
        ensures
            r@ == Seq::<Seq<char>>::empty(),
    {
        let r = CsvRecord { record: Vec::new() };
        assert(r@ =~= Seq::<Seq<char>>::empty());
        r
    }

    /// The record whose fields are `fields`, in order.
    pub fn from_fields(fields: Vec<String>) -> (r: CsvRecord)
        ensures
            r@ == texts(fields@),
    {
        CsvRecord { record: fields }
    }

    /// A copy of the fields, in order.
    pub fn record(&self) -> (fields: Vec<String>)
        ensures
            texts(fields@) == self@,
    {
        let mut fields: Vec<String> = Vec::new();
        let mut i: usize = 0;
        while i < self.record.len()
            invariant
                i <= self.record@.len(),
                fields@.len() == i,
                forall|j: int| 0 <= j < i ==> (#[trigger] fields@[j])@ == self.record@[j]@,
            decreases self.record@.len() - i,
        {
            fields.push(self.record[i].clone());
            i = i + 1;
        }
        assert(texts(fields@) =~= self@);
        fields
    }

    /// The number of fields.
    pub fn len(&self) -> (n: usize)
        ensures
            n == self@.len(),
    {
        self.record.len()
    }

    /// Whether the record has no field.
    pub fn is_empty(&self) -> (b: bool)
        ensures
            b == (self@.len() == 0),
    {
        self.record.len() == 0
    }

    /// The place in the record that `index` names, if it names one.
    fn locate(&self, index: i64) -> (at: Option<usize>)
        ensures
            in_range(index, self@.len()) ==> (at matches Some(place) && place == normalized(
                index,
                self@.len(),
            )),
            !in_range(index, self@.len()) ==> at is None,
    {
        let len: usize = self.record.len();
        if index >= 0 {
            if (index as u64) < (len as u64) {
                Some(index as usize)
            } else {
                None
            }
        } else {
            let back: u64 = ((-(index + 1)) as u64) + 1;
            if back <= (len as u64) {
                Some(len - (back as usize))
            } else {
                None
            }
        }
    }

    /// The field at `index`; an index below zero counts from the end.
    pub fn get(&self, index: i64) -> (res: Result<String, ApplicationError>)
        ensures
            in_range(index, self@.len()) ==> (res matches Ok(field) && field@ == self@[normalized(
                index,
                self@.len(),
            )]),
            !in_range(index, self@.len()) ==> (res matches Err(e) && e@ == (
            ErrorView::IndexOutOfRange { index, len: self@.len() })),
    {
        match self.locate(index) {
            Some(at) => {
                let field: String = self.record[at].clone();
                assert(field@ == self@[at as int]);
                Ok(field)
            },
            None => Err(ApplicationError::IndexOutOfRange { index, len: self.record.len() }),
        }
    }

    /// Replaces the field at `index`; the record never grows.
    pub fn set(&mut self, index: i64, value: String) -> (res: Result<(), ApplicationError>)
        ensures
            in_range(index, old(self)@.len()) ==> (res is Ok && final(self)@ == old(self)@.update(
                normalized(index, old(self)@.len()),
                value@,
            )),
            !in_range(index, old(self)@.len()) ==> (res matches Err(e) && e@ == (
            ErrorView::IndexOutOfRange { index, len: old(self)@.len() }) && final(self)@ == old(
                self,
            )@),
    {
        match self.locate(index) {
            Some(at) => {
                self.record.set(at, value);
                assert(self@ =~= old(self)@.update(at as int, value@));
                Ok(())
            },
            None => Err(ApplicationError::IndexOutOfRange { index, len: self.record.len() }),
        }
    }

    /// Removes the field at `index`; the fields behind it move up by one.
    pub fn delete(&mut self, index: i64) -> (res: Result<(), ApplicationError>)
        ensures
            in_range(index, old(self)@.len()) ==> (res is Ok && final(self)@ == old(self)@.remove(
                normalized(index, old(self)@.len()),
            )),
            !in_range(index, old(self)@.len()) ==> (res matches Err(e) && e@ == (
            ErrorView::IndexOutOfRange { index, len: old(self)@.len() }) && final(self)@ == old(
                self,
            )@),
    {
        match self.locate(index) {
            Some(at) => {
                self.record.remove(at);
                assert(self@ =~= old(self)@.remove(at as int));
                Ok(())
            },
            None => Err(ApplicationError::IndexOutOfRange { index, len: self.record.len() }),
        }
    }

    /// The text of the field at place `at`.
    pub(crate) fn field(&self, at: usize) -> (text: &str)
        requires
            at < self@.len(),
        ensures
            text@ == self@[at as int],
    {
        self.record[at].as_str()
    }

    /// Adds `field` behind the last field.
    pub fn push_field(&mut self, field: String)
        ensures
            final(self)@ == old(self)@.push(field@),
    {
        self.record.push(field);
        assert(self@ =~= old(self)@.push(field@));
    }

    /// Whether some field is exactly `value`.
    pub fn contains(&self, value: &str) -> (b: bool)
        ensures
            b == self@.contains(value@),
    {
        let wanted: String = value.to_owned();
        let mut i: usize = 0;
        while i < self.record.len()
            invariant
                i <= self.record@.len(),
                wanted@ == value@,
                forall|j: int| 0 <= j < i ==> texts(self.record@)[j] != value@,
            decreases self.record@.len() - i,
        {
            if self.record[i] == wanted {
                assert(texts(self.record@)[i as int] == value@);
                return true;
            }
            i = i + 1;
        }
        false
    }

    /// The fields of this record followed by those of `other`; neither
    /// operand changes.
    pub fn concat(&self, other: &CsvRecord) -> (r: CsvRecord)
        ensures
            r@ == self@ + other@,
    {
        let mut fields: Vec<String> = self.record();
        let mut i: usize = 0;
        while i < other.record.len()
            invariant
                i <= other.record@.len(),
                fields@.len() == self@.len() + i,
                forall|j: int| 0 <= j < self@.len() ==> (#[trigger] fields@[j])@ == self@[j],
                forall|j: int|
                    0 <= j < i ==> (#[trigger] fields@[self@.len() + j])@ == other.record@[j]@,
            decreases other.record@.len() - i,
        {
            fields.push(other.record[i].clone());
            i = i + 1;
        }
        let r = CsvRecord { record: fields };
        assert(r@ =~= self@ + other@) by {
            assert forall|k: int| 0 <= k < r@.len() implies r@[k] == (self@ + other@)[k] by {
                if k >= self@.len() {
                    assert(fields@[self@.len() + (k - self@.len())]@ == other.record@[k
                        - self@.len()]@);
                }
            }
        }
        r
    }

    /// The fields of this record `count` times in a row. A count below zero
    /// is refused with `InvalidArgument`.
    pub fn repeat(&self, count: i64) -> (res: Result<CsvRecord, ApplicationError>)
        ensures
            count >= 0 ==> (res matches Ok(r) && r@ == repeated(self@, count as int)),
            count < 0 ==> (res matches Err(e) && e@ == (ErrorView::InvalidArgument { count })),
    {
        if count < 0 {
            return Err(ApplicationError::InvalidArgument { count });
        }
        let mut fields: Vec<String> = Vec::new();
        let mut round: i64 = 0;
        assert(texts(fields@) =~= repeated(self@, 0));
        while round < count
            invariant
                0 <= round <= count,
                texts(fields@) == repeated(self@, round as int),
            decreases count - round,
        {
            let ghost base = texts(fields@);
            let mut i: usize = 0;
            while i < self.record.len()
                invariant
                    i <= self.record@.len(),
                    fields@.len() == base.len() + i,
                    forall|j: int| 0 <= j < base.len() ==> (#[trigger] fields@[j])@ == base[j],
                    forall|j: int|
                        0 <= j < i ==> (#[trigger] fields@[base.len() + j])@ == self.record@[j]@,
                decreases self.record@.len() - i,
            {
                fields.push(self.record[i].clone());
                i = i + 1;
            }
            assert(texts(fields@) =~= base + self@) by {
                assert forall|k: int| 0 <= k < fields@.len() implies texts(fields@)[k] == (base
                    + self@)[k] by {
                    if k >= base.len() {
                        assert(fields@[base.len() + (k - base.len())]@ == self.record@[k
                            - base.len()]@);
                    }
                }
            }
            round = round + 1;
        }
        Ok(CsvRecord { record: fields })
    }

    /// Whether both records hold the same fields in the same order.
    pub fn same(&self, other: &CsvRecord) -> (b: bool)
        ensures
            b == (self@ == other@),
    {
        if self.record.len() != other.record.len() {
            assert(self@.len() != other@.len());
            return false;
        }
        let mut i: usize = 0;
        while i < self.record.len()
            invariant
                i <= self.record@.len(),
                self.record@.len() == other.record@.len(),
                forall|j: int| 0 <= j < i ==> self@[j] == other@[j],
            decreases self.record@.len() - i,
        {
            if self.record[i] != other.record[i] {
                assert(self@[i as int] != other@[i as int]);
                return false;
            }
            i = i + 1;
        }
        assert(self@ =~= other@);
        true
    }
}

impl PartialEq for CsvRecord {
    fn eq(&self, other: &CsvRecord) -> (b: bool) {
        self.same(other)
    }
}

impl PartialEqSpecImpl for CsvRecord {
    open spec fn obeys_eq_spec() -> bool {
        true
    }

    open spec fn eq_spec(&self, other: &CsvRecord) -> bool {
        self@ == other@
    }
}

impl Eq for CsvRecord {

}

impl Clone for CsvRecord {
    fn clone(&self) -> (r: CsvRecord)
        ensures
            r@ == self@,
    {
        CsvRecord { record: self.record() }
    }
}

} // verus!
