//! The value store: a sequence of integers, changed only by applying
//! `ValueRecord`s one at a time in the order they were submitted.
use vstd::prelude::*;

verus! {

/// One instruction to set the integer at position `id` to `value`.
#[derive(Clone, Copy, Debug, PartialEq, Eq, Structural)]
pub struct ValueRecord {
    pub id: usize,
    pub value: i32,
}

/// Why a record could not be applied.
#[derive(Clone, Copy, Debug, PartialEq, Eq, Structural)]
pub enum UpdateError {
    /// The record's `id` is not an existing position of the store.
    OutOfRange,
}

/// What applying one record does to the values: the position it names is
/// overwritten when it exists; otherwise nothing changes.
pub open spec fn apply_record(s: Seq<i32>, r: ValueRecord) -> Seq<i32> {
    if r.id < s.len() {
        s.update(r.id as int, r.value)
    } else {
        s
    }
}

/// The values after applying `rs` in order, starting from `s`.
pub open spec fn apply_records(s: Seq<i32>, rs: Seq<ValueRecord>) -> Seq<i32>
    decreases rs.len(),
{
    if rs.len() == 0 {
        s
    } else {
        apply_record(apply_records(s, rs.drop_last()), rs.last())
    }
}

/// Applying records never changes how many positions there are.
pub proof fn lemma_apply_records_len(s: Seq<i32>, rs: Seq<ValueRecord>)
    ensures
        apply_records(s, rs).len() == s.len(),
    decreases rs.len(),
{
    if rs.len() > 0 {
        lemma_apply_records_len(s, rs.drop_last());
    }
}

/// Last write wins: after applying records in submission order, a position
/// that no record names keeps its initial value, and a position that some
/// records name holds the value of the latest of them. No update is lost and
/// none is applied out of order.
pub proof fn lemma_last_write_wins(s: Seq<i32>, rs: Seq<ValueRecord>, i: int)
    requires
        0 <= i < s.len(),
    ensures
        apply_records(s, rs).len() == s.len(),
        (forall|j: int| 0 <= j < rs.len() ==> rs[j].id != i) ==> apply_records(s, rs)[i] == s[i],
        forall|j: int|
            0 <= j < rs.len() && rs[j].id == i && (forall|k: int| j < k < rs.len() ==> rs[k].id != i)
                ==> apply_records(s, rs)[i] == rs[j].value,
    decreases rs.len(),
{
    lemma_apply_records_len(s, rs);
    if rs.len() > 0 {
        let init = rs.drop_last();
        lemma_last_write_wins(s, init, i);
        lemma_apply_records_len(s, init);
        assert forall|j: int|
            0 <= j < rs.len() && rs[j].id == i && (forall|k: int| j < k < rs.len() ==> rs[k].id != i)
                implies apply_records(s, rs)[i] == rs[j].value by {
            if j < rs.len() - 1 {
                assert(init[j] == rs[j]);
                assert forall|k: int| j < k < init.len() implies init[k].id != i by {
                    assert(init[k] == rs[k]);
                }
            }
        }
        if forall|j: int| 0 <= j < rs.len() ==> rs[j].id != i {
            assert forall|j: int| 0 <= j < init.len() implies init[j].id != i by {
                assert(init[j] == rs[j]);
            }
        }
    }
}

/// No value is invented: after applying records, every position holds either
/// its initial value or the value of some record that names it.
pub proof fn lemma_no_invented_values(s: Seq<i32>, rs: Seq<ValueRecord>, i: int)
    requires
        0 <= i < s.len(),
    ensures
        apply_records(s, rs)[i] == s[i] || exists|j: int|
            0 <= j < rs.len() && rs[j].id == i && rs[j].value == apply_records(s, rs)[i],
    decreases rs.len(),
{
    lemma_apply_records_len(s, rs);
    if rs.len() > 0 {
        let init = rs.drop_last();
        lemma_no_invented_values(s, init, i);
        lemma_apply_records_len(s, init);
        let last = rs.len() - 1;
        if rs[last].id != i {
            if apply_records(s, rs)[i] != s[i] {
                let j = choose|j: int|
                    0 <= j < init.len() && init[j].id == i && init[j].value == apply_records(s, init)[i];
                assert(rs[j] == init[j]);
            }
        }
    }
}


/// The ordered sequence of integers that the store worker owns.
pub struct ValueStore {
    values: Vec<i32>,
}

impl View for ValueStore {
    type V = Seq<i32>;

    closed spec fn view(&self) -> Seq<i32> {
        self.values@
    }
}

impl ValueStore {
    /// An empty store.
    pub fn new() -> (r: ValueStore)
        ensures
            r@ == Seq::<i32>::empty(),
    {
        ValueStore { values: Vec::new() }
    }

    /// A store of `n` positions, each holding zero.
    pub fn with_len(n: usize) -> (r: ValueStore)
        ensures
            r@ == Seq::new(n as nat, |i: int| 0i32),
    {
        let mut values: Vec<i32> = Vec::new();
        let mut k: usize = 0;
        while k < n
            invariant
                k <= n,
                values@ == Seq::new(k as nat, |i: int| 0i32),
            decreases n - k,
        {
            values.push(0);
            k = k + 1;
        }
        ValueStore { values }
    }

    /// The number of positions.
    pub fn len(&self) -> (r: usize)
        ensures
            r == self@.len(),
    {
        self.values.len()
    }

    /// The value at position `id`, or `None` where there is no such position.
    pub fn get(&self, id: usize) -> (r: Option<i32>)
        ensures
            id < self@.len() ==> r == Some(self@[id as int]),
            id >= self@.len() ==> r is None,
    {
        if id < self.values.len() {
            Some(self.values[id])
        } else {
            None
        }
    }

    /// A copy of all values, in order.
    pub fn snapshot(&self) -> (r: Vec<i32>)
        ensures
            r@ == self@,
    {
        self.values.clone()
    }

    /// Applies one record: writes `record.value` at `record.id`. A record
    /// naming a position that does not exist is refused and changes nothing.
    pub fn apply(&mut self, record: ValueRecord) -> (r: Result<(), UpdateError>)
        ensures
            final(self)@ == apply_record(old(self)@, record),
            r is Ok <==> record.id < old(self)@.len(),
            r is Err ==> r == Err::<(), UpdateError>(UpdateError::OutOfRange),
    {
        if record.id < self.values.len() {
            self.values.set(record.id, record.value);
            Ok(())
        } else {
            Err(UpdateError::OutOfRange)
        }
    }
}

} // verus!
