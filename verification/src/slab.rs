//! The resource table: a dense store that hands out tokens and recycles the
//! lowest free slot.

use vstd::prelude::*;
use crate::error::Error;
use crate::token::Token;

verus! {

/// The lowest token number from `start` on, among `capacity` of them, that
/// `table` does not hold; `start + capacity` where it holds them all.
pub open spec fn lowest_free_in<T>(table: Map<int, T>, start: int, capacity: int) -> int
    decreases capacity,
{
    if capacity <= 0 || !table.dom().contains(start) {
        start
    } else {
        lowest_free_in(table, start + 1, capacity - 1)
    }
}

/// One operation on a table, with token numbers as plain integers.
pub enum SlabOp<T> {
    /// Store a value in the lowest free slot.
    Insert(T),
    /// Take the value of a token out.
    Remove(int),
    /// Put a value in the place of the one a token holds.
    Replace(int, T),
}

/// Whether `op` removes or replaces the value of token number `tok`.
pub open spec fn touches<T>(op: SlabOp<T>, tok: int) -> bool {
    match op {
        SlabOp::Insert(_) => false,
        SlabOp::Remove(t) => t == tok,
        SlabOp::Replace(t, _) => t == tok,
    }
}

/// The table after `op`, for a table whose tokens begin at `start` and
/// that has `capacity` slots.
pub open spec fn table_after<T>(table: Map<int, T>, start: int, capacity: int, op: SlabOp<T>) -> Map<
    int,
    T,
> {
    match op {
        SlabOp::Insert(v) => {
            let free = lowest_free_in(table, start, capacity);
            if free < start + capacity {
                table.insert(free, v)
            } else {
                table
            }
        },
        SlabOp::Remove(t) => table.remove(t),
        SlabOp::Replace(t, v) => if table.dom().contains(t) {
            table.insert(t, v)
        } else {
            table
        },
    }
}

/// The table after each of `ops` in turn.
pub open spec fn table_after_all<T>(
    table: Map<int, T>,
    start: int,
    capacity: int,
    ops: Seq<SlabOp<T>>,
) -> Map<int, T>
    decreases ops.len(),
{
    if ops.len() == 0 {
        table
    } else {
        table_after(table_after_all(table, start, capacity, ops.drop_last()), start, capacity, ops.last())
    }
}

/// The lowest free token number lies in the table's range or just behind
/// it, and the table does not hold it.
pub proof fn lemma_lowest_free_in<T>(table: Map<int, T>, start: int, capacity: int)
    requires
        capacity >= 0,
    ensures
        start <= lowest_free_in(table, start, capacity) <= start + capacity,
        lowest_free_in(table, start, capacity) < start + capacity ==> !table.dom().contains(
            lowest_free_in(table, start, capacity),
        ),
        forall|t: int|
            start <= t < lowest_free_in(table, start, capacity) ==> #[trigger] table.dom().contains(t),
    decreases capacity,
{
    if capacity > 0 && table.dom().contains(start) {
        lemma_lowest_free_in(table, start + 1, capacity - 1);
    }
}

/// An entry stays as it is until it is removed or replaced: whatever else
/// is inserted, removed or replaced in between, its token still leads to
/// the same value.
pub proof fn lemma_entry_stays<T>(
    table: Map<int, T>,
    start: int,
    capacity: int,
    tok: int,
    ops: Seq<SlabOp<T>>,
)
    requires
        capacity >= 0,
        table.dom().contains(tok),
        forall|i: int| 0 <= i < ops.len() ==> !touches(#[trigger] ops[i], tok),
    ensures
        table_after_all(table, start, capacity, ops).dom().contains(tok),
        table_after_all(table, start, capacity, ops)[tok] == table[tok],
    decreases ops.len(),
{
    if ops.len() > 0 {
        let before = table_after_all(table, start, capacity, ops.drop_last());
        assert forall|i: int| 0 <= i < ops.drop_last().len() implies !touches(
            #[trigger] ops.drop_last()[i],
            tok,
        ) by {
            assert(ops.drop_last()[i] == ops[i]);
        }
        lemma_entry_stays(table, start, capacity, tok, ops.drop_last());
        lemma_lowest_free_in(before, start, capacity);
        assert(!touches(ops[ops.len() - 1], tok));
    }
}

/// A token whose slot is free leads to nothing until an insert takes that
/// very slot, and then it leads to the value just inserted: after any one
/// operation the token is still free, or the operation was an insert into
/// the lowest free slot, which was this one, and the token leads to the
/// inserted value.
pub proof fn lemma_free_until_reused<T>(
    table: Map<int, T>,
    start: int,
    capacity: int,
    tok: int,
    op: SlabOp<T>,
)
    requires
        capacity >= 0,
        !table.dom().contains(tok),
    ensures
        !table_after(table, start, capacity, op).dom().contains(tok) || (match op {
            SlabOp::Insert(v) => lowest_free_in(table, start, capacity) == tok && table_after(
                table,
                start,
                capacity,
                op,
            )[tok] == v,
            _ => false,
        }),
{
}

/// After an insert the new token leads to the value inserted, and after a
/// removal the token leads to nothing.
pub proof fn lemma_insert_then_remove<T>(table: Map<int, T>, start: int, capacity: int, value: T)
    requires
        capacity >= 0,
        lowest_free_in(table, start, capacity) < start + capacity,
    ensures
        ({
            let tok = lowest_free_in(table, start, capacity);
            let filled = table_after(table, start, capacity, SlabOp::Insert(value));
            &&& !table.dom().contains(tok)
            &&& filled.dom().contains(tok)
            &&& filled[tok] == value
            &&& !table_after(filled, start, capacity, SlabOp::<T>::Remove(tok)).dom().contains(tok)
            &&& table_after(filled, start, capacity, SlabOp::<T>::Remove(tok)) == table
        }),
{
    lemma_lowest_free_in(table, start, capacity);
    let tok = lowest_free_in(table, start, capacity);
    let filled = table_after(table, start, capacity, SlabOp::Insert(value));
    assert(table_after(filled, start, capacity, SlabOp::<T>::Remove(tok)) =~= table);
}

/// A fixed-capacity table from tokens to values.
///
/// Tokens run from `start` to `start + capacity - 1`. A slot is either free
/// or holds one value.
pub struct Slab<T> {
    slots: Vec<Option<T>>,
    start: usize,
    next_free: usize,
}

impl<T> Slab<T> {
    /// The first token of the table.
    pub closed spec fn spec_start(&self) -> int {
        self.start as int
    }

    /// The number of slots.
    pub closed spec fn spec_capacity(&self) -> int {
        self.slots@.len() as int
    }

    /// What the slot of token number `tok` holds; `None` for a free slot and
    /// for a number outside the table.
    pub closed spec fn slot(&self, tok: int) -> Option<T> {
        if self.start <= tok < self.start + self.slots@.len() {
            self.slots@[tok - self.start]
        } else {
            None
        }
    }

    /// The table as a map from token numbers to the values stored.
    pub open spec fn view(&self) -> Map<int, T> {
        Map::new(|tok: int| self.slot(tok).is_some(), |tok: int| self.slot(tok).unwrap())
    }

    /// The internal invariant: the table fits the token space, and every slot
    /// below the free-slot hint is taken.
    pub closed spec fn wf(&self) -> bool {
        &&& self.start + self.slots@.len() <= usize::MAX
        &&& self.next_free <= self.slots@.len()
        &&& forall|i: int| 0 <= i < self.next_free ==> (#[trigger] self.slots@[i]).is_some()
        &&& self.next_free < self.slots@.len() ==> self.slots@[self.next_free as int].is_none()
    }

    /// The lowest token number whose slot is free, or `start + capacity`
    /// where none is.
    pub open spec fn lowest_free(&self) -> int {
        lowest_free_in(self@, self.spec_start(), self.spec_capacity())
    }

    /// The token number that the table keeps as its lowest free one.
    closed spec fn hint(&self) -> int {
        self.start + self.next_free
    }

    /// No slot is free.
    pub open spec fn is_full(&self) -> bool {
        self.lowest_free() == self.spec_start() + self.spec_capacity()
    }

    /// The token number that the table keeps as its lowest free one is the
    /// lowest free one.
    proof fn lemma_hint(&self)
        requires
            self.wf(),
        ensures
            self.hint() == self.lowest_free(),
    {
        self.lemma_hint_from(0);
    }

    proof fn lemma_hint_from(&self, i: int)
        requires
            self.wf(),
            0 <= i <= self.next_free,
        ensures
            lowest_free_in(self@, self.start + i, self.slots@.len() - i) == self.start
                + self.next_free,
        decreases self.next_free - i,
    {
        if i < self.next_free {
            assert(self.slots@[i].is_some());
            assert(self@.dom().contains(self.start + i));
            self.lemma_hint_from(i + 1);
        } else if i < self.slots@.len() {
            assert(self.slots@[i].is_none());
            assert(!self@.dom().contains(self.start + i));
        }
    }

    /// `lowest_free` is what its name says: the slot there is free, every
    /// slot of the table below it is taken, and a number outside the table holds nothing.
    pub proof fn lemma_lowest_free(&self)
        requires
            self.wf(),
        ensures
            0 <= self.spec_start() <= self.lowest_free() <= self.spec_start()
                + self.spec_capacity(),
            self.spec_start() + self.spec_capacity() <= usize::MAX,
            !self@.dom().contains(self.lowest_free()),
            forall|tok: int|
                self.spec_start() <= tok < self.lowest_free() ==> #[trigger] self@.dom().contains(
                    tok,
                ),
            forall|tok: int|
                #[trigger] self@.dom().contains(tok) ==> self.spec_start() <= tok
                    < self.spec_start() + self.spec_capacity(),
    {
        self.lemma_hint();
        assert forall|tok: int| self.spec_start() <= tok < self.lowest_free() implies #[trigger] self@.dom().contains(tok) by {
            assert(self.slots@[tok - self.start].is_some());
        }
    }

    /// An empty table of `capacity` slots whose tokens begin at `start`.
    pub fn new_starting_at(start: Token, capacity: usize) -> (s: Slab<T>)
        requires
            start.0 + capacity <= usize::MAX,
        ensures
            s.wf(),
            s@ == Map::<int, T>::empty(),
            s.spec_start() == start.0,
            s.spec_capacity() == capacity,
            s.lowest_free() == start.0,
    {
        let mut slots: Vec<Option<T>> = Vec::new();
        let mut i: usize = 0;
        while i < capacity
            invariant
                i <= capacity,
                slots@.len() == i,
                forall|k: int| 0 <= k < i ==> (#[trigger] slots@[k]).is_none(),
            decreases capacity - i,
        {
            slots.push(None);
            i += 1;
        }
        let s = Slab { slots, start: start.0, next_free: 0 };
        proof {
            assert(s@ =~= Map::<int, T>::empty());
            s.lemma_hint();
        }
        s
    }

    /// An empty table of `capacity` slots whose tokens begin at zero.
    pub fn new(capacity: usize) -> (s: Slab<T>)
        ensures
            s.wf(),
            s@ == Map::<int, T>::empty(),
            s.spec_start() == 0,
            s.spec_capacity() == capacity,
            s.lowest_free() == 0,
    {
        Slab::new_starting_at(Token(0), capacity)
    }

    /// Whether `tok` denotes a live entry.
    pub fn contains(&self, tok: Token) -> (b: bool)
        requires
            self.wf(),
        ensures
            b == self@.dom().contains(tok.0 as int),
    {
        if tok.0 < self.start || tok.0 - self.start >= self.slots.len() {
            false
        } else {
            self.slots[tok.0 - self.start].is_some()
        }
    }

    /// The number of slots.
    pub fn capacity(&self) -> (n: usize)
        ensures
            n == self.spec_capacity(),
    {
        self.slots.len()
    }

    /// Whether a further `insert` can succeed.
    pub fn has_remaining(&self) -> (b: bool)
        requires
            self.wf(),
        ensures
            b == !self.is_full(),
    {
        proof {
            self.lemma_hint();
        }
        self.next_free < self.slots.len()
    }

    /// Stores `value` in the lowest free slot and returns that slot's token;
    /// hands the value back when no slot is free.
    pub fn insert(&mut self, value: T) -> (r: Result<Token, T>)
        requires
            old(self).wf(),
        ensures
            final(self).wf(),
            final(self).spec_start() == old(self).spec_start(),
            final(self).spec_capacity() == old(self).spec_capacity(),
            old(self).is_full() ==> r == Err::<Token, T>(value) && final(self)@ == old(self)@,
            !old(self).is_full() ==> r == Ok::<Token, T>(Token(old(self).lowest_free() as usize))
                && final(self)@ == old(self)@.insert(old(self).lowest_free(), value),
    {
        proof {
            self.lemma_hint();
        }
        if self.next_free >= self.slots.len() {
            return Err(value);
        }
        let idx: usize = self.next_free;
        self.slots[idx] = Some(value);
        let mut j: usize = idx + 1;
        while j < self.slots.len() && self.slots[j].is_some()
            invariant
                idx < j <= self.slots@.len(),
                forall|i: int| 0 <= i < j ==> (#[trigger] self.slots@[i]).is_some(),
            decreases self.slots@.len() - j,
        {
            j += 1;
        }
        self.next_free = j;
        assert(self@ =~= old(self)@.insert(old(self).lowest_free(), value));
        Ok(Token(self.start + idx))
    }

    /// The value stored under `tok`.
    pub fn get(&self, tok: Token) -> (r: Result<&T, Error>)
        requires
            self.wf(),
        ensures
            self@.dom().contains(tok.0 as int) ==> r == Ok::<&T, Error>(&self@[tok.0 as int]),
            !self@.dom().contains(tok.0 as int) ==> r == Err::<&T, Error>(Error::InvalidToken),
    {
        if tok.0 < self.start || tok.0 - self.start >= self.slots.len() {
            return Err(Error::InvalidToken);
        }
        match &self.slots[tok.0 - self.start] {
            Some(v) => Ok(v),
            None => Err(Error::InvalidToken),
        }
    }

    /// The value stored under `tok`, for change in place.
    pub fn get_mut(&mut self, tok: Token) -> (r: Result<&mut T, Error>)
        requires
            old(self).wf(),
        ensures
            final(self).wf(),
            final(self).spec_start() == old(self).spec_start(),
            final(self).spec_capacity() == old(self).spec_capacity(),
            !old(self)@.dom().contains(tok.0 as int) ==> r == Err::<&mut T, Error>(
                Error::InvalidToken,
            ) && final(self)@ == old(self)@,
            old(self)@.dom().contains(tok.0 as int) ==> r is Ok && *r->Ok_0 == old(self)@[tok.0 as int]
                && final(self)@ == old(self)@.insert(tok.0 as int, *final(r->Ok_0)),
    {
        if tok.0 < self.start || tok.0 - self.start >= self.slots.len() {
            return Err(Error::InvalidToken);
        }
        let idx: usize = tok.0 - self.start;
        if self.slots[idx].is_none() {
            return Err(Error::InvalidToken);
        }
        match &mut self.slots[idx] {
            Some(v) => Ok(v),
            None => Err(Error::InvalidToken),
        }
    }

    /// Replaces the value stored under `tok` and returns the one that was
    /// there.
    pub fn replace(&mut self, tok: Token, value: T) -> (r: Result<T, Error>)
        requires
            old(self).wf(),
        ensures
            final(self).wf(),
            final(self).spec_start() == old(self).spec_start(),
            final(self).spec_capacity() == old(self).spec_capacity(),
            final(self).lowest_free() == old(self).lowest_free(),
            old(self)@.dom().contains(tok.0 as int) ==> r == Ok::<T, Error>(
                old(self)@[tok.0 as int],
            ) && final(self)@ == old(self)@.insert(tok.0 as int, value),
            !old(self)@.dom().contains(tok.0 as int) ==> r == Err::<T, Error>(Error::InvalidToken)
                && final(self)@ == old(self)@,
    {
        if tok.0 < self.start || tok.0 - self.start >= self.slots.len() {
            return Err(Error::InvalidToken);
        }
        let idx: usize = tok.0 - self.start;
        if self.slots[idx].is_none() {
            return Err(Error::InvalidToken);
        }
        proof {
            self.lemma_hint();
        }
        let mut cell: Option<T> = Some(value);
        core::mem::swap(&mut self.slots[idx], &mut cell);
        proof {
            assert(self@ =~= old(self)@.insert(tok.0 as int, value));
            self.lemma_hint();
        }
        Ok(cell.unwrap())
    }

    /// Takes the value stored under `tok` out of the table and frees its
    /// slot.
    pub fn remove(&mut self, tok: Token) -> (r: Result<T, Error>)
        requires
            old(self).wf(),
        ensures
            final(self).wf(),
            final(self).spec_start() == old(self).spec_start(),
            final(self).spec_capacity() == old(self).spec_capacity(),
            old(self)@.dom().contains(tok.0 as int) ==> r == Ok::<T, Error>(
                old(self)@[tok.0 as int],
            ) && final(self)@ == old(self)@.remove(tok.0 as int) && final(self).lowest_free() == (
            if tok.0 < old(self).lowest_free() {
                tok.0 as int
            } else {
                old(self).lowest_free()
            }),
            !old(self)@.dom().contains(tok.0 as int) ==> r == Err::<T, Error>(Error::InvalidToken)
                && final(self)@ == old(self)@ && final(self).lowest_free() == old(self).lowest_free(),
    {
        if tok.0 < self.start || tok.0 - self.start >= self.slots.len() {
            return Err(Error::InvalidToken);
        }
        let idx: usize = tok.0 - self.start;
        if self.slots[idx].is_none() {
            return Err(Error::InvalidToken);
        }
        proof {
            self.lemma_hint();
        }
        let mut cell: Option<T> = None;
        core::mem::swap(&mut self.slots[idx], &mut cell);
        if idx < self.next_free {
            self.next_free = idx;
        }
        proof {
            assert(self@ =~= old(self)@.remove(tok.0 as int));
            self.lemma_hint();
        }
        Ok(cell.unwrap())
    }
}

} // verus!
