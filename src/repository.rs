//! An in-memory resource table with store semantics: store-assigned ids,
//! store-managed timestamps, rows kept in ascending `updated_at` order, and
//! operations that either take full effect or leave the table as it was.
//! It is a model of the relational store, over which the store's laws are
//! proved; it does not talk to a database. A service backed by a database
//! server does the store work itself and decides each answer through the
//! functions of `outcome`.

use vstd::prelude::*;
use crate::error::ServiceError;
use crate::models::{Duplicate, Record};

verus! {

/// Some row carries this id.
pub open spec fn contains_id<F>(rows: Seq<Record<F>>, id: i32) -> bool {
    exists|i: int| #![trigger rows[i]] 0 <= i < rows.len() && rows[i].id == id
}

/// The position of the row with this id.
pub open spec fn index_of<F>(rows: Seq<Record<F>>, id: i32) -> int
    recommends
        contains_id(rows, id),
{
    choose|i: int| #![trigger rows[i]] 0 <= i < rows.len() && rows[i].id == id
}

/// Ids are positive, unique and below the next id to assign; timestamps are
/// below the store clock, `created_at <= updated_at`, and rows stand in
/// strictly ascending `updated_at` order.
pub open spec fn rows_wf<F>(rows: Seq<Record<F>>, next_id: i32, clock: i64) -> bool {
    &&& 1 <= next_id
    &&& 0 <= clock
    &&& forall|i: int| #![trigger rows[i]] 0 <= i < rows.len() ==> {
        &&& 1 <= rows[i].id < next_id
        &&& 0 <= rows[i].created_at <= rows[i].updated_at < clock
    }
    &&& forall|i: int, j: int| #![trigger rows[i], rows[j]]
        0 <= i < j < rows.len() ==> rows[i].updated_at < rows[j].updated_at
    &&& forall|i: int, j: int| #![trigger rows[i], rows[j]]
        0 <= i < rows.len() && 0 <= j < rows.len() && i != j ==> rows[i].id != rows[j].id
}

/// The row that an insert writes.
pub open spec fn inserted<F>(next_id: i32, clock: i64, fields: F) -> Record<F> {
    Record { id: next_id, fields, created_at: clock, updated_at: clock }
}

/// The row that an update of `id` writes.
pub open spec fn updated<F>(rows: Seq<Record<F>>, id: i32, fields: F, clock: i64) -> Record<F> {
    Record { id, fields, created_at: rows[index_of(rows, id)].created_at, updated_at: clock }
}

/// The rows after an update of `id`: the row moves to the end, as the most
/// recently updated.
pub open spec fn rows_after_update<F>(rows: Seq<Record<F>>, id: i32, fields: F, clock: i64) -> Seq<Record<F>> {
    rows.remove(index_of(rows, id)).push(updated(rows, id, fields, clock))
}

/// The rows after a delete of `id`.
pub open spec fn rows_after_delete<F>(rows: Seq<Record<F>>, id: i32) -> Seq<Record<F>> {
    if contains_id(rows, id) {
        rows.remove(index_of(rows, id))
    } else {
        rows
    }
}

/// The number of rows that a delete of `id` removes.
pub open spec fn delete_count<F>(rows: Seq<Record<F>>, id: i32) -> u64 {
    if contains_id(rows, id) {
        1
    } else {
        0
    }
}

/// A table of one resource type.
pub struct Table<F> {
    pub rows: Vec<Record<F>>,
    pub next_id: i32,
    pub clock: i64,
}

impl<F: Duplicate> Table<F> {
    pub open spec fn wf(&self) -> bool {
        rows_wf(self.rows@, self.next_id, self.clock)
    }

    /// An empty table; ids start at 1.
    pub fn new() -> (r: Self)
        ensures
            r.wf(),
            r.rows@.len() == 0,
            r.next_id == 1,
            r.clock == 0,
    {
        Table { rows: Vec::new(), next_id: 1, clock: 0 }
    }

    fn position(&self, id: i32) -> (r: Option<usize>)
        requires
            self.wf(),
        ensures
            match r {
                Some(i) => contains_id(self.rows@, id) && i == index_of(self.rows@, id)
                    && i < self.rows@.len() && self.rows@[i as int].id == id,
                None => !contains_id(self.rows@, id),
            },
    {
        let mut i: usize = 0;
        while i < self.rows.len()
            invariant
                self.wf(),
                i <= self.rows@.len(),
                forall|k: int| 0 <= k < i ==> #[trigger] self.rows@[k].id != id,
            decreases self.rows@.len() - i,
        {
            if self.rows[i].id == id {
                proof {
                    assert(contains_id(self.rows@, id));
                    let j = index_of(self.rows@, id);
                    assert(0 <= j < self.rows@.len() && self.rows@[j].id == id);
                    assert(self.rows@[i as int].id == id);
                    if j != i {
                        assert(self.rows@[j].id != self.rows@[i as int].id);
                    }
                }
                return Some(i);
            }
            i = i + 1;
        }
        None
    }

    /// Every row, in ascending `updated_at` order.
    pub fn find_all(&self) -> (r: Vec<Record<F>>)
        requires
            self.wf(),
        ensures
            r@ == self.rows@,
            forall|i: int, j: int| 0 <= i < j < r@.len() ==> r@[i].updated_at < r@[j].updated_at,
    {
        let mut out: Vec<Record<F>> = Vec::new();
        let mut i: usize = 0;
        while i < self.rows.len()
            invariant
                i <= self.rows@.len(),
                out@ == self.rows@.subrange(0, i as int),
            decreases self.rows@.len() - i,
        {
            out.push(self.rows[i].duplicate());
            i = i + 1;
            assert(out@ =~= self.rows@.subrange(0, i as int));
        }
        assert(out@ =~= self.rows@);
        out
    }

    /// The row with this id, or `NotFound`.
    pub fn find_by_id(&self, id: i32) -> (r: Result<Record<F>, ServiceError>)
        requires
            self.wf(),
        ensures
            contains_id(self.rows@, id) ==> r == Ok::<Record<F>, ServiceError>(
                self.rows@[index_of(self.rows@, id)],
            ),
            !contains_id(self.rows@, id) ==> r == Err::<Record<F>, ServiceError>(
                ServiceError::NotFound,
            ),
    {
        match self.position(id) {
            Some(i) => Ok(self.rows[i].duplicate()),
            None => Err(ServiceError::NotFound),
        }
    }

    /// Inserts one row with a fresh id and the current store time, and
    /// returns it. Fails with `BadRequest`, leaving the table unchanged, when
    /// the store has run out of ids or of clock.
    pub fn create(&mut self, input: F) -> (r: Result<Record<F>, ServiceError>)
        requires
            old(self).wf(),
        ensures
            final(self).wf(),
            old(self).next_id == i32::MAX || old(self).clock == i64::MAX ==> {
                &&& r matches Err(ServiceError::BadRequest(_))
                &&& *final(self) == *old(self)
            },
            old(self).next_id < i32::MAX && old(self).clock < i64::MAX ==> {
                let rec = inserted(old(self).next_id, old(self).clock, input);
                &&& r == Ok::<Record<F>, ServiceError>(rec)
                &&& final(self).rows@ == old(self).rows@.push(rec)
                &&& final(self).next_id == old(self).next_id + 1
                &&& final(self).clock == old(self).clock + 1
            },
    {
        if self.next_id == i32::MAX || self.clock == i64::MAX {
            return Err(ServiceError::BadRequest("the store cannot take another row".to_owned()));
        }
        let rec = Record {
            id: self.next_id,
            fields: input,
            created_at: self.clock,
            updated_at: self.clock,
        };
        let out = rec.duplicate();
        let ghost old_rows = self.rows@;
        self.rows.push(rec);
        self.next_id = self.next_id + 1;
        self.clock = self.clock + 1;
        proof {
            let rows = self.rows@;
            assert(forall|i: int| 0 <= i < old_rows.len() ==> rows[i] == old_rows[i]);
            assert(rows[old_rows.len() as int] == out);
        }
        Ok(out)
    }

    /// Replaces the business fields of the row with this id, stamps it with
    /// the current store time and returns it. `NotFound` when no row has the
    /// id; `InternalServerError` when the store has run out of clock. A
    /// failure leaves the table unchanged.
    pub fn update(&mut self, id: i32, input: F) -> (r: Result<Record<F>, ServiceError>)
        requires
            old(self).wf(),
        ensures
            final(self).wf(),
            !contains_id(old(self).rows@, id) ==> {
                &&& r == Err::<Record<F>, ServiceError>(ServiceError::NotFound)
                &&& *final(self) == *old(self)
            },
            contains_id(old(self).rows@, id) && old(self).clock == i64::MAX ==> {
                &&& r == Err::<Record<F>, ServiceError>(ServiceError::InternalServerError)
                &&& *final(self) == *old(self)
            },
            contains_id(old(self).rows@, id) && old(self).clock < i64::MAX ==> {
                &&& r == Ok::<Record<F>, ServiceError>(updated(old(self).rows@, id, input, old(self).clock))
                &&& final(self).rows@ == rows_after_update(old(self).rows@, id, input, old(self).clock)
                &&& final(self).next_id == old(self).next_id
                &&& final(self).clock == old(self).clock + 1
            },
    {
        let pos = self.position(id);
        match pos {
            None => Err(ServiceError::NotFound),
            Some(i) => {
                if self.clock == i64::MAX {
                    return Err(ServiceError::InternalServerError);
                }
                let ghost old_rows = self.rows@;
                let prev = self.rows.remove(i);
                let rec = Record { id, fields: input, created_at: prev.created_at, updated_at: self.clock };
                let out = rec.duplicate();
                self.rows.push(rec);
                self.clock = self.clock + 1;
                proof {
                    let mid = old_rows.remove(i as int);
                    let rows = self.rows@;
                    assert(rows == mid.push(out));
                    assert forall|k: int| 0 <= k < mid.len() implies
                        #[trigger] mid[k] == old_rows[if k < i { k } else { k + 1 }] by {}
                    assert forall|a: int, b: int| 0 <= a < rows.len() && 0 <= b < rows.len() && a != b
                        implies rows[a].id != rows[b].id by {
                        if a < mid.len() && b < mid.len() {
                            assert(mid[a] == old_rows[if a < i { a } else { a + 1 }]);
                            assert(mid[b] == old_rows[if b < i { b } else { b + 1 }]);
                        } else if a < mid.len() {
                            assert(mid[a] == old_rows[if a < i { a } else { a + 1 }]);
                        } else {
                            assert(mid[b] == old_rows[if b < i { b } else { b + 1 }]);
                        }
                    }
                    assert forall|a: int, b: int| 0 <= a < b < rows.len()
                        implies rows[a].updated_at < rows[b].updated_at by {
                        assert(mid[a] == old_rows[if a < i { a } else { a + 1 }]);
                        if b < mid.len() {
                            assert(mid[b] == old_rows[if b < i { b } else { b + 1 }]);
                        } else {
                            assert(old_rows[if a < i { a } else { a + 1 }].updated_at < old(self).clock);
                        }
                    }
                    assert forall|k: int| 0 <= k < rows.len() implies {
                        &&& 1 <= #[trigger] rows[k].id < self.next_id
                        &&& 0 <= rows[k].created_at <= rows[k].updated_at < self.clock
                    } by {
                        if k < mid.len() {
                            assert(mid[k] == old_rows[if k < i { k } else { k + 1 }]);
                        }
                    }
                }
                Ok(out)
            },
        }
    }

    /// Removes the row with this id; returns how many rows went (0 or 1).
    pub fn delete(&mut self, id: i32) -> (r: u64)
        requires
            old(self).wf(),
        ensures
            final(self).wf(),
            r == delete_count(old(self).rows@, id),
            final(self).rows@ == rows_after_delete(old(self).rows@, id),
            final(self).next_id == old(self).next_id,
            final(self).clock == old(self).clock,
    {
        match self.position(id) {
            None => 0,
            Some(i) => {
                let ghost old_rows = self.rows@;
                let _gone = self.rows.remove(i);
                proof {
                    let rows = self.rows@;
                    assert forall|k: int| 0 <= k < rows.len() implies
                        #[trigger] rows[k] == old_rows[if k < i { k } else { k + 1 }] by {}
                    assert forall|a: int, b: int| 0 <= a < b < rows.len()
                        implies rows[a].updated_at < rows[b].updated_at by {
                        assert(rows[a] == old_rows[if a < i { a } else { a + 1 }]);
                        assert(rows[b] == old_rows[if b < i { b } else { b + 1 }]);
                    }
                    assert forall|a: int, b: int| 0 <= a < rows.len() && 0 <= b < rows.len() && a != b
                        implies rows[a].id != rows[b].id by {
                        assert(rows[a] == old_rows[if a < i { a } else { a + 1 }]);
                        assert(rows[b] == old_rows[if b < i { b } else { b + 1 }]);
                    }
                }
                1
            },
        }
    }
}

/// An update of an existing row keeps its id and moves its `updated_at`
/// strictly forward.
pub proof fn lemma_update_keeps_id_and_advances<F>(
    rows: Seq<Record<F>>,
    next_id: i32,
    clock: i64,
    id: i32,
    fields: F,
)
    requires
        rows_wf(rows, next_id, clock),
        contains_id(rows, id),
    ensures
        updated(rows, id, fields, clock).id == id,
        updated(rows, id, fields, clock).updated_at > rows[index_of(rows, id)].updated_at,
        contains_id(rows_after_update(rows, id, fields, clock), id),
{
    let i = index_of(rows, id);
    assert(rows[i].id == id);
    let after = rows_after_update(rows, id, fields, clock);
    assert(after[after.len() - 1].id == id);
}

/// A delete removes a row exactly when one has the id: it reports 1 and the
/// id is gone afterwards, or it reports 0 and the rows stay as they were.
pub proof fn lemma_delete_then_absent<F>(rows: Seq<Record<F>>, next_id: i32, clock: i64, id: i32)
    requires
        rows_wf(rows, next_id, clock),
    ensures
        !contains_id(rows_after_delete(rows, id), id),
        contains_id(rows, id) ==> delete_count(rows, id) == 1
            && rows_after_delete(rows, id).len() == rows.len() - 1,
        !contains_id(rows, id) ==> delete_count(rows, id) == 0
            && rows_after_delete(rows, id) == rows,
{
    if contains_id(rows, id) {
        let i = index_of(rows, id);
        let after = rows.remove(i);
        assert forall|k: int| 0 <= k < after.len() implies #[trigger] after[k].id != id by {
            assert(after[k] == rows[if k < i { k } else { k + 1 }]);
        }
    }
}

} // verus!
