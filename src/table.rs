use vstd::prelude::*;
use crate::todo::{TodoItem, TodoRecord};

verus! {

/// Why a repository operation returned no row.
#[derive(Clone, Copy, Debug, PartialEq, Eq, Structural)]
pub enum StoreError {
    /// The insert met a row with the same identifier and did nothing.
    DuplicateId,
    /// No row matched both the identifier and the owner.
    RowNotFound,
    /// The storage behind the table failed.
    Backend,
}

/// True when no two records share an identifier.
pub open spec fn ids_unique(s: Seq<TodoRecord>) -> bool {
    forall|i: int, j: int| 0 <= i < s.len() && 0 <= j < s.len() && i != j ==> s[i].id != s[j].id
}

/// True when the identifiers rise strictly along the sequence.
pub open spec fn ids_ascending(s: Seq<TodoRecord>) -> bool {
    forall|a: int, b: int| 0 <= a < b < s.len() ==> s[a].id < s[b].id
}

/// True when `new` is `old` with `rec` placed at some position.
pub open spec fn inserted(old: Seq<TodoRecord>, new: Seq<TodoRecord>, rec: TodoRecord) -> bool {
    exists|i: int| 0 <= i <= old.len() && new == old.insert(i, rec)
}

/// True when some record carries the identifier `id`.
pub open spec fn has_id(s: Seq<TodoRecord>, id: u128) -> bool {
    exists|i: int| 0 <= i < s.len() && s[i].id == id
}

/// True when record `i` is the one keyed by `id` and owned by `owner`.
pub open spec fn matches_at(s: Seq<TodoRecord>, i: int, id: u128, owner: u128) -> bool {
    0 <= i < s.len() && s[i].id == id && s[i].owner_id == owner
}

/// True when some record is keyed by `id` and owned by `owner`.
pub open spec fn has_match(s: Seq<TodoRecord>, id: u128, owner: u128) -> bool {
    exists|i: int| matches_at(s, i, id, owner)
}

/// The record after an edit: each supplied field replaces the stored one,
/// and the timestamp becomes `now`.
pub open spec fn edited(
    r: TodoRecord,
    title: Option<Seq<char>>,
    description: Option<Seq<char>>,
    now: i64,
) -> TodoRecord {
    TodoRecord {
        id: r.id,
        title: match title {
            Some(t) => t,
            None => r.title,
        },
        description: match description {
            Some(d) => d,
            None => r.description,
        },
        owner_id: r.owner_id,
        last_update: now,
    }
}

/// The records owned by `owner`, in the table's order.
pub open spec fn owned_by(s: Seq<TodoRecord>, owner: u128) -> Seq<TodoRecord>
    decreases s.len(),
{
    if s.len() == 0 {
        Seq::empty()
    } else {
        let rest = owned_by(s.drop_last(), owner);
        if s.last().owner_id == owner {
            rest.push(s.last())
        } else {
            rest
        }
    }
}

/// The window `[offset, offset + limit)` of `s`, cut at its end.
pub open spec fn window(s: Seq<TodoRecord>, offset: int, limit: int) -> Seq<TodoRecord> {
    let lo = if offset < s.len() { offset } else { s.len() as int };
    let hi = if offset + limit < s.len() { offset + limit } else { s.len() as int };
    s.subrange(lo, hi)
}

/// The values of a sequence of items.
pub open spec fn items_view(v: Seq<TodoItem>) -> Seq<TodoRecord> {
    v.map_values(|t: TodoItem| t@)
}

/// The todo table: an in-memory store of every item, kept in ascending
/// order of identifier, so identifiers are unique.
pub struct TodoTable {
    rows: Vec<TodoItem>,
}

impl View for TodoTable {
    type V = Seq<TodoRecord>;

    closed spec fn view(&self) -> Seq<TodoRecord> {
        items_view(self.rows@)
    }
}

impl TodoTable {
    /// Well-formed: identifiers ascend, so no two items share one.
    pub open spec fn wf(&self) -> bool {
        ids_ascending(self@)
    }

    /// An empty table.
    pub fn new() -> (r: TodoTable)
        ensures
            r.wf(),
            r@ == Seq::<TodoRecord>::empty(),
    {
        let r = TodoTable { rows: Vec::new() };
        assert(r@ =~= Seq::<TodoRecord>::empty());
        r
    }

    /// Number of stored items.
    pub fn len(&self) -> (r: usize)
        ensures
            r == self@.len(),
    {
        self.rows.len()
    }

    /// Position of the item with identifier `id`, if any.
    fn position_of_id(&self, id: u128) -> (r: Option<usize>)
        ensures
            match r {
                Some(i) => i < self@.len() && self@[i as int].id == id,
                None => !has_id(self@, id),
            },
    {
        let mut i: usize = 0;
        while i < self.rows.len()
            invariant
                i <= self.rows@.len(),
                forall|k: int| 0 <= k < i ==> self@[k].id != id,
            decreases self.rows@.len() - i,
        {
            if self.rows[i].id == id {
                return Some(i);
            }
            i = i + 1;
        }
        None
    }

    /// Position of the item keyed by `id` and owned by `owner`, if any.
    fn position_of(&self, id: u128, owner: u128) -> (r: Option<usize>)
        ensures
            match r {
                Some(i) => matches_at(self@, i as int, id, owner),
                None => !has_match(self@, id, owner),
            },
    {
        let mut i: usize = 0;
        while i < self.rows.len()
            invariant
                i <= self.rows@.len(),
                forall|k: int| 0 <= k < i ==> !matches_at(self@, k, id, owner),
            decreases self.rows@.len() - i,
        {
            if self.rows[i].id == id && self.rows[i].owner_id == owner {
                return Some(i);
            }
            i = i + 1;
        }
        None
    }

    /// First position whose identifier is not below `id`.
    fn position_for(&self, id: u128) -> (r: usize)
        ensures
            r <= self@.len(),
            forall|k: int| 0 <= k < r ==> self@[k].id < id,
            r < self@.len() ==> self@[r as int].id >= id,
    {
        let mut i: usize = 0;
        while i < self.rows.len() && self.rows[i].id < id
            invariant
                i <= self.rows@.len(),
                forall|k: int| 0 <= k < i ==> self@[k].id < id,
            decreases self.rows@.len() - i,
        {
            i = i + 1;
        }
        i
    }

    /// Adds a new item at its place in identifier order, unless its
    /// identifier is taken; on a conflict nothing changes.
    pub fn insert(
        &mut self,
        id: u128,
        title: String,
        description: String,
        owner_id: u128,
        now: i64,
    ) -> (r: Result<TodoItem, StoreError>)
        requires
            old(self).wf(),
        ensures
            final(self).wf(),
            has_id(old(self)@, id) <==> r is Err,
            match r {
                Ok(item) => {
                    &&& item@ == (TodoRecord {
                        id,
                        title: title@,
                        description: description@,
                        owner_id,
                        last_update: now,
                    })
                    &&& inserted(old(self)@, final(self)@, item@)
                },
                Err(e) => e == StoreError::DuplicateId && final(self)@ == old(self)@,
            },
    {
        let pos = self.position_for(id);
        if pos < self.rows.len() && self.rows[pos].id == id {
            return Err(StoreError::DuplicateId);
        }
        proof {
            assert forall|k: int| 0 <= k < self@.len() implies self@[k].id != id by {
                if k >= pos {
                    assert(self@[pos as int].id > id);
                }
            }
        }
        let item = TodoItem { id, title, description, owner_id, last_update: now };
        let out = item.duplicate();
        self.rows.insert(pos, item);
        assert(self@ =~= old(self)@.insert(pos as int, out@));
        Ok(out)
    }

    /// The item keyed by `id` and owned by `owner`.
    pub fn get(&self, id: u128, owner: u128) -> (r: Result<TodoItem, StoreError>)
        requires
            self.wf(),
        ensures
            has_match(self@, id, owner) <==> r is Ok,
            match r {
                Ok(item) => exists|i: int| matches_at(self@, i, id, owner) && item@ == self@[i],
                Err(e) => e == StoreError::RowNotFound,
            },
    {
        match self.position_of(id, owner) {
            Some(i) => Ok(self.rows[i].duplicate()),
            None => Err(StoreError::RowNotFound),
        }
    }

    /// Edits the item keyed by `id` and owned by `owner`: supplied fields
    /// replace the stored ones and the timestamp becomes `now`.
    pub fn update(
        &mut self,
        id: u128,
        owner: u128,
        title: Option<String>,
        description: Option<String>,
        now: i64,
    ) -> (r: Result<TodoItem, StoreError>)
        requires
            old(self).wf(),
        ensures
            final(self).wf(),
            has_match(old(self)@, id, owner) <==> r is Ok,
            match r {
                Ok(item) => exists|i: int|
                    {
                        &&& matches_at(old(self)@, i, id, owner)
                        &&& item@ == edited(
                            old(self)@[i],
                            crate::todo::opt_view(title),
                            crate::todo::opt_view(description),
                            now,
                        )
                        &&& final(self)@ == old(self)@.update(i, item@)
                    },
                Err(e) => e == StoreError::RowNotFound && final(self)@ == old(self)@,
            },
    {
        match self.position_of(id, owner) {
            None => Err(StoreError::RowNotFound),
            Some(i) => {
                let cur = self.rows[i].duplicate();
                let new_title = match title {
                    Some(t) => t,
                    None => cur.title,
                };
                let new_description = match description {
                    Some(d) => d,
                    None => cur.description,
                };
                let item = TodoItem {
                    id: cur.id,
                    title: new_title,
                    description: new_description,
                    owner_id: cur.owner_id,
                    last_update: now,
                };
                let out = item.duplicate();
                self.rows.set(i, item);
                assert(self@ =~= old(self)@.update(i as int, out@));
                Ok(out)
            },
        }
    }
    /// The items owned by `owner`, in identifier order, from position `offset`
    /// of that sequence on, at most `limit` of them.
    pub fn list(&self, owner: u128, limit: u64, offset: u64) -> (r: Vec<TodoItem>)
        requires
            self.wf(),
        ensures
            items_view(r@) == window(owned_by(self@, owner), offset as int, limit as int),
    {
        let mut out: Vec<TodoItem> = Vec::new();
        let mut seen: u64 = 0;
        let mut i: usize = 0;
        while i < self.rows.len()
            invariant
                i <= self.rows@.len(),
                seen as int == owned_by(self@.take(i as int), owner).len(),
                items_view(out@) == window(owned_by(self@.take(i as int), owner), offset as int, limit as int),
            decreases self.rows@.len() - i,
        {
            let ghost prev = owned_by(self@.take(i as int), owner);
            proof {
                assert(self@.take(i as int + 1).drop_last() =~= self@.take(i as int));
                assert(self@.take(i as int + 1).last() == self@[i as int]);
                lemma_owned_by_len(self@.take(i as int), owner);
            }
            if self.rows[i].owner_id == owner {
                let ghost before = out@;
                if seen >= offset && seen - offset < limit {
                    let item = self.rows[i].duplicate();
                    out.push(item);
                    assert(out@ =~= before.push(item));
                    assert(items_view(out@) =~= items_view(before).push(self@[i as int]));
                    assert(window(prev.push(self@[i as int]), offset as int, limit as int)
                        =~= window(prev, offset as int, limit as int).push(self@[i as int]));
                } else {
                    assert(window(prev.push(self@[i as int]), offset as int, limit as int)
                        =~= window(prev, offset as int, limit as int));
                }
                seen = seen + 1;
            }
            i = i + 1;
        }
        assert(self@.take(self@.len() as int) =~= self@);
        out
    }
}

/// The owner's records are never more than all the records.
pub proof fn lemma_owned_by_len(s: Seq<TodoRecord>, owner: u128)
    ensures
        owned_by(s, owner).len() <= s.len(),
    decreases s.len(),
{
    if s.len() > 0 {
        lemma_owned_by_len(s.drop_last(), owner);
    }
}

} // verus!
