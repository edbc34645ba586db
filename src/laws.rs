//! Properties of the repository operations, stated over the models that
//! their contracts use.
use vstd::prelude::*;
use crate::table::{edited, has_id, has_match, ids_unique, inserted, matches_at, window, TodoTable};
use crate::todo::TodoRecord;

verus! {

/// A well-formed table holds no two items with one identifier.
pub proof fn lemma_table_ids_unique(t: &TodoTable)
    requires
        t.wf(),
    ensures
        ids_unique(t@),
{
    assert forall|i: int, j: int| 0 <= i < t@.len() && 0 <= j < t@.len() && i != j implies t@[i].id
        != t@[j].id by {
        if i < j {
            assert(t@[i].id < t@[j].id);
        } else {
            assert(t@[j].id < t@[i].id);
        }
    }
}

/// A created item takes an identifier that no existing item carries, so the
/// identifiers of all items stay unique wherever it is placed.
pub proof fn lemma_created_id_unique(s: Seq<TodoRecord>, new: Seq<TodoRecord>, rec: TodoRecord)
    requires
        ids_unique(s),
        !has_id(s, rec.id),
        inserted(s, new, rec),
    ensures
        ids_unique(new),
        new.len() == s.len() + 1,
        exists|i: int| 0 <= i < new.len() && new[i] == rec,
{
    let p = choose|p: int| 0 <= p <= s.len() && new == s.insert(p, rec);
    assert(new[p] == rec);
    assert forall|i: int, j: int| 0 <= i < new.len() && 0 <= j < new.len() && i != j implies new[i].id
        != new[j].id by {
        if i != p && j != p {
            let a = if i < p { i } else { i - 1 };
            let b = if j < p { j } else { j - 1 };
            assert(new[i] == s[a]);
            assert(new[j] == s[b]);
        } else if i == p {
            let b = if j < p { j } else { j - 1 };
            assert(new[j] == s[b]);
        } else {
            let a = if i < p { i } else { i - 1 };
            assert(new[i] == s[a]);
        }
    }
}

/// An edit that supplies only a title keeps the description, and the
/// timestamp moves forward whenever the clock did.
pub proof fn lemma_title_only_edit(r: TodoRecord, title: Seq<char>, now: i64)
    requires
        r.last_update < now,
    ensures
        edited(r, Some(title), None, now).title == title,
        edited(r, Some(title), None, now).description == r.description,
        edited(r, Some(title), None, now).last_update > r.last_update,
{
}

/// An item keyed by `id` and owned by `owner` is found by no other owner:
/// a lookup, edit or fetch under `other` ends as not found.
pub proof fn lemma_owner_isolation(s: Seq<TodoRecord>, id: u128, owner: u128, other: u128)
    requires
        ids_unique(s),
        has_match(s, id, owner),
        other != owner,
    ensures
        !has_match(s, id, other),
{
    let i = choose|i: int| matches_at(s, i, id, owner);
    assert forall|j: int| !matches_at(s, j, id, other) by {
        if matches_at(s, j, id, other) {
            assert(i != j);
        }
    }
}

/// Repeating an edit with the same fields finds the same item again and
/// stores the same title and description; only the timestamp differs.
pub proof fn lemma_edit_repeat(
    s: Seq<TodoRecord>,
    i: int,
    id: u128,
    owner: u128,
    title: Option<Seq<char>>,
    description: Option<Seq<char>>,
    first: i64,
    second: i64,
)
    requires
        ids_unique(s),
        matches_at(s, i, id, owner),
    ensures
        ({
            let once = s.update(i, edited(s[i], title, description, first));
            let twice = once.update(i, edited(once[i], title, description, second));
            &&& ids_unique(once)
            &&& matches_at(once, i, id, owner)
            &&& twice[i].title == once[i].title
            &&& twice[i].description == once[i].description
            &&& twice[i].last_update == second
        }),
{
    let once = s.update(i, edited(s[i], title, description, first));
    assert forall|a: int, b: int| 0 <= a < once.len() && 0 <= b < once.len() && a != b implies once[a].id
        != once[b].id by {
        assert(once[a].id == s[a].id);
        assert(once[b].id == s[b].id);
    }
}

/// A page that lies wholly within the owner's items holds exactly
/// `rows` of them: those at positions `[page * rows, page * rows + rows)`.
pub proof fn lemma_full_page(owned: Seq<TodoRecord>, page: int, rows: int)
    requires
        0 <= page,
        0 <= rows,
        page * rows + rows <= owned.len(),
    ensures
        window(owned, page * rows, rows) == owned.subrange(page * rows, page * rows + rows),
        window(owned, page * rows, rows).len() == rows,
{
    assert(0 <= page * rows) by (nonlinear_arith)
        requires
            0 <= page,
            0 <= rows,
    ;
}

/// In a well-formed table, the item keyed by `id` and owned by `owner` is
/// matched under no other owner: a fetch or edit under `other` ends as not
/// found, with the fixed message, and an edit leaves the table unchanged.
pub proof fn lemma_table_owner_isolation(t: &TodoTable, id: u128, owner: u128, other: u128)
    requires
        t.wf(),
        has_match(t@, id, owner),
        other != owner,
    ensures
        !has_match(t@, id, other),
{
    lemma_table_ids_unique(t);
    lemma_owner_isolation(t@, id, owner, other);
}

/// In a well-formed table, the edit that an item keyed by `id` and owned by
/// `owner` gets at position `i` leaves it matched at the same position, and
/// the same edit once more keeps its title and description.
pub proof fn lemma_table_edit_repeat(
    t: &TodoTable,
    i: int,
    id: u128,
    owner: u128,
    title: Option<Seq<char>>,
    description: Option<Seq<char>>,
    first: i64,
    second: i64,
)
    requires
        t.wf(),
        matches_at(t@, i, id, owner),
    ensures
        ({
            let once = t@.update(i, edited(t@[i], title, description, first));
            let twice = once.update(i, edited(once[i], title, description, second));
            &&& ids_unique(once)
            &&& matches_at(once, i, id, owner)
            &&& forall|j: int| matches_at(once, j, id, owner) ==> j == i
            &&& twice[i].title == once[i].title
            &&& twice[i].description == once[i].description
            &&& twice[i].last_update == second
        }),
{
    lemma_table_ids_unique(t);
    lemma_edit_repeat(t@, i, id, owner, title, description, first, second);
}

} // verus!
