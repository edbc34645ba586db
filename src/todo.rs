use vstd::prelude::*;

verus! {

/// The mathematical value of a todo item.
pub struct TodoRecord {
    pub id: u128,
    pub title: Seq<char>,
    pub description: Seq<char>,
    pub owner_id: u128,
    pub last_update: i64,
}

/// A stored todo item. `last_update` is a timestamp in microseconds.
#[derive(Debug)]
pub struct TodoItem {
    pub id: u128,
    pub title: String,
    pub description: String,
    pub owner_id: u128,
    pub last_update: i64,
}

impl View for TodoItem {
    type V = TodoRecord;

    open spec fn view(&self) -> TodoRecord {
        TodoRecord {
            id: self.id,
            title: self.title@,
            description: self.description@,
            owner_id: self.owner_id,
            last_update: self.last_update,
        }
    }
}

impl TodoItem {
    /// A field-by-field copy of the item.
    pub fn duplicate(&self) -> (r: TodoItem)
        ensures
            r@ == self@,
    {
        TodoItem {
            id: self.id,
            title: self.title.clone(),
            description: self.description.clone(),
            owner_id: self.owner_id,
            last_update: self.last_update,
        }
    }
}

/// The body of a create request: both fields are required.
#[derive(Debug)]
pub struct TodoInformation {
    pub title: String,
    pub description: String,
}

/// The body of an edit request: an absent field keeps its stored value.
#[derive(Debug)]
pub struct TodoChanges {
    pub title: Option<String>,
    pub description: Option<String>,
}

/// The text of an optional field, as a sequence of characters.
pub open spec fn opt_view(o: Option<String>) -> Option<Seq<char>> {
    match o {
        Some(s) => Some(s@),
        None => None,
    }
}

/// Page number and page size of a list request.
#[derive(Clone, Copy, Debug, PartialEq, Eq, Structural)]
pub struct Pagination {
    pub page: u32,
    pub no_of_rows: u32,
}

/// Page used when a list request names none.
pub const DEFAULT_PAGE: u32 = 0;

/// Page size used when a list request names none.
pub const DEFAULT_ROWS_PER_PAGE: u32 = 10;

impl Pagination {
    /// The pagination that applies when a list request carries none.
    pub fn default_pagination() -> (r: Pagination)
        ensures
            r.page == DEFAULT_PAGE,
            r.no_of_rows == DEFAULT_ROWS_PER_PAGE,
    {
        Pagination { page: DEFAULT_PAGE, no_of_rows: DEFAULT_ROWS_PER_PAGE }
    }

    /// Number of the owner's rows skipped before this page.
    pub fn offset(&self) -> (r: u64)
        ensures
            r == self.page as int * self.no_of_rows as int,
    {
        proof {
            vstd::arithmetic::mul::lemma_mul_upper_bound(
                self.page as int,
                u32::MAX as int,
                self.no_of_rows as int,
                u32::MAX as int,
            );
        }
        (self.page as u64) * (self.no_of_rows as u64)
    }
}

} // verus!
