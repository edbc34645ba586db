use vstd::prelude::*;
use crate::ids::{parse_user_id, random_uuid, uuid_parse, uuid_version};
use crate::table::{edited, has_id, inserted, has_match, matches_at, owned_by, window, items_view, StoreError, TodoTable};
use crate::todo::{opt_view, Pagination, TodoChanges, TodoInformation, TodoItem, TodoRecord};

verus! {

pub const STATUS_OK: u16 = 200;

pub const STATUS_CREATED: u16 = 201;

pub const STATUS_NOT_FOUND: u16 = 404;

pub const STATUS_SERVER_ERROR: u16 = 500;

pub const ADDED_MESSAGE: &'static str = "Todo successfully added ";

pub const UPDATED_MESSAGE: &'static str = "Todo successfully updated";

pub const RETRIEVED_MESSAGE: &'static str = "Todo successfully retrieved";

pub const LISTED_MESSAGE: &'static str = "Todo successfully updated";

pub const BAD_USER_MESSAGE: &'static str = "the authenticated user identifier is not a UUID";

pub const DUPLICATE_MESSAGE: &'static str = "a todo with this identifier already exists";

pub const NOT_FOUND_MESSAGE: &'static str = "todo not found";

pub const STORAGE_MESSAGE: &'static str = "the todo could not be stored";

/// The envelope of a successful response.
#[derive(Debug)]
pub struct ApiSuccessResponse<T> {
    pub success: bool,
    pub message: String,
    pub data: Option<T>,
}

/// The two kinds of failure a request can end in, with a safe message.
#[derive(Debug)]
pub enum ApiErrorResponse {
    ServerError { error: String },
    NotFound { error: String },
}

impl ApiErrorResponse {
    /// The HTTP status that carries this error.
    pub fn status(&self) -> (r: u16)
        ensures
            r == match self {
                ApiErrorResponse::ServerError { .. } => STATUS_SERVER_ERROR,
                ApiErrorResponse::NotFound { .. } => STATUS_NOT_FOUND,
            },
    {
        match self {
            ApiErrorResponse::ServerError { .. } => STATUS_SERVER_ERROR,
            ApiErrorResponse::NotFound { .. } => STATUS_NOT_FOUND,
        }
    }

    /// The message carried by the error.
    pub fn message(&self) -> (r: String)
        ensures
            r@ == match self {
                ApiErrorResponse::ServerError { error } => error@,
                ApiErrorResponse::NotFound { error } => error@,
            },
    {
        match self {
            ApiErrorResponse::ServerError { error } => error.clone(),
            ApiErrorResponse::NotFound { error } => error.clone(),
        }
    }
}

/// A successful response: its status and its envelope.
#[derive(Debug)]
pub struct Reply<T> {
    pub status: u16,
    pub body: ApiSuccessResponse<T>,
}

/// The data of a list response: the page's items and the pagination used.
#[derive(Debug)]
pub struct TodoPage {
    pub todo: Vec<TodoItem>,
    pub current_page: u32,
    pub no_of_rows: u32,
}

/// True when `r` is a successful reply with `status` and `message` whose
/// data is an item with value `rec`.
pub open spec fn item_reply(r: Reply<TodoItem>, status: u16, message: &str, rec: TodoRecord) -> bool {
    &&& r.status == status
    &&& r.body.success
    &&& r.body.message@ == message@
    &&& r.body.data matches Some(item) && item@ == rec
}

/// True when `e` is a server error carrying `message`.
pub open spec fn is_server_error(e: ApiErrorResponse, message: &str) -> bool {
    e matches ApiErrorResponse::ServerError { error } && error@ == message@
}

/// True when `e` is a not-found error with the fixed message.
pub open spec fn is_not_found(e: ApiErrorResponse) -> bool {
    e matches ApiErrorResponse::NotFound { error } && error@ == NOT_FOUND_MESSAGE@
}

fn success<T>(status: u16, message: &str, data: T) -> (r: Reply<T>)
    ensures
        r.status == status,
        r.body.success,
        r.body.message@ == message@,
        r.body.data == Some(data),
{
    Reply { status, body: ApiSuccessResponse { success: true, message: message.to_owned(), data: Some(data) } }
}

fn server_error(message: &str) -> (r: ApiErrorResponse)
    ensures
        is_server_error(r, message),
{
    ApiErrorResponse::ServerError { error: message.to_owned() }
}

fn not_found() -> (r: ApiErrorResponse)
    ensures
        is_not_found(r),
{
    ApiErrorResponse::NotFound { error: NOT_FOUND_MESSAGE.to_owned() }
}

/// The message of a failed create, by what the store reported. An insert
/// that returned no row met an identifier already in use.
pub open spec fn store_message(e: StoreError) -> &'static str {
    match e {
        StoreError::Backend => STORAGE_MESSAGE,
        _ => DUPLICATE_MESSAGE,
    }
}

/// The owner that a request of the user `user_id` is scoped to, or a server
/// error when that identifier is not a UUID.
pub fn user_owner(user_id: &str) -> (r: Result<u128, ApiErrorResponse>)
    ensures
        match uuid_parse(user_id@) {
            Some(owner) => r matches Ok(o) && o == owner,
            None => r matches Err(e) && is_server_error(e, BAD_USER_MESSAGE),
        },
{
    match parse_user_id(user_id) {
        Some(owner) => Ok(owner),
        None => Err(server_error(BAD_USER_MESSAGE)),
    }
}

/// The reply to a create, from what the store's insert returned: the item
/// with status 201, or a server error.
pub fn created_reply(outcome: Result<TodoItem, StoreError>) -> (r: Result<Reply<TodoItem>, ApiErrorResponse>)
    ensures
        match outcome {
            Ok(item) => r matches Ok(reply) && item_reply(reply, STATUS_CREATED, ADDED_MESSAGE, item@),
            Err(e) => r matches Err(x) && is_server_error(x, store_message(e)),
        },
{
    match outcome {
        Ok(item) => Ok(success(STATUS_CREATED, ADDED_MESSAGE, item)),
        Err(StoreError::Backend) => Err(server_error(STORAGE_MESSAGE)),
        Err(_) => Err(server_error(DUPLICATE_MESSAGE)),
    }
}

/// The reply to an edit or a fetch, from what the store returned: the item
/// with status 200 and `message`, or not found, whatever the failure was.
pub fn found_reply(outcome: Result<TodoItem, StoreError>, message: &'static str) -> (r: Result<
    Reply<TodoItem>,
    ApiErrorResponse,
>)
    ensures
        match outcome {
            Ok(item) => r matches Ok(reply) && item_reply(reply, STATUS_OK, message, item@),
            Err(_) => r matches Err(x) && is_not_found(x),
        },
{
    match outcome {
        Ok(item) => Ok(success(STATUS_OK, message, item)),
        Err(_) => Err(not_found()),
    }
}

/// The reply to a list request: the page's items with the pagination used.
pub fn page_reply_of(todo: Vec<TodoItem>, pagination: Pagination) -> (r: Reply<TodoPage>)
    ensures
        r.status == STATUS_OK,
        r.body.success,
        r.body.message@ == LISTED_MESSAGE@,
        r.body.data matches Some(data) && data.todo == todo && data.current_page == pagination.page
            && data.no_of_rows == pagination.no_of_rows,
{
    let page = TodoPage { todo, current_page: pagination.page, no_of_rows: pagination.no_of_rows };
    success(STATUS_OK, LISTED_MESSAGE, page)
}

/// The reply to a list request, from what the store's query returned: the
/// page with the pagination used, or not found when the query failed.
pub fn list_reply(outcome: Result<Vec<TodoItem>, StoreError>, pagination: Pagination) -> (r: Result<
    Reply<TodoPage>,
    ApiErrorResponse,
>)
    ensures
        match outcome {
            Ok(todo) => r matches Ok(reply) && {
                &&& reply.status == STATUS_OK
                &&& reply.body.success
                &&& reply.body.message@ == LISTED_MESSAGE@
                &&& reply.body.data matches Some(data) && data.todo == todo && data.current_page
                    == pagination.page && data.no_of_rows == pagination.no_of_rows
            },
            Err(_) => r matches Err(x) && is_not_found(x),
        },
{
    match outcome {
        Ok(todo) => Ok(page_reply_of(todo, pagination)),
        Err(_) => Err(not_found()),
    }
}

/// Stores a new item with identifier `id` for `owner`. The create path does
/// not reject empty fields: `TodoInformation::validate` reports them, and the
/// caller decides. An identifier already in use leaves the table unchanged.
pub fn create_todo(
    table: &mut TodoTable,
    owner: u128,
    id: u128,
    payload: TodoInformation,
    now: i64,
) -> (r: Result<Reply<TodoItem>, ApiErrorResponse>)
    requires
        old(table).wf(),
    ensures
        final(table).wf(),
        has_id(old(table)@, id) <==> r is Err,
        match r {
            Ok(reply) => {
                let rec = TodoRecord {
                    id,
                    title: payload.title@,
                    description: payload.description@,
                    owner_id: owner,
                    last_update: now,
                };
                &&& item_reply(reply, STATUS_CREATED, ADDED_MESSAGE, rec)
                &&& inserted(old(table)@, final(table)@, rec)
            },
            Err(e) => is_server_error(e, DUPLICATE_MESSAGE) && final(table)@ == old(table)@,
        },
{
    created_reply(table.insert(id, payload.title, payload.description, owner, now))
}

/// Handles a create request of the user `user_id`: mints a fresh random
/// identifier and stores the item under that user.
pub fn add_todo(
    table: &mut TodoTable,
    user_id: &str,
    payload: TodoInformation,
    now: i64,
) -> (r: Result<Reply<TodoItem>, ApiErrorResponse>)
    requires
        old(table).wf(),
    ensures
        final(table).wf(),
        match uuid_parse(user_id@) {
            None => r matches Err(e) && is_server_error(e, BAD_USER_MESSAGE),
            Some(_) => {
                &&& old(table)@.len() == 0 ==> r is Ok
                &&& r matches Err(e) ==> is_server_error(e, DUPLICATE_MESSAGE) && old(table)@.len() > 0
            },
        },
        match r {
            Ok(reply) => reply.body.data matches Some(item) && {
                let rec = TodoRecord {
                    id: item.id,
                    title: payload.title@,
                    description: payload.description@,
                    owner_id: item.owner_id,
                    last_update: now,
                };
                &&& uuid_parse(user_id@) == Some(item.owner_id)
                &&& uuid_version(item.id) == 4
                &&& !has_id(old(table)@, item.id)
                &&& item_reply(reply, STATUS_CREATED, ADDED_MESSAGE, rec)
                &&& inserted(old(table)@, final(table)@, rec)
            },
            Err(e) => e is ServerError && final(table)@ == old(table)@,
        },
{
    match user_owner(user_id) {
        Err(e) => Err(e),
        Ok(owner) => {
            let id = random_uuid();
            create_todo(table, owner, id, payload, now)
        },
    }
}

/// Edits the item keyed by `id` and owned by `owner`. Another owner's item
/// is reported exactly as a missing one.
pub fn apply_edit(
    table: &mut TodoTable,
    owner: u128,
    id: u128,
    changes: TodoChanges,
    now: i64,
) -> (r: Result<Reply<TodoItem>, ApiErrorResponse>)
    requires
        old(table).wf(),
    ensures
        final(table).wf(),
        has_match(old(table)@, id, owner) <==> r is Ok,
        match r {
            Ok(reply) => exists|i: int|
                {
                    let rec = edited(
                        old(table)@[i],
                        opt_view(changes.title),
                        opt_view(changes.description),
                        now,
                    );
                    &&& #[trigger] matches_at(old(table)@, i, id, owner)
                    &&& item_reply(reply, STATUS_OK, UPDATED_MESSAGE, rec)
                    &&& final(table)@ == old(table)@.update(i, rec)
                },
            Err(e) => is_not_found(e) && final(table)@ == old(table)@,
        },
{
    found_reply(table.update(id, owner, changes.title, changes.description, now), UPDATED_MESSAGE)
}

/// Handles an edit request of the user `user_id` on the item `todo_id`.
pub fn edit_todo(
    table: &mut TodoTable,
    user_id: &str,
    todo_id: u128,
    changes: TodoChanges,
    now: i64,
) -> (r: Result<Reply<TodoItem>, ApiErrorResponse>)
    requires
        old(table).wf(),
    ensures
        final(table).wf(),
        match uuid_parse(user_id@) {
            None => r matches Err(e) && is_server_error(e, BAD_USER_MESSAGE) && final(table)@ == old(table)@,
            Some(owner) => {
                &&& has_match(old(table)@, todo_id, owner) <==> r is Ok
                &&& match r {
                    Ok(reply) => exists|i: int|
                        {
                            let rec = edited(
                                old(table)@[i],
                                opt_view(changes.title),
                                opt_view(changes.description),
                                now,
                            );
                            &&& #[trigger] matches_at(old(table)@, i, todo_id, owner)
                            &&& item_reply(reply, STATUS_OK, UPDATED_MESSAGE, rec)
                            &&& final(table)@ == old(table)@.update(i, rec)
                        },
                    Err(e) => is_not_found(e) && final(table)@ == old(table)@,
                }
            },
        },
{
    match user_owner(user_id) {
        Err(e) => Err(e),
        Ok(owner) => apply_edit(table, owner, todo_id, changes, now),
    }
}

/// The item keyed by `id` and owned by `owner`. Another owner's item is
/// reported exactly as a missing one.
pub fn find_todo(table: &TodoTable, owner: u128, id: u128) -> (r: Result<
    Reply<TodoItem>,
    ApiErrorResponse,
>)
    requires
        table.wf(),
    ensures
        has_match(table@, id, owner) <==> r is Ok,
        match r {
            Ok(reply) => exists|i: int|
                matches_at(table@, i, id, owner) && item_reply(reply, STATUS_OK, RETRIEVED_MESSAGE, table@[i]),
            Err(e) => is_not_found(e),
        },
{
    found_reply(table.get(id, owner), RETRIEVED_MESSAGE)
}

/// Handles a fetch request of the user `user_id` for the item `todo_id`.
pub fn get_todo_by_id(table: &TodoTable, user_id: &str, todo_id: u128) -> (r: Result<
    Reply<TodoItem>,
    ApiErrorResponse,
>)
    requires
        table.wf(),
    ensures
        match uuid_parse(user_id@) {
            None => r matches Err(e) && is_server_error(e, BAD_USER_MESSAGE),
            Some(owner) => {
                &&& has_match(table@, todo_id, owner) <==> r is Ok
                &&& match r {
                    Ok(reply) => exists|i: int|
                        matches_at(table@, i, todo_id, owner) && item_reply(
                            reply,
                            STATUS_OK,
                            RETRIEVED_MESSAGE,
                            table@[i],
                        ),
                    Err(e) => is_not_found(e),
                }
            },
        },
{
    match user_owner(user_id) {
        Err(e) => Err(e),
        Ok(owner) => find_todo(table, owner, todo_id),
    }
}

/// True when `r` answers a list request of `owner` on `table` with `p`:
/// the window `[page * rows, page * rows + rows)` of the owner's items.
pub open spec fn page_reply(table: Seq<TodoRecord>, owner: u128, p: Pagination, r: Reply<TodoPage>) -> bool {
    &&& r.status == STATUS_OK
    &&& r.body.success
    &&& r.body.message@ == LISTED_MESSAGE@
    &&& r.body.data matches Some(data) && {
        &&& data.current_page == p.page
        &&& data.no_of_rows == p.no_of_rows
        &&& items_view(data.todo@) == window(
            owned_by(table, owner),
            p.page * p.no_of_rows,
            p.no_of_rows as int,
        )
    }
}

/// One page of the items owned by `owner`, in identifier order. An empty
/// page is a success.
pub fn list_todos(table: &TodoTable, owner: u128, pagination: Pagination) -> (r: Reply<TodoPage>)
    requires
        table.wf(),
    ensures
        page_reply(table@, owner, pagination, r),
{
    let offset = pagination.offset();
    let todo = table.list(owner, pagination.no_of_rows as u64, offset);
    page_reply_of(todo, pagination)
}

/// Handles a list request of the user `user_id`; without pagination the
/// first page of the default size is returned.
pub fn get_all_todo(table: &TodoTable, user_id: &str, pagination: Option<Pagination>) -> (r: Result<
    Reply<TodoPage>,
    ApiErrorResponse,
>)
    requires
        table.wf(),
    ensures
        match uuid_parse(user_id@) {
            None => r matches Err(e) && is_server_error(e, BAD_USER_MESSAGE),
            Some(owner) => r matches Ok(reply) && page_reply(
                table@,
                owner,
                match pagination {
                    Some(p) => p,
                    None => Pagination { page: crate::todo::DEFAULT_PAGE, no_of_rows: crate::todo::DEFAULT_ROWS_PER_PAGE },
                },
                reply,
            ),
        },
{
    match user_owner(user_id) {
        Err(e) => Err(e),
        Ok(owner) => {
            let p = match pagination {
                Some(p) => p,
                None => Pagination::default_pagination(),
            };
            Ok(list_todos(table, owner, p))
        },
    }
}

} // verus!
