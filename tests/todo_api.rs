use todo_api::ids::parse_user_id;
use todo_api::service::{
    add_todo, apply_edit, create_todo, edit_todo, find_todo, get_all_todo, get_todo_by_id,
    list_todos, ApiErrorResponse, ADDED_MESSAGE, BAD_USER_MESSAGE, DUPLICATE_MESSAGE,
    LISTED_MESSAGE, NOT_FOUND_MESSAGE, RETRIEVED_MESSAGE, STATUS_CREATED, STATUS_NOT_FOUND,
    STATUS_OK, STATUS_SERVER_ERROR, UPDATED_MESSAGE,
};
use todo_api::service::{created_reply, found_reply, list_reply, page_reply_of, user_owner, STORAGE_MESSAGE};
use todo_api::table::{StoreError, TodoTable};
use todo_api::todo::TodoItem;
use todo_api::todo::{Pagination, TodoChanges, TodoInformation};
use todo_api::validate::empty_field_errors;

const U1: &str = "6f1c2b7e-2d4a-4c8e-9b1a-0e5f3c7d9a21";
const U2: &str = "a3d9e8f0-1b2c-4d5e-8f9a-b0c1d2e3f4a5";

fn info(title: &str, description: &str) -> TodoInformation {
    TodoInformation { title: title.to_string(), description: description.to_string() }
}

fn titles(page: &[TodoItem]) -> Vec<String> {
    page.iter().map(|t| t.title.clone()).collect()
}

#[test]
fn parse_user_id_reads_hyphenated_uuid() {
    assert_eq!(parse_user_id(U1), Some(0x6f1c2b7e_2d4a_4c8e_9b1a_0e5f3c7d9a21));
    assert_eq!(parse_user_id("6f1c2b7e2d4a4c8e9b1a0e5f3c7d9a21"), Some(0x6f1c2b7e_2d4a_4c8e_9b1a_0e5f3c7d9a21));
}

#[test]
fn parse_user_id_refuses_other_text() {
    assert_eq!(parse_user_id(""), None);
    assert_eq!(parse_user_id("user-42"), None);
    assert_eq!(parse_user_id("6f1c2b7e-2d4a-4c8e-9b1a-0e5f3c7d9a2z"), None);
}

#[test]
fn scenario_create_fetch_edit_list() {
    let mut table = TodoTable::new();
    let created = add_todo(&mut table, U1, info("Buy milk", "2%"), 100).unwrap();
    assert_eq!(created.status, 201);
    assert!(created.body.success);
    let item = created.body.data.unwrap();
    assert_ne!(item.id, 0);
    assert_eq!(item.owner_id, parse_user_id(U1).unwrap());
    assert_eq!(item.title, "Buy milk");
    assert_eq!(item.description, "2%");

    let other = get_todo_by_id(&table, U2, item.id).unwrap_err();
    assert_eq!(other.status(), 404);

    let changes = TodoChanges { title: Some("Buy oat milk".to_string()), description: None };
    let edited = edit_todo(&mut table, U1, item.id, changes, 200).unwrap();
    assert_eq!(edited.status, 200);
    let edited = edited.body.data.unwrap();
    assert_eq!(edited.title, "Buy oat milk");
    assert_eq!(edited.description, "2%");
    assert_eq!(edited.last_update, 200);

    let listed = get_all_todo(&table, U1, Some(Pagination { page: 0, no_of_rows: 10 })).unwrap();
    assert_eq!(listed.status, 200);
    let page = listed.body.data.unwrap();
    assert_eq!(page.todo.len(), 1);
    assert_eq!(page.todo[0].id, item.id);
    assert_eq!(page.todo[0].title, "Buy oat milk");
    assert_eq!(page.current_page, 0);
    assert_eq!(page.no_of_rows, 10);
}

#[test]
fn created_items_get_distinct_version_four_ids() {
    let mut table = TodoTable::new();
    let a = add_todo(&mut table, U1, info("a", "x"), 1).unwrap().body.data.unwrap();
    let b = add_todo(&mut table, U1, info("b", "y"), 2).unwrap().body.data.unwrap();
    assert_ne!(a.id, b.id);
    assert_eq!((a.id >> 76) & 0xf, 4);
    assert_eq!((b.id >> 76) & 0xf, 4);
    assert_eq!(table.len(), 2);
}

#[test]
fn create_reports_owner_and_message() {
    let mut table = TodoTable::new();
    let r = create_todo(&mut table, 7, 42, info("Write report", "Q3"), 5).unwrap();
    assert_eq!(r.status, STATUS_CREATED);
    assert_eq!(r.body.message, ADDED_MESSAGE);
    let item = r.body.data.unwrap();
    assert_eq!((item.id, item.owner_id, item.last_update), (42, 7, 5));
}

#[test]
fn create_with_taken_id_is_a_server_error() {
    let mut table = TodoTable::new();
    create_todo(&mut table, 7, 42, info("first", "one"), 5).unwrap();
    let err = create_todo(&mut table, 8, 42, info("second", "two"), 6).unwrap_err();
    assert_eq!(err.status(), STATUS_SERVER_ERROR);
    assert_eq!(err.message(), DUPLICATE_MESSAGE);
    assert_eq!(table.len(), 1);
    assert_eq!(find_todo(&table, 7, 42).unwrap().body.data.unwrap().title, "first");
}

#[test]
fn bad_user_id_is_a_server_error() {
    let mut table = TodoTable::new();
    let err = add_todo(&mut table, "not-a-uuid", info("a", "b"), 1).unwrap_err();
    assert!(matches!(err, ApiErrorResponse::ServerError { .. }));
    assert_eq!(err.message(), BAD_USER_MESSAGE);
    assert_eq!(table.len(), 0);
    assert_eq!(get_all_todo(&table, "", None).unwrap_err().status(), 500);
}

#[test]
fn title_only_edit_keeps_description_and_advances_timestamp() {
    let mut table = TodoTable::new();
    create_todo(&mut table, 1, 10, info("old", "keep me"), 50).unwrap();
    let changes = TodoChanges { title: Some("new".to_string()), description: None };
    let r = apply_edit(&mut table, 1, 10, changes, 60).unwrap();
    assert_eq!(r.body.message, UPDATED_MESSAGE);
    let item = r.body.data.unwrap();
    assert_eq!(item.title, "new");
    assert_eq!(item.description, "keep me");
    assert!(item.last_update > 50);
    let stored = find_todo(&table, 1, 10).unwrap().body.data.unwrap();
    assert_eq!(stored.description, "keep me");
    assert_eq!(stored.last_update, 60);
}

#[test]
fn description_only_edit_keeps_title() {
    let mut table = TodoTable::new();
    create_todo(&mut table, 1, 10, info("keep", "old"), 50).unwrap();
    let changes = TodoChanges { title: None, description: Some("new".to_string()) };
    let item = apply_edit(&mut table, 1, 10, changes, 51).unwrap().body.data.unwrap();
    assert_eq!((item.title.as_str(), item.description.as_str()), ("keep", "new"));
}

#[test]
fn other_owner_cannot_fetch_or_edit() {
    let mut table = TodoTable::new();
    create_todo(&mut table, 1, 10, info("mine", "private"), 50).unwrap();
    let err = find_todo(&table, 2, 10).unwrap_err();
    assert_eq!(err.status(), STATUS_NOT_FOUND);
    assert_eq!(err.message(), NOT_FOUND_MESSAGE);
    let changes = TodoChanges { title: Some("stolen".to_string()), description: None };
    let err = apply_edit(&mut table, 2, 10, changes, 51).unwrap_err();
    assert!(matches!(err, ApiErrorResponse::NotFound { .. }));
    assert_eq!(find_todo(&table, 1, 10).unwrap().body.data.unwrap().title, "mine");
    assert_eq!(table.get(10, 2).unwrap_err(), StoreError::RowNotFound);
}

#[test]
fn missing_item_is_not_found() {
    let mut table = TodoTable::new();
    assert_eq!(find_todo(&table, 1, 99).unwrap_err().status(), 404);
    let changes = TodoChanges { title: None, description: None };
    assert_eq!(apply_edit(&mut table, 1, 99, changes, 1).unwrap_err().status(), 404);
}

#[test]
fn repeated_edit_stores_same_fields() {
    let mut table = TodoTable::new();
    create_todo(&mut table, 1, 10, info("a", "b"), 1).unwrap();
    let first = apply_edit(
        &mut table, 1, 10,
        TodoChanges { title: Some("t".to_string()), description: Some("d".to_string()) }, 2,
    ).unwrap().body.data.unwrap();
    let second = apply_edit(
        &mut table, 1, 10,
        TodoChanges { title: Some("t".to_string()), description: Some("d".to_string()) }, 3,
    ).unwrap().body.data.unwrap();
    assert_eq!((first.title.as_str(), first.description.as_str()), ("t", "d"));
    assert_eq!((second.title.as_str(), second.description.as_str()), ("t", "d"));
    assert_eq!((first.last_update, second.last_update), (2, 3));
}

#[test]
fn list_pages_are_windows_of_owned_items() {
    let mut table = TodoTable::new();
    for k in 0..7u128 {
        let owner = if k % 3 == 2 { 2 } else { 1 };
        create_todo(&mut table, owner, 100 + k, info(&format!("t{k}"), "d"), k as i64).unwrap();
    }
    // owner 1 holds t0, t1, t3, t4, t6 in identifier order
    let first = list_todos(&table, 1, Pagination { page: 0, no_of_rows: 2 });
    assert_eq!(first.status, STATUS_OK);
    assert_eq!(first.body.message, LISTED_MESSAGE);
    assert_eq!(titles(&first.body.data.unwrap().todo), vec!["t0", "t1"]);
    let second = list_todos(&table, 1, Pagination { page: 1, no_of_rows: 2 });
    assert_eq!(titles(&second.body.data.unwrap().todo), vec!["t3", "t4"]);
    let third = list_todos(&table, 1, Pagination { page: 2, no_of_rows: 2 });
    assert_eq!(titles(&third.body.data.unwrap().todo), vec!["t6"]);
    let past_end = list_todos(&table, 1, Pagination { page: 3, no_of_rows: 2 });
    assert!(past_end.body.data.unwrap().todo.is_empty());
    let other = list_todos(&table, 2, Pagination { page: 0, no_of_rows: 10 });
    assert_eq!(titles(&other.body.data.unwrap().todo), vec!["t2", "t5"]);
    let none = list_todos(&table, 1, Pagination { page: 0, no_of_rows: 0 });
    assert!(none.body.data.unwrap().todo.is_empty());
}

#[test]
fn list_without_pagination_uses_defaults() {
    let mut table = TodoTable::new();
    let owner = parse_user_id(U1).unwrap();
    for k in 0..12u128 {
        create_todo(&mut table, owner, k + 1, info("t", "d"), 0).unwrap();
    }
    let page = get_all_todo(&table, U1, None).unwrap().body.data.unwrap();
    assert_eq!((page.current_page, page.no_of_rows), (0, 10));
    assert_eq!(page.todo.len(), 10);
    assert_eq!(page.todo[0].id, 1);
}

#[test]
fn list_of_user_without_items_is_empty_success() {
    let table = TodoTable::new();
    let r = get_all_todo(&table, U2, None).unwrap();
    assert_eq!(r.status, 200);
    assert!(r.body.data.unwrap().todo.is_empty());
}

#[test]
fn pagination_offset_is_page_times_rows() {
    assert_eq!(Pagination { page: 3, no_of_rows: 25 }.offset(), 75);
    assert_eq!(Pagination { page: u32::MAX, no_of_rows: u32::MAX }.offset(), (u32::MAX as u64) * (u32::MAX as u64));
    let d = Pagination::default_pagination();
    assert_eq!((d.page, d.no_of_rows), (0, 10));
}

#[test]
fn fetch_by_id_returns_stored_item() {
    let mut table = TodoTable::new();
    let owner = parse_user_id(U2).unwrap();
    create_todo(&mut table, owner, 5, info("read", "book"), 9).unwrap();
    let r = get_todo_by_id(&table, U2, 5).unwrap();
    assert_eq!(r.body.message, RETRIEVED_MESSAGE);
    let item = r.body.data.unwrap();
    assert_eq!((item.title.as_str(), item.description.as_str(), item.last_update), ("read", "book", 9));
}

#[test]
fn validation_names_each_empty_field() {
    assert!(info("a", "b").validate().is_empty());
    assert_eq!(info("", "b").validate(), vec!["title is empty".to_string()]);
    assert_eq!(
        info("", "").validate(),
        vec!["title is empty".to_string(), "description is empty".to_string()]
    );
    let entries = info("x", "").collect_as_strings();
    assert_eq!(entries, vec![("title".to_string(), "x".to_string()), ("description".to_string(), String::new())]);
    assert_eq!(empty_field_errors(&entries), vec!["description is empty".to_string()]);
}

#[test]
fn create_does_not_block_on_empty_fields() {
    let mut table = TodoTable::new();
    let r = create_todo(&mut table, 1, 1, info("", ""), 0).unwrap();
    assert_eq!(r.status, 201);
    assert_eq!(table.len(), 1);
}

#[test]
fn replies_from_store_outcomes() {
    let item = || TodoItem { id: 3, title: "t".to_string(), description: "d".to_string(), owner_id: 4, last_update: 5 };
    let ok = created_reply(Ok(item())).unwrap();
    assert_eq!((ok.status, ok.body.data.unwrap().id), (201, 3));
    let dup = created_reply(Err(StoreError::DuplicateId)).unwrap_err();
    assert_eq!((dup.status(), dup.message()), (500, DUPLICATE_MESSAGE.to_string()));
    let down = created_reply(Err(StoreError::Backend)).unwrap_err();
    assert_eq!((down.status(), down.message()), (500, STORAGE_MESSAGE.to_string()));
    let found = found_reply(Ok(item()), RETRIEVED_MESSAGE).unwrap();
    assert_eq!((found.status, found.body.message.as_str()), (200, RETRIEVED_MESSAGE));
    assert_eq!(found_reply(Err(StoreError::Backend), UPDATED_MESSAGE).unwrap_err().status(), 404);
    assert_eq!(found_reply(Err(StoreError::RowNotFound), UPDATED_MESSAGE).unwrap_err().status(), 404);
    let page = page_reply_of(vec![item()], Pagination { page: 2, no_of_rows: 5 });
    let data = page.body.data.unwrap();
    assert_eq!((page.status, data.current_page, data.no_of_rows, data.todo.len()), (200, 2, 5, 1));
}

#[test]
fn insert_without_returned_row_is_a_duplicate() {
    let err = created_reply(Err(StoreError::RowNotFound)).unwrap_err();
    assert_eq!((err.status(), err.message()), (500, DUPLICATE_MESSAGE.to_string()));
    assert_eq!(ADDED_MESSAGE, "Todo successfully added ");
}

#[test]
fn user_owner_scopes_or_fails() {
    assert_eq!(user_owner(U1).unwrap(), 0x6f1c2b7e_2d4a_4c8e_9b1a_0e5f3c7d9a21);
    let err = user_owner("nobody").unwrap_err();
    assert_eq!((err.status(), err.message()), (500, BAD_USER_MESSAGE.to_string()));
}

#[test]
fn list_reply_from_query_outcome() {
    let p = Pagination { page: 1, no_of_rows: 3 };
    let ok = list_reply(Ok(Vec::new()), p).unwrap();
    assert_eq!((ok.status, ok.body.message.as_str()), (200, LISTED_MESSAGE));
    let data = ok.body.data.unwrap();
    assert_eq!((data.current_page, data.no_of_rows, data.todo.len()), (1, 3, 0));
    let err = list_reply(Err(StoreError::Backend), p).unwrap_err();
    assert_eq!((err.status(), err.message()), (404, NOT_FOUND_MESSAGE.to_string()));
}

#[test]
fn table_keeps_identifier_order() {
    let mut table = TodoTable::new();
    for id in [30u128, 10, 20] {
        create_todo(&mut table, 1, id, info(&format!("t{id}"), "d"), 0).unwrap();
    }
    let page = list_todos(&table, 1, Pagination { page: 0, no_of_rows: 10 });
    assert_eq!(titles(&page.body.data.unwrap().todo), vec!["t10", "t20", "t30"]);
}
