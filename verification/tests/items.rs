use backend::error::DbError;
use backend::item_handler::{
    created_item_reply, invalid_category_reply, invalid_status_reply, item_reply, items_reply,
    new_item_refusal, select_items, status_change, status_update_reply, ApiReply, GetItemQuery,
    ItemsSelection, ReplyData, ReplyStatus, StatusChange,
};

fn failure<T>(reply: &ApiReply<T>) -> (u16, &str) {
    assert_eq!(reply.status, ReplyStatus::Fail);
    match &reply.data {
        ReplyData::Message(text) => (reply.code, text.as_str()),
        _ => panic!("a failure carries a message"),
    }
}

#[test]
fn default_query_lists_active_items() {
    let query = GetItemQuery::default();
    assert!(query.category.is_none() && query.offset.is_none() && query.limit.is_none());
    assert!(matches!(select_items(&query), ItemsSelection::Active { limit: 25, offset: 0 }));
}

#[test]
fn category_all_lists_active_items() {
    let query = GetItemQuery { category: Some("all".to_string()), offset: Some(50), limit: Some(10) };
    assert!(matches!(select_items(&query), ItemsSelection::Active { limit: 10, offset: 50 }));
}

#[test]
fn named_category_is_selected() {
    let query = GetItemQuery { category: Some("books".to_string()), offset: None, limit: Some(5) };
    match select_items(&query) {
        ItemsSelection::Category { name, limit, offset } => {
            assert_eq!(name, "books");
            assert_eq!((limit, offset), (5, 0));
        }
        other => panic!("unexpected {:?}", other),
    }
    let query = GetItemQuery { category: Some("All".to_string()), offset: None, limit: None };
    assert!(matches!(select_items(&query), ItemsSelection::Category { limit: 25, offset: 0, .. }));
}

#[test]
fn invalid_category_answer() {
    let reply: ApiReply<()> = invalid_category_reply();
    assert_eq!(failure(&reply), (400, "API: Invalid category"));
}

#[test]
fn listing_answers() {
    let reply = items_reply(Ok(vec![1, 2, 3]));
    assert_eq!(reply.code, 200);
    assert_eq!(reply.status, ReplyStatus::Success);
    assert!(matches!(reply.data, ReplyData::Payload(ref v) if v == &vec![1, 2, 3]));
    let reply: ApiReply<Vec<i32>> = items_reply(Err(DbError::ConnectionError));
    assert_eq!(failure(&reply), (500, "API: Something went wrong"));
    let reply: ApiReply<Vec<i32>> = items_reply(Err(DbError::NotFound));
    assert_eq!(failure(&reply), (500, "API: Something went wrong"));
}

#[test]
fn item_answers() {
    let reply = item_reply(7, Ok("item"));
    assert_eq!(reply.code, 200);
    assert!(matches!(reply.data, ReplyData::Payload("item")));
    let reply: ApiReply<&str> = item_reply(7, Err(DbError::NotFound));
    assert_eq!(failure(&reply), (404, "API: Could not find item with id 7"));
    let reply: ApiReply<&str> = item_reply(-3, Err(DbError::NotFound));
    assert_eq!(failure(&reply), (404, "API: Could not find item with id -3"));
    let reply: ApiReply<&str> = item_reply(7, Err(DbError::Conflict));
    assert_eq!(failure(&reply), (500, "API: Something went wrong"));
}

#[test]
fn status_change_by_other_user_is_unauthorized() {
    match status_change(1, Ok(2), Some("sold".to_string())) {
        StatusChange::Answer(reply) => assert_eq!(failure(&reply), (401, "API: Unauthorized")),
        other => panic!("unexpected {:?}", other),
    }
}

#[test]
fn status_change_without_status_is_refused() {
    match status_change(1, Ok(1), None) {
        StatusChange::Answer(reply) => assert_eq!(failure(&reply), (400, "API: Missing status")),
        other => panic!("unexpected {:?}", other),
    }
}

#[test]
fn status_change_goes_on_after_failed_fetch() {
    match status_change(1, Err(DbError::NotFound), Some("sold".to_string())) {
        StatusChange::Parse(status) => assert_eq!(status, "sold"),
        other => panic!("unexpected {:?}", other),
    }
    match status_change(1, Err(DbError::ConnectionError), None) {
        StatusChange::Answer(reply) => assert_eq!(failure(&reply), (400, "API: Missing status")),
        other => panic!("unexpected {:?}", other),
    }
}

#[test]
fn status_change_by_owner_is_parsed() {
    match status_change(4, Ok(4), Some("active".to_string())) {
        StatusChange::Parse(status) => assert_eq!(status, "active"),
        other => panic!("unexpected {:?}", other),
    }
}

#[test]
fn status_answers() {
    let reply: ApiReply<()> = invalid_status_reply();
    assert_eq!(failure(&reply), (400, "API: Invalid status"));
    let reply = status_update_reply(9, Ok(()));
    assert_eq!(reply.code, 200);
    assert_eq!(reply.status, ReplyStatus::Success);
    assert!(matches!(reply.data, ReplyData::Nothing));
    let reply = status_update_reply(9, Err(DbError::NotFound));
    assert_eq!(failure(&reply), (404, "API: Could not find item with id 9"));
    let reply = status_update_reply(9, Err(DbError::ConnectionError));
    assert_eq!(failure(&reply), (500, "API: Something went wrong"));
}

#[test]
fn new_item_checks_in_order() {
    let empty = String::new();
    let name = "lamp".to_string();
    let reply = new_item_refusal(&empty, false, false).unwrap();
    assert_eq!(failure(&reply), (400, "API: Missing name"));
    let reply = new_item_refusal(&name, false, false).unwrap();
    assert_eq!(failure(&reply), (400, "API: Invalid category"));
    let reply = new_item_refusal(&name, true, false).unwrap();
    assert_eq!(failure(&reply), (400, "API: Invalid price"));
    assert!(new_item_refusal(&name, true, true).is_none());
}

#[test]
fn created_item_answers() {
    let reply = created_item_reply(Ok(31));
    assert_eq!(reply.code, 200);
    assert!(matches!(reply.data, ReplyData::Payload(31)));
    let reply = created_item_reply(Err(DbError::ConnectionError));
    assert_eq!(failure(&reply), (500, "API: Something went wrong"));
}
