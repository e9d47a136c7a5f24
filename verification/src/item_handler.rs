//! The decisions of the item routes: which items a listing asks for, when a
//! request is refused, and how each outcome of the database is answered.
//!
//! Every answer is a status code, `success` or `fail`, and a payload: a message
//! for failures, the requested data (or nothing) for successes.

use vstd::prelude::*;
use crate::decimal::{decimal, law_decimal_reads_back, read_digits, render_i32};
use crate::error::DbError;

verus! {

/// The query of the item listing.
#[derive(Debug)]
pub struct GetItemQuery {
    pub category: Option<String>,
    pub offset: Option<i32>,
    pub limit: Option<i32>,
}

impl Default for GetItemQuery {
    fn default() -> (query: GetItemQuery)
        ensures
            query.category is None,
            query.offset is None,
            query.limit is None,
    {
        GetItemQuery { category: None, offset: None, limit: None }
    }
}

/// Whether an answer reports success or failure.
#[derive(Clone, Copy, Debug, PartialEq, Eq, Structural)]
pub enum ReplyStatus {
    Success,
    Fail,
}

/// What an answer carries besides its status.
#[derive(Debug)]
pub enum ReplyData<T> {
    /// No payload.
    Nothing,
    /// A message explaining a failure.
    Message(String),
    /// The requested data.
    Payload(T),
}

/// An answer of an item route.
#[derive(Debug)]
pub struct ApiReply<T> {
    pub code: u16,
    pub status: ReplyStatus,
    pub data: ReplyData<T>,
}

/// The message of every failure that the database causes, but a missing item.
pub open spec fn generic_failure_text() -> Seq<char> {
    "API: Something went wrong"@
}

/// The message when item `item_id` does not exist.
pub open spec fn missing_item_text(item_id: i32) -> Seq<char> {
    "API: Could not find item with id "@ + decimal(item_id as int)
}

impl<T> ApiReply<T> {
    /// Success answers, and only they, have code 200; failures carry a message,
    /// successes do not.
    pub open spec fn well_formed(&self) -> bool {
        &&& (self.code == 200) == (self.status == ReplyStatus::Success)
        &&& (self.status == ReplyStatus::Fail) == (self.data is Message)
    }

    /// The answer is a failure with code `code` and message `text`.
    pub open spec fn is_failure(&self, code: u16, text: Seq<char>) -> bool {
        &&& self.code == code
        &&& self.status == ReplyStatus::Fail
        &&& self.data matches ReplyData::Message(m) && m@ == text
    }

    /// A failure answer with code `code` and message `text`.
    pub fn failure(code: u16, text: &str) -> (reply: ApiReply<T>)
        requires
            code != 200,
        ensures
            reply.is_failure(code, text@),
            reply.well_formed(),
    {
        ApiReply { code, status: ReplyStatus::Fail, data: ReplyData::Message(String::from_str(text)) }
    }

    /// A success answer carrying `payload`.
    pub fn success(payload: T) -> (reply: ApiReply<T>)
        ensures
            reply.code == 200,
            reply.status == ReplyStatus::Success,
            reply.data == ReplyData::Payload(payload),
            reply.well_formed(),
    {
        ApiReply { code: 200, status: ReplyStatus::Success, data: ReplyData::Payload(payload) }
    }

    /// The answer to a database failure about item `item_id`: 404 with the item's
    /// id when it does not exist, 500 otherwise.
    pub fn database_failure(item_id: i32, error: &DbError) -> (reply: ApiReply<T>)
        ensures
            error is NotFound ==> reply.is_failure(404, missing_item_text(item_id)),
            !(error is NotFound) ==> reply.is_failure(500, generic_failure_text()),
            reply.well_formed(),
    {
        if error.is_not_found() {
            let mut text = String::from_str("API: Could not find item with id ");
            let id = render_i32(item_id);
            text.append(id.as_str());
            ApiReply { code: 404, status: ReplyStatus::Fail, data: ReplyData::Message(text) }
        } else {
            ApiReply::failure(500, "API: Something went wrong")
        }
    }
}

/// Which items a listing fetches.
#[derive(Debug)]
pub enum ItemsSelection {
    /// The active items, newest first.
    Active { limit: i32, offset: i32 },
    /// The active items of the category named `name`, newest first.
    Category { name: String, limit: i32, offset: i32 },
}

/// The page size of a listing that names none.
pub open spec fn default_limit() -> i32 {
    25
}

/// Decides which items a listing fetches: without a category, or with the
/// category `all`, the active items; otherwise those of the named category.
/// The page starts at `offset` (0 by default) and holds `limit` items (25 by default).
pub fn select_items(query: &GetItemQuery) -> (selection: ItemsSelection)
    ensures
        ({
            let limit = match query.limit {
                Some(l) => l,
                None => default_limit(),
            };
            let offset = match query.offset {
                Some(o) => o,
                None => 0,
            };
            match query.category {
                Some(name) if name@ != "all"@ => selection matches ItemsSelection::Category {
                    name: n,
                    limit: l,
                    offset: o,
                } && n@ == name@ && l == limit && o == offset,
                _ => selection == (ItemsSelection::Active { limit, offset }),
            }
        }),
        query.limit is None ==> match selection {
            ItemsSelection::Active { limit, .. } => limit == 25,
            ItemsSelection::Category { limit, .. } => limit == 25,
        },
{
    let offset = match query.offset {
        Some(o) => o,
        None => 0,
    };
    let limit = match query.limit {
        Some(l) => l,
        None => 25,
    };
    match &query.category {
        Some(name) => {
            let all = String::from_str("all");
            if *name == all {
                ItemsSelection::Active { limit, offset }
            } else {
                ItemsSelection::Category { name: name.clone(), limit, offset }
            }
        },
        None => ItemsSelection::Active { limit, offset },
    }
}

/// The answer when the named category does not parse: 400 `API: Invalid category`.
pub fn invalid_category_reply<T>() -> (reply: ApiReply<T>)
    ensures
        reply.is_failure(400, "API: Invalid category"@),
        reply.well_formed(),
{
    ApiReply::failure(400, "API: Invalid category")
}

/// The answer to a listing: the items, or 500 when the database failed.
pub fn items_reply<T>(fetched: Result<T, DbError>) -> (reply: ApiReply<T>)
    ensures
        match fetched {
            Ok(items) => reply == ApiReply::<T> {
                code: 200,
                status: ReplyStatus::Success,
                data: ReplyData::Payload(items),
            },
            Err(_) => reply.is_failure(500, generic_failure_text()),
        },
        reply.well_formed(),
{
    match fetched {
        Ok(items) => ApiReply::success(items),
        Err(_) => ApiReply::failure(500, "API: Something went wrong"),
    }
}

/// The answer to fetching item `item_id`: the item; 404 naming the id when it
/// does not exist; 500 when the database failed otherwise.
pub fn item_reply<T>(item_id: i32, fetched: Result<T, DbError>) -> (reply: ApiReply<T>)
    ensures
        match fetched {
            Ok(item) => reply == ApiReply::<T> {
                code: 200,
                status: ReplyStatus::Success,
                data: ReplyData::Payload(item),
            },
            Err(error) => if error is NotFound {
                reply.is_failure(404, missing_item_text(item_id))
            } else {
                reply.is_failure(500, generic_failure_text())
            },
        },
        reply.well_formed(),
{
    match fetched {
        Ok(item) => ApiReply::success(item),
        Err(error) => ApiReply::database_failure(item_id, &error),
    }
}

/// How a request to change an item's status goes on after the item was fetched.
#[derive(Debug)]
pub enum StatusChange {
    /// The request is answered now.
    Answer(ApiReply<()>),
    /// The requested status, still to be parsed.
    Parse(String),
}

/// Decides on a request by user `user_id` to change an item's status, given the
/// owner of the item as fetched and the status the request names. A user who
/// does not own the item gets 401 `API: Unauthorized`. A failed fetch does not
/// stop the request. A request naming no status gets 400 `API: Missing status`;
/// otherwise the named status is to be parsed.
pub fn status_change(user_id: i32, owner: Result<i32, DbError>, requested: Option<String>) -> (change: StatusChange)
    ensures
        match owner {
            Ok(owner_id) if owner_id != user_id => change matches StatusChange::Answer(reply)
                && reply.is_failure(401, "API: Unauthorized"@),
            _ => match requested {
                None => change matches StatusChange::Answer(reply) && reply.is_failure(
                    400,
                    "API: Missing status"@,
                ),
                Some(status) => change == StatusChange::Parse(status),
            },
        },
        change matches StatusChange::Answer(reply) ==> reply.well_formed(),
{
    match owner {
        Ok(owner_id) => {
            if owner_id != user_id {
                return StatusChange::Answer(ApiReply::failure(401, "API: Unauthorized"));
            }
        },
        Err(_) => {},
    }
    match requested {
        None => StatusChange::Answer(ApiReply::failure(400, "API: Missing status")),
        Some(status) => StatusChange::Parse(status),
    }
}

/// The answer when the named status does not parse: 400 `API: Invalid status`.
pub fn invalid_status_reply<T>() -> (reply: ApiReply<T>)
    ensures
        reply.is_failure(400, "API: Invalid status"@),
        reply.well_formed(),
{
    ApiReply::failure(400, "API: Invalid status")
}

/// The answer to updating the status of item `item_id`: success with no payload;
/// 404 naming the id when it does not exist; 500 otherwise.
pub fn status_update_reply(item_id: i32, updated: Result<(), DbError>) -> (reply: ApiReply<()>)
    ensures
        match updated {
            Ok(()) => reply == ApiReply::<()> {
                code: 200,
                status: ReplyStatus::Success,
                data: ReplyData::Nothing,
            },
            Err(error) => if error is NotFound {
                reply.is_failure(404, missing_item_text(item_id))
            } else {
                reply.is_failure(500, generic_failure_text())
            },
        },
        reply.well_formed(),
{
    match updated {
        Ok(()) => ApiReply { code: 200, status: ReplyStatus::Success, data: ReplyData::Nothing },
        Err(error) => ApiReply::database_failure(item_id, &error),
    }
}

/// Decides whether a new item may be created, in the order the checks are made:
/// an empty name gets 400 `API: Missing name`, a category that did not parse 400
/// `API: Invalid category`, a price that is not positive 400 `API: Invalid price`.
/// `None` lets the item be inserted.
pub fn new_item_refusal(name: &String, category_parsed: bool, price_positive: bool) -> (refusal: Option<ApiReply<i32>>)
    ensures
        match refusal {
            Some(reply) => reply.well_formed() && if name@.len() == 0 {
                reply.is_failure(400, "API: Missing name"@)
            } else if !category_parsed {
                reply.is_failure(400, "API: Invalid category"@)
            } else {
                !price_positive && reply.is_failure(400, "API: Invalid price"@)
            },
            None => name@.len() != 0 && category_parsed && price_positive,
        },
{
    if name.as_str().is_empty() {
        Some(ApiReply::failure(400, "API: Missing name"))
    } else if !category_parsed {
        Some(invalid_category_reply())
    } else if !price_positive {
        Some(ApiReply::failure(400, "API: Invalid price"))
    } else {
        None
    }
}

/// The answer to inserting an item: the new item's id, or 500 when the database failed.
pub fn created_item_reply(inserted: Result<i32, DbError>) -> (reply: ApiReply<i32>)
    ensures
        match inserted {
            Ok(id) => reply == ApiReply::<i32> {
                code: 200,
                status: ReplyStatus::Success,
                data: ReplyData::Payload(id),
            },
            Err(_) => reply.is_failure(500, generic_failure_text()),
        },
        reply.well_formed(),
{
    items_reply(inserted)
}

/// The failure messages of the item routes: a missing item is named by the
/// decimal text of its id, after a fixed lead, and that text reads back as the id;
/// every other database failure gets one fixed message; and a listing without a
/// limit holds 25 items.
pub proof fn law_item_failure_texts(item_id: i32)
    ensures
        ({
            let lead = "API: Could not find item with id "@;
            let text = missing_item_text(item_id);
            let id_text = text.subrange(lead.len() as int, text.len() as int);
            &&& text.subrange(0, lead.len() as int) == lead
            &&& id_text == decimal(item_id as int)
            &&& item_id >= 0 ==> read_digits(id_text) == item_id
            &&& item_id < 0 ==> id_text[0] == '-' && read_digits(id_text.drop_first()) == -item_id
        }),
        generic_failure_text() == "API: Something went wrong"@,
        default_limit() == 25,
{
    let lead = "API: Could not find item with id "@;
    let text = missing_item_text(item_id);
    assert(text.subrange(0, lead.len() as int) =~= lead);
    assert(text.subrange(lead.len() as int, text.len() as int) =~= decimal(item_id as int));
    law_decimal_reads_back(item_id as int);
}

} // verus!
