//! The bodies and query strings of the service's requests, and the records it
//! answers with.

use vstd::prelude::*;
use vstd::utf8::encode_utf8;

verus! {

/// A new account.
#[derive(Debug)]
pub struct RegisterInput {
    pub username: String,
    pub email: String,
    pub first_name: String,
    pub last_name: String,
    pub phone: Option<String>,
    pub password: String,
}

/// Credentials to log in with.
#[derive(Debug)]
pub struct LoginInput {
    pub email: String,
    pub password: String,
}

/// Changes to a profile; absent fields stay as they are.
#[derive(Debug)]
pub struct UpdateProfileInput {
    pub first_name: Option<String>,
    pub last_name: Option<String>,
    pub phone: Option<String>,
}

/// A user as a search lists it.
#[derive(Debug)]
pub struct UserSearchResult {
    pub id: i32,
    pub username: String,
    pub email: String,
    pub first_name: String,
    pub last_name: String,
    pub is_active: bool,
}

/// A direct message sent over the request interface.
#[derive(Debug)]
pub struct CreateMessageInput {
    pub recipient_id: i32,
    pub content: String,
}

/// A new group and the users to put in it.
#[derive(Debug)]
pub struct CreateGroupInput {
    pub name: String,
    pub description: Option<String>,
    pub members: Vec<i32>,
}

/// The user a contact entry points to.
#[derive(Debug)]
pub struct ContactUser {
    pub username: String,
    pub email: String,
    pub first_name: String,
    pub last_name: String,
    pub is_active: bool,
}

/// A contact request, naming its target by username.
#[derive(Debug)]
pub struct ContactRequestInput {
    pub username: String,
}

/// How many messages of a chat's history are asked for by default.
pub const DEFAULT_HISTORY_LIMIT: i64 = 50;

/// The most messages of a chat's history one request may return.
pub const MAX_HISTORY_LIMIT: i64 = 100;

/// The paging of a chat history request.
#[derive(Debug)]
pub struct HistoryQuery {
    pub limit: Option<i64>,
    pub offset: Option<i64>,
}

/// The limit and offset a history request is served with.
pub open spec fn history_page(limit: Option<i64>, offset: Option<i64>) -> (i64, i64) {
    let l = match limit {
        Some(l) => l,
        None => DEFAULT_HISTORY_LIMIT,
    };
    (
        if l < MAX_HISTORY_LIMIT {
            l
        } else {
            MAX_HISTORY_LIMIT
        },
        match offset {
            Some(o) => o,
            None => 0,
        },
    )
}

impl HistoryQuery {
    /// The limit (defaulted, and capped at the maximum) and the offset
    /// (defaulting to zero) to read the history with.
    pub fn page(&self) -> (r: (i64, i64))
        ensures
            r == history_page(self.limit, self.offset),
    {
        let l = match self.limit {
            Some(l) => l,
            None => DEFAULT_HISTORY_LIMIT,
        };
        let limit = if l < MAX_HISTORY_LIMIT {
            l
        } else {
            MAX_HISTORY_LIMIT
        };
        let offset = match self.offset {
            Some(o) => o,
            None => 0,
        };
        (limit, offset)
    }
}

/// The shortest search text accepted, in bytes.
pub const MIN_SEARCH_LEN: usize = 3;

/// A user search.
#[derive(Debug)]
pub struct SearchQuery {
    pub q: String,
}

impl SearchQuery {
    /// The search text is long enough to run.
    pub fn is_long_enough(&self) -> (r: bool)
        ensures
            r == (encode_utf8(self.q@).len() as usize >= MIN_SEARCH_LEN),
    {
        self.q.as_str().len() >= MIN_SEARCH_LEN
    }
}

} // verus!
