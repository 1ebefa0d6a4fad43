//! What the admin endpoints answer, given what the database gave back.

use vstd::prelude::*;

use crate::models::{AdminStats, UserRecord};
use crate::models::{
    STATUS_BAD_REQUEST, STATUS_CREATED, STATUS_INTERNAL_SERVER_ERROR, STATUS_NO_CONTENT,
    STATUS_NOT_FOUND,
};

verus! {

/// The answer to the list of registered users: the users, or `500` with the
/// database's message.
pub fn list_users(users: Result<Vec<UserRecord>, String>) -> (reply: Result<
    Vec<UserRecord>,
    (u16, String),
>)
    ensures
        match users {
            Ok(v) => reply matches Ok(r) && r@ == v@,
            Err(e) => reply matches Err((code, m)) && code == STATUS_INTERNAL_SERVER_ERROR && m@
                == e@,
        },
{
    match users {
        Ok(v) => Ok(v),
        Err(e) => Err((STATUS_INTERNAL_SERVER_ERROR, e)),
    }
}

/// The answer to the creation of a user: `201` with the new user, or `400`
/// with the database's message (a taken name among others).
pub fn create_user(created: Result<UserRecord, String>) -> (reply: Result<
    (u16, UserRecord),
    (u16, String),
>)
    ensures
        match created {
            Ok(u) => reply matches Ok((code, r)) && code == STATUS_CREATED && r == u,
            Err(e) => reply matches Err((code, m)) && code == STATUS_BAD_REQUEST && m@ == e@,
        },
{
    match created {
        Ok(u) => Ok((STATUS_CREATED, u)),
        Err(e) => Err((STATUS_BAD_REQUEST, e)),
    }
}

/// The answer to the deletion of a user: `204` when a user was deleted,
/// `404` when no user had the id, `500` with the database's message when the
/// deletion failed.
pub fn delete_user(deleted: Result<bool, String>) -> (reply: Result<u16, (u16, String)>)
    ensures
        match deleted {
            Ok(true) => reply == Ok::<u16, (u16, String)>(STATUS_NO_CONTENT),
            Ok(false) => reply matches Err((code, m)) && code == STATUS_NOT_FOUND && m@
                == "User not found"@,
            Err(e) => reply matches Err((code, m)) && code == STATUS_INTERNAL_SERVER_ERROR && m@
                == e@,
        },
{
    match deleted {
        Ok(true) => Ok(STATUS_NO_CONTENT),
        Ok(false) => Err((STATUS_NOT_FOUND, String::from_str("User not found"))),
        Err(e) => Err((STATUS_INTERNAL_SERVER_ERROR, e)),
    }
}

/// The answer to the renewal of a user's token: the new token (which the
/// server sends as `{"token": ...}`), `404` when no user had the id, `500`
/// with the database's message when the renewal failed.
pub fn regenerate_token(renewed: Result<Option<String>, String>) -> (reply: Result<
    String,
    (u16, String),
>)
    ensures
        match renewed {
            Ok(Some(t)) => reply matches Ok(r) && r@ == t@,
            Ok(None) => reply matches Err((code, m)) && code == STATUS_NOT_FOUND && m@
                == "User not found"@,
            Err(e) => reply matches Err((code, m)) && code == STATUS_INTERNAL_SERVER_ERROR && m@
                == e@,
        },
{
    match renewed {
        Ok(Some(t)) => Ok(t),
        Ok(None) => Err((STATUS_NOT_FOUND, String::from_str("User not found"))),
        Err(e) => Err((STATUS_INTERNAL_SERVER_ERROR, e)),
    }
}

/// The answer to the admin statistics: the figures, or `500` with the
/// database's message.
pub fn stats(figures: Result<AdminStats, String>) -> (reply: Result<AdminStats, (u16, String)>)
    ensures
        match figures {
            Ok(s) => reply matches Ok(r) && r == s,
            Err(e) => reply matches Err((code, m)) && code == STATUS_INTERNAL_SERVER_ERROR && m@
                == e@,
        },
{
    match figures {
        Ok(s) => Ok(s),
        Err(e) => Err((STATUS_INTERNAL_SERVER_ERROR, e)),
    }
}

} // verus!
