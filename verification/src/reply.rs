//! What is answered to a request: a status and the envelope's content, for a
//! front-end to render.

use crate::codec::{issue_reason_of, IssueError, User};
use crate::gate::Rejection;
use vstd::prelude::*;
use vstd::string::*;

verus! {

/// Status of an answered request.
pub const STATUS_OK: u16 = 200;

/// Status of a request that was not authenticated.
pub const STATUS_UNAUTHORIZED: u16 = 401;

/// Status of a request that failed for no fault of the client.
pub const STATUS_INTERNAL_ERROR: u16 = 500;

/// What the envelope carries under `data`.
#[derive(Debug, Clone, PartialEq, Eq)]
pub enum Data {
    /// `{ "message": .. }`
    Message(String),
    /// `{ "token": .. }`
    Token(String),
    /// The identity, as `{ "email": .. }`.
    Identity(User),
}

/// Model of `Data`.
pub enum DataModel {
    Message(Seq<char>),
    Token(Seq<char>),
    Identity(Seq<char>),
}

impl View for Data {
    type V = DataModel;

    open spec fn view(&self) -> DataModel {
        match self {
            Data::Message(text) => DataModel::Message(text@),
            Data::Token(token) => DataModel::Token(token@),
            Data::Identity(user) => DataModel::Identity(user@),
        }
    }
}

/// An answer: the status, and the envelope `{ "success": .., "data": .. }`.
#[derive(Debug, Clone, PartialEq, Eq)]
pub struct Reply {
    pub status: u16,
    pub success: bool,
    pub data: Data,
}

/// The text shown to everybody.
pub open spec fn public_message() -> Seq<char> {
    "This data is visible to all users"@
}

/// The answer of the public view.
pub fn public_reply() -> (reply: Reply)
    ensures
        reply.status == STATUS_OK,
        reply.success,
        reply.data@ == DataModel::Message(public_message()),
{
    Reply {
        status: STATUS_OK,
        success: true,
        data: Data::Message(String::from_str("This data is visible to all users")),
    }
}

/// The answer to a request for a token: the token, or, as an internal
/// error, the text of the failure.
pub fn token_reply(issued: Result<String, IssueError>) -> (reply: Reply)
    ensures
        match issued {
            Ok(token) => reply.status == STATUS_OK && reply.success && reply.data@
                == DataModel::Token(token@),
            Err(e) => reply.status == STATUS_INTERNAL_ERROR && !reply.success && reply.data@
                == DataModel::Message(issue_reason_of(e@)),
        },
{
    match issued {
        Ok(token) => Reply { status: STATUS_OK, success: true, data: Data::Token(token) },
        Err(e) => Reply {
            status: STATUS_INTERNAL_ERROR,
            success: false,
            data: Data::Message(e.message()),
        },
    }
}

/// The answer to a rejected request: unauthorized, with the reason.
pub fn rejection_reply(rejection: Rejection) -> (reply: Reply)
    ensures
        reply.status == STATUS_UNAUTHORIZED,
        !reply.success,
        reply.data@ == DataModel::Message(rejection@),
{
    Reply { status: STATUS_UNAUTHORIZED, success: false, data: Data::Message(rejection.reason) }
}

/// The answer of the secret view: the identity of an authenticated request,
/// or the answer to a rejected one.
pub fn secret_reply(authenticated: Result<User, Rejection>) -> (reply: Reply)
    ensures
        match authenticated {
            Ok(user) => reply.status == STATUS_OK && reply.success && reply.data@
                == DataModel::Identity(user@),
            Err(rejection) => reply.status == STATUS_UNAUTHORIZED && !reply.success && reply.data@
                == DataModel::Message(rejection@),
        },
{
    match authenticated {
        Ok(user) => Reply { status: STATUS_OK, success: true, data: Data::Identity(user) },
        Err(rejection) => rejection_reply(rejection),
    }
}

} // verus!
