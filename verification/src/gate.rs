//! The authentication gate: from request headers to an identity or a
//! rejection.

use crate::codec::{
    decoded, has_three_parts, reason_of, unix_now, verify_at, verify_spec, User, VerifyError,
    VerifyFailure, CLOCK_END, SHARED_SECRET,
};
use crate::fields::{find_header, header_value, second_field, second_word};
use vstd::prelude::*;
use vstd::string::*;

verus! {

/// Why a request was turned away. Its model is the reason text.
#[derive(Debug, Clone, PartialEq, Eq)]
pub struct Rejection {
    pub reason: String,
}

impl View for Rejection {
    type V = Seq<char>;

    open spec fn view(&self) -> Seq<char> {
        self.reason@
    }
}

/// The reason given where the request carries no token.
pub open spec fn no_token() -> Seq<char> {
    "No token provided"@
}

/// The name of the header that carries the token.
pub open spec fn authorization() -> Seq<char> {
    "authorization"@
}

/// Model of a gate result: the subject's email, or the reason of the
/// rejection.
pub open spec fn admission(result: Result<User, Rejection>) -> Result<Seq<char>, Seq<char>> {
    match result {
        Ok(user) => Ok(user@),
        Err(rejection) => Err(rejection@),
    }
}

/// What authentication makes of the value of the authorization header at second
/// `now`: without a header, or without a second field in it, there is no
/// token; else the second field is verified, whatever the first field says,
/// and a failure is rejected with its reason.
pub open spec fn gate_spec(header: Option<Seq<char>>, now: int, secret: Seq<u8>) -> Result<
    Seq<char>,
    Seq<char>,
> {
    match header {
        None => Err(no_token()),
        Some(line) => match second_field(line) {
            None => Err(no_token()),
            Some(token) => match verify_spec(decoded(token, secret), now) {
                Ok(email) => Ok(email),
                Err(failure) => Err(reason_of(failure)),
            },
        },
    }
}

/// The token that a request carries: the second field of its authorization
/// header.
pub open spec fn bearer_of(headers: Seq<(String, String)>) -> Option<Seq<char>> {
    match header_value(headers, authorization()) {
        None => None,
        Some(line) => second_field(line),
    }
}

/// The bearer token in the value of an authorization header: its second
/// white-space-delimited field. The scheme in front of it is not looked at.
pub fn bearer_token(line: &str) -> (token: Option<&str>)
    ensures
        match token {
            Some(t) => second_field(line@) == Some(t@),
            None => second_field(line@) is None,
        },
{
    second_word(line)
}

/// The rejection that a verification result calls for, or the identity.
pub fn decide(verified: Result<User, VerifyError>) -> (result: Result<User, Rejection>)
    ensures
        match verified {
            Ok(user) => result == Ok::<User, Rejection>(user),
            Err(e) => admission(result) == Err::<Seq<char>, Seq<char>>(reason_of(e@)),
        },
{
    match verified {
        Ok(user) => Ok(user),
        Err(e) => Err(Rejection { reason: e.message() }),
    }
}

/// Authenticates a request by its headers at second `now`, against `secret`.
pub fn authenticate_at(headers: &Vec<(String, String)>, now: i64, secret: &[u8]) -> (result: Result<
    User,
    Rejection,
>)
    ensures
        admission(result) == gate_spec(
            header_value(headers@, authorization()),
            now as int,
            secret@,
        ),
        bearer_of(headers@) matches Some(token) && !has_three_parts(token) ==> admission(result)
            == Err::<Seq<char>, Seq<char>>(reason_of(VerifyFailure::Malformed)),
{
    match find_header(headers, "authorization") {
        None => Err(Rejection { reason: String::from_str("No token provided") }),
        Some(line) => match bearer_token(line) {
            None => Err(Rejection { reason: String::from_str("No token provided") }),
            Some(token) => decide(verify_at(token, now, secret)),
        },
    }
}

/// Authenticates a request by its headers now, against the shared secret:
/// for the second that the clock gave, the result is that of
/// `authenticate_at`. A request without an authorization header, or without a
/// second field in it, is rejected for want of a token whatever the clock
/// says.
pub fn authenticate(headers: &Vec<(String, String)>) -> (result: Result<User, Rejection>)
    ensures
        exists|now: i64|
            0 <= now < CLOCK_END && admission(result) == #[trigger] gate_spec(
                header_value(headers@, authorization()),
                now as int,
                SHARED_SECRET.spec_bytes(),
            ),
        bearer_of(headers@) is None ==> admission(result) == Err::<Seq<char>, Seq<char>>(no_token()),
        bearer_of(headers@) matches Some(token) && !has_three_parts(token) ==> admission(result)
            == Err::<Seq<char>, Seq<char>>(reason_of(VerifyFailure::Malformed)),
{
    let now = unix_now();
    let result = authenticate_at(headers, now, SHARED_SECRET.as_bytes());
    assert(admission(result) == gate_spec(
        header_value(headers@, authorization()),
        now as int,
        SHARED_SECRET.spec_bytes(),
    ));
    result
}

} // verus!
