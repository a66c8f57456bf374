//! The token codec: claims, issuance and verification.
//!
//! Signing, signature checking and payload decoding are done by the
//! `jsonwebtoken` crate. Everything that is decided here — the expiry of a new
//! token, the strict expiry comparison, the classification of failures — is
//! verified against the models below.

use jsonwebtoken::errors::ErrorKind;
use jsonwebtoken::{decode, encode, DecodingKey, EncodingKey, Header, Validation};
use serde_json::Value;
use vstd::prelude::*;
use vstd::string::*;

verus! {

/// Lifetime of a token, in seconds.
pub const TTL_SECONDS: i64 = 60;

/// The clock's seconds stay below this bound: two to the power of 31 days.
pub const CLOCK_END: i64 = 185_542_587_187_200;

/// The secret that `get_jwt` and `decode_jwt` sign and verify with.
pub const SHARED_SECRET: &'static str = "mykey";

/// The authenticated subject. Its model is the email address.
#[derive(Debug, Clone, PartialEq, Eq)]
pub struct User {
    email: String,
}

impl View for User {
    type V = Seq<char>;

    closed spec fn view(&self) -> Seq<char> {
        self.email@
    }
}

impl User {
    pub fn new(email: String) -> (user: User)
        ensures
            user@ == email@,
    {
        User { email }
    }

    pub fn email(&self) -> (email: &str)
        ensures
            email@ == self@,
    {
        self.email.as_str()
    }
}

/// The signed payload: the subject and the second at which the token stops
/// being valid.
#[derive(Debug, Clone, PartialEq, Eq)]
pub struct Claims {
    pub email: String,
    pub exp: i64,
}

impl Claims {
    /// The claims of a token issued to `user` at second `issued_at`: it expires
    /// `TTL_SECONDS` later. `None` exactly when that second does not fit in `i64`.
    pub fn issued(user: User, issued_at: i64) -> (claims: Option<Claims>)
        ensures
            claims is Some <==> issued_at + TTL_SECONDS <= i64::MAX,
            claims matches Some(c) ==> c.email@ == user@ && c.exp == issued_at + TTL_SECONDS,
    {
        if issued_at > i64::MAX - TTL_SECONDS {
            None
        } else {
            Some(Claims { email: user.email, exp: issued_at + TTL_SECONDS })
        }
    }
}

/// Why a token could not be issued.
#[derive(Debug, Clone, PartialEq, Eq)]
pub enum IssueError {
    /// The expiry second does not fit in `i64`.
    ClockOutOfRange,
    /// Serialising or signing failed; the text is the encoder's.
    Encoding(String),
}

/// Model of `IssueError`.
pub enum IssueFailure {
    ClockOutOfRange,
    Encoding(Seq<char>),
}

impl View for IssueError {
    type V = IssueFailure;

    open spec fn view(&self) -> IssueFailure {
        match self {
            IssueError::ClockOutOfRange => IssueFailure::ClockOutOfRange,
            IssueError::Encoding(text) => IssueFailure::Encoding(text@),
        }
    }
}

/// The text of an issuance failure.
pub open spec fn issue_reason_of(failure: IssueFailure) -> Seq<char> {
    match failure {
        IssueFailure::ClockOutOfRange => "expiry out of range"@,
        IssueFailure::Encoding(text) => text,
    }
}

impl IssueError {
    /// The failure, as text.
    pub fn message(&self) -> (text: String)
        ensures
            text@ == issue_reason_of(self@),
    {
        match self {
            IssueError::ClockOutOfRange => String::from_str("expiry out of range"),
            IssueError::Encoding(text) => text.clone(),
        }
    }
}

/// Why a token was not accepted.
#[derive(Debug, Clone, PartialEq, Eq)]
pub enum VerifyError {
    /// The string does not have the shape of a token.
    Malformed,
    /// The signature does not match header and payload.
    BadSignature,
    /// The current second is at or past the expiry.
    Expired,
    /// Any other decoding failure, with its reason.
    OtherDecodeError(String),
}

/// Model of `VerifyError`.
pub enum VerifyFailure {
    Malformed,
    BadSignature,
    Expired,
    OtherDecodeError(Seq<char>),
}

impl View for VerifyError {
    type V = VerifyFailure;

    open spec fn view(&self) -> VerifyFailure {
        match self {
            VerifyError::Malformed => VerifyFailure::Malformed,
            VerifyError::BadSignature => VerifyFailure::BadSignature,
            VerifyError::Expired => VerifyFailure::Expired,
            VerifyError::OtherDecodeError(text) => VerifyFailure::OtherDecodeError(text@),
        }
    }
}

/// The reason text of a verification failure.
pub open spec fn reason_of(failure: VerifyFailure) -> Seq<char> {
    match failure {
        VerifyFailure::Malformed => "InvalidToken"@,
        VerifyFailure::BadSignature => "InvalidSignature"@,
        VerifyFailure::Expired => "ExpiredSignature"@,
        VerifyFailure::OtherDecodeError(text) => text,
    }
}

impl VerifyError {
    /// The reason, as text.
    pub fn message(&self) -> (text: String)
        ensures
            text@ == reason_of(self@),
    {
        match self {
            VerifyError::Malformed => String::from_str("InvalidToken"),
            VerifyError::BadSignature => String::from_str("InvalidSignature"),
            VerifyError::Expired => String::from_str("ExpiredSignature"),
            VerifyError::OtherDecodeError(text) => text.clone(),
        }
    }
}

/// What signature checking and payload decoding made of a token string,
/// before any question of time.
#[derive(Debug, Clone, PartialEq, Eq)]
pub enum Decoded {
    /// The signature is good; the payload held these two claims, each `None`
    /// where it is absent or not of its type.
    Payload { email: Option<String>, exp: Option<i64> },
    /// The string does not have the shape of a token.
    Malformed,
    /// The signature does not match.
    BadSignature,
    /// Any other refusal, with the decoder's text.
    Failed { text: String },
}

/// Model of `Decoded`.
pub enum DecodedModel {
    Payload { email: Option<Seq<char>>, exp: Option<int> },
    Malformed,
    BadSignature,
    Failed { text: Seq<char> },
}

impl View for Decoded {
    type V = DecodedModel;

    open spec fn view(&self) -> DecodedModel {
        match self {
            Decoded::Payload { email, exp } => DecodedModel::Payload {
                email: match email {
                    Some(e) => Some(e@),
                    None => None,
                },
                exp: match exp {
                    Some(x) => Some(*x as int),
                    None => None,
                },
            },
            Decoded::Malformed => DecodedModel::Malformed,
            Decoded::BadSignature => DecodedModel::BadSignature,
            Decoded::Failed { text } => DecodedModel::Failed { text: text@ },
        }
    }
}

/// The token that HS256 signing of the claims `email`, `exp` under `secret`
/// gives, or the encoder's error text.
pub uninterp spec fn signed(email: Seq<char>, exp: int, secret: Seq<u8>) -> Result<Seq<char>, Seq<char>>;

/// What HS256 decoding of `token` under `secret` gives, expiry not looked at.
pub uninterp spec fn decoded(token: Seq<char>, secret: Seq<u8>) -> DecodedModel;

/// Whether `token` has the shape of a token: at least two dots, so that it
/// falls into header, payload and signature.
pub open spec fn has_three_parts(token: Seq<char>) -> bool {
    exists|i: int, j: int|
        0 <= i < j < token.len() && #[trigger] token[i] == '.' && #[trigger] token[j] == '.'
}

/// Calls `jsonwebtoken::encode` with the default header (HS256), a JSON object
/// of the two claims `email` and `exp`, and an HMAC key made of `secret`.
/// Trusted: the outcome is a function of the claims and the secret alone; it
/// is the token, or the text of the crate's error. With these arguments the
/// crate has no way to fail: the key and the header's algorithm are both of
/// the HMAC family, a header and an object of a string and an integer
/// serialise into memory without error, and HMAC signing returns no error.
#[verifier::external_body]
fn hs256_encode(claims: &Claims, secret: &[u8]) -> (token: Result<String, String>)
    ensures
        token is Ok,
        match token {
            Ok(t) => signed(claims.email@, claims.exp as int, secret@) == Ok::<Seq<char>, Seq<char>>(t@),
            Err(e) => signed(claims.email@, claims.exp as int, secret@) == Err::<Seq<char>, Seq<char>>(e@),
        },
{
    let mut payload = serde_json::Map::new();
    payload.insert(String::from("email"), Value::from(claims.email.as_str()));
    payload.insert(String::from("exp"), Value::from(claims.exp));
    match encode(&Header::default(), &payload, &EncodingKey::from_secret(secret)) {
        Ok(token) => Ok(token),
        Err(e) => Err(e.to_string()),
    }
}

/// Calls `jsonwebtoken::decode` with an HMAC key made of `secret` and the
/// default validation (HS256, `exp` required) with the crate's own expiry
/// check switched off, so that the crate does not read the clock. Trusted: the
/// outcome is a function of the token and the secret alone. The crate's `InvalidToken` and `InvalidSignature` are told
/// apart from its other errors, whose text is kept; of an accepted payload the
/// string under `email` and the integer under `exp` are handed out. The crate
/// reports `InvalidToken` in one place only, where splitting the token at its
/// last two dots fails: exactly for a token with fewer than two dots.
#[verifier::external_body]
fn hs256_decode(token: &str, secret: &[u8]) -> (outcome: Decoded)
    ensures
        outcome@ == decoded(token@, secret@),
        outcome@ is Malformed <==> !has_three_parts(token@),
{
    let mut rules = Validation::default();
    rules.validate_exp = false;
    match decode::<Value>(token, &DecodingKey::from_secret(secret), &rules) {
        Ok(data) => Decoded::Payload {
            email: data.claims.get("email").and_then(Value::as_str).map(String::from),
            exp: data.claims.get("exp").and_then(Value::as_i64),
        },
        Err(e) => match e.kind() {
            ErrorKind::InvalidToken => Decoded::Malformed,
            ErrorKind::InvalidSignature => Decoded::BadSignature,
            _ => Decoded::Failed { text: e.to_string() },
        },
    }
}

/// Calls `chrono::Utc::now` and takes its `timestamp`: the current second of
/// the Unix epoch. Trusted: the value is not negative, since `now` measures
/// the time elapsed since the epoch, and it is below `CLOCK_END`, since `now`
/// builds its date from a count of days that has to fit in `i32`. (On a
/// machine whose clock stands before the epoch or beyond that range the call
/// does not return.) Nothing else is claimed of the value.
#[verifier::external_body]
pub(crate) fn unix_now() -> (now: i64)
    ensures
        0 <= now < CLOCK_END,
{
    chrono::Utc::now().timestamp()
}

/// Model of an issuance result: the token, or the failure.
pub open spec fn issuance(result: Result<String, IssueError>) -> Result<Seq<char>, IssueFailure> {
    match result {
        Ok(token) => Ok(token@),
        Err(e) => Err(e@),
    }
}

/// Model of a verification result: the subject's email, or the failure.
pub open spec fn verdict(result: Result<User, VerifyError>) -> Result<Seq<char>, VerifyFailure> {
    match result {
        Ok(user) => Ok(user@),
        Err(e) => Err(e@),
    }
}

/// What issuing to `email` at second `issued_at` under `secret` gives.
pub open spec fn issue_spec(email: Seq<char>, issued_at: int, secret: Seq<u8>) -> Result<
    Seq<char>,
    IssueFailure,
> {
    if issued_at + TTL_SECONDS > i64::MAX {
        Err(IssueFailure::ClockOutOfRange)
    } else {
        match signed(email, issued_at + TTL_SECONDS, secret) {
            Ok(token) => Ok(token),
            Err(text) => Err(IssueFailure::Encoding(text)),
        }
    }
}

/// The reason given for a payload without a usable `email`. The words are
/// this library's, not the decoder's.
pub open spec fn unusable_email() -> Seq<char> {
    "claim `email` is absent or not a string"@
}

/// The reason given for a payload without a usable `exp`. The words are this
/// library's, not the decoder's.
pub open spec fn unusable_expiry() -> Seq<char> {
    "claim `exp` is absent or not an integer in range"@
}

/// What a decoded token amounts to at second `now`: failures of decoding pass
/// through; a payload needs both claims and is expired from its `exp` on.
pub open spec fn verify_spec(outcome: DecodedModel, now: int) -> Result<Seq<char>, VerifyFailure> {
    match outcome {
        DecodedModel::Malformed => Err(VerifyFailure::Malformed),
        DecodedModel::BadSignature => Err(VerifyFailure::BadSignature),
        DecodedModel::Failed { text } => Err(VerifyFailure::OtherDecodeError(text)),
        DecodedModel::Payload { email: None, exp } => Err(
            VerifyFailure::OtherDecodeError(unusable_email()),
        ),
        DecodedModel::Payload { email: Some(_), exp: None } => Err(
            VerifyFailure::OtherDecodeError(unusable_expiry()),
        ),
        DecodedModel::Payload { email: Some(email), exp: Some(exp) } => if now >= exp {
            Err(VerifyFailure::Expired)
        } else {
            Ok(email)
        },
    }
}

/// Decides on a decoded token at second `now`.
pub fn check_claims(outcome: Decoded, now: i64) -> (result: Result<User, VerifyError>)
    ensures
        verdict(result) == verify_spec(outcome@, now as int),
{
    match outcome {
        Decoded::Malformed => Err(VerifyError::Malformed),
        Decoded::BadSignature => Err(VerifyError::BadSignature),
        Decoded::Failed { text } => Err(VerifyError::OtherDecodeError(text)),
        Decoded::Payload { email: None, exp: _ } => Err(
            VerifyError::OtherDecodeError(
                String::from_str("claim `email` is absent or not a string"),
            ),
        ),
        Decoded::Payload { email: Some(_), exp: None } => Err(
            VerifyError::OtherDecodeError(
                String::from_str("claim `exp` is absent or not an integer in range"),
            ),
        ),
        Decoded::Payload { email: Some(email), exp: Some(exp) } => if now >= exp {
            Err(VerifyError::Expired)
        } else {
            Ok(User::new(email))
        },
    }
}

/// Issues a token to `user` at second `issued_at`, signed with `secret`. It
/// fails exactly when the expiry does not fit in `i64`.
pub fn issue_at(user: User, issued_at: i64, secret: &[u8]) -> (result: Result<String, IssueError>)
    ensures
        issuance(result) == issue_spec(user@, issued_at as int, secret@),
        result is Ok <==> issued_at + TTL_SECONDS <= i64::MAX,
        result is Err ==> issuance(result) == Err::<Seq<char>, IssueFailure>(
            IssueFailure::ClockOutOfRange,
        ),
{
    match Claims::issued(user, issued_at) {
        None => Err(IssueError::ClockOutOfRange),
        Some(claims) => match hs256_encode(&claims, secret) {
            Ok(token) => Ok(token),
            Err(text) => Err(IssueError::Encoding(text)),
        },
    }
}

/// Verifies `token` against `secret` at second `now`. A string is refused as
/// malformed exactly when it lacks the shape of a token.
pub fn verify_at(token: &str, now: i64, secret: &[u8]) -> (result: Result<User, VerifyError>)
    ensures
        verdict(result) == verify_spec(decoded(token@, secret@), now as int),
        verdict(result) == Err::<Seq<char>, VerifyFailure>(VerifyFailure::Malformed)
            <==> !has_three_parts(token@),
{
    check_claims(hs256_decode(token, secret), now)
}

/// Issues a token to `user` now, signed with the shared secret. It always
/// succeeds: the token is the one that signing the user's email and an expiry
/// `TTL_SECONDS` after some second of the clock's range gives.
pub fn get_jwt(user: User) -> (result: Result<String, IssueError>)
    ensures
        result is Ok,
        exists|issued_at: i64|
            0 <= issued_at < CLOCK_END && issuance(result) == #[trigger] issue_spec(
                user@,
                issued_at as int,
                SHARED_SECRET.spec_bytes(),
            ) && signed(user@, issued_at + TTL_SECONDS, SHARED_SECRET.spec_bytes()) == Ok::<
                Seq<char>,
                Seq<char>,
            >(result->Ok_0@),
{
    let ghost email = user@;
    let now = unix_now();
    let result = issue_at(user, now, SHARED_SECRET.as_bytes());
    assert(issuance(result) == issue_spec(email, now as int, SHARED_SECRET.spec_bytes()));
    result
}

/// Verifies `token` now, against the shared secret: for the second that the
/// clock gave, the result is that of `verify_at`. Whatever the clock says, a
/// string is refused as malformed exactly when it lacks the shape of a token,
/// every other failure of decoding is passed on, and a payload with both
/// claims gives its email or is expired: expired if its expiry is not after
/// the epoch, its email if its expiry is beyond the clock's range.
pub fn decode_jwt(token: &str) -> (result: Result<User, VerifyError>)
    ensures
        exists|now: i64|
            0 <= now < CLOCK_END && verdict(result) == #[trigger] verify_spec(
                decoded(token@, SHARED_SECRET.spec_bytes()),
                now as int,
            ),
        verdict(result) == Err::<Seq<char>, VerifyFailure>(VerifyFailure::Malformed)
            <==> !has_three_parts(token@),
        !(decoded(token@, SHARED_SECRET.spec_bytes()) matches DecodedModel::Payload {
            email: Some(_),
            exp: Some(_),
        }) ==> verdict(result) == verify_spec(decoded(token@, SHARED_SECRET.spec_bytes()), 0),
        decoded(token@, SHARED_SECRET.spec_bytes()) matches DecodedModel::Payload {
            email: Some(email),
            exp: Some(exp),
        } ==> {
            &&& exp <= 0 ==> verdict(result) == Err::<Seq<char>, VerifyFailure>(
                VerifyFailure::Expired,
            )
            &&& exp >= CLOCK_END ==> verdict(result) == Ok::<Seq<char>, VerifyFailure>(email)
            &&& verdict(result) == Ok::<Seq<char>, VerifyFailure>(email) || verdict(result) == Err::<
                Seq<char>,
                VerifyFailure,
            >(VerifyFailure::Expired)
        },
{
    let now = unix_now();
    let result = verify_at(token, now, SHARED_SECRET.as_bytes());
    assert(verdict(result) == verify_spec(
        decoded(token@, SHARED_SECRET.spec_bytes()),
        now as int,
    ));
    result
}

} // verus!
