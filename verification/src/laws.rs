//! What holds of token verification and request authentication, proved from
//! their models.

use crate::codec::{
    decoded, issue_spec, reason_of, signed, verify_spec, DecodedModel, IssueFailure, VerifyFailure,
    CLOCK_END, TTL_SECONDS,
};
use crate::fields::{
    header_value, is_gap, is_space, is_word, lemma_second_of_two_words,
    lemma_single_word_has_no_second_field, second_field,
};
use crate::gate::{authorization, gate_spec, no_token};
use vstd::prelude::*;

verus! {

/// Whether the decoder reads back from `token` the claims `email` and `exp`.
pub open spec fn carries(token: Seq<char>, email: Seq<char>, exp: int, secret: Seq<u8>) -> bool {
    decoded(token, secret) == (DecodedModel::Payload { email: Some(email), exp: Some(exp) })
}

/// Round trip. A token issued to `email` at second `issued_at`, from which
/// the decoder reads back the claims that were signed into it, verifies to
/// `email` at every second before its expiry.
pub proof fn lemma_issued_token_verifies(
    email: Seq<char>,
    issued_at: int,
    now: int,
    secret: Seq<u8>,
    token: Seq<char>,
)
    requires
        issue_spec(email, issued_at, secret) == Ok::<Seq<char>, IssueFailure>(token),
        carries(token, email, issued_at + TTL_SECONDS, secret),
        now < issued_at + TTL_SECONDS,
    ensures
        signed(email, issued_at + TTL_SECONDS, secret) == Ok::<Seq<char>, Seq<char>>(token),
        verify_spec(decoded(token, secret), now) == Ok::<Seq<char>, VerifyFailure>(email),
{
}

/// Within the clock's range issuance does not fail for the clock's sake: the
/// result is what signing gives.
pub proof fn lemma_clock_range_fits(email: Seq<char>, issued_at: int, secret: Seq<u8>)
    requires
        0 <= issued_at < CLOCK_END,
    ensures
        issue_spec(email, issued_at, secret) != Err::<Seq<char>, IssueFailure>(
            IssueFailure::ClockOutOfRange,
        ),
        issue_spec(email, issued_at, secret) is Ok <==> signed(
            email,
            issued_at + TTL_SECONDS,
            secret,
        ) is Ok,
{
}

/// Expiry boundary. A token that carries the expiry of an issuance at second
/// `issued_at` verifies up to the last second before `issued_at + TTL_SECONDS`
/// and is expired from that second on, with no leeway.
pub proof fn lemma_expiry_boundary(
    token: Seq<char>,
    email: Seq<char>,
    issued_at: int,
    now: int,
    secret: Seq<u8>,
)
    requires
        carries(token, email, issued_at + TTL_SECONDS, secret),
    ensures
        now < issued_at + 60 ==> verify_spec(decoded(token, secret), now) == Ok::<
            Seq<char>,
            VerifyFailure,
        >(email),
        now >= issued_at + 60 ==> verify_spec(decoded(token, secret), now) == Err::<
            Seq<char>,
            VerifyFailure,
        >(VerifyFailure::Expired),
{
}

/// Verification yields an identity only for a token that decodes to a payload
/// with both claims, and then the identity is the payload's email.
pub proof fn lemma_identity_comes_from_payload(outcome: DecodedModel, now: int, email: Seq<char>)
    requires
        verify_spec(outcome, now) == Ok::<Seq<char>, VerifyFailure>(email),
    ensures
        outcome matches DecodedModel::Payload { email: Some(e), exp: Some(x) } && e == email && now
            < x,
{
}

/// A token whose signature the decoder refuses fails with `BadSignature` at
/// every second, and a request that carries it is rejected with that reason.
pub proof fn lemma_bad_signature_is_rejected(
    line: Seq<char>,
    token: Seq<char>,
    now: int,
    secret: Seq<u8>,
)
    requires
        decoded(token, secret) == DecodedModel::BadSignature,
        second_field(line) == Some(token),
    ensures
        verify_spec(decoded(token, secret), now) == Err::<Seq<char>, VerifyFailure>(
            VerifyFailure::BadSignature,
        ),
        gate_spec(Some(line), now, secret) == Err::<Seq<char>, Seq<char>>(
            reason_of(VerifyFailure::BadSignature),
        ),
{
}

/// A request without an authorization header, or with one that has no white
/// space in it (a scheme and nothing else), is rejected for want of a token.
pub proof fn lemma_no_token(headers: Seq<(String, String)>, now: int, secret: Seq<u8>)
    requires
        header_value(headers, authorization()) matches Some(line) ==> forall|i: int|
            0 <= i < line.len() ==> !is_space(#[trigger] line[i]),
    ensures
        gate_spec(header_value(headers, authorization()), now, secret) == Err::<
            Seq<char>,
            Seq<char>,
        >(no_token()),
{
    match header_value(headers, authorization()) {
        Some(line) => lemma_single_word_has_no_second_field(line),
        None => {},
    }
}

/// A header line made of a scheme, white space and a token is treated as the
/// token alone is by verification, whatever the scheme says.
pub proof fn lemma_scheme_is_not_looked_at(
    scheme: Seq<char>,
    gap: Seq<char>,
    token: Seq<char>,
    now: int,
    secret: Seq<u8>,
)
    requires
        is_word(scheme),
        is_gap(gap),
        is_word(token),
    ensures
        second_field(scheme + gap + token) == Some(token),
        gate_spec(Some(scheme + gap + token), now, secret) == match verify_spec(
            decoded(token, secret),
            now,
        ) {
            Ok(email) => Ok::<Seq<char>, Seq<char>>(email),
            Err(failure) => Err(reason_of(failure)),
        },
{
    lemma_second_of_two_words(scheme, gap, token, Seq::empty());
    assert(scheme + gap + token + Seq::<char>::empty() =~= scheme + gap + token);
}

/// From issuance to admission. A request whose authorization header holds a
/// scheme and a token issued to `email` at second `issued_at`, from which the
/// decoder reads back the claims that were signed into it, is let through as
/// `email` at every second before the token's expiry, and rejected as expired
/// from then on.
pub proof fn lemma_issued_token_opens(
    headers: Seq<(String, String)>,
    scheme: Seq<char>,
    gap: Seq<char>,
    token: Seq<char>,
    email: Seq<char>,
    issued_at: int,
    now: int,
    secret: Seq<u8>,
)
    requires
        issue_spec(email, issued_at, secret) == Ok::<Seq<char>, IssueFailure>(token),
        carries(token, email, issued_at + TTL_SECONDS, secret),
        is_word(scheme),
        is_gap(gap),
        is_word(token),
        header_value(headers, authorization()) == Some(scheme + gap + token),
    ensures
        now < issued_at + TTL_SECONDS ==> gate_spec(
            header_value(headers, authorization()),
            now,
            secret,
        ) == Ok::<Seq<char>, Seq<char>>(email),
        now >= issued_at + TTL_SECONDS ==> gate_spec(
            header_value(headers, authorization()),
            now,
            secret,
        ) == Err::<Seq<char>, Seq<char>>(reason_of(VerifyFailure::Expired)),
{
    lemma_scheme_is_not_looked_at(scheme, gap, token, now, secret);
}

/// A request is let through exactly when verification of its bearer
/// token succeeds, and with the identity that verification gave.
pub proof fn lemma_gate_follows_codec(line: Seq<char>, now: int, secret: Seq<u8>, email: Seq<char>)
    ensures
        gate_spec(Some(line), now, secret) == Ok::<Seq<char>, Seq<char>>(email) <==> (second_field(
            line,
        ) matches Some(token) && verify_spec(decoded(token, secret), now) == Ok::<
            Seq<char>,
            VerifyFailure,
        >(email)),
{
}

} // verus!
