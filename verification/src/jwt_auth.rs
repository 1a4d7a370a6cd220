//! Bearer tokens: signed JSON web tokens that carry one claim, `exp`, the
//! second after which the token is no longer valid.
//!
//! Signing, verification and the clock are `jsonwebtoken`'s. The functions
//! that call it are unverified and stand first; what is built on them is
//! verified against their contracts.

use crate::json::{json_object, json_unsigned, json_view, JsonValue};
use crate::strings::text;
use vstd::prelude::*;

verus! {

/// The token that `jsonwebtoken::encode` makes of a set of claims under the
/// default header, signed with the secret's bytes; `None` where it refuses.
pub uninterp spec fn jwt_encode(claims: JsonValue, secret: Seq<char>) -> Option<Seq<char>>;

/// `jsonwebtoken::encode` with `Header::default()` (HS256) and
/// `EncodingKey::from_secret` on the secret's bytes, with the error dropped.
/// The token depends on the claims and the secret alone and is named by
/// [`jwt_encode`].
#[verifier::external_body]
fn encode_claims(claims: &serde_json::Value, secret: &str) -> (token: Option<String>)
    ensures
        match token {
            Some(t) => jwt_encode(json_view(*claims), secret@) == Some(t@),
            None => jwt_encode(json_view(*claims), secret@) is None,
        },
{
    jsonwebtoken::encode(
        &jsonwebtoken::Header::default(),
        claims,
        &jsonwebtoken::EncodingKey::from_secret(secret.as_bytes()),
    ).ok()
}

/// Whether `jsonwebtoken::decode` accepts a token under the default
/// validation (HS256, `exp` required and not elapsed) and a key made of the
/// secret's bytes, when the clock that it reads stands at the second `now`.
pub uninterp spec fn jwt_accepts(token: Seq<char>, secret: Seq<char>, now: u64) -> bool;

/// `jsonwebtoken::decode` with `Validation::default()` and
/// `DecodingKey::from_secret` on the secret's bytes, the claims read as any
/// JSON document: whether it accepts the token. The call reads the clock
/// once, as [`current_timestamp`] does, and its answer depends on nothing
/// but the token, the secret and that reading: it is the answer that
/// [`jwt_accepts`] names, at some reading of the clock. A text without a dot
/// is refused before the clock is read.
#[verifier::external_body]
fn verify_claims(token: &str, secret: &str) -> (ok: bool)
    ensures
        exists|now: u64| ok == #[trigger] jwt_accepts(token@, secret@, now),
        !token@.contains('.') ==> !ok,
{
    jsonwebtoken::decode::<serde_json::Value>(
        token,
        &jsonwebtoken::DecodingKey::from_secret(secret.as_bytes()),
        &jsonwebtoken::Validation::default(),
    ).is_ok()
}

/// `jsonwebtoken::get_current_timestamp`: the seconds since the Unix epoch
/// by the system clock. Nothing is claimed of the value. The call panics
/// where the clock stands before the epoch.
#[verifier::external_body]
fn current_timestamp() -> (now: u64) {
    jsonwebtoken::get_current_timestamp()
}

/// The claims of a token that expires at the second `exp`.
pub open spec fn expiry_claims(exp: int) -> JsonValue {
    JsonValue::Object(map!["exp"@ => JsonValue::Int(exp)])
}

/// The token issued at the second `now` for the given lifetime: none where
/// the expiry would not fit in 64 bits.
pub open spec fn token_issued_at(secret: Seq<char>, now: u64, exp_offset: u64) -> Option<Seq<char>> {
    if now + exp_offset <= u64::MAX {
        jwt_encode(expiry_claims(now + exp_offset), secret)
    } else {
        None
    }
}

/// Signs a token that expires `exp_offset` seconds after `now`.
pub fn token_at(secret: &str, now: u64, exp_offset: u64) -> (token: Option<String>)
    ensures
        text(token) == token_issued_at(secret@, now, exp_offset),
{
    match now.checked_add(exp_offset) {
        None => None,
        Some(exp) => {
            let mut fields: Vec<(String, serde_json::Value)> = Vec::new();
            fields.push(("exp".to_owned(), json_unsigned(exp)));
            let claims = json_object(fields);
            proof {
                assert(fields@[0].0@ == "exp"@);
                assert(json_view(claims)->Object_0 =~= expiry_claims(exp as int)->Object_0);
            }
            encode_claims(&claims, secret)
        },
    }
}

/// Signs a token that expires `exp_offset` seconds from now. The result is
/// the token issued at some reading of the clock.
pub fn get_default_token(secret: &str, exp_offset: u64) -> (token: Option<String>)
    ensures
        exists|now: u64| text(token) == #[trigger] token_issued_at(secret@, now, exp_offset),
{
    let now = current_timestamp();
    token_at(secret, now, exp_offset)
}

/// What checking a token gives when the clock stands at the second `now`:
/// `Ok` where the token is accepted under the secret, `Err` where it is not.
pub open spec fn token_check_at(token: Seq<char>, secret: Seq<char>, now: u64) -> Result<(), ()> {
    if jwt_accepts(token, secret, now) {
        Ok(())
    } else {
        Err(())
    }
}

/// Checks a token against the secret and the clock: `Ok` where the
/// signature verifies and the token has not expired, `Err` on any error,
/// expiry or malformed input. The result is what the check of exactly this
/// token under exactly this secret gives at some reading of the clock; a
/// text without a dot is refused whatever the clock reads.
pub fn decode_default_token(token: &str, secret: &str) -> (res: Result<(), ()>)
    ensures
        exists|now: u64| res == #[trigger] token_check_at(token@, secret@, now),
        !token@.contains('.') ==> res is Err,
{
    let ok = verify_claims(token, secret);
    let ghost now = choose|now: u64| ok == #[trigger] jwt_accepts(token@, secret@, now);
    let res = if ok {
        Ok(())
    } else {
        Err(())
    };
    assert(res == token_check_at(token@, secret@, now));
    res
}

} // verus!
