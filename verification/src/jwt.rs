//! Bearer tokens: the JSON of the claims, and HS256 tokens made and checked
//! by `jsonwebtoken`.

use vstd::prelude::*;

use crate::error::{ErrorSource, ForeignError};
use crate::models::{AuthUser, Role};
use crate::text::{decimal, decimal_string, json_string, to_json_string};

verus! {

#[verifier::external_type_specification]
#[verifier::external_body]
pub struct ExJwtError(jsonwebtoken::errors::Error);

/// The token that `jsonwebtoken::encode` makes with the default header
/// (HS256) for the claims written as the JSON text `claims`, signed with
/// the bytes of `secret`.
pub uninterp spec fn jwt_hs256(claims: Seq<char>, secret: Seq<char>) -> Seq<char>;

/// How a role is written in JSON: its name in quotes.
pub open spec fn role_json(r: Role) -> Seq<char> {
    match r {
        Role::Admin => "\"Admin\""@,
        Role::Moderator => "\"Moderator\""@,
        Role::Author => "\"Author\""@,
    }
}

/// The JSON array of the roles, without spaces.
pub open spec fn roles_json_items(roles: Seq<Role>) -> Seq<char>
    decreases roles.len(),
{
    if roles.len() == 0 {
        seq![]
    } else if roles.len() == 1 {
        role_json(roles[0])
    } else {
        roles_json_items(roles.drop_last()) + ","@ + role_json(roles.last())
    }
}

/// The JSON text of claims, as `serde_json` writes `AuthUser`: the fields
/// in order, no white space.
pub open spec fn claims_json(username: Seq<char>, roles: Seq<Role>, exp: nat) -> Seq<char> {
    "{\"username\":"@ + json_string(username) + ",\"roles\":["@ + roles_json_items(roles)
        + "],\"exp\":"@ + decimal(exp) + "}"@
}

fn role_json_text(r: Role) -> (s: &'static str)
    ensures
        s@ == role_json(r),
{
    match r {
        Role::Admin => "\"Admin\"",
        Role::Moderator => "\"Moderator\"",
        Role::Author => "\"Author\"",
    }
}

/// The JSON text of the claims of `user`.
pub fn claims_to_json(user: &AuthUser) -> (json: String)
    ensures
        json@ == claims_json(user.username@, user.roles@, user.exp as nat),
{
    let mut out = String::from_str("{\"username\":");
    let name = to_json_string(user.username.as_str());
    out.append(name.as_str());
    out.append(",\"roles\":[");
    let ghost prefix = out@;
    let mut i: usize = 0;
    while i < user.roles.len()
        invariant
            i <= user.roles.len(),
            out@ == prefix + roles_json_items(user.roles@.take(i as int)),
        decreases user.roles.len() - i,
    {
        proof {
            assert(user.roles@.take(i + 1).drop_last() =~= user.roles@.take(i as int));
            assert(user.roles@.take(i + 1).last() == user.roles@[i as int]);
        }
        if i > 0 {
            out.append(",");
        }
        out.append(role_json_text(user.roles[i]));
        proof {
            if i == 0 {
                assert(user.roles@.take(0) =~= Seq::<Role>::empty());
                assert(out@ =~= prefix + roles_json_items(user.roles@.take(1)));
            } else {
                assert(out@ =~= prefix + roles_json_items(user.roles@.take(i + 1)));
            }
        }
        i = i + 1;
    }
    proof {
        assert(user.roles@.take(user.roles.len() as int) =~= user.roles@);
    }
    out.append("],\"exp\":");
    let digits = decimal_string(user.exp);
    out.append(digits.as_str());
    out.append("}");
    proof {
        assert(out@ =~= claims_json(user.username@, user.roles@, user.exp as nat));
    }
    out
}

/// Whether `text` is the JSON text of some claims, as [`claims_json`]
/// writes them: valid JSON that starts with `{` and ends with `}`.
pub open spec fn is_claims_text(text: Seq<char>) -> bool {
    exists|username: Seq<char>, roles: Seq<Role>, exp: nat|
        #[trigger] claims_json(username, roles, exp) == text
}

/// What the signature check of `jsonwebtoken::decode` makes of `token`
/// under the bytes of `secret`: `Some` of the claims part as JSON text when
/// the header names HS256, the HMAC-SHA256 signature of the first two parts
/// under the secret equals the third part, and the claims part decodes to
/// JSON; `None` otherwise. A function of the token and the secret alone; the
/// clock plays no part in it.
pub uninterp spec fn jwt_verified_claims(token: Seq<char>, secret: Seq<char>) -> Option<Seq<char>>;

/// `jsonwebtoken::encode` (jsonwebtoken 9.3.1, `encoding.rs`) with the
/// default header (`{"typ":"JWT","alg":"HS256"}`), the JSON text `claims`
/// as the claims (through `serde_json::value::RawValue::from_string`, which
/// keeps the text as it is) and `EncodingKey::from_secret` of the bytes of
/// `secret`. Key and header are both HMAC, so `encode` fails only where
/// `RawValue::from_string` refuses text that is not JSON; claims text never
/// is refused. The payload of the token is the claims text itself, base64url
/// encoded, so the signature check under the same secret gives the claims
/// text back.
#[verifier::external_body]
fn encode_hs256(claims: &str, secret: &str) -> (token: Result<String, jsonwebtoken::errors::Error>)
    ensures
        token matches Ok(t) ==> t@ == jwt_hs256(claims@, secret@),
        is_claims_text(claims@) ==> token is Ok,
        token matches Ok(t) ==> (is_claims_text(claims@) ==> jwt_verified_claims(t@, secret@) == Some(claims@)),
{
    let raw = serde_json::value::RawValue::from_string(claims.to_string())?;
    jsonwebtoken::encode(
        &jsonwebtoken::Header::default(),
        &raw,
        &jsonwebtoken::EncodingKey::from_secret(secret.as_bytes()),
    )
}

/// `jsonwebtoken::decode` (jsonwebtoken 9.3.1, `decoding.rs`) with
/// `Validation::default()` (HS256, `exp` required and not past, give or take
/// a minute) and `DecodingKey::from_secret` of the bytes of `secret`, keeping
/// the claims as JSON text. It succeeds only when the signature check
/// passes, and then gives the claims that check read; whether the `exp`
/// check passes depends on the clock and is not stated.
#[verifier::external_body]
fn decode_hs256(token: &str, secret: &str) -> (claims: Result<String, jsonwebtoken::errors::Error>)
    ensures
        claims matches Ok(c) ==> jwt_verified_claims(token@, secret@) == Some(c@),
{
    let data = jsonwebtoken::decode::<Box<serde_json::value::RawValue>>(
        token,
        &jsonwebtoken::DecodingKey::from_secret(secret.as_bytes()),
        &jsonwebtoken::Validation::default(),
    )?;
    Ok(data.claims.get().to_string())
}

/// The `Display` text of a `jsonwebtoken` error; not stated.
#[verifier::external_body]
fn jwt_error_text(error: &jsonwebtoken::errors::Error) -> String {
    error.to_string()
}

fn jwt_failure(error: jsonwebtoken::errors::Error) -> (e: ForeignError)
    ensures
        e.source == ErrorSource::Jwt,
{
    ForeignError { source: ErrorSource::Jwt, text: jwt_error_text(&error) }
}

/// The HS256 token for the claims of `user`, signed with `secret`; the
/// signature check under the same secret gives the claims back.
pub fn encode_claims(user: &AuthUser, secret: &str) -> (token: Result<String, ForeignError>)
    ensures
        token matches Ok(t) && t@ == jwt_hs256(
            claims_json(user.username@, user.roles@, user.exp as nat),
            secret@,
        ) && jwt_verified_claims(t@, secret@) == Some(
            claims_json(user.username@, user.roles@, user.exp as nat),
        ),
{
    let claims = claims_to_json(user);
    proof {
        assert(is_claims_text(claims@));
    }
    match encode_hs256(claims.as_str(), secret) {
        Ok(t) => Ok(t),
        Err(e) => Err(jwt_failure(e)),
    }
}

/// The JSON text of the claims of `token`, when it is an HS256 token signed
/// with `secret` whose claims hold an `exp` that has not passed.
pub fn decode_claims(token: &str, secret: &str) -> (claims: Result<String, ForeignError>)
    ensures
        claims matches Ok(c) ==> jwt_verified_claims(token@, secret@) == Some(c@),
        claims matches Err(e) ==> e.source == ErrorSource::Jwt,
{
    match decode_hs256(token, secret) {
        Ok(c) => Ok(c),
        Err(e) => Err(jwt_failure(e)),
    }
}

} // verus!
