//! Sign-up, log-in and the bearer-token check of protected routes.
//!
//! The database, the environment and background tasks stay with the caller:
//! each function here takes what they gave back as plain values and decides
//! what the route answers.

use vstd::prelude::*;

use crate::clock::{MAX_TIMESTAMP, ONE_WEEK};
use crate::digest::{hash_password, pretty_sha512};
use crate::error::{
    context_view, from_foreign_view, message_view, strings_view, with_status_view, ErrorSource,
    ForeignError, RouteError, RouteErrorView,
};
use crate::jwt::{claims_json, decode_claims, encode_claims, jwt_hs256, jwt_verified_claims};
use crate::models::{expiry, AuthUser, Role, Token, User, UserDto};
use crate::status::StatusCode;
use crate::text::{ascii_chars, header_value_text, is_visible_ascii, no_white_space, split_whitespace, words_of, words_of_two};

verus! {

/// The claims JSON of a token issued to `username` at `now`.
pub open spec fn fresh_claims(username: Seq<char>, now: i64) -> Seq<char> {
    claims_json(username, Seq::<Role>::empty(), expiry(now) as nat)
}

// ---------------------------------------------------------------- sign-up

/// The account that sign-up stores: the name and the digest of the password.
/// `hashed` is what the background task that computes the digest gave back.
pub fn signup_user(credentials: &UserDto, hashed: Result<String, ForeignError>) -> (user: Result<User, RouteError>)
    ensures
        hashed matches Ok(h) ==> (user matches Ok(u) && u.username@ == credentials.username@
            && u.pass@ == h@ && u.roles@ == Seq::<Role>::empty()),
        hashed is Err ==> (user matches Err(e) && e@ == message_view(404, "Page not found."@)),
{
    match hashed {
        Ok(h) => Ok(User::new(credentials.username.as_str(), h.as_str())),
        Err(_) => Err(RouteError::with_status("Page not found.", StatusCode::not_found())),
    }
}

/// The digest that sign-up stores for `credentials`, and the account.
pub fn signup_record(credentials: &UserDto) -> (user: User)
    ensures
        user.username@ == credentials.username@,
        user.pass@ == pretty_sha512(credentials.pass@),
        user.roles@ == Seq::<Role>::empty(),
{
    let h = hash_password(credentials.pass.as_str());
    User::new(credentials.username.as_str(), h.as_str())
}

/// What sign-up answers before a token is encoded, given whether the account
/// was stored and what the environment gave for the secret.
pub open spec fn signup_check(created: Result<(), ForeignError>, secret: Result<String, ForeignError>) -> Result<(), RouteErrorView> {
    match created {
        Err(e) => Err(context_view(from_foreign_view(e), "Failed to create user"@)),
        Ok(()) => match secret {
            Err(e) => Err(from_foreign_view(e)),
            Ok(_) => Ok(()),
        },
    }
}

/// The token that sign-up hands out for `username`, once the account is
/// stored (`created`) and the secret read (`secret`), at time `now`.
pub fn signup_token(
    created: Result<(), ForeignError>,
    username: &str,
    secret: Result<String, ForeignError>,
    now: i64,
) -> (token: Result<Token, RouteError>)
    requires
        signup_check(created, secret) is Ok ==> 0 <= now <= MAX_TIMESTAMP - ONE_WEEK,
    ensures
        signup_check(created, secret) matches Err(v) ==> (token matches Err(e) && e@ == v),
        signup_check(created, secret) is Ok ==> (token matches Ok(t)
            && t@ == jwt_hs256(fresh_claims(username@, now), secret->Ok_0@)
            && jwt_verified_claims(t@, secret->Ok_0@) == Some(fresh_claims(username@, now))),
{
    match created {
        Err(e) => {
            let mut err = RouteError::from_foreign(e).context("Failed to create user");
            err.set_status_code(StatusCode::internal_server_error());
            return Err(err);
        },
        Ok(()) => {},
    }
    let secret = match secret {
        Err(e) => {
            return Err(RouteError::from_foreign(e));
        },
        Ok(s) => s,
    };
    let claims = AuthUser::new_at(username, now);
    signup_token_outcome(encode_claims(&claims, secret.as_str()))
}

/// What sign-up answers once the token was encoded, or not.
pub fn signup_token_outcome(encoded: Result<String, ForeignError>) -> (token: Result<Token, RouteError>)
    ensures
        encoded matches Ok(t) ==> (token matches Ok(k) && k@ == t@),
        encoded is Err ==> (token matches Err(e) && e@ == message_view(500, "Failed to encode token."@)),
{
    match encoded {
        Ok(t) => Ok(Token::new(t)),
        Err(_) => Err(RouteError::with_status("Failed to encode token.", StatusCode::internal_server_error())),
    }
}

// ----------------------------------------------------------------- log-in

/// What log-in answers before a token is encoded, given what the database
/// gave for the user, the password sent and the secret.
pub open spec fn login_check(
    stored: Result<Option<User>, ForeignError>,
    pass: Seq<char>,
    secret: Result<String, ForeignError>,
) -> Result<(), RouteErrorView> {
    match stored {
        Err(_) => Err(message_view(500, " Failed to get user"@)),
        Ok(None) => Err(message_view(404, "User not found"@)),
        Ok(Some(user)) => match secret {
            Err(e) => Err(from_foreign_view(e)),
            Ok(_) => if user.pass@ == pretty_sha512(pass) {
                Ok(())
            } else {
                Err(message_view(401, "Incorrect password"@))
            },
        },
    }
}

/// Log-in: checks the password sent against the stored digest and hands out
/// a token issued at `now`. `stored` is what the database gave for the name.
pub fn login(
    stored: Result<Option<User>, ForeignError>,
    credentials: &UserDto,
    secret: Result<String, ForeignError>,
    now: i64,
) -> (token: Result<Token, RouteError>)
    requires
        login_check(stored, credentials.pass@, secret) is Ok ==> 0 <= now <= MAX_TIMESTAMP - ONE_WEEK,
    ensures
        login_check(stored, credentials.pass@, secret) matches Err(v) ==> (token matches Err(e) && e@ == v),
        login_check(stored, credentials.pass@, secret) is Ok ==> (token matches Ok(t)
            && t@ == jwt_hs256(fresh_claims(credentials.username@, now), secret->Ok_0@)
            && jwt_verified_claims(t@, secret->Ok_0@) == Some(fresh_claims(credentials.username@, now))),
{
    let user = match stored {
        Err(_) => {
            return Err(RouteError::with_status(" Failed to get user", StatusCode::internal_server_error()));
        },
        Ok(None) => {
            return Err(RouteError::with_status("User not found", StatusCode::not_found()));
        },
        Ok(Some(u)) => u,
    };
    let hashed = hash_password(credentials.pass.as_str());
    let secret = match secret {
        Err(e) => {
            return Err(RouteError::from_foreign(e));
        },
        Ok(s) => s,
    };
    if user.pass != hashed {
        return Err(RouteError::with_status("Incorrect password", StatusCode::unauthorized()));
    }
    let claims = AuthUser::new_at(credentials.username.as_str(), now);
    login_token_outcome(encode_claims(&claims, secret.as_str()))
}

/// The error log-in answers when the token could not be encoded.
pub open spec fn login_encode_failure(f: ForeignError) -> RouteErrorView {
    with_status_view(context_view(from_foreign_view(f), "Failed to encode token."@), 500)
}

/// What log-in answers once the token was encoded, or not.
pub fn login_token_outcome(encoded: Result<String, ForeignError>) -> (token: Result<Token, RouteError>)
    ensures
        encoded matches Ok(t) ==> (token matches Ok(k) && k@ == t@),
        encoded matches Err(f) ==> (token matches Err(e) && e@ == login_encode_failure(f)),
{
    match encoded {
        Ok(t) => Ok(Token::new(t)),
        Err(f) => {
            let mut err = RouteError::from_foreign(f).context("Failed to encode token.");
            err.set_status_code(StatusCode::internal_server_error());
            Err(err)
        },
    }
}

// ------------------------------------------------------------ bearer token

/// What the token check makes of the `Authorization` header: the second of
/// exactly two words of a header that reads as text.
pub open spec fn bearer_token_spec(header: Option<Seq<u8>>) -> Result<Seq<char>, RouteErrorView> {
    match header {
        None => Err(message_view(401, "Auth header not found."@)),
        Some(bytes) => if !(forall|i: int| 0 <= i < bytes.len() ==> is_visible_ascii(#[trigger] bytes[i])) {
            Err(message_view(401, "Auth header not found."@))
        } else {
            let words = words_of(ascii_chars(bytes));
            if words.len() != 2 {
                Err(message_view(401, "Wrong parcing auth header."@))
            } else {
                Ok(words[1])
            }
        },
    }
}

/// The view of an optional byte slice.
pub open spec fn header_view(header: Option<&[u8]>) -> Option<Seq<u8>> {
    match header {
        Some(b) => Some(b@),
        None => None,
    }
}

/// The token in the `Authorization` header (`Bearer <token>`): the header
/// must be there, read as text and hold exactly two words.
pub fn bearer_token(header: Option<&[u8]>) -> (token: Result<String, RouteError>)
    ensures
        match bearer_token_spec(header_view(header)) {
            Ok(t) => token matches Ok(s) && s@ == t,
            Err(v) => token matches Err(e) && e@ == v,
        },
{
    let bytes = match header {
        None => {
            return Err(RouteError::with_status("Auth header not found.", StatusCode::unauthorized()));
        },
        Some(b) => b,
    };
    let text = match header_value_text(bytes) {
        None => {
            return Err(RouteError::with_status("Auth header not found.", StatusCode::unauthorized()));
        },
        Some(t) => t,
    };
    let words = split_whitespace(text.as_str());
    if words.len() != 2 {
        return Err(RouteError::with_status("Wrong parcing auth header.", StatusCode::unauthorized()));
    }
    let token = words[1].clone();
    proof {
        assert(strings_view(words@)[1] == words@[1]@);
    }
    Ok(token)
}

/// The claims (as JSON text) of a token, checked with the secret that the
/// environment gave.
pub fn authorize_current_user(token: &str, secret: Result<String, ForeignError>) -> (claims: Result<String, RouteError>)
    ensures
        secret matches Err(e) ==> (claims matches Err(c) && c@ == from_foreign_view(e)),
        secret is Ok ==> match claims {
            Ok(c) => jwt_verified_claims(token@, secret->Ok_0@) == Some(c@),
            Err(c) => exists|f: ForeignError|
                f.source == ErrorSource::Jwt && c@ == context_view(from_foreign_view(f), "Wrong decoding token."@),
        },
{
    let secret = match secret {
        Err(e) => {
            return Err(RouteError::from_foreign(e));
        },
        Ok(s) => s,
    };
    decoded_claims_outcome(decode_claims(token, secret.as_str()))
}

/// What the claims check answers once the token was decoded, or not.
pub fn decoded_claims_outcome(decoded: Result<String, ForeignError>) -> (claims: Result<String, RouteError>)
    ensures
        decoded matches Ok(c) ==> (claims matches Ok(k) && k@ == c@),
        decoded matches Err(f) ==> (claims matches Err(e)
            && e@ == context_view(from_foreign_view(f), "Wrong decoding token."@)),
{
    match decoded {
        Ok(c) => Ok(c),
        Err(f) => Err(RouteError::from_foreign(f).context("Wrong decoding token.")),
    }
}

/// What the claims check answers once the claims text was read as a user:
/// the user, or, where the claims are not those of a user, the error the
/// decoder gives wrapped in "Wrong decoding token." (status 500), as for a
/// token that does not decode. `parsed` is what reading the claims gave.
pub fn accept_claims(parsed: Result<AuthUser, ForeignError>) -> (user: Result<AuthUser, RouteError>)
    ensures
        parsed matches Ok(u) ==> (user matches Ok(v) && v == u),
        parsed matches Err(f) ==> (user matches Err(e)
            && e@ == context_view(from_foreign_view(f), "Wrong decoding token."@)),
{
    match parsed {
        Ok(u) => Ok(u),
        Err(f) => Err(RouteError::from_foreign(f).context("Wrong decoding token.")),
    }
}

/// What the token check answers once the user was sought: the user, or
/// `401` "Can't extract user." whatever went wrong.
pub fn user_outcome<T>(authorized: Result<T, RouteError>) -> (user: Result<T, RouteError>)
    ensures
        authorized matches Ok(c) ==> (user matches Ok(u) && u == c),
        authorized is Err ==> (user matches Err(e) && e@ == message_view(401, "Can't extract user."@)),
{
    match authorized {
        Ok(c) => Ok(c),
        Err(_) => Err(RouteError::with_status("Can't extract user.", StatusCode::unauthorized())),
    }
}

/// The token check of protected routes: the claims (as JSON text) of the
/// bearer token in the `Authorization` header, checked with the secret.
pub fn authenticate(header: Option<&[u8]>, secret: Result<String, ForeignError>) -> (user: Result<String, RouteError>)
    ensures
        bearer_token_spec(header_view(header)) matches Err(v) ==> (user matches Err(e) && e@ == v),
        bearer_token_spec(header_view(header)) is Ok ==> match user {
            Ok(c) => secret is Ok && jwt_verified_claims(
                bearer_token_spec(header_view(header))->Ok_0,
                secret->Ok_0@,
            ) == Some(c@),
            Err(e) => e@ == message_view(401, "Can't extract user."@),
        },
{
    let token = bearer_token(header)?;
    user_outcome(authorize_current_user(token.as_str(), secret))
}

// ------------------------------------------------------------------- laws

/// A user who signed up logs in with the same password: once the account
/// that sign-up stores is found and the secret is there, the password check
/// passes.
pub proof fn login_after_signup(credentials: UserDto, stored: User, secret: String)
    requires
        stored.username@ == credentials.username@,
        stored.pass@ == pretty_sha512(credentials.pass@),
    ensures
        login_check(Ok(Some(stored)), credentials.pass@, Ok(secret)) == Ok::<(), RouteErrorView>(()),
{
}

/// A password whose digest differs from the stored one is refused with
/// `401` "Incorrect password".
pub proof fn login_wrong_password(stored: User, pass: Seq<char>, secret: String)
    requires
        stored.pass@ != pretty_sha512(pass),
    ensures
        login_check(Ok(Some(stored)), pass, Ok(secret)) == Err::<(), RouteErrorView>(
            message_view(401, "Incorrect password"@),
        ),
{
}

/// A token that sign-up or log-in issues (whose signature check gives its
/// fresh claims back) and that the claims check then accepts (whose result
/// is what the signature check gives) yields exactly the claims it was
/// issued for.
pub proof fn issued_token_gives_back_claims(
    token: Seq<char>,
    secret: Seq<char>,
    username: Seq<char>,
    now: i64,
    accepted: Seq<char>,
)
    requires
        jwt_verified_claims(token, secret) == Some(fresh_claims(username, now)),
        jwt_verified_claims(token, secret) == Some(accepted),
    ensures
        accepted == fresh_claims(username, now),
{
}

/// An account that could not be stored (a name already taken, say) is
/// answered with status 500 and "Failed to create user", whatever the secret.
pub proof fn signup_store_failure_refused(e: ForeignError, secret: Result<String, ForeignError>)
    ensures
        signup_check(Err(e), secret) matches Err(v) && v.status == 500
            && v.messages[0] == "Failed to create user"@ && v.source == e.source,
{
}

/// With the account stored but no secret, sign-up answers with the error of
/// the environment and status 500.
pub proof fn signup_missing_secret(e: ForeignError)
    ensures
        signup_check(Ok(()), Err(e)) == Err::<(), RouteErrorView>(from_foreign_view(e)),
        from_foreign_view(e).status == 500,
{
}

/// A header made of a scheme, one space and a token (neither empty, neither
/// holding white space) gives back exactly that token.
pub proof fn bearer_token_of_header(bytes: Seq<u8>, scheme: Seq<char>, token: Seq<char>)
    requires
        forall|i: int| 0 <= i < bytes.len() ==> is_visible_ascii(#[trigger] bytes[i]),
        ascii_chars(bytes) == scheme + seq![' '] + token,
        scheme.len() > 0,
        token.len() > 0,
        no_white_space(scheme),
        no_white_space(token),
    ensures
        bearer_token_spec(Some(bytes)) == Ok::<Seq<char>, RouteErrorView>(token),
{
    words_of_two(scheme, token);
}

} // verus!
