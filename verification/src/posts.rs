//! Posts: identifiers, authorship and pages.

use vstd::prelude::*;

use crate::error::{from_foreign_view, message_view, ForeignError, RouteError};
use crate::models::{AuthUser, Post};
use crate::status::{status_display, StatusCode};

verus! {

/// Whether `c` is a lower-case hexadecimal digit.
pub open spec fn is_lower_hex(c: char) -> bool {
    ('0' <= c && c <= '9') || ('a' <= c && c <= 'f')
}

/// Whether `s` is a UUID in hyphenated lower-case form
/// (`xxxxxxxx-xxxx-xxxx-xxxx-xxxxxxxxxxxx`).
pub open spec fn is_hyphenated_uuid(s: Seq<char>) -> bool {
    &&& s.len() == 36
    &&& forall|i: int|
        0 <= i < 36 ==> if i == 8 || i == 13 || i == 18 || i == 23 {
            #[trigger] s[i] == '-'
        } else {
            is_lower_hex(s[i])
        }
}

/// Whether `s` is the text of a random (version 4, RFC 4122 variant) UUID.
pub open spec fn is_random_uuid(s: Seq<char>) -> bool {
    &&& is_hyphenated_uuid(s)
    &&& s[14] == '4'
    &&& (s[19] == '8' || s[19] == '9' || s[19] == 'a' || s[19] == 'b')
}

/// `uuid::Uuid::new_v4().to_string()` (uuid 1.29.0, `src/v4.rs`, `src/fmt.rs`): a fresh random UUID in hyphenated
/// lower-case form, with the version and variant that `new_v4` sets. Which
/// one it is rests on chance.
#[verifier::external_body]
fn random_uuid_text() -> (s: String)
    ensures
        is_random_uuid(s@),
{
    uuid::Uuid::new_v4().to_string()
}

/// The identifier under which a new post is stored.
pub fn new_post_id() -> (id: String)
    ensures
        is_random_uuid(id@),
{
    random_uuid_text()
}

/// Whether `user` may change or delete a post: `post` is what the database
/// gave for it. A stored post of another author gives an error with status
/// 500 whose message is the text of `403 Forbidden`.
pub fn check_author(user: &AuthUser, post: Result<Post, ForeignError>) -> (r: Result<(), RouteError>)
    ensures
        post matches Err(e) ==> (r matches Err(x) && x@ == from_foreign_view(e)),
        post matches Ok(p) ==> (p.username@ == user.username@ <==> r is Ok),
        post matches Ok(p) ==> (p.username@ != user.username@ ==> (r matches Err(x)
            && x@ == message_view(500, status_display(403)))),
{
    let post = match post {
        Err(e) => {
            return Err(RouteError::from_foreign(e));
        },
        Ok(p) => p,
    };
    if *post.get_username() == user.username {
        Ok(())
    } else {
        let text = StatusCode::forbidden().to_string();
        Err(RouteError::msg(text.as_str()))
    }
}

/// The window of a page of posts: at most `per_page` posts, skipping the
/// `page` pages before it. The caller keeps the product within `usize`.
pub fn page_window(page: usize, per_page: usize) -> (window: (usize, usize))
    requires
        page * per_page <= usize::MAX,
    ensures
        window.0 == per_page,
        window.1 == page * per_page,
{
    let limit = per_page;
    let offset = page * limit;
    (limit, offset)
}

} // verus!
