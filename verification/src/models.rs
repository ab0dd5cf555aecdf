//! The records of the service: users, their credentials and claims, posts
//! and issued tokens.

use vstd::prelude::*;

use crate::clock::{current_timestamp, MAX_TIMESTAMP, ONE_WEEK};

verus! {

/// What a client sends to create a post.
#[derive(Debug)]
pub struct PostCreateDto {
    pub title: Option<String>,
    pub body: Option<String>,
}

/// The view of an optional string.
pub open spec fn opt_view(s: Option<String>) -> Option<Seq<char>> {
    match s {
        Some(t) => Some(t@),
        None => None,
    }
}

impl PostCreateDto {
    pub fn new(title: Option<String>, body: Option<String>) -> (dto: PostCreateDto)
        ensures
            opt_view(dto.title) == opt_view(title),
            opt_view(dto.body) == opt_view(body),
    {
        PostCreateDto { title, body }
    }
}

/// A post and the name of its author.
#[derive(Debug, Clone)]
pub struct Post {
    pub username: String,
    pub title: Option<String>,
    pub body: Option<String>,
}

impl Post {
    /// The post that `username` writes from `dto`.
    pub fn new(dto: PostCreateDto, username: String) -> (post: Post)
        ensures
            post.username@ == username@,
            opt_view(post.title) == opt_view(dto.title),
            opt_view(post.body) == opt_view(dto.body),
    {
        let PostCreateDto { title, body } = dto;
        Post { username, title, body }
    }

    /// The name of the author.
    pub fn get_username(&self) -> (name: &String)
        ensures
            name@ == self.username@,
    {
        &self.username
    }
}

/// A role that a user may hold.
#[derive(Clone, Copy, Debug, PartialEq, Eq, Structural)]
pub enum Role {
    Admin,
    Moderator,
    Author,
}

/// The claims that a token carries: who the user is, the user's roles and
/// when the token expires (Unix seconds).
#[derive(Debug, Clone)]
pub struct AuthUser {
    pub username: String,
    pub roles: Vec<Role>,
    pub exp: usize,
}

/// When a token issued at `now` expires: one week later.
pub open spec fn expiry(now: i64) -> usize {
    (now + ONE_WEEK) as usize
}

impl AuthUser {
    /// The claims for `username`, issued at `now`: no roles, expiring one week later.
    pub fn new_at(username: &str, now: i64) -> (user: AuthUser)
        requires
            0 <= now <= MAX_TIMESTAMP - ONE_WEEK,
        ensures
            user.username@ == username@,
            user.roles@ == Seq::<Role>::empty(),
            user.exp == expiry(now),
    {
        AuthUser {
            username: username.to_string(),
            roles: Vec::new(),
            exp: (now + ONE_WEEK) as usize,
        }
    }

    /// The claims for `username`, issued now. `None` only when the clock is
    /// within a week of the last time `chrono` can represent, where adding a
    /// week overflows.
    pub fn new(username: &str) -> (user: Option<AuthUser>)
        ensures
            user matches Some(u) ==> u.username@ == username@ && u.roles@ == Seq::<Role>::empty()
                && exists|now: i64| 0 <= now <= MAX_TIMESTAMP - ONE_WEEK && u.exp == expiry(now),
    {
        let now = current_timestamp();
        AuthUser::issued_at(username, now)
    }

    /// The claims for `username`, issued at `now` as the clock reads it:
    /// `None` exactly when `now` lies within a week of the last time `chrono`
    /// can represent, where adding a week overflows.
    pub fn issued_at(username: &str, now: i64) -> (user: Option<AuthUser>)
        requires
            0 <= now <= MAX_TIMESTAMP,
        ensures
            user is Some <==> now <= MAX_TIMESTAMP - ONE_WEEK,
            user matches Some(u) ==> u.username@ == username@ && u.roles@ == Seq::<Role>::empty()
                && u.exp == expiry(now),
    {
        if now <= MAX_TIMESTAMP - ONE_WEEK {
            Some(AuthUser::new_at(username, now))
        } else {
            None
        }
    }

    /// Claims with the given fields, as a decoder yields them.
    pub fn from_parts(username: String, roles: Vec<Role>, exp: usize) -> (user: AuthUser)
        ensures
            user.username@ == username@,
            user.roles@ == roles@,
            user.exp == exp,
    {
        AuthUser { username, roles, exp }
    }
}

/// Personal details of a user.
#[derive(Debug, Clone)]
pub struct UserInfo {
    pub name: String,
    pub surname: String,
}

impl UserInfo {
    /// Empty details.
    pub fn empty() -> (info: UserInfo)
        ensures
            info.name@ == Seq::<char>::empty(),
            info.surname@ == Seq::<char>::empty(),
    {
        UserInfo { name: String::new(), surname: String::new() }
    }
}

/// A stored account; `pass` holds the digest of the password.
#[derive(Debug, Clone)]
pub struct User {
    pub username: String,
    pub pass: String,
    pub info: UserInfo,
    pub roles: Vec<Role>,
}

impl User {
    /// A new account with empty details and no roles.
    pub fn new(username: &str, pass: &str) -> (user: User)
        ensures
            user.username@ == username@,
            user.pass@ == pass@,
            user.info.name@ == Seq::<char>::empty(),
            user.info.surname@ == Seq::<char>::empty(),
            user.roles@ == Seq::<Role>::empty(),
    {
        User {
            username: username.to_string(),
            pass: pass.to_string(),
            info: UserInfo::empty(),
            roles: Vec::new(),
        }
    }
}

/// The credentials that a client sends to sign up or log in.
#[derive(Debug, Clone)]
pub struct UserDto {
    pub username: String,
    pub pass: String,
}

/// The credentials of a sign-up or log-in request.
pub type UserCredentialsDto = UserDto;

impl UserDto {
    pub fn new(username: &str, pass: &str) -> (dto: UserDto)
        ensures
            dto.username@ == username@,
            dto.pass@ == pass@,
    {
        UserDto { username: username.to_string(), pass: pass.to_string() }
    }
}

/// A bearer token handed to a client.
#[derive(Debug, Clone)]
pub struct Token {
    token: String,
}

impl View for Token {
    type V = Seq<char>;

    closed spec fn view(&self) -> Seq<char> {
        self.token@
    }
}

impl Token {
    pub fn new(token: String) -> (t: Token)
        ensures
            t@ == token@,
    {
        Token { token }
    }

    /// The text of the token.
    pub fn get(&self) -> (s: &str)
        ensures
            s@ == self@,
    {
        self.token.as_str()
    }
}

} // verus!
