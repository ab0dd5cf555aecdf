use blog_api::clock::current_timestamp;
use blog_api::error::{ErrorSource, ForeignError};
use blog_api::jwt::claims_to_json;
use blog_api::logging::{access_line, enabled, log_line, LogLevel};
use blog_api::models::{AuthUser, Post, PostCreateDto, Role, Token, User, UserDto};
use blog_api::posts::{check_author, new_post_id, page_window};
use blog_api::status::StatusCode;
use blog_api::text::{decimal_string, split_whitespace};

#[test]
fn get_posts_tests() {
    let user = AuthUser::new_at("Vadim123", 0);
    let mut store: Vec<Post> = Vec::new();
    for _ in 0..55 {
        let post_create_dto = PostCreateDto::new(Option::None, Option::Some("Body".to_owned()));
        store.push(Post::new(post_create_dto, user.username.clone()));
    }
    let (limit, offset) = page_window(0, 5);
    let posts: Vec<&Post> = store.iter().skip(offset).take(limit).collect();
    println!("Posts: {:?}", posts);
    println!("Posts: {}", posts.len());
    assert_eq!(posts.len(), 5);
    assert_eq!(page_window(3, 5), (5, 15));
}

#[test]
fn constructors() {
    let dto = PostCreateDto::new(Some("T".to_string()), None);
    let post = Post::new(dto, "me".to_string());
    assert_eq!(post.get_username(), "me");
    assert_eq!(post.title.as_deref(), Some("T"));
    assert!(post.body.is_none());

    let user = User::new("u", "p");
    assert_eq!(user.username, "u");
    assert_eq!(user.pass, "p");
    assert!(user.roles.is_empty());
    assert_eq!(user.info.surname, "");

    let dto = UserDto::new("u", "p");
    assert_eq!(dto.username, "u");
    assert_eq!(dto.pass, "p");

    let token = Token::new("abc".to_string());
    assert_eq!(token.get(), "abc");
}

#[test]
fn auth_user_expires_after_a_week() {
    let u = AuthUser::new_at("Vadim", 1000);
    assert_eq!(u.exp, 1000 + 604800);
    assert!(u.roles.is_empty());
    let now = current_timestamp() as usize;
    let u = AuthUser::new("Vadim").unwrap();
    assert!(u.exp >= now + 604800);
    assert_eq!(u.username, "Vadim");
}

#[test]
fn claims_json_text() {
    let u = AuthUser::new_at("Vadim", 0);
    assert_eq!(claims_to_json(&u), "{\"username\":\"Vadim\",\"roles\":[],\"exp\":604800}");
    let u = AuthUser::from_parts("a\"b".to_string(), vec![Role::Admin, Role::Author], 7);
    assert_eq!(claims_to_json(&u), "{\"username\":\"a\\\"b\",\"roles\":[\"Admin\",\"Author\"],\"exp\":7}");
}

#[test]
fn check_author_cases() {
    let author = AuthUser::new_at("ann", 0);
    let own = Post::new(PostCreateDto::new(None, None), "ann".to_string());
    assert!(check_author(&author, Ok(own)).is_ok());

    let other = Post::new(PostCreateDto::new(None, None), "bob".to_string());
    let e = check_author(&author, Ok(other)).unwrap_err();
    assert_eq!(e.status_code().as_u16(), 500);
    assert_eq!(e.to_string(), "403 Forbidden");

    let e = check_author(&author, Err(ForeignError::new(ErrorSource::Database, "gone"))).unwrap_err();
    assert_eq!(e.status_code().as_u16(), 500);
    assert_eq!(e.to_string(), "gone");
    assert!(e.is(ErrorSource::Database));
}

#[test]
fn post_ids_are_random_uuids() {
    let a = new_post_id();
    let b = new_post_id();
    assert_eq!(a.len(), 36);
    assert_eq!(&a[14..15], "4");
    assert_eq!(&a[8..9], "-");
    assert_ne!(a, b);
}

#[test]
fn split_whitespace_matches_std() {
    for s in ["", "  ", "a", " a  b\tc\n", "x\u{3000}y\u{a0}z", "Bearer tok"] {
        let expected: Vec<String> = s.split_whitespace().map(|w| w.to_string()).collect();
        assert_eq!(split_whitespace(s), expected);
    }
}

#[test]
fn decimal_numerals() {
    assert_eq!(decimal_string(0), "0");
    assert_eq!(decimal_string(604800), "604800");
    assert_eq!(decimal_string(usize::MAX), usize::MAX.to_string());
}

#[test]
fn logging_lines() {
    assert!(enabled(LogLevel::Info));
    assert!(enabled(LogLevel::Error));
    assert!(!enabled(LogLevel::Debug));
    assert_eq!(log_line(LogLevel::Info, "hello"), "INFO - hello \n");
    assert_eq!(access_line("GET", "/post", StatusCode::ok()), "GET /post 200 OK");
}

#[test]
fn issued_at_cases() {
    let u = AuthUser::issued_at("Vadim", 10).unwrap();
    assert_eq!(u.exp, 10 + 604800);
    assert_eq!(u.username, "Vadim");
    let last = blog_api::clock::MAX_TIMESTAMP - blog_api::clock::ONE_WEEK;
    assert!(AuthUser::issued_at("Vadim", last).is_some());
    assert!(AuthUser::issued_at("Vadim", last + 1).is_none());
}
