use blog_api::error::{ensure, ErrorSource, ForeignError, RouteError, RouteResult, RouteResultContext};
use blog_api::status::StatusCode;

fn make_error() -> ForeignError {
    let kind = std::io::ErrorKind::NotFound;
    let io = std::io::Error::new(kind, "Not found");
    ForeignError::new(ErrorSource::Io, &io.to_string())
}

fn make_result() -> Result<(), ForeignError> {
    Err(make_error())
}

#[test]
fn with_status_code() {
    fn f() -> RouteResult<()> {
        make_result().status_code(StatusCode::not_found())?;
        Ok(())
    }

    let error = f().unwrap_err();
    assert_eq!(error.status_code().as_u16(), 404);
}

#[test]
fn with_context() {
    const TEST_CONTEXT: &str = "TEST CONTEXT";

    fn f() -> RouteResult<()> {
        make_result().context(TEST_CONTEXT)?;
        Ok(())
    }

    let error = f().unwrap_err();
    let error_text = error.to_string();
    assert_eq!(error_text, TEST_CONTEXT);
}

#[test]
fn with_context_and_status_code() {
    const TEST_CONTEXT: &str = "TEST CONTEXT";

    fn f1() -> RouteResult<()> {
        make_result()
            .status_code(StatusCode::not_found())
            .context(TEST_CONTEXT)?;
        Ok(())
    }

    fn f2() -> RouteResult<()> {
        make_result()
            .context(TEST_CONTEXT)
            .status_code(StatusCode::not_found())?;
        Ok(())
    }

    let error1 = f1().unwrap_err();
    let error2 = f2().unwrap_err();
    assert_eq!(error1.status_code().as_u16(), 404);
    assert_eq!(error2.status_code().as_u16(), 404);

    let error_text1 = error1.to_string();
    let error_text2 = error2.to_string();
    assert_eq!(error_text1, TEST_CONTEXT);
    assert_eq!(error_text2, TEST_CONTEXT);
}

#[test]
fn route_error_macro() {
    let error = RouteError::msg("TEXT");
    let error_text = error.to_string();
    assert_eq!(error_text, "TEXT");

    let error = RouteError::msg(&format!("TEXT {}", "format"));
    let error_text = error.to_string();
    assert_eq!(error_text, "TEXT format");

    let error = RouteError::from_foreign(make_error());
    assert_eq!(error.status_code().as_u16(), 500);
    assert!(error.downcast(ErrorSource::Io).is_ok());

    let error = RouteError::with_status("TEXT", StatusCode::not_found());
    assert_eq!(error.status_code().as_u16(), 404);
    let error_text = error.to_string();
    assert_eq!(error_text, "TEXT");

    let error = RouteError::with_status(&format!("TEXT {}", "format"), StatusCode::not_found());
    assert_eq!(error.status_code().as_u16(), 404);
    let error_text = error.to_string();
    assert_eq!(error_text, "TEXT format");

    let mut error = RouteError::from_foreign(make_error());
    error.set_status_code(StatusCode::not_found());
    assert_eq!(error.status_code().as_u16(), 404);
    assert!(error.downcast(ErrorSource::Io).is_ok());
}

#[test]
fn throw_macro() {
    fn f1() -> RouteResult<()> {
        return Err(RouteError::from_foreign(make_error()));
    }

    fn f2() -> RouteResult<()> {
        let mut error = RouteError::from_foreign(make_error());
        error.set_status_code(StatusCode::not_found());
        return Err(error);
    }

    let error1 = f1().unwrap_err();
    assert_eq!(error1.status_code().as_u16(), 500);
    assert!(error1.downcast(ErrorSource::Io).is_ok());

    let error2 = f2().unwrap_err();
    assert_eq!(error2.status_code().as_u16(), 404);
    assert!(error2.downcast(ErrorSource::Io).is_ok());
}

#[test]
fn ensure_macro() {
    fn f1(a: u32, b: u32) -> RouteResult<()> {
        ensure(a < b, "a < b is falsy")?;
        Ok(())
    }

    fn f2(a: u32, b: u32) -> RouteResult<()> {
        ensure(a < b, "a must be less than b")?;
        Ok(())
    }

    assert!(f1(1, 2).is_ok());
    assert!(f2(1, 2).is_ok());

    let error1 = f1(3, 2).unwrap_err();
    let error_text1 = error1.to_string();
    assert_eq!(error_text1, "a < b is falsy");

    let error2 = f2(3, 2).unwrap_err();
    let error_text2 = error2.to_string();
    assert_eq!(error_text2, "a must be less than b");
}

#[test]
fn context_keeps_status_and_root() {
    let mut error = RouteError::from_foreign(make_error());
    error.set_status_code(StatusCode::unauthorized());
    let error = error.context("outer");
    assert_eq!(error.status_code().as_u16(), 401);
    assert_eq!(error.to_string(), "outer");
    assert_eq!(error.messages(), vec!["outer".to_string(), "Not found".to_string()]);
    assert!(error.is(ErrorSource::Io));
    assert!(!error.is(ErrorSource::Jwt));
}

#[test]
fn downcast_gives_root_or_error_back() {
    let error = RouteError::from_foreign(make_error()).context("ctx");
    let wrong = error.downcast(ErrorSource::Database).unwrap_err();
    assert_eq!(wrong.to_string(), "ctx");
    let root = wrong.downcast(ErrorSource::Io).unwrap();
    assert_eq!(root.text, "Not found");
    assert_eq!(root.source, ErrorSource::Io);
    let error = RouteError::msg("m");
    assert!(error.downcast_ref(ErrorSource::Io).is_none());
    assert_eq!(error.downcast_ref(ErrorSource::Message).unwrap().text, "m");
}

#[test]
fn ok_results_pass_through() {
    let r: Result<u32, RouteError> = Ok(7);
    assert_eq!(r.context("c").status_code(StatusCode::not_found()).unwrap(), 7);
    let r: Result<u32, ForeignError> = Ok(8);
    assert_eq!(r.with_context(|| "never".to_string()).unwrap(), 8);
}

#[test]
fn with_context_calls_closure_on_error() {
    let e = make_result().with_context(|| format!("ctx {}", 1)).unwrap_err();
    assert_eq!(e.to_string(), "ctx 1");
    assert_eq!(e.status_code().as_u16(), 500);
    assert_eq!(e.messages(), vec!["ctx 1".to_string(), "Not found".to_string()]);
}

#[test]
fn response_body_is_json() {
    let e = RouteError::with_status("User \"x\" not found", StatusCode::not_found());
    assert_eq!(e.response_body(), "{\"message\":\"User \\\"x\\\" not found\",\"ok\":false}");
}

#[test]
fn status_codes() {
    assert_eq!(StatusCode::forbidden().to_string(), "403 Forbidden");
    assert_eq!(StatusCode::ok().to_string(), "200 OK");
    assert_eq!(StatusCode::internal_server_error().as_u16(), 500);
    assert!(StatusCode::from_u16(99).is_none());
    assert!(StatusCode::from_u16(1000).is_none());
    assert_eq!(StatusCode::from_u16(418).unwrap().as_u16(), 418);
}

#[test]
fn response_body_escapes_controls() {
    let e = RouteError::msg("a\nb\u{1}\\c");
    assert_eq!(e.response_body(), "{\"message\":\"a\\nb\\u0001\\\\c\",\"ok\":false}");
    let e = RouteError::msg("TEST CONTEXT");
    assert_eq!(e.response_body(), "{\"message\":\"TEST CONTEXT\",\"ok\":false}");
}

#[test]
fn contexts_are_messages() {
    let error = RouteError::from_foreign(make_error()).context("ctx");
    assert!(error.is(ErrorSource::Message));
    assert!(error.is(ErrorSource::Io));
    let outer = error.downcast_ref(ErrorSource::Message).unwrap();
    assert_eq!(outer.text, "ctx");
    assert_eq!(error.downcast(ErrorSource::Message).unwrap().text, "ctx");

    let bare = RouteError::from_foreign(make_error());
    assert!(!bare.is(ErrorSource::Message));
    assert!(bare.downcast(ErrorSource::Message).is_err());
}

#[test]
fn from_converts_with_question_mark() {
    fn f() -> RouteResult<()> {
        make_result()?;
        Ok(())
    }
    let error = f().unwrap_err();
    assert_eq!(error.status_code().as_u16(), 500);
    assert_eq!(error.to_string(), "Not found");
    assert!(error.is(ErrorSource::Io));
}
