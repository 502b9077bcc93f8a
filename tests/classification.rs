use toornament::{
    classify_response, Error, ToornamentError, ToornamentErrorScope, ToornamentErrorType,
    ToornamentErrors, ToornamentServiceError,
};

fn email_duplicate() -> ToornamentServiceError {
    ToornamentServiceError {
        errors: ToornamentErrors(vec![ToornamentError {
            message: "Email already used".to_owned(),
            scope: ToornamentErrorScope::Body,
            property_path: Some("email".to_owned()),
            invalid_value: Some("a@b.com".to_owned()),
            error_type: Some(ToornamentErrorType::EmailDuplicate),
        }]),
    }
}

#[test]
fn rate_limit_classification() {
    let body = r#"{"retry_after": 5000}"#.to_owned();
    let r = classify_response(429, body, Some(5000), None);
    assert!(matches!(r, Err(Error::RateLimited(5000))));
}

#[test]
fn rate_limit_wins_over_service_error_shape() {
    let r = classify_response(429, "{}".to_owned(), Some(1), Some(email_duplicate()));
    assert!(matches!(r, Err(Error::RateLimited(1))));
}

#[test]
fn rate_limit_without_delay_is_a_plain_failure() {
    let r = classify_response(429, "slow down".to_owned(), None, Some(email_duplicate()));
    match r {
        Err(Error::Status(429, body)) => assert_eq!(body, "slow down"),
        other => panic!("unexpected {:?}", other),
    }
}

#[test]
fn service_error_classification() {
    let body = r#"{"errors":[{"message":"Email already used","scope":"body","property_path":"email","invalid_value":"a@b.com","type":"email_duplicate"}]}"#;
    let r = classify_response(422, body.to_owned(), None, Some(email_duplicate()));
    match r {
        Err(Error::Toornament(422, e)) => {
            assert_eq!(e.errors.0.len(), 1);
            let first = &e.errors.0[0];
            assert_eq!(first.scope, ToornamentErrorScope::Body);
            assert_eq!(first.error_type, Some(ToornamentErrorType::EmailDuplicate));
            assert_eq!(first.message, "Email already used");
        }
        other => panic!("unexpected {:?}", other),
    }
}

#[test]
fn fallback_classification() {
    let r = classify_response(500, "internal error".to_owned(), None, None);
    match r {
        Err(Error::Status(500, body)) => assert_eq!(body, "internal error"),
        other => panic!("unexpected {:?}", other),
    }
}

#[test]
fn success_carries_the_body() {
    let r = classify_response(200, "[]".to_owned(), Some(3), Some(email_duplicate()));
    assert_eq!(r.unwrap(), "[]");
    let r = classify_response(299, "x".to_owned(), None, None);
    assert_eq!(r.unwrap(), "x");
}

#[test]
fn non_success_edges() {
    assert!(matches!(classify_response(199, String::new(), None, None), Err(Error::Status(199, _))));
    assert!(matches!(classify_response(300, String::new(), None, None), Err(Error::Status(300, _))));
    assert!(matches!(
        classify_response(404, String::new(), Some(9), None),
        Err(Error::Status(404, _))
    ));
}

#[test]
fn errors_convert_from_outside_failures() {
    let json = serde_json::from_str::<serde_json::Value>("{").unwrap_err();
    assert!(matches!(Error::from(json), Error::Json(_)));
    let io = std::io::Error::new(std::io::ErrorKind::Other, "x");
    assert!(matches!(Error::from(io), Error::Io(_)));
    let date = "nope".parse::<chrono::NaiveDate>().unwrap_err();
    assert!(matches!(Error::from(date), Error::Date(_)));
}
