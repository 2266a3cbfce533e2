use openfga::apis::{
    parse_response_content, response_error, status_is_success, urlencode, ApiError,
    ResponseContent,
};

fn parse_u32(c: &String) -> Result<u32, serde_json::Error> {
    serde_json::from_str::<u32>(c)
}

fn parse_text(c: &String) -> Result<String, serde_json::Error> {
    serde_json::from_str::<String>(c)
}

#[test]
fn urlencode_keeps_unreserved_characters() {
    assert_eq!(urlencode("prod-store"), "prod-store");
    assert_eq!(urlencode("document"), "document");
    assert_eq!(urlencode("a.b_c*d-E9"), "a.b_c*d-E9");
}

#[test]
fn urlencode_empty_string() {
    assert_eq!(urlencode(""), "");
}

#[test]
fn urlencode_space_becomes_plus() {
    assert_eq!(urlencode("a b"), "a+b");
    assert_eq!(urlencode("  "), "++");
}

#[test]
fn urlencode_query_delimiters_are_percent_encoded() {
    assert_eq!(urlencode("a&b=c"), "a%26b%3Dc");
    assert_eq!(urlencode("x?y#z"), "x%3Fy%23z");
    assert_eq!(urlencode("100%"), "100%25");
    assert_eq!(urlencode("a+b"), "a%2Bb");
    assert_eq!(urlencode("/~"), "%2F%7E");
}

#[test]
fn urlencode_timestamp() {
    assert_eq!(
        urlencode("2024-01-01T00:00:00+00:00"),
        "2024-01-01T00%3A00%3A00%2B00%3A00"
    );
}

#[test]
fn urlencode_non_ascii_encodes_utf8_bytes() {
    assert_eq!(urlencode("é"), "%C3%A9");
    assert_eq!(urlencode("日"), "%E6%97%A5");
    assert_eq!(urlencode("\u{7f}\n"), "%7F%0A");
}

#[test]
fn urlencode_output_is_query_safe() {
    let out = urlencode("user:anne & bob = ? # é/ü");
    assert!(out
        .chars()
        .all(|c| c.is_ascii_alphanumeric() || "*-._+%".contains(c)));
}

#[test]
fn urlencode_distinct_inputs_distinct_outputs() {
    assert_ne!(urlencode("a b"), urlencode("a+b"));
    assert_ne!(urlencode("%20"), urlencode(" "));
}

#[test]
fn status_success_boundaries() {
    assert!(status_is_success(100));
    assert!(status_is_success(200));
    assert!(status_is_success(204));
    assert!(status_is_success(399));
    assert!(!status_is_success(400));
    assert!(!status_is_success(401));
    assert!(!status_is_success(499));
    assert!(!status_is_success(500));
    assert!(!status_is_success(599));
    assert!(status_is_success(600));
    assert!(status_is_success(999));
}

#[test]
fn parse_response_success_decodes_body() {
    let res: Result<u32, ApiError<String>> =
        parse_response_content(200, "42".to_string(), parse_u32, parse_text);
    assert_eq!(res.unwrap(), 42);
}

#[test]
fn parse_response_success_with_bad_body_is_serde_error() {
    let res: Result<u32, ApiError<String>> =
        parse_response_content(200, "not json".to_string(), parse_u32, parse_text);
    assert!(matches!(res, Err(ApiError::Serde(_))));
}

#[test]
fn parse_response_client_error_keeps_status_and_body() {
    let body = r#""not authenticated""#.to_string();
    let res: Result<u32, ApiError<String>> =
        parse_response_content(401, body.clone(), parse_u32, parse_text);
    match res {
        Err(ApiError::ResponseError(rc)) => {
            assert_eq!(rc.status, 401);
            assert_eq!(rc.content, body);
            assert_eq!(rc.entity, Some("not authenticated".to_string()));
        }
        other => panic!("expected a response error, got {:?}", other),
    }
}

#[test]
fn parse_response_server_error_undecodable_entity() {
    let res: Result<u32, ApiError<String>> =
        parse_response_content(500, "oops".to_string(), parse_u32, parse_text);
    match res {
        Err(ApiError::ResponseError(rc)) => {
            assert_eq!(rc.status, 500);
            assert_eq!(rc.content, "oops");
            assert_eq!(rc.entity, None);
        }
        other => panic!("expected a response error, got {:?}", other),
    }
}

#[test]
fn parse_response_error_status_does_not_decode_as_value() {
    // The body would decode as the value type, but the status says error.
    let res: Result<u32, ApiError<u32>> =
        parse_response_content(404, "7".to_string(), parse_u32, parse_u32);
    match res {
        Err(ApiError::ResponseError(rc)) => {
            assert_eq!(rc.status, 404);
            assert_eq!(rc.entity, Some(7));
        }
        other => panic!("expected a response error, got {:?}", other),
    }
}

#[test]
fn response_error_builds_response_content() {
    let e: ApiError<u32> = response_error(403, "12".to_string(), parse_u32);
    match e {
        ApiError::ResponseError(ResponseContent { status, content, entity }) => {
            assert_eq!(status, 403);
            assert_eq!(content, "12");
            assert_eq!(entity, Some(12));
        }
        other => panic!("expected a response error, got {:?}", other),
    }
}

#[test]
fn message_of_response_error_without_entity() {
    let e: ApiError<String> = ApiError::ResponseError(ResponseContent {
        status: 401,
        content: String::new(),
        entity: None,
    });
    assert_eq!(e.to_string(), "error in response: status code 401 Unauthorized");
}

#[test]
fn message_of_response_error_with_entity() {
    let e: ApiError<String> = ApiError::ResponseError(ResponseContent {
        status: 404,
        content: String::new(),
        entity: Some("missing".to_string()),
    });
    assert_eq!(
        e.to_string(),
        "error in response: status code 404 Not Found \u{2014} \"missing\""
    );
}

#[test]
fn message_of_response_error_unknown_reason() {
    let e: ApiError<String> = ApiError::ResponseError(ResponseContent {
        status: 799,
        content: String::new(),
        entity: None,
    });
    assert_eq!(
        e.to_string(),
        "error in response: status code 799 <unknown status code>"
    );
}

#[test]
fn message_of_serde_error() {
    let inner = serde_json::from_str::<u32>("x").unwrap_err();
    let text = inner.to_string();
    let e: ApiError<String> = ApiError::from(inner);
    assert!(matches!(e, ApiError::Serde(_)));
    assert_eq!(e.to_string(), format!("error in serde: {}", text));
}

#[test]
fn message_of_io_error() {
    let inner = std::io::Error::new(std::io::ErrorKind::Other, "disk on fire");
    let e: ApiError<String> = ApiError::from(inner);
    assert!(matches!(e, ApiError::Io(_)));
    assert_eq!(e.to_string(), "error in IO: disk on fire");
}

#[test]
fn from_serde_error_is_serde_variant() {
    let inner = serde_json::from_str::<bool>("{").unwrap_err();
    let e: ApiError<()> = inner.into();
    assert!(matches!(e, ApiError::Serde(_)));
}

#[test]
fn urlencode_decodes_back() {
    for s in ["a b&c=d", "2024-01-01T00:00:00+00:00", "é日 %+", "", "plain"] {
        let query = format!("k={}", urlencode(s));
        let pairs: Vec<(String, String)> = url::form_urlencoded::parse(query.as_bytes())
            .into_owned()
            .collect();
        assert_eq!(pairs, vec![("k".to_string(), s.to_string())]);
    }
}

#[test]
fn message_of_reqwest_error() {
    let inner = reqwest::Client::new().get("not a url").build().unwrap_err();
    let text = inner.to_string();
    let e: ApiError<String> = ApiError::from(inner);
    assert!(matches!(e, ApiError::Reqwest(_)));
    assert_eq!(e.to_string(), format!("error in reqwest: {}", text));
}

#[test]
fn message_of_response_error_with_integer_entity() {
    let e: ApiError<i32> = ApiError::ResponseError(ResponseContent {
        status: 404,
        content: "raw body".to_string(),
        entity: Some(7),
    });
    assert_eq!(
        e.to_string(),
        "error in response: status code 404 Not Found \u{2014} 7"
    );
}

#[test]
fn message_does_not_depend_on_raw_body() {
    let a: ApiError<i32> = ApiError::ResponseError(ResponseContent {
        status: 500,
        content: "first body".to_string(),
        entity: Some(3),
    });
    let b: ApiError<i32> = ApiError::ResponseError(ResponseContent {
        status: 500,
        content: "second body".to_string(),
        entity: Some(3),
    });
    assert_eq!(a.to_string(), b.to_string());
}

#[test]
fn error_responses_read_both_ways_agree() {
    let body = "17".to_string();
    let from_parse: Result<u32, ApiError<u32>> =
        parse_response_content(422, body.clone(), parse_u32, parse_u32);
    let from_error: ApiError<u32> = response_error(422, body.clone(), parse_u32);
    match (from_parse, from_error) {
        (Err(ApiError::ResponseError(a)), ApiError::ResponseError(b)) => {
            assert_eq!(a.status, b.status);
            assert_eq!(a.content, b.content);
            assert_eq!(a.entity, b.entity);
        }
        other => panic!("expected two response errors, got {:?}", other),
    }
}
