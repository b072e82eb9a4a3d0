use dailyco::client::{parse_dailyco_response, Client};
use dailyco::error::RequestFailure;
use dailyco::meeting_token::MeetingToken;
use dailyco::{DailyCoErrorKind, Error};

#[test]
fn client_accepts_keys_of_visible_ascii() {
    let client = Client::new("test-api-key").unwrap();
    assert_eq!(client.authorization.as_bytes(), b"Bearer test-api-key");
    assert_eq!(client.base_url.as_str(), "https://api.daily.co/v1/");
    assert_eq!(client.base_url_text(), "https://api.daily.co/v1/");
    let all: String = (32u8..127).map(|b| b as char).collect();
    assert!(Client::new(&all).is_ok());
    assert!(Client::new("with\ttab").is_ok());
    assert!(Client::new("").is_ok());
}

#[test]
fn authorization_holds_the_key_after_bearer() {
    let header = Client::authorization("k e\ty").unwrap();
    assert_eq!(header.as_bytes(), b"Bearer k e\ty");
    assert!(header.is_sensitive());
    assert!(matches!(Client::authorization("k\re"), Err(Error::BadAPIKey(_))));
    assert!(matches!(Client::authorization("\u{e9}"), Err(Error::BadAPIKey(_))));
}

#[test]
fn client_does_not_show_its_key() {
    let client = Client::new("a-key-to-hide").unwrap();
    assert!(client.authorization.is_sensitive());
    assert!(!format!("{:?}", client).contains("a-key-to-hide"));
    assert!(!format!("{:?}", client.clone()).contains("a-key-to-hide"));
}

#[test]
fn client_rejects_keys_with_other_characters() {
    for key in ["clé", "ke\u{7f}y", "line\nbreak", "nul\0", "日本語", "k\u{80}", "\u{1f}"] {
        match Client::new(key) {
            Err(Error::BadAPIKey(problem)) => {
                assert_eq!(problem, "API key must include only ASCII characters")
            }
            other => panic!("expected a key problem for {:?}, found {:?}", key, other),
        }
    }
}

#[test]
fn client_with_endpoint_keeps_the_endpoint() {
    let endpoint = reqwest::Url::parse("http://localhost:8080").unwrap();
    let client = Client::with_endpoint("test-api-key", endpoint.clone()).unwrap();
    assert_eq!(client.base_url, endpoint);
    assert_eq!(client.url("rooms/").as_deref(), Some("http://localhost:8080/rooms/"));
    assert_eq!(
        client.get_room_url_with_name("a room").as_deref(),
        Some("http://localhost:8080/rooms/a%20room")
    );
    assert!(Client::with_endpoint("ключ", endpoint).is_err());
}

#[test]
fn client_reports_an_endpoint_that_is_no_base() {
    let endpoint = reqwest::Url::parse("mailto:someone@example.com").unwrap();
    let client = Client::with_endpoint("test-api-key", endpoint).unwrap();
    assert_eq!(client.url("rooms/"), None);
    assert!(matches!(
        client.get_rooms_request(),
        Err(Error::Request(RequestFailure::Url))
    ));
    assert!(matches!(
        client.get_room_request("a"),
        Err(Error::Request(RequestFailure::Url))
    ));
}

#[test]
fn failed_request_with_service_error_is_an_api_error() {
    let res: Result<MeetingToken, Error> =
        parse_dailyco_response(404, r#"{"error":"not-found","info":"room not found"}"#);
    match res.unwrap_err() {
        Error::APIError(info) => {
            assert_eq!(info.error, Some(DailyCoErrorKind::NotFound));
            assert_eq!(info.info.as_deref(), Some("room not found"));
        }
        other => panic!("unexpected error {:?}", other),
    }
}

#[test]
fn failed_request_with_other_body_is_a_request_error() {
    let res: Result<MeetingToken, Error> = parse_dailyco_response(502, "<html>Bad Gateway</html>");
    assert!(matches!(res, Err(Error::Request(RequestFailure::NotJson))));
    let res: Result<MeetingToken, Error> = parse_dailyco_response(400, r#"{"error":"brand-new"}"#);
    assert!(matches!(res, Err(Error::Request(RequestFailure::UnexpectedBody))));
    let res: Result<MeetingToken, Error> = parse_dailyco_response(400, r#"["not-found"]"#);
    assert!(matches!(res, Err(Error::Request(RequestFailure::UnexpectedBody))));
    let res: Result<MeetingToken, Error> = parse_dailyco_response(400, "{}");
    match res.unwrap_err() {
        Error::APIError(info) => {
            assert_eq!(info.error, None);
            assert_eq!(info.info, None);
        }
        other => panic!("unexpected error {:?}", other),
    }
}

#[test]
fn successful_request_with_other_body_is_a_request_error() {
    let res: Result<MeetingToken, Error> = parse_dailyco_response(200, "not json");
    assert!(matches!(res, Err(Error::Request(RequestFailure::NotJson))));
    let res: Result<MeetingToken, Error> = parse_dailyco_response(200, r#"{"exp":"soon"}"#);
    assert!(matches!(res, Err(Error::Request(RequestFailure::UnexpectedBody))));
    let res: Result<MeetingToken, Error> = parse_dailyco_response(204, "{}");
    assert!(res.is_ok());
}

#[test]
fn errors_say_what_they_are() {
    let not_found =
        Error::from_failed_daily_request(r#"{"error":"not-found","info":"room not found"}"#);
    assert_eq!(
        not_found.to_string(),
        "daily request returned an error: {\n  \"error\": \"not-found\",\n  \"info\": \"room not found\"\n}"
    );
    let bare = Error::from_failed_daily_request(r#"{"info":null}"#);
    assert_eq!(
        bare.to_string(),
        "daily request returned an error: {\n  \"error\": null,\n  \"info\": null\n}"
    );
    assert_eq!(
        Error::from_failed_daily_request("oops").to_string(),
        "failure making the request"
    );
    assert_eq!(
        Client::new("é").unwrap_err().to_string(),
        "API key problem: API key must include only ASCII characters"
    );
    assert_eq!(
        Error::RequiresPagination.to_string(),
        "Response requires pagination, which is not implemented yet."
    );
    assert_eq!(
        Error::Request(RequestFailure::Transport("connection refused".to_string())).to_string(),
        "failure making the request"
    );
}

#[test]
fn error_kinds_have_the_names_of_the_service() {
    let names = [
        (DailyCoErrorKind::AuthenticationError, "authentication-error"),
        (DailyCoErrorKind::AuthorizationHeaderError, "authorization-header-error"),
        (DailyCoErrorKind::JsonParsingError, "json-parsing-error"),
        (DailyCoErrorKind::InvalidRequestError, "invalid-request-error"),
        (DailyCoErrorKind::RateLimitError, "rate-limit-error"),
        (DailyCoErrorKind::ServerError, "server-error"),
        (DailyCoErrorKind::NotFound, "not-found"),
    ];
    for (kind, name) in names {
        assert_eq!(kind.to_string(), name);
        assert_eq!(kind.as_str(), name);
        assert_eq!(DailyCoErrorKind::from_name(name), Some(kind));
        let body = format!(r#"{{"error":"{}"}}"#, name);
        match Error::from_failed_daily_request(&body) {
            Error::APIError(info) => assert_eq!(info.error, Some(kind)),
            other => panic!("unexpected error {:?}", other),
        }
    }
    assert_eq!(DailyCoErrorKind::from_name("not_found"), None);
}
