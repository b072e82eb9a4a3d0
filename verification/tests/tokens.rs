use std::collections::HashSet;

use dailyco::configuration::{DailyLang, RecordingType};
use dailyco::json::Json;
use dailyco::wire::FromJson;
use dailyco::meeting_token::{CreateMeetingToken, MeetingToken, TokenField};
use jsonwebtoken::{decode, Algorithm, DecodingKey, Validation};

fn claims_of(token: &str, secret: &str) -> serde_json::Value {
    let mut validation = Validation::new(Algorithm::HS256);
    validation.required_spec_claims = HashSet::new();
    validation.validate_exp = false;
    decode::<serde_json::Value>(token, &DecodingKey::from_secret(secret.as_ref()), &validation)
        .expect("the token verifies under its secret")
        .claims
}

#[test]
fn self_sign_maps_settings_to_claims() {
    let mut builder = CreateMeetingToken::new();
    builder.room_name("abc").is_owner(true).eject_after_elapsed(50);
    let token = builder.self_sign("my-domain", "secret");
    assert_eq!(token.split('.').count(), 3);
    let claims = claims_of(&token, "secret");
    let expected: serde_json::Value =
        serde_json::from_str(r#"{"r":"abc","o":true,"eje":50,"d":"my-domain"}"#).unwrap();
    assert_eq!(claims, expected);
}

#[test]
fn self_sign_depends_on_secret() {
    let mut builder = CreateMeetingToken::new();
    builder.room_name("abc");
    let one = builder.self_sign("my-domain", "secret");
    let other = builder.self_sign("my-domain", "another secret");
    assert_ne!(one, other);
    assert_eq!(one, builder.self_sign("my-domain", "secret"));
}

#[test]
fn unset_settings_are_absent_from_request() {
    let builder = CreateMeetingToken::new();
    assert_eq!(builder.request_body().to_text(), r#"{"properties":{}}"#);
    assert_eq!(builder.claims("dom").to_text(), r#"{"d":"dom"}"#);
    assert_eq!(builder.members(false), Json::Object(vec![]));
    assert_eq!(builder.members(true).to_text(), "{}");
}

#[test]
fn request_body_holds_what_was_set() {
    let mut builder = CreateMeetingToken::new();
    builder
        .room_name("hi")
        .start_audio_off(true)
        .user_name("a_user")
        .eject_after_elapsed(50);
    let body = builder.request_body().to_text();
    let parsed: serde_json::Value = serde_json::from_str(&body).unwrap();
    let expected: serde_json::Value = serde_json::from_str(
        r#"{"properties":{"room_name":"hi","start_audio_off":true,"user_name":"a_user","eject_after_elapsed":50}}"#,
    )
    .unwrap();
    assert_eq!(parsed, expected);
}

#[test]
fn last_write_wins() {
    let mut builder = CreateMeetingToken::new();
    builder.nbf(1).nbf(2).room_name("a").room_name("b");
    assert_eq!(builder.nbf, Some(2));
    assert_eq!(builder.room_name.as_deref(), Some("b"));
    assert_eq!(builder.request_body().to_text(), r#"{"properties":{"nbf":2,"room_name":"b"}}"#);
}

fn test_cases() -> Vec<CreateMeetingToken> {
    let mut one = CreateMeetingToken::new();
    one.start_audio_off(true).user_name("a_user").eject_after_elapsed(50);
    let mut two = CreateMeetingToken::new();
    two.start_audio_off(true)
        .start_video_off(false)
        .user_id("hi")
        .is_owner(true)
        .enable_screenshare(false)
        .exp(1_700_000_000 + 3 * 3600);
    let mut three = CreateMeetingToken::new();
    three
        .nbf(1_700_000_000 - 3 * 3600)
        .enable_recording(RecordingType::Cloud)
        .eject_at_token_exp(true)
        .start_cloud_recording(true)
        .close_tab_on_exit(true)
        .lang(DailyLang::Es);
    let mut all = vec![one, two, three];
    for b in all.iter_mut() {
        b.room_name("a-room");
    }
    all
}

#[test]
fn request_round_trip_preserves_settings() {
    for builder in test_cases() {
        let text = builder.members(false).to_text();
        let read = Json::parse(&text).expect("what was written is JSON");
        let token = MeetingToken::from_json(&read).expect("what was written reads back");
        let expected: MeetingToken = builder.into();
        assert_eq!(token, expected);
    }
}

#[test]
fn claims_hold_settings_as_the_request_does() {
    for builder in test_cases() {
        let claims = builder.claims("dom");
        let request = builder.members(false);
        let mut i = 0;
        while let Some(field) = TokenField::nth(i) {
            let claim = claims.get(field.claim_str()).map(|j| j.to_text());
            let member = request.get(field.as_str()).map(|j| j.to_text());
            assert_eq!(claim, member);
            assert_eq!(member, builder.value(field).map(|j| j.to_text()));
            i += 1;
        }
        assert_eq!(i, 18);
        assert_eq!(claims.get("d").map(|j| j.to_text()), Some("\"dom\"".to_string()));
    }
}

#[test]
fn token_defaults() {
    let token = MeetingToken::from_json(&Json::parse("{}").unwrap()).unwrap();
    assert_eq!(token.room_name, None);
    assert!(!token.eject_at_token_exp);
    assert_eq!(token.eject_after_elapsed, None);
    assert_eq!(token.nbf, None);
    assert_eq!(token.exp, None);
    assert!(!token.is_owner);
    assert_eq!(token.user_name, None);
    assert_eq!(token.user_id, None);
    assert!(token.enable_screenshare);
    assert!(!token.start_video_off);
    assert!(!token.start_audio_off);
    assert_eq!(token.enable_recording, None);
    assert_eq!(token.enable_prejoin_ui, None);
    assert!(!token.enable_terse_logging);
    assert!(!token.start_cloud_recording);
    assert!(!token.close_tab_on_exit);
    assert_eq!(token.redirect_on_meeting_exit, None);
    assert_eq!(token.lang, None);
    let from_builder: MeetingToken = CreateMeetingToken::new().into();
    assert_eq!(token, from_builder);
}

#[test]
fn token_reads_what_the_service_reports() {
    let text = r#"{"room_name":"r","is_owner":true,"exp":12,"lang":"es","enable_recording":"rtp-tracks","unknown_setting":[1,2.5,null],"user_name":null}"#;
    let token = MeetingToken::from_json(&Json::parse(text).unwrap()).unwrap();
    assert_eq!(token.room_name.as_deref(), Some("r"));
    assert!(token.is_owner);
    assert_eq!(token.exp, Some(12));
    assert_eq!(token.lang, Some(DailyLang::Es));
    assert_eq!(token.enable_recording, Some(RecordingType::RtpTracks));
    assert_eq!(token.user_name, None);
}

#[test]
fn token_rejects_values_of_the_wrong_kind() {
    for text in [
        r#"{"is_owner":"yes"}"#,
        r#"{"is_owner":null}"#,
        r#"{"exp":"12"}"#,
        r#"{"exp":1.5}"#,
        r#"{"exp":9223372036854775808}"#,
        r#"{"lang":"xx"}"#,
        r#"{"room_name":5}"#,
        r#"[]"#,
        r#"5"#,
    ] {
        let json = Json::parse(text).unwrap();
        assert!(MeetingToken::from_json(&json).is_none(), "{}", text);
    }
}

#[test]
fn meeting_tokens_create_roundtrip() {
    // What the service reports of a token is what was asked for, with the
    // defaults filled in: the report is read and held against the builder.
    for builder in test_cases() {
        let client = dailyco::Client::new("test-api-key").unwrap();
        let request = builder.send_request(&client).unwrap();
        assert_eq!(request.url, "https://api.daily.co/v1/meeting-tokens/");
        assert_eq!(request.method, dailyco::client::Method::Post);
        let body = request.body.expect("the request has a body");
        let properties = body.get("properties").expect("the body holds the properties");
        let report = properties.to_text();
        let returned: MeetingToken =
            dailyco::client::parse_dailyco_response(200, &report).expect("the report is a token");
        let expected: MeetingToken = builder.clone().into();
        assert_eq!(expected, returned);
        assert_eq!(returned.room_name.as_deref(), Some("a-room"));
    }
}

#[test]
fn meeting_tokens_self_sign_roundtrip() {
    // The claims of a self-signed token, renamed as the service renames them,
    // read as the same token that the request for a token describes.
    for builder in test_cases() {
        let token = builder.self_sign("domain-id", "secret-key");
        let claims = claims_of(&token, "secret-key");
        let mut renamed = serde_json::Map::new();
        let mut i = 0;
        while let Some(field) = TokenField::nth(i) {
            if let Some(value) = claims.get(field.claim_str()) {
                renamed.insert(field.as_str().to_string(), value.clone());
            }
            i += 1;
        }
        assert_eq!(renamed.len() + 1, claims.as_object().unwrap().len());
        assert_eq!(claims.get("d").and_then(|d| d.as_str()), Some("domain-id"));
        let report = serde_json::Value::Object(renamed).to_string();
        let returned: MeetingToken =
            dailyco::client::parse_dailyco_response(200, &report).expect("the claims are a token");
        let expected: MeetingToken = builder.clone().into();
        assert_eq!(expected, returned);
    }
}

#[test]
fn make_meeting_token() {
    let client = dailyco::Client::new("test-api-key").unwrap();
    let mut builder = CreateMeetingToken::new();
    builder.room_name("some-room");
    let request = builder.send_request(&client).unwrap();
    assert_eq!(
        request.body.unwrap().to_text(),
        r#"{"properties":{"room_name":"some-room"}}"#
    );
    let token = CreateMeetingToken::send_response(200, r#"{"token":"abc.def.ghi"}"#).unwrap();
    assert_eq!(token, "abc.def.ghi");
    assert!(CreateMeetingToken::send_response(200, r#"{"tokens":"abc"}"#).is_err());
    assert!(CreateMeetingToken::send_response(200, r#"["abc"]"#).is_err());
}

#[test]
fn get_meeting_token() {
    let client = dailyco::Client::new("test-api-key").unwrap();
    let request = client.get_meeting_token_request("abc.def.ghi").unwrap();
    assert_eq!(request.method, dailyco::client::Method::Get);
    assert_eq!(request.url, "https://api.daily.co/v1/meeting-tokens/abc.def.ghi");
    assert!(request.body.is_none());
    assert!(request.query.is_empty());
    let token: MeetingToken = dailyco::client::parse_dailyco_response(
        200,
        r#"{"room_name":"meeting-token-room","enable_screenshare":false}"#,
    )
    .unwrap();
    assert_eq!(token.room_name, Some("meeting-token-room".to_string()));
    assert!(!token.enable_screenshare);
}

#[test]
fn token_field_names() {
    let expected = [
        ("room_name", "r"),
        ("eject_at_token_exp", "ejt"),
        ("eject_after_elapsed", "eje"),
        ("nbf", "nbf"),
        ("exp", "exp"),
        ("is_owner", "o"),
        ("user_name", "u"),
        ("user_id", "ud"),
        ("enable_screenshare", "ss"),
        ("start_video_off", "vo"),
        ("start_audio_off", "ao"),
        ("enable_recording", "er"),
        ("enable_prejoin_ui", "enable_prejoin_ui"),
        ("enable_terse_logging", "enable_terse_logging"),
        ("start_cloud_recording", "sr"),
        ("close_tab_on_exit", "ctoe"),
        ("redirect_on_meeting_exit", "rome"),
        ("lang", "uil"),
    ];
    for (i, (name, claim)) in expected.iter().enumerate() {
        let field = TokenField::nth(i).unwrap();
        assert_eq!(field.as_str(), *name);
        assert_eq!(field.claim_str(), *claim);
        assert_eq!(field.key_str(false), *name);
        assert_eq!(field.key_str(true), *claim);
    }
    assert_eq!(TokenField::nth(expected.len()), None);
}

#[test]
fn every_token_setting_is_written_under_both_names() {
    let mut builder = CreateMeetingToken::new();
    builder
        .room_name("room")
        .eject_at_token_exp(true)
        .eject_after_elapsed(-5)
        .nbf(10)
        .exp(20)
        .is_owner(false)
        .user_name("name")
        .user_id("id")
        .enable_screenshare(true)
        .start_video_off(true)
        .start_audio_off(false)
        .enable_recording(RecordingType::Local)
        .enable_prejoin_ui(true)
        .enable_terse_logging(true)
        .start_cloud_recording(false)
        .close_tab_on_exit(true)
        .redirect_on_meeting_exit("https://example.com/bye?x=\"y\"")
        .lang(DailyLang::User);
    assert_eq!(
        builder.members(false).to_text(),
        concat_all(&[
            r#"{"close_tab_on_exit":true,"eject_after_elapsed":-5,"eject_at_token_exp":true,"#,
            r#""enable_prejoin_ui":true,"enable_recording":"local","enable_screenshare":true,"#,
            r#""enable_terse_logging":true,"exp":20,"is_owner":false,"lang":"user","nbf":10,"#,
            r#""redirect_on_meeting_exit":"https://example.com/bye?x=\"y\"","room_name":"room","#,
            r#""start_audio_off":false,"start_cloud_recording":false,"start_video_off":true,"#,
            r#""user_id":"id","user_name":"name"}"#,
        ])
    );
    assert_eq!(
        builder.claims("dom").to_text(),
        concat_all(&[
            r#"{"ao":false,"ctoe":true,"d":"dom","eje":-5,"ejt":true,"enable_prejoin_ui":true,"#,
            r#""enable_terse_logging":true,"er":"local","exp":20,"nbf":10,"o":false,"r":"room","#,
            r#""rome":"https://example.com/bye?x=\"y\"","sr":false,"ss":true,"u":"name","#,
            r#""ud":"id","uil":"user","vo":true}"#,
        ])
    );
    let read =
        dailyco::meeting_token::CreateMeetingToken::from_json(&builder.members(false)).unwrap();
    assert_eq!(read.members(false), builder.members(false));
}

fn concat_all(parts: &[&str]) -> String {
    parts.iter().map(|p| p.to_string()).collect()
}

#[test]
fn meeting_tokens_roundtrip() {
    let mut builder = CreateMeetingToken::new();
    builder
        .room_name("hi")
        .start_audio_off(true)
        .user_name("a_user")
        .eject_after_elapsed(50);
    let expected: MeetingToken = builder.clone().into();
    assert_eq!(expected.room_name.as_deref(), Some("hi"));
    assert!(expected.start_audio_off);
    assert_eq!(expected.user_name.as_deref(), Some("a_user"));
    assert_eq!(expected.eject_after_elapsed, Some(50));

    let report = builder.members(false).to_text();
    let returned: MeetingToken = dailyco::client::parse_dailyco_response(200, &report).unwrap();
    assert_eq!(expected, returned);

    let token_signed = builder.self_sign("domain-id", "secret-key");
    let claims = claims_of(&token_signed, "secret-key");
    let expected_claims: serde_json::Value = serde_json::from_str(
        r#"{"d":"domain-id","r":"hi","ao":true,"u":"a_user","eje":50}"#,
    )
    .unwrap();
    assert_eq!(claims, expected_claims);
}
