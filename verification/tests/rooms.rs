use dailyco::client::{parse_dailyco_response, Client, Method};
use dailyco::configuration::{
    DailyLang, RecordingType, RecordingsBucket, Region, RtmpGeoRegion, SignalingImp,
};
use dailyco::json::Json;
use dailyco::wire::{FromJson, Numeral, ToJson};
use dailyco::room::{CreateRoom, Room, RoomPrivacy, UpdateRoom};
use dailyco::room_properties::{RoomField, RoomProperties};
use dailyco::{Error, RoomPropertiesBuilder};

fn room_report(name: &str, privacy: &str, config: &str) -> String {
    format!(
        r#"{{"id":"d61cd7b2-a273-42b4-89bd-be763fd562c1","name":"{}","api_created":true,"privacy":"{}","url":"https://api-demo.daily.co/{}","created_at":"2019-01-26T09:01:22.000Z","config":{}}}"#,
        name, privacy, name, config
    )
}

#[test]
fn rooms_can_make_room() {
    let client = Client::new("test-api-key").unwrap();
    let room_name = "w2pp2cf4";
    let mut create = CreateRoom::new();
    create.privacy(RoomPrivacy::Private).name(room_name).properties(
        RoomPropertiesBuilder::new().start_video_off(true).start_audio_off(true),
    );
    let request = create.send_request(&client).unwrap();
    assert_eq!(request.method, Method::Post);
    assert_eq!(request.url, "https://api.daily.co/v1/rooms/");
    let body = request.body.unwrap();
    assert_eq!(
        body.to_text(),
        r#"{"name":"w2pp2cf4","privacy":"private","properties":{"start_audio_off":true,"start_video_off":true}}"#
    );
    let config = body.get("properties").unwrap().to_text();
    let report = room_report(room_name, "private", &config);
    let room: Room = parse_dailyco_response(200, &report).unwrap();
    assert_eq!(room.name, room_name);
    assert_eq!(room.privacy, RoomPrivacy::Private);
    assert!(room.config.start_audio_off);
    assert!(room.config.start_video_off);
}

#[test]
fn client_can_make_room() {
    let client = Client::new("test-api-key").unwrap();
    let room_name = "test-room";
    let mut create = CreateRoom::new();
    create.privacy(RoomPrivacy::Private).name(room_name).properties(
        RoomPropertiesBuilder::new().start_video_off(true).start_audio_off(true),
    );
    let request = create.send_request(&client).unwrap();
    let config = request.body.unwrap().get("properties").unwrap().to_text();
    let room: Room =
        parse_dailyco_response(200, &room_report(room_name, "private", &config)).unwrap();
    assert_eq!(room.name, room_name);
    assert_eq!(room.privacy, RoomPrivacy::Private);
    assert_eq!(room.config.start_audio_off, true);
    assert_eq!(room.config.start_video_off, true);
}

fn assert_not_found_err<T: std::fmt::Debug>(resp: dailyco::Result<T>) {
    match resp.expect_err("Result was not an error") {
        Error::APIError(err) => {
            assert!(matches!(
                err.error.expect("No error information"),
                dailyco::DailyCoErrorKind::NotFound
            ))
        }
        err => panic!("Expected not found error, found {}", err.to_string()),
    }
}

#[test]
fn rooms_get_room_not_found() {
    let client = Client::new("test-api-key").unwrap();
    let request = client.get_room_request("not-found").unwrap();
    assert_eq!(request.method, Method::Get);
    assert_eq!(request.url, "https://api.daily.co/v1/rooms/not-found");
    let res: Result<Room, Error> =
        parse_dailyco_response(404, r#"{"error":"not-found","info":"room not-found not found"}"#);
    assert_not_found_err(res);
}

#[test]
fn client_get_room_not_found() {
    let res: Result<Room, Error> =
        parse_dailyco_response(404, r#"{"error":"not-found","info":"room not-found not found"}"#);
    match res.unwrap_err() {
        Error::APIError(err) => {
            assert!(matches!(err.error.unwrap(), dailyco::DailyCoErrorKind::NotFound))
        }
        _ => panic!("Unexpected error"),
    }
}

#[test]
fn rooms_delete_room() {
    let client = Client::new("test-api-key").unwrap();
    let request = client.delete_room_request("a1b2c3d4").unwrap();
    assert_eq!(request.method, Method::Delete);
    assert_eq!(request.url, "https://api.daily.co/v1/rooms/a1b2c3d4");
    assert!(request.body.is_none());
    assert!(Client::delete_response(200, r#"{"deleted":true,"name":"a1b2c3d4"}"#).is_ok());
}

#[test]
fn client_delete_room() {
    let client = Client::new("test-api-key").unwrap();
    let request = client.delete_room_request("room-to-delete").unwrap();
    assert_eq!(request.url, "https://api.daily.co/v1/rooms/room-to-delete");
    assert!(Client::delete_response(200, "").is_ok());
    assert!(Client::delete_response(299, "not json").is_ok());
    assert_not_found_err(Client::delete_response(
        404,
        r#"{"error":"not-found","info":"room room-to-delete not found"}"#,
    ));
    assert!(matches!(Client::delete_response(300, "gone"), Err(Error::Request(_))));
    assert!(matches!(Client::delete_response(199, "{}"), Err(Error::APIError(_))));
}

#[test]
fn rooms_get_room() {
    let client = Client::new("test-api-key").unwrap();
    let room_name = "k3j4h5g6";
    let mut create = CreateRoom::new();
    create.name(room_name).properties(
        RoomPropertiesBuilder::new().eject_at_room_exp(true).max_participants(12).sfu_always(),
    );
    let request = create.send_request(&client).unwrap();
    let body = request.body.unwrap();
    assert_eq!(
        body.to_text(),
        r#"{"name":"k3j4h5g6","properties":{"eject_at_room_exp":true,"max_participants":12,"sfu_switchover":0.5}}"#
    );
    let config = body.get("properties").unwrap().to_text();
    let room: Room =
        parse_dailyco_response(200, &room_report(room_name, "public", &config)).unwrap();
    assert_eq!(room.name, room_name);
    assert_eq!(room.privacy, RoomPrivacy::Public);
    assert!(room.api_created);
    assert_eq!(room.config.max_participants, Some(12));
    assert!(room.config.eject_at_room_exp);
    assert_eq!(room.config.sfu_switchover.unwrap().number.as_f64(), Some(0.5));
}

#[test]
fn client_get_room() {
    let client = Client::new("test-api-key").unwrap();
    let room_name = "room-to-get";
    let request = client.get_room_request(room_name).unwrap();
    assert_eq!(request.url, "https://api.daily.co/v1/rooms/room-to-get");
    let config = RoomPropertiesBuilder::new()
        .eject_at_room_exp(true)
        .max_participants(12)
        .to_json()
        .to_text();
    let room: Room =
        parse_dailyco_response(200, &room_report(room_name, "public", &config)).unwrap();
    assert_eq!(room.name, room_name);
    assert!(room.api_created);
    assert_eq!(room.config.max_participants, Some(12));
    assert!(room.config.eject_at_room_exp);
}

#[test]
fn update_room() {
    let client = Client::new("test-api-key").unwrap();
    let room_name = "q1w2e3r4";
    let mut update = UpdateRoom::new();
    update.properties(RoomPropertiesBuilder::new().sfu_always());
    let request = update.send_request(room_name, &client).unwrap();
    assert_eq!(request.method, Method::Post);
    assert_eq!(request.url, "https://api.daily.co/v1/rooms/q1w2e3r4");
    let body = request.body.unwrap();
    assert_eq!(body.to_text(), r#"{"properties":{"sfu_switchover":0.5}}"#);
    let config = body.get("properties").unwrap().to_text();
    let room_after_update: Room =
        parse_dailyco_response(200, &room_report(room_name, "public", &config)).unwrap();
    assert_eq!(&room_after_update.name, room_name);
    assert_eq!(room_after_update.privacy, RoomPrivacy::Public);
    assert_eq!(room_after_update.config.sfu_switchover.unwrap().number.as_f64(), Some(0.5));
    let mut private = UpdateRoom::new();
    private.privacy(RoomPrivacy::Private);
    assert_eq!(private.request_body().to_text(), r#"{"privacy":"private"}"#);
    assert_eq!(UpdateRoom::new().request_body().to_text(), "{}");
}

#[test]
fn rooms_get_rooms() {
    let client = Client::new("test-api-key").unwrap();
    let request = client.get_rooms_request().unwrap();
    assert_eq!(request.method, Method::Get);
    assert_eq!(request.url, "https://api.daily.co/v1/rooms/");
    let report = format!(
        r#"{{"total_count":2,"data":[{},{}]}}"#,
        room_report("first", "public", "{}"),
        room_report("created", "private", r#"{"max_participants":4}"#)
    );
    let rooms = Client::get_rooms_response(200, &report).unwrap();
    assert_eq!(rooms.len(), 2);
    let found = rooms.iter().find(|room| room.name == "created").unwrap();
    assert_eq!(found.privacy, RoomPrivacy::Private);
    assert_eq!(found.config.max_participants, Some(4));
}

#[test]
fn client_get_rooms() {
    let rooms = Client::get_rooms_response(200, r#"{"total_count":0,"data":[]}"#).unwrap();
    assert!(rooms.is_empty());
    assert!(matches!(
        Client::get_rooms_response(200, r#"{"total_count":1,"data":[{"name":"x"}]}"#),
        Err(Error::Request(_))
    ));
    assert!(matches!(
        Client::get_rooms_response(200, r#"{"data":[]}"#),
        Err(Error::Request(_))
    ));
    assert!(matches!(
        Client::get_rooms_response(500, r#"{"error":"server-error"}"#),
        Err(Error::APIError(_))
    ));
}

#[test]
fn get_rooms_requires_pagination_from_a_hundred_rooms_on() {
    let report = format!(
        r#"{{"total_count":150,"data":[{}]}}"#,
        room_report("first", "public", "{}")
    );
    assert!(matches!(
        Client::get_rooms_response(200, &report),
        Err(Error::RequiresPagination)
    ));
    assert!(matches!(
        Client::get_rooms_response(200, r#"{"total_count":100,"data":[]}"#),
        Err(Error::RequiresPagination)
    ));
    assert!(Client::get_rooms_response(200, r#"{"total_count":99,"data":[]}"#).is_ok());
}

#[test]
fn unset_room_settings_are_absent_from_request() {
    assert_eq!(CreateRoom::new().request_body().to_text(), "{}");
    let mut create = CreateRoom::new();
    create.properties(RoomPropertiesBuilder::new());
    assert_eq!(create.request_body().to_text(), r#"{"properties":{}}"#);
    let builder = RoomPropertiesBuilder::new().enable_chat(false).nbf(0);
    assert_eq!(builder.to_json().to_text(), r#"{"enable_chat":false,"nbf":0}"#);
    let mut i = 0;
    while let Some(field) = RoomField::nth(i) {
        let set = builder.value(field).is_some();
        assert_eq!(set, field.as_str() == "enable_chat" || field.as_str() == "nbf");
        assert_eq!(builder.to_json().get(field.as_str()).is_some(), set);
        i += 1;
    }
    assert_eq!(i, 29);
}

fn bucket() -> RecordingsBucket {
    RecordingsBucket {
        bucket_name: "b".to_string(),
        bucket_region: "us-west-2".to_string(),
        assume_role_arn: "arn:aws:iam::1:role/r".to_string(),
        allow_api_access: true,
        allow_streaming_from_bucket: None,
    }
}

fn full_builder() -> RoomPropertiesBuilder {
    RoomPropertiesBuilder::new()
        .nbf(1)
        .exp(2)
        .max_participants(3)
        .enable_people_ui(false)
        .enable_pip_ui(true)
        .enable_prejoin_ui(false)
        .enable_network_ui(true)
        .enable_knocking(true)
        .enable_screenshare(false)
        .enable_video_processing_ui(false)
        .enable_chat(true)
        .start_video_off(true)
        .start_audio_off(true)
        .owner_only_broadcast(true)
        .enable_recording(RecordingType::OutputByteStream)
        .eject_at_room_exp(true)
        .eject_after_elapsed(4)
        .enable_hidden_participants(true)
        .enable_mesh_sfu(true)
        .experimental_optimize_large_calls(false)
        .lang(DailyLang::Jp)
        .meeting_join_hook("https://example.com/hook")
        .signaling_imp(SignalingImp::Ws)
        .geo(Region::EuWest2)
        .rtmp_geo(RtmpGeoRegion::ApSoutheast1)
        .enable_terse_logging(true)
        .recordings_template("{room_name}/{epoch_time}")
        .recordings_bucket(bucket())
        .sfu_switchover(Numeral { number: serde_json::Number::from_f64(2.5).unwrap() })
}

#[test]
fn every_room_setting_is_written_under_its_name() {
    let text = full_builder().to_json().to_text();
    let expected = [
        r#"{"eject_after_elapsed":4,"eject_at_room_exp":true,"enable_chat":true,"#,
        r#""enable_hidden_participants":true,"enable_knocking":true,"enable_mesh_sfu":true,"#,
        r#""enable_network_ui":true,"enable_people_ui":false,"enable_pip_ui":true,"#,
        r#""enable_prejoin_ui":false,"enable_recording":"output-byte-stream","#,
        r#""enable_screenshare":false,"enable_terse_logging":true,"#,
        r#""enable_video_processing_ui":false,"exp":2,"experimental_optimize_large_calls":false,"#,
        r#""geo":"eu-west2","lang":"jp","max_participants":3,"#,
        r#""meeting_join_hook":"https://example.com/hook","nbf":1,"owner_only_broadcast":true,"#,
        r#""recordings_bucket":{"allow_api_access":true,"assume_role_arn":"arn:aws:iam::1:role/r","#,
        r#""bucket_name":"b","bucket_region":"us-west-2"},"#,
        r#""recordings_template":"{room_name}/{epoch_time}","rtmp_geo":"ap-southeast1","#,
        r#""sfu_switchover":2.5,"signaling_imp":"ws","start_audio_off":true,"start_video_off":true}"#,
    ];
    assert_eq!(text, expected.concat());
}

#[test]
fn room_request_round_trip_preserves_settings() {
    let builder = full_builder();
    let text = builder.to_json().to_text();
    let read = RoomPropertiesBuilder::from_json(&Json::parse(&text).unwrap()).unwrap();
    assert_eq!(read.to_json().to_text(), text);
    let properties = RoomProperties::from_json(&Json::parse(&text).unwrap()).unwrap();
    assert_eq!(properties.nbf, Some(1));
    assert_eq!(properties.exp, Some(2));
    assert_eq!(properties.max_participants, Some(3));
    assert_eq!(properties.enable_people_ui, Some(false));
    assert!(properties.enable_pip_ui);
    assert_eq!(properties.enable_prejoin_ui, Some(false));
    assert!(properties.enable_network_ui);
    assert!(properties.enable_knocking);
    assert!(!properties.enable_screenshare);
    assert!(!properties.enable_video_processing_ui);
    assert!(properties.enable_chat);
    assert!(properties.start_video_off);
    assert!(properties.start_audio_off);
    assert!(properties.owner_only_broadcast);
    assert_eq!(properties.enable_recording, Some(RecordingType::OutputByteStream));
    assert!(properties.eject_at_room_exp);
    assert_eq!(properties.eject_after_elapsed, Some(4));
    assert!(properties.enable_hidden_participants);
    assert_eq!(properties.enable_mesh_sfu, Some(true));
    assert_eq!(properties.experimental_optimize_large_calls, Some(false));
    assert_eq!(properties.lang, DailyLang::Jp);
    assert_eq!(properties.meeting_join_hook.as_deref(), Some("https://example.com/hook"));
    assert_eq!(properties.signaling_imp, SignalingImp::Ws);
    assert_eq!(properties.geo, Some(Region::EuWest2));
    assert_eq!(properties.rtmp_geo, Some(RtmpGeoRegion::ApSoutheast1));
    assert!(properties.enable_terse_logging);
    assert_eq!(properties.recordings_template.as_deref(), Some("{room_name}/{epoch_time}"));
    assert_eq!(properties.recordings_bucket, Some(bucket()));
    assert_eq!(properties.sfu_switchover.unwrap().number.as_f64(), Some(2.5));
}

#[test]
fn room_defaults() {
    let properties = RoomProperties::from_json(&Json::parse("{}").unwrap()).unwrap();
    assert_eq!(properties.nbf, None);
    assert_eq!(properties.exp, None);
    assert_eq!(properties.max_participants, None);
    assert_eq!(properties.enable_people_ui, None);
    assert!(!properties.enable_pip_ui);
    assert_eq!(properties.enable_prejoin_ui, None);
    assert!(!properties.enable_network_ui);
    assert!(!properties.enable_knocking);
    assert!(properties.enable_screenshare);
    assert!(properties.enable_video_processing_ui);
    assert!(!properties.enable_chat);
    assert!(!properties.start_video_off);
    assert!(!properties.start_audio_off);
    assert!(!properties.owner_only_broadcast);
    assert_eq!(properties.enable_recording, None);
    assert!(!properties.eject_at_room_exp);
    assert_eq!(properties.eject_after_elapsed, None);
    assert!(!properties.enable_hidden_participants);
    assert_eq!(properties.enable_mesh_sfu, None);
    assert_eq!(properties.experimental_optimize_large_calls, None);
    assert_eq!(properties.lang, DailyLang::En);
    assert_eq!(properties.meeting_join_hook, None);
    assert_eq!(properties.signaling_imp, SignalingImp::Ws);
    assert_eq!(properties.geo, None);
    assert_eq!(properties.rtmp_geo, None);
    assert!(!properties.enable_terse_logging);
    assert_eq!(properties.recordings_template, None);
    assert_eq!(properties.recordings_bucket, None);
    assert!(properties.sfu_switchover.is_none());
    let made: RoomProperties = RoomPropertiesBuilder::new().into();
    assert!(made.enable_screenshare);
    assert!(!made.enable_chat);
    assert_eq!(made.lang, DailyLang::En);
}

#[test]
fn room_properties_reject_values_of_the_wrong_kind() {
    for text in [
        r#"{"enable_chat":null}"#,
        r#"{"enable_chat":0}"#,
        r#"{"lang":null}"#,
        r#"{"lang":"klingon"}"#,
        r#"{"signaling_imp":"wss"}"#,
        r#"{"max_participants":-1}"#,
        r#"{"max_participants":1.5}"#,
        r#"{"geo":"eu-west-2"}"#,
        r#"{"recordings_bucket":{"bucket_name":"b"}}"#,
        r#"{"sfu_switchover":"0.5"}"#,
        r#"[]"#,
    ] {
        let json = Json::parse(text).unwrap();
        assert!(RoomProperties::from_json(&json).is_none(), "{}", text);
    }
    for text in [
        r#"{"nbf":null,"max_participants":null,"geo":null,"recordings_bucket":null}"#,
        r#"{"a_setting_of_tomorrow":{"x":[1,2,3]}}"#,
        r#"{"sfu_switchover":2}"#,
    ] {
        let json = Json::parse(text).unwrap();
        assert!(RoomProperties::from_json(&json).is_some(), "{}", text);
    }
}

#[test]
fn room_requires_every_member() {
    assert!(Room::from_json(&Json::parse(&room_report("a", "public", "{}")).unwrap()).is_some());
    assert!(Room::from_json(&Json::parse(&room_report("a", "secret", "{}")).unwrap()).is_none());
    assert!(Room::from_json(&Json::parse(r#"{"name":"a"}"#).unwrap()).is_none());
    assert!(Room::from_json(&Json::parse(&room_report("a", "public", "[]")).unwrap()).is_none());
}

#[test]
fn room_setters_keep_the_last_value() {
    let builder = RoomPropertiesBuilder::new().exp(1).exp(2).lang(DailyLang::De).lang(DailyLang::Fr);
    assert_eq!(builder.exp, Some(2));
    assert_eq!(builder.lang, Some(DailyLang::Fr));
    let mut create = CreateRoom::new();
    create.name("a").name("b").privacy(RoomPrivacy::Private).privacy(RoomPrivacy::Public);
    assert_eq!(create.request_body().to_text(), r#"{"name":"b","privacy":"public"}"#);
}
