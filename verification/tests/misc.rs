use dailyco::client::{parse_dailyco_response, Client, Method, QueryValue};
use dailyco::json::Json;
use dailyco::wire::FromJson;
use dailyco::recording::{
    GetRecordingAccessLink, ListRecordings, ListedRecordings, RecordingAccessLink,
    RecordingObject, RecordingStatus,
};
use dailyco::{DailyCoErrorKind, Error};
use uuid::Uuid;

fn assert_not_found_err<T: std::fmt::Debug>(resp: dailyco::Result<T>) {
    match resp.expect_err("Result was not an error") {
        Error::APIError(err) => {
            assert!(matches!(
                err.error.expect("No error information"),
                DailyCoErrorKind::NotFound
            ))
        }
        err => panic!("Expected not found error, found {}", err.to_string()),
    }
}

const NOT_FOUND: &str = r#"{"error":"not-found","info":"recording not found"}"#;

#[test]
fn get_recording_not_found() {
    let client = Client::new("test-api-key").unwrap();
    let id = Uuid::new_v4();
    let request = client.get_recording_request(id);
    assert_eq!(request.method, Method::Get);
    assert_eq!(request.url, format!("https://api.daily.co/v1//recordings/{}", id));
    let res: Result<RecordingObject, Error> = parse_dailyco_response(404, NOT_FOUND);
    assert_not_found_err(res);
}

#[test]
fn delete_recording_not_found() {
    let client = Client::new("test-api-key").unwrap();
    let id = Uuid::new_v4();
    let request = client.delete_recording_request(id);
    assert_eq!(request.method, Method::Delete);
    assert_eq!(request.url, format!("https://api.daily.co/v1//recordings/{}", id));
    assert_not_found_err(Client::delete_response(404, NOT_FOUND));
}

#[test]
fn get_recording_access_link_not_found() {
    let client = Client::new("test-api-key").unwrap();
    let id = Uuid::new_v4();
    let mut link = GetRecordingAccessLink::new();
    link.valid_for_secs(5000);
    let request = link.send_request(&client, id);
    assert_eq!(request.method, Method::Get);
    assert_eq!(
        request.url,
        format!("https://api.daily.co/v1//recordings/{}/access-link", id)
    );
    assert_eq!(
        request.query,
        vec![("valid_for_secs".to_string(), QueryValue::Number(5000))]
    );
    assert!(request.body.is_none());
    let res: Result<RecordingAccessLink, Error> = parse_dailyco_response(404, NOT_FOUND);
    assert_not_found_err(res);
    let plain = GetRecordingAccessLink::new().send_request(&client, id);
    assert!(plain.query.is_empty());
}

#[test]
fn list_recordings() {
    let client = Client::new("test-api-key").unwrap();
    let mut list = ListRecordings::new();
    list.limit(20);
    let request = list.send_request(&client);
    assert_eq!(request.method, Method::Get);
    assert_eq!(request.url, "https://api.daily.co/v1//recordings");
    assert_eq!(request.query, vec![("limit".to_string(), QueryValue::Number(20))]);
    let listed: ListedRecordings =
        parse_dailyco_response(200, r#"{"total_count":0,"data":[]}"#).unwrap();
    assert_eq!(listed.total_count, 0);
    assert!(listed.data.is_empty());
}

#[test]
fn list_recordings_query_holds_what_is_set_in_order() {
    let client = Client::new("test-api-key").unwrap();
    let before = Uuid::parse_str("0cb313e1-211f-4be0-833d-8c7305b19902").unwrap();
    let after = Uuid::parse_str("7b0c1a64-3d2f-4c6b-9f0e-5a4d3c2b1a00").unwrap();
    let mut list = ListRecordings::new();
    list.room_name("my room").starting_after(after).ending_before(before).limit(5);
    let request = list.send_request(&client);
    assert_eq!(
        request.query,
        vec![
            ("limit".to_string(), QueryValue::Number(5)),
            (
                "ending_before".to_string(),
                QueryValue::Text("0cb313e1-211f-4be0-833d-8c7305b19902".to_string())
            ),
            (
                "starting_after".to_string(),
                QueryValue::Text("7b0c1a64-3d2f-4c6b-9f0e-5a4d3c2b1a00".to_string())
            ),
            ("room_name".to_string(), QueryValue::Text("my room".to_string())),
        ]
    );
    assert!(ListRecordings::new().send_request(&client).query.is_empty());
}

const RECORDING: &str = r#"{"id":"0cb313e1-211f-4be0-833d-8c7305b19902","room_name":"my-room","start_ts":1610473109,"status":"finished","max_participants":3,"duration":45,"share_token":"x","s3key":"k/1610473109","mtgSessionId":"7B0C1A64-3D2F-4C6B-9F0E-5A4D3C2B1A00"}"#;

#[test]
fn recordings_are_read_from_reports() {
    let recording: RecordingObject = parse_dailyco_response(200, RECORDING).unwrap();
    assert_eq!(recording.id, Uuid::parse_str("0cb313e1-211f-4be0-833d-8c7305b19902").unwrap());
    assert_eq!(recording.room_name, "my-room");
    assert_eq!(recording.start_ts, 1610473109);
    assert_eq!(recording.status, RecordingStatus::Finished);
    assert_eq!(recording.max_participants, 3);
    assert_eq!(recording.duration, Some(45));
    assert_eq!(recording.s3key, "k/1610473109");
    assert_eq!(
        recording.meeting_session_id,
        Uuid::parse_str("7b0c1a64-3d2f-4c6b-9f0e-5a4d3c2b1a00").unwrap()
    );
    let listed: ListedRecordings = parse_dailyco_response(
        200,
        &format!(r#"{{"total_count":2,"data":[{},{}]}}"#, RECORDING, RECORDING),
    )
    .unwrap();
    assert_eq!(listed.total_count, 2);
    assert_eq!(listed.data.len(), 2);
}

#[test]
fn recordings_require_their_members() {
    let in_progress = RECORDING.replace("\"duration\":45,", "").replace("finished", "in-progress");
    let recording = RecordingObject::from_json(&Json::parse(&in_progress).unwrap()).unwrap();
    assert_eq!(recording.duration, None);
    assert_eq!(recording.status, RecordingStatus::InProgress);
    for broken in [
        RECORDING.replace("0cb313e1-211f", "not-an-id"),
        RECORDING.replace("\"start_ts\":1610473109,", ""),
        RECORDING.replace("finished", "paused"),
        RECORDING.replace("\"max_participants\":3", "\"max_participants\":-3"),
        RECORDING.replace("mtgSessionId", "meeting_session_id"),
        RECORDING.replace("\"id\":\"0cb313e1-211f-4be0-833d-8c7305b19902\"", "\"id\":7"),
    ] {
        assert!(RecordingObject::from_json(&Json::parse(&broken).unwrap()).is_none(), "{}", broken);
    }
}

#[test]
fn recording_status_names() {
    for (status, name) in [
        (RecordingStatus::Finished, "finished"),
        (RecordingStatus::InProgress, "in-progress"),
        (RecordingStatus::Canceled, "canceled"),
    ] {
        assert_eq!(status.as_str(), name);
        assert_eq!(RecordingStatus::from_name(name), Some(status));
    }
    assert_eq!(RecordingStatus::from_name("cancelled"), None);
}

#[test]
fn access_links_are_read_from_reports() {
    let link: RecordingAccessLink = parse_dailyco_response(
        200,
        r#"{"download_link":"https://bucket.s3.amazonaws.com/x.mp4?sig=1","expires":1610473209}"#,
    )
    .unwrap();
    assert_eq!(link.download_link, "https://bucket.s3.amazonaws.com/x.mp4?sig=1");
    assert_eq!(link.expires, 1610473209);
    let res: Result<RecordingAccessLink, Error> =
        parse_dailyco_response(200, r#"{"download_link":"x"}"#);
    assert!(res.is_err());
}
