use dailyco::configuration::{
    DailyLang, RecordingType, RecordingsBucket, Region, RtmpGeoRegion, SignalingImp,
};
use dailyco::json::Json;
use dailyco::wire::{FromJson, ToJson};
use dailyco::room::RoomPrivacy;

#[test]
fn regions_have_the_names_on_the_wire() {
    let names = [
        (Region::AfSouth1, "af-south1"),
        (Region::ApNortheast2, "ap-northeast2"),
        (Region::ApSoutheast1, "ap-southeast1"),
        (Region::ApSoutheast2, "ap-southeast2"),
        (Region::ApSouth1, "ap-south1"),
        (Region::EuCentral1, "eu-central1"),
        (Region::EuWest2, "eu-west2"),
        (Region::SaEast1, "sa-east1"),
        (Region::UsEast1, "us-east1"),
        (Region::UsWest2, "us-west2"),
    ];
    for (region, name) in names {
        assert_eq!(region.as_str(), name);
        assert_eq!(Region::from_name(name), Some(region));
        assert_eq!(region.to_json(), Json::Str(name.to_string()));
        assert_eq!(Region::from_json(&Json::Str(name.to_string())), Some(region));
    }
    assert_eq!(Region::from_name("mars-north1"), None);
    assert_eq!(Region::from_json(&Json::Null), None);
}

#[test]
fn rtmp_regions_have_the_names_on_the_wire() {
    for (region, name) in [
        (RtmpGeoRegion::UsWest2, "us-west2"),
        (RtmpGeoRegion::EuCentral1, "eu-central1"),
        (RtmpGeoRegion::ApSoutheast1, "ap-southeast1"),
    ] {
        assert_eq!(region.as_str(), name);
        assert_eq!(RtmpGeoRegion::from_name(name), Some(region));
    }
    assert_eq!(RtmpGeoRegion::from_name("us-east1"), None);
}

#[test]
fn languages_have_the_names_on_the_wire() {
    let names = [
        (DailyLang::De, "de"),
        (DailyLang::En, "en"),
        (DailyLang::Es, "es"),
        (DailyLang::Fi, "fi"),
        (DailyLang::Fr, "fr"),
        (DailyLang::It, "it"),
        (DailyLang::Jp, "jp"),
        (DailyLang::Ka, "ka"),
        (DailyLang::Nl, "nl"),
        (DailyLang::No, "no"),
        (DailyLang::Pt, "pt"),
        (DailyLang::Pl, "pl"),
        (DailyLang::Ru, "ru"),
        (DailyLang::Sv, "sv"),
        (DailyLang::Tr, "tr"),
        (DailyLang::User, "user"),
    ];
    for (lang, name) in names {
        assert_eq!(lang.as_str(), name);
        assert_eq!(DailyLang::from_name(name), Some(lang));
    }
    assert_eq!(DailyLang::from_name("EN"), None);
    assert_eq!(DailyLang::from_name(""), None);
}

#[test]
fn recording_types_have_the_names_on_the_wire() {
    for (kind, name) in [
        (RecordingType::Cloud, "cloud"),
        (RecordingType::RtpTracks, "rtp-tracks"),
        (RecordingType::OutputByteStream, "output-byte-stream"),
        (RecordingType::Local, "local"),
    ] {
        assert_eq!(kind.as_str(), name);
        assert_eq!(RecordingType::from_name(name), Some(kind));
    }
    assert_eq!(RecordingType::from_name("rtp_tracks"), None);
}

#[test]
fn documented_defaults() {
    assert_eq!(DailyLang::default(), DailyLang::En);
    assert_eq!(SignalingImp::default(), SignalingImp::Ws);
    assert_eq!(RoomPrivacy::default(), RoomPrivacy::Public);
    assert_eq!(SignalingImp::Ws.as_str(), "ws");
    assert_eq!(SignalingImp::from_name("ws"), Some(SignalingImp::Ws));
    assert_eq!(RoomPrivacy::from_name("private"), Some(RoomPrivacy::Private));
    assert_eq!(RoomPrivacy::Public.as_str(), "public");
    assert_eq!(RoomPrivacy::from_name("Public"), None);
}

#[test]
fn buckets_are_written_and_read() {
    let bucket = RecordingsBucket {
        bucket_name: "name".to_string(),
        bucket_region: "region".to_string(),
        assume_role_arn: "arn".to_string(),
        allow_api_access: false,
        allow_streaming_from_bucket: Some(true),
    };
    let text = bucket.to_json().to_text();
    assert_eq!(
        text,
        r#"{"allow_api_access":false,"allow_streaming_from_bucket":true,"assume_role_arn":"arn","bucket_name":"name","bucket_region":"region"}"#
    );
    assert_eq!(RecordingsBucket::from_json(&Json::parse(&text).unwrap()), Some(bucket));
    let without = RecordingsBucket {
        bucket_name: "name".to_string(),
        bucket_region: "region".to_string(),
        assume_role_arn: "arn".to_string(),
        allow_api_access: true,
        allow_streaming_from_bucket: None,
    };
    let text = without.to_json().to_text();
    assert_eq!(
        text,
        r#"{"allow_api_access":true,"assume_role_arn":"arn","bucket_name":"name","bucket_region":"region"}"#
    );
    assert_eq!(RecordingsBucket::from_json(&Json::parse(&text).unwrap()), Some(without));
    assert_eq!(
        RecordingsBucket::from_json(&Json::parse(r#"{"bucket_name":"name"}"#).unwrap()),
        None
    );
}
