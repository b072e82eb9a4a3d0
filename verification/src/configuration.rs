//! The option sets of `Daily` rooms and meeting tokens, and the names that the
//! service has for their values.
use crate::json::{lemma_object_map_empty, object, put_member, Json, JsonView};
use crate::text::str_eq;
use crate::wire::{
    json_of_option, optional_of, put_option, read_optional, read_required, required_of,
    to_json_option, with_member, FromJson, ToJson,
};
use vstd::prelude::*;

verus! {

/// Signaling server region for hosting a call.
#[derive(Debug, Copy, Clone, PartialEq, Eq, Structural)]
#[non_exhaustive]
pub enum Region {
    /// Cape Town
    AfSouth1,
    /// Seoul
    ApNortheast2,
    /// Singapore
    ApSoutheast1,
    /// Sydney
    ApSoutheast2,
    /// Mumbai
    ApSouth1,
    /// Frankfurt
    EuCentral1,
    /// London
    EuWest2,
    /// Sao Paulo
    SaEast1,
    /// N. Virginia
    UsEast1,
    /// Oregon
    UsWest2,
}

impl Region {
    /// The name that the service has for the region.
    pub open spec fn name(self) -> Seq<char> {
        match self {
            Region::AfSouth1 => "af-south1"@,
            Region::ApNortheast2 => "ap-northeast2"@,
            Region::ApSoutheast1 => "ap-southeast1"@,
            Region::ApSoutheast2 => "ap-southeast2"@,
            Region::ApSouth1 => "ap-south1"@,
            Region::EuCentral1 => "eu-central1"@,
            Region::EuWest2 => "eu-west2"@,
            Region::SaEast1 => "sa-east1"@,
            Region::UsEast1 => "us-east1"@,
            Region::UsWest2 => "us-west2"@,
        }
    }

    /// The region that the service has that name for, where there is one.
    pub open spec fn named(s: Seq<char>) -> Option<Region> {
        if s == "af-south1"@ {
            Some(Region::AfSouth1)
        } else if s == "ap-northeast2"@ {
            Some(Region::ApNortheast2)
        } else if s == "ap-southeast1"@ {
            Some(Region::ApSoutheast1)
        } else if s == "ap-southeast2"@ {
            Some(Region::ApSoutheast2)
        } else if s == "ap-south1"@ {
            Some(Region::ApSouth1)
        } else if s == "eu-central1"@ {
            Some(Region::EuCentral1)
        } else if s == "eu-west2"@ {
            Some(Region::EuWest2)
        } else if s == "sa-east1"@ {
            Some(Region::SaEast1)
        } else if s == "us-east1"@ {
            Some(Region::UsEast1)
        } else if s == "us-west2"@ {
            Some(Region::UsWest2)
        } else {
            None
        }
    }

    /// The name that the service has for the region.
    pub fn as_str(&self) -> (r: &'static str)
        ensures
            r@ == self.name(),
    {
        match self {
            Region::AfSouth1 => "af-south1",
            Region::ApNortheast2 => "ap-northeast2",
            Region::ApSoutheast1 => "ap-southeast1",
            Region::ApSoutheast2 => "ap-southeast2",
            Region::ApSouth1 => "ap-south1",
            Region::EuCentral1 => "eu-central1",
            Region::EuWest2 => "eu-west2",
            Region::SaEast1 => "sa-east1",
            Region::UsEast1 => "us-east1",
            Region::UsWest2 => "us-west2",
        }
    }

    /// The region of that name, and nothing for a name that the service
    /// is not known to use.
    pub fn from_name(s: &str) -> (r: Option<Region>)
        ensures
            r == Self::named(s@),
    {
        if str_eq(s, "af-south1") {
            Some(Region::AfSouth1)
        } else if str_eq(s, "ap-northeast2") {
            Some(Region::ApNortheast2)
        } else if str_eq(s, "ap-southeast1") {
            Some(Region::ApSoutheast1)
        } else if str_eq(s, "ap-southeast2") {
            Some(Region::ApSoutheast2)
        } else if str_eq(s, "ap-south1") {
            Some(Region::ApSouth1)
        } else if str_eq(s, "eu-central1") {
            Some(Region::EuCentral1)
        } else if str_eq(s, "eu-west2") {
            Some(Region::EuWest2)
        } else if str_eq(s, "sa-east1") {
            Some(Region::SaEast1)
        } else if str_eq(s, "us-east1") {
            Some(Region::UsEast1)
        } else if str_eq(s, "us-west2") {
            Some(Region::UsWest2)
        } else {
            None
        }
    }

    /// Each region is the one that its own name stands for.
    pub proof fn lemma_named_name(self)
        ensures
            Self::named(self.name()) == Some(self),
    {
        reveal_strlit("af-south1");
        reveal_strlit("ap-northeast2");
        reveal_strlit("ap-southeast1");
        reveal_strlit("ap-southeast2");
        reveal_strlit("ap-south1");
        reveal_strlit("eu-central1");
        reveal_strlit("eu-west2");
        reveal_strlit("sa-east1");
        reveal_strlit("us-east1");
        reveal_strlit("us-west2");
        assert("af-south1"@.len() == 9 && "af-south1"@[1] == 'f' && "af-south1"@[3] == 's');
        assert(
            "ap-northeast2"@.len() == 13
            && "ap-northeast2"@[1] == 'p'
            && "ap-northeast2"@[3] == 'n'
            && "ap-northeast2"@[12] == '2'
        );
        assert(
            "ap-southeast1"@.len() == 13
            && "ap-southeast1"@[1] == 'p'
            && "ap-southeast1"@[3] == 's'
            && "ap-southeast1"@[12] == '1'
        );
        assert(
            "ap-southeast2"@.len() == 13
            && "ap-southeast2"@[1] == 'p'
            && "ap-southeast2"@[3] == 's'
            && "ap-southeast2"@[12] == '2'
        );
        assert("ap-south1"@.len() == 9 && "ap-south1"@[1] == 'p' && "ap-south1"@[3] == 's');
        assert("eu-central1"@.len() == 11 && "eu-central1"@[1] == 'u' && "eu-central1"@[3] == 'c');
        assert("eu-west2"@.len() == 8 && "eu-west2"@[1] == 'u' && "eu-west2"@[3] == 'w');
        assert("sa-east1"@.len() == 8 && "sa-east1"@[1] == 'a' && "sa-east1"@[3] == 'e');
        assert("us-east1"@.len() == 8 && "us-east1"@[1] == 's' && "us-east1"@[3] == 'e');
        assert("us-west2"@.len() == 8 && "us-west2"@[1] == 's' && "us-west2"@[3] == 'w');
    }
}

impl View for Region {
    type V = Region;

    open spec fn view(&self) -> Region {
        *self
    }
}

impl FromJson for Region {
    open spec fn of_json(v: JsonView) -> Option<Region> {
        match v {
            JsonView::Text(s) => Self::named(s),
            _ => None,
        }
    }

    fn from_json(j: &Json) -> (r: Option<Region>)
        ensures
            match r {
                Some(x) => Self::of_json(j@) == Some(x@),
                None => Self::of_json(j@) is None,
            },
    {
        match j.as_str() {
            Some(s) => Self::from_name(s),
            None => None,
        }
    }
}

impl ToJson for Region {
    open spec fn json_of(v: Region) -> JsonView {
        JsonView::Text(v.name())
    }

    fn to_json(&self) -> (j: Json)
        ensures
            j@ == Self::json_of(self@),
    {
        Json::Str(self.as_str().to_owned())
    }
}

/// Used to select the region where an RTMP stream should originate.
#[derive(Debug, Copy, Clone, PartialEq, Eq, Structural)]
#[non_exhaustive]
pub enum RtmpGeoRegion {
    /// Oregon
    UsWest2,
    /// Frankfurt
    EuCentral1,
    /// Singapore
    ApSoutheast1,
}

impl RtmpGeoRegion {
    /// The name that the service has for the region.
    pub open spec fn name(self) -> Seq<char> {
        match self {
            RtmpGeoRegion::UsWest2 => "us-west2"@,
            RtmpGeoRegion::EuCentral1 => "eu-central1"@,
            RtmpGeoRegion::ApSoutheast1 => "ap-southeast1"@,
        }
    }

    /// The region that the service has that name for, where there is one.
    pub open spec fn named(s: Seq<char>) -> Option<RtmpGeoRegion> {
        if s == "us-west2"@ {
            Some(RtmpGeoRegion::UsWest2)
        } else if s == "eu-central1"@ {
            Some(RtmpGeoRegion::EuCentral1)
        } else if s == "ap-southeast1"@ {
            Some(RtmpGeoRegion::ApSoutheast1)
        } else {
            None
        }
    }

    /// The name that the service has for the region.
    pub fn as_str(&self) -> (r: &'static str)
        ensures
            r@ == self.name(),
    {
        match self {
            RtmpGeoRegion::UsWest2 => "us-west2",
            RtmpGeoRegion::EuCentral1 => "eu-central1",
            RtmpGeoRegion::ApSoutheast1 => "ap-southeast1",
        }
    }

    /// The region of that name, and nothing for a name that the service
    /// is not known to use.
    pub fn from_name(s: &str) -> (r: Option<RtmpGeoRegion>)
        ensures
            r == Self::named(s@),
    {
        if str_eq(s, "us-west2") {
            Some(RtmpGeoRegion::UsWest2)
        } else if str_eq(s, "eu-central1") {
            Some(RtmpGeoRegion::EuCentral1)
        } else if str_eq(s, "ap-southeast1") {
            Some(RtmpGeoRegion::ApSoutheast1)
        } else {
            None
        }
    }

    /// Each region is the one that its own name stands for.
    pub proof fn lemma_named_name(self)
        ensures
            Self::named(self.name()) == Some(self),
    {
        reveal_strlit("us-west2");
        reveal_strlit("eu-central1");
        reveal_strlit("ap-southeast1");
        assert("us-west2"@.len() == 8);
        assert("eu-central1"@.len() == 11);
        assert("ap-southeast1"@.len() == 13);
    }
}

impl View for RtmpGeoRegion {
    type V = RtmpGeoRegion;

    open spec fn view(&self) -> RtmpGeoRegion {
        *self
    }
}

impl FromJson for RtmpGeoRegion {
    open spec fn of_json(v: JsonView) -> Option<RtmpGeoRegion> {
        match v {
            JsonView::Text(s) => Self::named(s),
            _ => None,
        }
    }

    fn from_json(j: &Json) -> (r: Option<RtmpGeoRegion>)
        ensures
            match r {
                Some(x) => Self::of_json(j@) == Some(x@),
                None => Self::of_json(j@) is None,
            },
    {
        match j.as_str() {
            Some(s) => Self::from_name(s),
            None => None,
        }
    }
}

impl ToJson for RtmpGeoRegion {
    open spec fn json_of(v: RtmpGeoRegion) -> JsonView {
        JsonView::Text(v.name())
    }

    fn to_json(&self) -> (j: Json)
        ensures
            j@ == Self::json_of(self@),
    {
        Json::Str(self.as_str().to_owned())
    }
}

/// Options for the default language of a Daily room.
#[derive(Debug, Copy, Clone, PartialEq, Eq, Structural)]
#[non_exhaustive]
pub enum DailyLang {
    /// German
    De,
    /// English
    En,
    /// Spanish
    Es,
    /// Finnish
    Fi,
    /// French
    Fr,
    /// Italian
    It,
    /// Japanese
    Jp,
    /// Georgian
    Ka,
    /// Dutch
    Nl,
    /// Norwegian
    No,
    /// Portuguese
    Pt,
    /// Polish
    Pl,
    /// Russian
    Ru,
    /// Swedish
    Sv,
    /// Turkish
    Tr,
    /// Default to user language preferences
    User,
}

impl DailyLang {
    /// The name that the service has for the language.
    pub open spec fn name(self) -> Seq<char> {
        match self {
            DailyLang::De => "de"@,
            DailyLang::En => "en"@,
            DailyLang::Es => "es"@,
            DailyLang::Fi => "fi"@,
            DailyLang::Fr => "fr"@,
            DailyLang::It => "it"@,
            DailyLang::Jp => "jp"@,
            DailyLang::Ka => "ka"@,
            DailyLang::Nl => "nl"@,
            DailyLang::No => "no"@,
            DailyLang::Pt => "pt"@,
            DailyLang::Pl => "pl"@,
            DailyLang::Ru => "ru"@,
            DailyLang::Sv => "sv"@,
            DailyLang::Tr => "tr"@,
            DailyLang::User => "user"@,
        }
    }

    /// The language that the service has that name for, where there is one.
    pub open spec fn named(s: Seq<char>) -> Option<DailyLang> {
        if s == "de"@ {
            Some(DailyLang::De)
        } else if s == "en"@ {
            Some(DailyLang::En)
        } else if s == "es"@ {
            Some(DailyLang::Es)
        } else if s == "fi"@ {
            Some(DailyLang::Fi)
        } else if s == "fr"@ {
            Some(DailyLang::Fr)
        } else if s == "it"@ {
            Some(DailyLang::It)
        } else if s == "jp"@ {
            Some(DailyLang::Jp)
        } else if s == "ka"@ {
            Some(DailyLang::Ka)
        } else if s == "nl"@ {
            Some(DailyLang::Nl)
        } else if s == "no"@ {
            Some(DailyLang::No)
        } else if s == "pt"@ {
            Some(DailyLang::Pt)
        } else if s == "pl"@ {
            Some(DailyLang::Pl)
        } else if s == "ru"@ {
            Some(DailyLang::Ru)
        } else if s == "sv"@ {
            Some(DailyLang::Sv)
        } else if s == "tr"@ {
            Some(DailyLang::Tr)
        } else if s == "user"@ {
            Some(DailyLang::User)
        } else {
            None
        }
    }

    /// The name that the service has for the language.
    pub fn as_str(&self) -> (r: &'static str)
        ensures
            r@ == self.name(),
    {
        match self {
            DailyLang::De => "de",
            DailyLang::En => "en",
            DailyLang::Es => "es",
            DailyLang::Fi => "fi",
            DailyLang::Fr => "fr",
            DailyLang::It => "it",
            DailyLang::Jp => "jp",
            DailyLang::Ka => "ka",
            DailyLang::Nl => "nl",
            DailyLang::No => "no",
            DailyLang::Pt => "pt",
            DailyLang::Pl => "pl",
            DailyLang::Ru => "ru",
            DailyLang::Sv => "sv",
            DailyLang::Tr => "tr",
            DailyLang::User => "user",
        }
    }

    /// The language of that name, and nothing for a name that the service
    /// is not known to use.
    pub fn from_name(s: &str) -> (r: Option<DailyLang>)
        ensures
            r == Self::named(s@),
    {
        if str_eq(s, "de") {
            Some(DailyLang::De)
        } else if str_eq(s, "en") {
            Some(DailyLang::En)
        } else if str_eq(s, "es") {
            Some(DailyLang::Es)
        } else if str_eq(s, "fi") {
            Some(DailyLang::Fi)
        } else if str_eq(s, "fr") {
            Some(DailyLang::Fr)
        } else if str_eq(s, "it") {
            Some(DailyLang::It)
        } else if str_eq(s, "jp") {
            Some(DailyLang::Jp)
        } else if str_eq(s, "ka") {
            Some(DailyLang::Ka)
        } else if str_eq(s, "nl") {
            Some(DailyLang::Nl)
        } else if str_eq(s, "no") {
            Some(DailyLang::No)
        } else if str_eq(s, "pt") {
            Some(DailyLang::Pt)
        } else if str_eq(s, "pl") {
            Some(DailyLang::Pl)
        } else if str_eq(s, "ru") {
            Some(DailyLang::Ru)
        } else if str_eq(s, "sv") {
            Some(DailyLang::Sv)
        } else if str_eq(s, "tr") {
            Some(DailyLang::Tr)
        } else if str_eq(s, "user") {
            Some(DailyLang::User)
        } else {
            None
        }
    }

    /// Each language is the one that its own name stands for.
    pub proof fn lemma_named_name(self)
        ensures
            Self::named(self.name()) == Some(self),
    {
        reveal_strlit("de");
        reveal_strlit("en");
        reveal_strlit("es");
        reveal_strlit("fi");
        reveal_strlit("fr");
        reveal_strlit("it");
        reveal_strlit("jp");
        reveal_strlit("ka");
        reveal_strlit("nl");
        reveal_strlit("no");
        reveal_strlit("pt");
        reveal_strlit("pl");
        reveal_strlit("ru");
        reveal_strlit("sv");
        reveal_strlit("tr");
        reveal_strlit("user");
        assert("de"@.len() == 2 && "de"@[0] == 'd' && "de"@[1] == 'e');
        assert("en"@.len() == 2 && "en"@[0] == 'e' && "en"@[1] == 'n');
        assert("es"@.len() == 2 && "es"@[0] == 'e' && "es"@[1] == 's');
        assert("fi"@.len() == 2 && "fi"@[0] == 'f' && "fi"@[1] == 'i');
        assert("fr"@.len() == 2 && "fr"@[0] == 'f' && "fr"@[1] == 'r');
        assert("it"@.len() == 2 && "it"@[0] == 'i' && "it"@[1] == 't');
        assert("jp"@.len() == 2 && "jp"@[0] == 'j' && "jp"@[1] == 'p');
        assert("ka"@.len() == 2 && "ka"@[0] == 'k' && "ka"@[1] == 'a');
        assert("nl"@.len() == 2 && "nl"@[0] == 'n' && "nl"@[1] == 'l');
        assert("no"@.len() == 2 && "no"@[0] == 'n' && "no"@[1] == 'o');
        assert("pt"@.len() == 2 && "pt"@[0] == 'p' && "pt"@[1] == 't');
        assert("pl"@.len() == 2 && "pl"@[0] == 'p' && "pl"@[1] == 'l');
        assert("ru"@.len() == 2 && "ru"@[0] == 'r' && "ru"@[1] == 'u');
        assert("sv"@.len() == 2 && "sv"@[0] == 's' && "sv"@[1] == 'v');
        assert("tr"@.len() == 2 && "tr"@[0] == 't' && "tr"@[1] == 'r');
        assert("user"@.len() == 4 && "user"@[0] == 'u' && "user"@[1] == 's');
    }
}

impl View for DailyLang {
    type V = DailyLang;

    open spec fn view(&self) -> DailyLang {
        *self
    }
}

impl FromJson for DailyLang {
    open spec fn of_json(v: JsonView) -> Option<DailyLang> {
        match v {
            JsonView::Text(s) => Self::named(s),
            _ => None,
        }
    }

    fn from_json(j: &Json) -> (r: Option<DailyLang>)
        ensures
            match r {
                Some(x) => Self::of_json(j@) == Some(x@),
                None => Self::of_json(j@) is None,
            },
    {
        match j.as_str() {
            Some(s) => Self::from_name(s),
            None => None,
        }
    }
}

impl ToJson for DailyLang {
    open spec fn json_of(v: DailyLang) -> JsonView {
        JsonView::Text(v.name())
    }

    fn to_json(&self) -> (j: Json)
        ensures
            j@ == Self::json_of(self@),
    {
        Json::Str(self.as_str().to_owned())
    }
}

impl Default for DailyLang {
    /// The language that the service documents as its default: English.
    fn default() -> (r: Self)
        ensures
            r == DailyLang::En,
    {
        DailyLang::En
    }
}

/// Options for a recording type, details provided
/// [here](https://docs.daily.co/reference/rest-api/rooms/config#enable_recording).
#[derive(Debug, Copy, Clone, PartialEq, Eq, Structural)]
#[non_exhaustive]
pub enum RecordingType {
    /// Cloud recording, done server-side.
    Cloud,
    /// `rtp-tracks` captures each individual media track from a call separately.
    RtpTracks,
    /// `output-byte-stream` records byte-level data locally.
    OutputByteStream,
    /// Record to participant's device.
    Local,
}

impl RecordingType {
    /// The name that the service has for the recording type.
    pub open spec fn name(self) -> Seq<char> {
        match self {
            RecordingType::Cloud => "cloud"@,
            RecordingType::RtpTracks => "rtp-tracks"@,
            RecordingType::OutputByteStream => "output-byte-stream"@,
            RecordingType::Local => "local"@,
        }
    }

    /// The recording type that the service has that name for, where there is one.
    pub open spec fn named(s: Seq<char>) -> Option<RecordingType> {
        if s == "cloud"@ {
            Some(RecordingType::Cloud)
        } else if s == "rtp-tracks"@ {
            Some(RecordingType::RtpTracks)
        } else if s == "output-byte-stream"@ {
            Some(RecordingType::OutputByteStream)
        } else if s == "local"@ {
            Some(RecordingType::Local)
        } else {
            None
        }
    }

    /// The name that the service has for the recording type.
    pub fn as_str(&self) -> (r: &'static str)
        ensures
            r@ == self.name(),
    {
        match self {
            RecordingType::Cloud => "cloud",
            RecordingType::RtpTracks => "rtp-tracks",
            RecordingType::OutputByteStream => "output-byte-stream",
            RecordingType::Local => "local",
        }
    }

    /// The recording type of that name, and nothing for a name that the service
    /// is not known to use.
    pub fn from_name(s: &str) -> (r: Option<RecordingType>)
        ensures
            r == Self::named(s@),
    {
        if str_eq(s, "cloud") {
            Some(RecordingType::Cloud)
        } else if str_eq(s, "rtp-tracks") {
            Some(RecordingType::RtpTracks)
        } else if str_eq(s, "output-byte-stream") {
            Some(RecordingType::OutputByteStream)
        } else if str_eq(s, "local") {
            Some(RecordingType::Local)
        } else {
            None
        }
    }

    /// Each recording type is the one that its own name stands for.
    pub proof fn lemma_named_name(self)
        ensures
            Self::named(self.name()) == Some(self),
    {
        reveal_strlit("cloud");
        reveal_strlit("rtp-tracks");
        reveal_strlit("output-byte-stream");
        reveal_strlit("local");
        assert("cloud"@.len() == 5 && "cloud"@[0] == 'c');
        assert("rtp-tracks"@.len() == 10 && "rtp-tracks"@[0] == 'r');
        assert("output-byte-stream"@.len() == 18 && "output-byte-stream"@[0] == 'o');
        assert("local"@.len() == 5 && "local"@[0] == 'l');
    }
}

impl View for RecordingType {
    type V = RecordingType;

    open spec fn view(&self) -> RecordingType {
        *self
    }
}

impl FromJson for RecordingType {
    open spec fn of_json(v: JsonView) -> Option<RecordingType> {
        match v {
            JsonView::Text(s) => Self::named(s),
            _ => None,
        }
    }

    fn from_json(j: &Json) -> (r: Option<RecordingType>)
        ensures
            match r {
                Some(x) => Self::of_json(j@) == Some(x@),
                None => Self::of_json(j@) is None,
            },
    {
        match j.as_str() {
            Some(s) => Self::from_name(s),
            None => None,
        }
    }
}

impl ToJson for RecordingType {
    open spec fn json_of(v: RecordingType) -> JsonView {
        JsonView::Text(v.name())
    }

    fn to_json(&self) -> (j: Json)
        ensures
            j@ == Self::json_of(self@),
    {
        Json::Str(self.as_str().to_owned())
    }
}

/// Signaling type, seen in <https://docs.daily.co/reference/rest-api/rooms/config#signaling_imp>.
#[derive(Debug, Copy, Clone, PartialEq, Eq, Structural)]
#[non_exhaustive]
pub enum SignalingImp {
    /// `ws` signaling type
    Ws,
}

impl SignalingImp {
    /// The name that the service has for the signaling type.
    pub open spec fn name(self) -> Seq<char> {
        match self {
            SignalingImp::Ws => "ws"@,
        }
    }

    /// The signaling type that the service has that name for, where there is one.
    pub open spec fn named(s: Seq<char>) -> Option<SignalingImp> {
        if s == "ws"@ {
            Some(SignalingImp::Ws)
        } else {
            None
        }
    }

    /// The name that the service has for the signaling type.
    pub fn as_str(&self) -> (r: &'static str)
        ensures
            r@ == self.name(),
    {
        match self {
            SignalingImp::Ws => "ws",
        }
    }

    /// The signaling type of that name, and nothing for a name that the service
    /// is not known to use.
    pub fn from_name(s: &str) -> (r: Option<SignalingImp>)
        ensures
            r == Self::named(s@),
    {
        if str_eq(s, "ws") {
            Some(SignalingImp::Ws)
        } else {
            None
        }
    }

    /// Each signaling type is the one that its own name stands for.
    pub proof fn lemma_named_name(self)
        ensures
            Self::named(self.name()) == Some(self),
    {
    }
}

impl View for SignalingImp {
    type V = SignalingImp;

    open spec fn view(&self) -> SignalingImp {
        *self
    }
}

impl FromJson for SignalingImp {
    open spec fn of_json(v: JsonView) -> Option<SignalingImp> {
        match v {
            JsonView::Text(s) => Self::named(s),
            _ => None,
        }
    }

    fn from_json(j: &Json) -> (r: Option<SignalingImp>)
        ensures
            match r {
                Some(x) => Self::of_json(j@) == Some(x@),
                None => Self::of_json(j@) is None,
            },
    {
        match j.as_str() {
            Some(s) => Self::from_name(s),
            None => None,
        }
    }
}

impl ToJson for SignalingImp {
    open spec fn json_of(v: SignalingImp) -> JsonView {
        JsonView::Text(v.name())
    }

    fn to_json(&self) -> (j: Json)
        ensures
            j@ == Self::json_of(self@),
    {
        Json::Str(self.as_str().to_owned())
    }
}

impl Default for SignalingImp {
    /// The only signaling type there is.
    fn default() -> (r: Self)
        ensures
            r == SignalingImp::Ws,
    {
        SignalingImp::Ws
    }
}

/// Configures an S3 bucket in which to store recordings.
#[derive(Debug, Clone, PartialEq, Eq)]
pub struct RecordingsBucket {
    /// The name of the Amazon S3 bucket to use for recording storage.
    pub bucket_name: String,
    /// The region which the specified S3 bucket is located in.
    pub bucket_region: String,
    /// The Amazon Resource Name (ARN) of the role Daily should assume
    /// when storing the recording in the specified bucket.
    pub assume_role_arn: String,
    /// Whether the recording should be accessible using Daily's API.
    pub allow_api_access: bool,
    /// Specifies which Content-Disposition response header the recording link retrieved
    /// from the access-link REST API endpoint will have.
    pub allow_streaming_from_bucket: Option<bool>,
}

/// What a `RecordingsBucket` holds.
pub struct RecordingsBucketView {
    pub bucket_name: Seq<char>,
    pub bucket_region: Seq<char>,
    pub assume_role_arn: Seq<char>,
    pub allow_api_access: bool,
    pub allow_streaming_from_bucket: Option<bool>,
}

impl View for RecordingsBucket {
    type V = RecordingsBucketView;

    open spec fn view(&self) -> RecordingsBucketView {
        RecordingsBucketView {
            bucket_name: self.bucket_name@,
            bucket_region: self.bucket_region@,
            assume_role_arn: self.assume_role_arn@,
            allow_api_access: self.allow_api_access,
            allow_streaming_from_bucket: self.allow_streaming_from_bucket,
        }
    }
}

impl RecordingsBucketView {
    /// The members that a bucket is written as: the last of them only where it
    /// is set.
    pub open spec fn members(self) -> Map<Seq<char>, JsonView> {
        let m = Map::<Seq<char>, JsonView>::empty();
        let m = m.insert("bucket_name"@, JsonView::Text(self.bucket_name));
        let m = m.insert("bucket_region"@, JsonView::Text(self.bucket_region));
        let m = m.insert("assume_role_arn"@, JsonView::Text(self.assume_role_arn));
        let m = m.insert("allow_api_access"@, JsonView::Bool(self.allow_api_access));
        with_member(
            m,
            "allow_streaming_from_bucket"@,
            json_of_option::<bool>(self.allow_streaming_from_bucket),
        )
    }

    /// What a bucket is written as holds the member that may be missing exactly
    /// where it is set, and then as it was set.
    pub proof fn lemma_streaming_member(self)
        ensures
            JsonView::Object(self.members()).member("allow_streaming_from_bucket"@)
                == json_of_option::<bool>(self.allow_streaming_from_bucket),
            self.allow_streaming_from_bucket is None ==> !self.members().contains_key(
                "allow_streaming_from_bucket"@,
            ),
    {
        reveal_strlit("bucket_name");
        reveal_strlit("bucket_region");
        reveal_strlit("assume_role_arn");
        reveal_strlit("allow_api_access");
        reveal_strlit("allow_streaming_from_bucket");
        assert("bucket_name"@.len() == 11);
        assert("bucket_region"@.len() == 13);
        assert("assume_role_arn"@.len() == 15);
        assert("allow_api_access"@.len() == 16);
        assert("allow_streaming_from_bucket"@.len() == 27);
    }

    /// Reading back what a bucket is written as gives the bucket.
    pub proof fn lemma_round_trip(self)
        ensures
            RecordingsBucket::of_json(RecordingsBucket::json_of(self)) == Some(self),
    {
        reveal(read_optional);
        reveal(read_required);
        reveal_strlit("bucket_name");
        reveal_strlit("bucket_region");
        reveal_strlit("assume_role_arn");
        reveal_strlit("allow_api_access");
        reveal_strlit("allow_streaming_from_bucket");
        assert("bucket_name"@.len() == 11);
        assert("bucket_region"@.len() == 13);
        assert("assume_role_arn"@.len() == 15);
        assert("allow_api_access"@.len() == 16);
        assert("allow_streaming_from_bucket"@.len() == 27);
    }
}

impl ToJson for RecordingsBucket {
    open spec fn json_of(v: RecordingsBucketView) -> JsonView {
        JsonView::Object(v.members())
    }

    fn to_json(&self) -> (j: Json)
        ensures
            j@ == Self::json_of(self@),
    {
        let mut out: Vec<(String, Json)> = Vec::new();
        proof {
            lemma_object_map_empty(out@);
        }
        put_member(&mut out, "bucket_name", self.bucket_name.to_json());
        put_member(&mut out, "bucket_region", self.bucket_region.to_json());
        put_member(&mut out, "assume_role_arn", self.assume_role_arn.to_json());
        put_member(&mut out, "allow_api_access", self.allow_api_access.to_json());
        put_option(
            &mut out,
            "allow_streaming_from_bucket",
            to_json_option(&self.allow_streaming_from_bucket),
        );
        object(out)
    }
}

impl FromJson for RecordingsBucket {
    /// The first four members must be there; the last may be missing.
    open spec fn of_json(v: JsonView) -> Option<RecordingsBucketView> {
        let bucket_name = read_required::<String>(v.member("bucket_name"@));
        let bucket_region = read_required::<String>(v.member("bucket_region"@));
        let assume_role_arn = read_required::<String>(v.member("assume_role_arn"@));
        let allow_api_access = read_required::<bool>(v.member("allow_api_access"@));
        let allow_streaming_from_bucket = read_optional::<bool>(
            v.member("allow_streaming_from_bucket"@),
        );
        if v is Object && bucket_name is Some && bucket_region is Some && assume_role_arn is Some
            && allow_api_access is Some && allow_streaming_from_bucket is Some {
            Some(
                RecordingsBucketView {
                    bucket_name: bucket_name.unwrap(),
                    bucket_region: bucket_region.unwrap(),
                    assume_role_arn: assume_role_arn.unwrap(),
                    allow_api_access: allow_api_access.unwrap(),
                    allow_streaming_from_bucket: allow_streaming_from_bucket.unwrap(),
                },
            )
        } else {
            None
        }
    }

    fn from_json(j: &Json) -> (r: Option<RecordingsBucket>)
        ensures
            match r {
                Some(x) => Self::of_json(j@) == Some(x@),
                None => Self::of_json(j@) is None,
            },
    {
        if !j.is_object() {
            return None;
        }
        let bucket_name = required_of::<String>(j.get("bucket_name"))?;
        let bucket_region = required_of::<String>(j.get("bucket_region"))?;
        let assume_role_arn = required_of::<String>(j.get("assume_role_arn"))?;
        let allow_api_access = required_of::<bool>(j.get("allow_api_access"))?;
        let allow_streaming_from_bucket = optional_of::<bool>(
            j.get("allow_streaming_from_bucket"),
        )?;
        Some(
            RecordingsBucket {
                bucket_name,
                bucket_region,
                assume_role_arn,
                allow_api_access,
                allow_streaming_from_bucket,
            },
        )
    }
}

} // verus!
