//! Functionality related to `Daily` recordings.
use crate::client::{
    query_view, Client, ClientView, Method, QueryValue, QueryValueView, Request, RequestView,
};
use crate::json::{opt_view, Json, JsonView};
use crate::text::str_eq;
use crate::wire::{
    list_of, optional_of, read_list, read_optional, read_required, required_of, seq_view,
    FromJson, ToJson,
};
use vstd::prelude::*;
use vstd::string::StringExecFns;

verus! {

/// `uuid::Uuid`: the id of a recording or of a meeting session, carried as it
/// is.
#[verifier::external_type_specification]
#[verifier::external_body]
pub struct ExUuid(uuid::Uuid);

/// `Clone for Uuid`: the copy is the same id.
pub assume_specification[ <uuid::Uuid as Clone>::clone ](id: &uuid::Uuid) -> (r: uuid::Uuid)
    ensures
        r == *id,
;

/// The 128 bits of an id: what `Uuid::as_u128` gives.
pub uninterp spec fn uuid_bits(id: uuid::Uuid) -> u128;

/// The text that `uuid` prints for the id of these bits: lower-case
/// hexadecimal digits in five groups with hyphens between them.
pub uninterp spec fn uuid_text(bits: u128) -> Seq<char>;

/// The bits of the id that `Uuid::parse_str` reads from a text, where it reads
/// one.
pub uninterp spec fn uuid_parsed(text: Seq<char>) -> Option<u128>;

/// `Display for Uuid`: the text of an id.
#[verifier::external_body]
pub(crate) fn uuid_string(id: &uuid::Uuid) -> (r: String)
    ensures
        r@ == uuid_text(uuid_bits(*id)),
{
    id.to_string()
}

/// `Uuid::parse_str`: the id that a text stands for, where it stands for one;
/// what it says of another text is dropped.
#[verifier::external_body]
fn uuid_parse(text: &str) -> (r: Option<uuid::Uuid>)
    ensures
        match r {
            Some(id) => uuid_parsed(text@) == Some(uuid_bits(id)),
            None => uuid_parsed(text@) is None,
        },
{
    uuid::Uuid::parse_str(text).ok()
}

/// The bits of the id that a member holds, where it holds the text of one.
pub open spec fn read_uuid(member: Option<JsonView>) -> Option<u128> {
    match member {
        Some(JsonView::Text(text)) => uuid_parsed(text),
        _ => None,
    }
}

/// What an id that may be missing holds.
pub open spec fn opt_bits(id: Option<uuid::Uuid>) -> Option<u128> {
    match id {
        Some(x) => Some(uuid_bits(x)),
        None => None,
    }
}

/// Reads the id that a member holds.
pub fn uuid_of(member: Option<&Json>) -> (r: Option<uuid::Uuid>)
    ensures
        opt_bits(r) == read_uuid(opt_view(member)),
{
    match member {
        Some(j) => match j.as_str() {
            Some(text) => uuid_parse(text),
            None => None,
        },
        None => None,
    }
}

/// The status of a recording.
#[derive(Debug, Copy, Clone, PartialEq, Eq, Hash, Structural)]
pub enum RecordingStatus {
    /// Finished
    Finished,
    /// In-progress
    InProgress,
    /// Canceled
    Canceled,
}

impl RecordingStatus {
    /// The name that the service has for the status.
    pub open spec fn name(self) -> Seq<char> {
        match self {
            RecordingStatus::Finished => "finished"@,
            RecordingStatus::InProgress => "in-progress"@,
            RecordingStatus::Canceled => "canceled"@,
        }
    }

    /// The status that the service has that name for, where there is one.
    pub open spec fn named(s: Seq<char>) -> Option<RecordingStatus> {
        if s == "finished"@ {
            Some(RecordingStatus::Finished)
        } else if s == "in-progress"@ {
            Some(RecordingStatus::InProgress)
        } else if s == "canceled"@ {
            Some(RecordingStatus::Canceled)
        } else {
            None
        }
    }

    /// The name that the service has for the status.
    pub fn as_str(&self) -> (r: &'static str)
        ensures
            r@ == self.name(),
    {
        match self {
            RecordingStatus::Finished => "finished",
            RecordingStatus::InProgress => "in-progress",
            RecordingStatus::Canceled => "canceled",
        }
    }

    /// The status of that name, and nothing for a name that the service
    /// is not known to use.
    pub fn from_name(s: &str) -> (r: Option<RecordingStatus>)
        ensures
            r == Self::named(s@),
    {
        if str_eq(s, "finished") {
            Some(RecordingStatus::Finished)
        } else if str_eq(s, "in-progress") {
            Some(RecordingStatus::InProgress)
        } else if str_eq(s, "canceled") {
            Some(RecordingStatus::Canceled)
        } else {
            None
        }
    }

    /// Each status is the one that its own name stands for.
    pub proof fn lemma_named_name(self)
        ensures
            Self::named(self.name()) == Some(self),
    {
        reveal_strlit("finished");
        reveal_strlit("in-progress");
        reveal_strlit("canceled");
        assert("finished"@.len() == 8 && "finished"@[0] == 'f');
        assert("in-progress"@.len() == 11 && "in-progress"@[0] == 'i');
        assert("canceled"@.len() == 8 && "canceled"@[0] == 'c');
    }
}

impl View for RecordingStatus {
    type V = RecordingStatus;

    open spec fn view(&self) -> RecordingStatus {
        *self
    }
}

impl FromJson for RecordingStatus {
    open spec fn of_json(v: JsonView) -> Option<RecordingStatus> {
        match v {
            JsonView::Text(s) => Self::named(s),
            _ => None,
        }
    }

    fn from_json(j: &Json) -> (r: Option<RecordingStatus>)
        ensures
            match r {
                Some(x) => Self::of_json(j@) == Some(x@),
                None => Self::of_json(j@) is None,
            },
    {
        match j.as_str() {
            Some(s) => Self::from_name(s),
            None => None,
        }
    }
}

impl ToJson for RecordingStatus {
    open spec fn json_of(v: RecordingStatus) -> JsonView {
        JsonView::Text(v.name())
    }

    fn to_json(&self) -> (j: Json)
        ensures
            j@ == Self::json_of(self@),
    {
        Json::Str(self.as_str().to_owned())
    }
}

/// The recording object, representing a single saved recording, as described
/// in <https://docs.daily.co/reference/rest-api/recordings/config>
#[derive(Debug, Clone)]
pub struct RecordingObject {
    /// A unique, opaque ID for this object. You can use this ID in API calls,
    /// and in paginated list operations.
    pub id: uuid::Uuid,
    /// The name of the room.
    pub room_name: String,
    /// When the recording started. This is a unix timestamp (seconds since the epoch).
    pub start_ts: i64,
    /// Options: "finished","in-progress","canceled"
    pub status: RecordingStatus,
    /// The maximum number of participants that were ever in this room together during the meeting session that was recorded.
    pub max_participants: u32,
    /// How many seconds long the recording is, approximately. This property is not
    /// returned for recordings that are in-progress.
    pub duration: Option<u32>,
    /// The S3 Key associated with this recording.
    pub s3key: String,
    /// The meeting session ID for this recording.
    pub meeting_session_id: uuid::Uuid,
}

/// What a `RecordingObject` holds; of an id, its bits.
pub struct RecordingObjectView {
    pub id: u128,
    pub room_name: Seq<char>,
    pub start_ts: i64,
    pub status: RecordingStatus,
    pub max_participants: u32,
    pub duration: Option<u32>,
    pub s3key: Seq<char>,
    pub meeting_session_id: u128,
}

impl View for RecordingObject {
    type V = RecordingObjectView;

    open spec fn view(&self) -> RecordingObjectView {
        RecordingObjectView {
            id: uuid_bits(self.id),
            room_name: self.room_name@,
            start_ts: self.start_ts,
            status: self.status,
            max_participants: self.max_participants,
            duration: self.duration,
            s3key: self.s3key@,
            meeting_session_id: uuid_bits(self.meeting_session_id),
        }
    }
}

impl FromJson for RecordingObject {
    /// Every member but `duration` must be there; the id of the meeting session
    /// stands under `mtgSessionId`.
    open spec fn of_json(v: JsonView) -> Option<RecordingObjectView> {
        let id = read_uuid(v.member("id"@));
        let room_name = read_required::<String>(v.member("room_name"@));
        let start_ts = read_required::<i64>(v.member("start_ts"@));
        let status = read_required::<RecordingStatus>(v.member("status"@));
        let max_participants = read_required::<u32>(v.member("max_participants"@));
        let duration = read_optional::<u32>(v.member("duration"@));
        let s3key = read_required::<String>(v.member("s3key"@));
        let meeting_session_id = read_uuid(v.member("mtgSessionId"@));
        if v is Object && id is Some && room_name is Some && start_ts is Some && status is Some
            && max_participants is Some && duration is Some && s3key is Some
            && meeting_session_id is Some {
            Some(
                RecordingObjectView {
                    id: id.unwrap(),
                    room_name: room_name.unwrap(),
                    start_ts: start_ts.unwrap(),
                    status: status.unwrap(),
                    max_participants: max_participants.unwrap(),
                    duration: duration.unwrap(),
                    s3key: s3key.unwrap(),
                    meeting_session_id: meeting_session_id.unwrap(),
                },
            )
        } else {
            None
        }
    }

    fn from_json(j: &Json) -> (r: Option<RecordingObject>)
        ensures
            match r {
                Some(x) => Self::of_json(j@) == Some(x@),
                None => Self::of_json(j@) is None,
            },
    {
        if !j.is_object() {
            return None;
        }
        let id = uuid_of(j.get("id"))?;
        let room_name = required_of::<String>(j.get("room_name"))?;
        let start_ts = required_of::<i64>(j.get("start_ts"))?;
        let status = required_of::<RecordingStatus>(j.get("status"))?;
        let max_participants = required_of::<u32>(j.get("max_participants"))?;
        let duration = optional_of::<u32>(j.get("duration"))?;
        let s3key = required_of::<String>(j.get("s3key"))?;
        let meeting_session_id = uuid_of(j.get("mtgSessionId"))?;
        Some(
            RecordingObject {
                id,
                room_name,
                start_ts,
                status,
                max_participants,
                duration,
                s3key,
                meeting_session_id,
            },
        )
    }
}

/// The pair of a name and a value in a query where a value is given, and
/// nothing where none is.
pub open spec fn pair_if(name: Seq<char>, value: Option<QueryValueView>) -> Seq<
    (Seq<char>, QueryValueView),
> {
    match value {
        Some(v) => seq![(name, v)],
        None => Seq::empty(),
    }
}

/// Adds a name and a value to a query where a value is given.
pub fn push_if(query: &mut Vec<(String, QueryValue)>, name: &str, value: Option<QueryValue>)
    ensures
        query_view(final(query)@) == query_view(old(query)@) + pair_if(name@, opt_view(value)),
{
    match value {
        Some(v) => {
            query.push((name.to_owned(), v));
            proof {
                assert(query_view(query@) =~= query_view(old(query)@) + pair_if(
                    name@,
                    opt_view(value),
                ));
            }
        },
        None => {
            proof {
                assert(query_view(query@) =~= query_view(old(query)@) + pair_if(
                    name@,
                    opt_view(value),
                ));
            }
        },
    }
}

/// The number of a query where one is given.
pub open spec fn number_if(value: Option<u64>) -> Option<QueryValueView> {
    match value {
        Some(n) => Some(QueryValueView::Number(n)),
        None => None,
    }
}

/// The text of a query where one is given.
pub open spec fn text_if(value: Option<Seq<char>>) -> Option<QueryValueView> {
    match value {
        Some(s) => Some(QueryValueView::Text(s)),
        None => None,
    }
}

/// The text of an id in a query where an id is given.
pub open spec fn id_if(value: Option<u128>) -> Option<QueryValueView> {
    match value {
        Some(bits) => Some(QueryValueView::Text(uuid_text(bits))),
        None => None,
    }
}

/// The URL of a recording: the text of the URL of the client, `/recordings/`,
/// the text of the id, and what follows.
pub open spec fn recording_url(client: ClientView, id: u128, rest: Seq<char>) -> Seq<char> {
    client.base_url + "/recordings/"@ + uuid_text(id) + rest
}

impl Client {
    /// The URL of a recording of the client, with what follows its id.
    pub fn recording_url(&self, id: uuid::Uuid, rest: &str) -> (r: String)
        ensures
            r@ == recording_url(self@, uuid_bits(id), rest@),
    {
        let mut url = self.base_url_text();
        url.append("/recordings/");
        url.append(uuid_string(&id).as_str());
        url.append(rest);
        url
    }

    /// The request for information about a specific recording. Its response is
    /// read by `parse_dailyco_response` as a `RecordingObject`.
    ///
    /// <https://docs.daily.co/reference/rest-api/recordings/get-recording-information>
    pub fn get_recording_request(&self, id: uuid::Uuid) -> (r: Request)
        ensures
            r@ == RequestView::plain(Method::Get, recording_url(self@, uuid_bits(id), ""@)),
    {
        let url = self.recording_url(id, "");
        Request::plain(Method::Get, url)
    }

    /// The request that deletes a specific recording. Its response is read by
    /// `delete_response`.
    ///
    /// <https://docs.daily.co/reference/rest-api/recordings/delete-recording>
    pub fn delete_recording_request(&self, id: uuid::Uuid) -> (r: Request)
        ensures
            r@ == RequestView::plain(Method::Delete, recording_url(self@, uuid_bits(id), ""@)),
    {
        let url = self.recording_url(id, "");
        Request::plain(Method::Delete, url)
    }
}

/// A builder for the `/recordings/:id/access-link` request, which creates and returns
/// a recording access link;
///
/// <https://docs.daily.co/reference/rest-api/recordings/get-recording-link>
#[derive(Copy, Clone, Debug)]
pub struct GetRecordingAccessLink {
    pub valid_for_secs: Option<u64>,
}

/// Access link for a recording, as described in <https://docs.daily.co/reference/rest-api/recordings/get-recording-link>
#[derive(Debug, Clone)]
pub struct RecordingAccessLink {
    /// The download_link is a cryptographically signed, time-limited,
    /// direct link to a .mp4 file stored on Amazon S3
    pub download_link: String,
    /// The `expires` property is a unix timestamp after which the `download_link`
    /// will no longer work.
    pub expires: i64,
}

/// What a `RecordingAccessLink` holds.
pub struct RecordingAccessLinkView {
    pub download_link: Seq<char>,
    pub expires: i64,
}

impl View for RecordingAccessLink {
    type V = RecordingAccessLinkView;

    open spec fn view(&self) -> RecordingAccessLinkView {
        RecordingAccessLinkView { download_link: self.download_link@, expires: self.expires }
    }
}

impl FromJson for RecordingAccessLink {
    /// Both members must be there.
    open spec fn of_json(v: JsonView) -> Option<RecordingAccessLinkView> {
        let download_link = read_required::<String>(v.member("download_link"@));
        let expires = read_required::<i64>(v.member("expires"@));
        if v is Object && download_link is Some && expires is Some {
            Some(
                RecordingAccessLinkView {
                    download_link: download_link.unwrap(),
                    expires: expires.unwrap(),
                },
            )
        } else {
            None
        }
    }

    fn from_json(j: &Json) -> (r: Option<RecordingAccessLink>)
        ensures
            match r {
                Some(x) => Self::of_json(j@) == Some(x@),
                None => Self::of_json(j@) is None,
            },
    {
        if !j.is_object() {
            return None;
        }
        let download_link = required_of::<String>(j.get("download_link"))?;
        let expires = required_of::<i64>(j.get("expires"))?;
        Some(RecordingAccessLink { download_link, expires })
    }
}

impl GetRecordingAccessLink {
    /// Constructs a new `GetRecordingAccessLink`.
    #[must_use]
    pub fn new() -> (r: Self)
        ensures
            r.valid_for_secs is None,
    {
        GetRecordingAccessLink { valid_for_secs: None }
    }

    /// Specify the number of seconds into the future this link will remain valid for.
    pub fn valid_for_secs(&mut self, secs: u64) -> (r: &mut Self)
        ensures
            r.valid_for_secs == Some(secs),
            *final(self) == *final(r),
    {
        self.valid_for_secs = Some(secs);
        self
    }

    /// The request that creates and gets an access link for a recording: its
    /// query holds `valid_for_secs` where that is set. Its response is read by
    /// `parse_dailyco_response` as a `RecordingAccessLink`.
    pub fn send_request(&self, client: &Client, id: uuid::Uuid) -> (r: Request)
        ensures
            r@ == (RequestView {
                method: Method::Get,
                url: recording_url(client@, uuid_bits(id), "/access-link"@),
                query: pair_if("valid_for_secs"@, number_if(self.valid_for_secs)),
                body: None,
            }),
    {
        let url = client.recording_url(id, "/access-link");
        let mut query: Vec<(String, QueryValue)> = Vec::new();
        proof {
            assert(query_view(query@) =~= Seq::empty());
        }
        let value = match self.valid_for_secs {
            Some(n) => Some(QueryValue::Number(n)),
            None => None,
        };
        push_if(&mut query, "valid_for_secs", value);
        proof {
            assert(query_view(query@) =~= pair_if(
                "valid_for_secs"@,
                number_if(self.valid_for_secs),
            ));
        }
        Request { method: Method::Get, url, query, body: None }
    }
}

impl Default for GetRecordingAccessLink {
    /// The request in which nothing is set.
    fn default() -> (r: Self)
        ensures
            r.valid_for_secs is None,
    {
        GetRecordingAccessLink::new()
    }
}

/// The return value for the `/recordings` endpoint.
#[derive(Debug, Clone)]
pub struct ListedRecordings {
    /// The `total_count` field is the total number of recordings stored.
    pub total_count: u32,
    /// The `data` field is a list of recording objects.
    pub data: Vec<RecordingObject>,
}

/// What a `ListedRecordings` holds.
pub struct ListedRecordingsView {
    pub total_count: u32,
    pub data: Seq<RecordingObjectView>,
}

impl View for ListedRecordings {
    type V = ListedRecordingsView;

    open spec fn view(&self) -> ListedRecordingsView {
        ListedRecordingsView { total_count: self.total_count, data: seq_view(self.data@) }
    }
}

impl FromJson for ListedRecordings {
    /// Both members must be there.
    open spec fn of_json(v: JsonView) -> Option<ListedRecordingsView> {
        let total_count = read_required::<u32>(v.member("total_count"@));
        let data = read_list::<RecordingObject>(v.member("data"@));
        if v is Object && total_count is Some && data is Some {
            Some(ListedRecordingsView { total_count: total_count.unwrap(), data: data.unwrap() })
        } else {
            None
        }
    }

    fn from_json(j: &Json) -> (r: Option<ListedRecordings>)
        ensures
            match r {
                Some(x) => Self::of_json(j@) == Some(x@),
                None => Self::of_json(j@) is None,
            },
    {
        if !j.is_object() {
            return None;
        }
        let total_count = required_of::<u32>(j.get("total_count"))?;
        let data = list_of::<RecordingObject>(j.get("data"))?;
        Some(ListedRecordings { total_count, data })
    }
}

/// A builder for the `/recordings` request to return a list of cloud recordings.
///
/// Recordings are returned sorted by created_at time in reverse chronological order.
/// This endpoint is detailed in <https://docs.daily.co/reference/rest-api/recordings/list-recordings>
#[derive(Debug, Clone)]
pub struct ListRecordings {
    pub limit: Option<u32>,
    pub ending_before: Option<uuid::Uuid>,
    pub starting_after: Option<uuid::Uuid>,
    pub room_name: Option<String>,
}

/// What a `ListRecordings` holds; of an id, its bits.
pub struct ListRecordingsView {
    pub limit: Option<u32>,
    pub ending_before: Option<u128>,
    pub starting_after: Option<u128>,
    pub room_name: Option<Seq<char>>,
}

impl View for ListRecordings {
    type V = ListRecordingsView;

    open spec fn view(&self) -> ListRecordingsView {
        ListRecordingsView {
            limit: self.limit,
            ending_before: opt_bits(self.ending_before),
            starting_after: opt_bits(self.starting_after),
            room_name: opt_view(self.room_name),
        }
    }
}

impl ListRecordingsView {
    /// The request in which nothing is set.
    pub open spec fn empty() -> ListRecordingsView {
        ListRecordingsView {
            limit: None,
            ending_before: None,
            starting_after: None,
            room_name: None,
        }
    }

    /// The query of the request: a pair for each of limit, ending_before,
    /// starting_after and room_name that is set, in this order.
    pub open spec fn query(self) -> Seq<(Seq<char>, QueryValueView)> {
        pair_if(
            "limit"@,
            number_if(
                match self.limit {
                    Some(n) => Some(n as u64),
                    None => None,
                },
            ),
        ) + pair_if("ending_before"@, id_if(self.ending_before)) + pair_if(
            "starting_after"@,
            id_if(self.starting_after),
        ) + pair_if("room_name"@, text_if(self.room_name))
    }
}

impl ListRecordings {
    /// Constructs a new `ListRecordings`.
    #[must_use]
    pub fn new() -> (r: Self)
        ensures
            r@ == ListRecordingsView::empty(),
    {
        ListRecordings { limit: None, ending_before: None, starting_after: None, room_name: None }
    }

    /// The `limit` argument sets the size of the page (how many objects each page contains),
    /// and defaults to a value of 100.
    pub fn limit(&mut self, limit: u32) -> (r: &mut Self)
        ensures
            (*r)@ == (ListRecordingsView { limit: Some(limit), ..old(self)@ }),
            *final(self) == *final(r),
    {
        self.limit = Some(limit);
        self
    }

    /// The `ending_before` argument is used to fetch previous pages of results.
    pub fn ending_before(&mut self, ending_before: uuid::Uuid) -> (r: &mut Self)
        ensures
            (*r)@ == (ListRecordingsView {
                ending_before: Some(uuid_bits(ending_before)),
                ..old(self)@
            }),
            *final(self) == *final(r),
    {
        self.ending_before = Some(ending_before);
        self
    }

    /// The `starting_after` argument sets the starting point of the page and is used to
    /// fetch "subsequent" pages of results.
    pub fn starting_after(&mut self, starting_after: uuid::Uuid) -> (r: &mut Self)
        ensures
            (*r)@ == (ListRecordingsView {
                starting_after: Some(uuid_bits(starting_after)),
                ..old(self)@
            }),
            *final(self) == *final(r),
    {
        self.starting_after = Some(starting_after);
        self
    }

    /// Limit the results to a specific room.
    pub fn room_name(&mut self, room_name: &str) -> (r: &mut Self)
        ensures
            (*r)@ == (ListRecordingsView { room_name: Some(room_name@), ..old(self)@ }),
            *final(self) == *final(r),
    {
        self.room_name = Some(room_name.to_owned());
        self
    }

    /// The request for a list of recordings: its query holds what is set. Its
    /// response is read by `parse_dailyco_response` as a `ListedRecordings`.
    pub fn send_request(&self, client: &Client) -> (r: Request)
        ensures
            r@ == (RequestView {
                method: Method::Get,
                url: client@.base_url + "/recordings"@,
                query: self@.query(),
                body: None,
            }),
    {
        let mut url = client.base_url_text();
        url.append("/recordings");
        let mut query: Vec<(String, QueryValue)> = Vec::new();
        proof {
            assert(query_view(query@) =~= Seq::empty());
        }
        let limit = match self.limit {
            Some(n) => Some(QueryValue::Number(n as u64)),
            None => None,
        };
        push_if(&mut query, "limit", limit);
        let ending_before = match &self.ending_before {
            Some(id) => Some(QueryValue::Text(uuid_string(id))),
            None => None,
        };
        push_if(&mut query, "ending_before", ending_before);
        let starting_after = match &self.starting_after {
            Some(id) => Some(QueryValue::Text(uuid_string(id))),
            None => None,
        };
        push_if(&mut query, "starting_after", starting_after);
        let room_name = match &self.room_name {
            Some(name) => Some(QueryValue::Text(name.as_str().to_owned())),
            None => None,
        };
        push_if(&mut query, "room_name", room_name);
        proof {
            assert(query_view(query@) =~= self@.query());
        }
        Request { method: Method::Get, url, query, body: None }
    }
}

impl Default for ListRecordings {
    /// The request in which nothing is set.
    fn default() -> (r: Self)
        ensures
            r@ == ListRecordingsView::empty(),
    {
        ListRecordings::new()
    }
}

} // verus!
