//! A client's settings, the requests that it makes and how the responses of
//! the service are read.
use crate::error::{Error, ErrorView, RequestFailure, RequestFailureView};
use crate::json::{json_parsed, opt_view, Json, JsonView};
use crate::room::{Room, RoomView};
use crate::wire::{list_of, read_list, read_required, required_of, seq_view, FromJson};
use vstd::prelude::*;
use vstd::string::{StringExecFns, StringExecFnsIsAscii, StringSliceAdditionalSpecFns};
use vstd::utf8::{encode_utf8, is_ascii_chars, is_ascii_chars_encode_utf8};

verus! {

/// `reqwest::Url`: the URL of the service, carried as it is.
#[verifier::external_type_specification]
#[verifier::external_body]
pub struct ExUrl(reqwest::Url);

/// `reqwest::header::HeaderValue`: the header of the API key, carried as it
/// is.
#[verifier::external_type_specification]
#[verifier::external_body]
pub struct ExHeaderValue(reqwest::header::HeaderValue);

/// `reqwest::header::InvalidHeaderValue`: what `HeaderValue::from_str` says of
/// a text that is no header value.
#[verifier::external_type_specification]
#[verifier::external_body]
pub struct ExInvalidHeaderValue(reqwest::header::InvalidHeaderValue);

/// `Clone for Url`: the copy is the same URL.
pub assume_specification[ <reqwest::Url as Clone>::clone ](u: &reqwest::Url) -> (r: reqwest::Url)
    ensures
        r == *u,
;

/// `Clone for HeaderValue`: the copy is the same header value.
pub assume_specification[ <reqwest::header::HeaderValue as Clone>::clone ](
    h: &reqwest::header::HeaderValue,
) -> (r: reqwest::header::HeaderValue)
    ensures
        r == *h,
;

/// The text of a URL: what `Url::as_str` gives.
pub uninterp spec fn url_text(u: reqwest::Url) -> Seq<char>;

/// The text of the URL that `Url::parse` makes of a text, where it makes one.
pub uninterp spec fn url_parsed(text: Seq<char>) -> Option<Seq<char>>;

/// The text of the URL that `Url::join` makes of a reference on a base, where
/// it makes one.
pub uninterp spec fn url_joined(base: Seq<char>, reference: Seq<char>) -> Option<Seq<char>>;

/// The bytes that a header value holds.
pub uninterp spec fn header_bytes(h: reqwest::header::HeaderValue) -> Seq<u8>;

/// Whether a byte may stand in a header value: a tab, or a byte from the space
/// on that is not the delete character.
pub open spec fn header_byte_ok(b: u8) -> bool {
    (b >= 32 && b != 127) || b == 9
}

/// Whether every one of the bytes may stand in a header value.
pub open spec fn header_bytes_ok(bytes: Seq<u8>) -> bool {
    forall|i: int| 0 <= i < bytes.len() ==> header_byte_ok(#[trigger] bytes[i])
}

/// `HeaderValue::from_str`: a header value of the bytes of the text where
/// every one of them may stand in a header value, and an error where one may
/// not.
#[verifier::external_body]
fn header_value(text: &str) -> (r: Result<
    reqwest::header::HeaderValue,
    reqwest::header::InvalidHeaderValue,
>)
    ensures
        match r {
            Ok(h) => header_bytes_ok(text.spec_bytes()) && header_bytes(h) == text.spec_bytes(),
            Err(_) => !header_bytes_ok(text.spec_bytes()),
        },
{
    reqwest::header::HeaderValue::from_str(text)
}

/// `HeaderValue::set_sensitive`: the same header value, marked as one that is
/// not to be shown.
#[verifier::external_body]
fn sensitive(h: reqwest::header::HeaderValue) -> (r: reqwest::header::HeaderValue)
    ensures
        header_bytes(r) == header_bytes(h),
{
    let mut h = h;
    h.set_sensitive(true);
    h
}

/// `Url::parse`: the URL of a text, where the text is one; what it says of
/// another text is dropped.
#[verifier::external_body]
fn url_parse(text: &str) -> (r: Option<reqwest::Url>)
    ensures
        match r {
            Some(u) => url_parsed(text@) == Some(url_text(u)),
            None => url_parsed(text@) is None,
        },
{
    reqwest::Url::parse(text).ok()
}

/// `Url::join`: the URL of a reference on a base, where there is one; what it
/// says of a reference that gives none is dropped.
#[verifier::external_body]
fn url_join(base: &reqwest::Url, reference: &str) -> (r: Option<reqwest::Url>)
    ensures
        match r {
            Some(u) => url_joined(url_text(*base), reference@) == Some(url_text(u)),
            None => url_joined(url_text(*base), reference@) is None,
        },
{
    base.join(reference).ok()
}

/// `Url::as_str`: the text of a URL.
#[verifier::external_body]
fn url_string(u: &reqwest::Url) -> (r: String)
    ensures
        r@ == url_text(*u),
{
    u.as_str().to_owned()
}

/// Whether a character may stand in an API key: a tab, or a visible ASCII
/// character or a space.
pub open spec fn key_char_ok(c: char) -> bool {
    (' ' <= c <= '~') || c == '\t'
}

/// Whether every character of an API key may stand in one.
pub open spec fn key_ok(key: Seq<char>) -> bool {
    forall|i: int| 0 <= i < key.len() ==> key_char_ok(#[trigger] key[i])
}

/// The text of the header that carries an API key.
pub open spec fn bearer(key: Seq<char>) -> Seq<char> {
    "Bearer "@ + key
}

/// The header of an API key holds only bytes that may stand in a header value
/// exactly where the key holds only characters that may stand in a key.
proof fn lemma_bearer(key: Seq<char>)
    ensures
        key_ok(key) ==> is_ascii_chars(bearer(key)) && header_bytes_ok(encode_utf8(bearer(key))),
        is_ascii_chars(bearer(key)) && header_bytes_ok(encode_utf8(bearer(key))) ==> key_ok(key),
{
    reveal_strlit("Bearer ");
    let text = bearer(key);
    let prefix = "Bearer "@;
    assert(prefix.len() == 7);
    assert(forall|i: int| 0 <= i < 7 ==> key_char_ok(#[trigger] prefix[i]));
    assert(forall|i: int| 0 <= i < key.len() ==> text[i + 7] == key[i]);
    assert(forall|i: int| 0 <= i < 7 ==> text[i] == prefix[i]);
    if key_ok(key) {
        assert forall|i: int| 0 <= i < text.len() implies key_char_ok(#[trigger] text[i]) by {
            if i >= 7 {
                assert(text[i] == key[i - 7]);
            }
        }
        assert(is_ascii_chars(text));
        is_ascii_chars_encode_utf8(text);
        let bytes = encode_utf8(text);
        assert forall|i: int| 0 <= i < bytes.len() implies header_byte_ok(#[trigger] bytes[i]) by {
            assert(key_char_ok(text[i]));
            assert(bytes[i] == text[i] as u8);
        }
    }
    if is_ascii_chars(text) && header_bytes_ok(encode_utf8(text)) {
        is_ascii_chars_encode_utf8(text);
        let bytes = encode_utf8(text);
        assert forall|i: int| 0 <= i < key.len() implies key_char_ok(#[trigger] key[i]) by {
            assert(text[i + 7] == key[i]);
            assert(bytes[i + 7] == text[i + 7] as u8);
            assert(header_byte_ok(bytes[i + 7]));
            assert('\0' <= text[i + 7] <= '\u{7f}');
        }
    }
}

/// A key that holds a character which is not ASCII is no key that is
/// accepted.
pub proof fn lemma_key_not_ascii(key: Seq<char>, i: int)
    requires
        0 <= i < key.len(),
        key[i] > '\u{7f}',
    ensures
        !key_ok(key),
{
    assert(!key_char_ok(key[i]));
}

/// A `Client` to make `Daily` API requests with: where the service is, and
/// the header that carries the API key, marked as one that is not to be shown.
#[derive(Debug, Clone)]
pub struct Client {
    pub authorization: reqwest::header::HeaderValue,
    pub base_url: reqwest::Url,
}

/// What a `Client` holds: the bytes of its header and the text of its URL.
pub struct ClientView {
    pub authorization: Seq<u8>,
    pub base_url: Seq<char>,
}

impl View for Client {
    type V = ClientView;

    open spec fn view(&self) -> ClientView {
        ClientView {
            authorization: header_bytes(self.authorization),
            base_url: url_text(self.base_url),
        }
    }
}

/// How a request is made.
#[derive(Debug, Copy, Clone, PartialEq, Eq, Structural)]
pub enum Method {
    Get,
    Post,
    Delete,
}

/// A value in the query of a request.
#[derive(Debug, Clone, PartialEq, Eq)]
pub enum QueryValue {
    Number(u64),
    Text(String),
}

/// What a `QueryValue` holds.
pub enum QueryValueView {
    Number(u64),
    Text(Seq<char>),
}

impl View for QueryValue {
    type V = QueryValueView;

    open spec fn view(&self) -> QueryValueView {
        match self {
            QueryValue::Number(n) => QueryValueView::Number(*n),
            QueryValue::Text(s) => QueryValueView::Text(s@),
        }
    }
}

/// What the names and the values of a query hold.
pub open spec fn query_view(query: Seq<(String, QueryValue)>) -> Seq<(Seq<char>, QueryValueView)> {
    Seq::new(query.len(), |i: int| (query[i].0@, query[i].1@))
}

/// A request to the service, for a transport to send with the header of the
/// client: how it is made, where it goes, what its query holds and the JSON
/// of its body, if it has one.
#[derive(Debug)]
pub struct Request {
    pub method: Method,
    pub url: String,
    pub query: Vec<(String, QueryValue)>,
    pub body: Option<Json>,
}

/// What a `Request` holds.
pub struct RequestView {
    pub method: Method,
    pub url: Seq<char>,
    pub query: Seq<(Seq<char>, QueryValueView)>,
    pub body: Option<JsonView>,
}

impl View for Request {
    type V = RequestView;

    open spec fn view(&self) -> RequestView {
        RequestView {
            method: self.method,
            url: self.url@,
            query: query_view(self.query@),
            body: opt_view(self.body),
        }
    }
}

impl RequestView {
    /// The request without query and body.
    pub open spec fn plain(method: Method, url: Seq<char>) -> RequestView {
        RequestView { method, url, query: Seq::empty(), body: None }
    }

    /// The request that posts a body.
    pub open spec fn post(url: Seq<char>, body: JsonView) -> RequestView {
        RequestView { method: Method::Post, url, query: Seq::empty(), body: Some(body) }
    }
}

impl Request {
    /// The request without query and body.
    pub fn plain(method: Method, url: String) -> (r: Request)
        ensures
            r@ == RequestView::plain(method, url@),
    {
        let r = Request { method, url, query: Vec::new(), body: None };
        proof {
            assert(query_view(r.query@) =~= Seq::empty());
        }
        r
    }

    /// The request that posts a body.
    pub fn post(url: String, body: Json) -> (r: Request)
        ensures
            r@ == RequestView::post(url@, body@),
    {
        let r = Request { method: Method::Post, url, query: Vec::new(), body: Some(body) };
        proof {
            assert(query_view(r.query@) =~= Seq::empty());
        }
        r
    }
}

/// What a result holds.
pub open spec fn result_view<T: View>(r: Result<T, Error>) -> Result<T::V, ErrorView> {
    match r {
        Ok(x) => Ok(x@),
        Err(e) => Err(e@),
    }
}

/// The error of a request for which no URL could be made.
pub open spec fn no_url<T>() -> Result<T, ErrorView> {
    Err(ErrorView::Request(RequestFailureView::Url))
}

impl ClientView {
    /// The URL of a reference on the URL of the client.
    pub open spec fn url(self, reference: Seq<char>) -> Option<Seq<char>> {
        url_joined(self.base_url, reference)
    }

    /// The URL of a name below a collection on the URL of the client.
    pub open spec fn url_below(self, collection: Seq<char>, name: Seq<char>) -> Option<Seq<char>> {
        match url_joined(self.base_url, collection) {
            Some(u) => url_joined(u, name),
            None => None,
        }
    }

    /// The request of a method to a URL, where there is a URL.
    pub open spec fn request_to(method: Method, url: Option<Seq<char>>) -> Result<
        RequestView,
        ErrorView,
    > {
        match url {
            Some(u) => Ok(RequestView::plain(method, u)),
            None => no_url(),
        }
    }
}

impl Client {
    /// The header that carries an API key, marked as one that is not to be
    /// shown. The key is accepted exactly where each of its characters is a tab
    /// or a visible ASCII character or a space.
    pub fn authorization(key: &str) -> (r: Result<reqwest::header::HeaderValue, Error>)
        ensures
            match r {
                Ok(h) => key_ok(key@) && header_bytes(h) == encode_utf8(bearer(key@)),
                Err(e) => !key_ok(key@) && e@ == ErrorView::BadAPIKey(
                    "API key must include only ASCII characters"@,
                ),
            },
    {
        let mut text = "Bearer ".to_owned();
        text.append(key);
        proof {
            lemma_bearer(key@);
            assert(text@ == bearer(key@));
        }
        if !text.is_ascii() {
            return Err(Error::BadAPIKey("API key must include only ASCII characters"));
        }
        match header_value(text.as_str()) {
            Ok(authorization) => Ok(sensitive(authorization)),
            Err(_) => Err(Error::BadAPIKey("API key must include only ASCII characters")),
        }
    }

    /// Creates a `Client` from an API key, for the service at
    /// `https://api.daily.co/v1/`.
    ///
    /// # Errors
    ///
    /// If the given API key does not contain only ASCII characters that may
    /// stand in a header, an error variant will be returned, whatever else
    /// holds.
    pub fn new(key: &str) -> (r: Result<Client, Error>)
        ensures
            match r {
                Ok(c) => key_ok(key@) && url_parsed("https://api.daily.co/v1/"@) == Some(
                    c@.base_url,
                ) && c@.authorization == encode_utf8(bearer(key@)),
                Err(e) => if key_ok(key@) {
                    url_parsed("https://api.daily.co/v1/"@) is None && e@ == ErrorView::Request(
                        RequestFailureView::Url,
                    )
                } else {
                    e@ == ErrorView::BadAPIKey("API key must include only ASCII characters"@)
                },
            },
    {
        match Client::authorization(key) {
            Ok(authorization) => match url_parse("https://api.daily.co/v1/") {
                Some(base_url) => Ok(Client { authorization, base_url }),
                None => Err(Error::Request(RequestFailure::Url)),
            },
            Err(e) => Err(e),
        }
    }

    /// Creates a `Client` with a custom endpoint. This is primarily intended
    /// for testing purposes, for example pointing API requests to a mock
    /// server.
    ///
    /// # Errors
    ///
    /// If the given API key does not contain only ASCII characters that may
    /// stand in a header, an error variant will be returned.
    pub fn with_endpoint(key: &str, endpoint: reqwest::Url) -> (r: Result<Client, Error>)
        ensures
            match r {
                Ok(c) => key_ok(key@) && c.base_url == endpoint && c@.authorization == encode_utf8(
                    bearer(key@),
                ),
                Err(e) => !key_ok(key@) && e@ == ErrorView::BadAPIKey(
                    "API key must include only ASCII characters"@,
                ),
            },
    {
        match Client::authorization(key) {
            Ok(authorization) => Ok(Client { authorization, base_url: endpoint }),
            Err(e) => Err(e),
        }
    }

    /// The URL of a reference on the URL of the client.
    pub fn url(&self, reference: &str) -> (r: Option<String>)
        ensures
            opt_view(r) == self@.url(reference@),
    {
        match url_join(&self.base_url, reference) {
            Some(u) => Some(url_string(&u)),
            None => None,
        }
    }

    /// The URL of a name below a collection on the URL of the client.
    pub fn url_below(&self, collection: &str, name: &str) -> (r: Option<String>)
        ensures
            opt_view(r) == self@.url_below(collection@, name@),
    {
        match url_join(&self.base_url, collection) {
            Some(u) => match url_join(&u, name) {
                Some(v) => Some(url_string(&v)),
                None => None,
            },
            None => None,
        }
    }

    /// The text of the URL of the client.
    pub fn base_url_text(&self) -> (r: String)
        ensures
            r@ == self@.base_url,
    {
        url_string(&self.base_url)
    }

    /// The request of a method to a URL, and an error where there is no URL.
    pub fn request_to(method: Method, url: Option<String>) -> (r: Result<Request, Error>)
        ensures
            result_view(r) == ClientView::request_to(method, opt_view(url)),
    {
        match url {
            Some(u) => Ok(Request::plain(method, u)),
            None => Err(Error::Request(RequestFailure::Url)),
        }
    }

    /// The URL of the room of a name.
    pub fn get_room_url_with_name(&self, room_name: &str) -> (r: Option<String>)
        ensures
            opt_view(r) == self@.url_below("rooms/"@, room_name@),
    {
        self.url_below("rooms/", room_name)
    }

    /// The request for the `Daily` room corresponding to this name. Its response
    /// is read by `parse_dailyco_response` as a `Room`.
    pub fn get_room_request(&self, room_name: &str) -> (r: Result<Request, Error>)
        ensures
            result_view(r) == ClientView::request_to(
                Method::Get,
                self@.url_below("rooms/"@, room_name@),
            ),
    {
        Client::request_to(Method::Get, self.get_room_url_with_name(room_name))
    }

    /// The request for the configuration of a meeting token. Its response is read
    /// by `parse_dailyco_response` as a `MeetingToken`.
    pub fn get_meeting_token_request(&self, token: &str) -> (r: Result<Request, Error>)
        ensures
            result_view(r) == ClientView::request_to(
                Method::Get,
                self@.url_below("meeting-tokens/"@, token@),
            ),
    {
        Client::request_to(Method::Get, self.url_below("meeting-tokens/", token))
    }

    /// The request for all `Daily` rooms of the account. Its response is read by
    /// `get_rooms_response`.
    pub fn get_rooms_request(&self) -> (r: Result<Request, Error>)
        ensures
            result_view(r) == ClientView::request_to(Method::Get, self@.url("rooms/"@)),
    {
        Client::request_to(Method::Get, self.url("rooms/"))
    }

    /// The request that deletes the `Daily` room with this name. Its response is
    /// read by `delete_response`.
    pub fn delete_room_request(&self, room_name: &str) -> (r: Result<Request, Error>)
        ensures
            result_view(r) == ClientView::request_to(
                Method::Delete,
                self@.url_below("rooms/"@, room_name@),
            ),
    {
        Client::request_to(Method::Delete, self.get_room_url_with_name(room_name))
    }

    /// Reads the response to a request for all rooms.
    ///
    /// Pagination is unimplemented: a response that reports `100` rooms or more
    /// gives `Error::RequiresPagination`, and never a part of the rooms.
    pub fn get_rooms_response(status: u16, body: &str) -> (r: Result<Vec<Room>, Error>)
        ensures
            match r {
                Ok(rooms) => rooms_of(status, body@) == Ok::<Seq<RoomView>, ErrorView>(
                    seq_view(rooms@),
                ),
                Err(e) => rooms_of(status, body@) == Err::<Seq<RoomView>, ErrorView>(e@),
            },
    {
        match parse_dailyco_response::<ListedRooms>(status, body) {
            Ok(listed) => if listed.total_count >= 100 {
                Err(Error::RequiresPagination)
            } else {
                Ok(listed.data)
            },
            Err(e) => Err(e),
        }
    }

    /// Reads the response to a request that deletes: success where the status
    /// says so, and else the error that the body stands for.
    pub fn delete_response(status: u16, body: &str) -> (r: Result<(), Error>)
        ensures
            match r {
                Ok(_) => is_success(status),
                Err(e) => !is_success(status) && e@ == ErrorView::of_failure(body@),
            },
    {
        if status >= 200 && status < 300 {
            Ok(())
        } else {
            Err(Error::from_failed_daily_request(body))
        }
    }
}

/// The answer to a request for all rooms: how many there are, and a page of
/// them.
#[derive(Debug, Clone)]
pub struct ListedRooms {
    pub total_count: usize,
    pub data: Vec<Room>,
}

/// What a `ListedRooms` holds.
pub struct ListedRoomsView {
    pub total_count: usize,
    pub data: Seq<RoomView>,
}

impl View for ListedRooms {
    type V = ListedRoomsView;

    open spec fn view(&self) -> ListedRoomsView {
        ListedRoomsView { total_count: self.total_count, data: seq_view(self.data@) }
    }
}

impl FromJson for ListedRooms {
    /// Both members must be there.
    open spec fn of_json(v: JsonView) -> Option<ListedRoomsView> {
        let total_count = read_required::<usize>(v.member("total_count"@));
        let data = read_list::<Room>(v.member("data"@));
        if v is Object && total_count is Some && data is Some {
            Some(ListedRoomsView { total_count: total_count.unwrap(), data: data.unwrap() })
        } else {
            None
        }
    }

    fn from_json(j: &Json) -> (r: Option<ListedRooms>)
        ensures
            match r {
                Some(x) => Self::of_json(j@) == Some(x@),
                None => Self::of_json(j@) is None,
            },
    {
        if !j.is_object() {
            return None;
        }
        let total_count = required_of::<usize>(j.get("total_count"))?;
        let data = list_of::<Room>(j.get("data"))?;
        Some(ListedRooms { total_count, data })
    }
}

/// The rooms that the response to a request for all rooms stands for: the
/// rooms of the page where fewer than a hundred rooms are reported, and the
/// error that asks for pagination from a hundred on.
pub open spec fn rooms_of(status: u16, body: Seq<char>) -> Result<Seq<RoomView>, ErrorView> {
    match response_of::<ListedRooms>(status, body) {
        Ok(listed) => if listed.total_count >= 100 {
            Err(ErrorView::RequiresPagination)
        } else {
            Ok(listed.data)
        },
        Err(e) => Err(e),
    }
}

/// A response that reports a hundred rooms or more asks for pagination,
/// whatever rooms it holds.
pub proof fn lemma_many_rooms_require_pagination(
    status: u16,
    body: Seq<char>,
    listed: ListedRoomsView,
)
    requires
        response_of::<ListedRooms>(status, body) == Ok::<ListedRoomsView, ErrorView>(listed),
        listed.total_count >= 100,
    ensures
        rooms_of(status, body) == Err::<Seq<RoomView>, ErrorView>(ErrorView::RequiresPagination),
{
}

/// A response that says that the request failed and whose body is not JSON
/// stands for a failure of the request.
pub proof fn lemma_failure_without_json<T: FromJson>(status: u16, body: Seq<char>)
    requires
        !is_success(status),
        json_parsed(body) is None,
    ensures
        response_of::<T>(status, body) == Err::<T::V, ErrorView>(
            ErrorView::Request(RequestFailureView::NotJson),
        ),
{
}

/// A response that says that the request failed and whose body is the report
/// of an error stands for the error that the service reported.
pub proof fn lemma_failure_with_report<T: FromJson>(
    status: u16,
    body: Seq<char>,
    report: JsonView,
    info: crate::error::DailyCoErrorInfoView,
)
    requires
        !is_success(status),
        json_parsed(body) == Some(report),
        crate::error::DailyCoErrorInfo::of_json(report) == Some(info),
    ensures
        response_of::<T>(status, body) == Err::<T::V, ErrorView>(ErrorView::APIError(info)),
{
}

/// Whether a status says that a request succeeded.
pub open spec fn is_success(status: u16) -> bool {
    200 <= status < 300
}

/// What the response to a request stands for: where the status says that the
/// request succeeded, the value that the body holds, and a failure of the
/// request where it holds none; where the status says that it failed, the
/// error that the body stands for.
pub open spec fn response_of<T: FromJson>(status: u16, body: Seq<char>) -> Result<T::V, ErrorView> {
    if is_success(status) {
        match json_parsed(body) {
            None => Err(ErrorView::Request(RequestFailureView::NotJson)),
            Some(v) => match T::of_json(v) {
                Some(x) => Ok(x),
                None => Err(ErrorView::Request(RequestFailureView::UnexpectedBody)),
            },
        }
    } else {
        Err(ErrorView::of_failure(body))
    }
}

/// Reads the response to a request.
pub fn parse_dailyco_response<T: FromJson>(status: u16, body: &str) -> (r: Result<T, Error>)
    ensures
        result_view(r) == response_of::<T>(status, body@),
{
    if status >= 200 && status < 300 {
        match Json::parse(body) {
            None => Err(Error::Request(RequestFailure::NotJson)),
            Some(j) => match T::from_json(&j) {
                Some(x) => Ok(x),
                None => Err(Error::Request(RequestFailure::UnexpectedBody)),
            },
        }
    } else {
        Err(Error::from_failed_daily_request(body))
    }
}

} // verus!
