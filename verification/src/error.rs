//! The errors of requests to `Daily`.
use crate::json::{
    json_parsed, json_pretty_text, lemma_object_map_empty, object, opt_view, put_member, Json,
    JsonView,
};
use crate::text::str_eq;
use crate::wire::{optional_of, read_optional, FromJson, ToJson};
use vstd::prelude::*;
use vstd::string::StringExecFns;

verus! {

/// The `error` type returned by `Daily`, defined [here](https://docs.daily.co/reference/rest-api#errors).
#[derive(Debug, Copy, Clone, PartialEq, Eq, Structural)]
pub enum DailyCoErrorKind {
    /// The API key is not valid.
    AuthenticationError,
    /// The Authorization header is missing or badly formatted.
    AuthorizationHeaderError,
    /// The JSON request body could not be parsed.
    JsonParsingError,
    /// The request could not be performed. More information is usually available in the info field
    /// of the response body. Typical causes are missing required parameters,
    /// bad parameter values, etc.
    InvalidRequestError,
    /// Too many requests were sent in too short a period of time.
    RateLimitError,
    /// Something unexpected went wrong.
    ServerError,
    /// Item not found.
    NotFound,
}

impl DailyCoErrorKind {
    /// The name that the service has for the kind of error.
    pub open spec fn name(self) -> Seq<char> {
        match self {
            DailyCoErrorKind::AuthenticationError => "authentication-error"@,
            DailyCoErrorKind::AuthorizationHeaderError => "authorization-header-error"@,
            DailyCoErrorKind::JsonParsingError => "json-parsing-error"@,
            DailyCoErrorKind::InvalidRequestError => "invalid-request-error"@,
            DailyCoErrorKind::RateLimitError => "rate-limit-error"@,
            DailyCoErrorKind::ServerError => "server-error"@,
            DailyCoErrorKind::NotFound => "not-found"@,
        }
    }

    /// The kind of error that the service has that name for, where there is one.
    pub open spec fn named(s: Seq<char>) -> Option<DailyCoErrorKind> {
        if s == "authentication-error"@ {
            Some(DailyCoErrorKind::AuthenticationError)
        } else if s == "authorization-header-error"@ {
            Some(DailyCoErrorKind::AuthorizationHeaderError)
        } else if s == "json-parsing-error"@ {
            Some(DailyCoErrorKind::JsonParsingError)
        } else if s == "invalid-request-error"@ {
            Some(DailyCoErrorKind::InvalidRequestError)
        } else if s == "rate-limit-error"@ {
            Some(DailyCoErrorKind::RateLimitError)
        } else if s == "server-error"@ {
            Some(DailyCoErrorKind::ServerError)
        } else if s == "not-found"@ {
            Some(DailyCoErrorKind::NotFound)
        } else {
            None
        }
    }

    /// The name that the service has for the kind of error.
    pub fn as_str(&self) -> (r: &'static str)
        ensures
            r@ == self.name(),
    {
        match self {
            DailyCoErrorKind::AuthenticationError => "authentication-error",
            DailyCoErrorKind::AuthorizationHeaderError => "authorization-header-error",
            DailyCoErrorKind::JsonParsingError => "json-parsing-error",
            DailyCoErrorKind::InvalidRequestError => "invalid-request-error",
            DailyCoErrorKind::RateLimitError => "rate-limit-error",
            DailyCoErrorKind::ServerError => "server-error",
            DailyCoErrorKind::NotFound => "not-found",
        }
    }

    /// The kind of error of that name, and nothing for a name that the service
    /// is not known to use.
    pub fn from_name(s: &str) -> (r: Option<DailyCoErrorKind>)
        ensures
            r == Self::named(s@),
    {
        if str_eq(s, "authentication-error") {
            Some(DailyCoErrorKind::AuthenticationError)
        } else if str_eq(s, "authorization-header-error") {
            Some(DailyCoErrorKind::AuthorizationHeaderError)
        } else if str_eq(s, "json-parsing-error") {
            Some(DailyCoErrorKind::JsonParsingError)
        } else if str_eq(s, "invalid-request-error") {
            Some(DailyCoErrorKind::InvalidRequestError)
        } else if str_eq(s, "rate-limit-error") {
            Some(DailyCoErrorKind::RateLimitError)
        } else if str_eq(s, "server-error") {
            Some(DailyCoErrorKind::ServerError)
        } else if str_eq(s, "not-found") {
            Some(DailyCoErrorKind::NotFound)
        } else {
            None
        }
    }

    /// Each kind of error is the one that its own name stands for.
    pub proof fn lemma_named_name(self)
        ensures
            Self::named(self.name()) == Some(self),
    {
        reveal_strlit("authentication-error");
        reveal_strlit("authorization-header-error");
        reveal_strlit("json-parsing-error");
        reveal_strlit("invalid-request-error");
        reveal_strlit("rate-limit-error");
        reveal_strlit("server-error");
        reveal_strlit("not-found");
        assert("authentication-error"@.len() == 20);
        assert("authorization-header-error"@.len() == 26);
        assert("json-parsing-error"@.len() == 18);
        assert("invalid-request-error"@.len() == 21);
        assert("rate-limit-error"@.len() == 16);
        assert("server-error"@.len() == 12);
        assert("not-found"@.len() == 9);
    }
}

impl View for DailyCoErrorKind {
    type V = DailyCoErrorKind;

    open spec fn view(&self) -> DailyCoErrorKind {
        *self
    }
}

impl FromJson for DailyCoErrorKind {
    open spec fn of_json(v: JsonView) -> Option<DailyCoErrorKind> {
        match v {
            JsonView::Text(s) => Self::named(s),
            _ => None,
        }
    }

    fn from_json(j: &Json) -> (r: Option<DailyCoErrorKind>)
        ensures
            match r {
                Some(x) => Self::of_json(j@) == Some(x@),
                None => Self::of_json(j@) is None,
            },
    {
        match j.as_str() {
            Some(s) => Self::from_name(s),
            None => None,
        }
    }
}

impl ToJson for DailyCoErrorKind {
    open spec fn json_of(v: DailyCoErrorKind) -> JsonView {
        JsonView::Text(v.name())
    }

    fn to_json(&self) -> (j: Json)
        ensures
            j@ == Self::json_of(self@),
    {
        Json::Str(self.as_str().to_owned())
    }
}

impl DailyCoErrorKind {
    /// The kind of error as text: the name that the service has for it.
    pub fn to_string(&self) -> (r: String)
        ensures
            r@ == self.name(),
    {
        self.as_str().to_owned()
    }
}

/// Information about the error returned by `Daily`.
#[derive(Debug, Clone)]
pub struct DailyCoErrorInfo {
    /// The fixed error type returned by `Daily`.
    pub error: Option<DailyCoErrorKind>,
    /// Informational description about the error.
    pub info: Option<String>,
}

/// What a `DailyCoErrorInfo` holds.
pub struct DailyCoErrorInfoView {
    pub error: Option<DailyCoErrorKind>,
    pub info: Option<Seq<char>>,
}

impl View for DailyCoErrorInfo {
    type V = DailyCoErrorInfoView;

    open spec fn view(&self) -> DailyCoErrorInfoView {
        DailyCoErrorInfoView { error: self.error, info: opt_view(self.info) }
    }
}

impl FromJson for DailyCoErrorInfo {
    /// Both members may be missing; a kind of error that the service is not
    /// known to use is no value.
    open spec fn of_json(v: JsonView) -> Option<DailyCoErrorInfoView> {
        let error = read_optional::<DailyCoErrorKind>(v.member("error"@));
        let info = read_optional::<String>(v.member("info"@));
        if v is Object && error is Some && info is Some {
            Some(DailyCoErrorInfoView { error: error.unwrap(), info: info.unwrap() })
        } else {
            None
        }
    }

    fn from_json(j: &Json) -> (r: Option<DailyCoErrorInfo>)
        ensures
            match r {
                Some(x) => Self::of_json(j@) == Some(x@),
                None => Self::of_json(j@) is None,
            },
    {
        if !j.is_object() {
            return None;
        }
        let error = optional_of::<DailyCoErrorKind>(j.get("error"))?;
        let info = optional_of::<String>(j.get("info"))?;
        Some(DailyCoErrorInfo { error, info })
    }
}

impl ToJson for DailyCoErrorInfo {
    /// Both members are written, a missing one as `null`.
    open spec fn json_of(v: DailyCoErrorInfoView) -> JsonView {
        JsonView::Object(
            Map::<Seq<char>, JsonView>::empty().insert(
                "error"@,
                match v.error {
                    Some(kind) => JsonView::Text(kind.name()),
                    None => JsonView::Null,
                },
            ).insert(
                "info"@,
                match v.info {
                    Some(text) => JsonView::Text(text),
                    None => JsonView::Null,
                },
            ),
        )
    }

    fn to_json(&self) -> (j: Json)
        ensures
            j@ == Self::json_of(self@),
    {
        let mut out: Vec<(String, Json)> = Vec::new();
        proof {
            lemma_object_map_empty(out@);
        }
        let error = match &self.error {
            Some(kind) => Json::Str(kind.as_str().to_owned()),
            None => Json::Null,
        };
        put_member(&mut out, "error", error);
        let info = match &self.info {
            Some(text) => Json::Str(text.as_str().to_owned()),
            None => Json::Null,
        };
        put_member(&mut out, "info", info);
        object(out)
    }
}

impl DailyCoErrorInfo {
    /// The information as text: its JSON on several lines.
    pub fn to_string(&self) -> (r: String)
        ensures
            r@ == json_pretty_text(DailyCoErrorInfo::json_of(self@)),
    {
        self.to_json().to_pretty_text()
    }
}

/// Why a request gave no answer that could be used.
#[derive(Debug, Clone)]
pub enum RequestFailure {
    /// The transport could not complete the request; the text says why.
    Transport(String),
    /// No URL could be made for the request.
    Url,
    /// The body of the response is not JSON.
    NotJson,
    /// The body of the response is JSON, but not of the shape that was expected.
    UnexpectedBody,
}

/// What a `RequestFailure` holds.
pub enum RequestFailureView {
    Transport(Seq<char>),
    Url,
    NotJson,
    UnexpectedBody,
}

impl View for RequestFailure {
    type V = RequestFailureView;

    open spec fn view(&self) -> RequestFailureView {
        match self {
            RequestFailure::Transport(text) => RequestFailureView::Transport(text@),
            RequestFailure::Url => RequestFailureView::Url,
            RequestFailure::NotJson => RequestFailureView::NotJson,
            RequestFailure::UnexpectedBody => RequestFailureView::UnexpectedBody,
        }
    }
}

/// A `Result` alias where the `Err` case is `Error`.
pub type Result<T> = std::result::Result<T, Error>;

/// The possible errors when making requests to `Daily`.
#[derive(Debug)]
pub enum Error {
    /// Error related processing the request.
    Request(RequestFailure),
    /// Error reported by `Daily`.
    APIError(DailyCoErrorInfo),
    /// Invalid API key.
    BadAPIKey(&'static str),
    /// Request which requires pagination to return full result, unimplemented.
    RequiresPagination,
}

/// What an `Error` holds.
pub enum ErrorView {
    Request(RequestFailureView),
    APIError(DailyCoErrorInfoView),
    BadAPIKey(Seq<char>),
    RequiresPagination,
}

impl View for Error {
    type V = ErrorView;

    open spec fn view(&self) -> ErrorView {
        match self {
            Error::Request(failure) => ErrorView::Request(failure@),
            Error::APIError(info) => ErrorView::APIError(info@),
            Error::BadAPIKey(text) => ErrorView::BadAPIKey(text@),
            Error::RequiresPagination => ErrorView::RequiresPagination,
        }
    }
}

impl ErrorView {
    /// The error that the body of a failed request stands for: what the service
    /// reports where the body is its report of an error, and a failure of the
    /// request where it is not.
    pub open spec fn of_failure(body: Seq<char>) -> ErrorView {
        match json_parsed(body) {
            None => ErrorView::Request(RequestFailureView::NotJson),
            Some(v) => match DailyCoErrorInfo::of_json(v) {
                Some(info) => ErrorView::APIError(info),
                None => ErrorView::Request(RequestFailureView::UnexpectedBody),
            },
        }
    }

    /// The error as text.
    pub open spec fn message(self) -> Seq<char> {
        match self {
            ErrorView::Request(_) => "failure making the request"@,
            ErrorView::APIError(info) => "daily request returned an error: "@ + json_pretty_text(
                DailyCoErrorInfo::json_of(info),
            ),
            ErrorView::BadAPIKey(text) => "API key problem: "@ + text,
            ErrorView::RequiresPagination =>
                "Response requires pagination, which is not implemented yet."@,
        }
    }
}

impl Error {
    /// The error that the body of a failed request stands for.
    pub fn from_failed_daily_request(body: &str) -> (r: Error)
        ensures
            r@ == ErrorView::of_failure(body@),
    {
        match Json::parse(body) {
            None => Error::Request(RequestFailure::NotJson),
            Some(j) => match DailyCoErrorInfo::from_json(&j) {
                Some(info) => Error::APIError(info),
                None => Error::Request(RequestFailure::UnexpectedBody),
            },
        }
    }

    /// The error as text: which kind of error it is and, for one that the
    /// service reported, what it reported.
    pub fn to_string(&self) -> (r: String)
        ensures
            r@ == self@.message(),
    {
        match self {
            Error::Request(_) => "failure making the request".to_owned(),
            Error::APIError(info) => {
                let mut text = "daily request returned an error: ".to_owned();
                text.append(info.to_string().as_str());
                text
            },
            Error::BadAPIKey(problem) => {
                let mut text = "API key problem: ".to_owned();
                text.append(problem);
                text
            },
            Error::RequiresPagination =>
                "Response requires pagination, which is not implemented yet.".to_owned(),
        }
    }
}

} // verus!
