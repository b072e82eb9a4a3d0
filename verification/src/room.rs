//! Definition and creation of `Daily` rooms.
use crate::client::{result_view, Client, Request, RequestView};
use crate::error::{Error, RequestFailure};
use crate::json::{lemma_object_map_empty, object, opt_view, Json, JsonView};
use crate::room_properties::{
    RoomProperties, RoomPropertiesBuilder, RoomPropertiesBuilderView, RoomPropertiesView,
};
use crate::text::str_eq;
use crate::wire::{
    json_of_option, put_option, read_required, required_of, to_json_option, with_member,
    FromJson, ToJson,
};
use vstd::prelude::*;
use vstd::string::StringExecFns;

verus! {

/// Possibilities for video room visibility.
#[derive(Debug, Copy, Clone, PartialEq, Eq, Structural)]
pub enum RoomPrivacy {
    /// Public room (anyone can join)
    Public,
    /// Private room (need token to join, or owner approval)
    Private,
}

impl RoomPrivacy {
    /// The name that the service has for the visibility.
    pub open spec fn name(self) -> Seq<char> {
        match self {
            RoomPrivacy::Public => "public"@,
            RoomPrivacy::Private => "private"@,
        }
    }

    /// The visibility that the service has that name for, where there is one.
    pub open spec fn named(s: Seq<char>) -> Option<RoomPrivacy> {
        if s == "public"@ {
            Some(RoomPrivacy::Public)
        } else if s == "private"@ {
            Some(RoomPrivacy::Private)
        } else {
            None
        }
    }

    /// The name that the service has for the visibility.
    pub fn as_str(&self) -> (r: &'static str)
        ensures
            r@ == self.name(),
    {
        match self {
            RoomPrivacy::Public => "public",
            RoomPrivacy::Private => "private",
        }
    }

    /// The visibility of that name, and nothing for a name that the service
    /// is not known to use.
    pub fn from_name(s: &str) -> (r: Option<RoomPrivacy>)
        ensures
            r == Self::named(s@),
    {
        if str_eq(s, "public") {
            Some(RoomPrivacy::Public)
        } else if str_eq(s, "private") {
            Some(RoomPrivacy::Private)
        } else {
            None
        }
    }

    /// Each visibility is the one that its own name stands for.
    pub proof fn lemma_named_name(self)
        ensures
            Self::named(self.name()) == Some(self),
    {
        reveal_strlit("public");
        reveal_strlit("private");
        assert("public"@.len() == 6);
        assert("private"@.len() == 7);
    }
}

impl View for RoomPrivacy {
    type V = RoomPrivacy;

    open spec fn view(&self) -> RoomPrivacy {
        *self
    }
}

impl FromJson for RoomPrivacy {
    open spec fn of_json(v: JsonView) -> Option<RoomPrivacy> {
        match v {
            JsonView::Text(s) => Self::named(s),
            _ => None,
        }
    }

    fn from_json(j: &Json) -> (r: Option<RoomPrivacy>)
        ensures
            match r {
                Some(x) => Self::of_json(j@) == Some(x@),
                None => Self::of_json(j@) is None,
            },
    {
        match j.as_str() {
            Some(s) => Self::from_name(s),
            None => None,
        }
    }
}

impl ToJson for RoomPrivacy {
    open spec fn json_of(v: RoomPrivacy) -> JsonView {
        JsonView::Text(v.name())
    }

    fn to_json(&self) -> (j: Json)
        ensures
            j@ == Self::json_of(self@),
    {
        Json::Str(self.as_str().to_owned())
    }
}

impl Default for RoomPrivacy {
    /// The visibility that the service gives a room of which none is asked: public.
    fn default() -> (r: Self)
        ensures
            r == RoomPrivacy::Public,
    {
        RoomPrivacy::Public
    }
}

/// A `CreateRoom` can be used to create a `Daily` room with custom configuration.
#[derive(Debug, Clone)]
pub struct CreateRoom {
    pub name: Option<String>,
    pub privacy: Option<RoomPrivacy>,
    pub properties: Option<RoomPropertiesBuilder>,
}

/// What a `CreateRoom` holds.
pub struct CreateRoomView {
    pub name: Option<Seq<char>>,
    pub privacy: Option<RoomPrivacy>,
    pub properties: Option<RoomPropertiesBuilderView>,
}

impl View for CreateRoom {
    type V = CreateRoomView;

    open spec fn view(&self) -> CreateRoomView {
        CreateRoomView {
            name: opt_view(self.name),
            privacy: self.privacy,
            properties: opt_view(self.properties),
        }
    }
}

impl CreateRoomView {
    /// The request in which nothing is set.
    pub open spec fn empty() -> CreateRoomView {
        CreateRoomView { name: None, privacy: None, properties: None }
    }

    /// The members of the body of the request: one for each of name, privacy
    /// and properties that is set.
    pub open spec fn members(self) -> Map<Seq<char>, JsonView> {
        let m = Map::<Seq<char>, JsonView>::empty();
        let m = with_member(m, "name"@, json_of_option::<String>(self.name));
        let m = with_member(m, "privacy"@, json_of_option::<RoomPrivacy>(self.privacy));
        with_member(m, "properties"@, json_of_option::<RoomPropertiesBuilder>(self.properties))
    }

    /// The body of the request.
    pub open spec fn request_body(self) -> JsonView {
        JsonView::Object(self.members())
    }

    /// The body holds each of name, privacy and properties exactly where it is
    /// set, as it was set, and holds nothing else.
    pub proof fn lemma_members(self)
        ensures
            self.request_body().member("name"@) == json_of_option::<String>(self.name),
            self.request_body().member("privacy"@) == json_of_option::<RoomPrivacy>(self.privacy),
            self.request_body().member("properties"@) == json_of_option::<RoomPropertiesBuilder>(
                self.properties,
            ),
            forall|key: Seq<char>| #[trigger]
                self.members().contains_key(key) ==> key == "name"@ || key == "privacy"@ || key
                    == "properties"@,
    {
        reveal_strlit("name");
        reveal_strlit("privacy");
        reveal_strlit("properties");
        assert("name"@.len() == 4);
        assert("privacy"@.len() == 7);
        assert("properties"@.len() == 10);
    }
}

impl CreateRoom {
    /// Constructs a new `CreateRoom`.
    #[must_use]
    pub fn new() -> (r: Self)
        ensures
            r@ == CreateRoomView::empty(),
    {
        CreateRoom { name: None, privacy: None, properties: None }
    }

    /// Set the name the room will be created with. `Daily`
    /// will randomly generate name if not provided.
    pub fn name(&mut self, name: &str) -> (r: &mut Self)
        ensures
            (*r)@ == (CreateRoomView { name: Some(name@), ..old(self)@ }),
            *final(self) == *final(r),
    {
        self.name = Some(name.to_owned());
        self
    }

    /// Set the visibility for the room.
    pub fn privacy(&mut self, privacy: RoomPrivacy) -> (r: &mut Self)
        ensures
            (*r)@ == (CreateRoomView { privacy: Some(privacy), ..old(self)@ }),
            *final(self) == *final(r),
    {
        self.privacy = Some(privacy);
        self
    }

    /// Set the properties for this room
    pub fn properties(&mut self, properties: RoomPropertiesBuilder) -> (r: &mut Self)
        ensures
            (*r)@ == (CreateRoomView { properties: Some(properties@), ..old(self)@ }),
            *final(self) == *final(r),
    {
        self.properties = Some(properties);
        self
    }

    /// The body of the request: an object with a member for each of name,
    /// privacy and properties that is set.
    pub fn request_body(&self) -> (j: Json)
        ensures
            j@ == self@.request_body(),
    {
        let mut out: Vec<(String, Json)> = Vec::new();
        proof {
            lemma_object_map_empty(out@);
        }
        put_option(&mut out, "name", to_json_option(&self.name));
        put_option(&mut out, "privacy", to_json_option(&self.privacy));
        put_option(&mut out, "properties", to_json_option(&self.properties));
        object(out)
    }

    /// The request that creates the `Daily` room: the body, posted to the
    /// rooms of the client. Its response is read by `parse_dailyco_response` as
    /// a `Room`.
    pub fn send_request(&self, client: &Client) -> (r: Result<Request, Error>)
        ensures
            result_view(r) == (match client@.url("rooms/"@) {
                Some(url) => Ok(RequestView::post(url, self@.request_body())),
                None => crate::client::no_url(),
            }),
    {
        match client.url("rooms/") {
            Some(url) => Ok(Request::post(url, self.request_body())),
            None => Err(Error::Request(RequestFailure::Url)),
        }
    }
}

impl Default for CreateRoom {
    /// The request in which nothing is set.
    fn default() -> (r: Self)
        ensures
            r@ == CreateRoomView::empty(),
    {
        CreateRoom::new()
    }
}

/// Room object metadata as reported by `Daily`.
#[derive(Debug, Clone)]
pub struct Room {
    /// The id for this room.
    pub id: String,
    /// The name of this room.
    pub name: String,
    /// Whether the room was created programmatically or through the dashboard.
    pub api_created: bool,
    /// The visibility of this room.
    pub privacy: RoomPrivacy,
    /// The URL which can be used to join the room.
    pub url: String,
    /// Creation datetime.
    pub created_at: String,
    /// Configuration options for this room.
    pub config: RoomProperties,
}

/// What a `Room` holds.
pub struct RoomView {
    pub id: Seq<char>,
    pub name: Seq<char>,
    pub api_created: bool,
    pub privacy: RoomPrivacy,
    pub url: Seq<char>,
    pub created_at: Seq<char>,
    pub config: RoomPropertiesView,
}

impl View for Room {
    type V = RoomView;

    open spec fn view(&self) -> RoomView {
        RoomView {
            id: self.id@,
            name: self.name@,
            api_created: self.api_created,
            privacy: self.privacy,
            url: self.url@,
            created_at: self.created_at@,
            config: self.config@,
        }
    }
}

impl FromJson for Room {
    /// Every member must be there.
    open spec fn of_json(v: JsonView) -> Option<RoomView> {
        let id = read_required::<String>(v.member("id"@));
        let name = read_required::<String>(v.member("name"@));
        let api_created = read_required::<bool>(v.member("api_created"@));
        let privacy = read_required::<RoomPrivacy>(v.member("privacy"@));
        let url = read_required::<String>(v.member("url"@));
        let created_at = read_required::<String>(v.member("created_at"@));
        let config = read_required::<RoomProperties>(v.member("config"@));
        if v is Object && id is Some && name is Some && api_created is Some && privacy is Some
            && url is Some && created_at is Some && config is Some {
            Some(
                RoomView {
                    id: id.unwrap(),
                    name: name.unwrap(),
                    api_created: api_created.unwrap(),
                    privacy: privacy.unwrap(),
                    url: url.unwrap(),
                    created_at: created_at.unwrap(),
                    config: config.unwrap(),
                },
            )
        } else {
            None
        }
    }

    fn from_json(j: &Json) -> (r: Option<Room>)
        ensures
            match r {
                Some(x) => Self::of_json(j@) == Some(x@),
                None => Self::of_json(j@) is None,
            },
    {
        if !j.is_object() {
            return None;
        }
        let id = required_of::<String>(j.get("id"))?;
        let name = required_of::<String>(j.get("name"))?;
        let api_created = required_of::<bool>(j.get("api_created"))?;
        let privacy = required_of::<RoomPrivacy>(j.get("privacy"))?;
        let url = required_of::<String>(j.get("url"))?;
        let created_at = required_of::<String>(j.get("created_at"))?;
        let config = required_of::<RoomProperties>(j.get("config"))?;
        Some(Room { id, name, api_created, privacy, url, created_at, config })
    }
}

/// An `UpdateRoom` can be used to update an existing `Daily` room.
#[derive(Debug, Clone)]
pub struct UpdateRoom {
    pub privacy: Option<RoomPrivacy>,
    pub properties: Option<RoomPropertiesBuilder>,
}

/// What an `UpdateRoom` holds.
pub struct UpdateRoomView {
    pub privacy: Option<RoomPrivacy>,
    pub properties: Option<RoomPropertiesBuilderView>,
}

impl View for UpdateRoom {
    type V = UpdateRoomView;

    open spec fn view(&self) -> UpdateRoomView {
        UpdateRoomView { privacy: self.privacy, properties: opt_view(self.properties) }
    }
}

impl UpdateRoomView {
    /// The request in which nothing is set.
    pub open spec fn empty() -> UpdateRoomView {
        UpdateRoomView { privacy: None, properties: None }
    }

    /// The members of the body of the request: one for each of privacy and
    /// properties that is set.
    pub open spec fn members(self) -> Map<Seq<char>, JsonView> {
        let m = Map::<Seq<char>, JsonView>::empty();
        let m = with_member(m, "privacy"@, json_of_option::<RoomPrivacy>(self.privacy));
        with_member(m, "properties"@, json_of_option::<RoomPropertiesBuilder>(self.properties))
    }

    /// The body of the request.
    pub open spec fn request_body(self) -> JsonView {
        JsonView::Object(self.members())
    }

    /// The body holds each of privacy and properties exactly where it is set, as
    /// it was set, and holds nothing else.
    pub proof fn lemma_members(self)
        ensures
            self.request_body().member("privacy"@) == json_of_option::<RoomPrivacy>(self.privacy),
            self.request_body().member("properties"@) == json_of_option::<RoomPropertiesBuilder>(
                self.properties,
            ),
            forall|key: Seq<char>| #[trigger]
                self.members().contains_key(key) ==> key == "privacy"@ || key == "properties"@,
    {
        reveal_strlit("privacy");
        reveal_strlit("properties");
        assert("privacy"@.len() == 7);
        assert("properties"@.len() == 10);
    }
}

impl UpdateRoom {
    /// Constructs a new `UpdateRoom`.
    #[must_use]
    pub fn new() -> (r: Self)
        ensures
            r@ == UpdateRoomView::empty(),
    {
        UpdateRoom { privacy: None, properties: None }
    }

    /// Update the visibility for the room.
    pub fn privacy(&mut self, privacy: RoomPrivacy) -> (r: &mut Self)
        ensures
            (*r)@ == (UpdateRoomView { privacy: Some(privacy), ..old(self)@ }),
            *final(self) == *final(r),
    {
        self.privacy = Some(privacy);
        self
    }

    /// Update the properties for this room
    pub fn properties(&mut self, properties: RoomPropertiesBuilder) -> (r: &mut Self)
        ensures
            (*r)@ == (UpdateRoomView { properties: Some(properties@), ..old(self)@ }),
            *final(self) == *final(r),
    {
        self.properties = Some(properties);
        self
    }

    /// The body of the request: an object with a member for each of privacy and
    /// properties that is set.
    pub fn request_body(&self) -> (j: Json)
        ensures
            j@ == self@.request_body(),
    {
        let mut out: Vec<(String, Json)> = Vec::new();
        proof {
            lemma_object_map_empty(out@);
        }
        put_option(&mut out, "privacy", to_json_option(&self.privacy));
        put_option(&mut out, "properties", to_json_option(&self.properties));
        object(out)
    }

    /// The request that updates a `Daily` room: the body, posted to the room of
    /// that name among the rooms of the client. Its response is read by
    /// `parse_dailyco_response` as a `Room`.
    pub fn send_request(&self, room_name: &str, client: &Client) -> (r: Result<Request, Error>)
        ensures
            result_view(r) == (match client@.url("rooms/"@ + room_name@) {
                Some(url) => Ok(RequestView::post(url, self@.request_body())),
                None => crate::client::no_url(),
            }),
    {
        let mut path = "rooms/".to_owned();
        path.append(room_name);
        match client.url(path.as_str()) {
            Some(url) => Ok(Request::post(url, self.request_body())),
            None => Err(Error::Request(RequestFailure::Url)),
        }
    }
}

impl Default for UpdateRoom {
    /// The request in which nothing is set.
    fn default() -> (r: Self)
        ensures
            r@ == UpdateRoomView::empty(),
    {
        UpdateRoom::new()
    }
}

} // verus!
