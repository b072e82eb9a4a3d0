//! Definition and creation of `Daily` meeting tokens.
use crate::client::{
    no_url, parse_dailyco_response, response_of, result_view, Client, Request, RequestView,
};
use crate::configuration::{DailyLang, RecordingType};
use crate::error::{Error, RequestFailure};
use crate::json::{lemma_object_map_empty, object, object_map, opt_view, put_member, Json, JsonView};
use crate::self_sign_token::{self_sign_token, signed_token};
use crate::wire::{
    json_of_option, optional_of, present_of, put_option, read_optional, read_present,
    read_required, required_of, take_or, to_json_option, value_or, with_member, FromJson,
    ToJson,
};
use vstd::prelude::*;
use vstd::std_specs::convert::FromSpecImpl;

verus! {

/// The number of settings that a meeting token has.
pub const TOKEN_FIELDS: usize = 18;

/// The settings of a meeting token. Each has one name in requests and responses
/// and one among the claims of a signed token; both encodings take the names
/// from here.
#[derive(Debug, Copy, Clone, PartialEq, Eq, Structural)]
pub enum TokenField {
    RoomName,
    EjectAtTokenExp,
    EjectAfterElapsed,
    Nbf,
    Exp,
    IsOwner,
    UserName,
    UserId,
    EnableScreenshare,
    StartVideoOff,
    StartAudioOff,
    EnableRecording,
    EnablePrejoinUi,
    EnableTerseLogging,
    StartCloudRecording,
    CloseTabOnExit,
    RedirectOnMeetingExit,
    Lang,
}

impl TokenField {
    /// The name of the setting in a request and in a response.
    pub open spec fn name(self) -> Seq<char> {
        match self {
            TokenField::RoomName => "room_name"@,
            TokenField::EjectAtTokenExp => "eject_at_token_exp"@,
            TokenField::EjectAfterElapsed => "eject_after_elapsed"@,
            TokenField::Nbf => "nbf"@,
            TokenField::Exp => "exp"@,
            TokenField::IsOwner => "is_owner"@,
            TokenField::UserName => "user_name"@,
            TokenField::UserId => "user_id"@,
            TokenField::EnableScreenshare => "enable_screenshare"@,
            TokenField::StartVideoOff => "start_video_off"@,
            TokenField::StartAudioOff => "start_audio_off"@,
            TokenField::EnableRecording => "enable_recording"@,
            TokenField::EnablePrejoinUi => "enable_prejoin_ui"@,
            TokenField::EnableTerseLogging => "enable_terse_logging"@,
            TokenField::StartCloudRecording => "start_cloud_recording"@,
            TokenField::CloseTabOnExit => "close_tab_on_exit"@,
            TokenField::RedirectOnMeetingExit => "redirect_on_meeting_exit"@,
            TokenField::Lang => "lang"@,
        }
    }

    /// The name of the setting in a request and in a response.
    pub fn as_str(&self) -> (r: &'static str)
        ensures
            r@ == self.name(),
    {
        match self {
            TokenField::RoomName => "room_name",
            TokenField::EjectAtTokenExp => "eject_at_token_exp",
            TokenField::EjectAfterElapsed => "eject_after_elapsed",
            TokenField::Nbf => "nbf",
            TokenField::Exp => "exp",
            TokenField::IsOwner => "is_owner",
            TokenField::UserName => "user_name",
            TokenField::UserId => "user_id",
            TokenField::EnableScreenshare => "enable_screenshare",
            TokenField::StartVideoOff => "start_video_off",
            TokenField::StartAudioOff => "start_audio_off",
            TokenField::EnableRecording => "enable_recording",
            TokenField::EnablePrejoinUi => "enable_prejoin_ui",
            TokenField::EnableTerseLogging => "enable_terse_logging",
            TokenField::StartCloudRecording => "start_cloud_recording",
            TokenField::CloseTabOnExit => "close_tab_on_exit",
            TokenField::RedirectOnMeetingExit => "redirect_on_meeting_exit",
            TokenField::Lang => "lang",
        }
    }

    /// The name of the setting among the claims of a signed token.
    pub open spec fn claim(self) -> Seq<char> {
        match self {
            TokenField::RoomName => "r"@,
            TokenField::EjectAtTokenExp => "ejt"@,
            TokenField::EjectAfterElapsed => "eje"@,
            TokenField::Nbf => "nbf"@,
            TokenField::Exp => "exp"@,
            TokenField::IsOwner => "o"@,
            TokenField::UserName => "u"@,
            TokenField::UserId => "ud"@,
            TokenField::EnableScreenshare => "ss"@,
            TokenField::StartVideoOff => "vo"@,
            TokenField::StartAudioOff => "ao"@,
            TokenField::EnableRecording => "er"@,
            TokenField::EnablePrejoinUi => "enable_prejoin_ui"@,
            TokenField::EnableTerseLogging => "enable_terse_logging"@,
            TokenField::StartCloudRecording => "sr"@,
            TokenField::CloseTabOnExit => "ctoe"@,
            TokenField::RedirectOnMeetingExit => "rome"@,
            TokenField::Lang => "uil"@,
        }
    }

    /// The name of the setting among the claims of a signed token.
    pub fn claim_str(&self) -> (r: &'static str)
        ensures
            r@ == self.claim(),
    {
        match self {
            TokenField::RoomName => "r",
            TokenField::EjectAtTokenExp => "ejt",
            TokenField::EjectAfterElapsed => "eje",
            TokenField::Nbf => "nbf",
            TokenField::Exp => "exp",
            TokenField::IsOwner => "o",
            TokenField::UserName => "u",
            TokenField::UserId => "ud",
            TokenField::EnableScreenshare => "ss",
            TokenField::StartVideoOff => "vo",
            TokenField::StartAudioOff => "ao",
            TokenField::EnableRecording => "er",
            TokenField::EnablePrejoinUi => "enable_prejoin_ui",
            TokenField::EnableTerseLogging => "enable_terse_logging",
            TokenField::StartCloudRecording => "sr",
            TokenField::CloseTabOnExit => "ctoe",
            TokenField::RedirectOnMeetingExit => "rome",
            TokenField::Lang => "uil",
        }
    }

    /// The name of the setting: among the claims of a signed token, or in a
    /// request.
    pub open spec fn key(self, claims: bool) -> Seq<char> {
        if claims {
            self.claim()
        } else {
            self.name()
        }
    }

    /// The name of the setting: among the claims of a signed token, or in a
    /// request.
    pub fn key_str(&self, claims: bool) -> (r: &'static str)
        ensures
            r@ == self.key(claims),
    {
        if claims {
            self.claim_str()
        } else {
            self.as_str()
        }
    }

    /// The place of the setting in the order in which the settings are written.
    pub open spec fn index(self) -> int {
        match self {
            TokenField::RoomName => 0,
            TokenField::EjectAtTokenExp => 1,
            TokenField::EjectAfterElapsed => 2,
            TokenField::Nbf => 3,
            TokenField::Exp => 4,
            TokenField::IsOwner => 5,
            TokenField::UserName => 6,
            TokenField::UserId => 7,
            TokenField::EnableScreenshare => 8,
            TokenField::StartVideoOff => 9,
            TokenField::StartAudioOff => 10,
            TokenField::EnableRecording => 11,
            TokenField::EnablePrejoinUi => 12,
            TokenField::EnableTerseLogging => 13,
            TokenField::StartCloudRecording => 14,
            TokenField::CloseTabOnExit => 15,
            TokenField::RedirectOnMeetingExit => 16,
            TokenField::Lang => 17,
        }
    }

    /// The setting at a place in that order.
    pub open spec fn at(i: int) -> TokenField {
        if i == 0 {
            TokenField::RoomName
        } else if i == 1 {
            TokenField::EjectAtTokenExp
        } else if i == 2 {
            TokenField::EjectAfterElapsed
        } else if i == 3 {
            TokenField::Nbf
        } else if i == 4 {
            TokenField::Exp
        } else if i == 5 {
            TokenField::IsOwner
        } else if i == 6 {
            TokenField::UserName
        } else if i == 7 {
            TokenField::UserId
        } else if i == 8 {
            TokenField::EnableScreenshare
        } else if i == 9 {
            TokenField::StartVideoOff
        } else if i == 10 {
            TokenField::StartAudioOff
        } else if i == 11 {
            TokenField::EnableRecording
        } else if i == 12 {
            TokenField::EnablePrejoinUi
        } else if i == 13 {
            TokenField::EnableTerseLogging
        } else if i == 14 {
            TokenField::StartCloudRecording
        } else if i == 15 {
            TokenField::CloseTabOnExit
        } else if i == 16 {
            TokenField::RedirectOnMeetingExit
        } else {
            TokenField::Lang
        }
    }

    /// The setting at a place in that order, and nothing beyond the last.
    pub fn nth(i: usize) -> (r: Option<TokenField>)
        ensures
            r == (if i < TOKEN_FIELDS {
                Some(Self::at(i as int))
            } else {
                None
            }),
    {
        if i == 0 {
            Some(TokenField::RoomName)
        } else if i == 1 {
            Some(TokenField::EjectAtTokenExp)
        } else if i == 2 {
            Some(TokenField::EjectAfterElapsed)
        } else if i == 3 {
            Some(TokenField::Nbf)
        } else if i == 4 {
            Some(TokenField::Exp)
        } else if i == 5 {
            Some(TokenField::IsOwner)
        } else if i == 6 {
            Some(TokenField::UserName)
        } else if i == 7 {
            Some(TokenField::UserId)
        } else if i == 8 {
            Some(TokenField::EnableScreenshare)
        } else if i == 9 {
            Some(TokenField::StartVideoOff)
        } else if i == 10 {
            Some(TokenField::StartAudioOff)
        } else if i == 11 {
            Some(TokenField::EnableRecording)
        } else if i == 12 {
            Some(TokenField::EnablePrejoinUi)
        } else if i == 13 {
            Some(TokenField::EnableTerseLogging)
        } else if i == 14 {
            Some(TokenField::StartCloudRecording)
        } else if i == 15 {
            Some(TokenField::CloseTabOnExit)
        } else if i == 16 {
            Some(TokenField::RedirectOnMeetingExit)
        } else if i == 17 {
            Some(TokenField::Lang)
        } else {
            None
        }
    }

    /// Each setting stands at its own place, and the places are those below the
    /// number of settings.
    pub proof fn lemma_at_index(self)
        ensures
            0 <= self.index() < TOKEN_FIELDS,
            Self::at(self.index()) == self,
    {
    }

    /// No two settings have the same name.
    pub proof fn lemma_names_differ(a: TokenField, b: TokenField)
        requires
            a != b,
        ensures
            a.name() != b.name(),
    {
        reveal_strlit("room_name");
        reveal_strlit("eject_at_token_exp");
        reveal_strlit("eject_after_elapsed");
        reveal_strlit("nbf");
        reveal_strlit("exp");
        reveal_strlit("is_owner");
        reveal_strlit("user_name");
        reveal_strlit("user_id");
        reveal_strlit("enable_screenshare");
        reveal_strlit("start_video_off");
        reveal_strlit("start_audio_off");
        reveal_strlit("enable_recording");
        reveal_strlit("enable_prejoin_ui");
        reveal_strlit("enable_terse_logging");
        reveal_strlit("start_cloud_recording");
        reveal_strlit("close_tab_on_exit");
        reveal_strlit("redirect_on_meeting_exit");
        reveal_strlit("lang");
        assert("room_name"@.len() == 9 && "room_name"@[1] == 'o' && "room_name"@[6] == 'a');
        assert(
            "eject_at_token_exp"@.len() == 18
            && "eject_at_token_exp"@[1] == 'j'
            && "eject_at_token_exp"@[6] == 'a'
        );
        assert(
            "eject_after_elapsed"@.len() == 19
            && "eject_after_elapsed"@[1] == 'j'
            && "eject_after_elapsed"@[6] == 'a'
        );
        assert("nbf"@.len() == 3 && "nbf"@[1] == 'b');
        assert("exp"@.len() == 3 && "exp"@[1] == 'x');
        assert("is_owner"@.len() == 8 && "is_owner"@[1] == 's' && "is_owner"@[6] == 'e');
        assert("user_name"@.len() == 9 && "user_name"@[1] == 's' && "user_name"@[6] == 'a');
        assert("user_id"@.len() == 7 && "user_id"@[1] == 's' && "user_id"@[6] == 'd');
        assert(
            "enable_screenshare"@.len() == 18
            && "enable_screenshare"@[1] == 'n'
            && "enable_screenshare"@[6] == '_'
        );
        assert(
            "start_video_off"@.len() == 15
            && "start_video_off"@[1] == 't'
            && "start_video_off"@[6] == 'v'
        );
        assert(
            "start_audio_off"@.len() == 15
            && "start_audio_off"@[1] == 't'
            && "start_audio_off"@[6] == 'a'
        );
        assert(
            "enable_recording"@.len() == 16
            && "enable_recording"@[1] == 'n'
            && "enable_recording"@[6] == '_'
        );
        assert(
            "enable_prejoin_ui"@.len() == 17
            && "enable_prejoin_ui"@[1] == 'n'
            && "enable_prejoin_ui"@[6] == '_'
        );
        assert(
            "enable_terse_logging"@.len() == 20
            && "enable_terse_logging"@[1] == 'n'
            && "enable_terse_logging"@[6] == '_'
        );
        assert(
            "start_cloud_recording"@.len() == 21
            && "start_cloud_recording"@[1] == 't'
            && "start_cloud_recording"@[6] == 'c'
        );
        assert(
            "close_tab_on_exit"@.len() == 17
            && "close_tab_on_exit"@[1] == 'l'
            && "close_tab_on_exit"@[6] == 't'
        );
        assert(
            "redirect_on_meeting_exit"@.len() == 24
            && "redirect_on_meeting_exit"@[1] == 'e'
            && "redirect_on_meeting_exit"@[6] == 'c'
        );
        assert("lang"@.len() == 4 && "lang"@[1] == 'a');
    }

    /// No two settings have the same name among the claims, and none has the
    /// name of the claim that holds the domain.
    pub proof fn lemma_claims_differ(a: TokenField, b: TokenField)
        ensures
            a != b ==> a.claim() != b.claim(),
            a.claim() != "d"@,
    {
        reveal_strlit("r");
        reveal_strlit("ejt");
        reveal_strlit("eje");
        reveal_strlit("nbf");
        reveal_strlit("exp");
        reveal_strlit("o");
        reveal_strlit("u");
        reveal_strlit("ud");
        reveal_strlit("ss");
        reveal_strlit("vo");
        reveal_strlit("ao");
        reveal_strlit("er");
        reveal_strlit("enable_prejoin_ui");
        reveal_strlit("enable_terse_logging");
        reveal_strlit("sr");
        reveal_strlit("ctoe");
        reveal_strlit("rome");
        reveal_strlit("uil");
        reveal_strlit("d");
        assert("r"@.len() == 1 && "r"@[0] == 'r');
        assert("ejt"@.len() == 3 && "ejt"@[0] == 'e' && "ejt"@[1] == 'j' && "ejt"@[2] == 't');
        assert("eje"@.len() == 3 && "eje"@[0] == 'e' && "eje"@[1] == 'j' && "eje"@[2] == 'e');
        assert("nbf"@.len() == 3 && "nbf"@[0] == 'n' && "nbf"@[1] == 'b' && "nbf"@[2] == 'f');
        assert("exp"@.len() == 3 && "exp"@[0] == 'e' && "exp"@[1] == 'x' && "exp"@[2] == 'p');
        assert("o"@.len() == 1 && "o"@[0] == 'o');
        assert("u"@.len() == 1 && "u"@[0] == 'u');
        assert("ud"@.len() == 2 && "ud"@[0] == 'u' && "ud"@[1] == 'd');
        assert("ss"@.len() == 2 && "ss"@[0] == 's' && "ss"@[1] == 's');
        assert("vo"@.len() == 2 && "vo"@[0] == 'v' && "vo"@[1] == 'o');
        assert("ao"@.len() == 2 && "ao"@[0] == 'a' && "ao"@[1] == 'o');
        assert("er"@.len() == 2 && "er"@[0] == 'e' && "er"@[1] == 'r');
        assert(
            "enable_prejoin_ui"@.len() == 17
            && "enable_prejoin_ui"@[0] == 'e'
            && "enable_prejoin_ui"@[1] == 'n'
            && "enable_prejoin_ui"@[2] == 'a'
        );
        assert(
            "enable_terse_logging"@.len() == 20
            && "enable_terse_logging"@[0] == 'e'
            && "enable_terse_logging"@[1] == 'n'
            && "enable_terse_logging"@[2] == 'a'
        );
        assert("sr"@.len() == 2 && "sr"@[0] == 's' && "sr"@[1] == 'r');
        assert("ctoe"@.len() == 4 && "ctoe"@[0] == 'c' && "ctoe"@[1] == 't' && "ctoe"@[2] == 'o');
        assert("rome"@.len() == 4 && "rome"@[0] == 'r' && "rome"@[1] == 'o' && "rome"@[2] == 'm');
        assert("uil"@.len() == 3 && "uil"@[0] == 'u' && "uil"@[1] == 'i' && "uil"@[2] == 'l');
        assert("d"@.len() == 1 && "d"@[0] == 'd');
    }

    /// No two settings have the same name, in either naming.
    pub proof fn lemma_keys_differ(a: TokenField, b: TokenField, claims: bool)
        requires
            a != b,
        ensures
            a.key(claims) != b.key(claims),
    {
        Self::lemma_names_differ(a, b);
        Self::lemma_claims_differ(a, b);
    }
}

/// A `CreateMeetingToken` can be used to create a `Daily` meeting token for gaining
/// access to a private room.
#[derive(Debug, Clone)]
pub struct CreateMeetingToken {
    pub room_name: Option<String>,
    pub eject_at_token_exp: Option<bool>,
    pub eject_after_elapsed: Option<i64>,
    pub nbf: Option<i64>,
    pub exp: Option<i64>,
    pub is_owner: Option<bool>,
    pub user_name: Option<String>,
    pub user_id: Option<String>,
    pub enable_screenshare: Option<bool>,
    pub start_video_off: Option<bool>,
    pub start_audio_off: Option<bool>,
    pub enable_recording: Option<RecordingType>,
    pub enable_prejoin_ui: Option<bool>,
    pub enable_terse_logging: Option<bool>,
    pub start_cloud_recording: Option<bool>,
    pub close_tab_on_exit: Option<bool>,
    pub redirect_on_meeting_exit: Option<String>,
    pub lang: Option<DailyLang>,
}

/// What a `CreateMeetingToken` holds: for each setting, the value that it was set to, if it
/// was set.
pub struct CreateMeetingTokenView {
    pub room_name: Option<Seq<char>>,
    pub eject_at_token_exp: Option<bool>,
    pub eject_after_elapsed: Option<i64>,
    pub nbf: Option<i64>,
    pub exp: Option<i64>,
    pub is_owner: Option<bool>,
    pub user_name: Option<Seq<char>>,
    pub user_id: Option<Seq<char>>,
    pub enable_screenshare: Option<bool>,
    pub start_video_off: Option<bool>,
    pub start_audio_off: Option<bool>,
    pub enable_recording: Option<RecordingType>,
    pub enable_prejoin_ui: Option<bool>,
    pub enable_terse_logging: Option<bool>,
    pub start_cloud_recording: Option<bool>,
    pub close_tab_on_exit: Option<bool>,
    pub redirect_on_meeting_exit: Option<Seq<char>>,
    pub lang: Option<DailyLang>,
}

impl View for CreateMeetingToken {
    type V = CreateMeetingTokenView;

    open spec fn view(&self) -> CreateMeetingTokenView {
        CreateMeetingTokenView {
            room_name: opt_view(self.room_name),
            eject_at_token_exp: self.eject_at_token_exp,
            eject_after_elapsed: self.eject_after_elapsed,
            nbf: self.nbf,
            exp: self.exp,
            is_owner: self.is_owner,
            user_name: opt_view(self.user_name),
            user_id: opt_view(self.user_id),
            enable_screenshare: self.enable_screenshare,
            start_video_off: self.start_video_off,
            start_audio_off: self.start_audio_off,
            enable_recording: self.enable_recording,
            enable_prejoin_ui: self.enable_prejoin_ui,
            enable_terse_logging: self.enable_terse_logging,
            start_cloud_recording: self.start_cloud_recording,
            close_tab_on_exit: self.close_tab_on_exit,
            redirect_on_meeting_exit: opt_view(self.redirect_on_meeting_exit),
            lang: self.lang,
        }
    }
}

impl CreateMeetingTokenView {
    /// The builder in which no setting is set.
    pub open spec fn empty() -> CreateMeetingTokenView {
        CreateMeetingTokenView {
            room_name: None,
            eject_at_token_exp: None,
            eject_after_elapsed: None,
            nbf: None,
            exp: None,
            is_owner: None,
            user_name: None,
            user_id: None,
            enable_screenshare: None,
            start_video_off: None,
            start_audio_off: None,
            enable_recording: None,
            enable_prejoin_ui: None,
            enable_terse_logging: None,
            start_cloud_recording: None,
            close_tab_on_exit: None,
            redirect_on_meeting_exit: None,
            lang: None,
        }
    }

    /// The JSON value that a setting is sent as, where the setting is set.
    pub open spec fn value(self, field: TokenField) -> Option<JsonView> {
        match field {
            TokenField::RoomName => json_of_option::<String>(self.room_name),
            TokenField::EjectAtTokenExp => json_of_option::<bool>(self.eject_at_token_exp),
            TokenField::EjectAfterElapsed => json_of_option::<i64>(self.eject_after_elapsed),
            TokenField::Nbf => json_of_option::<i64>(self.nbf),
            TokenField::Exp => json_of_option::<i64>(self.exp),
            TokenField::IsOwner => json_of_option::<bool>(self.is_owner),
            TokenField::UserName => json_of_option::<String>(self.user_name),
            TokenField::UserId => json_of_option::<String>(self.user_id),
            TokenField::EnableScreenshare => json_of_option::<bool>(self.enable_screenshare),
            TokenField::StartVideoOff => json_of_option::<bool>(self.start_video_off),
            TokenField::StartAudioOff => json_of_option::<bool>(self.start_audio_off),
            TokenField::EnableRecording => json_of_option::<RecordingType>(self.enable_recording),
            TokenField::EnablePrejoinUi => json_of_option::<bool>(self.enable_prejoin_ui),
            TokenField::EnableTerseLogging => json_of_option::<bool>(self.enable_terse_logging),
            TokenField::StartCloudRecording => json_of_option::<bool>(self.start_cloud_recording),
            TokenField::CloseTabOnExit => json_of_option::<bool>(self.close_tab_on_exit),
            TokenField::RedirectOnMeetingExit => json_of_option::<String>(
                self.redirect_on_meeting_exit,
            ),
            TokenField::Lang => json_of_option::<DailyLang>(self.lang),
        }
    }

    /// The members of the first settings, as many as are asked for: one for each
    /// of them that is set.
    pub open spec fn members_upto(self, claims: bool, n: nat) -> Map<Seq<char>, JsonView>
        decreases n,
    {
        if n == 0 {
            Map::empty()
        } else {
            let field = TokenField::at(n - 1);
            with_member(
                self.members_upto(claims, (n - 1) as nat),
                field.key(claims),
                self.value(field),
            )
        }
    }

    /// The members that the builder is written as: one for each setting that
    /// is set, under the name that the setting has among the claims of a signed
    /// token or in a request.
    pub open spec fn members(self, claims: bool) -> Map<Seq<char>, JsonView> {
        self.members_upto(claims, TOKEN_FIELDS as nat)
    }

    /// What the service reports of what was made from the builder, where it
    /// reports each setting that is set as it was set and leaves out the others.
    pub open spec fn materialized(self) -> MeetingTokenView {
        MeetingTokenView {
            room_name: self.room_name,
            eject_at_token_exp: value_or(self.eject_at_token_exp, false),
            eject_after_elapsed: self.eject_after_elapsed,
            nbf: self.nbf,
            exp: self.exp,
            is_owner: value_or(self.is_owner, false),
            user_name: self.user_name,
            user_id: self.user_id,
            enable_screenshare: value_or(self.enable_screenshare, true),
            start_video_off: value_or(self.start_video_off, false),
            start_audio_off: value_or(self.start_audio_off, false),
            enable_recording: self.enable_recording,
            enable_prejoin_ui: self.enable_prejoin_ui,
            enable_terse_logging: value_or(self.enable_terse_logging, false),
            start_cloud_recording: value_or(self.start_cloud_recording, false),
            close_tab_on_exit: value_or(self.close_tab_on_exit, false),
            redirect_on_meeting_exit: self.redirect_on_meeting_exit,
            lang: self.lang,
        }
    }
}

impl CreateMeetingToken {
    /// Constructs a new `CreateMeetingToken`.
    #[must_use]
    pub fn new() -> (r: Self)
        ensures
            r@ == CreateMeetingTokenView::empty(),
    {
        CreateMeetingToken {
            room_name: None,
            eject_at_token_exp: None,
            eject_after_elapsed: None,
            nbf: None,
            exp: None,
            is_owner: None,
            user_name: None,
            user_id: None,
            enable_screenshare: None,
            start_video_off: None,
            start_audio_off: None,
            enable_recording: None,
            enable_prejoin_ui: None,
            enable_terse_logging: None,
            start_cloud_recording: None,
            close_tab_on_exit: None,
            redirect_on_meeting_exit: None,
            lang: None,
        }
    }

    /// The room for which this token is valid. If `room_name` isn't set, the token is
    /// valid for all rooms in your domain.
    pub fn room_name(&mut self, room_name: &str) -> (r: &mut Self)
        ensures
            (*r)@ == (CreateMeetingTokenView { room_name: Some(room_name@), ..old(self)@ }),
            *final(self) == *final(r),
    {
        self.room_name = Some(room_name.to_owned());
        self
    }

    /// Kick this user out of the meeting at the time this meeting token expires.
    pub fn eject_at_token_exp(&mut self, eject_at_token_exp: bool) -> (r: &mut Self)
        ensures
            (*r)@ == (CreateMeetingTokenView {
                eject_at_token_exp: Some(eject_at_token_exp),
                ..old(self)@
            }),
            *final(self) == *final(r),
    {
        self.eject_at_token_exp = Some(eject_at_token_exp);
        self
    }

    /// Kick this user out of the meeting this many seconds after they join the meeting.
    pub fn eject_after_elapsed(&mut self, eject_after_elapsed: i64) -> (r: &mut Self)
        ensures
            (*r)@ == (CreateMeetingTokenView {
                eject_after_elapsed: Some(eject_after_elapsed),
                ..old(self)@
            }),
            *final(self) == *final(r),
    {
        self.eject_after_elapsed = Some(eject_after_elapsed);
        self
    }

    /// UTC timestamp before which the token cannot be used.
    pub fn nbf(&mut self, nbf: i64) -> (r: &mut Self)
        ensures
            (*r)@ == (CreateMeetingTokenView { nbf: Some(nbf), ..old(self)@ }),
            *final(self) == *final(r),
    {
        self.nbf = Some(nbf);
        self
    }

    /// UTC timestamp for expiration of the token.
    pub fn exp(&mut self, exp: i64) -> (r: &mut Self)
        ensures
            (*r)@ == (CreateMeetingTokenView { exp: Some(exp), ..old(self)@ }),
            *final(self) == *final(r),
    {
        self.exp = Some(exp);
        self
    }

    /// The user has meeting owner privileges.
    pub fn is_owner(&mut self, is_owner: bool) -> (r: &mut Self)
        ensures
            (*r)@ == (CreateMeetingTokenView { is_owner: Some(is_owner), ..old(self)@ }),
            *final(self) == *final(r),
    {
        self.is_owner = Some(is_owner);
        self
    }

    /// The user's name in this meeting.
    pub fn user_name(&mut self, user_name: &str) -> (r: &mut Self)
        ensures
            (*r)@ == (CreateMeetingTokenView { user_name: Some(user_name@), ..old(self)@ }),
            *final(self) == *final(r),
    {
        self.user_name = Some(user_name.to_owned());
        self
    }

    /// The user's id for this meeting session.
    pub fn user_id(&mut self, user_id: &str) -> (r: &mut Self)
        ensures
            (*r)@ == (CreateMeetingTokenView { user_id: Some(user_id@), ..old(self)@ }),
            *final(self) == *final(r),
    {
        self.user_id = Some(user_id.to_owned());
        self
    }

    /// The user is allowed to screenshare.
    pub fn enable_screenshare(&mut self, enable_screenshare: bool) -> (r: &mut Self)
        ensures
            (*r)@ == (CreateMeetingTokenView {
                enable_screenshare: Some(enable_screenshare),
                ..old(self)@
            }),
            *final(self) == *final(r),
    {
        self.enable_screenshare = Some(enable_screenshare);
        self
    }

    /// When a participant first joins a meeting, keep their camera off.
    pub fn start_video_off(&mut self, start_video_off: bool) -> (r: &mut Self)
        ensures
            (*r)@ == (CreateMeetingTokenView {
                start_video_off: Some(start_video_off),
                ..old(self)@
            }),
            *final(self) == *final(r),
    {
        self.start_video_off = Some(start_video_off);
        self
    }

    /// When a participant first joins a meeting, keep their microphone muted.
    pub fn start_audio_off(&mut self, start_audio_off: bool) -> (r: &mut Self)
        ensures
            (*r)@ == (CreateMeetingTokenView {
                start_audio_off: Some(start_audio_off),
                ..old(self)@
            }),
            *final(self) == *final(r),
    {
        self.start_audio_off = Some(start_audio_off);
        self
    }

    /// Allowed recording type
    pub fn enable_recording(&mut self, enable_recording: RecordingType) -> (r: &mut Self)
        ensures
            (*r)@ == (CreateMeetingTokenView {
                enable_recording: Some(enable_recording),
                ..old(self)@
            }),
            *final(self) == *final(r),
    {
        self.enable_recording = Some(enable_recording);
        self
    }

    /// Determines whether participant enters a waiting room with a camera, mic, and
    /// browser check before joining a call.
    pub fn enable_prejoin_ui(&mut self, enable_prejoin_ui: bool) -> (r: &mut Self)
        ensures
            (*r)@ == (CreateMeetingTokenView {
                enable_prejoin_ui: Some(enable_prejoin_ui),
                ..old(self)@
            }),
            *final(self) == *final(r),
    {
        self.enable_prejoin_ui = Some(enable_prejoin_ui);
        self
    }

    /// Reduces the volume of log messages. This feature should be enabled when there
    /// are more than 300 participants in a meeting to help improve performance.
    pub fn enable_terse_logging(&mut self, enable_terse_logging: bool) -> (r: &mut Self)
        ensures
            (*r)@ == (CreateMeetingTokenView {
                enable_terse_logging: Some(enable_terse_logging),
                ..old(self)@
            }),
            *final(self) == *final(r),
    {
        self.enable_terse_logging = Some(enable_terse_logging);
        self
    }

    /// Start cloud recording when the user joins the room. This can be used to always record and
    /// archive meetings, for example in a customer support context.
    pub fn start_cloud_recording(&mut self, start_cloud_recording: bool) -> (r: &mut Self)
        ensures
            (*r)@ == (CreateMeetingTokenView {
                start_cloud_recording: Some(start_cloud_recording),
                ..old(self)@
            }),
            *final(self) == *final(r),
    {
        self.start_cloud_recording = Some(start_cloud_recording);
        self
    }

    /// When a user leaves a meeting using the button in the in-call menu bar,
    /// the browser tab closes.
    pub fn close_tab_on_exit(&mut self, close_tab_on_exit: bool) -> (r: &mut Self)
        ensures
            (*r)@ == (CreateMeetingTokenView {
                close_tab_on_exit: Some(close_tab_on_exit),
                ..old(self)@
            }),
            *final(self) == *final(r),
    {
        self.close_tab_on_exit = Some(close_tab_on_exit);
        self
    }

    /// When a user leaves a meeting using the button in the in-call menu bar,
    /// the browser loads this URL.
    pub fn redirect_on_meeting_exit(&mut self, redirect_on_meeting_exit: &str) -> (r: &mut Self)
        ensures
            (*r)@ == (CreateMeetingTokenView {
                redirect_on_meeting_exit: Some(redirect_on_meeting_exit@),
                ..old(self)@
            }),
            *final(self) == *final(r),
    {
        self.redirect_on_meeting_exit = Some(redirect_on_meeting_exit.to_owned());
        self
    }

    /// The default language of the Daily prebuilt video call UI, for this room.
    pub fn lang(&mut self, lang: DailyLang) -> (r: &mut Self)
        ensures
            (*r)@ == (CreateMeetingTokenView { lang: Some(lang), ..old(self)@ }),
            *final(self) == *final(r),
    {
        self.lang = Some(lang);
        self
    }

    /// The claims of a token that is signed for a domain: the settings that are
    /// set, under the names that they have among the claims, and the domain.
    pub fn claims(&self, domain_id: &str) -> (j: Json)
        ensures
            j@ == self@.claims(domain_id@),
    {
        let mut members = self.member_list(true);
        put_member(&mut members, "d", Json::Str(domain_id.to_owned()));
        object(members)
    }

    /// The body of the request that asks the service for a token: an object
    /// whose one member, `properties`, holds the settings that are set.
    pub fn request_body(&self) -> (j: Json)
        ensures
            j@ == self@.request_body(),
    {
        let mut body: Vec<(String, Json)> = Vec::new();
        proof {
            lemma_object_map_empty(body@);
        }
        put_member(&mut body, "properties", self.to_json());
        object(body)
    }

    /// The request that asks the service for a token: the body, posted to the
    /// meeting tokens of the client. Its response is read by `send_response`.
    pub fn send_request(&self, client: &Client) -> (r: Result<Request, Error>)
        ensures
            result_view(r) == (match client@.url("meeting-tokens/"@) {
                Some(url) => Ok(RequestView::post(url, self@.request_body())),
                None => no_url(),
            }),
    {
        match client.url("meeting-tokens/") {
            Some(url) => Ok(Request::post(url, self.request_body())),
            None => Err(Error::Request(RequestFailure::Url)),
        }
    }

    /// Reads the response to the request for a token: the token that the
    /// service made.
    pub fn send_response(status: u16, body: &str) -> (r: Result<String, Error>)
        ensures
            result_view(r) == (match response_of::<MeetingTokenResponse>(status, body@) {
                Ok(response) => Ok(response.token),
                Err(e) => Err(e),
            }),
    {
        match parse_dailyco_response::<MeetingTokenResponse>(status, body) {
            Ok(response) => Ok(response.token),
            Err(e) => Err(e),
        }
    }

    /// Self-sign a `Daily` meeting token corresponding to this configuration,
    /// skipping the round-trip to the service: the token is signed over the
    /// claims of this builder for the domain.
    pub fn self_sign(&self, domain_id: &str, secret_key: &str) -> (token: String)
        ensures
            token@ == signed_token(self@.claims(domain_id@), secret_key@),
    {
        self_sign_token(self, domain_id, secret_key)
    }

    /// The JSON value that a setting is sent as, where the setting is set.
    pub fn value(&self, field: TokenField) -> (r: Option<Json>)
        ensures
            opt_view(r) == self@.value(field),
    {
        match field {
            TokenField::RoomName => to_json_option(&self.room_name),
            TokenField::EjectAtTokenExp => to_json_option(&self.eject_at_token_exp),
            TokenField::EjectAfterElapsed => to_json_option(&self.eject_after_elapsed),
            TokenField::Nbf => to_json_option(&self.nbf),
            TokenField::Exp => to_json_option(&self.exp),
            TokenField::IsOwner => to_json_option(&self.is_owner),
            TokenField::UserName => to_json_option(&self.user_name),
            TokenField::UserId => to_json_option(&self.user_id),
            TokenField::EnableScreenshare => to_json_option(&self.enable_screenshare),
            TokenField::StartVideoOff => to_json_option(&self.start_video_off),
            TokenField::StartAudioOff => to_json_option(&self.start_audio_off),
            TokenField::EnableRecording => to_json_option(&self.enable_recording),
            TokenField::EnablePrejoinUi => to_json_option(&self.enable_prejoin_ui),
            TokenField::EnableTerseLogging => to_json_option(&self.enable_terse_logging),
            TokenField::StartCloudRecording => to_json_option(&self.start_cloud_recording),
            TokenField::CloseTabOnExit => to_json_option(&self.close_tab_on_exit),
            TokenField::RedirectOnMeetingExit => to_json_option(&self.redirect_on_meeting_exit),
            TokenField::Lang => to_json_option(&self.lang),
        }
    }

    /// The list of the members that the builder is written as.
    fn member_list(&self, claims: bool) -> (r: Vec<(String, Json)>)
        ensures
            object_map(r@) == self@.members(claims),
    {
        let mut out: Vec<(String, Json)> = Vec::new();
        proof {
            lemma_object_map_empty(out@);
        }
        let mut i: usize = 0;
        while i < TOKEN_FIELDS
            invariant
                i <= TOKEN_FIELDS,
                object_map(out@) == self@.members_upto(claims, i as nat),
            decreases TOKEN_FIELDS - i,
        {
            if let Some(field) = TokenField::nth(i) {
                put_option(&mut out, field.key_str(claims), self.value(field));
            }
            i += 1;
        }
        out
    }

    /// The object that the builder is written as: a member for each setting
    /// that is set, under the name that the setting has among the claims of a
    /// signed token or in a request. A setting that is not set has no member.
    pub fn members(&self, claims: bool) -> (j: Json)
        ensures
            j@ == JsonView::Object(self@.members(claims)),
    {
        object(self.member_list(claims))
    }
}

impl Default for CreateMeetingToken {
    /// The builder in which no setting is set.
    fn default() -> (r: Self)
        ensures
            r@ == CreateMeetingTokenView::empty(),
    {
        CreateMeetingToken::new()
    }
}

impl ToJson for CreateMeetingToken {
    /// The object of the settings that are set, each under its name in a
    /// request.
    open spec fn json_of(v: CreateMeetingTokenView) -> JsonView {
        JsonView::Object(v.members(false))
    }

    fn to_json(&self) -> (j: Json)
        ensures
            j@ == Self::json_of(self@),
    {
        self.members(false)
    }
}

impl CreateMeetingTokenView {
    /// This with one setting read from the member of its name: a missing member
    /// leaves the setting unset, and so does `null` for a setting without a
    /// default. Nothing where the member holds no value of the setting.
    #[verifier::opaque]
    pub open spec fn with_read(self, field: TokenField, member: Option<JsonView>) -> Option<
        CreateMeetingTokenView,
    > {
        match field {
            TokenField::RoomName => match read_optional::<String>(member) {
                Some(x) => Some(CreateMeetingTokenView { room_name: x, ..self }),
                None => None,
            },
            TokenField::EjectAtTokenExp => match read_present::<bool>(member) {
                Some(x) => Some(CreateMeetingTokenView { eject_at_token_exp: x, ..self }),
                None => None,
            },
            TokenField::EjectAfterElapsed => match read_optional::<i64>(member) {
                Some(x) => Some(CreateMeetingTokenView { eject_after_elapsed: x, ..self }),
                None => None,
            },
            TokenField::Nbf => match read_optional::<i64>(member) {
                Some(x) => Some(CreateMeetingTokenView { nbf: x, ..self }),
                None => None,
            },
            TokenField::Exp => match read_optional::<i64>(member) {
                Some(x) => Some(CreateMeetingTokenView { exp: x, ..self }),
                None => None,
            },
            TokenField::IsOwner => match read_present::<bool>(member) {
                Some(x) => Some(CreateMeetingTokenView { is_owner: x, ..self }),
                None => None,
            },
            TokenField::UserName => match read_optional::<String>(member) {
                Some(x) => Some(CreateMeetingTokenView { user_name: x, ..self }),
                None => None,
            },
            TokenField::UserId => match read_optional::<String>(member) {
                Some(x) => Some(CreateMeetingTokenView { user_id: x, ..self }),
                None => None,
            },
            TokenField::EnableScreenshare => match read_present::<bool>(member) {
                Some(x) => Some(CreateMeetingTokenView { enable_screenshare: x, ..self }),
                None => None,
            },
            TokenField::StartVideoOff => match read_present::<bool>(member) {
                Some(x) => Some(CreateMeetingTokenView { start_video_off: x, ..self }),
                None => None,
            },
            TokenField::StartAudioOff => match read_present::<bool>(member) {
                Some(x) => Some(CreateMeetingTokenView { start_audio_off: x, ..self }),
                None => None,
            },
            TokenField::EnableRecording => match read_optional::<RecordingType>(member) {
                Some(x) => Some(CreateMeetingTokenView { enable_recording: x, ..self }),
                None => None,
            },
            TokenField::EnablePrejoinUi => match read_optional::<bool>(member) {
                Some(x) => Some(CreateMeetingTokenView { enable_prejoin_ui: x, ..self }),
                None => None,
            },
            TokenField::EnableTerseLogging => match read_present::<bool>(member) {
                Some(x) => Some(CreateMeetingTokenView { enable_terse_logging: x, ..self }),
                None => None,
            },
            TokenField::StartCloudRecording => match read_present::<bool>(member) {
                Some(x) => Some(CreateMeetingTokenView { start_cloud_recording: x, ..self }),
                None => None,
            },
            TokenField::CloseTabOnExit => match read_present::<bool>(member) {
                Some(x) => Some(CreateMeetingTokenView { close_tab_on_exit: x, ..self }),
                None => None,
            },
            TokenField::RedirectOnMeetingExit => match read_optional::<String>(member) {
                Some(x) => Some(CreateMeetingTokenView { redirect_on_meeting_exit: x, ..self }),
                None => None,
            },
            TokenField::Lang => match read_optional::<DailyLang>(member) {
                Some(x) => Some(CreateMeetingTokenView { lang: x, ..self }),
                None => None,
            },
        }
    }

    /// What is read from a value when only the first settings are read, as many
    /// as are asked for, one after another.
    spec fn read_upto(v: JsonView, n: nat) -> Option<CreateMeetingTokenView>
        decreases n,
    {
        if n == 0 {
            Some(Self::empty())
        } else {
            let field = TokenField::at(n - 1);
            match Self::read_upto(v, (n - 1) as nat) {
                Some(e) => e.with_read(field, v.member(field.name())),
                None => None,
            }
        }
    }

    /// What is read from a value when only the first settings are read, said of
    /// each setting by itself: nothing where the member of one of them holds no
    /// value of its setting, and else each of them as its member has it and each
    /// other setting unset.
    spec fn read_first(v: JsonView, n: nat) -> Option<CreateMeetingTokenView> {
        let room_name = read_optional::<String>(v.member(TokenField::RoomName.name()));
        let eject_at_token_exp = read_present::<bool>(v.member(TokenField::EjectAtTokenExp.name()));
        let eject_after_elapsed = read_optional::<i64>(
            v.member(TokenField::EjectAfterElapsed.name()),
        );
        let nbf = read_optional::<i64>(v.member(TokenField::Nbf.name()));
        let exp = read_optional::<i64>(v.member(TokenField::Exp.name()));
        let is_owner = read_present::<bool>(v.member(TokenField::IsOwner.name()));
        let user_name = read_optional::<String>(v.member(TokenField::UserName.name()));
        let user_id = read_optional::<String>(v.member(TokenField::UserId.name()));
        let enable_screenshare = read_present::<bool>(
            v.member(TokenField::EnableScreenshare.name()),
        );
        let start_video_off = read_present::<bool>(v.member(TokenField::StartVideoOff.name()));
        let start_audio_off = read_present::<bool>(v.member(TokenField::StartAudioOff.name()));
        let enable_recording = read_optional::<RecordingType>(
            v.member(TokenField::EnableRecording.name()),
        );
        let enable_prejoin_ui = read_optional::<bool>(v.member(TokenField::EnablePrejoinUi.name()));
        let enable_terse_logging = read_present::<bool>(
            v.member(TokenField::EnableTerseLogging.name()),
        );
        let start_cloud_recording = read_present::<bool>(
            v.member(TokenField::StartCloudRecording.name()),
        );
        let close_tab_on_exit = read_present::<bool>(v.member(TokenField::CloseTabOnExit.name()));
        let redirect_on_meeting_exit = read_optional::<String>(
            v.member(TokenField::RedirectOnMeetingExit.name()),
        );
        let lang = read_optional::<DailyLang>(v.member(TokenField::Lang.name()));
        if (0 < n ==> room_name is Some)
            && (1 < n ==> eject_at_token_exp is Some)
            && (2 < n ==> eject_after_elapsed is Some)
            && (3 < n ==> nbf is Some)
            && (4 < n ==> exp is Some)
            && (5 < n ==> is_owner is Some)
            && (6 < n ==> user_name is Some)
            && (7 < n ==> user_id is Some)
            && (8 < n ==> enable_screenshare is Some)
            && (9 < n ==> start_video_off is Some)
            && (10 < n ==> start_audio_off is Some)
            && (11 < n ==> enable_recording is Some)
            && (12 < n ==> enable_prejoin_ui is Some)
            && (13 < n ==> enable_terse_logging is Some)
            && (14 < n ==> start_cloud_recording is Some)
            && (15 < n ==> close_tab_on_exit is Some)
            && (16 < n ==> redirect_on_meeting_exit is Some)
            && (17 < n ==> lang is Some) {
            Some(
                CreateMeetingTokenView {
                    room_name: if 0 < n {
                        room_name.unwrap()
                    } else {
                        None
                    },
                    eject_at_token_exp: if 1 < n {
                        eject_at_token_exp.unwrap()
                    } else {
                        None
                    },
                    eject_after_elapsed: if 2 < n {
                        eject_after_elapsed.unwrap()
                    } else {
                        None
                    },
                    nbf: if 3 < n {
                        nbf.unwrap()
                    } else {
                        None
                    },
                    exp: if 4 < n {
                        exp.unwrap()
                    } else {
                        None
                    },
                    is_owner: if 5 < n {
                        is_owner.unwrap()
                    } else {
                        None
                    },
                    user_name: if 6 < n {
                        user_name.unwrap()
                    } else {
                        None
                    },
                    user_id: if 7 < n {
                        user_id.unwrap()
                    } else {
                        None
                    },
                    enable_screenshare: if 8 < n {
                        enable_screenshare.unwrap()
                    } else {
                        None
                    },
                    start_video_off: if 9 < n {
                        start_video_off.unwrap()
                    } else {
                        None
                    },
                    start_audio_off: if 10 < n {
                        start_audio_off.unwrap()
                    } else {
                        None
                    },
                    enable_recording: if 11 < n {
                        enable_recording.unwrap()
                    } else {
                        None
                    },
                    enable_prejoin_ui: if 12 < n {
                        enable_prejoin_ui.unwrap()
                    } else {
                        None
                    },
                    enable_terse_logging: if 13 < n {
                        enable_terse_logging.unwrap()
                    } else {
                        None
                    },
                    start_cloud_recording: if 14 < n {
                        start_cloud_recording.unwrap()
                    } else {
                        None
                    },
                    close_tab_on_exit: if 15 < n {
                        close_tab_on_exit.unwrap()
                    } else {
                        None
                    },
                    redirect_on_meeting_exit: if 16 < n {
                        redirect_on_meeting_exit.unwrap()
                    } else {
                        None
                    },
                    lang: if 17 < n {
                        lang.unwrap()
                    } else {
                        None
                    },
                },
            )
        } else {
            None
        }
    }

    /// Reading the settings one after another comes to what is said of each
    /// setting by itself.
    proof fn lemma_read_upto(v: JsonView, n: nat)
        requires
            n <= TOKEN_FIELDS,
        ensures
            Self::read_upto(v, n) == Self::read_first(v, n),
        decreases n,
    {
        reveal(CreateMeetingTokenView::with_read);
        if n > 0 {
            Self::lemma_read_upto(v, (n - 1) as nat);
            let field = TokenField::at(n - 1);
            field.lemma_at_index();
        }
    }

    /// Where nothing is read from the first settings, nothing is read from more
    /// of them.
    proof fn lemma_read_upto_none(v: JsonView, n: nat, m: nat)
        requires
            n <= m,
            Self::read_upto(v, n) is None,
        ensures
            Self::read_upto(v, m) is None,
        decreases m,
    {
        if n < m {
            Self::lemma_read_upto_none(v, n, (m - 1) as nat);
        }
    }
}

impl CreateMeetingToken {
    /// This with one setting read from the member of its name, and nothing
    /// where the member holds no value of the setting.
    pub fn with_read(self, field: TokenField, member: Option<&Json>) -> (r: Option<
        CreateMeetingToken,
    >)
        ensures
            opt_view(r) == self@.with_read(field, opt_view(member)),
    {
        proof {
            reveal(CreateMeetingTokenView::with_read);
        }
        let mut e = self;
        match field {
            TokenField::RoomName => match optional_of::<String>(member) {
                Some(x) => {
                    e.room_name = x;
                    Some(e)
                },
                None => None,
            },
            TokenField::EjectAtTokenExp => match present_of::<bool>(member) {
                Some(x) => {
                    e.eject_at_token_exp = x;
                    Some(e)
                },
                None => None,
            },
            TokenField::EjectAfterElapsed => match optional_of::<i64>(member) {
                Some(x) => {
                    e.eject_after_elapsed = x;
                    Some(e)
                },
                None => None,
            },
            TokenField::Nbf => match optional_of::<i64>(member) {
                Some(x) => {
                    e.nbf = x;
                    Some(e)
                },
                None => None,
            },
            TokenField::Exp => match optional_of::<i64>(member) {
                Some(x) => {
                    e.exp = x;
                    Some(e)
                },
                None => None,
            },
            TokenField::IsOwner => match present_of::<bool>(member) {
                Some(x) => {
                    e.is_owner = x;
                    Some(e)
                },
                None => None,
            },
            TokenField::UserName => match optional_of::<String>(member) {
                Some(x) => {
                    e.user_name = x;
                    Some(e)
                },
                None => None,
            },
            TokenField::UserId => match optional_of::<String>(member) {
                Some(x) => {
                    e.user_id = x;
                    Some(e)
                },
                None => None,
            },
            TokenField::EnableScreenshare => match present_of::<bool>(member) {
                Some(x) => {
                    e.enable_screenshare = x;
                    Some(e)
                },
                None => None,
            },
            TokenField::StartVideoOff => match present_of::<bool>(member) {
                Some(x) => {
                    e.start_video_off = x;
                    Some(e)
                },
                None => None,
            },
            TokenField::StartAudioOff => match present_of::<bool>(member) {
                Some(x) => {
                    e.start_audio_off = x;
                    Some(e)
                },
                None => None,
            },
            TokenField::EnableRecording => match optional_of::<RecordingType>(member) {
                Some(x) => {
                    e.enable_recording = x;
                    Some(e)
                },
                None => None,
            },
            TokenField::EnablePrejoinUi => match optional_of::<bool>(member) {
                Some(x) => {
                    e.enable_prejoin_ui = x;
                    Some(e)
                },
                None => None,
            },
            TokenField::EnableTerseLogging => match present_of::<bool>(member) {
                Some(x) => {
                    e.enable_terse_logging = x;
                    Some(e)
                },
                None => None,
            },
            TokenField::StartCloudRecording => match present_of::<bool>(member) {
                Some(x) => {
                    e.start_cloud_recording = x;
                    Some(e)
                },
                None => None,
            },
            TokenField::CloseTabOnExit => match present_of::<bool>(member) {
                Some(x) => {
                    e.close_tab_on_exit = x;
                    Some(e)
                },
                None => None,
            },
            TokenField::RedirectOnMeetingExit => match optional_of::<String>(member) {
                Some(x) => {
                    e.redirect_on_meeting_exit = x;
                    Some(e)
                },
                None => None,
            },
            TokenField::Lang => match optional_of::<DailyLang>(member) {
                Some(x) => {
                    e.lang = x;
                    Some(e)
                },
                None => None,
            },
        }
    }
}

impl FromJson for CreateMeetingToken {
    /// The settings that an object holds. A missing member leaves its setting
    /// unset, and so does `null` for a setting without a default. A member of
    /// another name is passed over. Nothing is read from a value that is no
    /// object, or that has a member which holds no value of its setting.
    open spec fn of_json(v: JsonView) -> Option<CreateMeetingTokenView> {
        let room_name = read_optional::<String>(v.member(TokenField::RoomName.name()));
        let eject_at_token_exp = read_present::<bool>(v.member(TokenField::EjectAtTokenExp.name()));
        let eject_after_elapsed = read_optional::<i64>(
            v.member(TokenField::EjectAfterElapsed.name()),
        );
        let nbf = read_optional::<i64>(v.member(TokenField::Nbf.name()));
        let exp = read_optional::<i64>(v.member(TokenField::Exp.name()));
        let is_owner = read_present::<bool>(v.member(TokenField::IsOwner.name()));
        let user_name = read_optional::<String>(v.member(TokenField::UserName.name()));
        let user_id = read_optional::<String>(v.member(TokenField::UserId.name()));
        let enable_screenshare = read_present::<bool>(
            v.member(TokenField::EnableScreenshare.name()),
        );
        let start_video_off = read_present::<bool>(v.member(TokenField::StartVideoOff.name()));
        let start_audio_off = read_present::<bool>(v.member(TokenField::StartAudioOff.name()));
        let enable_recording = read_optional::<RecordingType>(
            v.member(TokenField::EnableRecording.name()),
        );
        let enable_prejoin_ui = read_optional::<bool>(v.member(TokenField::EnablePrejoinUi.name()));
        let enable_terse_logging = read_present::<bool>(
            v.member(TokenField::EnableTerseLogging.name()),
        );
        let start_cloud_recording = read_present::<bool>(
            v.member(TokenField::StartCloudRecording.name()),
        );
        let close_tab_on_exit = read_present::<bool>(v.member(TokenField::CloseTabOnExit.name()));
        let redirect_on_meeting_exit = read_optional::<String>(
            v.member(TokenField::RedirectOnMeetingExit.name()),
        );
        let lang = read_optional::<DailyLang>(v.member(TokenField::Lang.name()));
        if v is Object
            && room_name is Some
            && eject_at_token_exp is Some
            && eject_after_elapsed is Some
            && nbf is Some
            && exp is Some
            && is_owner is Some
            && user_name is Some
            && user_id is Some
            && enable_screenshare is Some
            && start_video_off is Some
            && start_audio_off is Some
            && enable_recording is Some
            && enable_prejoin_ui is Some
            && enable_terse_logging is Some
            && start_cloud_recording is Some
            && close_tab_on_exit is Some
            && redirect_on_meeting_exit is Some
            && lang is Some {
            Some(
                CreateMeetingTokenView {
                    room_name: room_name.unwrap(),
                    eject_at_token_exp: eject_at_token_exp.unwrap(),
                    eject_after_elapsed: eject_after_elapsed.unwrap(),
                    nbf: nbf.unwrap(),
                    exp: exp.unwrap(),
                    is_owner: is_owner.unwrap(),
                    user_name: user_name.unwrap(),
                    user_id: user_id.unwrap(),
                    enable_screenshare: enable_screenshare.unwrap(),
                    start_video_off: start_video_off.unwrap(),
                    start_audio_off: start_audio_off.unwrap(),
                    enable_recording: enable_recording.unwrap(),
                    enable_prejoin_ui: enable_prejoin_ui.unwrap(),
                    enable_terse_logging: enable_terse_logging.unwrap(),
                    start_cloud_recording: start_cloud_recording.unwrap(),
                    close_tab_on_exit: close_tab_on_exit.unwrap(),
                    redirect_on_meeting_exit: redirect_on_meeting_exit.unwrap(),
                    lang: lang.unwrap(),
                },
            )
        } else {
            None
        }
    }

    fn from_json(j: &Json) -> (r: Option<CreateMeetingToken>)
        ensures
            match r {
                Some(x) => Self::of_json(j@) == Some(x@),
                None => Self::of_json(j@) is None,
            },
    {
        if !j.is_object() {
            return None;
        }
        let mut e = CreateMeetingToken::new();
        let mut i: usize = 0;
        while i < TOKEN_FIELDS
            invariant
                i <= TOKEN_FIELDS,
                j@ is Object,
                CreateMeetingTokenView::read_upto(j@, i as nat) == Some(e@),
            decreases TOKEN_FIELDS - i,
        {
            if let Some(field) = TokenField::nth(i) {
                match e.with_read(field, j.get(field.as_str())) {
                    Some(next) => {
                        e = next;
                    },
                    None => {
                        proof {
                            CreateMeetingTokenView::lemma_read_upto_none(
                                j@,
                                (i + 1) as nat,
                                TOKEN_FIELDS as nat,
                            );
                            CreateMeetingTokenView::lemma_read_upto(j@, TOKEN_FIELDS as nat);
                        }
                        return None;
                    },
                }
            }
            i += 1;
        }
        proof {
            CreateMeetingTokenView::lemma_read_upto(j@, TOKEN_FIELDS as nat);
        }
        Some(e)
    }
}

/// A `MeetingToken` describes the configuration of a meeting token used to join a
/// `Daily` private meeting room.
#[derive(Debug, Clone, Default, PartialEq, Eq)]
pub struct MeetingToken {
    /// The room for which this token is valid. If `room_name` isn't set, the token is
    /// valid for all rooms in your domain.
    pub room_name: Option<String>,
    /// Kick this user out of the meeting at the time this meeting token expires.
    pub eject_at_token_exp: bool,
    /// Kick this user out of the meeting this many seconds after they join the meeting.
    pub eject_after_elapsed: Option<i64>,
    /// UTC timestamp before which the token cannot be used.
    pub nbf: Option<i64>,
    /// UTC timestamp for expiration of the token.
    pub exp: Option<i64>,
    /// The user has meeting owner privileges.
    pub is_owner: bool,
    /// The user's name in this meeting.
    pub user_name: Option<String>,
    /// The user's id for this meeting session.
    pub user_id: Option<String>,
    /// The user is allowed to screenshare.
    pub enable_screenshare: bool,
    /// When a participant first joins a meeting, keep their camera off.
    pub start_video_off: bool,
    /// When a participant first joins a meeting, keep their microphone muted.
    pub start_audio_off: bool,
    /// Allowed recording type
    pub enable_recording: Option<RecordingType>,
    /// Determines whether participant enters a waiting room with a camera, mic, and
    /// browser check before joining a call.
    pub enable_prejoin_ui: Option<bool>,
    /// Reduces the volume of log messages. This feature should be enabled when there
    /// are more than 300 participants in a meeting to help improve performance.
    pub enable_terse_logging: bool,
    /// Start cloud recording when the user joins the room. This can be used to always record and
    /// archive meetings, for example in a customer support context.
    pub start_cloud_recording: bool,
    /// When a user leaves a meeting using the button in the in-call menu bar,
    /// the browser tab closes.
    pub close_tab_on_exit: bool,
    /// When a user leaves a meeting using the button in the in-call menu bar,
    /// the browser loads this URL.
    pub redirect_on_meeting_exit: Option<String>,
    /// The default language of the Daily prebuilt video call UI, for this room.
    pub lang: Option<DailyLang>,
}

/// What a `MeetingToken` holds.
pub struct MeetingTokenView {
    pub room_name: Option<Seq<char>>,
    pub eject_at_token_exp: bool,
    pub eject_after_elapsed: Option<i64>,
    pub nbf: Option<i64>,
    pub exp: Option<i64>,
    pub is_owner: bool,
    pub user_name: Option<Seq<char>>,
    pub user_id: Option<Seq<char>>,
    pub enable_screenshare: bool,
    pub start_video_off: bool,
    pub start_audio_off: bool,
    pub enable_recording: Option<RecordingType>,
    pub enable_prejoin_ui: Option<bool>,
    pub enable_terse_logging: bool,
    pub start_cloud_recording: bool,
    pub close_tab_on_exit: bool,
    pub redirect_on_meeting_exit: Option<Seq<char>>,
    pub lang: Option<DailyLang>,
}

impl View for MeetingToken {
    type V = MeetingTokenView;

    open spec fn view(&self) -> MeetingTokenView {
        MeetingTokenView {
            room_name: opt_view(self.room_name),
            eject_at_token_exp: self.eject_at_token_exp,
            eject_after_elapsed: self.eject_after_elapsed,
            nbf: self.nbf,
            exp: self.exp,
            is_owner: self.is_owner,
            user_name: opt_view(self.user_name),
            user_id: opt_view(self.user_id),
            enable_screenshare: self.enable_screenshare,
            start_video_off: self.start_video_off,
            start_audio_off: self.start_audio_off,
            enable_recording: self.enable_recording,
            enable_prejoin_ui: self.enable_prejoin_ui,
            enable_terse_logging: self.enable_terse_logging,
            start_cloud_recording: self.start_cloud_recording,
            close_tab_on_exit: self.close_tab_on_exit,
            redirect_on_meeting_exit: opt_view(self.redirect_on_meeting_exit),
            lang: self.lang,
        }
    }
}

impl MeetingToken {
    /// What is made of a builder: each setting that is set as it was set, and
    /// each other setting with its default.
    pub open spec fn of_builder(builder: CreateMeetingToken) -> MeetingToken {
        MeetingToken {
            room_name: builder.room_name,
            eject_at_token_exp: value_or(builder.eject_at_token_exp, false),
            eject_after_elapsed: builder.eject_after_elapsed,
            nbf: builder.nbf,
            exp: builder.exp,
            is_owner: value_or(builder.is_owner, false),
            user_name: builder.user_name,
            user_id: builder.user_id,
            enable_screenshare: value_or(builder.enable_screenshare, true),
            start_video_off: value_or(builder.start_video_off, false),
            start_audio_off: value_or(builder.start_audio_off, false),
            enable_recording: builder.enable_recording,
            enable_prejoin_ui: builder.enable_prejoin_ui,
            enable_terse_logging: value_or(builder.enable_terse_logging, false),
            start_cloud_recording: value_or(builder.start_cloud_recording, false),
            close_tab_on_exit: value_or(builder.close_tab_on_exit, false),
            redirect_on_meeting_exit: builder.redirect_on_meeting_exit,
            lang: builder.lang,
        }
    }

    /// What the service reports where it echoes each setting that is set and
    /// fills each other setting with its default.
    pub fn materialized(builder: CreateMeetingToken) -> (r: MeetingToken)
        ensures
            r == Self::of_builder(builder),
            r@ == builder@.materialized(),
    {
        MeetingToken {
            room_name: builder.room_name,
            eject_at_token_exp: take_or(builder.eject_at_token_exp, false),
            eject_after_elapsed: builder.eject_after_elapsed,
            nbf: builder.nbf,
            exp: builder.exp,
            is_owner: take_or(builder.is_owner, false),
            user_name: builder.user_name,
            user_id: builder.user_id,
            enable_screenshare: take_or(builder.enable_screenshare, true),
            start_video_off: take_or(builder.start_video_off, false),
            start_audio_off: take_or(builder.start_audio_off, false),
            enable_recording: builder.enable_recording,
            enable_prejoin_ui: builder.enable_prejoin_ui,
            enable_terse_logging: take_or(builder.enable_terse_logging, false),
            start_cloud_recording: take_or(builder.start_cloud_recording, false),
            close_tab_on_exit: take_or(builder.close_tab_on_exit, false),
            redirect_on_meeting_exit: builder.redirect_on_meeting_exit,
            lang: builder.lang,
        }
    }
}

impl From<CreateMeetingToken> for MeetingToken {
    /// What the service reports where it echoes each setting that is set and
    /// fills each other setting with its default.
    fn from(builder: CreateMeetingToken) -> (r: MeetingToken)
        ensures
            r@ == builder@.materialized(),
    {
        MeetingToken::materialized(builder)
    }
}

impl FromSpecImpl<CreateMeetingToken> for MeetingToken {
    open spec fn obeys_from_spec() -> bool {
        true
    }

    open spec fn from_spec(builder: CreateMeetingToken) -> MeetingToken {
        MeetingToken::of_builder(builder)
    }
}

impl FromJson for MeetingToken {
    /// The settings that an object holds, each missing one filled with its
    /// default where it has one. Nothing is read from a value that is no object,
    /// or that has a member which holds no value of its setting.
    open spec fn of_json(v: JsonView) -> Option<MeetingTokenView> {
        match CreateMeetingToken::of_json(v) {
            Some(settings) => Some(settings.materialized()),
            None => None,
        }
    }

    fn from_json(j: &Json) -> (r: Option<MeetingToken>)
        ensures
            match r {
                Some(x) => Self::of_json(j@) == Some(x@),
                None => Self::of_json(j@) is None,
            },
    {
        match CreateMeetingToken::from_json(j) {
            Some(settings) => Some(MeetingToken::materialized(settings)),
            None => None,
        }
    }
}

/// Response from Daily for successful meeting token creation.
#[derive(Debug, Clone)]
pub struct MeetingTokenResponse {
    /// The token created
    pub token: String,
}

/// What a `MeetingTokenResponse` holds.
pub struct MeetingTokenResponseView {
    pub token: Seq<char>,
}

impl View for MeetingTokenResponse {
    type V = MeetingTokenResponseView;

    open spec fn view(&self) -> MeetingTokenResponseView {
        MeetingTokenResponseView { token: self.token@ }
    }
}

impl FromJson for MeetingTokenResponse {
    /// The token must be there.
    open spec fn of_json(v: JsonView) -> Option<MeetingTokenResponseView> {
        match read_required::<String>(v.member("token"@)) {
            Some(token) => if v is Object {
                Some(MeetingTokenResponseView { token })
            } else {
                None
            },
            None => None,
        }
    }

    fn from_json(j: &Json) -> (r: Option<MeetingTokenResponse>)
        ensures
            match r {
                Some(x) => Self::of_json(j@) == Some(x@),
                None => Self::of_json(j@) is None,
            },
    {
        if !j.is_object() {
            return None;
        }
        let token = required_of::<String>(j.get("token"))?;
        Some(MeetingTokenResponse { token })
    }
}

impl CreateMeetingTokenView {
    /// What is written for the first settings holds one of them under its name
    /// exactly where it is set, and holds no other setting.
    proof fn lemma_member_upto(self, field: TokenField, claims: bool, n: nat)
        requires
            n <= TOKEN_FIELDS,
        ensures
            JsonView::Object(self.members_upto(claims, n)).member(field.key(claims))
                == (if field.index() < n {
                self.value(field)
            } else {
                None
            }),
        decreases n,
    {
        if n > 0 {
            self.lemma_member_upto(field, claims, (n - 1) as nat);
            let at = TokenField::at(n - 1);
            at.lemma_at_index();
            field.lemma_at_index();
            assert(at.index() == n - 1);
            if at != field {
                TokenField::lemma_keys_differ(at, field, claims);
            }
        }
    }

    /// What is written holds a setting under its name exactly where the setting
    /// is set, and then with the value that it was set to: a setting that is not
    /// set has no member.
    pub proof fn lemma_member(self, field: TokenField, claims: bool)
        ensures
            JsonView::Object(self.members(claims)).member(field.key(claims)) == self.value(field),
            self.value(field) is None ==> !self.members(claims).contains_key(field.key(claims)),
    {
        field.lemma_at_index();
        self.lemma_member_upto(field, claims, TOKEN_FIELDS as nat);
    }

    /// What is written for the first settings has no member but those of the
    /// settings among them that are set.
    proof fn lemma_members_upto_are_settings(self, key: Seq<char>, claims: bool, n: nat)
        requires
            self.members_upto(claims, n).contains_key(key),
        ensures
            exists|field: TokenField|
                key == #[trigger] field.key(claims) && self.value(field) is Some,
        decreases n,
    {
        if n > 0 {
            let at = TokenField::at(n - 1);
            if key == at.key(claims) && self.value(at) is Some {
            } else {
                self.lemma_members_upto_are_settings(key, claims, (n - 1) as nat);
            }
        }
    }

    /// What is written has no member but those of the settings that are set.
    pub proof fn lemma_members_are_settings(self, key: Seq<char>, claims: bool)
        requires
            self.members(claims).contains_key(key),
        ensures
            exists|field: TokenField|
                key == #[trigger] field.key(claims) && self.value(field) is Some,
    {
        self.lemma_members_upto_are_settings(key, claims, TOKEN_FIELDS as nat);
    }

    /// The first settings of the builder, as many as are asked for, with every
    /// other setting unset.
    spec fn upto(self, n: nat) -> CreateMeetingTokenView {
        CreateMeetingTokenView {
            room_name: if 0 < n {
                self.room_name
            } else {
                None
            },
            eject_at_token_exp: if 1 < n {
                self.eject_at_token_exp
            } else {
                None
            },
            eject_after_elapsed: if 2 < n {
                self.eject_after_elapsed
            } else {
                None
            },
            nbf: if 3 < n {
                self.nbf
            } else {
                None
            },
            exp: if 4 < n {
                self.exp
            } else {
                None
            },
            is_owner: if 5 < n {
                self.is_owner
            } else {
                None
            },
            user_name: if 6 < n {
                self.user_name
            } else {
                None
            },
            user_id: if 7 < n {
                self.user_id
            } else {
                None
            },
            enable_screenshare: if 8 < n {
                self.enable_screenshare
            } else {
                None
            },
            start_video_off: if 9 < n {
                self.start_video_off
            } else {
                None
            },
            start_audio_off: if 10 < n {
                self.start_audio_off
            } else {
                None
            },
            enable_recording: if 11 < n {
                self.enable_recording
            } else {
                None
            },
            enable_prejoin_ui: if 12 < n {
                self.enable_prejoin_ui
            } else {
                None
            },
            enable_terse_logging: if 13 < n {
                self.enable_terse_logging
            } else {
                None
            },
            start_cloud_recording: if 14 < n {
                self.start_cloud_recording
            } else {
                None
            },
            close_tab_on_exit: if 15 < n {
                self.close_tab_on_exit
            } else {
                None
            },
            redirect_on_meeting_exit: if 16 < n {
                self.redirect_on_meeting_exit
            } else {
                None
            },
            lang: if 17 < n {
                self.lang
            } else {
                None
            },
        }
    }

    /// Reading the first settings back from what was written gives each of them
    /// as the builder has it.
    proof fn lemma_round_trip_upto(self, n: nat)
        requires
            n <= TOKEN_FIELDS,
        ensures
            Self::read_upto(JsonView::Object(self.members(false)), n) == Some(self.upto(n)),
        decreases n,
    {
        reveal(read_optional);
        reveal(read_present);
        reveal(CreateMeetingTokenView::with_read);
        if n > 0 {
            self.lemma_round_trip_upto((n - 1) as nat);
            let field = TokenField::at(n - 1);
            field.lemma_at_index();
            self.lemma_member(field, false);
            match field {
                TokenField::EnableRecording => {
                    if let Some(x) = self.enable_recording {
                        x.lemma_named_name();
                    }
                },
                TokenField::Lang => {
                    if let Some(x) = self.lang {
                        x.lemma_named_name();
                    }
                },
                _ => {},
            }
        }
    }

    /// Reading back what was written gives the builder: each setting that was set
    /// with the value that it was set to, and no other setting. The service
    /// then reports each of these as it was set, and each other setting with its
    /// default.
    pub proof fn lemma_round_trip(self)
        ensures
            CreateMeetingToken::of_json(JsonView::Object(self.members(false))) == Some(self),
            MeetingToken::of_json(JsonView::Object(self.members(false))) == Some(
                self.materialized(),
            ),
    {
        self.lemma_round_trip_upto(TOKEN_FIELDS as nat);
        Self::lemma_read_upto(JsonView::Object(self.members(false)), TOKEN_FIELDS as nat);
    }
}

impl CreateMeetingTokenView {
    /// A member whose name is that of no setting is passed over: what is read
    /// from an object is what is read from it without that member.
    pub proof fn lemma_other_member_passed_over(
        members: Map<Seq<char>, JsonView>,
        key: Seq<char>,
        value: JsonView,
    )
        requires
            forall|field: TokenField| key != #[trigger] field.name(),
        ensures
            CreateMeetingToken::of_json(JsonView::Object(members.insert(key, value)))
                == CreateMeetingToken::of_json(JsonView::Object(members)),
            MeetingToken::of_json(JsonView::Object(members.insert(key, value)))
                == MeetingToken::of_json(JsonView::Object(members)),
    {
        let with = JsonView::Object(members.insert(key, value));
        let without = JsonView::Object(members);
        assert forall|field: TokenField| with.member(#[trigger] field.name()) == without.member(
            field.name(),
        ) by {
            assert(key != field.name());
        }
        assert(with.member(TokenField::RoomName.name())
            == without.member(TokenField::RoomName.name()));
        assert(with.member(TokenField::EjectAtTokenExp.name())
            == without.member(TokenField::EjectAtTokenExp.name()));
        assert(with.member(TokenField::EjectAfterElapsed.name())
            == without.member(TokenField::EjectAfterElapsed.name()));
        assert(with.member(TokenField::Nbf.name()) == without.member(TokenField::Nbf.name()));
        assert(with.member(TokenField::Exp.name()) == without.member(TokenField::Exp.name()));
        assert(with.member(TokenField::IsOwner.name())
            == without.member(TokenField::IsOwner.name()));
        assert(with.member(TokenField::UserName.name())
            == without.member(TokenField::UserName.name()));
        assert(with.member(TokenField::UserId.name()) == without.member(TokenField::UserId.name()));
        assert(with.member(TokenField::EnableScreenshare.name())
            == without.member(TokenField::EnableScreenshare.name()));
        assert(with.member(TokenField::StartVideoOff.name())
            == without.member(TokenField::StartVideoOff.name()));
        assert(with.member(TokenField::StartAudioOff.name())
            == without.member(TokenField::StartAudioOff.name()));
        assert(with.member(TokenField::EnableRecording.name())
            == without.member(TokenField::EnableRecording.name()));
        assert(with.member(TokenField::EnablePrejoinUi.name())
            == without.member(TokenField::EnablePrejoinUi.name()));
        assert(with.member(TokenField::EnableTerseLogging.name())
            == without.member(TokenField::EnableTerseLogging.name()));
        assert(with.member(TokenField::StartCloudRecording.name())
            == without.member(TokenField::StartCloudRecording.name()));
        assert(with.member(TokenField::CloseTabOnExit.name())
            == without.member(TokenField::CloseTabOnExit.name()));
        assert(with.member(TokenField::RedirectOnMeetingExit.name())
            == without.member(TokenField::RedirectOnMeetingExit.name()));
        assert(with.member(TokenField::Lang.name()) == without.member(TokenField::Lang.name()));
    }
}

impl MeetingTokenView {
    /// The default of a setting, as the JSON value that stands for it: nothing
    /// for a setting that has none.
    pub open spec fn default_of(field: TokenField) -> Option<JsonView> {
        match field {
            TokenField::RoomName => None,
            TokenField::EjectAtTokenExp => Some(<bool as ToJson>::json_of(false)),
            TokenField::EjectAfterElapsed => None,
            TokenField::Nbf => None,
            TokenField::Exp => None,
            TokenField::IsOwner => Some(<bool as ToJson>::json_of(false)),
            TokenField::UserName => None,
            TokenField::UserId => None,
            TokenField::EnableScreenshare => Some(<bool as ToJson>::json_of(true)),
            TokenField::StartVideoOff => Some(<bool as ToJson>::json_of(false)),
            TokenField::StartAudioOff => Some(<bool as ToJson>::json_of(false)),
            TokenField::EnableRecording => None,
            TokenField::EnablePrejoinUi => None,
            TokenField::EnableTerseLogging => Some(<bool as ToJson>::json_of(false)),
            TokenField::StartCloudRecording => Some(<bool as ToJson>::json_of(false)),
            TokenField::CloseTabOnExit => Some(<bool as ToJson>::json_of(false)),
            TokenField::RedirectOnMeetingExit => None,
            TokenField::Lang => None,
        }
    }

    /// The value of a setting, as the JSON value that stands for it: nothing for
    /// a setting that is missing.
    pub open spec fn setting(self, field: TokenField) -> Option<JsonView> {
        match field {
            TokenField::RoomName => json_of_option::<String>(self.room_name),
            TokenField::EjectAtTokenExp => Some(<bool as ToJson>::json_of(self.eject_at_token_exp)),
            TokenField::EjectAfterElapsed => json_of_option::<i64>(self.eject_after_elapsed),
            TokenField::Nbf => json_of_option::<i64>(self.nbf),
            TokenField::Exp => json_of_option::<i64>(self.exp),
            TokenField::IsOwner => Some(<bool as ToJson>::json_of(self.is_owner)),
            TokenField::UserName => json_of_option::<String>(self.user_name),
            TokenField::UserId => json_of_option::<String>(self.user_id),
            TokenField::EnableScreenshare => Some(
                <bool as ToJson>::json_of(self.enable_screenshare),
            ),
            TokenField::StartVideoOff => Some(<bool as ToJson>::json_of(self.start_video_off)),
            TokenField::StartAudioOff => Some(<bool as ToJson>::json_of(self.start_audio_off)),
            TokenField::EnableRecording => json_of_option::<RecordingType>(self.enable_recording),
            TokenField::EnablePrejoinUi => json_of_option::<bool>(self.enable_prejoin_ui),
            TokenField::EnableTerseLogging => Some(
                <bool as ToJson>::json_of(self.enable_terse_logging),
            ),
            TokenField::StartCloudRecording => Some(
                <bool as ToJson>::json_of(self.start_cloud_recording),
            ),
            TokenField::CloseTabOnExit => Some(<bool as ToJson>::json_of(self.close_tab_on_exit)),
            TokenField::RedirectOnMeetingExit => json_of_option::<String>(
                self.redirect_on_meeting_exit,
            ),
            TokenField::Lang => json_of_option::<DailyLang>(self.lang),
        }
    }

    /// A setting with a default has its default in what is read from a value
    /// that has no member of its name; a setting without one is then missing.
    pub proof fn lemma_absent_is_default(v: JsonView, field: TokenField)
        requires
            MeetingToken::of_json(v) is Some,
            v.member(field.name()) is None,
        ensures
            MeetingToken::of_json(v).unwrap().setting(field) == Self::default_of(field),
    {
        reveal(read_optional);
        reveal(read_present);
        reveal(value_or);
    }
}

impl CreateMeetingTokenView {
    /// The claims of a token that is signed for a domain: the settings that are
    /// set, under the names that they have among the claims, and the domain
    /// under `d`.
    pub open spec fn claims(self, domain_id: Seq<char>) -> JsonView {
        JsonView::Object(self.members(true).insert("d"@, JsonView::Text(domain_id)))
    }

    /// The body of the request that asks the service for a token.
    pub open spec fn request_body(self) -> JsonView {
        JsonView::Object(
            Map::<Seq<char>, JsonView>::empty().insert(
                "properties"@,
                JsonView::Object(self.members(false)),
            ),
        )
    }

    /// The claims of a signed token hold each setting exactly as the request for
    /// a token holds it, under the name that the setting has among the claims,
    /// and they hold the domain.
    pub proof fn lemma_claims_match_request(self, domain_id: Seq<char>, field: TokenField)
        ensures
            self.claims(domain_id).member(field.claim()) == self.value(field),
            self.request_body().member("properties"@).unwrap().member(field.name()) == self.value(
                field,
            ),
            self.claims(domain_id).member("d"@) == Some(JsonView::Text(domain_id)),
    {
        self.lemma_member(field, true);
        self.lemma_member(field, false);
        TokenField::lemma_claims_differ(field, field);
    }

    /// The claims of a signed token hold nothing but the domain and the settings
    /// that are set.
    pub proof fn lemma_claims_are_settings(self, domain_id: Seq<char>, key: Seq<char>)
        requires
            self.claims(domain_id).member(key) is Some,
        ensures
            key == "d"@ || exists|field: TokenField|
                key == #[trigger] field.claim() && self.value(field) is Some,
    {
        if key != "d"@ {
            self.lemma_members_are_settings(key, true);
            let field = choose|field: TokenField|
                key == #[trigger] field.key(true) && self.value(field) is Some;
            assert(key == field.claim());
        }
    }
}

} // verus!
