//! The properties of a `Daily` room: what a request sets and what the service
//! reports.
use crate::configuration::{
    DailyLang, RecordingType, RecordingsBucket, RecordingsBucketView, Region, RtmpGeoRegion,
    SignalingImp,
};
use crate::json::{lemma_object_map_empty, object, object_map, opt_view, Json, JsonView, NumberView};
use crate::wire::{
    json_of_option, numeral_parsed, optional_of, present_of, put_option, read_optional,
    read_present, take_or, to_json_option, value_or, with_member, FromJson, Numeral, ToJson,
};
use vstd::prelude::*;
use vstd::std_specs::convert::FromSpecImpl;

verus! {

/// The number of settings that a room has.
pub const ROOM_FIELDS: usize = 29;

/// The settings of a room, each with the name that it has in requests and
/// responses.
#[derive(Debug, Copy, Clone, PartialEq, Eq, Structural)]
pub enum RoomField {
    Nbf,
    Exp,
    MaxParticipants,
    EnablePeopleUi,
    EnablePipUi,
    EnablePrejoinUi,
    EnableNetworkUi,
    EnableKnocking,
    EnableScreenshare,
    EnableVideoProcessingUi,
    EnableChat,
    StartVideoOff,
    StartAudioOff,
    OwnerOnlyBroadcast,
    EnableRecording,
    EjectAtRoomExp,
    EjectAfterElapsed,
    EnableHiddenParticipants,
    EnableMeshSfu,
    ExperimentalOptimizeLargeCalls,
    Lang,
    MeetingJoinHook,
    SignalingImp,
    Geo,
    RtmpGeo,
    EnableTerseLogging,
    RecordingsTemplate,
    RecordingsBucket,
    SfuSwitchover,
}

impl RoomField {
    /// The name of the setting in a request and in a response.
    pub open spec fn name(self) -> Seq<char> {
        match self {
            RoomField::Nbf => "nbf"@,
            RoomField::Exp => "exp"@,
            RoomField::MaxParticipants => "max_participants"@,
            RoomField::EnablePeopleUi => "enable_people_ui"@,
            RoomField::EnablePipUi => "enable_pip_ui"@,
            RoomField::EnablePrejoinUi => "enable_prejoin_ui"@,
            RoomField::EnableNetworkUi => "enable_network_ui"@,
            RoomField::EnableKnocking => "enable_knocking"@,
            RoomField::EnableScreenshare => "enable_screenshare"@,
            RoomField::EnableVideoProcessingUi => "enable_video_processing_ui"@,
            RoomField::EnableChat => "enable_chat"@,
            RoomField::StartVideoOff => "start_video_off"@,
            RoomField::StartAudioOff => "start_audio_off"@,
            RoomField::OwnerOnlyBroadcast => "owner_only_broadcast"@,
            RoomField::EnableRecording => "enable_recording"@,
            RoomField::EjectAtRoomExp => "eject_at_room_exp"@,
            RoomField::EjectAfterElapsed => "eject_after_elapsed"@,
            RoomField::EnableHiddenParticipants => "enable_hidden_participants"@,
            RoomField::EnableMeshSfu => "enable_mesh_sfu"@,
            RoomField::ExperimentalOptimizeLargeCalls => "experimental_optimize_large_calls"@,
            RoomField::Lang => "lang"@,
            RoomField::MeetingJoinHook => "meeting_join_hook"@,
            RoomField::SignalingImp => "signaling_imp"@,
            RoomField::Geo => "geo"@,
            RoomField::RtmpGeo => "rtmp_geo"@,
            RoomField::EnableTerseLogging => "enable_terse_logging"@,
            RoomField::RecordingsTemplate => "recordings_template"@,
            RoomField::RecordingsBucket => "recordings_bucket"@,
            RoomField::SfuSwitchover => "sfu_switchover"@,
        }
    }

    /// The name of the setting in a request and in a response.
    pub fn as_str(&self) -> (r: &'static str)
        ensures
            r@ == self.name(),
    {
        match self {
            RoomField::Nbf => "nbf",
            RoomField::Exp => "exp",
            RoomField::MaxParticipants => "max_participants",
            RoomField::EnablePeopleUi => "enable_people_ui",
            RoomField::EnablePipUi => "enable_pip_ui",
            RoomField::EnablePrejoinUi => "enable_prejoin_ui",
            RoomField::EnableNetworkUi => "enable_network_ui",
            RoomField::EnableKnocking => "enable_knocking",
            RoomField::EnableScreenshare => "enable_screenshare",
            RoomField::EnableVideoProcessingUi => "enable_video_processing_ui",
            RoomField::EnableChat => "enable_chat",
            RoomField::StartVideoOff => "start_video_off",
            RoomField::StartAudioOff => "start_audio_off",
            RoomField::OwnerOnlyBroadcast => "owner_only_broadcast",
            RoomField::EnableRecording => "enable_recording",
            RoomField::EjectAtRoomExp => "eject_at_room_exp",
            RoomField::EjectAfterElapsed => "eject_after_elapsed",
            RoomField::EnableHiddenParticipants => "enable_hidden_participants",
            RoomField::EnableMeshSfu => "enable_mesh_sfu",
            RoomField::ExperimentalOptimizeLargeCalls => "experimental_optimize_large_calls",
            RoomField::Lang => "lang",
            RoomField::MeetingJoinHook => "meeting_join_hook",
            RoomField::SignalingImp => "signaling_imp",
            RoomField::Geo => "geo",
            RoomField::RtmpGeo => "rtmp_geo",
            RoomField::EnableTerseLogging => "enable_terse_logging",
            RoomField::RecordingsTemplate => "recordings_template",
            RoomField::RecordingsBucket => "recordings_bucket",
            RoomField::SfuSwitchover => "sfu_switchover",
        }
    }

    /// The place of the setting in the order in which the settings are written.
    pub open spec fn index(self) -> int {
        match self {
            RoomField::Nbf => 0,
            RoomField::Exp => 1,
            RoomField::MaxParticipants => 2,
            RoomField::EnablePeopleUi => 3,
            RoomField::EnablePipUi => 4,
            RoomField::EnablePrejoinUi => 5,
            RoomField::EnableNetworkUi => 6,
            RoomField::EnableKnocking => 7,
            RoomField::EnableScreenshare => 8,
            RoomField::EnableVideoProcessingUi => 9,
            RoomField::EnableChat => 10,
            RoomField::StartVideoOff => 11,
            RoomField::StartAudioOff => 12,
            RoomField::OwnerOnlyBroadcast => 13,
            RoomField::EnableRecording => 14,
            RoomField::EjectAtRoomExp => 15,
            RoomField::EjectAfterElapsed => 16,
            RoomField::EnableHiddenParticipants => 17,
            RoomField::EnableMeshSfu => 18,
            RoomField::ExperimentalOptimizeLargeCalls => 19,
            RoomField::Lang => 20,
            RoomField::MeetingJoinHook => 21,
            RoomField::SignalingImp => 22,
            RoomField::Geo => 23,
            RoomField::RtmpGeo => 24,
            RoomField::EnableTerseLogging => 25,
            RoomField::RecordingsTemplate => 26,
            RoomField::RecordingsBucket => 27,
            RoomField::SfuSwitchover => 28,
        }
    }

    /// The setting at a place in that order.
    pub open spec fn at(i: int) -> RoomField {
        if i == 0 {
            RoomField::Nbf
        } else if i == 1 {
            RoomField::Exp
        } else if i == 2 {
            RoomField::MaxParticipants
        } else if i == 3 {
            RoomField::EnablePeopleUi
        } else if i == 4 {
            RoomField::EnablePipUi
        } else if i == 5 {
            RoomField::EnablePrejoinUi
        } else if i == 6 {
            RoomField::EnableNetworkUi
        } else if i == 7 {
            RoomField::EnableKnocking
        } else if i == 8 {
            RoomField::EnableScreenshare
        } else if i == 9 {
            RoomField::EnableVideoProcessingUi
        } else if i == 10 {
            RoomField::EnableChat
        } else if i == 11 {
            RoomField::StartVideoOff
        } else if i == 12 {
            RoomField::StartAudioOff
        } else if i == 13 {
            RoomField::OwnerOnlyBroadcast
        } else if i == 14 {
            RoomField::EnableRecording
        } else if i == 15 {
            RoomField::EjectAtRoomExp
        } else if i == 16 {
            RoomField::EjectAfterElapsed
        } else if i == 17 {
            RoomField::EnableHiddenParticipants
        } else if i == 18 {
            RoomField::EnableMeshSfu
        } else if i == 19 {
            RoomField::ExperimentalOptimizeLargeCalls
        } else if i == 20 {
            RoomField::Lang
        } else if i == 21 {
            RoomField::MeetingJoinHook
        } else if i == 22 {
            RoomField::SignalingImp
        } else if i == 23 {
            RoomField::Geo
        } else if i == 24 {
            RoomField::RtmpGeo
        } else if i == 25 {
            RoomField::EnableTerseLogging
        } else if i == 26 {
            RoomField::RecordingsTemplate
        } else if i == 27 {
            RoomField::RecordingsBucket
        } else {
            RoomField::SfuSwitchover
        }
    }

    /// The setting at a place in that order, and nothing beyond the last.
    pub fn nth(i: usize) -> (r: Option<RoomField>)
        ensures
            r == (if i < ROOM_FIELDS {
                Some(Self::at(i as int))
            } else {
                None
            }),
    {
        if i == 0 {
            Some(RoomField::Nbf)
        } else if i == 1 {
            Some(RoomField::Exp)
        } else if i == 2 {
            Some(RoomField::MaxParticipants)
        } else if i == 3 {
            Some(RoomField::EnablePeopleUi)
        } else if i == 4 {
            Some(RoomField::EnablePipUi)
        } else if i == 5 {
            Some(RoomField::EnablePrejoinUi)
        } else if i == 6 {
            Some(RoomField::EnableNetworkUi)
        } else if i == 7 {
            Some(RoomField::EnableKnocking)
        } else if i == 8 {
            Some(RoomField::EnableScreenshare)
        } else if i == 9 {
            Some(RoomField::EnableVideoProcessingUi)
        } else if i == 10 {
            Some(RoomField::EnableChat)
        } else if i == 11 {
            Some(RoomField::StartVideoOff)
        } else if i == 12 {
            Some(RoomField::StartAudioOff)
        } else if i == 13 {
            Some(RoomField::OwnerOnlyBroadcast)
        } else if i == 14 {
            Some(RoomField::EnableRecording)
        } else if i == 15 {
            Some(RoomField::EjectAtRoomExp)
        } else if i == 16 {
            Some(RoomField::EjectAfterElapsed)
        } else if i == 17 {
            Some(RoomField::EnableHiddenParticipants)
        } else if i == 18 {
            Some(RoomField::EnableMeshSfu)
        } else if i == 19 {
            Some(RoomField::ExperimentalOptimizeLargeCalls)
        } else if i == 20 {
            Some(RoomField::Lang)
        } else if i == 21 {
            Some(RoomField::MeetingJoinHook)
        } else if i == 22 {
            Some(RoomField::SignalingImp)
        } else if i == 23 {
            Some(RoomField::Geo)
        } else if i == 24 {
            Some(RoomField::RtmpGeo)
        } else if i == 25 {
            Some(RoomField::EnableTerseLogging)
        } else if i == 26 {
            Some(RoomField::RecordingsTemplate)
        } else if i == 27 {
            Some(RoomField::RecordingsBucket)
        } else if i == 28 {
            Some(RoomField::SfuSwitchover)
        } else {
            None
        }
    }

    /// Each setting stands at its own place, and the places are those below the
    /// number of settings.
    pub proof fn lemma_at_index(self)
        ensures
            0 <= self.index() < ROOM_FIELDS,
            Self::at(self.index()) == self,
    {
    }

    /// No two settings have the same name.
    pub proof fn lemma_names_differ(a: RoomField, b: RoomField)
        requires
            a != b,
        ensures
            a.name() != b.name(),
    {
        reveal_strlit("nbf");
        reveal_strlit("exp");
        reveal_strlit("max_participants");
        reveal_strlit("enable_people_ui");
        reveal_strlit("enable_pip_ui");
        reveal_strlit("enable_prejoin_ui");
        reveal_strlit("enable_network_ui");
        reveal_strlit("enable_knocking");
        reveal_strlit("enable_screenshare");
        reveal_strlit("enable_video_processing_ui");
        reveal_strlit("enable_chat");
        reveal_strlit("start_video_off");
        reveal_strlit("start_audio_off");
        reveal_strlit("owner_only_broadcast");
        reveal_strlit("enable_recording");
        reveal_strlit("eject_at_room_exp");
        reveal_strlit("eject_after_elapsed");
        reveal_strlit("enable_hidden_participants");
        reveal_strlit("enable_mesh_sfu");
        reveal_strlit("experimental_optimize_large_calls");
        reveal_strlit("lang");
        reveal_strlit("meeting_join_hook");
        reveal_strlit("signaling_imp");
        reveal_strlit("geo");
        reveal_strlit("rtmp_geo");
        reveal_strlit("enable_terse_logging");
        reveal_strlit("recordings_template");
        reveal_strlit("recordings_bucket");
        reveal_strlit("sfu_switchover");
        assert("nbf"@.len() == 3 && "nbf"@[0] == 'n');
        assert("exp"@.len() == 3 && "exp"@[0] == 'e');
        assert(
            "max_participants"@.len() == 16
            && "max_participants"@[0] == 'm'
            && "max_participants"@[7] == 't'
        );
        assert(
            "enable_people_ui"@.len() == 16
            && "enable_people_ui"@[0] == 'e'
            && "enable_people_ui"@[7] == 'p'
        );
        assert(
            "enable_pip_ui"@.len() == 13
            && "enable_pip_ui"@[0] == 'e'
            && "enable_pip_ui"@[7] == 'p'
        );
        assert(
            "enable_prejoin_ui"@.len() == 17
            && "enable_prejoin_ui"@[0] == 'e'
            && "enable_prejoin_ui"@[7] == 'p'
        );
        assert(
            "enable_network_ui"@.len() == 17
            && "enable_network_ui"@[0] == 'e'
            && "enable_network_ui"@[7] == 'n'
        );
        assert(
            "enable_knocking"@.len() == 15
            && "enable_knocking"@[0] == 'e'
            && "enable_knocking"@[7] == 'k'
        );
        assert(
            "enable_screenshare"@.len() == 18
            && "enable_screenshare"@[0] == 'e'
            && "enable_screenshare"@[7] == 's'
        );
        assert(
            "enable_video_processing_ui"@.len() == 26
            && "enable_video_processing_ui"@[0] == 'e'
            && "enable_video_processing_ui"@[7] == 'v'
        );
        assert("enable_chat"@.len() == 11 && "enable_chat"@[0] == 'e' && "enable_chat"@[7] == 'c');
        assert(
            "start_video_off"@.len() == 15
            && "start_video_off"@[0] == 's'
            && "start_video_off"@[7] == 'i'
        );
        assert(
            "start_audio_off"@.len() == 15
            && "start_audio_off"@[0] == 's'
            && "start_audio_off"@[7] == 'u'
        );
        assert(
            "owner_only_broadcast"@.len() == 20
            && "owner_only_broadcast"@[0] == 'o'
            && "owner_only_broadcast"@[7] == 'n'
        );
        assert(
            "enable_recording"@.len() == 16
            && "enable_recording"@[0] == 'e'
            && "enable_recording"@[7] == 'r'
        );
        assert(
            "eject_at_room_exp"@.len() == 17
            && "eject_at_room_exp"@[0] == 'e'
            && "eject_at_room_exp"@[7] == 't'
        );
        assert(
            "eject_after_elapsed"@.len() == 19
            && "eject_after_elapsed"@[0] == 'e'
            && "eject_after_elapsed"@[7] == 'f'
        );
        assert(
            "enable_hidden_participants"@.len() == 26
            && "enable_hidden_participants"@[0] == 'e'
            && "enable_hidden_participants"@[7] == 'h'
        );
        assert(
            "enable_mesh_sfu"@.len() == 15
            && "enable_mesh_sfu"@[0] == 'e'
            && "enable_mesh_sfu"@[7] == 'm'
        );
        assert(
            "experimental_optimize_large_calls"@.len() == 33
            && "experimental_optimize_large_calls"@[0] == 'e'
            && "experimental_optimize_large_calls"@[7] == 'e'
        );
        assert("lang"@.len() == 4 && "lang"@[0] == 'l');
        assert(
            "meeting_join_hook"@.len() == 17
            && "meeting_join_hook"@[0] == 'm'
            && "meeting_join_hook"@[7] == '_'
        );
        assert(
            "signaling_imp"@.len() == 13
            && "signaling_imp"@[0] == 's'
            && "signaling_imp"@[7] == 'n'
        );
        assert("geo"@.len() == 3 && "geo"@[0] == 'g');
        assert("rtmp_geo"@.len() == 8 && "rtmp_geo"@[0] == 'r' && "rtmp_geo"@[7] == 'o');
        assert(
            "enable_terse_logging"@.len() == 20
            && "enable_terse_logging"@[0] == 'e'
            && "enable_terse_logging"@[7] == 't'
        );
        assert(
            "recordings_template"@.len() == 19
            && "recordings_template"@[0] == 'r'
            && "recordings_template"@[7] == 'n'
        );
        assert(
            "recordings_bucket"@.len() == 17
            && "recordings_bucket"@[0] == 'r'
            && "recordings_bucket"@[7] == 'n'
        );
        assert(
            "sfu_switchover"@.len() == 14
            && "sfu_switchover"@[0] == 's'
            && "sfu_switchover"@[7] == 't'
        );
    }
}

/// A builder to specify properties for a `Daily` room,
/// defined [here](https://docs.daily.co/reference/rest-api/rooms/config).
#[derive(Debug, Clone)]
pub struct RoomPropertiesBuilder {
    pub nbf: Option<i64>,
    pub exp: Option<i64>,
    pub max_participants: Option<usize>,
    pub enable_people_ui: Option<bool>,
    pub enable_pip_ui: Option<bool>,
    pub enable_prejoin_ui: Option<bool>,
    pub enable_network_ui: Option<bool>,
    pub enable_knocking: Option<bool>,
    pub enable_screenshare: Option<bool>,
    pub enable_video_processing_ui: Option<bool>,
    pub enable_chat: Option<bool>,
    pub start_video_off: Option<bool>,
    pub start_audio_off: Option<bool>,
    pub owner_only_broadcast: Option<bool>,
    pub enable_recording: Option<RecordingType>,
    pub eject_at_room_exp: Option<bool>,
    pub eject_after_elapsed: Option<i64>,
    pub enable_hidden_participants: Option<bool>,
    pub enable_mesh_sfu: Option<bool>,
    pub experimental_optimize_large_calls: Option<bool>,
    pub lang: Option<DailyLang>,
    pub meeting_join_hook: Option<String>,
    pub signaling_imp: Option<SignalingImp>,
    pub geo: Option<Region>,
    pub rtmp_geo: Option<RtmpGeoRegion>,
    pub enable_terse_logging: Option<bool>,
    pub recordings_template: Option<String>,
    pub recordings_bucket: Option<RecordingsBucket>,
    pub sfu_switchover: Option<Numeral>,
}

/// What a `RoomPropertiesBuilder` holds: for each setting, the value that it was set to, if it
/// was set.
pub struct RoomPropertiesBuilderView {
    pub nbf: Option<i64>,
    pub exp: Option<i64>,
    pub max_participants: Option<usize>,
    pub enable_people_ui: Option<bool>,
    pub enable_pip_ui: Option<bool>,
    pub enable_prejoin_ui: Option<bool>,
    pub enable_network_ui: Option<bool>,
    pub enable_knocking: Option<bool>,
    pub enable_screenshare: Option<bool>,
    pub enable_video_processing_ui: Option<bool>,
    pub enable_chat: Option<bool>,
    pub start_video_off: Option<bool>,
    pub start_audio_off: Option<bool>,
    pub owner_only_broadcast: Option<bool>,
    pub enable_recording: Option<RecordingType>,
    pub eject_at_room_exp: Option<bool>,
    pub eject_after_elapsed: Option<i64>,
    pub enable_hidden_participants: Option<bool>,
    pub enable_mesh_sfu: Option<bool>,
    pub experimental_optimize_large_calls: Option<bool>,
    pub lang: Option<DailyLang>,
    pub meeting_join_hook: Option<Seq<char>>,
    pub signaling_imp: Option<SignalingImp>,
    pub geo: Option<Region>,
    pub rtmp_geo: Option<RtmpGeoRegion>,
    pub enable_terse_logging: Option<bool>,
    pub recordings_template: Option<Seq<char>>,
    pub recordings_bucket: Option<RecordingsBucketView>,
    pub sfu_switchover: Option<NumberView>,
}

impl View for RoomPropertiesBuilder {
    type V = RoomPropertiesBuilderView;

    open spec fn view(&self) -> RoomPropertiesBuilderView {
        RoomPropertiesBuilderView {
            nbf: self.nbf,
            exp: self.exp,
            max_participants: self.max_participants,
            enable_people_ui: self.enable_people_ui,
            enable_pip_ui: self.enable_pip_ui,
            enable_prejoin_ui: self.enable_prejoin_ui,
            enable_network_ui: self.enable_network_ui,
            enable_knocking: self.enable_knocking,
            enable_screenshare: self.enable_screenshare,
            enable_video_processing_ui: self.enable_video_processing_ui,
            enable_chat: self.enable_chat,
            start_video_off: self.start_video_off,
            start_audio_off: self.start_audio_off,
            owner_only_broadcast: self.owner_only_broadcast,
            enable_recording: self.enable_recording,
            eject_at_room_exp: self.eject_at_room_exp,
            eject_after_elapsed: self.eject_after_elapsed,
            enable_hidden_participants: self.enable_hidden_participants,
            enable_mesh_sfu: self.enable_mesh_sfu,
            experimental_optimize_large_calls: self.experimental_optimize_large_calls,
            lang: self.lang,
            meeting_join_hook: opt_view(self.meeting_join_hook),
            signaling_imp: self.signaling_imp,
            geo: self.geo,
            rtmp_geo: self.rtmp_geo,
            enable_terse_logging: self.enable_terse_logging,
            recordings_template: opt_view(self.recordings_template),
            recordings_bucket: opt_view(self.recordings_bucket),
            sfu_switchover: opt_view(self.sfu_switchover),
        }
    }
}

impl RoomPropertiesBuilderView {
    /// The builder in which no setting is set.
    pub open spec fn empty() -> RoomPropertiesBuilderView {
        RoomPropertiesBuilderView {
            nbf: None,
            exp: None,
            max_participants: None,
            enable_people_ui: None,
            enable_pip_ui: None,
            enable_prejoin_ui: None,
            enable_network_ui: None,
            enable_knocking: None,
            enable_screenshare: None,
            enable_video_processing_ui: None,
            enable_chat: None,
            start_video_off: None,
            start_audio_off: None,
            owner_only_broadcast: None,
            enable_recording: None,
            eject_at_room_exp: None,
            eject_after_elapsed: None,
            enable_hidden_participants: None,
            enable_mesh_sfu: None,
            experimental_optimize_large_calls: None,
            lang: None,
            meeting_join_hook: None,
            signaling_imp: None,
            geo: None,
            rtmp_geo: None,
            enable_terse_logging: None,
            recordings_template: None,
            recordings_bucket: None,
            sfu_switchover: None,
        }
    }

    /// The JSON value that a setting is sent as, where the setting is set.
    pub open spec fn value(self, field: RoomField) -> Option<JsonView> {
        match field {
            RoomField::Nbf => json_of_option::<i64>(self.nbf),
            RoomField::Exp => json_of_option::<i64>(self.exp),
            RoomField::MaxParticipants => json_of_option::<usize>(self.max_participants),
            RoomField::EnablePeopleUi => json_of_option::<bool>(self.enable_people_ui),
            RoomField::EnablePipUi => json_of_option::<bool>(self.enable_pip_ui),
            RoomField::EnablePrejoinUi => json_of_option::<bool>(self.enable_prejoin_ui),
            RoomField::EnableNetworkUi => json_of_option::<bool>(self.enable_network_ui),
            RoomField::EnableKnocking => json_of_option::<bool>(self.enable_knocking),
            RoomField::EnableScreenshare => json_of_option::<bool>(self.enable_screenshare),
            RoomField::EnableVideoProcessingUi => json_of_option::<bool>(
                self.enable_video_processing_ui,
            ),
            RoomField::EnableChat => json_of_option::<bool>(self.enable_chat),
            RoomField::StartVideoOff => json_of_option::<bool>(self.start_video_off),
            RoomField::StartAudioOff => json_of_option::<bool>(self.start_audio_off),
            RoomField::OwnerOnlyBroadcast => json_of_option::<bool>(self.owner_only_broadcast),
            RoomField::EnableRecording => json_of_option::<RecordingType>(self.enable_recording),
            RoomField::EjectAtRoomExp => json_of_option::<bool>(self.eject_at_room_exp),
            RoomField::EjectAfterElapsed => json_of_option::<i64>(self.eject_after_elapsed),
            RoomField::EnableHiddenParticipants => json_of_option::<bool>(
                self.enable_hidden_participants,
            ),
            RoomField::EnableMeshSfu => json_of_option::<bool>(self.enable_mesh_sfu),
            RoomField::ExperimentalOptimizeLargeCalls => json_of_option::<bool>(
                self.experimental_optimize_large_calls,
            ),
            RoomField::Lang => json_of_option::<DailyLang>(self.lang),
            RoomField::MeetingJoinHook => json_of_option::<String>(self.meeting_join_hook),
            RoomField::SignalingImp => json_of_option::<SignalingImp>(self.signaling_imp),
            RoomField::Geo => json_of_option::<Region>(self.geo),
            RoomField::RtmpGeo => json_of_option::<RtmpGeoRegion>(self.rtmp_geo),
            RoomField::EnableTerseLogging => json_of_option::<bool>(self.enable_terse_logging),
            RoomField::RecordingsTemplate => json_of_option::<String>(self.recordings_template),
            RoomField::RecordingsBucket => json_of_option::<RecordingsBucket>(
                self.recordings_bucket,
            ),
            RoomField::SfuSwitchover => json_of_option::<Numeral>(self.sfu_switchover),
        }
    }

    /// The members of the first settings, as many as are asked for: one for each
    /// of them that is set.
    pub open spec fn members_upto(self, n: nat) -> Map<Seq<char>, JsonView>
        decreases n,
    {
        if n == 0 {
            Map::empty()
        } else {
            let field = RoomField::at(n - 1);
            with_member(
                self.members_upto((n - 1) as nat),
                field.name(),
                self.value(field),
            )
        }
    }

    /// The members that the builder is written as: one for each setting that
    /// is set, under the name of the setting.
    pub open spec fn members(self) -> Map<Seq<char>, JsonView> {
        self.members_upto(ROOM_FIELDS as nat)
    }

    /// What the service reports of what was made from the builder, where it
    /// reports each setting that is set as it was set and leaves out the others.
    pub open spec fn materialized(self) -> RoomPropertiesView {
        RoomPropertiesView {
            nbf: self.nbf,
            exp: self.exp,
            max_participants: self.max_participants,
            enable_people_ui: self.enable_people_ui,
            enable_pip_ui: value_or(self.enable_pip_ui, false),
            enable_prejoin_ui: self.enable_prejoin_ui,
            enable_network_ui: value_or(self.enable_network_ui, false),
            enable_knocking: value_or(self.enable_knocking, false),
            enable_screenshare: value_or(self.enable_screenshare, true),
            enable_video_processing_ui: value_or(self.enable_video_processing_ui, true),
            enable_chat: value_or(self.enable_chat, false),
            start_video_off: value_or(self.start_video_off, false),
            start_audio_off: value_or(self.start_audio_off, false),
            owner_only_broadcast: value_or(self.owner_only_broadcast, false),
            enable_recording: self.enable_recording,
            eject_at_room_exp: value_or(self.eject_at_room_exp, false),
            eject_after_elapsed: self.eject_after_elapsed,
            enable_hidden_participants: value_or(self.enable_hidden_participants, false),
            enable_mesh_sfu: self.enable_mesh_sfu,
            experimental_optimize_large_calls: self.experimental_optimize_large_calls,
            lang: value_or(self.lang, DailyLang::En),
            meeting_join_hook: self.meeting_join_hook,
            signaling_imp: value_or(self.signaling_imp, SignalingImp::Ws),
            geo: self.geo,
            rtmp_geo: self.rtmp_geo,
            enable_terse_logging: value_or(self.enable_terse_logging, false),
            recordings_template: self.recordings_template,
            recordings_bucket: self.recordings_bucket,
            sfu_switchover: self.sfu_switchover,
        }
    }
}

impl RoomPropertiesBuilder {
    /// Start a new `RoomPropertiesBuilder`.
    pub fn new() -> (r: Self)
        ensures
            r@ == RoomPropertiesBuilderView::empty(),
    {
        RoomPropertiesBuilder {
            nbf: None,
            exp: None,
            max_participants: None,
            enable_people_ui: None,
            enable_pip_ui: None,
            enable_prejoin_ui: None,
            enable_network_ui: None,
            enable_knocking: None,
            enable_screenshare: None,
            enable_video_processing_ui: None,
            enable_chat: None,
            start_video_off: None,
            start_audio_off: None,
            owner_only_broadcast: None,
            enable_recording: None,
            eject_at_room_exp: None,
            eject_after_elapsed: None,
            enable_hidden_participants: None,
            enable_mesh_sfu: None,
            experimental_optimize_large_calls: None,
            lang: None,
            meeting_join_hook: None,
            signaling_imp: None,
            geo: None,
            rtmp_geo: None,
            enable_terse_logging: None,
            recordings_template: None,
            recordings_bucket: None,
            sfu_switchover: None,
        }
    }

    /// UTC timestamp before which the room cannot be joined
    pub fn nbf(self, nbf: i64) -> (r: Self)
        ensures
            r@ == (RoomPropertiesBuilderView { nbf: Some(nbf), ..self@ }),
    {
        let mut r = self;
        r.nbf = Some(nbf);
        r
    }

    /// UTC timestamp for expiration of the room, after which
    /// time it will be automatically deleted at some point.
    pub fn exp(self, exp: i64) -> (r: Self)
        ensures
            r@ == (RoomPropertiesBuilderView { exp: Some(exp), ..self@ }),
    {
        let mut r = self;
        r.exp = Some(exp);
        r
    }

    /// Maximum number of participants who can enter the room.
    pub fn max_participants(self, max_participants: usize) -> (r: Self)
        ensures
            r@ == (RoomPropertiesBuilderView { max_participants: Some(max_participants), ..self@ }),
    {
        let mut r = self;
        r.max_participants = Some(max_participants);
        r
    }

    /// Determines if Daily Prebuilt displays the People UI
    pub fn enable_people_ui(self, enable_people_ui: bool) -> (r: Self)
        ensures
            r@ == (RoomPropertiesBuilderView { enable_people_ui: Some(enable_people_ui), ..self@ }),
    {
        let mut r = self;
        r.enable_people_ui = Some(enable_people_ui);
        r
    }

    /// Sets whether the room can use Daily Prebuilt's Picture in Picture controls.
    pub fn enable_pip_ui(self, enable_pip_ui: bool) -> (r: Self)
        ensures
            r@ == (RoomPropertiesBuilderView { enable_pip_ui: Some(enable_pip_ui), ..self@ }),
    {
        let mut r = self;
        r.enable_pip_ui = Some(enable_pip_ui);
        r
    }

    /// Determines whether participants enter a waiting room with a camera, mic, and
    /// browser check before joining a call.
    pub fn enable_prejoin_ui(self, enable_prejoin_ui: bool) -> (r: Self)
        ensures
            r@ == (RoomPropertiesBuilderView {
                enable_prejoin_ui: Some(enable_prejoin_ui),
                ..self@
            }),
    {
        let mut r = self;
        r.enable_prejoin_ui = Some(enable_prejoin_ui);
        r
    }

    /// Determines whether the network button, and the network panel it reveals on click, appears in this room.
    pub fn enable_network_ui(self, enable_network_ui: bool) -> (r: Self)
        ensures
            r@ == (RoomPropertiesBuilderView {
                enable_network_ui: Some(enable_network_ui),
                ..self@
            }),
    {
        let mut r = self;
        r.enable_network_ui = Some(enable_network_ui);
        r
    }

    /// Turns on a lobby experience for private rooms. A participant without a corresponding
    /// meeting token can request to be admitted to the meeting with a "knock", and wait
    /// for the meeting owner to admit them.
    pub fn enable_knocking(self, enable_knocking: bool) -> (r: Self)
        ensures
            r@ == (RoomPropertiesBuilderView { enable_knocking: Some(enable_knocking), ..self@ }),
    {
        let mut r = self;
        r.enable_knocking = Some(enable_knocking);
        r
    }

    /// Whether or not screen-sharing is enabled
    pub fn enable_screenshare(self, enable_screenshare: bool) -> (r: Self)
        ensures
            r@ == (RoomPropertiesBuilderView {
                enable_screenshare: Some(enable_screenshare),
                ..self@
            }),
    {
        let mut r = self;
        r.enable_screenshare = Some(enable_screenshare);
        r
    }

    /// Determines whether Daily Prebuilt displays background blur controls.
    pub fn enable_video_processing_ui(self, enable_video_processing_ui: bool) -> (r: Self)
        ensures
            r@ == (RoomPropertiesBuilderView {
                enable_video_processing_ui: Some(enable_video_processing_ui),
                ..self@
            }),
    {
        let mut r = self;
        r.enable_video_processing_ui = Some(enable_video_processing_ui);
        r
    }

    /// Allow adding chat to the call
    pub fn enable_chat(self, enable_chat: bool) -> (r: Self)
        ensures
            r@ == (RoomPropertiesBuilderView { enable_chat: Some(enable_chat), ..self@ }),
    {
        let mut r = self;
        r.enable_chat = Some(enable_chat);
        r
    }

    /// Keep video off when room is joined
    pub fn start_video_off(self, start_video_off: bool) -> (r: Self)
        ensures
            r@ == (RoomPropertiesBuilderView { start_video_off: Some(start_video_off), ..self@ }),
    {
        let mut r = self;
        r.start_video_off = Some(start_video_off);
        r
    }

    /// Keep audio off when room is joined
    pub fn start_audio_off(self, start_audio_off: bool) -> (r: Self)
        ensures
            r@ == (RoomPropertiesBuilderView { start_audio_off: Some(start_audio_off), ..self@ }),
    {
        let mut r = self;
        r.start_audio_off = Some(start_audio_off);
        r
    }

    /// In Daily Prebuilt, only the meeting owners will be able to turn on camera,
    /// unmute mic, and share screen
    pub fn owner_only_broadcast(self, owner_only_broadcast: bool) -> (r: Self)
        ensures
            r@ == (RoomPropertiesBuilderView {
                owner_only_broadcast: Some(owner_only_broadcast),
                ..self@
            }),
    {
        let mut r = self;
        r.owner_only_broadcast = Some(owner_only_broadcast);
        r
    }

    /// Allowed recording type for the room
    pub fn enable_recording(self, enable_recording: RecordingType) -> (r: Self)
        ensures
            r@ == (RoomPropertiesBuilderView { enable_recording: Some(enable_recording), ..self@ }),
    {
        let mut r = self;
        r.enable_recording = Some(enable_recording);
        r
    }

    /// If there's a meeting going on at room exp time, end the meeting by kicking
    /// everyone out. This behavior can be overridden by setting eject properties of
    /// a meeting token.
    pub fn eject_at_room_exp(self, eject_at_room_exp: bool) -> (r: Self)
        ensures
            r@ == (RoomPropertiesBuilderView {
                eject_at_room_exp: Some(eject_at_room_exp),
                ..self@
            }),
    {
        let mut r = self;
        r.eject_at_room_exp = Some(eject_at_room_exp);
        r
    }

    /// Eject a meeting participant this many seconds after the participant joins the
    /// meeting. You can use this is a default length limit to prevent long meetings.
    /// This can be overridden by setting eject properties of a meeting token.
    pub fn eject_after_elapsed(self, eject_after_elapsed: i64) -> (r: Self)
        ensures
            r@ == (RoomPropertiesBuilderView {
                eject_after_elapsed: Some(eject_after_elapsed),
                ..self@
            }),
    {
        let mut r = self;
        r.eject_after_elapsed = Some(eject_after_elapsed);
        r
    }

    /// When enabled, non-owner users join a meeting with a hidden presence, meaning
    /// they won't appear as a named participant in the meeting and have no participant
    /// events associated to them.
    pub fn enable_hidden_participants(self, enable_hidden_participants: bool) -> (r: Self)
        ensures
            r@ == (RoomPropertiesBuilderView {
                enable_hidden_participants: Some(enable_hidden_participants),
                ..self@
            }),
    {
        let mut r = self;
        r.enable_hidden_participants = Some(enable_hidden_participants);
        r
    }

    /// Configures a room to use multiple SFUs for a call's media. This feature enables
    /// calls to scale to large sizes and to reduce latency between participants.
    /// It is recommended specifically for interactive live streaming.
    pub fn enable_mesh_sfu(self, enable_mesh_sfu: bool) -> (r: Self)
        ensures
            r@ == (RoomPropertiesBuilderView { enable_mesh_sfu: Some(enable_mesh_sfu), ..self@ }),
    {
        let mut r = self;
        r.enable_mesh_sfu = Some(enable_mesh_sfu);
        r
    }

    /// Enables Daily Prebuilt to support group calls of up to 300 participants and
    /// owner only broadcast calls of up to 15K participants.
    pub fn experimental_optimize_large_calls(
        self,
        experimental_optimize_large_calls: bool,
    ) -> (r: Self)
        ensures
            r@ == (RoomPropertiesBuilderView {
                experimental_optimize_large_calls: Some(experimental_optimize_large_calls),
                ..self@
            }),
    {
        let mut r = self;
        r.experimental_optimize_large_calls = Some(experimental_optimize_large_calls);
        r
    }

    /// The default language of the Daily prebuilt video call UI, for this room.
    pub fn lang(self, lang: DailyLang) -> (r: Self)
        ensures
            r@ == (RoomPropertiesBuilderView { lang: Some(lang), ..self@ }),
    {
        let mut r = self;
        r.lang = Some(lang);
        r
    }

    /// Sets a URL that will receive a webhook when a user joins a room.
    /// Default is NULL. Character limit for webhook URL is 255.
    pub fn meeting_join_hook(self, meeting_join_hook: &str) -> (r: Self)
        ensures
            r@ == (RoomPropertiesBuilderView {
                meeting_join_hook: Some(meeting_join_hook@),
                ..self@
            }),
    {
        let mut r = self;
        r.meeting_join_hook = Some(meeting_join_hook.to_owned());
        r
    }

    /// Sets the signaling type.
    pub fn signaling_imp(self, signaling_imp: SignalingImp) -> (r: Self)
        ensures
            r@ == (RoomPropertiesBuilderView { signaling_imp: Some(signaling_imp), ..self@ }),
    {
        let mut r = self;
        r.signaling_imp = Some(signaling_imp);
        r
    }

    /// Enforce a signaling server region
    pub fn geo(self, geo: Region) -> (r: Self)
        ensures
            r@ == (RoomPropertiesBuilderView { geo: Some(geo), ..self@ }),
    {
        let mut r = self;
        r.geo = Some(geo);
        r
    }

    /// Used to select the region where an RTMP stream should originate.
    pub fn rtmp_geo(self, rtmp_geo: RtmpGeoRegion) -> (r: Self)
        ensures
            r@ == (RoomPropertiesBuilderView { rtmp_geo: Some(rtmp_geo), ..self@ }),
    {
        let mut r = self;
        r.rtmp_geo = Some(rtmp_geo);
        r
    }

    /// Reduces the volume of log messages. This feature should be enabled when there
    /// are more than 200 participants in a meeting to help improve performance.
    pub fn enable_terse_logging(self, enable_terse_logging: bool) -> (r: Self)
        ensures
            r@ == (RoomPropertiesBuilderView {
                enable_terse_logging: Some(enable_terse_logging),
                ..self@
            }),
    {
        let mut r = self;
        r.enable_terse_logging = Some(enable_terse_logging);
        r
    }

    /// See details in the [docs](https://docs.daily.co/reference/rest-api/rooms/config#recordings_template).
    pub fn recordings_template(self, recordings_template: &str) -> (r: Self)
        ensures
            r@ == (RoomPropertiesBuilderView {
                recordings_template: Some(recordings_template@),
                ..self@
            }),
    {
        let mut r = self;
        r.recordings_template = Some(recordings_template.to_owned());
        r
    }

    /// Configures an S3 bucket in which to store recordings.
    pub fn recordings_bucket(self, recordings_bucket: RecordingsBucket) -> (r: Self)
        ensures
            r@ == (RoomPropertiesBuilderView {
                recordings_bucket: Some(recordings_bucket@),
                ..self@
            }),
    {
        let mut r = self;
        r.recordings_bucket = Some(recordings_bucket);
        r
    }

    /// Dictates the participant count after which room topology automatically
    /// switches from Peer-to-Peer (P2P) to Selective Forwarding Unit (SFU) mode, or vice versa.
    pub fn sfu_switchover(self, sfu_switchover: Numeral) -> (r: Self)
        ensures
            r@ == (RoomPropertiesBuilderView { sfu_switchover: Some(sfu_switchover@), ..self@ }),
    {
        let mut r = self;
        r.sfu_switchover = Some(sfu_switchover);
        r
    }

    /// Ensure the room always immediately switches to SFU. Equivalent to setting
    /// `sfu_switchover` to the number written `0.5`.
    pub fn sfu_always(self) -> (r: Self)
        ensures
            r@ == (RoomPropertiesBuilderView { sfu_switchover: numeral_parsed("0.5"@), ..self@ }),
    {
        let mut r = self;
        r.sfu_switchover = Numeral::parse("0.5");
        r
    }

    /// The JSON value that a setting is sent as, where the setting is set.
    pub fn value(&self, field: RoomField) -> (r: Option<Json>)
        ensures
            opt_view(r) == self@.value(field),
    {
        match field {
            RoomField::Nbf => to_json_option(&self.nbf),
            RoomField::Exp => to_json_option(&self.exp),
            RoomField::MaxParticipants => to_json_option(&self.max_participants),
            RoomField::EnablePeopleUi => to_json_option(&self.enable_people_ui),
            RoomField::EnablePipUi => to_json_option(&self.enable_pip_ui),
            RoomField::EnablePrejoinUi => to_json_option(&self.enable_prejoin_ui),
            RoomField::EnableNetworkUi => to_json_option(&self.enable_network_ui),
            RoomField::EnableKnocking => to_json_option(&self.enable_knocking),
            RoomField::EnableScreenshare => to_json_option(&self.enable_screenshare),
            RoomField::EnableVideoProcessingUi => to_json_option(&self.enable_video_processing_ui),
            RoomField::EnableChat => to_json_option(&self.enable_chat),
            RoomField::StartVideoOff => to_json_option(&self.start_video_off),
            RoomField::StartAudioOff => to_json_option(&self.start_audio_off),
            RoomField::OwnerOnlyBroadcast => to_json_option(&self.owner_only_broadcast),
            RoomField::EnableRecording => to_json_option(&self.enable_recording),
            RoomField::EjectAtRoomExp => to_json_option(&self.eject_at_room_exp),
            RoomField::EjectAfterElapsed => to_json_option(&self.eject_after_elapsed),
            RoomField::EnableHiddenParticipants => to_json_option(&self.enable_hidden_participants),
            RoomField::EnableMeshSfu => to_json_option(&self.enable_mesh_sfu),
            RoomField::ExperimentalOptimizeLargeCalls => to_json_option(
                &self.experimental_optimize_large_calls,
            ),
            RoomField::Lang => to_json_option(&self.lang),
            RoomField::MeetingJoinHook => to_json_option(&self.meeting_join_hook),
            RoomField::SignalingImp => to_json_option(&self.signaling_imp),
            RoomField::Geo => to_json_option(&self.geo),
            RoomField::RtmpGeo => to_json_option(&self.rtmp_geo),
            RoomField::EnableTerseLogging => to_json_option(&self.enable_terse_logging),
            RoomField::RecordingsTemplate => to_json_option(&self.recordings_template),
            RoomField::RecordingsBucket => to_json_option(&self.recordings_bucket),
            RoomField::SfuSwitchover => to_json_option(&self.sfu_switchover),
        }
    }

    /// The list of the members that the builder is written as.
    fn member_list(&self) -> (r: Vec<(String, Json)>)
        ensures
            object_map(r@) == self@.members(),
    {
        let mut out: Vec<(String, Json)> = Vec::new();
        proof {
            lemma_object_map_empty(out@);
        }
        let mut i: usize = 0;
        while i < ROOM_FIELDS
            invariant
                i <= ROOM_FIELDS,
                object_map(out@) == self@.members_upto(i as nat),
            decreases ROOM_FIELDS - i,
        {
            if let Some(field) = RoomField::nth(i) {
                put_option(&mut out, field.as_str(), self.value(field));
            }
            i += 1;
        }
        out
    }

    /// The object that the builder is written as: a member for each setting
    /// that is set, under the name of the setting. A setting that is not set
    /// has no member.
    pub fn members(&self) -> (j: Json)
        ensures
            j@ == JsonView::Object(self@.members()),
    {
        object(self.member_list())
    }
}

impl Default for RoomPropertiesBuilder {
    /// The builder in which no setting is set.
    fn default() -> (r: Self)
        ensures
            r@ == RoomPropertiesBuilderView::empty(),
    {
        RoomPropertiesBuilder::new()
    }
}

impl ToJson for RoomPropertiesBuilder {
    /// The object of the settings that are set, each under its name in a
    /// request.
    open spec fn json_of(v: RoomPropertiesBuilderView) -> JsonView {
        JsonView::Object(v.members())
    }

    fn to_json(&self) -> (j: Json)
        ensures
            j@ == Self::json_of(self@),
    {
        self.members()
    }
}

impl RoomPropertiesBuilderView {
    /// This with one setting read from the member of its name: a missing member
    /// leaves the setting unset, and so does `null` for a setting without a
    /// default. Nothing where the member holds no value of the setting.
    #[verifier::opaque]
    pub open spec fn with_read(self, field: RoomField, member: Option<JsonView>) -> Option<
        RoomPropertiesBuilderView,
    > {
        match field {
            RoomField::Nbf => match read_optional::<i64>(member) {
                Some(x) => Some(RoomPropertiesBuilderView { nbf: x, ..self }),
                None => None,
            },
            RoomField::Exp => match read_optional::<i64>(member) {
                Some(x) => Some(RoomPropertiesBuilderView { exp: x, ..self }),
                None => None,
            },
            RoomField::MaxParticipants => match read_optional::<usize>(member) {
                Some(x) => Some(RoomPropertiesBuilderView { max_participants: x, ..self }),
                None => None,
            },
            RoomField::EnablePeopleUi => match read_optional::<bool>(member) {
                Some(x) => Some(RoomPropertiesBuilderView { enable_people_ui: x, ..self }),
                None => None,
            },
            RoomField::EnablePipUi => match read_present::<bool>(member) {
                Some(x) => Some(RoomPropertiesBuilderView { enable_pip_ui: x, ..self }),
                None => None,
            },
            RoomField::EnablePrejoinUi => match read_optional::<bool>(member) {
                Some(x) => Some(RoomPropertiesBuilderView { enable_prejoin_ui: x, ..self }),
                None => None,
            },
            RoomField::EnableNetworkUi => match read_present::<bool>(member) {
                Some(x) => Some(RoomPropertiesBuilderView { enable_network_ui: x, ..self }),
                None => None,
            },
            RoomField::EnableKnocking => match read_present::<bool>(member) {
                Some(x) => Some(RoomPropertiesBuilderView { enable_knocking: x, ..self }),
                None => None,
            },
            RoomField::EnableScreenshare => match read_present::<bool>(member) {
                Some(x) => Some(RoomPropertiesBuilderView { enable_screenshare: x, ..self }),
                None => None,
            },
            RoomField::EnableVideoProcessingUi => match read_present::<bool>(member) {
                Some(x) => Some(
                    RoomPropertiesBuilderView { enable_video_processing_ui: x, ..self },
                ),
                None => None,
            },
            RoomField::EnableChat => match read_present::<bool>(member) {
                Some(x) => Some(RoomPropertiesBuilderView { enable_chat: x, ..self }),
                None => None,
            },
            RoomField::StartVideoOff => match read_present::<bool>(member) {
                Some(x) => Some(RoomPropertiesBuilderView { start_video_off: x, ..self }),
                None => None,
            },
            RoomField::StartAudioOff => match read_present::<bool>(member) {
                Some(x) => Some(RoomPropertiesBuilderView { start_audio_off: x, ..self }),
                None => None,
            },
            RoomField::OwnerOnlyBroadcast => match read_present::<bool>(member) {
                Some(x) => Some(RoomPropertiesBuilderView { owner_only_broadcast: x, ..self }),
                None => None,
            },
            RoomField::EnableRecording => match read_optional::<RecordingType>(member) {
                Some(x) => Some(RoomPropertiesBuilderView { enable_recording: x, ..self }),
                None => None,
            },
            RoomField::EjectAtRoomExp => match read_present::<bool>(member) {
                Some(x) => Some(RoomPropertiesBuilderView { eject_at_room_exp: x, ..self }),
                None => None,
            },
            RoomField::EjectAfterElapsed => match read_optional::<i64>(member) {
                Some(x) => Some(RoomPropertiesBuilderView { eject_after_elapsed: x, ..self }),
                None => None,
            },
            RoomField::EnableHiddenParticipants => match read_present::<bool>(member) {
                Some(x) => Some(
                    RoomPropertiesBuilderView { enable_hidden_participants: x, ..self },
                ),
                None => None,
            },
            RoomField::EnableMeshSfu => match read_optional::<bool>(member) {
                Some(x) => Some(RoomPropertiesBuilderView { enable_mesh_sfu: x, ..self }),
                None => None,
            },
            RoomField::ExperimentalOptimizeLargeCalls => match read_optional::<bool>(member) {
                Some(x) => Some(
                    RoomPropertiesBuilderView { experimental_optimize_large_calls: x, ..self },
                ),
                None => None,
            },
            RoomField::Lang => match read_present::<DailyLang>(member) {
                Some(x) => Some(RoomPropertiesBuilderView { lang: x, ..self }),
                None => None,
            },
            RoomField::MeetingJoinHook => match read_optional::<String>(member) {
                Some(x) => Some(RoomPropertiesBuilderView { meeting_join_hook: x, ..self }),
                None => None,
            },
            RoomField::SignalingImp => match read_present::<SignalingImp>(member) {
                Some(x) => Some(RoomPropertiesBuilderView { signaling_imp: x, ..self }),
                None => None,
            },
            RoomField::Geo => match read_optional::<Region>(member) {
                Some(x) => Some(RoomPropertiesBuilderView { geo: x, ..self }),
                None => None,
            },
            RoomField::RtmpGeo => match read_optional::<RtmpGeoRegion>(member) {
                Some(x) => Some(RoomPropertiesBuilderView { rtmp_geo: x, ..self }),
                None => None,
            },
            RoomField::EnableTerseLogging => match read_present::<bool>(member) {
                Some(x) => Some(RoomPropertiesBuilderView { enable_terse_logging: x, ..self }),
                None => None,
            },
            RoomField::RecordingsTemplate => match read_optional::<String>(member) {
                Some(x) => Some(RoomPropertiesBuilderView { recordings_template: x, ..self }),
                None => None,
            },
            RoomField::RecordingsBucket => match read_optional::<RecordingsBucket>(member) {
                Some(x) => Some(RoomPropertiesBuilderView { recordings_bucket: x, ..self }),
                None => None,
            },
            RoomField::SfuSwitchover => match read_optional::<Numeral>(member) {
                Some(x) => Some(RoomPropertiesBuilderView { sfu_switchover: x, ..self }),
                None => None,
            },
        }
    }

    /// What is read from a value when only the first settings are read, as many
    /// as are asked for, one after another.
    spec fn read_upto(v: JsonView, n: nat) -> Option<RoomPropertiesBuilderView>
        decreases n,
    {
        if n == 0 {
            Some(Self::empty())
        } else {
            let field = RoomField::at(n - 1);
            match Self::read_upto(v, (n - 1) as nat) {
                Some(e) => e.with_read(field, v.member(field.name())),
                None => None,
            }
        }
    }

    /// What is read from a value when only the first settings are read, said of
    /// each setting by itself: nothing where the member of one of them holds no
    /// value of its setting, and else each of them as its member has it and each
    /// other setting unset.
    spec fn read_first(v: JsonView, n: nat) -> Option<RoomPropertiesBuilderView> {
        let nbf = read_optional::<i64>(v.member(RoomField::Nbf.name()));
        let exp = read_optional::<i64>(v.member(RoomField::Exp.name()));
        let max_participants = read_optional::<usize>(v.member(RoomField::MaxParticipants.name()));
        let enable_people_ui = read_optional::<bool>(v.member(RoomField::EnablePeopleUi.name()));
        let enable_pip_ui = read_present::<bool>(v.member(RoomField::EnablePipUi.name()));
        let enable_prejoin_ui = read_optional::<bool>(v.member(RoomField::EnablePrejoinUi.name()));
        let enable_network_ui = read_present::<bool>(v.member(RoomField::EnableNetworkUi.name()));
        let enable_knocking = read_present::<bool>(v.member(RoomField::EnableKnocking.name()));
        let enable_screenshare = read_present::<bool>(
            v.member(RoomField::EnableScreenshare.name()),
        );
        let enable_video_processing_ui = read_present::<bool>(
            v.member(RoomField::EnableVideoProcessingUi.name()),
        );
        let enable_chat = read_present::<bool>(v.member(RoomField::EnableChat.name()));
        let start_video_off = read_present::<bool>(v.member(RoomField::StartVideoOff.name()));
        let start_audio_off = read_present::<bool>(v.member(RoomField::StartAudioOff.name()));
        let owner_only_broadcast = read_present::<bool>(
            v.member(RoomField::OwnerOnlyBroadcast.name()),
        );
        let enable_recording = read_optional::<RecordingType>(
            v.member(RoomField::EnableRecording.name()),
        );
        let eject_at_room_exp = read_present::<bool>(v.member(RoomField::EjectAtRoomExp.name()));
        let eject_after_elapsed = read_optional::<i64>(
            v.member(RoomField::EjectAfterElapsed.name()),
        );
        let enable_hidden_participants = read_present::<bool>(
            v.member(RoomField::EnableHiddenParticipants.name()),
        );
        let enable_mesh_sfu = read_optional::<bool>(v.member(RoomField::EnableMeshSfu.name()));
        let experimental_optimize_large_calls = read_optional::<bool>(
            v.member(RoomField::ExperimentalOptimizeLargeCalls.name()),
        );
        let lang = read_present::<DailyLang>(v.member(RoomField::Lang.name()));
        let meeting_join_hook = read_optional::<String>(
            v.member(RoomField::MeetingJoinHook.name()),
        );
        let signaling_imp = read_present::<SignalingImp>(v.member(RoomField::SignalingImp.name()));
        let geo = read_optional::<Region>(v.member(RoomField::Geo.name()));
        let rtmp_geo = read_optional::<RtmpGeoRegion>(v.member(RoomField::RtmpGeo.name()));
        let enable_terse_logging = read_present::<bool>(
            v.member(RoomField::EnableTerseLogging.name()),
        );
        let recordings_template = read_optional::<String>(
            v.member(RoomField::RecordingsTemplate.name()),
        );
        let recordings_bucket = read_optional::<RecordingsBucket>(
            v.member(RoomField::RecordingsBucket.name()),
        );
        let sfu_switchover = read_optional::<Numeral>(v.member(RoomField::SfuSwitchover.name()));
        if (0 < n ==> nbf is Some)
            && (1 < n ==> exp is Some)
            && (2 < n ==> max_participants is Some)
            && (3 < n ==> enable_people_ui is Some)
            && (4 < n ==> enable_pip_ui is Some)
            && (5 < n ==> enable_prejoin_ui is Some)
            && (6 < n ==> enable_network_ui is Some)
            && (7 < n ==> enable_knocking is Some)
            && (8 < n ==> enable_screenshare is Some)
            && (9 < n ==> enable_video_processing_ui is Some)
            && (10 < n ==> enable_chat is Some)
            && (11 < n ==> start_video_off is Some)
            && (12 < n ==> start_audio_off is Some)
            && (13 < n ==> owner_only_broadcast is Some)
            && (14 < n ==> enable_recording is Some)
            && (15 < n ==> eject_at_room_exp is Some)
            && (16 < n ==> eject_after_elapsed is Some)
            && (17 < n ==> enable_hidden_participants is Some)
            && (18 < n ==> enable_mesh_sfu is Some)
            && (19 < n ==> experimental_optimize_large_calls is Some)
            && (20 < n ==> lang is Some)
            && (21 < n ==> meeting_join_hook is Some)
            && (22 < n ==> signaling_imp is Some)
            && (23 < n ==> geo is Some)
            && (24 < n ==> rtmp_geo is Some)
            && (25 < n ==> enable_terse_logging is Some)
            && (26 < n ==> recordings_template is Some)
            && (27 < n ==> recordings_bucket is Some)
            && (28 < n ==> sfu_switchover is Some) {
            Some(
                RoomPropertiesBuilderView {
                    nbf: if 0 < n {
                        nbf.unwrap()
                    } else {
                        None
                    },
                    exp: if 1 < n {
                        exp.unwrap()
                    } else {
                        None
                    },
                    max_participants: if 2 < n {
                        max_participants.unwrap()
                    } else {
                        None
                    },
                    enable_people_ui: if 3 < n {
                        enable_people_ui.unwrap()
                    } else {
                        None
                    },
                    enable_pip_ui: if 4 < n {
                        enable_pip_ui.unwrap()
                    } else {
                        None
                    },
                    enable_prejoin_ui: if 5 < n {
                        enable_prejoin_ui.unwrap()
                    } else {
                        None
                    },
                    enable_network_ui: if 6 < n {
                        enable_network_ui.unwrap()
                    } else {
                        None
                    },
                    enable_knocking: if 7 < n {
                        enable_knocking.unwrap()
                    } else {
                        None
                    },
                    enable_screenshare: if 8 < n {
                        enable_screenshare.unwrap()
                    } else {
                        None
                    },
                    enable_video_processing_ui: if 9 < n {
                        enable_video_processing_ui.unwrap()
                    } else {
                        None
                    },
                    enable_chat: if 10 < n {
                        enable_chat.unwrap()
                    } else {
                        None
                    },
                    start_video_off: if 11 < n {
                        start_video_off.unwrap()
                    } else {
                        None
                    },
                    start_audio_off: if 12 < n {
                        start_audio_off.unwrap()
                    } else {
                        None
                    },
                    owner_only_broadcast: if 13 < n {
                        owner_only_broadcast.unwrap()
                    } else {
                        None
                    },
                    enable_recording: if 14 < n {
                        enable_recording.unwrap()
                    } else {
                        None
                    },
                    eject_at_room_exp: if 15 < n {
                        eject_at_room_exp.unwrap()
                    } else {
                        None
                    },
                    eject_after_elapsed: if 16 < n {
                        eject_after_elapsed.unwrap()
                    } else {
                        None
                    },
                    enable_hidden_participants: if 17 < n {
                        enable_hidden_participants.unwrap()
                    } else {
                        None
                    },
                    enable_mesh_sfu: if 18 < n {
                        enable_mesh_sfu.unwrap()
                    } else {
                        None
                    },
                    experimental_optimize_large_calls: if 19 < n {
                        experimental_optimize_large_calls.unwrap()
                    } else {
                        None
                    },
                    lang: if 20 < n {
                        lang.unwrap()
                    } else {
                        None
                    },
                    meeting_join_hook: if 21 < n {
                        meeting_join_hook.unwrap()
                    } else {
                        None
                    },
                    signaling_imp: if 22 < n {
                        signaling_imp.unwrap()
                    } else {
                        None
                    },
                    geo: if 23 < n {
                        geo.unwrap()
                    } else {
                        None
                    },
                    rtmp_geo: if 24 < n {
                        rtmp_geo.unwrap()
                    } else {
                        None
                    },
                    enable_terse_logging: if 25 < n {
                        enable_terse_logging.unwrap()
                    } else {
                        None
                    },
                    recordings_template: if 26 < n {
                        recordings_template.unwrap()
                    } else {
                        None
                    },
                    recordings_bucket: if 27 < n {
                        recordings_bucket.unwrap()
                    } else {
                        None
                    },
                    sfu_switchover: if 28 < n {
                        sfu_switchover.unwrap()
                    } else {
                        None
                    },
                },
            )
        } else {
            None
        }
    }

    /// Reading the settings one after another comes to what is said of each
    /// setting by itself.
    proof fn lemma_read_upto(v: JsonView, n: nat)
        requires
            n <= ROOM_FIELDS,
        ensures
            Self::read_upto(v, n) == Self::read_first(v, n),
        decreases n,
    {
        reveal(RoomPropertiesBuilderView::with_read);
        if n > 0 {
            Self::lemma_read_upto(v, (n - 1) as nat);
            let field = RoomField::at(n - 1);
            field.lemma_at_index();
        }
    }

    /// Where nothing is read from the first settings, nothing is read from more
    /// of them.
    proof fn lemma_read_upto_none(v: JsonView, n: nat, m: nat)
        requires
            n <= m,
            Self::read_upto(v, n) is None,
        ensures
            Self::read_upto(v, m) is None,
        decreases m,
    {
        if n < m {
            Self::lemma_read_upto_none(v, n, (m - 1) as nat);
        }
    }
}

impl RoomPropertiesBuilder {
    /// This with one setting read from the member of its name, and nothing
    /// where the member holds no value of the setting.
    pub fn with_read(self, field: RoomField, member: Option<&Json>) -> (r: Option<
        RoomPropertiesBuilder,
    >)
        ensures
            opt_view(r) == self@.with_read(field, opt_view(member)),
    {
        proof {
            reveal(RoomPropertiesBuilderView::with_read);
        }
        let mut e = self;
        match field {
            RoomField::Nbf => match optional_of::<i64>(member) {
                Some(x) => {
                    e.nbf = x;
                    Some(e)
                },
                None => None,
            },
            RoomField::Exp => match optional_of::<i64>(member) {
                Some(x) => {
                    e.exp = x;
                    Some(e)
                },
                None => None,
            },
            RoomField::MaxParticipants => match optional_of::<usize>(member) {
                Some(x) => {
                    e.max_participants = x;
                    Some(e)
                },
                None => None,
            },
            RoomField::EnablePeopleUi => match optional_of::<bool>(member) {
                Some(x) => {
                    e.enable_people_ui = x;
                    Some(e)
                },
                None => None,
            },
            RoomField::EnablePipUi => match present_of::<bool>(member) {
                Some(x) => {
                    e.enable_pip_ui = x;
                    Some(e)
                },
                None => None,
            },
            RoomField::EnablePrejoinUi => match optional_of::<bool>(member) {
                Some(x) => {
                    e.enable_prejoin_ui = x;
                    Some(e)
                },
                None => None,
            },
            RoomField::EnableNetworkUi => match present_of::<bool>(member) {
                Some(x) => {
                    e.enable_network_ui = x;
                    Some(e)
                },
                None => None,
            },
            RoomField::EnableKnocking => match present_of::<bool>(member) {
                Some(x) => {
                    e.enable_knocking = x;
                    Some(e)
                },
                None => None,
            },
            RoomField::EnableScreenshare => match present_of::<bool>(member) {
                Some(x) => {
                    e.enable_screenshare = x;
                    Some(e)
                },
                None => None,
            },
            RoomField::EnableVideoProcessingUi => match present_of::<bool>(member) {
                Some(x) => {
                    e.enable_video_processing_ui = x;
                    Some(e)
                },
                None => None,
            },
            RoomField::EnableChat => match present_of::<bool>(member) {
                Some(x) => {
                    e.enable_chat = x;
                    Some(e)
                },
                None => None,
            },
            RoomField::StartVideoOff => match present_of::<bool>(member) {
                Some(x) => {
                    e.start_video_off = x;
                    Some(e)
                },
                None => None,
            },
            RoomField::StartAudioOff => match present_of::<bool>(member) {
                Some(x) => {
                    e.start_audio_off = x;
                    Some(e)
                },
                None => None,
            },
            RoomField::OwnerOnlyBroadcast => match present_of::<bool>(member) {
                Some(x) => {
                    e.owner_only_broadcast = x;
                    Some(e)
                },
                None => None,
            },
            RoomField::EnableRecording => match optional_of::<RecordingType>(member) {
                Some(x) => {
                    e.enable_recording = x;
                    Some(e)
                },
                None => None,
            },
            RoomField::EjectAtRoomExp => match present_of::<bool>(member) {
                Some(x) => {
                    e.eject_at_room_exp = x;
                    Some(e)
                },
                None => None,
            },
            RoomField::EjectAfterElapsed => match optional_of::<i64>(member) {
                Some(x) => {
                    e.eject_after_elapsed = x;
                    Some(e)
                },
                None => None,
            },
            RoomField::EnableHiddenParticipants => match present_of::<bool>(member) {
                Some(x) => {
                    e.enable_hidden_participants = x;
                    Some(e)
                },
                None => None,
            },
            RoomField::EnableMeshSfu => match optional_of::<bool>(member) {
                Some(x) => {
                    e.enable_mesh_sfu = x;
                    Some(e)
                },
                None => None,
            },
            RoomField::ExperimentalOptimizeLargeCalls => match optional_of::<bool>(member) {
                Some(x) => {
                    e.experimental_optimize_large_calls = x;
                    Some(e)
                },
                None => None,
            },
            RoomField::Lang => match present_of::<DailyLang>(member) {
                Some(x) => {
                    e.lang = x;
                    Some(e)
                },
                None => None,
            },
            RoomField::MeetingJoinHook => match optional_of::<String>(member) {
                Some(x) => {
                    e.meeting_join_hook = x;
                    Some(e)
                },
                None => None,
            },
            RoomField::SignalingImp => match present_of::<SignalingImp>(member) {
                Some(x) => {
                    e.signaling_imp = x;
                    Some(e)
                },
                None => None,
            },
            RoomField::Geo => match optional_of::<Region>(member) {
                Some(x) => {
                    e.geo = x;
                    Some(e)
                },
                None => None,
            },
            RoomField::RtmpGeo => match optional_of::<RtmpGeoRegion>(member) {
                Some(x) => {
                    e.rtmp_geo = x;
                    Some(e)
                },
                None => None,
            },
            RoomField::EnableTerseLogging => match present_of::<bool>(member) {
                Some(x) => {
                    e.enable_terse_logging = x;
                    Some(e)
                },
                None => None,
            },
            RoomField::RecordingsTemplate => match optional_of::<String>(member) {
                Some(x) => {
                    e.recordings_template = x;
                    Some(e)
                },
                None => None,
            },
            RoomField::RecordingsBucket => match optional_of::<RecordingsBucket>(member) {
                Some(x) => {
                    e.recordings_bucket = x;
                    Some(e)
                },
                None => None,
            },
            RoomField::SfuSwitchover => match optional_of::<Numeral>(member) {
                Some(x) => {
                    e.sfu_switchover = x;
                    Some(e)
                },
                None => None,
            },
        }
    }
}

impl FromJson for RoomPropertiesBuilder {
    /// The settings that an object holds. A missing member leaves its setting
    /// unset, and so does `null` for a setting without a default. A member of
    /// another name is passed over. Nothing is read from a value that is no
    /// object, or that has a member which holds no value of its setting.
    open spec fn of_json(v: JsonView) -> Option<RoomPropertiesBuilderView> {
        let nbf = read_optional::<i64>(v.member(RoomField::Nbf.name()));
        let exp = read_optional::<i64>(v.member(RoomField::Exp.name()));
        let max_participants = read_optional::<usize>(v.member(RoomField::MaxParticipants.name()));
        let enable_people_ui = read_optional::<bool>(v.member(RoomField::EnablePeopleUi.name()));
        let enable_pip_ui = read_present::<bool>(v.member(RoomField::EnablePipUi.name()));
        let enable_prejoin_ui = read_optional::<bool>(v.member(RoomField::EnablePrejoinUi.name()));
        let enable_network_ui = read_present::<bool>(v.member(RoomField::EnableNetworkUi.name()));
        let enable_knocking = read_present::<bool>(v.member(RoomField::EnableKnocking.name()));
        let enable_screenshare = read_present::<bool>(
            v.member(RoomField::EnableScreenshare.name()),
        );
        let enable_video_processing_ui = read_present::<bool>(
            v.member(RoomField::EnableVideoProcessingUi.name()),
        );
        let enable_chat = read_present::<bool>(v.member(RoomField::EnableChat.name()));
        let start_video_off = read_present::<bool>(v.member(RoomField::StartVideoOff.name()));
        let start_audio_off = read_present::<bool>(v.member(RoomField::StartAudioOff.name()));
        let owner_only_broadcast = read_present::<bool>(
            v.member(RoomField::OwnerOnlyBroadcast.name()),
        );
        let enable_recording = read_optional::<RecordingType>(
            v.member(RoomField::EnableRecording.name()),
        );
        let eject_at_room_exp = read_present::<bool>(v.member(RoomField::EjectAtRoomExp.name()));
        let eject_after_elapsed = read_optional::<i64>(
            v.member(RoomField::EjectAfterElapsed.name()),
        );
        let enable_hidden_participants = read_present::<bool>(
            v.member(RoomField::EnableHiddenParticipants.name()),
        );
        let enable_mesh_sfu = read_optional::<bool>(v.member(RoomField::EnableMeshSfu.name()));
        let experimental_optimize_large_calls = read_optional::<bool>(
            v.member(RoomField::ExperimentalOptimizeLargeCalls.name()),
        );
        let lang = read_present::<DailyLang>(v.member(RoomField::Lang.name()));
        let meeting_join_hook = read_optional::<String>(
            v.member(RoomField::MeetingJoinHook.name()),
        );
        let signaling_imp = read_present::<SignalingImp>(v.member(RoomField::SignalingImp.name()));
        let geo = read_optional::<Region>(v.member(RoomField::Geo.name()));
        let rtmp_geo = read_optional::<RtmpGeoRegion>(v.member(RoomField::RtmpGeo.name()));
        let enable_terse_logging = read_present::<bool>(
            v.member(RoomField::EnableTerseLogging.name()),
        );
        let recordings_template = read_optional::<String>(
            v.member(RoomField::RecordingsTemplate.name()),
        );
        let recordings_bucket = read_optional::<RecordingsBucket>(
            v.member(RoomField::RecordingsBucket.name()),
        );
        let sfu_switchover = read_optional::<Numeral>(v.member(RoomField::SfuSwitchover.name()));
        if v is Object
            && nbf is Some
            && exp is Some
            && max_participants is Some
            && enable_people_ui is Some
            && enable_pip_ui is Some
            && enable_prejoin_ui is Some
            && enable_network_ui is Some
            && enable_knocking is Some
            && enable_screenshare is Some
            && enable_video_processing_ui is Some
            && enable_chat is Some
            && start_video_off is Some
            && start_audio_off is Some
            && owner_only_broadcast is Some
            && enable_recording is Some
            && eject_at_room_exp is Some
            && eject_after_elapsed is Some
            && enable_hidden_participants is Some
            && enable_mesh_sfu is Some
            && experimental_optimize_large_calls is Some
            && lang is Some
            && meeting_join_hook is Some
            && signaling_imp is Some
            && geo is Some
            && rtmp_geo is Some
            && enable_terse_logging is Some
            && recordings_template is Some
            && recordings_bucket is Some
            && sfu_switchover is Some {
            Some(
                RoomPropertiesBuilderView {
                    nbf: nbf.unwrap(),
                    exp: exp.unwrap(),
                    max_participants: max_participants.unwrap(),
                    enable_people_ui: enable_people_ui.unwrap(),
                    enable_pip_ui: enable_pip_ui.unwrap(),
                    enable_prejoin_ui: enable_prejoin_ui.unwrap(),
                    enable_network_ui: enable_network_ui.unwrap(),
                    enable_knocking: enable_knocking.unwrap(),
                    enable_screenshare: enable_screenshare.unwrap(),
                    enable_video_processing_ui: enable_video_processing_ui.unwrap(),
                    enable_chat: enable_chat.unwrap(),
                    start_video_off: start_video_off.unwrap(),
                    start_audio_off: start_audio_off.unwrap(),
                    owner_only_broadcast: owner_only_broadcast.unwrap(),
                    enable_recording: enable_recording.unwrap(),
                    eject_at_room_exp: eject_at_room_exp.unwrap(),
                    eject_after_elapsed: eject_after_elapsed.unwrap(),
                    enable_hidden_participants: enable_hidden_participants.unwrap(),
                    enable_mesh_sfu: enable_mesh_sfu.unwrap(),
                    experimental_optimize_large_calls: experimental_optimize_large_calls.unwrap(),
                    lang: lang.unwrap(),
                    meeting_join_hook: meeting_join_hook.unwrap(),
                    signaling_imp: signaling_imp.unwrap(),
                    geo: geo.unwrap(),
                    rtmp_geo: rtmp_geo.unwrap(),
                    enable_terse_logging: enable_terse_logging.unwrap(),
                    recordings_template: recordings_template.unwrap(),
                    recordings_bucket: recordings_bucket.unwrap(),
                    sfu_switchover: sfu_switchover.unwrap(),
                },
            )
        } else {
            None
        }
    }

    fn from_json(j: &Json) -> (r: Option<RoomPropertiesBuilder>)
        ensures
            match r {
                Some(x) => Self::of_json(j@) == Some(x@),
                None => Self::of_json(j@) is None,
            },
    {
        if !j.is_object() {
            return None;
        }
        let mut e = RoomPropertiesBuilder::new();
        let mut i: usize = 0;
        while i < ROOM_FIELDS
            invariant
                i <= ROOM_FIELDS,
                j@ is Object,
                RoomPropertiesBuilderView::read_upto(j@, i as nat) == Some(e@),
            decreases ROOM_FIELDS - i,
        {
            if let Some(field) = RoomField::nth(i) {
                match e.with_read(field, j.get(field.as_str())) {
                    Some(next) => {
                        e = next;
                    },
                    None => {
                        proof {
                            RoomPropertiesBuilderView::lemma_read_upto_none(
                                j@,
                                (i + 1) as nat,
                                ROOM_FIELDS as nat,
                            );
                            RoomPropertiesBuilderView::lemma_read_upto(j@, ROOM_FIELDS as nat);
                        }
                        return None;
                    },
                }
            }
            i += 1;
        }
        proof {
            RoomPropertiesBuilderView::lemma_read_upto(j@, ROOM_FIELDS as nat);
        }
        Some(e)
    }
}

/// Properties for a `Daily` room, defined [here](https://docs.daily.co/reference/rest-api/rooms/config).
/// Following the API docs, fields not found in a response are assumed to have their
/// default values.
#[derive(Debug, Clone)]
pub struct RoomProperties {
    /// UTC timestamp before which the room cannot be joined
    pub nbf: Option<i64>,
    /// UTC timestamp for expiration of the room, after which
    /// time it will be automatically deleted at some point.
    pub exp: Option<i64>,
    /// Maximum number of participants who can enter the room.
    pub max_participants: Option<usize>,
    /// Determines if Daily Prebuilt displays the People UI
    pub enable_people_ui: Option<bool>,
    /// Sets whether the room can use Daily Prebuilt's Picture in Picture controls.
    pub enable_pip_ui: bool,
    /// Determines whether participants enter a waiting room with a camera, mic, and
    /// browser check before joining a call.
    pub enable_prejoin_ui: Option<bool>,
    /// Determines whether the network button, and the network panel it reveals on click, appears in this room.
    pub enable_network_ui: bool,
    /// Turns on a lobby experience for private rooms. A participant without a corresponding
    /// meeting token can request to be admitted to the meeting with a "knock", and wait
    /// for the meeting owner to admit them.
    pub enable_knocking: bool,
    /// Whether or not screen-sharing is enabled
    pub enable_screenshare: bool,
    /// Determines whether Daily Prebuilt displays background blur controls.
    pub enable_video_processing_ui: bool,
    /// Allow adding chat to the call
    pub enable_chat: bool,
    /// Keep video off when room is joined
    pub start_video_off: bool,
    /// Keep audio off when room is joined
    pub start_audio_off: bool,
    /// In Daily Prebuilt, only the meeting owners will be able to turn on camera,
    /// unmute mic, and share screen
    pub owner_only_broadcast: bool,
    /// Allowed recording type for the room
    pub enable_recording: Option<RecordingType>,
    /// If there's a meeting going on at room exp time, end the meeting by kicking
    /// everyone out. This behavior can be overridden by setting eject properties of
    /// a meeting token.
    pub eject_at_room_exp: bool,
    /// Eject a meeting participant this many seconds after the participant joins the
    /// meeting. You can use this is a default length limit to prevent long meetings.
    /// This can be overridden by setting eject properties of a meeting token.
    pub eject_after_elapsed: Option<i64>,
    /// When enabled, non-owner users join a meeting with a hidden presence, meaning
    /// they won't appear as a named participant in the meeting and have no participant
    /// events associated to them.
    pub enable_hidden_participants: bool,
    /// Configures a room to use multiple SFUs for a call's media. This feature enables
    /// calls to scale to large sizes and to reduce latency between participants.
    /// It is recommended specifically for interactive live streaming.
    pub enable_mesh_sfu: Option<bool>,
    /// Enables Daily Prebuilt to support group calls of up to 300 participants and
    /// owner only broadcast calls of up to 15K participants.
    pub experimental_optimize_large_calls: Option<bool>,
    /// The default language of the Daily prebuilt video call UI, for this room.
    pub lang: DailyLang,
    /// Sets a URL that will receive a webhook when a user joins a room.
    /// Default is NULL. Character limit for webhook URL is 255.
    pub meeting_join_hook: Option<String>,
    /// Sets the signaling type.
    pub signaling_imp: SignalingImp,
    /// Enforce a signaling server region
    pub geo: Option<Region>,
    /// Used to select the region where an RTMP stream should originate.
    pub rtmp_geo: Option<RtmpGeoRegion>,
    /// Reduces the volume of log messages. This feature should be enabled when there
    /// are more than 200 participants in a meeting to help improve performance.
    pub enable_terse_logging: bool,
    /// See details in the [docs](https://docs.daily.co/reference/rest-api/rooms/config#recordings_template).
    pub recordings_template: Option<String>,
    /// Configures an S3 bucket in which to store recordings.
    pub recordings_bucket: Option<RecordingsBucket>,
    /// Dictates the participant count after which room topology automatically
    /// switches from Peer-to-Peer (P2P) to Selective Forwarding Unit (SFU) mode, or vice versa.
    pub sfu_switchover: Option<Numeral>,
}

/// What a `RoomProperties` holds.
pub struct RoomPropertiesView {
    pub nbf: Option<i64>,
    pub exp: Option<i64>,
    pub max_participants: Option<usize>,
    pub enable_people_ui: Option<bool>,
    pub enable_pip_ui: bool,
    pub enable_prejoin_ui: Option<bool>,
    pub enable_network_ui: bool,
    pub enable_knocking: bool,
    pub enable_screenshare: bool,
    pub enable_video_processing_ui: bool,
    pub enable_chat: bool,
    pub start_video_off: bool,
    pub start_audio_off: bool,
    pub owner_only_broadcast: bool,
    pub enable_recording: Option<RecordingType>,
    pub eject_at_room_exp: bool,
    pub eject_after_elapsed: Option<i64>,
    pub enable_hidden_participants: bool,
    pub enable_mesh_sfu: Option<bool>,
    pub experimental_optimize_large_calls: Option<bool>,
    pub lang: DailyLang,
    pub meeting_join_hook: Option<Seq<char>>,
    pub signaling_imp: SignalingImp,
    pub geo: Option<Region>,
    pub rtmp_geo: Option<RtmpGeoRegion>,
    pub enable_terse_logging: bool,
    pub recordings_template: Option<Seq<char>>,
    pub recordings_bucket: Option<RecordingsBucketView>,
    pub sfu_switchover: Option<NumberView>,
}

impl View for RoomProperties {
    type V = RoomPropertiesView;

    open spec fn view(&self) -> RoomPropertiesView {
        RoomPropertiesView {
            nbf: self.nbf,
            exp: self.exp,
            max_participants: self.max_participants,
            enable_people_ui: self.enable_people_ui,
            enable_pip_ui: self.enable_pip_ui,
            enable_prejoin_ui: self.enable_prejoin_ui,
            enable_network_ui: self.enable_network_ui,
            enable_knocking: self.enable_knocking,
            enable_screenshare: self.enable_screenshare,
            enable_video_processing_ui: self.enable_video_processing_ui,
            enable_chat: self.enable_chat,
            start_video_off: self.start_video_off,
            start_audio_off: self.start_audio_off,
            owner_only_broadcast: self.owner_only_broadcast,
            enable_recording: self.enable_recording,
            eject_at_room_exp: self.eject_at_room_exp,
            eject_after_elapsed: self.eject_after_elapsed,
            enable_hidden_participants: self.enable_hidden_participants,
            enable_mesh_sfu: self.enable_mesh_sfu,
            experimental_optimize_large_calls: self.experimental_optimize_large_calls,
            lang: self.lang,
            meeting_join_hook: opt_view(self.meeting_join_hook),
            signaling_imp: self.signaling_imp,
            geo: self.geo,
            rtmp_geo: self.rtmp_geo,
            enable_terse_logging: self.enable_terse_logging,
            recordings_template: opt_view(self.recordings_template),
            recordings_bucket: opt_view(self.recordings_bucket),
            sfu_switchover: opt_view(self.sfu_switchover),
        }
    }
}

impl RoomProperties {
    /// What is made of a builder: each setting that is set as it was set, and
    /// each other setting with its default.
    pub open spec fn of_builder(builder: RoomPropertiesBuilder) -> RoomProperties {
        RoomProperties {
            nbf: builder.nbf,
            exp: builder.exp,
            max_participants: builder.max_participants,
            enable_people_ui: builder.enable_people_ui,
            enable_pip_ui: value_or(builder.enable_pip_ui, false),
            enable_prejoin_ui: builder.enable_prejoin_ui,
            enable_network_ui: value_or(builder.enable_network_ui, false),
            enable_knocking: value_or(builder.enable_knocking, false),
            enable_screenshare: value_or(builder.enable_screenshare, true),
            enable_video_processing_ui: value_or(builder.enable_video_processing_ui, true),
            enable_chat: value_or(builder.enable_chat, false),
            start_video_off: value_or(builder.start_video_off, false),
            start_audio_off: value_or(builder.start_audio_off, false),
            owner_only_broadcast: value_or(builder.owner_only_broadcast, false),
            enable_recording: builder.enable_recording,
            eject_at_room_exp: value_or(builder.eject_at_room_exp, false),
            eject_after_elapsed: builder.eject_after_elapsed,
            enable_hidden_participants: value_or(builder.enable_hidden_participants, false),
            enable_mesh_sfu: builder.enable_mesh_sfu,
            experimental_optimize_large_calls: builder.experimental_optimize_large_calls,
            lang: value_or(builder.lang, DailyLang::En),
            meeting_join_hook: builder.meeting_join_hook,
            signaling_imp: value_or(builder.signaling_imp, SignalingImp::Ws),
            geo: builder.geo,
            rtmp_geo: builder.rtmp_geo,
            enable_terse_logging: value_or(builder.enable_terse_logging, false),
            recordings_template: builder.recordings_template,
            recordings_bucket: builder.recordings_bucket,
            sfu_switchover: builder.sfu_switchover,
        }
    }

    /// What the service reports where it echoes each setting that is set and
    /// fills each other setting with its default.
    pub fn materialized(builder: RoomPropertiesBuilder) -> (r: RoomProperties)
        ensures
            r == Self::of_builder(builder),
            r@ == builder@.materialized(),
    {
        RoomProperties {
            nbf: builder.nbf,
            exp: builder.exp,
            max_participants: builder.max_participants,
            enable_people_ui: builder.enable_people_ui,
            enable_pip_ui: take_or(builder.enable_pip_ui, false),
            enable_prejoin_ui: builder.enable_prejoin_ui,
            enable_network_ui: take_or(builder.enable_network_ui, false),
            enable_knocking: take_or(builder.enable_knocking, false),
            enable_screenshare: take_or(builder.enable_screenshare, true),
            enable_video_processing_ui: take_or(builder.enable_video_processing_ui, true),
            enable_chat: take_or(builder.enable_chat, false),
            start_video_off: take_or(builder.start_video_off, false),
            start_audio_off: take_or(builder.start_audio_off, false),
            owner_only_broadcast: take_or(builder.owner_only_broadcast, false),
            enable_recording: builder.enable_recording,
            eject_at_room_exp: take_or(builder.eject_at_room_exp, false),
            eject_after_elapsed: builder.eject_after_elapsed,
            enable_hidden_participants: take_or(builder.enable_hidden_participants, false),
            enable_mesh_sfu: builder.enable_mesh_sfu,
            experimental_optimize_large_calls: builder.experimental_optimize_large_calls,
            lang: take_or(builder.lang, DailyLang::En),
            meeting_join_hook: builder.meeting_join_hook,
            signaling_imp: take_or(builder.signaling_imp, SignalingImp::Ws),
            geo: builder.geo,
            rtmp_geo: builder.rtmp_geo,
            enable_terse_logging: take_or(builder.enable_terse_logging, false),
            recordings_template: builder.recordings_template,
            recordings_bucket: builder.recordings_bucket,
            sfu_switchover: builder.sfu_switchover,
        }
    }
}

impl From<RoomPropertiesBuilder> for RoomProperties {
    /// What the service reports where it echoes each setting that is set and
    /// fills each other setting with its default.
    fn from(builder: RoomPropertiesBuilder) -> (r: RoomProperties)
        ensures
            r@ == builder@.materialized(),
    {
        RoomProperties::materialized(builder)
    }
}

impl FromSpecImpl<RoomPropertiesBuilder> for RoomProperties {
    open spec fn obeys_from_spec() -> bool {
        true
    }

    open spec fn from_spec(builder: RoomPropertiesBuilder) -> RoomProperties {
        RoomProperties::of_builder(builder)
    }
}

impl FromJson for RoomProperties {
    /// The settings that an object holds, each missing one filled with its
    /// default where it has one. Nothing is read from a value that is no object,
    /// or that has a member which holds no value of its setting.
    open spec fn of_json(v: JsonView) -> Option<RoomPropertiesView> {
        match RoomPropertiesBuilder::of_json(v) {
            Some(settings) => Some(settings.materialized()),
            None => None,
        }
    }

    fn from_json(j: &Json) -> (r: Option<RoomProperties>)
        ensures
            match r {
                Some(x) => Self::of_json(j@) == Some(x@),
                None => Self::of_json(j@) is None,
            },
    {
        match RoomPropertiesBuilder::from_json(j) {
            Some(settings) => Some(RoomProperties::materialized(settings)),
            None => None,
        }
    }
}

impl RoomPropertiesBuilderView {
    /// What is written for the first settings holds one of them under its name
    /// exactly where it is set, and holds no other setting.
    proof fn lemma_member_upto(self, field: RoomField, n: nat)
        requires
            n <= ROOM_FIELDS,
        ensures
            JsonView::Object(self.members_upto(n)).member(field.name())
                == (if field.index() < n {
                self.value(field)
            } else {
                None
            }),
        decreases n,
    {
        if n > 0 {
            self.lemma_member_upto(field, (n - 1) as nat);
            let at = RoomField::at(n - 1);
            at.lemma_at_index();
            field.lemma_at_index();
            assert(at.index() == n - 1);
            if at != field {
                RoomField::lemma_names_differ(at, field);
            }
        }
    }

    /// What is written holds a setting under its name exactly where the setting
    /// is set, and then with the value that it was set to: a setting that is not
    /// set has no member.
    pub proof fn lemma_member(self, field: RoomField)
        ensures
            JsonView::Object(self.members()).member(field.name()) == self.value(field),
            self.value(field) is None ==> !self.members().contains_key(field.name()),
    {
        field.lemma_at_index();
        self.lemma_member_upto(field, ROOM_FIELDS as nat);
    }

    /// What is written for the first settings has no member but those of the
    /// settings among them that are set.
    proof fn lemma_members_upto_are_settings(self, key: Seq<char>, n: nat)
        requires
            self.members_upto(n).contains_key(key),
        ensures
            exists|field: RoomField|
                key == #[trigger] field.name() && self.value(field) is Some,
        decreases n,
    {
        if n > 0 {
            let at = RoomField::at(n - 1);
            if key == at.name() && self.value(at) is Some {
            } else {
                self.lemma_members_upto_are_settings(key, (n - 1) as nat);
            }
        }
    }

    /// What is written has no member but those of the settings that are set.
    pub proof fn lemma_members_are_settings(self, key: Seq<char>)
        requires
            self.members().contains_key(key),
        ensures
            exists|field: RoomField|
                key == #[trigger] field.name() && self.value(field) is Some,
    {
        self.lemma_members_upto_are_settings(key, ROOM_FIELDS as nat);
    }

    /// The first settings of the builder, as many as are asked for, with every
    /// other setting unset.
    spec fn upto(self, n: nat) -> RoomPropertiesBuilderView {
        RoomPropertiesBuilderView {
            nbf: if 0 < n {
                self.nbf
            } else {
                None
            },
            exp: if 1 < n {
                self.exp
            } else {
                None
            },
            max_participants: if 2 < n {
                self.max_participants
            } else {
                None
            },
            enable_people_ui: if 3 < n {
                self.enable_people_ui
            } else {
                None
            },
            enable_pip_ui: if 4 < n {
                self.enable_pip_ui
            } else {
                None
            },
            enable_prejoin_ui: if 5 < n {
                self.enable_prejoin_ui
            } else {
                None
            },
            enable_network_ui: if 6 < n {
                self.enable_network_ui
            } else {
                None
            },
            enable_knocking: if 7 < n {
                self.enable_knocking
            } else {
                None
            },
            enable_screenshare: if 8 < n {
                self.enable_screenshare
            } else {
                None
            },
            enable_video_processing_ui: if 9 < n {
                self.enable_video_processing_ui
            } else {
                None
            },
            enable_chat: if 10 < n {
                self.enable_chat
            } else {
                None
            },
            start_video_off: if 11 < n {
                self.start_video_off
            } else {
                None
            },
            start_audio_off: if 12 < n {
                self.start_audio_off
            } else {
                None
            },
            owner_only_broadcast: if 13 < n {
                self.owner_only_broadcast
            } else {
                None
            },
            enable_recording: if 14 < n {
                self.enable_recording
            } else {
                None
            },
            eject_at_room_exp: if 15 < n {
                self.eject_at_room_exp
            } else {
                None
            },
            eject_after_elapsed: if 16 < n {
                self.eject_after_elapsed
            } else {
                None
            },
            enable_hidden_participants: if 17 < n {
                self.enable_hidden_participants
            } else {
                None
            },
            enable_mesh_sfu: if 18 < n {
                self.enable_mesh_sfu
            } else {
                None
            },
            experimental_optimize_large_calls: if 19 < n {
                self.experimental_optimize_large_calls
            } else {
                None
            },
            lang: if 20 < n {
                self.lang
            } else {
                None
            },
            meeting_join_hook: if 21 < n {
                self.meeting_join_hook
            } else {
                None
            },
            signaling_imp: if 22 < n {
                self.signaling_imp
            } else {
                None
            },
            geo: if 23 < n {
                self.geo
            } else {
                None
            },
            rtmp_geo: if 24 < n {
                self.rtmp_geo
            } else {
                None
            },
            enable_terse_logging: if 25 < n {
                self.enable_terse_logging
            } else {
                None
            },
            recordings_template: if 26 < n {
                self.recordings_template
            } else {
                None
            },
            recordings_bucket: if 27 < n {
                self.recordings_bucket
            } else {
                None
            },
            sfu_switchover: if 28 < n {
                self.sfu_switchover
            } else {
                None
            },
        }
    }

    /// Reading the first settings back from what was written gives each of them
    /// as the builder has it.
    proof fn lemma_round_trip_upto(self, n: nat)
        requires
            n <= ROOM_FIELDS,
        ensures
            Self::read_upto(JsonView::Object(self.members()), n) == Some(self.upto(n)),
        decreases n,
    {
        reveal(read_optional);
        reveal(read_present);
        reveal(RoomPropertiesBuilderView::with_read);
        if n > 0 {
            self.lemma_round_trip_upto((n - 1) as nat);
            let field = RoomField::at(n - 1);
            field.lemma_at_index();
            self.lemma_member(field);
            match field {
                RoomField::EnableRecording => {
                    if let Some(x) = self.enable_recording {
                        x.lemma_named_name();
                    }
                },
                RoomField::Lang => {
                    if let Some(x) = self.lang {
                        x.lemma_named_name();
                    }
                },
                RoomField::SignalingImp => {
                    if let Some(x) = self.signaling_imp {
                        x.lemma_named_name();
                    }
                },
                RoomField::Geo => {
                    if let Some(x) = self.geo {
                        x.lemma_named_name();
                    }
                },
                RoomField::RtmpGeo => {
                    if let Some(x) = self.rtmp_geo {
                        x.lemma_named_name();
                    }
                },
                RoomField::RecordingsBucket => {
                    if let Some(x) = self.recordings_bucket {
                        x.lemma_round_trip();
                    }
                },
                _ => {},
            }
        }
    }

    /// Reading back what was written gives the builder: each setting that was set
    /// with the value that it was set to, and no other setting. The service
    /// then reports each of these as it was set, and each other setting with its
    /// default.
    pub proof fn lemma_round_trip(self)
        ensures
            RoomPropertiesBuilder::of_json(JsonView::Object(self.members())) == Some(self),
            RoomProperties::of_json(JsonView::Object(self.members())) == Some(
                self.materialized(),
            ),
    {
        self.lemma_round_trip_upto(ROOM_FIELDS as nat);
        Self::lemma_read_upto(JsonView::Object(self.members()), ROOM_FIELDS as nat);
    }
}

impl RoomPropertiesBuilderView {
    /// A member whose name is that of no setting is passed over: what is read
    /// from an object is what is read from it without that member.
    pub proof fn lemma_other_member_passed_over(
        members: Map<Seq<char>, JsonView>,
        key: Seq<char>,
        value: JsonView,
    )
        requires
            forall|field: RoomField| key != #[trigger] field.name(),
        ensures
            RoomPropertiesBuilder::of_json(JsonView::Object(members.insert(key, value)))
                == RoomPropertiesBuilder::of_json(JsonView::Object(members)),
            RoomProperties::of_json(JsonView::Object(members.insert(key, value)))
                == RoomProperties::of_json(JsonView::Object(members)),
    {
        let with = JsonView::Object(members.insert(key, value));
        let without = JsonView::Object(members);
        assert forall|field: RoomField| with.member(#[trigger] field.name()) == without.member(
            field.name(),
        ) by {
            assert(key != field.name());
        }
        assert(with.member(RoomField::Nbf.name()) == without.member(RoomField::Nbf.name()));
        assert(with.member(RoomField::Exp.name()) == without.member(RoomField::Exp.name()));
        assert(with.member(RoomField::MaxParticipants.name())
            == without.member(RoomField::MaxParticipants.name()));
        assert(with.member(RoomField::EnablePeopleUi.name())
            == without.member(RoomField::EnablePeopleUi.name()));
        assert(with.member(RoomField::EnablePipUi.name())
            == without.member(RoomField::EnablePipUi.name()));
        assert(with.member(RoomField::EnablePrejoinUi.name())
            == without.member(RoomField::EnablePrejoinUi.name()));
        assert(with.member(RoomField::EnableNetworkUi.name())
            == without.member(RoomField::EnableNetworkUi.name()));
        assert(with.member(RoomField::EnableKnocking.name())
            == without.member(RoomField::EnableKnocking.name()));
        assert(with.member(RoomField::EnableScreenshare.name())
            == without.member(RoomField::EnableScreenshare.name()));
        assert(with.member(RoomField::EnableVideoProcessingUi.name())
            == without.member(RoomField::EnableVideoProcessingUi.name()));
        assert(with.member(RoomField::EnableChat.name())
            == without.member(RoomField::EnableChat.name()));
        assert(with.member(RoomField::StartVideoOff.name())
            == without.member(RoomField::StartVideoOff.name()));
        assert(with.member(RoomField::StartAudioOff.name())
            == without.member(RoomField::StartAudioOff.name()));
        assert(with.member(RoomField::OwnerOnlyBroadcast.name())
            == without.member(RoomField::OwnerOnlyBroadcast.name()));
        assert(with.member(RoomField::EnableRecording.name())
            == without.member(RoomField::EnableRecording.name()));
        assert(with.member(RoomField::EjectAtRoomExp.name())
            == without.member(RoomField::EjectAtRoomExp.name()));
        assert(with.member(RoomField::EjectAfterElapsed.name())
            == without.member(RoomField::EjectAfterElapsed.name()));
        assert(with.member(RoomField::EnableHiddenParticipants.name())
            == without.member(RoomField::EnableHiddenParticipants.name()));
        assert(with.member(RoomField::EnableMeshSfu.name())
            == without.member(RoomField::EnableMeshSfu.name()));
        assert(with.member(RoomField::ExperimentalOptimizeLargeCalls.name())
            == without.member(RoomField::ExperimentalOptimizeLargeCalls.name()));
        assert(with.member(RoomField::Lang.name()) == without.member(RoomField::Lang.name()));
        assert(with.member(RoomField::MeetingJoinHook.name())
            == without.member(RoomField::MeetingJoinHook.name()));
        assert(with.member(RoomField::SignalingImp.name())
            == without.member(RoomField::SignalingImp.name()));
        assert(with.member(RoomField::Geo.name()) == without.member(RoomField::Geo.name()));
        assert(with.member(RoomField::RtmpGeo.name()) == without.member(RoomField::RtmpGeo.name()));
        assert(with.member(RoomField::EnableTerseLogging.name())
            == without.member(RoomField::EnableTerseLogging.name()));
        assert(with.member(RoomField::RecordingsTemplate.name())
            == without.member(RoomField::RecordingsTemplate.name()));
        assert(with.member(RoomField::RecordingsBucket.name())
            == without.member(RoomField::RecordingsBucket.name()));
        assert(with.member(RoomField::SfuSwitchover.name())
            == without.member(RoomField::SfuSwitchover.name()));
    }
}

impl RoomPropertiesView {
    /// The default of a setting, as the JSON value that stands for it: nothing
    /// for a setting that has none.
    pub open spec fn default_of(field: RoomField) -> Option<JsonView> {
        match field {
            RoomField::Nbf => None,
            RoomField::Exp => None,
            RoomField::MaxParticipants => None,
            RoomField::EnablePeopleUi => None,
            RoomField::EnablePipUi => Some(<bool as ToJson>::json_of(false)),
            RoomField::EnablePrejoinUi => None,
            RoomField::EnableNetworkUi => Some(<bool as ToJson>::json_of(false)),
            RoomField::EnableKnocking => Some(<bool as ToJson>::json_of(false)),
            RoomField::EnableScreenshare => Some(<bool as ToJson>::json_of(true)),
            RoomField::EnableVideoProcessingUi => Some(<bool as ToJson>::json_of(true)),
            RoomField::EnableChat => Some(<bool as ToJson>::json_of(false)),
            RoomField::StartVideoOff => Some(<bool as ToJson>::json_of(false)),
            RoomField::StartAudioOff => Some(<bool as ToJson>::json_of(false)),
            RoomField::OwnerOnlyBroadcast => Some(<bool as ToJson>::json_of(false)),
            RoomField::EnableRecording => None,
            RoomField::EjectAtRoomExp => Some(<bool as ToJson>::json_of(false)),
            RoomField::EjectAfterElapsed => None,
            RoomField::EnableHiddenParticipants => Some(<bool as ToJson>::json_of(false)),
            RoomField::EnableMeshSfu => None,
            RoomField::ExperimentalOptimizeLargeCalls => None,
            RoomField::Lang => Some(<DailyLang as ToJson>::json_of(DailyLang::En)),
            RoomField::MeetingJoinHook => None,
            RoomField::SignalingImp => Some(<SignalingImp as ToJson>::json_of(SignalingImp::Ws)),
            RoomField::Geo => None,
            RoomField::RtmpGeo => None,
            RoomField::EnableTerseLogging => Some(<bool as ToJson>::json_of(false)),
            RoomField::RecordingsTemplate => None,
            RoomField::RecordingsBucket => None,
            RoomField::SfuSwitchover => None,
        }
    }

    /// The value of a setting, as the JSON value that stands for it: nothing for
    /// a setting that is missing.
    pub open spec fn setting(self, field: RoomField) -> Option<JsonView> {
        match field {
            RoomField::Nbf => json_of_option::<i64>(self.nbf),
            RoomField::Exp => json_of_option::<i64>(self.exp),
            RoomField::MaxParticipants => json_of_option::<usize>(self.max_participants),
            RoomField::EnablePeopleUi => json_of_option::<bool>(self.enable_people_ui),
            RoomField::EnablePipUi => Some(<bool as ToJson>::json_of(self.enable_pip_ui)),
            RoomField::EnablePrejoinUi => json_of_option::<bool>(self.enable_prejoin_ui),
            RoomField::EnableNetworkUi => Some(<bool as ToJson>::json_of(self.enable_network_ui)),
            RoomField::EnableKnocking => Some(<bool as ToJson>::json_of(self.enable_knocking)),
            RoomField::EnableScreenshare => Some(
                <bool as ToJson>::json_of(self.enable_screenshare),
            ),
            RoomField::EnableVideoProcessingUi => Some(
                <bool as ToJson>::json_of(self.enable_video_processing_ui),
            ),
            RoomField::EnableChat => Some(<bool as ToJson>::json_of(self.enable_chat)),
            RoomField::StartVideoOff => Some(<bool as ToJson>::json_of(self.start_video_off)),
            RoomField::StartAudioOff => Some(<bool as ToJson>::json_of(self.start_audio_off)),
            RoomField::OwnerOnlyBroadcast => Some(
                <bool as ToJson>::json_of(self.owner_only_broadcast),
            ),
            RoomField::EnableRecording => json_of_option::<RecordingType>(self.enable_recording),
            RoomField::EjectAtRoomExp => Some(<bool as ToJson>::json_of(self.eject_at_room_exp)),
            RoomField::EjectAfterElapsed => json_of_option::<i64>(self.eject_after_elapsed),
            RoomField::EnableHiddenParticipants => Some(
                <bool as ToJson>::json_of(self.enable_hidden_participants),
            ),
            RoomField::EnableMeshSfu => json_of_option::<bool>(self.enable_mesh_sfu),
            RoomField::ExperimentalOptimizeLargeCalls => json_of_option::<bool>(
                self.experimental_optimize_large_calls,
            ),
            RoomField::Lang => Some(<DailyLang as ToJson>::json_of(self.lang)),
            RoomField::MeetingJoinHook => json_of_option::<String>(self.meeting_join_hook),
            RoomField::SignalingImp => Some(<SignalingImp as ToJson>::json_of(self.signaling_imp)),
            RoomField::Geo => json_of_option::<Region>(self.geo),
            RoomField::RtmpGeo => json_of_option::<RtmpGeoRegion>(self.rtmp_geo),
            RoomField::EnableTerseLogging => Some(
                <bool as ToJson>::json_of(self.enable_terse_logging),
            ),
            RoomField::RecordingsTemplate => json_of_option::<String>(self.recordings_template),
            RoomField::RecordingsBucket => json_of_option::<RecordingsBucket>(
                self.recordings_bucket,
            ),
            RoomField::SfuSwitchover => json_of_option::<Numeral>(self.sfu_switchover),
        }
    }

    /// A setting with a default has its default in what is read from a value
    /// that has no member of its name; a setting without one is then missing.
    pub proof fn lemma_absent_is_default(v: JsonView, field: RoomField)
        requires
            RoomProperties::of_json(v) is Some,
            v.member(field.name()) is None,
        ensures
            RoomProperties::of_json(v).unwrap().setting(field) == Self::default_of(field),
    {
        reveal(read_optional);
        reveal(read_present);
        reveal(value_or);
    }
}

} // verus!
