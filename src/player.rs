//! Playback: the user's devices, what is playing, and playback control.
use vstd::prelude::*;
use crate::json::{
    array, json_array, json_member, json_object, json_string, json_string_of, json_strings, member,
    number_member, object, opt_member, push_member, string_array, string_member, bool_opt, opt_json_bool,
};
use crate::request::{
    Method, RequestDescriptor, api, api_url, copy_opt, opt_pair, opt_text, pair, pairs_view, plain,
    plain_request, push_opt, with_body, with_query,
};
use crate::text::{bool_string, bool_text, decimal, decimal_text, join, joined, texts};

verus! {

#[derive(Clone, Debug, Default)]
pub struct AddItemRequest {
    pub uri: String,
    pub device_id: Option<String>,
}

#[derive(Clone, Debug, Default)]
pub struct GetDevicesResponse {
    pub devices: Vec<Device>,
}

#[derive(Clone, Debug, Default)]
pub struct GetCurrentlyRequest {
    pub market: Option<isocountry::CountryCode>,
    pub additional_types: Option<Vec<ObjectType>>,
}

#[derive(Clone, Debug, Default)]
pub struct GetRecentlyPlayedTracksRequest {
    pub limit: Option<u32>,
    pub after: Option<usize>,
    pub before: Option<usize>,
}

#[derive(Clone, Debug, Default)]
pub struct PauseRequest {
    pub device_id: Option<String>,
}

#[derive(Clone, Debug, Default)]
pub struct SeekRequest {
    pub position_ms: usize,
    pub device_id: Option<String>,
}

#[derive(Clone, Debug, Default)]
pub struct SetRepeatModeRequest {
    pub state: RepeatState,
    pub device_id: Option<String>,
}

#[derive(Clone, Debug, Default)]
pub struct SetVolumeRequest {
    pub volume_percent: u32,
    pub device_id: Option<String>,
}

#[derive(Clone, Debug, Default)]
pub struct SkipRequest {
    pub device_id: Option<String>,
}

/// Where in a context playback starts.
#[derive(Clone, Debug, PartialEq, Eq)]
pub enum PlayOffset {
    /// The item at this zero-based position.
    Position(u32),
    /// The item with this URI.
    Uri(String),
}

#[derive(Clone, Debug, Default)]
pub struct StartRequest {
    pub context_uri: Option<String>,
    pub uris: Option<Vec<String>>,
    pub offset: Option<PlayOffset>,
    pub position_ms: Option<usize>,
    pub device_id: Option<String>,
}

#[derive(Clone, Debug, Default)]
pub struct TransferPlaybackRequest {
    pub device_id: String,
    pub play: Option<bool>,
}

#[derive(Clone, Debug, Default)]
pub struct ToggleShuffleRequest {
    pub state: bool,
    pub device_id: Option<String>,
}

#[derive(Clone, Debug, Default)]
pub struct Device {
    pub id: Option<String>,
    pub is_active: bool,
    pub is_private_session: bool,
    pub is_restricted: bool,
    pub name: String,
    pub device_type: DeviceType,
    pub volume_percent: Option<u32>,
}

#[derive(Clone, Copy, Debug, PartialEq, Eq, Structural)]
pub enum DeviceType {
    Computer,
    Tablet,
    Smartphone,
    Speaker,
    TV,
    AVR,
    STB,
    AudioDongle,
    GameConsole,
    CastVideo,
    CastAudio,
    Automobile,
    Unknown,
}

impl Default for DeviceType {
    fn default() -> (r: Self)
        ensures
            r == DeviceType::Unknown,
    {
        DeviceType::Unknown
    }
}

#[derive(Clone, Debug, Default)]
pub struct Context {
    pub uri: String,
    pub href: Option<String>,
    pub device_type: String,
}

#[derive(Clone, Copy, Debug, PartialEq, Eq, Structural)]
pub enum RepeatState {
    Track,
    Context,
    Off,
}

impl Default for RepeatState {
    fn default() -> (r: Self)
        ensures
            r == RepeatState::Off,
    {
        RepeatState::Off
    }
}

pub open spec fn repeat_name(s: RepeatState) -> Seq<char> {
    match s {
        RepeatState::Track => "track"@,
        RepeatState::Context => "context"@,
        RepeatState::Off => "off"@,
    }
}

impl RepeatState {
    pub fn as_str(&self) -> (r: &'static str)
        ensures
            r@ == repeat_name(*self),
    {
        match self {
            RepeatState::Track => "track",
            RepeatState::Context => "context",
            RepeatState::Off => "off",
        }
    }
}

/// What is playing.
#[derive(Clone, Copy, Debug, PartialEq, Eq, Structural)]
pub enum ObjectType {
    Episode,
    Track,
    Ad,
    Unknown,
}

impl Default for ObjectType {
    fn default() -> (r: Self)
        ensures
            r == ObjectType::Unknown,
    {
        ObjectType::Unknown
    }
}

/// The name of an item type; only episodes and tracks have one.
pub open spec fn item_name(t: ObjectType) -> Seq<char> {
    match t {
        ObjectType::Episode => "episode"@,
        ObjectType::Track => "track"@,
        _ => ""@,
    }
}

impl ObjectType {
    pub fn as_str(&self) -> (r: &'static str)
        ensures
            r@ == item_name(*self),
    {
        match self {
            ObjectType::Episode => "episode",
            ObjectType::Track => "track",
            _ => "",
        }
    }
}

/// A playback command.
#[derive(Clone, Copy, Debug, PartialEq, Eq, Structural)]
pub enum ActionType {
    Pause,
    Seek,
    SetRepeatMode,
    SetVolume,
    SkipNext,
    SkipPrevious,
    ToggleShuffle,
}

pub open spec fn action_name(a: ActionType) -> Seq<char> {
    match a {
        ActionType::Pause => "pause"@,
        ActionType::Seek => "seek"@,
        ActionType::SetRepeatMode => "repeat"@,
        ActionType::SetVolume => "volume"@,
        ActionType::SkipNext => "next"@,
        ActionType::SkipPrevious => "previous"@,
        ActionType::ToggleShuffle => "shuffle"@,
    }
}

/// Skips are POSTed; every other command is a PUT.
pub open spec fn action_method(a: ActionType) -> Method {
    match a {
        ActionType::SkipNext | ActionType::SkipPrevious => Method::Post,
        _ => Method::Put,
    }
}

impl ActionType {
    pub fn as_str(&self) -> (r: &'static str)
        ensures
            r@ == action_name(*self),
    {
        match self {
            ActionType::Pause => "pause",
            ActionType::Seek => "seek",
            ActionType::SetRepeatMode => "repeat",
            ActionType::SetVolume => "volume",
            ActionType::SkipNext => "next",
            ActionType::SkipPrevious => "previous",
            ActionType::ToggleShuffle => "shuffle",
        }
    }

    pub fn to_method(self) -> (r: Method)
        ensures
            r == action_method(self),
    {
        match self {
            ActionType::SkipNext | ActionType::SkipPrevious => Method::Post,
            ActionType::Pause | ActionType::Seek | ActionType::SetRepeatMode | ActionType::SetVolume => Method::Put,
            ActionType::ToggleShuffle => Method::Put,
        }
    }
}

/// Queues an item, on the chosen device where one is chosen.
pub fn add_item_request(request: &AddItemRequest) -> (r: RequestDescriptor)
    ensures
        r@ == with_query(
            Method::Post,
            api("me/player/queue"@),
            seq![("uri"@, request.uri@)] + opt_pair("device_id"@, opt_text(request.device_id)),
        ),
{
    let mut query: Vec<(String, String)> = Vec::new();
    query.push(pair("uri", request.uri.clone()));
    let ghost q0 = pairs_view(query@);
    assert(q0 =~= seq![("uri"@, request.uri@)]);
    push_opt(&mut query, "device_id", copy_opt(&request.device_id));
    RequestDescriptor { method: Method::Post, url: api_url("me/player/queue"), query, body: None }
}

pub fn devices_request() -> (r: RequestDescriptor)
    ensures
        r@ == plain(Method::Get, api("me/player/devices"@)),
{
    plain_request(Method::Get, "me/player/devices")
}

/// The item types' names separated by commas.
pub open spec fn item_list(types: Seq<ObjectType>) -> Seq<char> {
    joined(types.map_values(|t: ObjectType| item_name(t)), ","@)
}

fn item_names(types: &Vec<ObjectType>) -> (r: String)
    ensures
        r@ == item_list(types@),
{
    let mut names: Vec<String> = Vec::new();
    let mut i: usize = 0;
    while i < types.len()
        invariant
            i <= types.len(),
            texts(names@) == types@.subrange(0, i as int).map_values(|t: ObjectType| item_name(t)),
        decreases types.len() - i,
    {
        let ghost n0 = texts(names@);
        let name = String::from_str(types[i].as_str());
        names.push(name);
        assert(texts(names@) =~= n0.push(item_name(types@[i as int])));
        assert(types@.subrange(0, i + 1).map_values(|t: ObjectType| item_name(t)) =~= types@.subrange(
            0,
            i as int,
        ).map_values(|t: ObjectType| item_name(t)).push(item_name(types@[i as int])));
        i += 1;
    }
    assert(types@.subrange(0, types.len() as int) =~= types@);
    join(&names, ",")
}

/// The query that asks for additional item types, where some are given.
pub open spec fn additional_types_query(request: GetCurrentlyRequest) -> Seq<(Seq<char>, Seq<char>)> {
    opt_pair(
        "additional_types"@,
        match request.additional_types {
            Some(t) => Some(item_list(t@)),
            None => None,
        },
    )
}

fn current_request(path: &str, request: &GetCurrentlyRequest) -> (r: RequestDescriptor)
    ensures
        r@ == with_query(Method::Get, api(path@), additional_types_query(*request)),
{
    let mut query: Vec<(String, String)> = Vec::new();
    match &request.additional_types {
        Some(t) => query.push(pair("additional_types", item_names(t))),
        None => {},
    }
    let r = RequestDescriptor { method: Method::Get, url: api_url(path), query, body: None };
    assert(r@.query =~= additional_types_query(*request));
    r
}

/// Whether an answer to a playback-state request carries a body: only 200
/// does; 204 means nothing is playing.
pub fn current_has_body(status: u16) -> (r: bool)
    ensures
        r == (status == 200),
{
    status == 200
}

/// The playback state: device, progress, repeat and shuffle.
pub fn current_playback_request(request: &GetCurrentlyRequest) -> (r: RequestDescriptor)
    ensures
        r@ == with_query(Method::Get, api("me/player"@), additional_types_query(*request)),
{
    current_request("me/player", request)
}

/// The item currently playing.
pub fn currently_playing_request(request: &GetCurrentlyRequest) -> (r: RequestDescriptor)
    ensures
        r@ == with_query(Method::Get, api("me/player/currently-playing"@), additional_types_query(*request)),
{
    current_request("me/player/currently-playing", request)
}

pub open spec fn opt_decimal(o: Option<usize>) -> Option<Seq<char>> {
    match o {
        Some(n) => Some(decimal(n as nat)),
        None => None,
    }
}

fn decimal_opt(o: Option<usize>) -> (r: Option<String>)
    ensures
        opt_text(r) == opt_decimal(o),
{
    match o {
        Some(n) => Some(decimal_text(n as u64)),
        None => None,
    }
}

/// The recently played tracks, after or before the given times where given.
pub fn recently_played_request(request: &GetRecentlyPlayedTracksRequest) -> (r: RequestDescriptor)
    ensures
        r@ == with_query(
            Method::Get,
            api("me/player/recently-played"@),
            opt_pair("after"@, opt_decimal(request.after)) + opt_pair("before"@, opt_decimal(request.before)),
        ),
{
    let mut query: Vec<(String, String)> = Vec::new();
    push_opt(&mut query, "after", decimal_opt(request.after));
    push_opt(&mut query, "before", decimal_opt(request.before));
    let r = RequestDescriptor {
        method: Method::Get,
        url: api_url("me/player/recently-played"),
        query,
        body: None,
    };
    assert(r@.query =~= opt_pair("after"@, opt_decimal(request.after)) + opt_pair(
        "before"@,
        opt_decimal(request.before),
    ));
    r
}

/// A playback command with its parameters, on the chosen device where one is chosen.
pub open spec fn action_model(
    a: ActionType,
    query: Seq<(Seq<char>, Seq<char>)>,
    device_id: Option<Seq<char>>,
) -> crate::request::RequestModel {
    with_query(action_method(a), api("me/player/"@ + action_name(a)), query + opt_pair("device_id"@, device_id))
}

pub fn action_request(action_type: ActionType, query: Vec<(String, String)>, device_id: Option<String>) -> (r:
    RequestDescriptor)
    ensures
        r@ == action_model(action_type, pairs_view(query@), opt_text(device_id)),
{
    let mut query = query;
    push_opt(&mut query, "device_id", device_id);
    let mut url = api_url("me/player/");
    url.append(action_type.as_str());
    assert(url@ =~= api("me/player/"@ + action_name(action_type)));
    RequestDescriptor { method: action_type.to_method(), url, query, body: None }
}

fn no_pairs() -> (r: Vec<(String, String)>)
    ensures
        pairs_view(r@) == Seq::<(Seq<char>, Seq<char>)>::empty(),
{
    let r: Vec<(String, String)> = Vec::new();
    assert(pairs_view(r@) =~= Seq::<(Seq<char>, Seq<char>)>::empty());
    r
}

fn one_pair(key: &str, value: String) -> (r: Vec<(String, String)>)
    ensures
        pairs_view(r@) == seq![(key@, value@)],
{
    let mut r: Vec<(String, String)> = Vec::new();
    r.push(pair(key, value));
    assert(pairs_view(r@) =~= seq![(key@, value@)]);
    r
}

pub fn pause_request(request: &PauseRequest) -> (r: RequestDescriptor)
    ensures
        r@ == action_model(ActionType::Pause, Seq::empty(), opt_text(request.device_id)),
{
    action_request(ActionType::Pause, no_pairs(), copy_opt(&request.device_id))
}

pub fn seek_request(request: &SeekRequest) -> (r: RequestDescriptor)
    ensures
        r@ == action_model(
            ActionType::Seek,
            seq![("position_ms"@, decimal(request.position_ms as nat))],
            opt_text(request.device_id),
        ),
{
    action_request(
        ActionType::Seek,
        one_pair("position_ms", decimal_text(request.position_ms as u64)),
        copy_opt(&request.device_id),
    )
}

pub fn set_repeat_mode_request(request: &SetRepeatModeRequest) -> (r: RequestDescriptor)
    ensures
        r@ == action_model(
            ActionType::SetRepeatMode,
            seq![("state"@, repeat_name(request.state))],
            opt_text(request.device_id),
        ),
{
    action_request(
        ActionType::SetRepeatMode,
        one_pair("state", String::from_str(request.state.as_str())),
        copy_opt(&request.device_id),
    )
}

pub fn set_volume_request(request: &SetVolumeRequest) -> (r: RequestDescriptor)
    ensures
        r@ == action_model(
            ActionType::SetVolume,
            seq![("volume_percent"@, decimal(request.volume_percent as nat))],
            opt_text(request.device_id),
        ),
{
    action_request(
        ActionType::SetVolume,
        one_pair("volume_percent", decimal_text(request.volume_percent as u64)),
        copy_opt(&request.device_id),
    )
}

pub fn skip_next_request(request: &SkipRequest) -> (r: RequestDescriptor)
    ensures
        r@ == action_model(ActionType::SkipNext, Seq::empty(), opt_text(request.device_id)),
{
    action_request(ActionType::SkipNext, no_pairs(), copy_opt(&request.device_id))
}

pub fn skip_previous_request(request: &SkipRequest) -> (r: RequestDescriptor)
    ensures
        r@ == action_model(ActionType::SkipPrevious, Seq::empty(), opt_text(request.device_id)),
{
    action_request(ActionType::SkipPrevious, no_pairs(), copy_opt(&request.device_id))
}

pub fn toggle_shuffle_request(request: &ToggleShuffleRequest) -> (r: RequestDescriptor)
    ensures
        r@ == action_model(
            ActionType::ToggleShuffle,
            seq![("state"@, bool_text(request.state))],
            opt_text(request.device_id),
        ),
{
    action_request(ActionType::ToggleShuffle, one_pair("state", bool_string(request.state)), copy_opt(&request.device_id))
}

/// The JSON of a start offset.
pub open spec fn offset_json(o: PlayOffset) -> Seq<char> {
    match o {
        PlayOffset::Position(n) => json_object(seq![json_member("position"@, decimal(n as nat))]),
        PlayOffset::Uri(u) => json_object(seq![json_member("uri"@, json_string_of(u@))]),
    }
}

fn offset_document(o: &PlayOffset) -> (r: String)
    ensures
        r@ == offset_json(*o),
{
    let mut members: Vec<String> = Vec::new();
    match o {
        PlayOffset::Position(n) => {
            members.push(number_member("position", *n as u64));
        },
        PlayOffset::Uri(u) => {
            members.push(string_member("uri", u.as_str()));
        },
    }
    assert(texts(members@) =~= match *o {
        PlayOffset::Position(n) => seq![json_member("position"@, decimal(n as nat))],
        PlayOffset::Uri(u) => seq![json_member("uri"@, json_string_of(u@))],
    });
    object(&members)
}

/// The members of a start body: the context, or else the items, to play;
/// then the offset and position where given.
pub open spec fn start_members(r: StartRequest) -> Seq<Seq<char>> {
    (match r.context_uri {
        Some(c) => seq![json_member("context_uri"@, json_string_of(c@))],
        None => match r.uris {
            Some(u) => seq![json_member("uris"@, json_array(json_strings(texts(u@))))],
            None => Seq::empty(),
        },
    }) + opt_member(
        "offset"@,
        match r.offset {
            Some(o) => Some(offset_json(o)),
            None => None,
        },
    ) + opt_member("position_ms"@, opt_decimal(r.position_ms))
}

/// Starting or resuming playback: with no request, a bare resume; with one,
/// its device in the query and what to play in the body.
pub open spec fn start_model(request: Option<StartRequest>) -> crate::request::RequestModel {
    match request {
        None => plain(Method::Put, api("me/player/play"@)),
        Some(r) => with_body(
            Method::Put,
            api("me/player/play"@),
            opt_pair("device_id"@, opt_text(r.device_id)),
            json_object(start_members(r)),
        ),
    }
}

pub fn start_request(request: &Option<StartRequest>) -> (r: RequestDescriptor)
    ensures
        r@ == start_model(*request),
{
    match request {
        None => plain_request(Method::Put, "me/player/play"),
        Some(req) => {
            let mut query: Vec<(String, String)> = Vec::new();
            push_opt(&mut query, "device_id", copy_opt(&req.device_id));
            let mut members: Vec<String> = Vec::new();
            match &req.context_uri {
                Some(c) => members.push(string_member("context_uri", c.as_str())),
                None => match &req.uris {
                    Some(u) => members.push(member("uris", string_array(u))),
                    None => {},
                },
            }
            let ghost m0 = texts(members@);
            let offset = match &req.offset {
                Some(o) => Some(offset_document(o)),
                None => None,
            };
            push_member(&mut members, "offset", offset);
            push_member(&mut members, "position_ms", decimal_opt(req.position_ms));
            assert(texts(members@) =~= start_members(*req));
            let r = RequestDescriptor {
                method: Method::Put,
                url: api_url("me/player/play"),
                query,
                body: Some(object(&members)),
            };
            assert(pairs_view(r.query@) =~= opt_pair("device_id"@, opt_text(req.device_id)));
            r
        },
    }
}

/// Moves playback to a device, and plays or keeps the state as asked.
pub fn transfer_playback_request(request: &TransferPlaybackRequest) -> (r: RequestDescriptor)
    ensures
        r@ == with_body(
            Method::Put,
            api("me/player"@),
            Seq::empty(),
            json_object(
                seq![json_member("device_ids"@, json_array(seq![json_string_of(request.device_id@)]))]
                    + opt_member("play"@, opt_json_bool(request.play)),
            ),
        ),
{
    let mut ids: Vec<String> = Vec::new();
    ids.push(json_string(request.device_id.as_str()));
    let mut members: Vec<String> = Vec::new();
    assert(texts(ids@) =~= seq![json_string_of(request.device_id@)]);
    members.push(member("device_ids", array(&ids)));
    push_member(&mut members, "play", bool_opt(request.play));
    assert(texts(members@) =~= seq![json_member("device_ids"@, json_array(seq![json_string_of(request.device_id@)]))]
        + opt_member("play"@, opt_json_bool(request.play)));
    let r = RequestDescriptor { method: Method::Put, url: api_url("me/player"), query: Vec::new(), body: Some(object(&members)) };
    assert(pairs_view(r.query@) =~= Seq::<(Seq<char>, Seq<char>)>::empty());
    r
}

} // verus!
