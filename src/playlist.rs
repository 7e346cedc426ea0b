//! Playlists: their records, and the requests that read and change them.
use vstd::prelude::*;
use crate::chunk::{chunk, chunks, views};
use crate::json::{
    json_array, json_member, json_numbers, json_object, json_string_of, json_strings, member, number_array,
    number_member, object, opt_json_bool, opt_json_number, opt_json_string, opt_member, push_member,
    quoted_opt, bool_opt, number_opt, string_array, string_member,
};
use crate::object::Image;
use crate::request::{
    Method, RequestDescriptor, RequestModel, api, api_url_with, opt_text, pairs_view, plain,
    plain_request, plain_request_with, with_body,
};
use crate::text::texts;
use crate::user::User;

verus! {

#[derive(Clone, Debug, Default)]
pub struct SimplePlaylist {
    pub collaborative: bool,
    pub description: Option<String>,
    pub href: String,
    pub id: String,
    pub images: Vec<Image>,
    pub name: String,
    pub owner: User,
    pub public: Option<bool>,
    pub snapshot_id: String,
    pub object_type: String,
    pub uri: String,
}

/// The version of a playlist after a change.
#[derive(Clone, Debug, Default)]
pub struct Snapshot {
    pub snapshot_id: String,
}

#[derive(Clone, Debug, Default)]
pub struct AddItemsRequest {
    pub playlist_id: String,
    pub uris: Vec<String>,
    pub position: Option<u32>,
}

#[derive(Clone, Debug, Default)]
pub struct ChangeNameRequest {
    pub playlist_id: String,
    pub name: String,
}

#[derive(Clone, Debug, Default)]
pub struct ChangePublicRequest {
    pub playlist_id: String,
    pub public: bool,
}

#[derive(Clone, Debug, Default)]
pub struct ChangeCollaborativeRequest {
    pub playlist_id: String,
    pub collaborative: bool,
}

#[derive(Clone, Debug, Default)]
pub struct ChangeDescriptionRequest {
    pub playlist_id: String,
    pub description: String,
}

#[derive(Clone, Debug, Default)]
pub struct ChangeDetailRequest {
    pub playlist_id: String,
    pub name: Option<String>,
    pub public: Option<bool>,
    pub collaborative: Option<bool>,
    pub description: Option<String>,
}

#[derive(Clone, Debug, Default)]
pub struct CreatePlaylistRequest {
    pub user_id: String,
    pub name: String,
    pub public: Option<bool>,
    pub collaborative: Option<bool>,
    pub description: Option<String>,
}

#[derive(Clone, Debug, Default)]
pub struct GetPlaylistsRequest {
    pub user_id: Option<String>,
    pub limit: Option<u32>,
    pub offset: Option<u32>,
}

#[derive(Clone, Debug, Default)]
pub struct GetImageRequest {
    pub playlist_id: String,
}

#[derive(Clone, Debug, Default)]
pub struct GetPlaylistRequest {
    pub playlist_id: String,
    pub market: Option<isocountry::CountryCode>,
}

#[derive(Clone, Debug, Default)]
pub struct GetPlaylistTracksRequest {
    pub playlist_id: String,
    pub limit: Option<u32>,
    pub offset: Option<u32>,
    pub market: Option<isocountry::CountryCode>,
}

#[derive(Clone, Debug, Default)]
pub struct RemoveItemsRequest {
    pub playlist_id: String,
    /// Each item's URI, and optionally the positions at which to remove it.
    pub tracks: Vec<(String, Option<Vec<u32>>)>,
    pub snapshot_id: Option<String>,
}

#[derive(Clone, Debug, Default)]
pub struct ReorderRequest {
    pub playlist_id: String,
    pub range_start: u32,
    pub range_length: Option<u32>,
    pub insert_before: u32,
    pub snapshot_id: Option<String>,
}

#[derive(Clone, Debug, Default)]
pub struct ReplaceRequest {
    pub playlist_id: String,
    pub uris: Vec<String>,
}

/// At most this many items are added or removed per request.
pub const ITEMS_PER_REQUEST: usize = 100;

/// The address of a playlist's items.
pub open spec fn items_url(playlist_id: Seq<char>) -> Seq<char> {
    api("playlists/"@ + playlist_id + "/tracks"@)
}

/// Adding items at a position (or at the end): `{"uris":[...],"position":n}`.
pub open spec fn add_items_model(playlist_id: Seq<char>, uris: Seq<Seq<char>>, position: Option<u32>) -> RequestModel {
    with_body(
        Method::Post,
        items_url(playlist_id),
        Seq::empty(),
        json_object(
            seq![json_member("uris"@, json_array(json_strings(uris)))] + opt_member(
                "position"@,
                opt_json_number(position),
            ),
        ),
    )
}

fn add_items_request(playlist_id: &str, uris: &Vec<String>, position: Option<u32>) -> (r: RequestDescriptor)
    ensures
        r@ == add_items_model(playlist_id@, texts(uris@), position),
{
    let mut members: Vec<String> = Vec::new();
    members.push(member("uris", string_array(uris)));
    push_member(&mut members, "position", number_opt(position));
    assert(texts(members@) =~= seq![json_member("uris"@, json_array(json_strings(texts(uris@))))] + opt_member(
        "position"@,
        opt_json_number(position),
    ));
    let r = RequestDescriptor {
        method: Method::Post,
        url: api_url_with("playlists/", playlist_id, "/tracks"),
        query: Vec::new(),
        body: Some(object(&members)),
    };
    assert(pairs_view(r.query@) =~= Seq::<(Seq<char>, Seq<char>)>::empty());
    r
}

/// Adds items, one request per chunk of at most `ITEMS_PER_REQUEST`, in order.
pub fn add_items_requests(request: AddItemsRequest) -> (r: Vec<RequestDescriptor>)
    ensures
        r.len() == chunks(request.uris@, ITEMS_PER_REQUEST as nat).len(),
        forall|i: int|
            0 <= i < r.len() ==> (#[trigger] r[i])@ == add_items_model(
                request.playlist_id@,
                texts(chunks(request.uris@, ITEMS_PER_REQUEST as nat)[i]),
                request.position,
            ),
{
    let ghost all = request.uris@;
    let parts = chunk(request.uris, ITEMS_PER_REQUEST);
    let mut r: Vec<RequestDescriptor> = Vec::new();
    let mut i: usize = 0;
    while i < parts.len()
        invariant
            i <= parts.len(),
            views(parts@) == chunks(all, ITEMS_PER_REQUEST as nat),
            r.len() == i,
            forall|j: int|
                0 <= j < i ==> (#[trigger] r[j])@ == add_items_model(
                    request.playlist_id@,
                    texts(chunks(all, ITEMS_PER_REQUEST as nat)[j]),
                    request.position,
                ),
        decreases parts.len() - i,
    {
        assert(views(parts@)[i as int] == parts@[i as int]@);
        r.push(add_items_request(request.playlist_id.as_str(), &parts[i], request.position));
        i += 1;
    }
    r
}

/// One item to remove: its URI, and the positions where given.
pub open spec fn removal_json(t: (String, Option<Vec<u32>>)) -> Seq<char> {
    json_object(
        seq![json_member("uri"@, json_string_of(t.0@))] + opt_member(
            "positions"@,
            match t.1 {
                Some(p) => Some(json_array(json_numbers(p@))),
                None => None,
            },
        ),
    )
}

/// Removing items: `{"tracks":[...],"snapshot_id":s}`.
pub open spec fn remove_items_model(
    playlist_id: Seq<char>,
    tracks: Seq<(String, Option<Vec<u32>>)>,
    snapshot_id: Option<String>,
) -> RequestModel {
    with_body(
        Method::Delete,
        items_url(playlist_id),
        Seq::empty(),
        json_object(
            seq![json_member("tracks"@, json_array(tracks.map_values(|t: (String, Option<Vec<u32>>)| removal_json(t))))]
                + opt_member("snapshot_id"@, opt_json_string(snapshot_id)),
        ),
    )
}

fn removal_document(t: &(String, Option<Vec<u32>>)) -> (r: String)
    ensures
        r@ == removal_json(*t),
{
    let mut members: Vec<String> = Vec::new();
    members.push(string_member("uri", t.0.as_str()));
    let positions = match &t.1 {
        Some(p) => Some(number_array(p)),
        None => None,
    };
    push_member(&mut members, "positions", positions);
    assert(texts(members@) =~= seq![json_member("uri"@, json_string_of(t.0@))] + opt_member(
        "positions"@,
        match t.1 {
            Some(p) => Some(json_array(json_numbers(p@))),
            None => None,
        },
    ));
    object(&members)
}

fn remove_items_request(playlist_id: &str, tracks: &Vec<(String, Option<Vec<u32>>)>, snapshot_id: &Option<String>) -> (r:
    RequestDescriptor)
    ensures
        r@ == remove_items_model(playlist_id@, tracks@, *snapshot_id),
{
    let mut entries: Vec<String> = Vec::new();
    let mut i: usize = 0;
    while i < tracks.len()
        invariant
            i <= tracks.len(),
            texts(entries@) == tracks@.subrange(0, i as int).map_values(
                |t: (String, Option<Vec<u32>>)| removal_json(t),
            ),
        decreases tracks.len() - i,
    {
        let ghost e0 = texts(entries@);
        let e = removal_document(&tracks[i]);
        entries.push(e);
        assert(texts(entries@) =~= e0.push(removal_json(tracks@[i as int])));
        assert(tracks@.subrange(0, i + 1).map_values(|t: (String, Option<Vec<u32>>)| removal_json(t))
            =~= tracks@.subrange(0, i as int).map_values(|t: (String, Option<Vec<u32>>)| removal_json(t)).push(
            removal_json(tracks@[i as int]),
        ));
        i += 1;
    }
    assert(tracks@.subrange(0, tracks.len() as int) =~= tracks@);
    let mut members: Vec<String> = Vec::new();
    members.push(member("tracks", crate::json::array(&entries)));
    push_member(&mut members, "snapshot_id", quoted_opt(snapshot_id));
    assert(texts(members@) =~= seq![json_member("tracks"@, json_array(tracks@.map_values(|t: (String, Option<Vec<u32>>)| removal_json(t))))]
        + opt_member("snapshot_id"@, opt_json_string(*snapshot_id)));
    let r = RequestDescriptor {
        method: Method::Delete,
        url: api_url_with("playlists/", playlist_id, "/tracks"),
        query: Vec::new(),
        body: Some(object(&members)),
    };
    assert(pairs_view(r.query@) =~= Seq::<(Seq<char>, Seq<char>)>::empty());
    r
}

/// Removes items, one request per chunk of at most `ITEMS_PER_REQUEST`, in order.
pub fn remove_items_requests(request: RemoveItemsRequest) -> (r: Vec<RequestDescriptor>)
    ensures
        r.len() == chunks(request.tracks@, ITEMS_PER_REQUEST as nat).len(),
        forall|i: int|
            0 <= i < r.len() ==> (#[trigger] r[i])@ == remove_items_model(
                request.playlist_id@,
                chunks(request.tracks@, ITEMS_PER_REQUEST as nat)[i],
                request.snapshot_id,
            ),
{
    let ghost all = request.tracks@;
    let parts = chunk(request.tracks, ITEMS_PER_REQUEST);
    let mut r: Vec<RequestDescriptor> = Vec::new();
    let mut i: usize = 0;
    while i < parts.len()
        invariant
            i <= parts.len(),
            views(parts@) == chunks(all, ITEMS_PER_REQUEST as nat),
            r.len() == i,
            forall|j: int|
                0 <= j < i ==> (#[trigger] r[j])@ == remove_items_model(
                    request.playlist_id@,
                    chunks(all, ITEMS_PER_REQUEST as nat)[j],
                    request.snapshot_id,
                ),
        decreases parts.len() - i,
    {
        assert(views(parts@)[i as int] == parts@[i as int]@);
        r.push(remove_items_request(request.playlist_id.as_str(), &parts[i], &request.snapshot_id));
        i += 1;
    }
    r
}

/// Changing a playlist's details: only the given ones are sent.
pub open spec fn detail_model(
    playlist_id: Seq<char>,
    name: Option<Seq<char>>,
    public: Option<bool>,
    collaborative: Option<bool>,
    description: Option<Seq<char>>,
) -> RequestModel {
    with_body(
        Method::Put,
        api("playlists/"@ + playlist_id + ""@),
        Seq::empty(),
        json_object(
            opt_member("name"@, match name { Some(n) => Some(json_string_of(n)), None => None })
                + opt_member("public"@, opt_json_bool(public))
                + opt_member("collaborative"@, opt_json_bool(collaborative))
                + opt_member("description"@, match description { Some(d) => Some(json_string_of(d)), None => None }),
        ),
    )
}

pub fn change_detail_request(request: &ChangeDetailRequest) -> (r: RequestDescriptor)
    ensures
        r@ == detail_model(
            request.playlist_id@,
            opt_text(request.name),
            request.public,
            request.collaborative,
            opt_text(request.description),
        ),
{
    let mut members: Vec<String> = Vec::new();
    assert(texts(members@) =~= Seq::<Seq<char>>::empty());
    push_member(&mut members, "name", quoted_opt(&request.name));
    push_member(&mut members, "public", bool_opt(request.public));
    push_member(&mut members, "collaborative", bool_opt(request.collaborative));
    push_member(&mut members, "description", quoted_opt(&request.description));
    let r = RequestDescriptor {
        method: Method::Put,
        url: api_url_with("playlists/", request.playlist_id.as_str(), ""),
        query: Vec::new(),
        body: Some(object(&members)),
    };
    assert(pairs_view(r.query@) =~= Seq::<(Seq<char>, Seq<char>)>::empty());
    assert(texts(members@) =~= opt_member("name"@, match opt_text(request.name) { Some(n) => Some(json_string_of(n)), None => None })
        + opt_member("public"@, opt_json_bool(request.public))
        + opt_member("collaborative"@, opt_json_bool(request.collaborative))
        + opt_member("description"@, match opt_text(request.description) { Some(d) => Some(json_string_of(d)), None => None }));
    r
}

pub fn change_name_request(request: &ChangeNameRequest) -> (r: RequestDescriptor)
    ensures
        r@ == detail_model(request.playlist_id@, Some(request.name@), None, None, None),
{
    let detail = ChangeDetailRequest {
        playlist_id: request.playlist_id.clone(),
        name: Some(request.name.clone()),
        public: None,
        collaborative: None,
        description: None,
    };
    change_detail_request(&detail)
}

pub fn change_public_request(request: &ChangePublicRequest) -> (r: RequestDescriptor)
    ensures
        r@ == detail_model(request.playlist_id@, None, Some(request.public), None, None),
{
    let detail = ChangeDetailRequest {
        playlist_id: request.playlist_id.clone(),
        name: None,
        public: Some(request.public),
        collaborative: None,
        description: None,
    };
    change_detail_request(&detail)
}

pub fn change_collaborative_request(request: &ChangeCollaborativeRequest) -> (r: RequestDescriptor)
    ensures
        r@ == detail_model(request.playlist_id@, None, None, Some(request.collaborative), None),
{
    let detail = ChangeDetailRequest {
        playlist_id: request.playlist_id.clone(),
        name: None,
        public: None,
        collaborative: Some(request.collaborative),
        description: None,
    };
    change_detail_request(&detail)
}

pub fn change_description_request(request: &ChangeDescriptionRequest) -> (r: RequestDescriptor)
    ensures
        r@ == detail_model(request.playlist_id@, None, None, None, Some(request.description@)),
{
    let detail = ChangeDetailRequest {
        playlist_id: request.playlist_id.clone(),
        name: None,
        public: None,
        collaborative: None,
        description: Some(request.description.clone()),
    };
    change_detail_request(&detail)
}

/// Creating a playlist for a user: its name, and the other details where given.
pub open spec fn create_model(request: CreatePlaylistRequest) -> RequestModel {
    with_body(
        Method::Post,
        api("users/"@ + request.user_id@ + "/playlists"@),
        Seq::empty(),
        json_object(
            seq![json_member("name"@, json_string_of(request.name@))]
                + opt_member("public"@, opt_json_bool(request.public))
                + opt_member("collaborative"@, opt_json_bool(request.collaborative))
                + opt_member("description"@, opt_json_string(request.description)),
        ),
    )
}

pub fn create_playlist_request(request: &CreatePlaylistRequest) -> (r: RequestDescriptor)
    ensures
        r@ == create_model(*request),
{
    let mut members: Vec<String> = Vec::new();
    members.push(string_member("name", request.name.as_str()));
    push_member(&mut members, "public", bool_opt(request.public));
    push_member(&mut members, "collaborative", bool_opt(request.collaborative));
    push_member(&mut members, "description", quoted_opt(&request.description));
    assert(texts(members@) =~= seq![json_member("name"@, json_string_of(request.name@))]
        + opt_member("public"@, opt_json_bool(request.public))
        + opt_member("collaborative"@, opt_json_bool(request.collaborative))
        + opt_member("description"@, opt_json_string(request.description)));
    let r = RequestDescriptor {
        method: Method::Post,
        url: api_url_with("users/", request.user_id.as_str(), "/playlists"),
        query: Vec::new(),
        body: Some(object(&members)),
    };
    assert(pairs_view(r.query@) =~= Seq::<(Seq<char>, Seq<char>)>::empty());
    r
}

/// A user's playlists, or the session user's own where no user is named.
pub fn playlists_request(request: &GetPlaylistsRequest) -> (r: RequestDescriptor)
    ensures
        r@ == plain(
            Method::Get,
            match request.user_id {
                Some(u) => api("users/"@ + u@ + "/playlists"@),
                None => api("me/playlists"@),
            },
        ),
{
    match &request.user_id {
        Some(u) => plain_request_with(Method::Get, "users/", u.as_str(), "/playlists"),
        None => plain_request(Method::Get, "me/playlists"),
    }
}

pub fn image_request(request: &GetImageRequest) -> (r: RequestDescriptor)
    ensures
        r@ == plain(Method::Get, api("playlists/"@ + request.playlist_id@ + "/images"@)),
{
    plain_request_with(Method::Get, "playlists/", request.playlist_id.as_str(), "/images")
}

pub fn playlist_request(request: &GetPlaylistRequest) -> (r: RequestDescriptor)
    ensures
        r@ == plain(Method::Get, api("playlists/"@ + request.playlist_id@ + ""@)),
{
    plain_request_with(Method::Get, "playlists/", request.playlist_id.as_str(), "")
}

pub fn playlist_tracks_request(request: &GetPlaylistTracksRequest) -> (r: RequestDescriptor)
    ensures
        r@ == plain(Method::Get, items_url(request.playlist_id@)),
{
    plain_request_with(Method::Get, "playlists/", request.playlist_id.as_str(), "/tracks")
}

/// Moving a range of items before another position.
pub open spec fn reorder_model(request: ReorderRequest) -> RequestModel {
    with_body(
        Method::Put,
        items_url(request.playlist_id@),
        Seq::empty(),
        json_object(
            seq![
                json_member("range_start"@, crate::text::decimal(request.range_start as nat)),
                json_member("insert_before"@, crate::text::decimal(request.insert_before as nat)),
            ] + opt_member("range_length"@, opt_json_number(request.range_length)) + opt_member(
                "snapshot_id"@,
                opt_json_string(request.snapshot_id),
            ),
        ),
    )
}

pub fn reorder_request(request: &ReorderRequest) -> (r: RequestDescriptor)
    ensures
        r@ == reorder_model(*request),
{
    let mut members: Vec<String> = Vec::new();
    members.push(number_member("range_start", request.range_start as u64));
    members.push(number_member("insert_before", request.insert_before as u64));
    push_member(&mut members, "range_length", number_opt(request.range_length));
    push_member(&mut members, "snapshot_id", quoted_opt(&request.snapshot_id));
    assert(texts(members@) =~= seq![
        json_member("range_start"@, crate::text::decimal(request.range_start as nat)),
        json_member("insert_before"@, crate::text::decimal(request.insert_before as nat)),
    ] + opt_member("range_length"@, opt_json_number(request.range_length)) + opt_member(
        "snapshot_id"@,
        opt_json_string(request.snapshot_id),
    ));
    let r = RequestDescriptor {
        method: Method::Put,
        url: api_url_with("playlists/", request.playlist_id.as_str(), "/tracks"),
        query: Vec::new(),
        body: Some(object(&members)),
    };
    assert(pairs_view(r.query@) =~= Seq::<(Seq<char>, Seq<char>)>::empty());
    r
}

/// Replacing all items with the given ones.
pub fn replace_request(request: &ReplaceRequest) -> (r: RequestDescriptor)
    ensures
        r@ == with_body(
            Method::Put,
            items_url(request.playlist_id@),
            Seq::empty(),
            json_object(seq![json_member("uris"@, json_array(json_strings(texts(request.uris@))))]),
        ),
{
    let mut members: Vec<String> = Vec::new();
    members.push(member("uris", string_array(&request.uris)));
    assert(texts(members@) =~= seq![json_member("uris"@, json_array(json_strings(texts(request.uris@))))]);
    let r = RequestDescriptor {
        method: Method::Put,
        url: api_url_with("playlists/", request.playlist_id.as_str(), "/tracks"),
        query: Vec::new(),
        body: Some(object(&members)),
    };
    assert(pairs_view(r.query@) =~= Seq::<(Seq<char>, Seq<char>)>::empty());
    r
}

} // verus!
