//! Follow relationships between the user and artists, users and playlists.
use vstd::prelude::*;
use crate::artist::Artist;
use crate::batch::{ids_in_body, ids_in_query, ids_body_requests, ids_query_requests};
use crate::chunk::chunks;
use crate::json::{bool_member, json_member, json_object, object};
use crate::object::CursorPagingObject;
use crate::request::{
    Method, RequestDescriptor, api, api_url, api_url_with, opt_pair, opt_text, pair, pairs_view, plain,
    plain_request_with, push_opt, with_body, with_query,
};
use crate::text::{bool_text, texts};

verus! {

#[derive(Clone, Debug, Default)]
pub struct CheckFollowRequest {
    pub ids: Vec<String>,
}

#[derive(Clone, Debug, Default)]
pub struct CheckUserFollowPlaylistRequest {
    pub playlist_id: String,
    pub user_ids: Vec<String>,
}

#[derive(Clone, Debug, Default)]
pub struct FollowRequest {
    pub ids: Vec<String>,
}

#[derive(Clone, Debug, Default)]
pub struct FollowPlaylistRequest {
    pub id: String,
    pub public: Option<bool>,
}

#[derive(Clone, Debug, Default)]
pub struct GetUserFollowedArtistRequest {
    pub object_type: ObjectType,
    pub limit: Option<u32>,
    pub after: Option<String>,
}

#[derive(Clone, Debug, Default)]
pub struct GetUserFollowedArtistResponse {
    pub artists: CursorPagingObject<Artist>,
}

#[derive(Clone, Debug, Default)]
pub struct UnfollowRequest {
    pub ids: Vec<String>,
}

#[derive(Clone, Debug, Default)]
pub struct UnfollowPlaylistRequest {
    pub id: String,
}

/// What can be followed by id.
#[derive(Clone, Copy, Debug, PartialEq, Eq, Structural)]
pub enum ObjectType {
    Artist,
    User,
}

impl Default for ObjectType {
    fn default() -> (r: Self)
        ensures
            r == ObjectType::Artist,
    {
        ObjectType::Artist
    }
}

pub open spec fn followable_name(t: ObjectType) -> Seq<char> {
    match t {
        ObjectType::Artist => "artist"@,
        ObjectType::User => "user"@,
    }
}

impl ObjectType {
    pub fn as_str(&self) -> (r: &'static str)
        ensures
            r@ == followable_name(*self),
    {
        match self {
            ObjectType::Artist => "artist",
            ObjectType::User => "user",
        }
    }
}

/// At most this many artists or users per request.
pub const IDS_PER_REQUEST: usize = 50;

/// At most this many users per playlist-follower check.
pub const USERS_PER_CHECK: usize = 5;

fn type_query(object_type: ObjectType) -> (r: Vec<(String, String)>)
    ensures
        pairs_view(r@) == seq![("type"@, followable_name(object_type))],
{
    let mut q: Vec<(String, String)> = Vec::new();
    q.push(pair("type", String::from_str(object_type.as_str())));
    assert(pairs_view(q@) =~= seq![("type"@, followable_name(object_type))]);
    q
}

/// Whether the user follows each artist or user: one request per chunk.
pub fn is_following_requests(object_type: ObjectType, ids: Vec<String>) -> (r: Vec<RequestDescriptor>)
    ensures
        r.len() == chunks(ids@, IDS_PER_REQUEST as nat).len(),
        forall|i: int|
            0 <= i < r.len() ==> (#[trigger] r[i])@ == ids_in_query(
                Method::Get,
                api("me/following/contains"@),
                seq![("type"@, followable_name(object_type))],
                texts(chunks(ids@, IDS_PER_REQUEST as nat)[i]),
            ),
{
    let url = api_url("me/following/contains");
    ids_query_requests(Method::Get, url.as_str(), &type_query(object_type), ids, IDS_PER_REQUEST)
}

/// Whether each user follows a playlist: one request per chunk.
pub fn is_users_following_playlist_requests(request: CheckUserFollowPlaylistRequest) -> (r: Vec<RequestDescriptor>)
    ensures
        r.len() == chunks(request.user_ids@, USERS_PER_CHECK as nat).len(),
        forall|i: int|
            0 <= i < r.len() ==> (#[trigger] r[i])@ == ids_in_query(
                Method::Get,
                api("playlists/"@ + request.playlist_id@ + "/followers/contains"@),
                Seq::empty(),
                texts(chunks(request.user_ids@, USERS_PER_CHECK as nat)[i]),
            ),
{
    let url = api_url_with("playlists/", request.playlist_id.as_str(), "/followers/contains");
    let prefix: Vec<(String, String)> = Vec::new();
    assert(pairs_view(prefix@) =~= Seq::<(Seq<char>, Seq<char>)>::empty());
    ids_query_requests(Method::Get, url.as_str(), &prefix, request.user_ids, USERS_PER_CHECK)
}

/// Follows artists or users: one request per chunk.
pub fn follow_requests(object_type: ObjectType, ids: Vec<String>) -> (r: Vec<RequestDescriptor>)
    ensures
        r.len() == chunks(ids@, IDS_PER_REQUEST as nat).len(),
        forall|i: int|
            0 <= i < r.len() ==> (#[trigger] r[i])@ == ids_in_body(
                Method::Put,
                api("me/following"@),
                seq![("type"@, followable_name(object_type))],
                texts(chunks(ids@, IDS_PER_REQUEST as nat)[i]),
            ),
{
    let url = api_url("me/following");
    ids_body_requests(Method::Put, url.as_str(), &type_query(object_type), ids, IDS_PER_REQUEST)
}

/// Unfollows artists or users: one request per chunk.
pub fn unfollow_requests(object_type: ObjectType, ids: Vec<String>) -> (r: Vec<RequestDescriptor>)
    ensures
        r.len() == chunks(ids@, IDS_PER_REQUEST as nat).len(),
        forall|i: int|
            0 <= i < r.len() ==> (#[trigger] r[i])@ == ids_in_body(
                Method::Delete,
                api("me/following"@),
                seq![("type"@, followable_name(object_type))],
                texts(chunks(ids@, IDS_PER_REQUEST as nat)[i]),
            ),
{
    let url = api_url("me/following");
    ids_body_requests(Method::Delete, url.as_str(), &type_query(object_type), ids, IDS_PER_REQUEST)
}

/// Follows a playlist, publicly unless asked otherwise.
pub fn follow_playlist_request(request: &FollowPlaylistRequest) -> (r: RequestDescriptor)
    ensures
        r@ == with_body(
            Method::Put,
            api("playlists/"@ + request.id@ + "/followers"@),
            Seq::empty(),
            json_object(seq![json_member("public"@, bool_text(request.public.unwrap_or(true)))]),
        ),
{
    let public = match request.public {
        Some(p) => p,
        None => true,
    };
    let mut members: Vec<String> = Vec::new();
    members.push(bool_member("public", public));
    assert(texts(members@) =~= seq![json_member("public"@, bool_text(public))]);
    let r = RequestDescriptor {
        method: Method::Put,
        url: api_url_with("playlists/", request.id.as_str(), "/followers"),
        query: Vec::new(),
        body: Some(object(&members)),
    };
    assert(r@.query =~= Seq::<(Seq<char>, Seq<char>)>::empty());
    r
}

/// The artists the user follows, from the cursor `after` where given.
pub fn followed_artists_request(request: &GetUserFollowedArtistRequest) -> (r: RequestDescriptor)
    ensures
        r@ == with_query(
            Method::Get,
            api("me/following"@),
            seq![("type"@, followable_name(request.object_type))] + opt_pair("after"@, opt_text(request.after)),
        ),
{
    let mut query = type_query(request.object_type);
    let after = match &request.after {
        Some(a) => Some(a.clone()),
        None => None,
    };
    push_opt(&mut query, "after", after);
    RequestDescriptor { method: Method::Get, url: api_url("me/following"), query, body: None }
}

pub fn unfollow_playlist_request(request: &UnfollowPlaylistRequest) -> (r: RequestDescriptor)
    ensures
        r@ == plain(Method::Delete, api("playlists/"@ + request.id@ + "/followers"@)),
{
    plain_request_with(Method::Delete, "playlists/", request.id.as_str(), "/followers")
}

} // verus!
