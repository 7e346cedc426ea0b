//! The user's library of saved albums, shows and tracks.
use vstd::prelude::*;
use crate::batch::{ids_in_body, ids_in_query, ids_body_requests, ids_query_requests};
use crate::chunk::chunks;
use crate::request::{Method, RequestDescriptor, api, api_url_with, pairs_view, plain, plain_request_with};
use crate::text::texts;

verus! {

#[derive(Clone, Debug, Default)]
pub struct CheckSavedRequest {
    pub ids: Vec<String>,
}

#[derive(Clone, Debug, Default)]
pub struct GetSavedRequest {
    pub offset: Option<u32>,
    pub limit: Option<u32>,
    pub market: Option<isocountry::CountryCode>,
}

#[derive(Clone, Debug, Default)]
pub struct RemoveSavedRequest {
    pub ids: Vec<String>,
}

#[derive(Clone, Debug, Default)]
pub struct SaveRequest {
    pub ids: Vec<String>,
}

/// What the library holds.
#[derive(Clone, Copy, Debug, PartialEq, Eq, Structural)]
pub enum ObjectType {
    Albums,
    Shows,
    Tracks,
}

pub open spec fn collection_name(t: ObjectType) -> Seq<char> {
    match t {
        ObjectType::Albums => "albums"@,
        ObjectType::Shows => "shows"@,
        ObjectType::Tracks => "tracks"@,
    }
}

impl ObjectType {
    pub fn as_str(&self) -> (r: &'static str)
        ensures
            r@ == collection_name(*self),
    {
        match self {
            ObjectType::Albums => "albums",
            ObjectType::Shows => "shows",
            ObjectType::Tracks => "tracks",
        }
    }
}

/// At most this many ids per request.
pub const IDS_PER_REQUEST: usize = 50;

/// Whether each item is saved: one request per chunk.
pub fn is_saved_requests(object_type: ObjectType, ids: Vec<String>) -> (r: Vec<RequestDescriptor>)
    ensures
        r.len() == chunks(ids@, IDS_PER_REQUEST as nat).len(),
        forall|i: int|
            0 <= i < r.len() ==> (#[trigger] r[i])@ == ids_in_query(
                Method::Get,
                api("me/"@ + collection_name(object_type) + "/contains"@),
                Seq::empty(),
                texts(chunks(ids@, IDS_PER_REQUEST as nat)[i]),
            ),
{
    let url = api_url_with("me/", object_type.as_str(), "/contains");
    let prefix: Vec<(String, String)> = Vec::new();
    assert(pairs_view(prefix@) =~= Seq::<(Seq<char>, Seq<char>)>::empty());
    ids_query_requests(Method::Get, url.as_str(), &prefix, ids, IDS_PER_REQUEST)
}

/// The saved items of one kind.
pub fn saved_request(object_type: ObjectType) -> (r: RequestDescriptor)
    ensures
        r@ == plain(Method::Get, api("me/"@ + collection_name(object_type) + ""@)),
{
    plain_request_with(Method::Get, "me/", object_type.as_str(), "")
}

/// Removes items from the library: one request per chunk.
pub fn remove_saved_requests(object_type: ObjectType, ids: Vec<String>) -> (r: Vec<RequestDescriptor>)
    ensures
        r.len() == chunks(ids@, IDS_PER_REQUEST as nat).len(),
        forall|i: int|
            0 <= i < r.len() ==> (#[trigger] r[i])@ == ids_in_body(
                Method::Delete,
                api("me/"@ + collection_name(object_type) + ""@),
                Seq::empty(),
                texts(chunks(ids@, IDS_PER_REQUEST as nat)[i]),
            ),
{
    let url = api_url_with("me/", object_type.as_str(), "");
    let prefix: Vec<(String, String)> = Vec::new();
    assert(pairs_view(prefix@) =~= Seq::<(Seq<char>, Seq<char>)>::empty());
    ids_body_requests(Method::Delete, url.as_str(), &prefix, ids, IDS_PER_REQUEST)
}

/// Saves items to the library: one request per chunk.
pub fn save_requests(object_type: ObjectType, ids: Vec<String>) -> (r: Vec<RequestDescriptor>)
    ensures
        r.len() == chunks(ids@, IDS_PER_REQUEST as nat).len(),
        forall|i: int|
            0 <= i < r.len() ==> (#[trigger] r[i])@ == ids_in_body(
                Method::Put,
                api("me/"@ + collection_name(object_type) + ""@),
                Seq::empty(),
                texts(chunks(ids@, IDS_PER_REQUEST as nat)[i]),
            ),
{
    let url = api_url_with("me/", object_type.as_str(), "");
    let prefix: Vec<(String, String)> = Vec::new();
    assert(pairs_view(prefix@) =~= Seq::<(Seq<char>, Seq<char>)>::empty());
    ids_body_requests(Method::Put, url.as_str(), &prefix, ids, IDS_PER_REQUEST)
}

} // verus!
