//! Albums: their records and the requests that fetch them.
use vstd::prelude::*;
use crate::artist::SimpleArtist;
use crate::batch::{ids_in_query, ids_query_requests};
use crate::chunk::chunks;
use crate::object::{Image, PagingObject};
use crate::request::{Method, RequestDescriptor, api, api_url, pairs_view, plain, plain_request_with};
use crate::text::texts;
use crate::track::SimpleTrack;

verus! {

#[derive(Clone, Debug, Default)]
pub struct Album {
    pub album_type: String,
    pub artists: Vec<SimpleArtist>,
    pub available_markets: Vec<String>,
    pub genres: Vec<String>,
    pub href: String,
    pub id: String,
    pub images: Vec<Image>,
    pub label: String,
    pub name: String,
    pub popularity: u32,
    pub release_date: String,
    pub release_date_precision: String,
    pub tracks: PagingObject<SimpleTrack>,
    pub object_type: String,
    pub uri: String,
}

#[derive(Clone, Debug, Default)]
pub struct SimpleAlbum {
    pub album_group: Option<String>,
    pub album_type: String,
    pub artists: Vec<SimpleArtist>,
    pub available_markets: Option<Vec<String>>,
    pub href: String,
    pub id: String,
    pub images: Vec<Image>,
    pub name: String,
    pub object_type: String,
    pub uri: String,
}

#[derive(Clone, Debug, Default)]
pub struct GetAlbumRequest {
    pub id: String,
    pub market: Option<isocountry::CountryCode>,
}

#[derive(Clone, Debug, Default)]
pub struct GetAlbumListRequest {
    pub ids: Vec<String>,
    pub market: Option<isocountry::CountryCode>,
}

#[derive(Clone, Debug, Default)]
pub struct GetAlbumListResponse {
    pub albums: Vec<Album>,
}

#[derive(Clone, Debug, Default)]
pub struct GetTrackListRequest {
    pub id: String,
    pub limit: Option<u32>,
    pub offset: Option<u32>,
    pub market: Option<isocountry::CountryCode>,
}

/// At most this many albums are fetched per request.
pub const ALBUMS_PER_REQUEST: usize = 20;

pub fn album_request(request: &GetAlbumRequest) -> (r: RequestDescriptor)
    ensures
        r@ == plain(Method::Get, api("albums/"@ + request.id@ + ""@)),
{
    plain_request_with(Method::Get, "albums/", request.id.as_str(), "")
}

/// One request per chunk of at most `ALBUMS_PER_REQUEST` ids, in order.
pub fn albums_requests(ids: Vec<String>) -> (r: Vec<RequestDescriptor>)
    ensures
        r.len() == chunks(ids@, ALBUMS_PER_REQUEST as nat).len(),
        forall|i: int|
            0 <= i < r.len() ==> (#[trigger] r[i])@ == ids_in_query(
                Method::Get,
                api("albums"@),
                Seq::empty(),
                texts(chunks(ids@, ALBUMS_PER_REQUEST as nat)[i]),
            ),
{
    let url = api_url("albums");
    let prefix: Vec<(String, String)> = Vec::new();
    assert(pairs_view(prefix@) =~= Seq::<(Seq<char>, Seq<char>)>::empty());
    ids_query_requests(Method::Get, url.as_str(), &prefix, ids, ALBUMS_PER_REQUEST)
}

pub fn album_tracks_request(request: &GetTrackListRequest) -> (r: RequestDescriptor)
    ensures
        r@ == plain(Method::Get, api("albums/"@ + request.id@ + "/tracks"@)),
{
    plain_request_with(Method::Get, "albums/", request.id.as_str(), "/tracks")
}

} // verus!
