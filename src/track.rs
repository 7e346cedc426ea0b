//! Tracks: their records and the requests that fetch them.
use vstd::prelude::*;
use crate::album::SimpleAlbum;
use crate::artist::SimpleArtist;
use crate::batch::{ids_in_query, ids_query_requests};
use crate::chunk::chunks;
use crate::request::{Method, RequestDescriptor, api, plain, plain_request_with};
use crate::text::texts;

verus! {

#[derive(Clone, Debug, Default)]
pub struct Track {
    pub album: Option<SimpleAlbum>,
    pub artists: Vec<SimpleArtist>,
    pub available_markets: Option<Vec<String>>,
    pub disc_number: u32,
    pub duration_ms: u32,
    pub explicit: bool,
    pub href: String,
    pub id: String,
    pub is_playable: Option<bool>,
    pub name: String,
    pub popularity: Option<u32>,
    pub preview_url: Option<String>,
    pub track_number: u32,
    pub object_type: String,
    pub uri: String,
    pub is_local: bool,
}

#[derive(Clone, Debug, Default)]
pub struct SimpleTrack {
    pub artists: Vec<SimpleArtist>,
    pub available_markets: Option<Vec<String>>,
    pub disc_number: u32,
    pub duration_ms: u32,
    pub explicit: bool,
    pub href: String,
    pub id: String,
    pub is_playable: Option<bool>,
    pub name: String,
    pub preview_url: Option<String>,
    pub track_number: u32,
    pub object_type: String,
    pub uri: String,
}

/// The tracks that one batch request brings back, in the order of its ids.
#[derive(Clone, Debug, Default)]
pub struct Tracks {
    pub tracks: Vec<Track>,
}

/// At most this many tracks are fetched per request.
pub const TRACKS_PER_REQUEST: usize = 50;

/// At most this many audio features are fetched per request.
pub const AUDIO_FEATURES_PER_REQUEST: usize = 100;

pub fn audio_analysis_request(track_id: &str) -> (r: RequestDescriptor)
    ensures
        r@ == plain(Method::Get, api("audio-analysis/"@ + track_id@ + ""@)),
{
    plain_request_with(Method::Get, "audio-analysis/", track_id, "")
}

pub fn audio_feature_request(track_id: &str) -> (r: RequestDescriptor)
    ensures
        r@ == plain(Method::Get, api("audio-features/"@ + track_id@ + ""@)),
{
    plain_request_with(Method::Get, "audio-features/", track_id, "")
}

/// One request per chunk of at most `AUDIO_FEATURES_PER_REQUEST` ids, in order.
pub fn audio_features_requests(track_ids: Vec<String>) -> (r: Vec<RequestDescriptor>)
    ensures
        r.len() == chunks(track_ids@, AUDIO_FEATURES_PER_REQUEST as nat).len(),
        forall|i: int|
            0 <= i < r.len() ==> (#[trigger] r[i])@ == ids_in_query(
                Method::Get,
                api("audio-features"@),
                Seq::empty(),
                texts(chunks(track_ids@, AUDIO_FEATURES_PER_REQUEST as nat)[i]),
            ),
{
    let url = crate::request::api_url("audio-features");
    let prefix: Vec<(String, String)> = Vec::new();
    assert(crate::request::pairs_view(prefix@) =~= Seq::<(Seq<char>, Seq<char>)>::empty());
    ids_query_requests(Method::Get, url.as_str(), &prefix, track_ids, AUDIO_FEATURES_PER_REQUEST)
}

pub fn track_request(track_id: &str) -> (r: RequestDescriptor)
    ensures
        r@ == plain(Method::Get, api("tracks/"@ + track_id@ + ""@)),
{
    plain_request_with(Method::Get, "tracks/", track_id, "")
}

/// One request per chunk of at most `TRACKS_PER_REQUEST` ids, in order.
pub fn tracks_requests(track_ids: Vec<String>) -> (r: Vec<RequestDescriptor>)
    ensures
        r.len() == chunks(track_ids@, TRACKS_PER_REQUEST as nat).len(),
        forall|i: int|
            0 <= i < r.len() ==> (#[trigger] r[i])@ == ids_in_query(
                Method::Get,
                api("tracks"@),
                Seq::empty(),
                texts(chunks(track_ids@, TRACKS_PER_REQUEST as nat)[i]),
            ),
{
    let url = crate::request::api_url("tracks");
    let prefix: Vec<(String, String)> = Vec::new();
    assert(crate::request::pairs_view(prefix@) =~= Seq::<(Seq<char>, Seq<char>)>::empty());
    ids_query_requests(Method::Get, url.as_str(), &prefix, track_ids, TRACKS_PER_REQUEST)
}

} // verus!
