//! Artists: their records and the requests that fetch them.
use vstd::prelude::*;
use crate::batch::{ids_in_query, ids_query_requests};
use crate::chunk::chunks;
use crate::country::{alpha2_string, is_alpha2};
use crate::object::{Follower, Image};
use crate::request::{
    Method, RequestDescriptor, api, api_url, api_url_with, opt_pair, pair, pairs_view, plain,
    plain_request_with, with_query,
};
use crate::text::{join, joined, texts};
use crate::track::Track;

verus! {

#[derive(Clone, Debug, Default)]
pub struct Artist {
    pub followers: Follower,
    pub genres: Vec<String>,
    pub href: String,
    pub id: String,
    pub images: Vec<Image>,
    pub name: String,
    pub popularity: Option<u32>,
    pub object_type: String,
    pub uri: String,
}

#[derive(Clone, Debug, Default)]
pub struct SimpleArtist {
    pub href: String,
    pub id: String,
    pub name: String,
    pub object_type: String,
    pub uri: String,
}

#[derive(Clone, Debug, Default)]
pub struct GetArtistRequest {
    pub id: String,
}

#[derive(Clone, Debug, Default)]
pub struct GetArtistListRequest {
    pub ids: Vec<String>,
}

#[derive(Clone, Debug, Default)]
pub struct GetArtistListResponse {
    pub artists: Vec<Artist>,
}

#[derive(Clone, Debug, Default)]
pub struct GetArtistAlbumRequest {
    pub id: String,
    pub include_groups: Option<Vec<IncludeGroup>>,
    pub country: Option<isocountry::CountryCode>,
    pub limit: Option<u32>,
    pub offset: Option<u32>,
}

#[derive(Clone, Debug, Default)]
pub struct GetArtistTopTrackRequest {
    pub id: String,
    pub country: Option<isocountry::CountryCode>,
}

#[derive(Clone, Debug, Default)]
pub struct GetArtistTopTrackResponse {
    pub tracks: Vec<Track>,
}

#[derive(Clone, Debug, Default)]
pub struct GetRelatedArtistRequest {
    pub id: String,
}

#[derive(Clone, Debug, Default)]
pub struct GetRelatedArtistResponse {
    pub artists: Vec<Artist>,
}

/// A kind of release an artist took part in.
#[derive(Clone, Copy, Debug, PartialEq, Eq, Structural)]
pub enum IncludeGroup {
    Album,
    Single,
    AppearsOn,
    Compilation,
}

pub open spec fn group_name(g: IncludeGroup) -> Seq<char> {
    match g {
        IncludeGroup::Album => "album"@,
        IncludeGroup::Single => "single"@,
        IncludeGroup::AppearsOn => "appears_on"@,
        IncludeGroup::Compilation => "compilation"@,
    }
}

impl IncludeGroup {
    pub fn as_str(&self) -> (r: &'static str)
        ensures
            r@ == group_name(*self),
    {
        match self {
            IncludeGroup::Album => "album",
            IncludeGroup::Single => "single",
            IncludeGroup::AppearsOn => "appears_on",
            IncludeGroup::Compilation => "compilation",
        }
    }
}

/// At most this many artists are fetched per request.
pub const ARTISTS_PER_REQUEST: usize = 50;

pub fn artist_request(request: &GetArtistRequest) -> (r: RequestDescriptor)
    ensures
        r@ == plain(Method::Get, api("artists/"@ + request.id@ + ""@)),
{
    plain_request_with(Method::Get, "artists/", request.id.as_str(), "")
}

/// One request per chunk of at most `ARTISTS_PER_REQUEST` ids, in order.
pub fn artists_requests(ids: Vec<String>) -> (r: Vec<RequestDescriptor>)
    ensures
        r.len() == chunks(ids@, ARTISTS_PER_REQUEST as nat).len(),
        forall|i: int|
            0 <= i < r.len() ==> (#[trigger] r[i])@ == ids_in_query(
                Method::Get,
                api("artists"@),
                Seq::empty(),
                texts(chunks(ids@, ARTISTS_PER_REQUEST as nat)[i]),
            ),
{
    let url = api_url("artists");
    let prefix: Vec<(String, String)> = Vec::new();
    assert(pairs_view(prefix@) =~= Seq::<(Seq<char>, Seq<char>)>::empty());
    ids_query_requests(Method::Get, url.as_str(), &prefix, ids, ARTISTS_PER_REQUEST)
}

/// The groups' names separated by commas.
pub open spec fn group_list(groups: Seq<IncludeGroup>) -> Seq<char> {
    joined(groups.map_values(|g: IncludeGroup| group_name(g)), ","@)
}

pub fn group_names(groups: &Vec<IncludeGroup>) -> (r: String)
    ensures
        r@ == group_list(groups@),
{
    let mut names: Vec<String> = Vec::new();
    let mut i: usize = 0;
    while i < groups.len()
        invariant
            i <= groups.len(),
            texts(names@) == groups@.subrange(0, i as int).map_values(|g: IncludeGroup| group_name(g)),
        decreases groups.len() - i,
    {
        let ghost n0 = texts(names@);
        let name = String::from_str(groups[i].as_str());
        names.push(name);
        assert(texts(names@) =~= n0.push(group_name(groups@[i as int])));
        assert(groups@.subrange(0, i + 1).map_values(|g: IncludeGroup| group_name(g)) =~= groups@.subrange(
            0,
            i as int,
        ).map_values(|g: IncludeGroup| group_name(g)).push(group_name(groups@[i as int])));
        i += 1;
    }
    assert(groups@.subrange(0, groups.len() as int) =~= groups@);
    join(&names, ",")
}

/// The artist's albums, of the chosen groups where some are chosen.
pub fn artist_albums_request(request: &GetArtistAlbumRequest) -> (r: RequestDescriptor)
    ensures
        r@ == with_query(
            Method::Get,
            api("artists/"@ + request.id@ + "/albums"@),
            opt_pair(
                "include_groups"@,
                match request.include_groups {
                    Some(g) => Some(group_list(g@)),
                    None => None,
                },
            ),
        ),
{
    let mut query: Vec<(String, String)> = Vec::new();
    match &request.include_groups {
        Some(g) => query.push(pair("include_groups", group_names(g))),
        None => {},
    }
    let r = RequestDescriptor {
        method: Method::Get,
        url: api_url_with("artists/", request.id.as_str(), "/albums"),
        query,
        body: None,
    };
    assert(r@.query =~= opt_pair(
        "include_groups"@,
        match request.include_groups {
            Some(g) => Some(group_list(g@)),
            None => None,
        },
    ));
    r
}

/// The artist's top tracks in a country: the country's two-letter code, or
/// `from_token` (the session user's country) where none is chosen.
pub fn artist_top_tracks_request(request: &GetArtistTopTrackRequest) -> (r: RequestDescriptor)
    ensures
        r@.method == Method::Get,
        r@.url == api("artists/"@ + request.id@ + "/top-tracks"@),
        r@.body.is_none(),
        r@.query.len() == 1,
        r@.query[0].0 == "country"@,
        request.country.is_none() ==> r@.query[0].1 == "from_token"@,
        request.country.is_some() ==> is_alpha2(r@.query[0].1),
{
    let country = match request.country {
        Some(c) => alpha2_string(&c),
        None => String::from_str("from_token"),
    };
    let mut query: Vec<(String, String)> = Vec::new();
    query.push(pair("country", country));
    RequestDescriptor {
        method: Method::Get,
        url: api_url_with("artists/", request.id.as_str(), "/top-tracks"),
        query,
        body: None,
    }
}

pub fn related_artists_request(request: &GetRelatedArtistRequest) -> (r: RequestDescriptor)
    ensures
        r@ == plain(Method::Get, api("artists/"@ + request.id@ + "/related-artists"@)),
{
    plain_request_with(Method::Get, "artists/", request.id.as_str(), "/related-artists")
}

} // verus!
