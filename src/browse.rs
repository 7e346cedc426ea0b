//! Browsing: categories, featured playlists, new releases and recommendations.
use vstd::prelude::*;
use crate::album::SimpleAlbum;
use crate::country::{alpha2_string, is_alpha2};
use crate::object::{Image, PagingObject};
use crate::playlist::SimplePlaylist;
use crate::request::{
    Method, RequestDescriptor, api, api_url, api_url_with, opt_pair, opt_text, pair, pairs_view,
    plain, plain_request, plain_request_with, push_opt, with_query,
};
use crate::text::{join, joined, texts};
use crate::track::SimpleTrack;

verus! {

#[derive(Clone, Debug, Default)]
pub struct Category {
    pub href: String,
    pub icons: Vec<Image>,
    pub id: String,
    pub name: String,
}

#[derive(Clone, Debug, Default)]
pub struct GetCategoryRequest {
    pub id: String,
    pub country: Option<isocountry::CountryCode>,
    pub locale: Option<isocountry::CountryCode>,
}

#[derive(Clone, Debug, Default)]
pub struct GetCategoryPlaylistRequest {
    pub id: String,
    pub country: Option<isocountry::CountryCode>,
    pub offset: Option<u32>,
    pub limit: Option<u32>,
}

#[derive(Clone, Debug, Default)]
pub struct GetCategoryPlaylistResponse {
    pub playlists: PagingObject<SimplePlaylist>,
}

#[derive(Clone, Debug, Default)]
pub struct GetCategoriesRequest {
    pub country: Option<isocountry::CountryCode>,
    pub locale: Option<isocountry::CountryCode>,
    pub offset: Option<u32>,
    pub limit: Option<u32>,
}

#[derive(Clone, Debug, Default)]
pub struct GetCategoriesResponse {
    pub categories: PagingObject<Category>,
}

/// The largest distance from 1970 in seconds, either way, that a timestamp
/// can be written for: about 253,000 years, within chrono's range of dates.
pub const MAX_TIMESTAMP_SECONDS: i64 = 8_000_000_000_000;

/// A point in time, in whole seconds since 1970-01-01T00:00:00 UTC.
#[derive(Clone, Copy, Debug, Default, PartialEq, Eq, Structural)]
pub struct Timestamp {
    pub seconds: i64,
}

#[derive(Clone, Debug, Default)]
pub struct GetFeaturedPlaylistRequest {
    pub country: Option<isocountry::CountryCode>,
    pub locale: Option<isocountry::CountryCode>,
    pub timestamp: Option<Timestamp>,
    pub offset: Option<u32>,
    pub limit: Option<u32>,
}

#[derive(Clone, Debug, Default)]
pub struct GetFeaturedPlaylistResponse {
    pub message: String,
    pub playlists: PagingObject<SimplePlaylist>,
}

#[derive(Clone, Debug, Default)]
pub struct GetNewReleaseRequest {
    pub country: Option<isocountry::CountryCode>,
    pub offset: Option<u32>,
    pub limit: Option<u32>,
}

#[derive(Clone, Debug, Default)]
pub struct GetNewReleaseResponse {
    pub albums: PagingObject<SimpleAlbum>,
}

#[derive(Clone, Debug, Default)]
pub struct GetRecommendationsResponse {
    pub seeds: Vec<RecommendationSeed>,
    pub tracks: Vec<SimpleTrack>,
}

#[derive(Clone, Debug, Default)]
pub struct RecommendationSeed {
    pub after_filtering_size: u32,
    pub after_relinking_size: u32,
    pub href: Option<String>,
    pub id: String,
    pub initial_pool_size: u32,
    pub object_type: String,
}

/// A text that stands for a country: present exactly where the country is,
/// and then two upper-case letters.
pub open spec fn code_for(code: Option<Seq<char>>, country: Option<isocountry::CountryCode>) -> bool {
    &&& code.is_some() == country.is_some()
    &&& (code matches Some(t) ==> is_alpha2(t))
}

fn code_of(c: Option<isocountry::CountryCode>) -> (r: Option<String>)
    ensures
        code_for(opt_text(r), c),
{
    match c {
        Some(code) => Some(alpha2_string(&code)),
        None => None,
    }
}

/// The query of a localized listing: the country's and the locale's codes.
pub open spec fn locale_query(country: Option<Seq<char>>, locale: Option<Seq<char>>) -> Seq<(Seq<char>, Seq<char>)> {
    opt_pair("country"@, country) + opt_pair("locale"@, locale)
}

fn locale_pairs(country: Option<isocountry::CountryCode>, locale: Option<isocountry::CountryCode>) -> (r: Vec<
    (String, String),
>)
    ensures
        exists|c: Option<Seq<char>>, l: Option<Seq<char>>|
            code_for(c, country) && code_for(l, locale) && pairs_view(r@) == locale_query(c, l),
{
    let mut q: Vec<(String, String)> = Vec::new();
    let cc = code_of(country);
    let lc = code_of(locale);
    let ghost c = opt_text(cc);
    let ghost l = opt_text(lc);
    assert(pairs_view(q@) =~= Seq::<(Seq<char>, Seq<char>)>::empty());
    push_opt(&mut q, "country", cc);
    push_opt(&mut q, "locale", lc);
    assert(pairs_view(q@) =~= locale_query(c, l));
    q
}

/// One category, localized.
pub fn category_request(request: &GetCategoryRequest) -> (r: RequestDescriptor)
    ensures
        exists|c: Option<Seq<char>>, l: Option<Seq<char>>|
            code_for(c, request.country) && code_for(l, request.locale) && r@ == with_query(
                Method::Get,
                api("browse/categories/"@ + request.id@ + ""@),
                locale_query(c, l),
            ),
{
    RequestDescriptor {
        method: Method::Get,
        url: api_url_with("browse/categories/", request.id.as_str(), ""),
        query: locale_pairs(request.country, request.locale),
        body: None,
    }
}

/// The list of categories, localized.
pub fn categories_request(request: &GetCategoriesRequest) -> (r: RequestDescriptor)
    ensures
        exists|c: Option<Seq<char>>, l: Option<Seq<char>>|
            code_for(c, request.country) && code_for(l, request.locale) && r@ == with_query(
                Method::Get,
                api("browse/categories"@),
                locale_query(c, l),
            ),
{
    RequestDescriptor {
        method: Method::Get,
        url: api_url("browse/categories"),
        query: locale_pairs(request.country, request.locale),
        body: None,
    }
}

pub fn category_playlists_request(request: &GetCategoryPlaylistRequest) -> (r: RequestDescriptor)
    ensures
        r@ == plain(Method::Get, api("browse/categories/"@ + request.id@ + "/playlists"@)),
{
    plain_request_with(Method::Get, "browse/categories/", request.id.as_str(), "/playlists")
}

/// A timestamp written as `YYYY-MM-DDTHH:MM:SS`, as chrono formats it.
pub uninterp spec fn timestamp_text(seconds: int) -> Seq<char>;

/// Relies on chrono's `DateTime::<Utc>::from_timestamp` (`None` only where
/// the date falls outside chrono's years -262143 to 262142, well beyond
/// `MAX_TIMESTAMP_SECONDS`) and `format("%Y-%m-%dT%H:%M:%S")`.
#[verifier::external_body]
fn format_timestamp(seconds: i64) -> (r: Option<String>)
    ensures
        r matches Some(t) ==> t@ == timestamp_text(seconds as int),
        -MAX_TIMESTAMP_SECONDS <= seconds <= MAX_TIMESTAMP_SECONDS ==> r is Some,
{
    match chrono::DateTime::<chrono::Utc>::from_timestamp(seconds, 0) {
        Some(d) => Some(d.format("%Y-%m-%dT%H:%M:%S").to_string()),
        None => None,
    }
}

/// The featured playlists, localized and as of a time where one is given.
/// `None` only where the time is beyond `MAX_TIMESTAMP_SECONDS` from 1970 and
/// outside the range that can be written.
pub fn featured_playlists_request(request: &GetFeaturedPlaylistRequest) -> (r: Option<RequestDescriptor>)
    ensures
        r matches Some(d) ==> exists|c: Option<Seq<char>>, l: Option<Seq<char>>|
            code_for(c, request.country) && code_for(l, request.locale) && d@ == with_query(
                Method::Get,
                api("browse/featured-playlists"@),
                locale_query(c, l) + opt_pair(
                    "timestamp"@,
                    match request.timestamp {
                        Some(t) => Some(timestamp_text(t.seconds as int)),
                        None => None,
                    },
                ),
            ),
        r is None ==> (request.timestamp matches Some(t) && (t.seconds < -MAX_TIMESTAMP_SECONDS
            || t.seconds > MAX_TIMESTAMP_SECONDS)),
{
    let mut query = locale_pairs(request.country, request.locale);
    let ghost q0 = pairs_view(query@);
    match request.timestamp {
        Some(t) => match format_timestamp(t.seconds) {
            Some(text) => query.push(pair("timestamp", text)),
            None => return None,
        },
        None => {},
    }
    assert(pairs_view(query@) =~= q0 + opt_pair(
        "timestamp"@,
        match request.timestamp {
            Some(t) => Some(timestamp_text(t.seconds as int)),
            None => None,
        },
    ));
    Some(RequestDescriptor { method: Method::Get, url: api_url("browse/featured-playlists"), query, body: None })
}

pub fn new_releases_request(request: &GetNewReleaseRequest) -> (r: RequestDescriptor)
    ensures
        r@ == plain(Method::Get, api("browse/new-releases"@)),
{
    plain_request(Method::Get, "browse/new-releases")
}

/// A tunable track attribute of the recommendation filters.
#[derive(Clone, Copy, Debug, PartialEq, Eq, Structural)]
pub enum AttributeKind {
    Acousticness,
    Danceability,
    DurationMs,
    Energy,
    Instrumentalness,
    Key,
    Liveness,
    Loudness,
    Mode,
    Popularity,
    Speechiness,
    Tempo,
    TimeSignature,
    Valence,
}

pub open spec fn attribute_name(k: AttributeKind) -> Seq<char> {
    match k {
        AttributeKind::Acousticness => "acousticness"@,
        AttributeKind::Danceability => "danceability"@,
        AttributeKind::DurationMs => "Duration_ms"@,
        AttributeKind::Energy => "energy"@,
        AttributeKind::Instrumentalness => "instrumentalness"@,
        AttributeKind::Key => "key"@,
        AttributeKind::Liveness => "liveness"@,
        AttributeKind::Loudness => "loudness"@,
        AttributeKind::Mode => "mode"@,
        AttributeKind::Popularity => "popularity"@,
        AttributeKind::Speechiness => "speechiness"@,
        AttributeKind::Tempo => "tempo"@,
        AttributeKind::TimeSignature => "time_signature"@,
        AttributeKind::Valence => "valence"@,
    }
}

impl AttributeKind {
    pub fn as_str(&self) -> (r: &'static str)
        ensures
            r@ == attribute_name(*self),
    {
        match self {
            AttributeKind::Acousticness => "acousticness",
            AttributeKind::Danceability => "danceability",
            AttributeKind::DurationMs => "Duration_ms",
            AttributeKind::Energy => "energy",
            AttributeKind::Instrumentalness => "instrumentalness",
            AttributeKind::Key => "key",
            AttributeKind::Liveness => "liveness",
            AttributeKind::Loudness => "loudness",
            AttributeKind::Mode => "mode",
            AttributeKind::Popularity => "popularity",
            AttributeKind::Speechiness => "speechiness",
            AttributeKind::Tempo => "tempo",
            AttributeKind::TimeSignature => "time_signature",
            AttributeKind::Valence => "valence",
        }
    }
}

/// Where a key is already present, its first entry takes the new value;
/// otherwise the entry is appended.
pub open spec fn upsert(
    entries: Seq<(Seq<char>, Seq<char>)>,
    key: Seq<char>,
    value: Seq<char>,
) -> Seq<(Seq<char>, Seq<char>)>
    decreases entries.len(),
{
    if entries.len() == 0 {
        seq![(key, value)]
    } else if entries[0].0 == key {
        entries.update(0, (key, value))
    } else {
        seq![entries[0]] + upsert(entries.drop_first(), key, value)
    }
}

proof fn lemma_upsert_skip(entries: Seq<(Seq<char>, Seq<char>)>, key: Seq<char>, value: Seq<char>, i: int)
    requires
        0 <= i <= entries.len(),
        forall|j: int| 0 <= j < i ==> (#[trigger] entries[j]).0 != key,
    ensures
        upsert(entries, key, value) == entries.take(i) + upsert(entries.skip(i), key, value),
    decreases i,
{
    if i > 0 {
        let rest = entries.drop_first();
        assert forall|j: int| 0 <= j < i - 1 implies (#[trigger] rest[j]).0 != key by {
            assert(rest[j] == entries[j + 1]);
        }
        lemma_upsert_skip(rest, key, value, i - 1);
        assert(rest.skip(i - 1) =~= entries.skip(i));
        assert(entries.take(i) =~= seq![entries[0]] + rest.take(i - 1));
    } else {
        assert(entries.skip(0) =~= entries);
    }
}

fn set_entry(entries: &mut Vec<(String, String)>, key: String, value: String)
    ensures
        pairs_view(final(entries)@) == upsert(pairs_view(old(entries)@), key@, value@),
{
    let ghost e = pairs_view(entries@);
    let mut i: usize = 0;
    while i < entries.len()
        invariant
            i <= entries.len(),
            pairs_view(entries@) == e,
            e == pairs_view(old(entries)@),
            forall|j: int| 0 <= j < i ==> (#[trigger] e[j]).0 != key@,
        decreases entries.len() - i,
    {
        if entries[i].0 == key {
            proof {
                lemma_upsert_skip(e, key@, value@, i as int);
                assert(e.skip(i as int)[0].0 == key@);
                assert(upsert(e.skip(i as int), key@, value@) == e.skip(i as int).update(0, (key@, value@)));
            }
            let ghost k = key@;
            let ghost v = value@;
            entries.set(i, (key, value));
            assert(pairs_view(entries@) =~= e.take(i as int) + e.skip(i as int).update(0, (k, v)));
            assert(pairs_view(entries@) == upsert(e, k, v));
            return;
        }
        i += 1;
    }
    proof {
        lemma_upsert_skip(e, key@, value@, i as int);
        assert(e.skip(i as int) =~= Seq::<(Seq<char>, Seq<char>)>::empty());
        assert(e.take(i as int) =~= e);
    }
    entries.push((key, value));
    assert(pairs_view(entries@) =~= e + seq![(key@, value@)]);
}

/// At most this many seeds make a recommendation.
pub const MAX_SEEDS: usize = 5;

/// The first `MAX_SEEDS` entries.
pub open spec fn capped(s: Seq<(Seq<char>, Seq<char>)>) -> Seq<(Seq<char>, Seq<char>)> {
    if s.len() > MAX_SEEDS { s.take(MAX_SEEDS as int) } else { s }
}

/// Filters for recommendations: bounds and targets of track attributes, and seeds.
#[derive(Clone, Debug, Default, PartialEq, Eq)]
pub struct RecommendationFilter {
    /// Each key at most once: `max_<attribute>` and its bound.
    pub max_attribute: Vec<(String, String)>,
    pub min_attribute: Vec<(String, String)>,
    pub target_attribute: Vec<(String, String)>,
    /// `seed_artists`, `seed_genres` or `seed_tracks`, with an id; at most `MAX_SEEDS`.
    pub seed: Vec<(String, String)>,
}

impl RecommendationFilter {
    pub fn new() -> (r: Self)
        ensures
            r.max_attribute@.len() == 0,
            r.min_attribute@.len() == 0,
            r.target_attribute@.len() == 0,
            r.seed@.len() == 0,
    {
        RecommendationFilter {
            max_attribute: Vec::new(),
            min_attribute: Vec::new(),
            target_attribute: Vec::new(),
            seed: Vec::new(),
        }
    }

    fn add_seed(&mut self, kind: &str, id: &str)
        ensures
            pairs_view(final(self).seed@) == capped(pairs_view(old(self).seed@).push((kind@, id@))),
            final(self).max_attribute == old(self).max_attribute,
            final(self).min_attribute == old(self).min_attribute,
            final(self).target_attribute == old(self).target_attribute,
    {
        let ghost s0 = pairs_view(self.seed@);
        self.seed.push(pair(kind, String::from_str(id)));
        assert(pairs_view(self.seed@) =~= s0.push((kind@, id@)));
        let ghost s1 = self.seed@;
        self.seed.truncate(MAX_SEEDS);
        assert(pairs_view(self.seed@) =~= capped(s0.push((kind@, id@))));
    }

    /// Adds an artist seed; seeds beyond `MAX_SEEDS` are dropped.
    pub fn set_artist(&mut self, artist_id: &str)
        ensures
            pairs_view(final(self).seed@) == capped(pairs_view(old(self).seed@).push(("seed_artists"@, artist_id@))),
            final(self).max_attribute == old(self).max_attribute,
            final(self).min_attribute == old(self).min_attribute,
            final(self).target_attribute == old(self).target_attribute,
    {
        self.add_seed("seed_artists", artist_id);
    }

    /// Adds a genre seed; seeds beyond `MAX_SEEDS` are dropped.
    pub fn set_genre(&mut self, genre_id: &str)
        ensures
            pairs_view(final(self).seed@) == capped(pairs_view(old(self).seed@).push(("seed_genres"@, genre_id@))),
            final(self).max_attribute == old(self).max_attribute,
            final(self).min_attribute == old(self).min_attribute,
            final(self).target_attribute == old(self).target_attribute,
    {
        self.add_seed("seed_genres", genre_id);
    }

    /// Adds a track seed; seeds beyond `MAX_SEEDS` are dropped.
    pub fn set_track(&mut self, track_id: &str)
        ensures
            pairs_view(final(self).seed@) == capped(pairs_view(old(self).seed@).push(("seed_tracks"@, track_id@))),
            final(self).max_attribute == old(self).max_attribute,
            final(self).min_attribute == old(self).min_attribute,
            final(self).target_attribute == old(self).target_attribute,
    {
        self.add_seed("seed_tracks", track_id);
    }

    /// Sets the upper bound of an attribute, the bound written as text.
    pub fn set_max_attribute(&mut self, attribute: AttributeKind, value: &str)
        ensures
            pairs_view(final(self).max_attribute@) == upsert(
                pairs_view(old(self).max_attribute@),
                "max_"@ + attribute_name(attribute),
                value@,
            ),
            final(self).seed == old(self).seed,
            final(self).min_attribute == old(self).min_attribute,
            final(self).target_attribute == old(self).target_attribute,
    {
        set_entry(&mut self.max_attribute, prefixed("max_", attribute), String::from_str(value));
    }

    /// Sets the lower bound of an attribute, the bound written as text.
    pub fn set_min_attribute(&mut self, attribute: AttributeKind, value: &str)
        ensures
            pairs_view(final(self).min_attribute@) == upsert(
                pairs_view(old(self).min_attribute@),
                "min_"@ + attribute_name(attribute),
                value@,
            ),
            final(self).seed == old(self).seed,
            final(self).max_attribute == old(self).max_attribute,
            final(self).target_attribute == old(self).target_attribute,
    {
        set_entry(&mut self.min_attribute, prefixed("min_", attribute), String::from_str(value));
    }

    /// Sets the target of an attribute, the target written as text.
    pub fn set_target_attribute(&mut self, attribute: AttributeKind, value: &str)
        ensures
            pairs_view(final(self).target_attribute@) == upsert(
                pairs_view(old(self).target_attribute@),
                "target_"@ + attribute_name(attribute),
                value@,
            ),
            final(self).seed == old(self).seed,
            final(self).max_attribute == old(self).max_attribute,
            final(self).min_attribute == old(self).min_attribute,
    {
        set_entry(&mut self.target_attribute, prefixed("target_", attribute), String::from_str(value));
    }
}

fn prefixed(prefix: &str, attribute: AttributeKind) -> (r: String)
    ensures
        r@ == prefix@ + attribute_name(attribute),
{
    let mut k = String::from_str(prefix);
    k.append(attribute.as_str());
    k
}

/// The seed part of a recommendation query: each given list of ids, joined by commas.
pub open spec fn seeds_query(
    artists: Option<Vec<String>>,
    genres: Option<Vec<String>>,
    tracks: Option<Vec<String>>,
) -> Seq<(Seq<char>, Seq<char>)> {
    opt_pair("seed_artists"@, match artists { Some(a) => Some(joined(texts(a@), ","@)), None => None })
        + opt_pair("seed_genres"@, match genres { Some(g) => Some(joined(texts(g@), ","@)), None => None })
        + opt_pair("seed_tracks"@, match tracks { Some(t) => Some(joined(texts(t@), ","@)), None => None })
}

fn joined_opt(o: &Option<Vec<String>>) -> (r: Option<String>)
    ensures
        opt_text(r) == match *o { Some(a) => Some(joined(texts(a@), ","@)), None => None },
{
    match o {
        Some(a) => Some(join(a, ",")),
        None => None,
    }
}

pub fn seed_pairs(
    artists: &Option<Vec<String>>,
    genres: &Option<Vec<String>>,
    tracks: &Option<Vec<String>>,
) -> (r: Vec<(String, String)>)
    ensures
        pairs_view(r@) == seeds_query(*artists, *genres, *tracks),
{
    let mut q: Vec<(String, String)> = Vec::new();
    assert(pairs_view(q@) =~= Seq::<(Seq<char>, Seq<char>)>::empty());
    push_opt(&mut q, "seed_artists", joined_opt(artists));
    push_opt(&mut q, "seed_genres", joined_opt(genres));
    push_opt(&mut q, "seed_tracks", joined_opt(tracks));
    assert(pairs_view(q@) =~= seeds_query(*artists, *genres, *tracks));
    q
}

/// The attribute part of a recommendation query: `<prefix><attribute>` and its value, in order.
pub open spec fn attributes_query(prefix: Seq<char>, attributes: Seq<(AttributeKind, String)>) -> Seq<
    (Seq<char>, Seq<char>),
> {
    attributes.map_values(|a: (AttributeKind, String)| (prefix + attribute_name(a.0), a.1@))
}

pub fn attribute_pairs(prefix: &str, attributes: &Vec<(AttributeKind, String)>) -> (r: Vec<(String, String)>)
    ensures
        pairs_view(r@) == attributes_query(prefix@, attributes@),
{
    let mut q: Vec<(String, String)> = Vec::new();
    let mut i: usize = 0;
    while i < attributes.len()
        invariant
            i <= attributes.len(),
            pairs_view(q@) == attributes_query(prefix@, attributes@.subrange(0, i as int)),
        decreases attributes.len() - i,
    {
        let ghost q0 = pairs_view(q@);
        let key = prefixed(prefix, attributes[i].0);
        let value = attributes[i].1.clone();
        q.push((key, value));
        assert(pairs_view(q@) =~= q0.push((prefix@ + attribute_name(attributes@[i as int].0), attributes@[i as int].1@)));
        assert(attributes_query(prefix@, attributes@.subrange(0, i + 1)) =~= attributes_query(
            prefix@,
            attributes@.subrange(0, i as int),
        ).push((prefix@ + attribute_name(attributes@[i as int].0), attributes@[i as int].1@)));
        i += 1;
    }
    assert(attributes@.subrange(0, attributes.len() as int) =~= attributes@);
    q
}

/// Recommendations for a query of seeds and attribute filters.
pub fn recommendations_request(query: Vec<(String, String)>) -> (r: RequestDescriptor)
    ensures
        r@ == with_query(Method::Get, api("recommendations"@), pairs_view(query@)),
{
    RequestDescriptor { method: Method::Get, url: api_url("recommendations"), query, body: None }
}

} // verus!
