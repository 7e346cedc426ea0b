//! Search: a query built from keywords and field filters.
use vstd::prelude::*;
use crate::dispatch::RequestClient;
use crate::request::{Method, RequestDescriptor, api, api_url, pair, with_query};
use crate::text::{decimal, decimal_text, join, joined, texts};

verus! {

/// What a search looks for.
#[derive(Clone, Copy, Debug, PartialEq, Eq, Structural)]
pub enum ObjectType {
    Album,
    Artist,
    Playlist,
    Track,
}

pub open spec fn kind_name(t: ObjectType) -> Seq<char> {
    match t {
        ObjectType::Album => "album"@,
        ObjectType::Artist => "artist"@,
        ObjectType::Playlist => "playlist"@,
        ObjectType::Track => "track"@,
    }
}

impl ObjectType {
    pub fn as_str(&self) -> (r: &'static str)
        ensures
            r@ == kind_name(*self),
    {
        match self {
            ObjectType::Album => "album",
            ObjectType::Artist => "artist",
            ObjectType::Playlist => "playlist",
            ObjectType::Track => "track",
        }
    }
}

/// A search in the making: the session, the query terms in order, and the
/// paging and market of the results.
#[derive(Clone, Debug, Default)]
pub struct SearchClient {
    pub client: RequestClient,
    pub query: Vec<String>,
    pub limit: Option<u32>,
    pub offset: Option<u32>,
    pub market: Option<isocountry::CountryCode>,
}

/// The query text: the terms separated by spaces.
pub open spec fn query_text(terms: Seq<String>) -> Seq<char> {
    joined(texts(terms), " "@)
}

/// The member of the response that holds the results: the kind's name and `s`.
pub open spec fn result_key(t: ObjectType) -> Seq<char> {
    kind_name(t) + "s"@
}

impl SearchClient {
    pub fn new(access_token: &str, refresh_token: &str) -> (r: Self)
        ensures
            r.client@.access_token == access_token@,
            r.client@.refresh_token == refresh_token@,
            r.query@.len() == 0,
            r.limit.is_none(),
            r.offset.is_none(),
            r.market.is_none(),
    {
        SearchClient {
            client: RequestClient::new(access_token, refresh_token),
            query: Vec::new(),
            limit: None,
            offset: None,
            market: None,
        }
    }

    /// Adds a free keyword.
    pub fn set_keyword(&mut self, keyword: &str)
        ensures
            texts(final(self).query@) == texts(old(self).query@).push(keyword@),
            final(self).limit == old(self).limit,
            final(self).offset == old(self).offset,
            final(self).market == old(self).market,
    {
        self.query.push(String::from_str(keyword));
        assert(texts(self.query@) =~= texts(old(self).query@).push(keyword@));
    }

    /// Adds the filter `kind:name`.
    pub fn set_matching(&mut self, object_type: ObjectType, name: &str)
        ensures
            texts(final(self).query@) == texts(old(self).query@).push(kind_name(object_type) + ":"@ + name@),
            final(self).limit == old(self).limit,
            final(self).offset == old(self).offset,
            final(self).market == old(self).market,
    {
        let mut term = String::from_str(object_type.as_str());
        term.append(":");
        term.append(name);
        self.query.push(term);
        assert(texts(self.query@) =~= texts(old(self).query@).push(kind_name(object_type) + ":"@ + name@));
    }

    pub fn set_album_matching(&mut self, name: &str)
        ensures
            texts(final(self).query@) == texts(old(self).query@).push("album"@ + ":"@ + name@),
            final(self).limit == old(self).limit,
            final(self).offset == old(self).offset,
            final(self).market == old(self).market,
    {
        self.set_matching(ObjectType::Album, name);
    }

    pub fn set_artist_matching(&mut self, name: &str)
        ensures
            texts(final(self).query@) == texts(old(self).query@).push("artist"@ + ":"@ + name@),
            final(self).limit == old(self).limit,
            final(self).offset == old(self).offset,
            final(self).market == old(self).market,
    {
        self.set_matching(ObjectType::Artist, name);
    }

    pub fn set_track_matching(&mut self, name: &str)
        ensures
            texts(final(self).query@) == texts(old(self).query@).push("track"@ + ":"@ + name@),
            final(self).limit == old(self).limit,
            final(self).offset == old(self).offset,
            final(self).market == old(self).market,
    {
        self.set_matching(ObjectType::Track, name);
    }

    /// Adds the filter `year:n`.
    pub fn set_year(&mut self, year: u64)
        ensures
            texts(final(self).query@) == texts(old(self).query@).push("year:"@ + decimal(year as nat)),
            final(self).limit == old(self).limit,
            final(self).offset == old(self).offset,
            final(self).market == old(self).market,
    {
        let mut term = String::from_str("year:");
        let y = decimal_text(year);
        term.append(y.as_str());
        self.query.push(term);
        assert(texts(self.query@) =~= texts(old(self).query@).push("year:"@ + decimal(year as nat)));
    }

    /// Adds the range term `from-to`.
    pub fn set_year_range(&mut self, range: (u64, u64))
        ensures
            texts(final(self).query@) == texts(old(self).query@).push(
                decimal(range.0 as nat) + "-"@ + decimal(range.1 as nat),
            ),
            final(self).limit == old(self).limit,
            final(self).offset == old(self).offset,
            final(self).market == old(self).market,
    {
        let mut term = decimal_text(range.0);
        term.append("-");
        let to = decimal_text(range.1);
        term.append(to.as_str());
        self.query.push(term);
        assert(texts(self.query@) =~= texts(old(self).query@).push(
            decimal(range.0 as nat) + "-"@ + decimal(range.1 as nat),
        ));
    }

    pub fn set_limit(&mut self, limit: u32)
        ensures
            final(self).limit == Some(limit),
            final(self).query@ == old(self).query@,
    {
        self.limit = Some(limit);
    }

    pub fn set_offset(&mut self, offset: u32)
        ensures
            final(self).offset == Some(offset),
            final(self).query@ == old(self).query@,
    {
        self.offset = Some(offset);
    }

    pub fn set_market(&mut self, market: isocountry::CountryCode)
        ensures
            final(self).market == Some(market),
            final(self).query@ == old(self).query@,
    {
        self.market = Some(market);
    }

    /// The query text.
    pub fn to_query(&self) -> (r: String)
        ensures
            r@ == query_text(self.query@),
    {
        join(&self.query, " ")
    }

    /// The search for one kind of result; the session then carries this
    /// search's limit, offset and market.
    pub fn search_request(&mut self, object_type: ObjectType) -> (r: RequestDescriptor)
        ensures
            r@ == with_query(
                Method::Get,
                api("search"@),
                seq![("q"@, query_text(old(self).query@)), ("type"@, kind_name(object_type))],
            ),
            final(self).client@.limit == old(self).limit,
            final(self).client@.offset == old(self).offset,
            final(self).client@.market == old(self).market,
            final(self).client@.access_token == old(self).client@.access_token,
            final(self).client@.refresh_token == old(self).client@.refresh_token,
            final(self).query@ == old(self).query@,
    {
        let mut query: Vec<(String, String)> = Vec::new();
        query.push(pair("q", self.to_query()));
        query.push(pair("type", String::from_str(object_type.as_str())));
        self.client.set_limit(self.limit);
        self.client.set_offset(self.offset);
        self.client.set_market(self.market);
        let r = RequestDescriptor { method: Method::Get, url: api_url("search"), query, body: None };
        assert(r@.query =~= seq![("q"@, query_text(old(self).query@)), ("type"@, kind_name(object_type))]);
        r
    }
}

/// The member of a search response that holds the results.
pub fn result_member(object_type: ObjectType) -> (r: String)
    ensures
        r@ == result_key(object_type),
{
    let mut k = String::from_str(object_type.as_str());
    k.append("s");
    k
}

} // verus!
