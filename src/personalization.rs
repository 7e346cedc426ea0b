//! The user's top artists and tracks.
use vstd::prelude::*;
use crate::request::{Method, RequestDescriptor, api, api_url_with, opt_pair, pair, with_query};

verus! {

#[derive(Clone, Debug, Default)]
pub struct GetTopRequest {
    pub offset: Option<u32>,
    pub limit: Option<u32>,
    pub time_range: Option<TimeRange>,
}

/// Over which period affinity is computed.
#[derive(Clone, Copy, Debug, PartialEq, Eq, Structural)]
pub enum TimeRange {
    LongTerm,
    MediumTerm,
    ShortTerm,
}

impl Default for TimeRange {
    fn default() -> (r: Self)
        ensures
            r == TimeRange::MediumTerm,
    {
        TimeRange::MediumTerm
    }
}

pub open spec fn range_name(t: TimeRange) -> Seq<char> {
    match t {
        TimeRange::LongTerm => "long_term"@,
        TimeRange::MediumTerm => "medium_term"@,
        TimeRange::ShortTerm => "short_term"@,
    }
}

impl TimeRange {
    pub fn as_str(&self) -> (r: &'static str)
        ensures
            r@ == range_name(*self),
    {
        match self {
            TimeRange::LongTerm => "long_term",
            TimeRange::MediumTerm => "medium_term",
            TimeRange::ShortTerm => "short_term",
        }
    }
}

/// What a top list ranks.
#[derive(Clone, Copy, Debug, PartialEq, Eq, Structural)]
pub enum ObjectType {
    Artists,
    Tracks,
}

pub open spec fn ranked_name(t: ObjectType) -> Seq<char> {
    match t {
        ObjectType::Artists => "artists"@,
        ObjectType::Tracks => "tracks"@,
    }
}

impl ObjectType {
    pub fn as_str(&self) -> (r: &'static str)
        ensures
            r@ == ranked_name(*self),
    {
        match self {
            ObjectType::Artists => "artists",
            ObjectType::Tracks => "tracks",
        }
    }
}

/// The user's top artists or tracks, over the chosen period where one is chosen.
pub fn top_request(object_type: ObjectType, request: &GetTopRequest) -> (r: RequestDescriptor)
    ensures
        r@ == with_query(
            Method::Get,
            api("me/top/"@ + ranked_name(object_type) + ""@),
            opt_pair(
                "time_range"@,
                match request.time_range {
                    Some(t) => Some(range_name(t)),
                    None => None,
                },
            ),
        ),
{
    let mut query: Vec<(String, String)> = Vec::new();
    match request.time_range {
        Some(t) => query.push(pair("time_range", String::from_str(t.as_str()))),
        None => {},
    }
    let r = RequestDescriptor {
        method: Method::Get,
        url: api_url_with("me/top/", object_type.as_str(), ""),
        query,
        body: None,
    };
    assert(r@.query =~= opt_pair(
        "time_range"@,
        match request.time_range {
            Some(t) => Some(range_name(t)),
            None => None,
        },
    ));
    r
}

} // verus!
