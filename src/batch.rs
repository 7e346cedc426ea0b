//! Requests on lists of ids, one request per chunk of at most `cap` ids.
use vstd::prelude::*;
use crate::chunk::{chunk, chunks, views};
use crate::json::{ids_body, ids_document};
use crate::request::{Method, RequestDescriptor, RequestModel, copy_pairs, pair, pairs_view};
use crate::text::{join, joined, texts};

verus! {

/// A request that names its ids in the query: `prefix`, then `ids=a,b,c`.
pub open spec fn ids_in_query(
    method: Method,
    url: Seq<char>,
    prefix: Seq<(Seq<char>, Seq<char>)>,
    ids: Seq<Seq<char>>,
) -> RequestModel {
    RequestModel { method, url, query: prefix + seq![("ids"@, joined(ids, ","@))], body: None }
}

/// A request that names its ids in the body `{"ids":[...]}`.
pub open spec fn ids_in_body(
    method: Method,
    url: Seq<char>,
    prefix: Seq<(Seq<char>, Seq<char>)>,
    ids: Seq<Seq<char>>,
) -> RequestModel {
    RequestModel { method, url, query: prefix, body: Some(ids_body(ids)) }
}

/// One request per chunk, each naming its chunk's ids in the query.
pub fn ids_query_requests(
    method: Method,
    url: &str,
    prefix: &Vec<(String, String)>,
    ids: Vec<String>,
    cap: usize,
) -> (r: Vec<RequestDescriptor>)
    requires
        cap > 0,
    ensures
        r.len() == chunks(ids@, cap as nat).len(),
        forall|i: int|
            0 <= i < r.len() ==> (#[trigger] r[i])@ == ids_in_query(
                method,
                url@,
                pairs_view(prefix@),
                texts(chunks(ids@, cap as nat)[i]),
            ),
{
    let ghost all = ids@;
    let parts = chunk(ids, cap);
    let mut r: Vec<RequestDescriptor> = Vec::new();
    let mut i: usize = 0;
    while i < parts.len()
        invariant
            i <= parts.len(),
            views(parts@) == chunks(all, cap as nat),
            r.len() == i,
            forall|j: int|
                0 <= j < i ==> (#[trigger] r[j])@ == ids_in_query(
                    method,
                    url@,
                    pairs_view(prefix@),
                    texts(chunks(all, cap as nat)[j]),
                ),
        decreases parts.len() - i,
    {
        let mut query = copy_pairs(prefix);
        let ghost q0 = pairs_view(query@);
        query.push(pair("ids", join(&parts[i], ",")));
        assert(views(parts@)[i as int] == parts@[i as int]@);
        let d = RequestDescriptor { method, url: String::from_str(url), query, body: None };
        assert(d@.query =~= pairs_view(prefix@) + seq![("ids"@, joined(texts(parts@[i as int]@), ","@))]);
        r.push(d);
        i += 1;
    }
    r
}

/// One request per chunk, each naming its chunk's ids in a JSON body.
pub fn ids_body_requests(
    method: Method,
    url: &str,
    prefix: &Vec<(String, String)>,
    ids: Vec<String>,
    cap: usize,
) -> (r: Vec<RequestDescriptor>)
    requires
        cap > 0,
    ensures
        r.len() == chunks(ids@, cap as nat).len(),
        forall|i: int|
            0 <= i < r.len() ==> (#[trigger] r[i])@ == ids_in_body(
                method,
                url@,
                pairs_view(prefix@),
                texts(chunks(ids@, cap as nat)[i]),
            ),
{
    let ghost all = ids@;
    let parts = chunk(ids, cap);
    let mut r: Vec<RequestDescriptor> = Vec::new();
    let mut i: usize = 0;
    while i < parts.len()
        invariant
            i <= parts.len(),
            views(parts@) == chunks(all, cap as nat),
            r.len() == i,
            forall|j: int|
                0 <= j < i ==> (#[trigger] r[j])@ == ids_in_body(
                    method,
                    url@,
                    pairs_view(prefix@),
                    texts(chunks(all, cap as nat)[j]),
                ),
        decreases parts.len() - i,
    {
        let query = copy_pairs(prefix);
        assert(views(parts@)[i as int] == parts@[i as int]@);
        let d = RequestDescriptor {
            method,
            url: String::from_str(url),
            query,
            body: Some(ids_document(&parts[i])),
        };
        r.push(d);
        i += 1;
    }
    r
}

} // verus!
