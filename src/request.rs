//! Request descriptors: what is sent, before a bearer token is attached.
use vstd::prelude::*;

verus! {

/// The HTTP method of a request.
#[derive(Clone, Copy, Debug, PartialEq, Eq, Structural)]
pub enum Method {
    Get,
    Post,
    Put,
    Delete,
}

/// An HTTP request, independent of credentials: it can be re-sent verbatim.
#[derive(Clone, Debug)]
pub struct RequestDescriptor {
    pub method: Method,
    pub url: String,
    /// Query parameters in order; a key may repeat.
    pub query: Vec<(String, String)>,
    /// A JSON document, sent with a JSON content type.
    pub body: Option<String>,
}

/// The abstract content of a request descriptor.
pub struct RequestModel {
    pub method: Method,
    pub url: Seq<char>,
    pub query: Seq<(Seq<char>, Seq<char>)>,
    pub body: Option<Seq<char>>,
}

pub open spec fn pairs_view(q: Seq<(String, String)>) -> Seq<(Seq<char>, Seq<char>)> {
    q.map_values(|p: (String, String)| (p.0@, p.1@))
}

pub open spec fn opt_text(o: Option<String>) -> Option<Seq<char>> {
    match o {
        Some(s) => Some(s@),
        None => None,
    }
}

impl View for RequestDescriptor {
    type V = RequestModel;

    open spec fn view(&self) -> RequestModel {
        RequestModel {
            method: self.method,
            url: self.url@,
            query: pairs_view(self.query@),
            body: opt_text(self.body),
        }
    }
}

/// The address of an endpoint of the web API.
pub open spec fn api(path: Seq<char>) -> Seq<char> {
    "https://api.spotify.com/v1/"@ + path
}

/// The query pair `(key, value)` if a value is given, else nothing.
pub open spec fn opt_pair(key: Seq<char>, value: Option<Seq<char>>) -> Seq<(Seq<char>, Seq<char>)> {
    match value {
        Some(v) => seq![(key, v)],
        None => Seq::empty(),
    }
}

/// `api(path)`.
pub fn api_url(path: &str) -> (r: String)
    ensures
        r@ == api(path@),
{
    let mut s = String::from_str("https://api.spotify.com/v1/");
    s.append(path);
    s
}



/// `api(head + id + tail)`: an endpoint whose path holds one identifier.
pub fn api_url_with(head: &str, id: &str, tail: &str) -> (r: String)
    ensures
        r@ == api(head@ + id@ + tail@),
{
    let mut s = api_url(head);
    s.append(id);
    s.append(tail);
    assert(s@ =~= api(head@ + id@ + tail@));
    s
}

/// A query pair of a key and a value.
pub fn pair(key: &str, value: String) -> (r: (String, String))
    ensures
        r.0@ == key@,
        r.1@ == value@,
{
    (String::from_str(key), value)
}

/// Appends `(key, value)` to `query` if a value is given.
pub fn push_opt(query: &mut Vec<(String, String)>, key: &str, value: Option<String>)
    ensures
        pairs_view(final(query)@) == pairs_view(old(query)@) + opt_pair(key@, opt_text(value)),
{
    match value {
        Some(v) => {
            query.push(pair(key, v));
            assert(pairs_view(final(query)@) =~= pairs_view(old(query)@) + opt_pair(key@, opt_text(value)));
        },
        None => {
            assert(pairs_view(final(query)@) =~= pairs_view(old(query)@) + opt_pair(key@, opt_text(value)));
        },
    }
}

/// A copy of a list of query pairs.
pub fn copy_pairs(q: &Vec<(String, String)>) -> (r: Vec<(String, String)>)
    ensures
        pairs_view(r@) == pairs_view(q@),
{
    let mut r: Vec<(String, String)> = Vec::new();
    let mut i: usize = 0;
    while i < q.len()
        invariant
            i <= q.len(),
            pairs_view(r@) == pairs_view(q@.subrange(0, i as int)),
        decreases q.len() - i,
    {
        let ghost before = r@;
        let k = q[i].0.clone();
        let v = q[i].1.clone();
        r.push((k, v));
        assert(pairs_view(r@) =~= pairs_view(before).push((q@[i as int].0@, q@[i as int].1@)));
        assert(pairs_view(q@.subrange(0, i + 1)) =~= pairs_view(q@.subrange(0, i as int)).push(
            (q@[i as int].0@, q@[i as int].1@),
        ));
        i += 1;
    }
    assert(q@.subrange(0, q.len() as int) =~= q@);
    r
}

/// A copy of an optional text.
pub fn copy_opt(o: &Option<String>) -> (r: Option<String>)
    ensures
        opt_text(r) == opt_text(*o),
{
    match o {
        Some(s) => Some(s.clone()),
        None => None,
    }
}

/// A request with no query and no body.
pub open spec fn plain(method: Method, url: Seq<char>) -> RequestModel {
    RequestModel { method, url, query: Seq::empty(), body: None }
}

/// A request with a query and no body.
pub open spec fn with_query(method: Method, url: Seq<char>, query: Seq<(Seq<char>, Seq<char>)>) -> RequestModel {
    RequestModel { method, url, query, body: None }
}

/// A request with a JSON body.
pub open spec fn with_body(
    method: Method,
    url: Seq<char>,
    query: Seq<(Seq<char>, Seq<char>)>,
    body: Seq<char>,
) -> RequestModel {
    RequestModel { method, url, query, body: Some(body) }
}

/// A request to `api(path)` with no query and no body.
pub fn plain_request(method: Method, path: &str) -> (r: RequestDescriptor)
    ensures
        r@ == plain(method, api(path@)),
{
    let r = RequestDescriptor { method, url: api_url(path), query: Vec::new(), body: None };
    assert(r@.query =~= Seq::<(Seq<char>, Seq<char>)>::empty());
    r
}

/// A request to `api(head + id + tail)` with no query and no body.
pub fn plain_request_with(method: Method, head: &str, id: &str, tail: &str) -> (r: RequestDescriptor)
    ensures
        r@ == plain(method, api(head@ + id@ + tail@)),
{
    let r = RequestDescriptor { method, url: api_url_with(head, id, tail), query: Vec::new(), body: None };
    assert(r@.query =~= Seq::<(Seq<char>, Seq<char>)>::empty());
    r
}

impl RequestDescriptor {
    /// A request with no query and no body.
    pub fn new(method: Method, url: String) -> (r: Self)
        ensures
            r@.method == method,
            r@.url == url@,
            r@.query == Seq::<(Seq<char>, Seq<char>)>::empty(),
            r@.body == None::<Seq<char>>,
    {
        let r = RequestDescriptor { method, url, query: Vec::new(), body: None };
        assert(r@.query =~= Seq::<(Seq<char>, Seq<char>)>::empty());
        r
    }

    /// A copy with the same method, address, query and body.
    pub fn duplicate(&self) -> (r: Self)
        ensures
            r@ == self@,
    {
        RequestDescriptor {
            method: self.method,
            url: self.url.clone(),
            query: copy_pairs(&self.query),
            body: copy_opt(&self.body),
        }
    }
}

/// The value of an `Authorization` header for a bearer token.
pub open spec fn bearer(token: Seq<char>) -> Seq<char> {
    "Bearer "@ + token
}

/// A request ready to go out: a descriptor and the credentials it carries.
#[derive(Clone, Debug)]
pub struct OutboundRequest {
    pub request: RequestDescriptor,
    pub authorization: String,
}

/// Attaches a bearer token to a copy of `request`; `request` itself is left as it is.
pub fn authorize(request: &RequestDescriptor, token: &str) -> (r: OutboundRequest)
    ensures
        r.request@ == request@,
        r.authorization@ == bearer(token@),
{
    let mut authorization = String::from_str("Bearer ");
    authorization.append(token);
    OutboundRequest { request: request.duplicate(), authorization }
}

} // verus!
