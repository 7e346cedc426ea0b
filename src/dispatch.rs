//! The authenticated dispatcher: session tokens, the request parameters that
//! every call carries, and the decisions of the send / refresh / retry loop.
//!
//! The loop itself performs network work, so it is driven from outside: the
//! driver asks `begin` for the first action, performs each action, and hands
//! back what came of it to `advance`, until the action is terminal.
use vstd::prelude::*;
use crate::country::{alpha2_string, is_alpha2};
use crate::request::{RequestDescriptor, RequestModel, OutboundRequest, authorize, bearer, opt_pair, opt_text, pair, pairs_view};
use crate::text::{decimal, decimal_text};

verus! {

/// How many token refreshes one logical call may make before it gives up.
pub const MAX_REFRESHES: u32 = 3;

/// The status that asks for fresh credentials.
pub const UNAUTHORIZED: u16 = 401;

/// The statuses that deliver a response: OK, Created, Accepted, No Content.
pub open spec fn is_success(status: u16) -> bool {
    status == 200 || status == 201 || status == 202 || status == 204
}

pub fn status_is_success(status: u16) -> (r: bool)
    ensures
        r == is_success(status),
{
    status == 200 || status == 201 || status == 202 || status == 204
}

/// The session and the per-call parameters shared by every request of a client.
#[derive(Clone, Debug, Default)]
pub struct RequestClient {
    access_token: String,
    refresh_token: String,
    offset: Option<u32>,
    limit: Option<u32>,
    market: Option<isocountry::CountryCode>,
    country: Option<isocountry::CountryCode>,
}

pub struct ClientModel {
    pub access_token: Seq<char>,
    pub refresh_token: Seq<char>,
    pub offset: Option<u32>,
    pub limit: Option<u32>,
    pub market: Option<isocountry::CountryCode>,
    pub country: Option<isocountry::CountryCode>,
}

impl View for RequestClient {
    type V = ClientModel;

    closed spec fn view(&self) -> ClientModel {
        ClientModel {
            access_token: self.access_token@,
            refresh_token: self.refresh_token@,
            offset: self.offset,
            limit: self.limit,
            market: self.market,
            country: self.country,
        }
    }
}

/// What the driver of a call reports back.
#[derive(Clone, Debug)]
pub enum DispatchEvent {
    /// The request went out and the server answered with this status.
    Responded(u16),
    /// The refresh exchange produced this access token.
    Refreshed(String),
    /// The refresh exchange failed.
    RefreshFailed,
    /// The request could not be sent or no answer came (DNS, TLS, timeout).
    TransportFailed,
}

/// Why a call ended without a response.
#[derive(Clone, Copy, Debug, PartialEq, Eq, Structural)]
pub enum DispatchError {
    Transport,
    Refresh,
    /// The server kept refusing freshly refreshed credentials.
    ReauthenticationRequired,
}

/// What the driver of a call does next.
#[derive(Clone, Debug)]
pub enum DispatchAction {
    /// Send the request with this bearer token.
    Send(String),
    /// Exchange this refresh token for a new access token.
    Refresh(String),
    /// Hand the response just received to the caller.
    Deliver,
    /// End the call with no result: the server refused it.
    NoResult,
    /// End the call with an error.
    Fail(DispatchError),
}

pub enum EventModel {
    Responded(u16),
    Refreshed(Seq<char>),
    RefreshFailed,
    TransportFailed,
}

pub enum ActionModel {
    Send(Seq<char>),
    Refresh(Seq<char>),
    Deliver,
    NoResult,
    Fail(DispatchError),
}

impl View for DispatchEvent {
    type V = EventModel;

    open spec fn view(&self) -> EventModel {
        match self {
            DispatchEvent::Responded(s) => EventModel::Responded(*s),
            DispatchEvent::Refreshed(t) => EventModel::Refreshed(t@),
            DispatchEvent::RefreshFailed => EventModel::RefreshFailed,
            DispatchEvent::TransportFailed => EventModel::TransportFailed,
        }
    }
}

impl View for DispatchAction {
    type V = ActionModel;

    open spec fn view(&self) -> ActionModel {
        match self {
            DispatchAction::Send(t) => ActionModel::Send(t@),
            DispatchAction::Refresh(t) => ActionModel::Refresh(t@),
            DispatchAction::Deliver => ActionModel::Deliver,
            DispatchAction::NoResult => ActionModel::NoResult,
            DispatchAction::Fail(e) => ActionModel::Fail(*e),
        }
    }
}

/// The progress of one logical call.
#[derive(Clone, Copy, Debug)]
pub struct Dispatch {
    refreshes: u32,
}

impl Dispatch {
    /// How many refreshes this call has asked for.
    pub closed spec fn refreshes(&self) -> nat {
        self.refreshes as nat
    }
}

/// The session, the call's progress and the action after one event.
pub struct StepModel {
    pub client: ClientModel,
    pub refreshes: nat,
    pub action: ActionModel,
}

/// The dispatcher's rule: how the session and the call move on an event.
pub open spec fn next_step(c: ClientModel, refreshes: nat, e: EventModel) -> StepModel {
    match e {
        EventModel::Responded(status) => if is_success(status) {
            StepModel { client: c, refreshes, action: ActionModel::Deliver }
        } else if status == UNAUTHORIZED {
            if refreshes < MAX_REFRESHES {
                StepModel { client: c, refreshes: refreshes + 1, action: ActionModel::Refresh(c.refresh_token) }
            } else {
                StepModel {
                    client: c,
                    refreshes,
                    action: ActionModel::Fail(DispatchError::ReauthenticationRequired),
                }
            }
        } else {
            StepModel { client: c, refreshes, action: ActionModel::NoResult }
        },
        EventModel::Refreshed(t) => StepModel {
            client: ClientModel { access_token: t, ..c },
            refreshes,
            action: ActionModel::Send(t),
        },
        EventModel::RefreshFailed => StepModel {
            client: c,
            refreshes,
            action: ActionModel::Fail(DispatchError::Refresh),
        },
        EventModel::TransportFailed => StepModel {
            client: c,
            refreshes,
            action: ActionModel::Fail(DispatchError::Transport),
        },
    }
}

/// The query pairs that a client's per-call parameters add, given the
/// two-letter codes of its market and country.
pub open spec fn parameter_pairs(
    offset: Option<u32>,
    limit: Option<u32>,
    market: Option<Seq<char>>,
    country: Option<Seq<char>>,
) -> Seq<(Seq<char>, Seq<char>)> {
    opt_pair("offset"@, match offset { Some(o) => Some(decimal(o as nat)), None => None })
        + opt_pair("limit"@, match limit { Some(l) => Some(decimal(l as nat)), None => None })
        + opt_pair("market"@, market)
        + opt_pair("country"@, country)
}

/// `request` with the pairs of `parameter_pairs` appended to its query.
pub open spec fn with_parameters(
    request: RequestModel,
    offset: Option<u32>,
    limit: Option<u32>,
    market: Option<Seq<char>>,
    country: Option<Seq<char>>,
) -> RequestModel {
    RequestModel {
        query: request.query + parameter_pairs(offset, limit, market, country),
        ..request
    }
}

fn push_number(query: &mut Vec<(String, String)>, key: &str, value: Option<u32>)
    ensures
        pairs_view(final(query)@) == pairs_view(old(query)@) + opt_pair(
            key@,
            match value { Some(v) => Some(decimal(v as nat)), None => None },
        ),
{
    if let Some(v) = value {
        query.push(pair(key, decimal_text(v as u64)));
    }
    assert(pairs_view(final(query)@) =~= pairs_view(old(query)@) + opt_pair(
        key@,
        match value { Some(v) => Some(decimal(v as nat)), None => None },
    ));
}

fn push_text(query: &mut Vec<(String, String)>, key: &str, value: Option<String>)
    ensures
        pairs_view(final(query)@) == pairs_view(old(query)@) + opt_pair(
            key@,
            opt_text(value),
        ),
{
    match value {
        Some(v) => query.push(pair(key, v)),
        None => {},
    }
    assert(pairs_view(final(query)@) =~= pairs_view(old(query)@) + opt_pair(
        key@,
        opt_text(value),
    ));
}

/// Appends the per-call parameters to a request, the codes of market and
/// country given as text.
pub fn add_parameters(
    request: RequestDescriptor,
    offset: Option<u32>,
    limit: Option<u32>,
    market: Option<String>,
    country: Option<String>,
) -> (r: RequestDescriptor)
    ensures
        r@ == with_parameters(
            request@,
            offset,
            limit,
            opt_text(market),
            opt_text(country),
        ),
{
    let ghost m = opt_text(market);
    let ghost c = opt_text(country);
    let mut r = request;
    push_number(&mut r.query, "offset", offset);
    push_number(&mut r.query, "limit", limit);
    push_text(&mut r.query, "market", market);
    push_text(&mut r.query, "country", country);
    assert(r@.query =~= request@.query + parameter_pairs(offset, limit, m, c));
    r
}

fn code_of(c: Option<isocountry::CountryCode>) -> (r: Option<String>)
    ensures
        r.is_some() == c.is_some(),
        r matches Some(s) ==> is_alpha2(s@),
{
    match c {
        Some(code) => Some(alpha2_string(&code)),
        None => None,
    }
}

/// A call after a sequence of events, begun with no refreshes.
pub open spec fn run_events(c: ClientModel, events: Seq<EventModel>) -> StepModel
    decreases events.len(),
{
    if events.len() == 0 {
        StepModel { client: c, refreshes: 0, action: ActionModel::Send(c.access_token) }
    } else {
        let s = run_events(c, events.drop_last());
        next_step(s.client, s.refreshes, events.last())
    }
}

/// How many refreshes a call asks for over a sequence of events.
pub open spec fn refreshes_asked(c: ClientModel, events: Seq<EventModel>) -> nat
    decreases events.len(),
{
    if events.len() == 0 {
        0
    } else {
        let s = run_events(c, events.drop_last());
        refreshes_asked(c, events.drop_last()) + if next_step(s.client, s.refreshes, events.last()).action
            is Refresh {
            1nat
        } else {
            0nat
        }
    }
}

proof fn lemma_refresh_count(c: ClientModel, events: Seq<EventModel>)
    ensures
        refreshes_asked(c, events) == run_events(c, events).refreshes,
        run_events(c, events).refreshes <= MAX_REFRESHES,
    decreases events.len(),
{
    if events.len() > 0 {
        lemma_refresh_count(c, events.drop_last());
    }
}

/// Whatever the server and the token endpoint answer, one call asks for at
/// most `MAX_REFRESHES` refreshes: the refresh-and-retry loop is bounded.
pub proof fn lemma_call_refreshes_bounded(c: ClientModel, events: Seq<EventModel>)
    ensures
        refreshes_asked(c, events) <= MAX_REFRESHES,
{
    lemma_refresh_count(c, events);
}

/// The session's access token after a sequence of events: the token of the
/// last refresh among them, or the starting token where none came.
pub open spec fn latest_token(start: Seq<char>, events: Seq<EventModel>) -> Seq<char>
    decreases events.len(),
{
    if events.len() == 0 {
        start
    } else {
        match events.last() {
            EventModel::Refreshed(t) => t,
            _ => latest_token(start, events.drop_last()),
        }
    }
}

/// Over a whole call, the session holds the token of the latest refresh, the
/// refresh token never changes, and every send carries the latest token.
pub proof fn lemma_sends_carry_latest_token(c: ClientModel, events: Seq<EventModel>)
    ensures
        run_events(c, events).client.access_token == latest_token(c.access_token, events),
        run_events(c, events).client.refresh_token == c.refresh_token,
        run_events(c, events).action matches ActionModel::Send(t) ==> t == latest_token(c.access_token, events),
    decreases events.len(),
{
    if events.len() > 0 {
        lemma_sends_carry_latest_token(c, events.drop_last());
    }
}

proof fn lemma_latest_not_stale(c: ClientModel, events: Seq<EventModel>, k: int, token: Seq<char>, i: int)
    requires
        0 <= k < events.len(),
        events[k] == EventModel::Refreshed(token),
        token != c.access_token,
        forall|j: int| k < j < events.len() ==> events[j] != EventModel::Refreshed(c.access_token),
        k < i <= events.len(),
    ensures
        latest_token(c.access_token, events.take(i)) != c.access_token,
    decreases i,
{
    let p = events.take(i);
    assert(p.drop_last() =~= events.take(i - 1));
    assert(p.last() == events[i - 1]);
    if i > k + 1 {
        lemma_latest_not_stale(c, events, k, token, i - 1);
    }
}

/// No stale token after a refresh: once a refresh has brought a token other
/// than the one the call started with, the request goes out again with the
/// new token at once, and, as long as no later refresh brings the old token
/// back, no later send of the call carries the old one.
pub proof fn lemma_no_stale_token_after_refresh(c: ClientModel, events: Seq<EventModel>, k: int, token: Seq<char>)
    requires
        0 <= k < events.len(),
        events[k] == EventModel::Refreshed(token),
        token != c.access_token,
        forall|j: int| k < j < events.len() ==> events[j] != EventModel::Refreshed(c.access_token),
    ensures
        run_events(c, events.take(k + 1)).action == ActionModel::Send(token),
        forall|i: int|
            k < i <= events.len() ==> ((#[trigger] run_events(c, events.take(i))).action matches ActionModel::Send(
                t,
            ) ==> t != c.access_token),
{
    assert(events.take(k + 1).drop_last() =~= events.take(k));
    assert forall|i: int| k < i <= events.len() implies ((#[trigger] run_events(c, events.take(i))).action matches ActionModel::Send(
        t,
    ) ==> t != c.access_token) by {
        lemma_latest_not_stale(c, events, k, token, i);
        lemma_sends_carry_latest_token(c, events.take(i));
    }
}

/// A call whose first answer is 401 asks for a refresh with the session's
/// refresh token; the token that the refresh brings becomes the session's
/// access token and is the one the request is sent with again; the second
/// answer then decides the call, and the old token is not used again.
pub proof fn lemma_retry_after_unauthorized(c: ClientModel, token: Seq<char>, status: u16)
    ensures
        ({
            let s1 = next_step(c, 0, EventModel::Responded(UNAUTHORIZED));
            let s2 = next_step(s1.client, s1.refreshes, EventModel::Refreshed(token));
            let s3 = next_step(s2.client, s2.refreshes, EventModel::Responded(status));
            &&& s1.action == ActionModel::Refresh(c.refresh_token)
            &&& s1.client == c
            &&& s2.action == ActionModel::Send(token)
            &&& s2.client.access_token == token
            &&& s2.client.refresh_token == c.refresh_token
            &&& s3.client == s2.client
            &&& (is_success(status) ==> s3.action == ActionModel::Deliver)
            &&& (!is_success(status) && status != UNAUTHORIZED ==> s3.action == ActionModel::NoResult)
            &&& (status == UNAUTHORIZED ==> s3.action == ActionModel::Refresh(c.refresh_token))
        }),
{
}

/// Every request is sent with the session's access token as it stands after
/// the step that asks for the send.
pub proof fn lemma_send_uses_current_token(c: ClientModel, refreshes: nat, e: EventModel)
    ensures
        next_step(c, refreshes, e).action matches ActionModel::Send(t) ==> t == next_step(
            c,
            refreshes,
            e,
        ).client.access_token,
{
}

/// An answer that is neither a success nor 401 ends the call with no result,
/// with no refresh and the session unchanged.
pub proof fn lemma_refused_status_is_terminal(c: ClientModel, refreshes: nat, status: u16)
    requires
        !is_success(status),
        status != UNAUTHORIZED,
    ensures
        next_step(c, refreshes, EventModel::Responded(status)) == (StepModel {
            client: c,
            refreshes,
            action: ActionModel::NoResult,
        }),
{
}

/// Refreshes are bounded: once a call has made `MAX_REFRESHES` of them, a
/// further 401 ends it with `ReauthenticationRequired`.
pub proof fn lemma_refreshes_are_bounded(c: ClientModel, refreshes: nat)
    requires
        refreshes >= MAX_REFRESHES,
    ensures
        next_step(c, refreshes, EventModel::Responded(UNAUTHORIZED)).action == ActionModel::Fail(
            DispatchError::ReauthenticationRequired,
        ),
{
}

/// Sending one request again after a refresh that brought a different token
/// makes a second outbound request whose credentials differ from the first.
pub proof fn lemma_resend_after_refresh(c: ClientModel, refreshes: nat, token: Seq<char>)
    requires
        token != c.access_token,
    ensures
        ({
            let s = next_step(c, refreshes, EventModel::Refreshed(token));
            &&& s.action == ActionModel::Send(token)
            &&& bearer(c.access_token) != bearer(s.client.access_token)
        }),
{
    let prefix = "Bearer "@;
    if bearer(c.access_token) == bearer(token) {
        assert(c.access_token =~= bearer(c.access_token).subrange(prefix.len() as int, bearer(c.access_token).len() as int));
        assert(token =~= bearer(token).subrange(prefix.len() as int, bearer(token).len() as int));
    }
}

impl RequestClient {
    /// A client with the given session and no per-call parameters.
    pub fn new(access_token: &str, refresh_token: &str) -> (r: Self)
        ensures
            r@.access_token == access_token@,
            r@.refresh_token == refresh_token@,
            r@.offset.is_none(),
            r@.limit.is_none(),
            r@.market.is_none(),
            r@.country.is_none(),
    {
        RequestClient {
            access_token: String::from_str(access_token),
            refresh_token: String::from_str(refresh_token),
            offset: None,
            limit: None,
            market: None,
            country: None,
        }
    }

    pub fn set_offset(&mut self, offset: Option<u32>)
        ensures
            final(self)@ == (ClientModel { offset, ..old(self)@ }),
    {
        self.offset = offset;
    }

    pub fn set_limit(&mut self, limit: Option<u32>)
        ensures
            final(self)@ == (ClientModel { limit, ..old(self)@ }),
    {
        self.limit = limit;
    }

    pub fn set_market(&mut self, market: Option<isocountry::CountryCode>)
        ensures
            final(self)@ == (ClientModel { market, ..old(self)@ }),
    {
        self.market = market;
    }

    pub fn set_country(&mut self, country: Option<isocountry::CountryCode>)
        ensures
            final(self)@ == (ClientModel { country, ..old(self)@ }),
    {
        self.country = country;
    }

    /// `request` with this client's offset, limit, market and country appended
    /// to its query, each only where it is set.
    pub fn prepare(&self, request: RequestDescriptor) -> (r: RequestDescriptor)
        ensures
            exists|m: Option<Seq<char>>, c: Option<Seq<char>>| {
                &&& m.is_some() == self@.market.is_some()
                &&& c.is_some() == self@.country.is_some()
                &&& (m matches Some(t) ==> is_alpha2(t))
                &&& (c matches Some(t) ==> is_alpha2(t))
                &&& r@ == with_parameters(request@, self@.offset, self@.limit, m, c)
            },
    {
        let market = code_of(self.market);
        let country = code_of(self.country);
        let ghost m = opt_text(market);
        let ghost c = opt_text(country);
        let r = add_parameters(request, self.offset, self.limit, market, country);
        assert(m matches Some(t) ==> is_alpha2(t));
        assert(c matches Some(t) ==> is_alpha2(t));
        r
    }

    /// Starts a call: its first action sends the request with the current token.
    pub fn begin(&self) -> (r: (Dispatch, DispatchAction))
        ensures
            r.0.refreshes() == 0,
            r.1@ == ActionModel::Send(self@.access_token),
    {
        (Dispatch { refreshes: 0 }, DispatchAction::Send(self.access_token.clone()))
    }

    /// Moves a call on by one event, following `next_step`. A token that a
    /// refresh brings replaces the session's access token, and every later
    /// `Send` carries it.
    pub fn advance(&mut self, d: &mut Dispatch, event: DispatchEvent) -> (a: DispatchAction)
        ensures
            next_step(old(self)@, old(d).refreshes(), event@) == (StepModel {
                client: final(self)@,
                refreshes: final(d).refreshes(),
                action: a@,
            }),
            old(d).refreshes() <= MAX_REFRESHES ==> final(d).refreshes() <= MAX_REFRESHES,
    {
        match event {
            DispatchEvent::Responded(status) => {
                if status_is_success(status) {
                    DispatchAction::Deliver
                } else if status == UNAUTHORIZED {
                    if d.refreshes < MAX_REFRESHES {
                        d.refreshes = d.refreshes + 1;
                        DispatchAction::Refresh(self.refresh_token.clone())
                    } else {
                        DispatchAction::Fail(DispatchError::ReauthenticationRequired)
                    }
                } else {
                    DispatchAction::NoResult
                }
            },
            DispatchEvent::Refreshed(token) => {
                self.access_token = token.clone();
                DispatchAction::Send(token)
            },
            DispatchEvent::RefreshFailed => DispatchAction::Fail(DispatchError::Refresh),
            DispatchEvent::TransportFailed => DispatchAction::Fail(DispatchError::Transport),
        }
    }

    /// The request as it goes out now: a copy of `request` with the current
    /// access token.
    pub fn authorize(&self, request: &RequestDescriptor) -> (r: OutboundRequest)
        ensures
            r.request@ == request@,
            r.authorization@ == bearer(self@.access_token),
    {
        authorize(request, self.access_token.as_str())
    }
}

} // verus!
