//! Authorization: permission scopes, the authorize address a user is sent
//! to, and the forms of the two token exchanges.
use vstd::prelude::*;
use rand::Rng;
use crate::request::{pair, pairs_view};
use crate::text::{joined, join, bool_text, bool_string};

verus! {

/// A permission the application asks the user for.
#[derive(Clone, Copy, Debug, PartialEq, Eq, Structural)]
pub enum Scope {
    UserReadPrivate,
    UserReadEmail,
    Streaming,
    AppRemoteControl,
    UserTopRead,
    UserReadRecentlyPlayed,
    UserLibraryRead,
    UserLibraryModify,
    PlaylistReadCollaborative,
    PlaylistReadPrivate,
    PlaylistModifyPublic,
    PlaylistModifyPrivate,
    UserReadCurrentlyPlaying,
    UserReadPlaybackState,
    UserModifyPlaybackState,
    UserFollowRead,
    UserFollowModify,
}

/// The name of a scope in the authorize address.
pub open spec fn scope_name(s: Scope) -> Seq<char> {
    match s {
        Scope::UserReadPrivate => "user-read-private"@,
        Scope::UserReadEmail => "user-read-email"@,
        Scope::Streaming => "streaming"@,
        Scope::AppRemoteControl => "app-remote-control"@,
        Scope::UserTopRead => "user-top-read"@,
        Scope::UserReadRecentlyPlayed => "user-read-recently-played"@,
        Scope::UserLibraryRead => "user-library-read"@,
        Scope::UserLibraryModify => "user-library-modify"@,
        Scope::PlaylistReadCollaborative => "playlist-read-collaborative"@,
        Scope::PlaylistReadPrivate => "playlist-read-private"@,
        Scope::PlaylistModifyPublic => "playlist-modify-public"@,
        Scope::PlaylistModifyPrivate => "playlist-modify-private"@,
        Scope::UserReadCurrentlyPlaying => "user-read-currently-playing"@,
        Scope::UserReadPlaybackState => "user-read-playback-state"@,
        Scope::UserModifyPlaybackState => "user-modify-playback-state"@,
        Scope::UserFollowRead => "user-follow-read"@,
        Scope::UserFollowModify => "user-follow-modify"@,
    }
}

impl Scope {
    /// The scope's name, as the provider spells it.
    pub fn as_str(&self) -> (r: &'static str)
        ensures
            r@ == scope_name(*self),
    {
        match self {
            Scope::UserReadPrivate => "user-read-private",
            Scope::UserReadEmail => "user-read-email",
            Scope::Streaming => "streaming",
            Scope::AppRemoteControl => "app-remote-control",
            Scope::UserTopRead => "user-top-read",
            Scope::UserReadRecentlyPlayed => "user-read-recently-played",
            Scope::UserLibraryRead => "user-library-read",
            Scope::UserLibraryModify => "user-library-modify",
            Scope::PlaylistReadCollaborative => "playlist-read-collaborative",
            Scope::PlaylistReadPrivate => "playlist-read-private",
            Scope::PlaylistModifyPublic => "playlist-modify-public",
            Scope::PlaylistModifyPrivate => "playlist-modify-private",
            Scope::UserReadCurrentlyPlaying => "user-read-currently-playing",
            Scope::UserReadPlaybackState => "user-read-playback-state",
            Scope::UserModifyPlaybackState => "user-modify-playback-state",
            Scope::UserFollowRead => "user-follow-read",
            Scope::UserFollowModify => "user-follow-modify",
        }
    }
}

/// An ASCII letter or digit.
pub open spec fn is_alphanumeric(c: char) -> bool {
    ('A' <= c <= 'Z') || ('a' <= c <= 'z') || ('0' <= c <= '9')
}

/// Relies on rand 0.8: `thread_rng().sample_iter(&Alphanumeric)` draws
/// bytes from A-Z, a-z and 0-9 only; `take(length)` keeps `length` of them.
#[verifier::external_body]
fn random_alphanumeric(length: usize) -> (r: String)
    ensures
        r@.len() == length,
        forall|i: int| 0 <= i < length ==> is_alphanumeric(#[trigger] r@[i]),
{
    rand::thread_rng().sample_iter(&rand::distributions::Alphanumeric).take(length).map(char::from).collect()
}

/// The address that a base and form-urlencoded query pairs make.
pub uninterp spec fn url_with_params(base: Seq<char>, params: Seq<(Seq<char>, Seq<char>)>) -> Seq<char>;

/// Relies on `Url::parse_with_params` of the url crate (re-exported by
/// reqwest) and on `Url`'s `Display`: the parsed base with the pairs appended,
/// form-urlencoded, as its query. `None` only where the base is not an
/// absolute URL, which the authorize page's address is.
#[verifier::external_body]
fn encode_url(base: &str, params: &Vec<(String, String)>) -> (r: Option<String>)
    ensures
        r matches Some(u) ==> u@ == url_with_params(base@, pairs_view(params@)),
        base@ == authorize_base() ==> r is Some,
{
    match reqwest::Url::parse_with_params(base, params.iter()) {
        Ok(u) => Some(u.to_string()),
        Err(_) => None,
    }
}

/// The provider's authorize page.
pub open spec fn authorize_base() -> Seq<char> {
    "https://accounts.spotify.com/authorize"@
}

/// The provider's token endpoint, for both token exchanges.
pub open spec fn token_endpoint() -> Seq<char> {
    "https://accounts.spotify.com/api/token"@
}

pub fn token_url() -> (r: String)
    ensures
        r@ == token_endpoint(),
{
    String::from_str("https://accounts.spotify.com/api/token")
}

/// The scopes' names separated by spaces.
pub open spec fn scope_list(scopes: Seq<Scope>) -> Seq<char> {
    joined(scopes.map_values(|s: Scope| scope_name(s)), " "@)
}

/// Why no authorize address could be made.
#[derive(Clone, Copy, Debug, PartialEq, Eq, Structural)]
pub enum AuthUrlError {
    /// The address did not parse.
    InvalidUrl,
}

/// What the user is sent to authorize: who asks, where to return, the state
/// echoed back, the scopes, and whether to ask again for approval.
#[derive(Clone, Debug)]
pub struct SpotifyOAuth {
    client_id: String,
    redirect_uri: String,
    state: String,
    scopes: Vec<Scope>,
    show_dialog: bool,
}

pub struct OAuthModel {
    pub client_id: Seq<char>,
    pub redirect_uri: Seq<char>,
    pub state: Seq<char>,
    pub scopes: Seq<Scope>,
    pub show_dialog: bool,
}

impl View for SpotifyOAuth {
    type V = OAuthModel;

    closed spec fn view(&self) -> OAuthModel {
        OAuthModel {
            client_id: self.client_id@,
            redirect_uri: self.redirect_uri@,
            state: self.state@,
            scopes: self.scopes@,
            show_dialog: self.show_dialog,
        }
    }
}

/// The query of the authorize address.
pub open spec fn auth_params(o: OAuthModel) -> Seq<(Seq<char>, Seq<char>)> {
    seq![
        ("client_id"@, o.client_id),
        ("response_type"@, "code"@),
        ("redirect_uri"@, o.redirect_uri),
        ("state"@, o.state),
        ("scope"@, scope_list(o.scopes)),
        ("show_dialog"@, bool_text(o.show_dialog)),
    ]
}

/// The length of the state of a new authorization.
pub const STATE_LENGTH: usize = 12;

impl SpotifyOAuth {
    /// An authorization for a client, with a random state of `STATE_LENGTH`
    /// letters and digits, no scopes and no approval dialog.
    pub fn new(client_id: &str, redirect_uri: &str) -> (r: Self)
        ensures
            r@.client_id == client_id@,
            r@.redirect_uri == redirect_uri@,
            r@.state.len() == STATE_LENGTH,
            forall|i: int| 0 <= i < STATE_LENGTH ==> is_alphanumeric(#[trigger] r@.state[i]),
            r@.scopes == Seq::<Scope>::empty(),
            !r@.show_dialog,
    {
        SpotifyOAuth {
            client_id: String::from_str(client_id),
            redirect_uri: String::from_str(redirect_uri),
            state: random_alphanumeric(STATE_LENGTH),
            scopes: Vec::new(),
            show_dialog: false,
        }
    }

    pub fn set_scopes(&mut self, scopes: &[Scope])
        ensures
            final(self)@ == (OAuthModel { scopes: scopes@, ..old(self)@ }),
    {
        let mut v: Vec<Scope> = Vec::new();
        let mut i: usize = 0;
        while i < scopes.len()
            invariant
                i <= scopes.len(),
                v@ == scopes@.subrange(0, i as int),
            decreases scopes.len() - i,
        {
            v.push(scopes[i]);
            assert(v@ =~= scopes@.subrange(0, i + 1));
            i += 1;
        }
        assert(v@ =~= scopes@);
        self.scopes = v;
    }

    /// Replaces the state with `length` random letters and digits.
    pub fn generate_random_state(&mut self, length: usize)
        ensures
            final(self)@.client_id == old(self)@.client_id,
            final(self)@.redirect_uri == old(self)@.redirect_uri,
            final(self)@.scopes == old(self)@.scopes,
            final(self)@.show_dialog == old(self)@.show_dialog,
            final(self)@.state.len() == length,
            forall|i: int| 0 <= i < length ==> is_alphanumeric(#[trigger] final(self)@.state[i]),
    {
        self.state = random_alphanumeric(length);
    }

    /// The query pairs of the authorize address, in order.
    pub fn auth_query(&self) -> (r: Vec<(String, String)>)
        ensures
            pairs_view(r@) == auth_params(self@),
    {
        let mut names: Vec<String> = Vec::new();
        let mut i: usize = 0;
        while i < self.scopes.len()
            invariant
                i <= self.scopes.len(),
                names@.map_values(|s: String| s@) == self.scopes@.subrange(0, i as int).map_values(
                    |s: Scope| scope_name(s),
                ),
            decreases self.scopes.len() - i,
        {
            let ghost n0 = names@.map_values(|s: String| s@);
            let name = String::from_str(self.scopes[i].as_str());
            names.push(name);
            assert(names@.map_values(|s: String| s@) =~= n0.push(scope_name(self.scopes@[i as int])));
            assert(self.scopes@.subrange(0, i + 1).map_values(|s: Scope| scope_name(s)) =~= self.scopes@.subrange(
                0,
                i as int,
            ).map_values(|s: Scope| scope_name(s)).push(scope_name(self.scopes@[i as int])));
            i += 1;
        }
        assert(self.scopes@.subrange(0, self.scopes.len() as int) =~= self.scopes@);
        let scope = join(&names, " ");
        let mut q: Vec<(String, String)> = Vec::new();
        q.push(pair("client_id", self.client_id.clone()));
        q.push(pair("response_type", String::from_str("code")));
        q.push(pair("redirect_uri", self.redirect_uri.clone()));
        q.push(pair("state", self.state.clone()));
        q.push(pair("scope", scope));
        q.push(pair("show_dialog", bool_string(self.show_dialog)));
        assert(pairs_view(q@) =~= auth_params(self@));
        q
    }

    /// The address the user is sent to, to authorize this client.
    pub fn generate_auth_url(&self) -> (r: Result<String, AuthUrlError>)
        ensures
            r is Ok,
            r matches Ok(u) ==> u@ == url_with_params(authorize_base(), auth_params(self@)),
    {
        let q = self.auth_query();
        match encode_url("https://accounts.spotify.com/authorize", &q) {
            Some(u) => Ok(u),
            None => Err(AuthUrlError::InvalidUrl),
        }
    }
}

/// The form that exchanges an authorization code for tokens.
pub open spec fn code_form(code: Seq<char>, redirect_uri: Seq<char>) -> Seq<(Seq<char>, Seq<char>)> {
    seq![("grant_type"@, "authorization_code"@), ("code"@, code), ("redirect_uri"@, redirect_uri)]
}

/// The form that exchanges a refresh token for a new access token.
pub open spec fn refresh_form(refresh_token: Seq<char>) -> Seq<(Seq<char>, Seq<char>)> {
    seq![("grant_type"@, "refresh_token"@), ("refresh_token"@, refresh_token)]
}

pub fn authorization_code_form(code: &str, redirect_uri: &str) -> (r: Vec<(String, String)>)
    ensures
        pairs_view(r@) == code_form(code@, redirect_uri@),
{
    let mut q: Vec<(String, String)> = Vec::new();
    q.push(pair("grant_type", String::from_str("authorization_code")));
    q.push(pair("code", String::from_str(code)));
    q.push(pair("redirect_uri", String::from_str(redirect_uri)));
    assert(pairs_view(q@) =~= code_form(code@, redirect_uri@));
    q
}

pub fn refresh_token_form(refresh_token: &str) -> (r: Vec<(String, String)>)
    ensures
        pairs_view(r@) == refresh_form(refresh_token@),
{
    let mut q: Vec<(String, String)> = Vec::new();
    q.push(pair("grant_type", String::from_str("refresh_token")));
    q.push(pair("refresh_token", String::from_str(refresh_token)));
    assert(pairs_view(q@) =~= refresh_form(refresh_token@));
    q
}

/// The tokens that an authorization code is exchanged for.
#[derive(Clone, Debug, Default)]
pub struct RequestTokenResponse {
    pub access_token: String,
    pub refresh_token: String,
}

/// The access token that a refresh token is exchanged for.
#[derive(Clone, Debug, Default)]
pub struct RefreshTokenResponse {
    pub access_token: String,
}

} // verus!
