//! The identity-provider side of the flow: the authorization URL the browser
//! is redirected to, the token-exchange and profile-fetch requests the caller
//! must perform, and the decoded shapes of what the provider answers. The
//! two network calls themselves are the caller's; an outcome of either call
//! is handed back to the flow as a plain value.

use vstd::prelude::*;
use vstd::string::StringExecFns;

verus! {

/// The authorization URL: the fixed endpoint and scope with the client
/// identifier, redirect target and CSRF state token embedded as query
/// parameters, in that order.
pub open spec fn authorize_url_spec(
    client_id: Seq<char>,
    redirect_uri: Seq<char>,
    state: Seq<char>,
) -> Seq<char> {
    "https://github.com/login/oauth/authorize?scope=user:email&client_id="@ + client_id
        + "&redirect_uri="@ + redirect_uri + "&state="@ + state
}

/// Builds the URL the start step redirects the browser to.
pub fn authorize_url(client_id: &str, redirect_uri: &str, state: &str) -> (url: String)
    ensures
        url@ == authorize_url_spec(client_id@, redirect_uri@, state@),
{
    let mut url = String::from_str(
        "https://github.com/login/oauth/authorize?scope=user:email&client_id=",
    );
    url.append(client_id);
    url.append("&redirect_uri=");
    url.append(redirect_uri);
    url.append("&state=");
    url.append(state);
    url
}

/// The token-exchange URL: the fixed endpoint with the authorization code,
/// client identifier, client secret and redirect target embedded as query
/// parameters, in that order.
pub open spec fn token_url_spec(
    code: Seq<char>,
    client_id: Seq<char>,
    client_secret: Seq<char>,
    redirect_uri: Seq<char>,
) -> Seq<char> {
    "https://github.com/login/oauth/access_token?code="@ + code + "&client_id="@ + client_id
        + "&client_secret="@ + client_secret + "&redirect_uri="@ + redirect_uri
}

/// The outbound token-exchange call the caller must perform: a POST to
/// `url` carrying the `accept` value as the `Accept` header, asking the
/// provider for a structured response.
#[derive(Clone, Debug)]
pub struct TokenRequest {
    pub url: String,
    pub accept: String,
}

/// Builds the token-exchange request for an authorization code.
pub fn token_request(
    code: &str,
    client_id: &str,
    client_secret: &str,
    redirect_uri: &str,
) -> (r: TokenRequest)
    ensures
        r.url@ == token_url_spec(code@, client_id@, client_secret@, redirect_uri@),
        r.accept@ == "application/json"@,
{
    let mut url = String::from_str("https://github.com/login/oauth/access_token?code=");
    url.append(code);
    url.append("&client_id=");
    url.append(client_id);
    url.append("&client_secret=");
    url.append(client_secret);
    url.append("&redirect_uri=");
    url.append(redirect_uri);
    TokenRequest { url, accept: String::from_str("application/json") }
}

/// The decoded token-exchange response, abstracted to character sequences.
pub struct TokenResponseView {
    pub access_token: Seq<char>,
    pub token_type: Seq<char>,
    pub scope: Seq<char>,
}

/// What a successful token exchange decodes to.
#[derive(Clone, Debug)]
pub struct TokenResponse {
    pub access_token: String,
    pub token_type: String,
    pub scope: String,
}

impl View for TokenResponse {
    type V = TokenResponseView;

    open spec fn view(&self) -> TokenResponseView {
        TokenResponseView {
            access_token: self.access_token@,
            token_type: self.token_type@,
            scope: self.scope@,
        }
    }
}

/// How a token-exchange call ended, abstracted.
pub enum ExchangeView {
    Response(TokenResponseView),
    TransportError,
    DecodeError,
}

/// How the caller's token-exchange call ended: a decoded response, a
/// transport failure, or a response that would not decode.
pub enum ExchangeOutcome {
    Response(TokenResponse),
    TransportError,
    DecodeError,
}

impl View for ExchangeOutcome {
    type V = ExchangeView;

    open spec fn view(&self) -> ExchangeView {
        match self {
            ExchangeOutcome::Response(r) => ExchangeView::Response(r@),
            ExchangeOutcome::TransportError => ExchangeView::TransportError,
            ExchangeOutcome::DecodeError => ExchangeView::DecodeError,
        }
    }
}

/// The outbound profile-fetch call the caller must perform: a GET to `url`
/// with the given provider API version, `Accept` value and user agent as
/// headers, and `bearer_token` as the bearer credential.
#[derive(Clone, Debug)]
pub struct ProfileRequest {
    pub url: String,
    pub api_version: String,
    pub accept: String,
    pub user_agent: String,
    pub bearer_token: String,
}

/// Builds the profile-fetch request for an access token.
pub fn profile_request(token: String) -> (r: ProfileRequest)
    ensures
        r.url@ == "https://api.github.com/user"@,
        r.api_version@ == "2022-11-28"@,
        r.accept@ == "application/json"@,
        r.user_agent@ == "Caveman Learn App"@,
        r.bearer_token@ == token@,
{
    ProfileRequest {
        url: String::from_str("https://api.github.com/user"),
        api_version: String::from_str("2022-11-28"),
        accept: String::from_str("application/json"),
        user_agent: String::from_str("Caveman Learn App"),
        bearer_token: token,
    }
}

/// An optional string abstracted to an optional character sequence.
pub open spec fn opt_view(o: Option<String>) -> Option<Seq<char>> {
    match o {
        Some(s) => Some(s@),
        None => None,
    }
}

/// The provider-reported account snapshot, abstracted.
pub struct UserProfileView {
    pub login: Seq<char>,
    pub id: u64,
    pub node_id: Seq<char>,
    pub avatar_url: Seq<char>,
    pub gravatar_id: Option<Seq<char>>,
    pub url: Seq<char>,
    pub html_url: Seq<char>,
    pub followers_url: Seq<char>,
    pub following_url: Seq<char>,
    pub gists_url: Seq<char>,
    pub starred_url: Seq<char>,
    pub subscriptions_url: Seq<char>,
    pub organizations_url: Seq<char>,
    pub repos_url: Seq<char>,
    pub events_url: Seq<char>,
    pub received_events_url: Seq<char>,
    pub type_: Option<Seq<char>>,
    pub site_admin: bool,
    pub name: Seq<char>,
    pub company: Option<Seq<char>>,
    pub blog: Option<Seq<char>>,
    pub location: Option<Seq<char>>,
    pub email: Option<Seq<char>>,
    pub hireable: bool,
    pub bio: Option<Seq<char>>,
    pub twitter_username: Option<Seq<char>>,
    pub public_repos: u64,
    pub public_gists: u64,
    pub followers: u64,
    pub following: u64,
    pub created_at: Seq<char>,
    pub updated_at: Seq<char>,
}

/// What a successful profile fetch decodes to: a read-only snapshot of the
/// provider-reported account attributes.
#[derive(Clone, Debug)]
pub struct UserProfile {
    pub login: String,
    pub id: u64,
    pub node_id: String,
    pub avatar_url: String,
    pub gravatar_id: Option<String>,
    pub url: String,
    pub html_url: String,
    pub followers_url: String,
    pub following_url: String,
    pub gists_url: String,
    pub starred_url: String,
    pub subscriptions_url: String,
    pub organizations_url: String,
    pub repos_url: String,
    pub events_url: String,
    pub received_events_url: String,
    pub type_: Option<String>,
    pub site_admin: bool,
    pub name: String,
    pub company: Option<String>,
    pub blog: Option<String>,
    pub location: Option<String>,
    pub email: Option<String>,
    pub hireable: bool,
    pub bio: Option<String>,
    pub twitter_username: Option<String>,
    pub public_repos: u64,
    pub public_gists: u64,
    pub followers: u64,
    pub following: u64,
    pub created_at: String,
    pub updated_at: String,
}

impl View for UserProfile {
    type V = UserProfileView;

    open spec fn view(&self) -> UserProfileView {
        UserProfileView {
            login: self.login@,
            id: self.id,
            node_id: self.node_id@,
            avatar_url: self.avatar_url@,
            gravatar_id: opt_view(self.gravatar_id),
            url: self.url@,
            html_url: self.html_url@,
            followers_url: self.followers_url@,
            following_url: self.following_url@,
            gists_url: self.gists_url@,
            starred_url: self.starred_url@,
            subscriptions_url: self.subscriptions_url@,
            organizations_url: self.organizations_url@,
            repos_url: self.repos_url@,
            events_url: self.events_url@,
            received_events_url: self.received_events_url@,
            type_: opt_view(self.type_),
            site_admin: self.site_admin,
            name: self.name@,
            company: opt_view(self.company),
            blog: opt_view(self.blog),
            location: opt_view(self.location),
            email: opt_view(self.email),
            hireable: self.hireable,
            bio: opt_view(self.bio),
            twitter_username: opt_view(self.twitter_username),
            public_repos: self.public_repos,
            public_gists: self.public_gists,
            followers: self.followers,
            following: self.following,
            created_at: self.created_at@,
            updated_at: self.updated_at@,
        }
    }
}

/// How a profile fetch ended, abstracted.
pub enum ProfileView {
    Response(UserProfileView),
    TransportError,
    DecodeError,
}

/// How the caller's profile-fetch call ended: a decoded snapshot, a
/// transport failure, or a response that would not decode.
pub enum ProfileOutcome {
    Response(UserProfile),
    TransportError,
    DecodeError,
}

impl View for ProfileOutcome {
    type V = ProfileView;

    open spec fn view(&self) -> ProfileView {
        match self {
            ProfileOutcome::Response(p) => ProfileView::Response(p@),
            ProfileOutcome::TransportError => ProfileView::TransportError,
            ProfileOutcome::DecodeError => ProfileView::DecodeError,
        }
    }
}

} // verus!
