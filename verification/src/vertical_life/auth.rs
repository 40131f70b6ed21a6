//! Opening a session with the identity provider: a login with a proof key
//! (PKCE), and the refresh of a token pair.
//!
//! The caller sends each request and hands back what the provider answered.

use vstd::prelude::*;
use vstd::string::*;
use base64::Engine;
use rand::Rng;
use sha2::Digest;
use crate::error::{AuthCause, AuthError, AuthStep};
use crate::vertical_life::http::{
    find_last_value, last_value, pair, pairs, set_header, with_header, HttpMethod, HttpRequest,
    RequestView,
};

verus! {

/// Where the identity provider answers.
pub const AUTH_BASE_URL: &'static str = "https://vlatka.vertical-life.info";

/// How many random bytes make the nonce of a login.
pub const NONCE_LENGTH: usize = 32;

/// How many random bytes make the state of a login.
pub const STATE_LENGTH: usize = 32;

/// How many random bytes make the code verifier of a login.
pub const VERIFIER_LENGTH: usize = 32;

pub const BROWSER_USER_AGENT_VALUE: &'static str =
    "Mozilla/5.0 (iPhone; CPU iPhone OS 16_1_1 like Mac OS X) AppleWebKit/605.1.15 (KHTML, like Gecko) Version/16.1 Mobile/15E148 Safari/604.1";

pub const APP_USER_AGENT_VALUE: &'static str =
    "Vertical%20Life%20Climbing/4 CFNetwork/1399 Darwin/22.1.0";

pub const ACCEPT_VALUE: &'static str =
    "text/html,application/xhtml+xml,application/xml;q=0.9,*/*;q=0.8";

pub const ACCEPT_LANGUAGE_VALUE: &'static str = "en-US,en;q=0.5";

pub const CLIENT_ID: &'static str = "vertical-life-ios";

/// The selector of the login form.
pub const LOGIN_FORM_ID: &'static str = "#kc-form-login";

/// Where the provider sends the authorization code. Nothing answers there:
/// the redirect is read, not followed.
pub const REDIRECT_URI: &'static str = "vl-climbing://oauth2redirect";

/// The tokens that the provider issues.
#[derive(Debug, Clone, PartialEq, Eq)]
pub struct TokenResult {
    pub access_token: String,
    pub refresh_token: String,
    pub expires_in: u64,
    pub refresh_expires_in: u64,
}

#[verifier::external_type_specification]
#[verifier::external_body]
pub struct ExAddressError(url::ParseError);

/// The SHA-256 digest of a text in UTF-8.
pub uninterp spec fn sha256_digest(text: Seq<char>) -> Seq<u8>;

/// Bytes in base64 with the alphabet for addresses and without padding.
pub uninterp spec fn base64url_no_pad(bytes: Seq<u8>) -> Seq<char>;

/// The value of an attribute of the first element of an HTML document that
/// a CSS selector matches; `None` where the selector is none, matches no
/// element, or the element lacks the attribute.
pub uninterp spec fn selected_attribute(
    document: Seq<char>,
    selector: Seq<char>,
    attribute: Seq<char>,
) -> Option<Seq<char>>;

/// The pairs of the query of an address, decoded; `None` where the text is
/// no address.
pub uninterp spec fn url_query_pairs(address: Seq<char>) -> Option<Seq<(Seq<char>, Seq<char>)>>;

/// Hashes a text with `sha2::Sha256` (`Digest::new`, `update`, `finalize`).
/// Trusted: the result is the digest named by [`sha256_digest`].
#[verifier::external_body]
fn sha256(data: String) -> (digest: Vec<u8>)
    ensures
        digest@ == sha256_digest(data@),
{
    let mut hasher = sha2::Sha256::new();
    hasher.update(data);
    hasher.finalize().to_vec()
}

/// Calls `Engine::encode` of `base64::engine::general_purpose::URL_SAFE_NO_PAD`.
/// Trusted: the result is the text named by [`base64url_no_pad`]. The call
/// fails only for an input so long that the size of the result overflows,
/// which is longer than a slice can be.
#[verifier::external_body]
fn base64_encode(data: &[u8]) -> (text: String)
    ensures
        text@ == base64url_no_pad(data@),
{
    base64::engine::general_purpose::URL_SAFE_NO_PAD.encode(data)
}

/// Fills a buffer with `rand::Rng::fill` of `rand::thread_rng`. Trusted: the
/// result has the length asked for; nothing is claimed of the bytes. The
/// call gives up only where the machine has no source of randomness.
#[verifier::external_body]
fn random_bytes(len: usize) -> (bytes: Vec<u8>)
    ensures
        bytes@.len() == len,
{
    let mut bytes = vec![0; len];
    rand::thread_rng().fill(&mut bytes[..]);
    bytes
}

/// Parses a document with `scraper::Html::parse_document` and a selector
/// with `scraper::Selector::parse`, takes the first element of
/// `Html::select` and reads an attribute with `Element::attr`. Trusted: the
/// result is the value named by [`selected_attribute`].
#[verifier::external_body]
fn select_attribute(document: &str, selector: &str, attribute: &str) -> (value: Option<String>)
    ensures
        value is Some <==> selected_attribute(document@, selector@, attribute@) is Some,
        value is Some ==> value->0@ == selected_attribute(document@, selector@, attribute@)->0,
{
    let selector = scraper::Selector::parse(selector).ok()?;
    let document = scraper::Html::parse_document(document);
    let element = document.select(&selector).next()?;
    let value = element.value().attr(attribute)?;
    Some(value.to_string())
}

/// Calls `url::Url::parse` and collects `Url::query_pairs`. Trusted: the
/// call fails exactly where [`url_query_pairs`] is `None`, and otherwise
/// returns the pairs that it names, in their order.
#[verifier::external_body]
fn query_pairs(address: &str) -> (list: Result<Vec<(String, String)>, url::ParseError>)
    ensures
        list is Ok <==> url_query_pairs(address@) is Some,
        list is Ok ==> pairs(list->Ok_0@) == url_query_pairs(address@)->0,
{
    Ok(url::Url::parse(address)?.query_pairs().into_owned().collect())
}

/// Whether a text encodes `len` bytes, whichever they are.
pub open spec fn is_random_token(text: Seq<char>, len: int) -> bool {
    exists|bytes: Seq<u8>| bytes.len() == len && text == #[trigger] base64url_no_pad(bytes)
}

/// Random bytes in base64.
pub fn random_base64_string(len: usize) -> (text: String)
    ensures
        is_random_token(text@, len as int),
{
    let bytes = random_bytes(len);
    let text = base64_encode(bytes.as_slice());
    assert(text@ == base64url_no_pad(bytes@));
    text
}

/// The code challenge of a code verifier: the digest of the verifier in
/// base64.
pub open spec fn code_challenge_spec(verifier: Seq<char>) -> Seq<char> {
    base64url_no_pad(sha256_digest(verifier))
}

/// Computes the code challenge of a code verifier.
pub fn code_challenge(verifier: &str) -> (challenge: String)
    ensures
        challenge@ == code_challenge_spec(verifier@),
{
    let digest = sha256(String::from_str(verifier));
    base64_encode(digest.as_slice())
}

/// The headers of a request to the login pages.
pub open spec fn browser_headers_spec() -> Seq<(Seq<char>, Seq<char>)> {
    seq![
        ("user-agent"@, BROWSER_USER_AGENT_VALUE@),
        ("accept"@, ACCEPT_VALUE@),
        ("accept-language"@, ACCEPT_LANGUAGE_VALUE@),
    ]
}

/// The headers of a request to the token endpoint: those of the login
/// pages, with the user agent of the app in place of the browser's.
pub open spec fn token_headers_spec() -> Seq<(Seq<char>, Seq<char>)> {
    with_header(browser_headers_spec(), "user-agent"@, APP_USER_AGENT_VALUE@)
}

/// The address of an endpoint of the provider's realm.
pub open spec fn endpoint_spec(name: Seq<char>) -> Seq<char> {
    AUTH_BASE_URL@ + "/auth/realms/Vertical-Life/protocol/openid-connect/"@ + name
}

/// The request for the login page.
pub open spec fn authorize_spec(
    verifier: Seq<char>,
    state: Seq<char>,
    nonce: Seq<char>,
) -> RequestView {
    RequestView {
        method: HttpMethod::Get,
        url: endpoint_spec("auth"@),
        headers: browser_headers_spec(),
        query: seq![
            ("response_type"@, "code"@),
            ("code_challenge"@, code_challenge_spec(verifier)),
            ("code_challenge_method"@, "S256"@),
            ("scope"@, "openid profile email offline_access"@),
            ("redirect_uri"@, REDIRECT_URI@),
            ("client_id"@, CLIENT_ID@),
            ("state"@, state),
            ("nonce"@, nonce),
        ],
        form: Seq::empty(),
        follow_redirects: false,
    }
}

/// The request that submits the login form.
pub open spec fn authenticate_spec(
    action_url: Seq<char>,
    username: Seq<char>,
    password: Seq<char>,
) -> RequestView {
    RequestView {
        method: HttpMethod::Post,
        url: action_url,
        headers: browser_headers_spec(),
        query: Seq::empty(),
        form: seq![("username"@, username), ("password"@, password), ("rememberMe"@, "on"@)],
        follow_redirects: false,
    }
}

/// The request that trades an authorization code for tokens.
pub open spec fn access_token_spec(verifier: Seq<char>, code: Seq<char>) -> RequestView {
    RequestView {
        method: HttpMethod::Post,
        url: endpoint_spec("token"@),
        headers: token_headers_spec(),
        query: Seq::empty(),
        form: seq![
            ("client_id"@, CLIENT_ID@),
            ("grant_type"@, "authorization_code"@),
            ("redirect_uri"@, REDIRECT_URI@),
            ("code_verifier"@, verifier),
            ("code"@, code),
        ],
        follow_redirects: false,
    }
}

/// The request that trades a refresh token for a new pair of tokens.
pub open spec fn refresh_spec(refresh_token: Seq<char>) -> RequestView {
    RequestView {
        method: HttpMethod::Post,
        url: endpoint_spec("token"@),
        headers: token_headers_spec(),
        query: Seq::empty(),
        form: seq![
            ("client_id"@, CLIENT_ID@),
            ("grant_type"@, "refresh_token"@),
            ("refresh_token"@, refresh_token),
        ],
        follow_redirects: false,
    }
}

/// The submission target of the login form of a page.
pub open spec fn action_url_spec(body: Seq<char>) -> Option<Seq<char>> {
    selected_attribute(body, LOGIN_FORM_ID@, "action"@)
}

/// The authorization code of a redirect: the value of the last `code`
/// parameter of the address in the `Location` header.
pub open spec fn redirect_code_spec(location: Option<Seq<char>>) -> Result<Seq<char>, AuthError> {
    match location {
        None => Err(AuthError { step: AuthStep::Authenticate, cause: AuthCause::MissingRedirect }),
        Some(address) => match url_query_pairs(address) {
            None => Err(
                AuthError { step: AuthStep::Authenticate, cause: AuthCause::MissingRedirect },
            ),
            Some(list) => match last_value(list, "code"@) {
                None => Err(
                    AuthError { step: AuthStep::Authenticate, cause: AuthCause::MissingCode },
                ),
                Some(code) => Ok(code),
            },
        },
    }
}

/// The headers of a request to the login pages.
pub fn make_headers() -> (headers: Vec<(String, String)>)
    ensures
        pairs(headers@) == browser_headers_spec(),
{
    let mut headers: Vec<(String, String)> = Vec::new();
    headers.push(pair("user-agent", BROWSER_USER_AGENT_VALUE));
    headers.push(pair("accept", ACCEPT_VALUE));
    headers.push(pair("accept-language", ACCEPT_LANGUAGE_VALUE));
    assert(pairs(headers@) =~= browser_headers_spec());
    headers
}

fn token_headers() -> (headers: Vec<(String, String)>)
    ensures
        pairs(headers@) == token_headers_spec(),
{
    let mut headers = make_headers();
    set_header(&mut headers, "user-agent", APP_USER_AGENT_VALUE);
    headers
}

fn endpoint(name: &str) -> (url: String)
    ensures
        url@ == endpoint_spec(name@),
{
    let mut url = String::from_str(AUTH_BASE_URL);
    url.append("/auth/realms/Vertical-Life/protocol/openid-connect/");
    url.append(name);
    url
}

/// Finds the submission target of the login form of a page.
pub fn parse_action_url(body: &str) -> (action_url: Result<String, AuthError>)
    ensures
        action_url is Ok <==> action_url_spec(body@) is Some,
        action_url is Ok ==> action_url->Ok_0@ == action_url_spec(body@)->0,
        action_url is Err ==> action_url->Err_0 == (AuthError {
            step: AuthStep::ScrapeForm,
            cause: AuthCause::MissingForm,
        }),
{
    match select_attribute(body, LOGIN_FORM_ID, "action") {
        Some(action_url) => Ok(action_url),
        None => Err(AuthError { step: AuthStep::ScrapeForm, cause: AuthCause::MissingForm }),
    }
}

/// Picks the authorization code out of the pairs of a redirect address.
pub fn code_from_pairs(list: &Vec<(String, String)>) -> (code: Result<String, AuthError>)
    ensures
        code is Ok <==> last_value(pairs(list@), "code"@) is Some,
        code is Ok ==> code->Ok_0@ == last_value(pairs(list@), "code"@)->0,
        code is Err ==> code->Err_0 == (AuthError {
            step: AuthStep::Authenticate,
            cause: AuthCause::MissingCode,
        }),
{
    match find_last_value(list, "code") {
        Some(code) => Ok(code),
        None => Err(AuthError { step: AuthStep::Authenticate, cause: AuthCause::MissingCode }),
    }
}

/// Reads the authorization code from the `Location` header of the response
/// to the login.
pub fn parse_redirect_code(location: Option<&str>) -> (code: Result<String, AuthError>)
    ensures
        code is Ok <==> redirect_code_spec(text_of(location)) is Ok,
        code is Ok ==> code->Ok_0@ == redirect_code_spec(text_of(location))->Ok_0,
        code is Err ==> code->Err_0 == redirect_code_spec(text_of(location))->Err_0,
{
    let address = match location {
        Some(address) => address,
        None => {
            return Err(
                AuthError { step: AuthStep::Authenticate, cause: AuthCause::MissingRedirect },
            );
        },
    };
    match query_pairs(address) {
        Ok(list) => code_from_pairs(&list),
        Err(_) => Err(
            AuthError { step: AuthStep::Authenticate, cause: AuthCause::MissingRedirect },
        ),
    }
}

/// The text of an optional string slice.
pub open spec fn text_of(text: Option<&str>) -> Option<Seq<char>> {
    match text {
        Some(text) => Some(text@),
        None => None,
    }
}

/// How far a login has come.
#[derive(Debug, Clone, Copy, PartialEq, Eq, Structural)]
pub enum AuthStage {
    /// Nothing was sent yet.
    Init,
    /// The login page was asked for.
    Authorizing,
    /// The form was found on the login page and the credentials were sent.
    FormScraped,
    /// The authorization code was read and the tokens were asked for.
    Authenticated,
    /// The tokens were issued.
    TokenIssued,
    /// The login has failed. A new login needs a new client.
    Failed,
}

/// What the caller reports to a login.
#[derive(Debug, Clone, PartialEq, Eq)]
pub enum AuthEvent {
    /// The login is to begin.
    Begin,
    /// The body of the login page.
    LoginPage(String),
    /// The `Location` header of the response to the credentials, where it
    /// has one that is text.
    Redirect(Option<String>),
    /// The tokens that the token endpoint sent.
    Token(TokenResult),
    /// The last request failed, or its response could not be read.
    Failure(AuthCause),
}

/// An event, with texts in place of strings.
pub enum AuthEventView {
    Begin,
    LoginPage(Seq<char>),
    Redirect(Option<Seq<char>>),
    Token(TokenResult),
    Failure(AuthCause),
}

impl View for AuthEvent {
    type V = AuthEventView;

    open spec fn view(&self) -> AuthEventView {
        match *self {
            AuthEvent::Begin => AuthEventView::Begin,
            AuthEvent::LoginPage(body) => AuthEventView::LoginPage(body@),
            AuthEvent::Redirect(location) => AuthEventView::Redirect(
                match location {
                    Some(address) => Some(address@),
                    None => None,
                },
            ),
            AuthEvent::Token(tokens) => AuthEventView::Token(tokens),
            AuthEvent::Failure(cause) => AuthEventView::Failure(cause),
        }
    }
}

/// What the caller of a login is to do next.
#[derive(Debug, Clone, PartialEq, Eq)]
pub enum AuthAction {
    /// Send a request, without following a redirect, and report the answer.
    Send(HttpRequest),
    /// The login is over: these are the tokens.
    Done(TokenResult),
    /// The login has failed.
    Fail(AuthError),
}

/// An action, with texts in place of strings.
pub enum AuthActionView {
    Send(RequestView),
    Done(TokenResult),
    Fail(AuthError),
}

impl View for AuthAction {
    type V = AuthActionView;

    open spec fn view(&self) -> AuthActionView {
        match *self {
            AuthAction::Send(request) => AuthActionView::Send(request@),
            AuthAction::Done(tokens) => AuthActionView::Done(tokens),
            AuthAction::Fail(error) => AuthActionView::Fail(error),
        }
    }
}

/// The step of the handshake that a stage is busy with.
pub open spec fn step_of(stage: AuthStage) -> AuthStep {
    match stage {
        AuthStage::Init => AuthStep::Authorize,
        AuthStage::Authorizing => AuthStep::Authorize,
        AuthStage::FormScraped => AuthStep::Authenticate,
        AuthStage::Authenticated => AuthStep::IssueToken,
        AuthStage::TokenIssued => AuthStep::IssueToken,
        AuthStage::Failed => AuthStep::IssueToken,
    }
}

/// A login that fails in a stage.
pub open spec fn fails(stage: AuthStage, cause: AuthCause) -> (AuthStage, AuthActionView) {
    (AuthStage::Failed, AuthActionView::Fail(AuthError { step: step_of(stage), cause }))
}

/// One step of a login: the stage after an event, and what to do next.
/// `state` and `nonce` are the random texts of the first request.
///
/// The stages follow one another: the login page is asked for; the form
/// is found on it and the credentials are sent to its target; the code is
/// read from the redirect and traded for tokens; the tokens arrive. A step
/// that cannot be taken ends the login, as does a reported failure and an
/// event that the stage does not wait for. Nothing is tried twice.
pub open spec fn auth_step_spec(
    verifier: Seq<char>,
    stage: AuthStage,
    username: Seq<char>,
    password: Seq<char>,
    event: AuthEventView,
    state: Seq<char>,
    nonce: Seq<char>,
) -> (AuthStage, AuthActionView) {
    match stage {
        AuthStage::Init => match event {
            AuthEventView::Begin => (
                AuthStage::Authorizing,
                AuthActionView::Send(authorize_spec(verifier, state, nonce)),
            ),
            _ => fails(stage, AuthCause::OutOfOrder),
        },
        AuthStage::Authorizing => match event {
            AuthEventView::LoginPage(body) => match action_url_spec(body) {
                Some(action_url) => (
                    AuthStage::FormScraped,
                    AuthActionView::Send(authenticate_spec(action_url, username, password)),
                ),
                None => (
                    AuthStage::Failed,
                    AuthActionView::Fail(
                        AuthError { step: AuthStep::ScrapeForm, cause: AuthCause::MissingForm },
                    ),
                ),
            },
            AuthEventView::Failure(cause) => fails(stage, cause),
            _ => fails(stage, AuthCause::OutOfOrder),
        },
        AuthStage::FormScraped => match event {
            AuthEventView::Redirect(location) => match redirect_code_spec(location) {
                Ok(code) => (
                    AuthStage::Authenticated,
                    AuthActionView::Send(access_token_spec(verifier, code)),
                ),
                Err(error) => (AuthStage::Failed, AuthActionView::Fail(error)),
            },
            AuthEventView::Failure(cause) => fails(stage, cause),
            _ => fails(stage, AuthCause::OutOfOrder),
        },
        AuthStage::Authenticated => match event {
            AuthEventView::Token(tokens) => (AuthStage::TokenIssued, AuthActionView::Done(tokens)),
            AuthEventView::Failure(cause) => fails(stage, cause),
            _ => fails(stage, AuthCause::OutOfOrder),
        },
        AuthStage::TokenIssued => fails(stage, AuthCause::OutOfOrder),
        AuthStage::Failed => fails(stage, AuthCause::OutOfOrder),
    }
}

/// A login in progress. Its code verifier is drawn once and serves this
/// login alone.
#[derive(Debug)]
pub struct VerticalLifeAuthClient {
    pub code_verifier: String,
    pub stage: AuthStage,
}

impl VerticalLifeAuthClient {
    /// A login that has not begun, with a fresh code verifier.
    pub fn new() -> (client: VerticalLifeAuthClient)
        ensures
            is_random_token(client.code_verifier@, VERIFIER_LENGTH as int),
            client.stage == AuthStage::Init,
    {
        VerticalLifeAuthClient {
            code_verifier: random_base64_string(VERIFIER_LENGTH),
            stage: AuthStage::Init,
        }
    }

    /// The request for the login page, with a given state and nonce.
    pub fn authorize_with(&self, state: &str, nonce: &str) -> (request: HttpRequest)
        ensures
            request@ == authorize_spec(self.code_verifier@, state@, nonce@),
    {
        let challenge = code_challenge(self.code_verifier.as_str());
        let mut query: Vec<(String, String)> = Vec::new();
        query.push(pair("response_type", "code"));
        query.push(pair("code_challenge", challenge.as_str()));
        query.push(pair("code_challenge_method", "S256"));
        query.push(pair("scope", "openid profile email offline_access"));
        query.push(pair("redirect_uri", REDIRECT_URI));
        query.push(pair("client_id", CLIENT_ID));
        query.push(pair("state", state));
        query.push(pair("nonce", nonce));
        let request = HttpRequest {
            method: HttpMethod::Get,
            url: endpoint("auth"),
            headers: make_headers(),
            query,
            form: Vec::new(),
            follow_redirects: false,
        };
        assert(request@.query =~= authorize_spec(self.code_verifier@, state@, nonce@).query);
        assert(request@.form =~= Seq::empty());
        request
    }

    /// The request for the login page, with a random state and nonce.
    pub fn authorize(&self) -> (request: HttpRequest)
        ensures
            exists|state: Seq<char>, nonce: Seq<char>|
                is_random_token(state, STATE_LENGTH as int) && is_random_token(
                    nonce,
                    NONCE_LENGTH as int,
                ) && request@ == #[trigger] authorize_spec(self.code_verifier@, state, nonce),
    {
        let state = random_base64_string(STATE_LENGTH);
        let nonce = random_base64_string(NONCE_LENGTH);
        let request = self.authorize_with(state.as_str(), nonce.as_str());
        assert(request@ == authorize_spec(self.code_verifier@, state@, nonce@));
        request
    }

    /// The request that submits the credentials to the target of the login
    /// form.
    pub fn authenticate(&self, action_url: &str, username: &str, password: &str) -> (request:
        HttpRequest)
        ensures
            request@ == authenticate_spec(action_url@, username@, password@),
    {
        let mut form: Vec<(String, String)> = Vec::new();
        form.push(pair("username", username));
        form.push(pair("password", password));
        form.push(pair("rememberMe", "on"));
        let request = HttpRequest {
            method: HttpMethod::Post,
            url: String::from_str(action_url),
            headers: make_headers(),
            query: Vec::new(),
            form,
            follow_redirects: false,
        };
        assert(request@.form =~= authenticate_spec(action_url@, username@, password@).form);
        assert(request@.query =~= Seq::empty());
        request
    }

    /// The request that trades the authorization code and the code verifier
    /// for tokens.
    pub fn get_access_token(&self, code: &str) -> (request: HttpRequest)
        ensures
            request@ == access_token_spec(self.code_verifier@, code@),
    {
        let mut form: Vec<(String, String)> = Vec::new();
        form.push(pair("client_id", CLIENT_ID));
        form.push(pair("grant_type", "authorization_code"));
        form.push(pair("redirect_uri", REDIRECT_URI));
        form.push(pair("code_verifier", self.code_verifier.as_str()));
        form.push(pair("code", code));
        let request = HttpRequest {
            method: HttpMethod::Post,
            url: endpoint("token"),
            headers: token_headers(),
            query: Vec::new(),
            form,
            follow_redirects: false,
        };
        assert(request@.form =~= access_token_spec(self.code_verifier@, code@).form);
        assert(request@.query =~= Seq::empty());
        request
    }

    /// The request that trades a refresh token for a new pair of tokens.
    pub fn refresh_token(refresh_token: &str) -> (request: HttpRequest)
        ensures
            request@ == refresh_spec(refresh_token@),
    {
        let mut form: Vec<(String, String)> = Vec::new();
        form.push(pair("client_id", CLIENT_ID));
        form.push(pair("grant_type", "refresh_token"));
        form.push(pair("refresh_token", refresh_token));
        let request = HttpRequest {
            method: HttpMethod::Post,
            url: endpoint("token"),
            headers: token_headers(),
            query: Vec::new(),
            form,
            follow_redirects: false,
        };
        assert(request@.form =~= refresh_spec(refresh_token@).form);
        assert(request@.query =~= Seq::empty());
        request
    }

    fn fail(&mut self, cause: AuthCause) -> (action: AuthAction)
        ensures
            (final(self).stage, action@) == fails(old(self).stage, cause),
            final(self).code_verifier == old(self).code_verifier,
    {
        let step = match self.stage {
            AuthStage::Init => AuthStep::Authorize,
            AuthStage::Authorizing => AuthStep::Authorize,
            AuthStage::FormScraped => AuthStep::Authenticate,
            AuthStage::Authenticated => AuthStep::IssueToken,
            AuthStage::TokenIssued => AuthStep::IssueToken,
            AuthStage::Failed => AuthStep::IssueToken,
        };
        self.stage = AuthStage::Failed;
        AuthAction::Fail(AuthError { step, cause })
    }

    /// Takes the login one step further: `event` is what came of the last
    /// action, or `Begin`. Returns what to do next. The state and the nonce
    /// of the first request are random.
    pub fn do_auth_flow(&mut self, username: &str, password: &str, event: AuthEvent) -> (action:
        AuthAction)
        ensures
            final(self).code_verifier == old(self).code_verifier,
            exists|state: Seq<char>, nonce: Seq<char>|
                is_random_token(state, STATE_LENGTH as int) && is_random_token(
                    nonce,
                    NONCE_LENGTH as int,
                ) && (final(self).stage, action@) == #[trigger] auth_step_spec(
                    old(self).code_verifier@,
                    old(self).stage,
                    username@,
                    password@,
                    event@,
                    state,
                    nonce,
                ),
    {
        let ghost zeros = Seq::new(32, |i: int| 0u8);
        let ghost any = base64url_no_pad(zeros);
        assert(is_random_token(any, 32)) by {
            assert(zeros.len() == 32 && any == base64url_no_pad(zeros));
        }
        let ghost before = *self;
        let ghost seen = event@;
        if let AuthEvent::Failure(cause) = event {
            let action = match self.stage {
                AuthStage::Authorizing | AuthStage::FormScraped | AuthStage::Authenticated => {
                    self.fail(cause)
                },
                _ => self.fail(AuthCause::OutOfOrder),
            };
            assert((self.stage, action@) == auth_step_spec(
                before.code_verifier@,
                before.stage,
                username@,
                password@,
                seen,
                any,
                any,
            ));
            return action;
        }
        match self.stage {
            AuthStage::Init => {
                if let AuthEvent::Begin = event {
                    let state = random_base64_string(STATE_LENGTH);
                    let nonce = random_base64_string(NONCE_LENGTH);
                    let request = self.authorize_with(state.as_str(), nonce.as_str());
                    self.stage = AuthStage::Authorizing;
                    let action = AuthAction::Send(request);
                    assert((self.stage, action@) == auth_step_spec(
                        before.code_verifier@,
                        before.stage,
                        username@,
                        password@,
                        seen,
                        state@,
                        nonce@,
                    ));
                    return action;
                }
            },
            AuthStage::Authorizing => {
                if let AuthEvent::LoginPage(body) = event {
                    let action = match parse_action_url(body.as_str()) {
                        Ok(action_url) => {
                            self.stage = AuthStage::FormScraped;
                            AuthAction::Send(
                                self.authenticate(action_url.as_str(), username, password),
                            )
                        },
                        Err(error) => {
                            self.stage = AuthStage::Failed;
                            AuthAction::Fail(error)
                        },
                    };
                    assert((self.stage, action@) == auth_step_spec(
                        before.code_verifier@,
                        before.stage,
                        username@,
                        password@,
                        seen,
                        any,
                        any,
                    ));
                    return action;
                }
            },
            AuthStage::FormScraped => {
                if let AuthEvent::Redirect(location) = event {
                    let code = match &location {
                        Some(address) => parse_redirect_code(Some(address.as_str())),
                        None => parse_redirect_code(None),
                    };
                    let action = match code {
                        Ok(code) => {
                            self.stage = AuthStage::Authenticated;
                            AuthAction::Send(self.get_access_token(code.as_str()))
                        },
                        Err(error) => {
                            self.stage = AuthStage::Failed;
                            AuthAction::Fail(error)
                        },
                    };
                    assert((self.stage, action@) == auth_step_spec(
                        before.code_verifier@,
                        before.stage,
                        username@,
                        password@,
                        seen,
                        any,
                        any,
                    ));
                    return action;
                }
            },
            AuthStage::Authenticated => {
                if let AuthEvent::Token(tokens) = event {
                    self.stage = AuthStage::TokenIssued;
                    let action = AuthAction::Done(tokens);
                    assert((self.stage, action@) == auth_step_spec(
                        before.code_verifier@,
                        before.stage,
                        username@,
                        password@,
                        seen,
                        any,
                        any,
                    ));
                    return action;
                }
            },
            _ => {},
        }
        let action = self.fail(AuthCause::OutOfOrder);
        assert((self.stage, action@) == auth_step_spec(
            before.code_verifier@,
            before.stage,
            username@,
            password@,
            seen,
            any,
            any,
        ));
        action
    }
}

/// Nothing is tried twice: a login that has failed stays failed, whatever is
/// reported to it, and asks for no further request.
pub proof fn lemma_failed_login_is_final(
    verifier: Seq<char>,
    username: Seq<char>,
    password: Seq<char>,
    event: AuthEventView,
    state: Seq<char>,
    nonce: Seq<char>,
)
    ensures
        auth_step_spec(verifier, AuthStage::Failed, username, password, event, state, nonce).0
            == AuthStage::Failed,
        auth_step_spec(verifier, AuthStage::Failed, username, password, event, state, nonce).1
            is Fail,
{
}

/// A code verifier serves one login: once the tokens were issued, the login
/// asks for no further request.
pub proof fn lemma_verifier_serves_one_login(
    verifier: Seq<char>,
    username: Seq<char>,
    password: Seq<char>,
    event: AuthEventView,
    state: Seq<char>,
    nonce: Seq<char>,
)
    ensures
        auth_step_spec(
            verifier,
            AuthStage::TokenIssued,
            username,
            password,
            event,
            state,
            nonce,
        ).0 == AuthStage::Failed,
        auth_step_spec(
            verifier,
            AuthStage::TokenIssued,
            username,
            password,
            event,
            state,
            nonce,
        ).1 is Fail,
{
}

/// A login that goes well takes four steps: the login page is asked for,
/// the credentials are sent to the target of its form, the code of the
/// redirect is traded for tokens together with the verifier whose challenge
/// the first request carried, and the tokens are handed out.
pub proof fn lemma_login_in_four_steps(
    verifier: Seq<char>,
    username: Seq<char>,
    password: Seq<char>,
    state: Seq<char>,
    nonce: Seq<char>,
    body: Seq<char>,
    location: Seq<char>,
    tokens: TokenResult,
)
    requires
        action_url_spec(body) is Some,
        redirect_code_spec(Some(location)) is Ok,
    ensures
        auth_step_spec(
            verifier,
            AuthStage::Init,
            username,
            password,
            AuthEventView::Begin,
            state,
            nonce,
        ) == (AuthStage::Authorizing, AuthActionView::Send(authorize_spec(verifier, state, nonce))),
        auth_step_spec(
            verifier,
            AuthStage::Authorizing,
            username,
            password,
            AuthEventView::LoginPage(body),
            state,
            nonce,
        ) == (
            AuthStage::FormScraped,
            AuthActionView::Send(
                authenticate_spec(action_url_spec(body)->0, username, password),
            ),
        ),
        auth_step_spec(
            verifier,
            AuthStage::FormScraped,
            username,
            password,
            AuthEventView::Redirect(Some(location)),
            state,
            nonce,
        ) == (
            AuthStage::Authenticated,
            AuthActionView::Send(
                access_token_spec(verifier, redirect_code_spec(Some(location))->Ok_0),
            ),
        ),
        auth_step_spec(
            verifier,
            AuthStage::Authenticated,
            username,
            password,
            AuthEventView::Token(tokens),
            state,
            nonce,
        ) == (AuthStage::TokenIssued, AuthActionView::Done(tokens)),
{
}

} // verus!
