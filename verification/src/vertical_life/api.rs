//! Asking the vendor for gyms and sectors through a session, with a token
//! refresh and a retry when the vendor answers that the token is not
//! accepted.

use vstd::prelude::*;
use vstd::string::*;
use crate::error::{AuthCause, AuthError, AuthStep, SyncError, TransportError};
use crate::text::{decimal, decimal_string};
use crate::vertical_life::auth::{refresh_spec, TokenResult, VerticalLifeAuthClient};
use crate::vertical_life::http::{pair, pairs, HttpMethod, HttpRequest, RequestView};
use crate::vertical_life::util::BASE_URL;

verus! {

pub const USER_AGENT_VALUE: &'static str =
    "Vertical Life Climbing/6.14.0 (iPhone12,3; iOS 16.1.1; Scale/3.00)";

/// How often a request is sent at most.
pub const MAX_ATTEMPTS: u8 = 3;

/// The status with which the vendor refuses a token.
pub const UNAUTHORIZED: u16 = 401;

/// What is asked of the vendor.
#[derive(Debug, Clone, Copy, PartialEq, Eq, Structural)]
pub enum ApiCall {
    /// A gym with its sectors.
    GymDetails(u32),
    /// A sector with its walls and climbs.
    GymSector(u32),
}

/// What a request is waiting for.
#[derive(Debug, Clone, Copy, PartialEq, Eq, Structural)]
pub enum RequestStage {
    AwaitingResponse,
    AwaitingRefresh,
    Finished,
}

/// What the caller reports of a request.
#[derive(Debug, Clone, PartialEq, Eq)]
pub enum ApiEvent {
    /// The status of the response.
    Status(u16),
    /// The tokens that a refresh returned.
    Refreshed(TokenResult),
    /// The refresh failed.
    RefreshFailed(AuthCause),
}

/// An event, with texts in place of strings.
pub enum ApiEventView {
    Status(u16),
    Refreshed { access_token: Seq<char>, refresh_token: Seq<char> },
    RefreshFailed(AuthCause),
}

impl View for ApiEvent {
    type V = ApiEventView;

    open spec fn view(&self) -> ApiEventView {
        match *self {
            ApiEvent::Status(status) => ApiEventView::Status(status),
            ApiEvent::Refreshed(tokens) => ApiEventView::Refreshed {
                access_token: tokens.access_token@,
                refresh_token: tokens.refresh_token@,
            },
            ApiEvent::RefreshFailed(cause) => ApiEventView::RefreshFailed(cause),
        }
    }
}

/// What the caller is to do next.
#[derive(Debug, Clone, PartialEq, Eq)]
pub enum ApiAction {
    /// Send the request and report the status of the response.
    Send(HttpRequest),
    /// Send the refresh request and report the tokens that it returns.
    Refresh(HttpRequest),
    /// The last response is the answer.
    Deliver,
    /// The request has failed.
    Fail(SyncError),
}

/// An action, with texts in place of strings.
pub enum ApiActionView {
    Send(RequestView),
    Refresh(RequestView),
    Deliver,
    Fail(SyncError),
}

impl View for ApiAction {
    type V = ApiActionView;

    open spec fn view(&self) -> ApiActionView {
        match *self {
            ApiAction::Send(request) => ApiActionView::Send(request@),
            ApiAction::Refresh(request) => ApiActionView::Refresh(request@),
            ApiAction::Deliver => ApiActionView::Deliver,
            ApiAction::Fail(error) => ApiActionView::Fail(error),
        }
    }
}

/// The session: the token pair that the vendor accepts at present.
#[derive(Debug)]
pub struct VerticalLifeClient {
    pub access_token: String,
    pub refresh_token: String,
}

/// A session, with texts in place of strings.
pub struct SessionView {
    pub access_token: Seq<char>,
    pub refresh_token: Seq<char>,
}

impl View for VerticalLifeClient {
    type V = SessionView;

    open spec fn view(&self) -> SessionView {
        SessionView { access_token: self.access_token@, refresh_token: self.refresh_token@ }
    }
}

/// One request to the vendor, from its first sending to its end.
#[derive(Debug)]
pub struct RequestRun {
    call: ApiCall,
    attempts: u8,
    stage: RequestStage,
}

/// A request in progress.
pub struct RunView {
    pub call: ApiCall,
    /// How often the request was sent.
    pub attempts: int,
    pub stage: RequestStage,
}

impl View for RequestRun {
    type V = RunView;

    closed spec fn view(&self) -> RunView {
        RunView { call: self.call, attempts: self.attempts as int, stage: self.stage }
    }
}

/// The headers of a request to the vendor. They are made anew for every
/// sending, so that a sending after a refresh carries the new token.
pub open spec fn api_headers_spec(access_token: Seq<char>) -> Seq<(Seq<char>, Seq<char>)> {
    seq![
        ("authorization"@, "Bearer "@ + access_token),
        ("accept"@, "*/*"@),
        ("accept-language"@, "en-FI"@),
        ("x-app-version-code"@, "200"@),
        ("x-app-id"@, "verticallife"@),
        ("time-zone"@, "+0200"@),
        ("user-agent"@, USER_AGENT_VALUE@),
        ("x-app-version"@, "6.14.0"@),
    ]
}

/// The request that makes a call with a token.
pub open spec fn call_spec(call: ApiCall, access_token: Seq<char>) -> RequestView {
    match call {
        ApiCall::GymDetails(gym_id) => RequestView {
            method: HttpMethod::Get,
            url: BASE_URL@ + "/gyms/"@ + decimal(gym_id as nat),
            headers: api_headers_spec(access_token),
            query: seq![("details"@, "overview"@)],
            form: Seq::empty(),
            follow_redirects: true,
        },
        ApiCall::GymSector(gym_sector_id) => RequestView {
            method: HttpMethod::Get,
            url: BASE_URL@ + "/gym_sectors/"@ + decimal(gym_sector_id as nat),
            headers: api_headers_spec(access_token),
            query: Seq::empty(),
            form: Seq::empty(),
            follow_redirects: true,
        },
    }
}

/// Whether a status reports an error of the client or of the server.
pub open spec fn is_error_status(status: u16) -> bool {
    400 <= status < 600
}

/// The failure of a run on an event that its stage does not wait for: a
/// status is reported as the error that it is, anything else as out of
/// order.
pub open spec fn unexpected(run: RunView, event: ApiEventView) -> SyncError {
    match event {
        ApiEventView::Status(status) => SyncError::Transport(
            TransportError { status, attempts: run.attempts as u8 },
        ),
        _ => SyncError::Auth(AuthError { step: AuthStep::Refresh, cause: AuthCause::OutOfOrder }),
    }
}

/// One step of a request: the session and the run after an event, and what
/// to do next.
///
/// A response without an error status is delivered. A response that
/// refuses the token is answered by a refresh, while the request was sent
/// fewer than [`MAX_ATTEMPTS`] times; the tokens that the refresh returns
/// replace both tokens of the session, and the same request is sent once
/// more with the new token. Every other error status fails the request, as
/// does a failed refresh.
pub open spec fn request_step_spec(session: SessionView, run: RunView, event: ApiEventView) -> (
    SessionView,
    RunView,
    ApiActionView,
) {
    let finished = RunView { stage: RequestStage::Finished, ..run };
    match run.stage {
        RequestStage::AwaitingResponse => match event {
            ApiEventView::Status(status) => if !is_error_status(status) {
                (session, finished, ApiActionView::Deliver)
            } else if status == UNAUTHORIZED && run.attempts < MAX_ATTEMPTS {
                (
                    session,
                    RunView { stage: RequestStage::AwaitingRefresh, ..run },
                    ApiActionView::Refresh(refresh_spec(session.refresh_token)),
                )
            } else {
                (session, finished, ApiActionView::Fail(unexpected(run, event)))
            },
            _ => (session, finished, ApiActionView::Fail(unexpected(run, event))),
        },
        RequestStage::AwaitingRefresh => match event {
            ApiEventView::Refreshed { access_token, refresh_token } => (
                SessionView { access_token, refresh_token },
                RunView {
                    attempts: run.attempts + 1,
                    stage: RequestStage::AwaitingResponse,
                    ..run
                },
                ApiActionView::Send(call_spec(run.call, access_token)),
            ),
            ApiEventView::RefreshFailed(cause) => (
                session,
                finished,
                ApiActionView::Fail(
                    SyncError::Auth(AuthError { step: AuthStep::Refresh, cause }),
                ),
            ),
            _ => (session, finished, ApiActionView::Fail(unexpected(run, event))),
        },
        RequestStage::Finished => (session, finished, ApiActionView::Fail(unexpected(run, event))),
    }
}

/// The headers of a request to the vendor.
pub fn make_headers(access_token: &str) -> (headers: Vec<(String, String)>)
    ensures
        pairs(headers@) == api_headers_spec(access_token@),
{
    let mut bearer = String::from_str("Bearer ");
    bearer.append(access_token);
    let mut headers: Vec<(String, String)> = Vec::new();
    headers.push(pair("authorization", bearer.as_str()));
    headers.push(pair("accept", "*/*"));
    headers.push(pair("accept-language", "en-FI"));
    headers.push(pair("x-app-version-code", "200"));
    headers.push(pair("x-app-id", "verticallife"));
    headers.push(pair("time-zone", "+0200"));
    headers.push(pair("user-agent", USER_AGENT_VALUE));
    headers.push(pair("x-app-version", "6.14.0"));
    assert(pairs(headers@) =~= api_headers_spec(access_token@));
    headers
}

impl RequestRun {
    #[verifier::type_invariant]
    spec fn within_budget(&self) -> bool {
        &&& 1 <= self.attempts <= MAX_ATTEMPTS
        &&& self.stage == RequestStage::AwaitingRefresh ==> self.attempts < MAX_ATTEMPTS
    }

    /// What the run asks of the vendor.
    pub fn call(&self) -> (call: ApiCall)
        ensures
            call == self@.call,
    {
        self.call
    }

    /// How often the request was sent.
    pub fn attempts(&self) -> (attempts: u8)
        ensures
            attempts == self@.attempts,
            1 <= attempts <= MAX_ATTEMPTS,
    {
        proof {
            use_type_invariant(self);
        }
        self.attempts
    }

    /// What the run is waiting for.
    pub fn stage(&self) -> (stage: RequestStage)
        ensures
            stage == self@.stage,
    {
        self.stage
    }
}

impl VerticalLifeClient {
    /// A session with the tokens of a login.
    pub fn new(access_token: String, refresh_token: String) -> (client: VerticalLifeClient)
        ensures
            client.access_token == access_token,
            client.refresh_token == refresh_token,
    {
        VerticalLifeClient { access_token, refresh_token }
    }

    /// Replaces both tokens of the session with the pair that a refresh
    /// returned.
    pub fn refresh_access_token(&mut self, token_result: TokenResult)
        ensures
            final(self).access_token == token_result.access_token,
            final(self).refresh_token == token_result.refresh_token,
    {
        self.access_token = token_result.access_token;
        self.refresh_token = token_result.refresh_token;
    }

    fn request(&self, call: ApiCall) -> (request: HttpRequest)
        ensures
            request@ == call_spec(call, self.access_token@),
    {
        let mut url = String::from_str(BASE_URL);
        let mut query: Vec<(String, String)> = Vec::new();
        match call {
            ApiCall::GymDetails(gym_id) => {
                url.append("/gyms/");
                url.append(decimal_string(gym_id).as_str());
                query.push(pair("details", "overview"));
            },
            ApiCall::GymSector(gym_sector_id) => {
                url.append("/gym_sectors/");
                url.append(decimal_string(gym_sector_id).as_str());
            },
        }
        let request = HttpRequest {
            method: HttpMethod::Get,
            url,
            headers: make_headers(self.access_token.as_str()),
            query,
            form: Vec::new(),
            follow_redirects: true,
        };
        assert(request@.query =~= call_spec(call, self.access_token@).query);
        assert(request@.form =~= Seq::empty());
        request
    }

    fn begin(&self, call: ApiCall) -> (begun: (RequestRun, HttpRequest))
        ensures
            begun.0@ == (RunView { call, attempts: 1, stage: RequestStage::AwaitingResponse }),
            begun.1@ == call_spec(call, self.access_token@),
    {
        (
            RequestRun { call, attempts: 1, stage: RequestStage::AwaitingResponse },
            self.request(call),
        )
    }

    /// Begins the request for a gym with its sectors: the run, and the
    /// request to send first.
    pub fn get_gym_details(&self, gym_id: u32) -> (begun: (RequestRun, HttpRequest))
        ensures
            begun.0@ == (RunView {
                call: ApiCall::GymDetails(gym_id),
                attempts: 1,
                stage: RequestStage::AwaitingResponse,
            }),
            begun.1@ == call_spec(ApiCall::GymDetails(gym_id), self.access_token@),
    {
        self.begin(ApiCall::GymDetails(gym_id))
    }

    /// Begins the request for a sector with its walls: the run, and the
    /// request to send first.
    pub fn get_gym_sector(&self, gym_sector_id: u32) -> (begun: (RequestRun, HttpRequest))
        ensures
            begun.0@ == (RunView {
                call: ApiCall::GymSector(gym_sector_id),
                attempts: 1,
                stage: RequestStage::AwaitingResponse,
            }),
            begun.1@ == call_spec(ApiCall::GymSector(gym_sector_id), self.access_token@),
    {
        self.begin(ApiCall::GymSector(gym_sector_id))
    }

    /// Takes a request one step further: `event` is what came of the last
    /// action. Returns what to do next.
    pub fn make_request(&mut self, run: &mut RequestRun, event: ApiEvent) -> (action: ApiAction)
        ensures
            (final(self)@, final(run)@, action@) == request_step_spec(
                old(self)@,
                old(run)@,
                event@,
            ),
    {
        proof {
            use_type_invariant(&*run);
        }
        match run.stage {
            RequestStage::AwaitingResponse => {
                if let ApiEvent::Status(status) = event {
                    if status < 400 || status >= 600 {
                        run.stage = RequestStage::Finished;
                        return ApiAction::Deliver;
                    }
                    if status == UNAUTHORIZED && run.attempts < MAX_ATTEMPTS {
                        run.stage = RequestStage::AwaitingRefresh;
                        return ApiAction::Refresh(
                            VerticalLifeAuthClient::refresh_token(self.refresh_token.as_str()),
                        );
                    }
                }
            },
            RequestStage::AwaitingRefresh => {
                match event {
                    ApiEvent::Refreshed(tokens) => {
                        self.refresh_access_token(tokens);
                        run.stage = RequestStage::AwaitingResponse;
                        run.attempts = run.attempts + 1;
                        return ApiAction::Send(self.request(run.call));
                    },
                    ApiEvent::RefreshFailed(cause) => {
                        run.stage = RequestStage::Finished;
                        return ApiAction::Fail(
                            SyncError::Auth(AuthError { step: AuthStep::Refresh, cause }),
                        );
                    },
                    _ => {},
                }
            },
            RequestStage::Finished => {},
        }
        run.stage = RequestStage::Finished;
        match event {
            ApiEvent::Status(status) => ApiAction::Fail(
                SyncError::Transport(TransportError { status, attempts: run.attempts }),
            ),
            _ => ApiAction::Fail(
                SyncError::Auth(
                    AuthError { step: AuthStep::Refresh, cause: AuthCause::OutOfOrder },
                ),
            ),
        }
    }
}

/// A run that was just begun: the request was sent once.
pub open spec fn begun(call: ApiCall) -> RunView {
    RunView { call, attempts: 1, stage: RequestStage::AwaitingResponse }
}

/// Where a series of events leads: the session, the run, and the actions
/// that were asked for, one for each event.
pub open spec fn after_events(session: SessionView, run: RunView, events: Seq<ApiEventView>) -> (
    SessionView,
    RunView,
    Seq<ApiActionView>,
)
    decreases events.len(),
{
    if events.len() == 0 {
        (session, run, Seq::empty())
    } else {
        let before = after_events(session, run, events.drop_last());
        let step = request_step_spec(before.0, before.1, events.last());
        (step.0, step.1, before.2.push(step.2))
    }
}

/// How many of some actions ask to send the request again.
pub open spec fn sendings(actions: Seq<ApiActionView>) -> int
    decreases actions.len(),
{
    if actions.len() == 0 {
        0
    } else {
        sendings(actions.drop_last()) + (if actions.last() is Send {
            1int
        } else {
            0int
        })
    }
}

/// How many of some actions ask for a refresh.
pub open spec fn refreshes(actions: Seq<ApiActionView>) -> int
    decreases actions.len(),
{
    if actions.len() == 0 {
        0
    } else {
        refreshes(actions.drop_last()) + (if actions.last() is Refresh {
            1int
        } else {
            0int
        })
    }
}

/// Whatever the vendor answers, a request is sent at most [`MAX_ATTEMPTS`]
/// times, the first sending included, and the tokens are refreshed at most
/// one time less.
pub proof fn lemma_retry_is_bounded(session: SessionView, call: ApiCall, events: Seq<ApiEventView>)
    ensures
        1 <= after_events(session, begun(call), events).1.attempts <= MAX_ATTEMPTS,
        sendings(after_events(session, begun(call), events).2) + 1 == after_events(
            session,
            begun(call),
            events,
        ).1.attempts,
        refreshes(after_events(session, begun(call), events).2) <= MAX_ATTEMPTS - 1,
        after_events(session, begun(call), events).1.stage == RequestStage::AwaitingRefresh
            ==> refreshes(after_events(session, begun(call), events).2) == after_events(
            session,
            begun(call),
            events,
        ).1.attempts < MAX_ATTEMPTS,
        after_events(session, begun(call), events).1.stage == RequestStage::AwaitingResponse
            ==> refreshes(after_events(session, begun(call), events).2) + 1 == after_events(
            session,
            begun(call),
            events,
        ).1.attempts,
    decreases events.len(),
{
    if events.len() > 0 {
        lemma_retry_is_bounded(session, call, events.drop_last());
        let before = after_events(session, begun(call), events.drop_last());
        let step = request_step_spec(before.0, before.1, events.last());
        assert(before.2.push(step.2).drop_last() =~= before.2);
    }
}

/// A request that has ended stays ended: nothing is sent after it.
pub proof fn lemma_finished_is_final(session: SessionView, run: RunView, event: ApiEventView)
    requires
        run.stage == RequestStage::Finished,
    ensures
        request_step_spec(session, run, event).0 == session,
        request_step_spec(session, run, event).1 == run,
        request_step_spec(session, run, event).2 is Fail,
{
}

/// A refused token on the first sending leads to exactly one refresh and
/// one more sending, which carries the new access token; the session then
/// holds the new pair.
pub proof fn lemma_refused_once(
    session: SessionView,
    call: ApiCall,
    access_token: Seq<char>,
    refresh_token: Seq<char>,
)
    ensures
        after_events(
            session,
            begun(call),
            seq![
                ApiEventView::Status(UNAUTHORIZED),
                ApiEventView::Refreshed { access_token, refresh_token },
            ],
        ) == (
            SessionView { access_token, refresh_token },
            RunView { call, attempts: 2, stage: RequestStage::AwaitingResponse },
            seq![
                ApiActionView::Refresh(refresh_spec(session.refresh_token)),
                ApiActionView::Send(call_spec(call, access_token)),
            ],
        ),
{
    let first = ApiEventView::Status(UNAUTHORIZED);
    let second = ApiEventView::Refreshed { access_token, refresh_token };
    let events = seq![first, second];
    reveal_with_fuel(after_events, 3);
    assert(events.drop_last() =~= seq![first]);
    assert(seq![first].drop_last() =~= Seq::<ApiEventView>::empty());
    let none = after_events(session, begun(call), Seq::<ApiEventView>::empty());
    assert(none == (session, begun(call), Seq::<ApiActionView>::empty()));
    let one = after_events(session, begun(call), seq![first]);
    assert(one.0 == session);
    assert(one.1 == (RunView { call, attempts: 1, stage: RequestStage::AwaitingRefresh }));
    assert(one.2 =~= seq![ApiActionView::Refresh(refresh_spec(session.refresh_token))]);
    let two = after_events(session, begun(call), events);
    assert(two.2 =~= seq![
        ApiActionView::Refresh(refresh_spec(session.refresh_token)),
        ApiActionView::Send(call_spec(call, access_token)),
    ]);
}

/// A token that is refused on the last sending fails the request with the
/// refusing status: there is no further refresh.
pub proof fn lemma_refused_at_last(session: SessionView, call: ApiCall)
    ensures
        request_step_spec(
            session,
            RunView { call, attempts: MAX_ATTEMPTS as int, stage: RequestStage::AwaitingResponse },
            ApiEventView::Status(UNAUTHORIZED),
        ) == (
            session,
            RunView { call, attempts: MAX_ATTEMPTS as int, stage: RequestStage::Finished },
            ApiActionView::Fail(
                SyncError::Transport(
                    TransportError { status: UNAUTHORIZED, attempts: MAX_ATTEMPTS },
                ),
            ),
        ),
{
}

} // verus!
