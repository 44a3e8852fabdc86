//! Requests as plain descriptions: what to send, and what to do with the
//! outcome of sending it.
use vstd::prelude::*;
use vstd::string::*;
use crate::error::{
    err_view, RefreshTokenErr, RobinhoodErr, RobinhoodErrView, TransportError, TransportErrorView,
};
use crate::json::{copy_value, json_model, Json};
use crate::login::{reply_view, AgentToken, NewToken, Robinhood, RobinhoodView};

verus! {

/// The HTTP method of a request.
#[derive(Debug, Clone, Copy, PartialEq, Eq, Structural)]
pub enum ReqKind {
    Post,
    Get,
}

/// What a caller asks a session to send.
#[derive(Debug, Clone, Copy)]
pub struct RobinhoodReq<'a> {
    pub kind: ReqKind,
    pub url: &'a str,
    pub payload: Option<&'a serde_json::Value>,
}

/// One header of a request.
#[derive(Debug, Clone, PartialEq, Eq)]
pub struct Header {
    pub name: String,
    pub value: String,
}

pub struct HeaderView {
    pub name: Seq<char>,
    pub value: Seq<char>,
}

impl View for Header {
    type V = HeaderView;

    open spec fn view(&self) -> HeaderView {
        HeaderView { name: self.name@, value: self.value@ }
    }
}

/// A request ready to be sent: method, address, headers in the order in
/// which they were set, and a JSON body where there is one.
#[derive(Debug, Clone, PartialEq, Eq)]
pub struct HttpRequest {
    pub kind: ReqKind,
    pub url: String,
    pub headers: Vec<Header>,
    pub payload: Option<serde_json::Value>,
}

pub struct HttpRequestView {
    pub kind: ReqKind,
    pub url: Seq<char>,
    pub headers: Seq<HeaderView>,
    pub payload: Option<Json>,
}

/// The document of an optional JSON value.
pub open spec fn payload_of(payload: Option<serde_json::Value>) -> Option<Json> {
    match payload {
        Some(value) => Some(json_model(value)),
        None => None,
    }
}

impl View for HttpRequest {
    type V = HttpRequestView;

    open spec fn view(&self) -> HttpRequestView {
        HttpRequestView {
            kind: self.kind,
            url: self.url@,
            headers: self.headers@.map_values(|header: Header| header@),
            payload: payload_of(self.payload),
        }
    }
}

/// The headers that a requestor puts on every request: its user agent, and
/// its bearer token where it has one.
pub open spec fn agent_headers(agent: Seq<char>, bearer: Option<Seq<char>>) -> Seq<HeaderView> {
    let first = seq![HeaderView { name: "User-Agent"@, value: agent }];
    match bearer {
        Some(token) => first.push(
            HeaderView { name: "Authorization"@, value: "Bearer "@ + token },
        ),
        None => first,
    }
}

impl HttpRequest {
    /// A request without headers.
    pub fn new(
        kind: ReqKind,
        url: &str,
        payload: Option<serde_json::Value>,
    ) -> (request: HttpRequest)
        ensures
            request@ == (HttpRequestView {
                kind,
                url: url@,
                headers: Seq::<HeaderView>::empty(),
                payload: payload_of(payload),
            }),
    {
        let request = HttpRequest { kind, url: url.to_owned(), headers: Vec::new(), payload };
        assert(request@.headers =~= Seq::<HeaderView>::empty());
        request
    }
}

/// Puts the requestor's headers behind those that `req` already has.
pub fn set_req_headers<T: AgentToken>(requestor: &T, req: HttpRequest) -> (decorated: HttpRequest)
    ensures
        decorated@ == (HttpRequestView {
            headers: req@.headers + agent_headers(requestor.agent(), requestor.bearer()),
            ..req@
        }),
{
    let mut decorated = req;
    let ghost before = decorated@.headers;
    decorated.headers.push(
        Header { name: "User-Agent".to_owned(), value: requestor.get_user_agent().to_owned() },
    );
    if let Some(token) = requestor.get_token() {
        decorated.headers.push(
            Header {
                name: "Authorization".to_owned(),
                value: String::from_str("Bearer ").concat(token),
            },
        );
    }
    assert(decorated@.headers =~= before + agent_headers(requestor.agent(), requestor.bearer()));
    decorated
}

/// What a session does about a request that was sent.
#[derive(Debug, Clone, PartialEq, Eq)]
pub enum ReqStep {
    /// Hand the response to the caller.
    Deliver,
    /// Refresh the tokens: send what `reauthorize_request` gives, and hand
    /// the reply to `reauthorize`.
    Refresh,
    /// Wait for so many milliseconds, then build the request anew and send
    /// it.
    Backoff(u64),
    /// Give up with this error.
    Fail(RobinhoodErr),
}

pub enum ReqStepView {
    Deliver,
    Refresh,
    Backoff(u64),
    Fail(RobinhoodErrView),
}

impl View for ReqStep {
    type V = ReqStepView;

    open spec fn view(&self) -> ReqStepView {
        match self {
            ReqStep::Deliver => ReqStepView::Deliver,
            ReqStep::Refresh => ReqStepView::Refresh,
            ReqStep::Backoff(millis) => ReqStepView::Backoff(*millis),
            ReqStep::Fail(error) => ReqStepView::Fail(error@),
        }
    }
}

/// What a session lets the dispatcher do on its own.
pub struct Policy {
    /// Whether a refused access token is answered by a refresh.
    pub auto_refresh: bool,
    /// Whether a request is sent again after a failure that may pass.
    pub retry: bool,
    /// How long to wait before a request is sent again, in milliseconds.
    pub backoff_millis: u64,
}

impl RobinhoodView {
    /// What the session lets the dispatcher do on its own.
    pub open spec fn policy(self) -> Policy {
        Policy {
            auto_refresh: self.auto_refresh,
            retry: self.retry,
            backoff_millis: self.backoff_millis,
        }
    }

    /// The request that the session sends for what a caller asks: with the
    /// session's headers, and with the payload only where it is posted.
    pub open spec fn prepared(self, kind: ReqKind, url: Seq<char>, payload: Option<Json>) -> HttpRequestView {
        HttpRequestView {
            kind,
            url,
            headers: agent_headers(self.user_agent, Some(self.token)),
            payload: match kind {
                ReqKind::Post => payload,
                ReqKind::Get => None,
            },
        }
    }
}

/// The document of an optional JSON value behind a reference.
pub open spec fn payload_ref_of(payload: Option<&serde_json::Value>) -> Option<Json> {
    match payload {
        Some(value) => Some(json_model(*value)),
        None => None,
    }
}

/// Whether a status tells of an error: the statuses from 400 to 599.
pub open spec fn is_error_status(status: u16) -> bool {
    400 <= status <= 599
}

/// Whether a status tells of an error on the server's side: the statuses
/// from 500 to 599.
pub open spec fn is_server_error(status: u16) -> bool {
    500 <= status <= 599
}

/// The status that came with the outcome of sending a request: that of the
/// response, or the one that the failure of the transport carries.
pub open spec fn status_of(outcome: Result<u16, TransportErrorView>) -> Option<u16> {
    match outcome {
        Ok(status) => Some(status),
        Err(cause) => cause.status,
    }
}

/// Whether an outcome is a failure that may pass: an error on the server's
/// side, a connection that could not be made, or a request that ran out of
/// time.
pub open spec fn may_pass(outcome: Result<u16, TransportErrorView>) -> bool {
    ||| status_of(outcome) matches Some(status) && is_server_error(status)
    ||| outcome matches Err(cause) && (cause.connect || cause.timeout)
}

/// What the transport says of a response with an error status.
pub open spec fn status_message(status: u16) -> Seq<char> {
    if is_server_error(status) {
        "HTTP status server error"@
    } else {
        "HTTP status client error"@
    }
}

/// The failure of the transport that an outcome stands for: the failure
/// itself, or one made of the error status of the response and the URL.
pub open spec fn failure_of(
    url: Seq<char>,
    outcome: Result<u16, TransportErrorView>,
) -> TransportErrorView {
    match outcome {
        Ok(status) => TransportErrorView {
            status: Some(status),
            url: Some(url),
            connect: false,
            timeout: false,
            message: status_message(status),
        },
        Err(cause) => cause,
    }
}

/// What follows the outcome of sending a request to `url`.
///
/// A response without an error status is delivered. Status 401 is answered
/// by a refresh where the policy has one, and is `Unauthorized` where it
/// has none. Status 404 is `NotFound` with the URL. A failure that may pass
/// is waited out where the policy sends again, and is the failure of the
/// transport where it does not. Anything else is the failure of the
/// transport.
pub open spec fn next_step(
    policy: Policy,
    url: Seq<char>,
    outcome: Result<u16, TransportErrorView>,
) -> ReqStepView {
    if outcome matches Ok(status) && !is_error_status(status) {
        ReqStepView::Deliver
    } else if status_of(outcome) == Some(401u16) {
        if policy.auto_refresh {
            ReqStepView::Refresh
        } else {
            ReqStepView::Fail(RobinhoodErrView::Unauthorized)
        }
    } else if status_of(outcome) == Some(404u16) {
        ReqStepView::Fail(RobinhoodErrView::NotFound(url))
    } else if may_pass(outcome) && policy.retry {
        ReqStepView::Backoff(policy.backoff_millis)
    } else {
        ReqStepView::Fail(RobinhoodErrView::RequestError(failure_of(url, outcome)))
    }
}

/// What follows a refresh that `next_step` asked for: the request is sent
/// again where the refresh went well, and the dispatch is `Unauthorized`
/// where it did not.
pub open spec fn step_after_refresh(refreshed: bool) -> Result<(), RobinhoodErrView> {
    if refreshed {
        Ok(())
    } else {
        Err(RobinhoodErrView::Unauthorized)
    }
}

/// The failure of the transport that a response with an error status
/// stands for.
fn status_failure(url: &str, status: u16) -> (failure: TransportError)
    ensures
        failure@ == failure_of(url@, Ok(status)),
{
    let message = if 500 <= status && status <= 599 {
        "HTTP status server error".to_owned()
    } else {
        "HTTP status client error".to_owned()
    };
    TransportError {
        status: Some(status),
        url: Some(url.to_owned()),
        connect: false,
        timeout: false,
        message,
    }
}

impl Robinhood {
    /// The request to send for what the caller asks, with the session's
    /// headers as they are now. Every attempt sends a request made anew by
    /// this function.
    pub fn req(&self, request: &RobinhoodReq<'_>) -> (prepared: HttpRequest)
        ensures
            prepared@ == self@.prepared(
                request.kind,
                request.url@,
                payload_ref_of(request.payload),
            ),
    {
        let payload = match request.kind {
            ReqKind::Post => match request.payload {
                Some(value) => Some(copy_value(value)),
                None => None,
            },
            ReqKind::Get => None,
        };
        set_req_headers(self, HttpRequest::new(request.kind, request.url, payload))
    }

    /// What to do about the outcome of sending `request`: the status of the
    /// response that came, or the failure of the transport.
    pub fn send_req(
        &self,
        request: &RobinhoodReq<'_>,
        outcome: Result<u16, TransportError>,
    ) -> (step: ReqStep)
        ensures
            step@ == next_step(self@.policy(), request.url@, err_view(outcome)),
    {
        let status: Option<u16> = match &outcome {
            Ok(status) => Some(*status),
            Err(cause) => cause.status,
        };
        let transient: bool = match &outcome {
            Ok(status) => 500 <= *status && *status <= 599,
            Err(cause) => cause.connect || cause.timeout || match cause.status {
                Some(status) => 500 <= status && status <= 599,
                None => false,
            },
        };
        if let Ok(status) = &outcome {
            if !(400 <= *status && *status <= 599) {
                return ReqStep::Deliver;
            }
        }
        if status == Some(401u16) {
            if self.get_auto_refresh() {
                return ReqStep::Refresh;
            }
            return ReqStep::Fail(RobinhoodErr::Unauthorized);
        }
        if status == Some(404u16) {
            return ReqStep::Fail(RobinhoodErr::NotFound(request.url.to_owned()));
        }
        if transient && self.get_retry() {
            return ReqStep::Backoff(self.get_backoff_millis());
        }
        match outcome {
            Ok(status) => ReqStep::Fail(RobinhoodErr::RequestError(status_failure(request.url, status))),
            Err(cause) => ReqStep::Fail(RobinhoodErr::RequestError(cause)),
        }
    }

    /// The request for the refresh that `send_req` asked for: a refresh on
    /// behalf of a caller who saw the session's refresh token as it is now.
    pub fn reauthorize_request(&self) -> (request: HttpRequest)
        ensures
            request@ == self@.refresh_request(),
    {
        let seen = Some(self.get_refresh_token());
        match self.refresh_request(&seen) {
            Some(request) => request,
            None => vstd::pervasive::unreached(),
        }
    }

    /// Takes in the reply to `reauthorize_request`, and says what to do
    /// next: send the request again where the refresh went well, give up as
    /// `Unauthorized` where it failed.
    pub fn reauthorize(
        &mut self,
        reply: Result<serde_json::Value, TransportError>,
    ) -> (next: Result<(), RobinhoodErr>)
        ensures
            final(self)@ == old(self)@.refreshed(
                Some(old(self)@.refresh_token),
                reply_view(reply),
            ),
            err_view(next) == step_after_refresh(
                old(self)@.refresh_outcome(Some(old(self)@.refresh_token), reply_view(reply)) is Ok,
            ),
    {
        let seen = Some(self.get_refresh_token());
        let refreshed = self.refresh_token(seen, reply);
        Robinhood::after_refresh(&refreshed)
    }

    /// What to do after a refresh that `send_req` asked for: send the
    /// request again where the refresh went well, give up as `Unauthorized`
    /// where it failed.
    pub fn after_refresh(
        refreshed: &Result<Option<NewToken>, RefreshTokenErr>,
    ) -> (next: Result<(), RobinhoodErr>)
        ensures
            err_view(next) == step_after_refresh(refreshed is Ok),
    {
        match refreshed {
            Ok(_) => Ok(()),
            Err(_) => Err(RobinhoodErr::Unauthorized),
        }
    }
}

/// What happens to a dispatch from outside: the request was sent, with an
/// outcome, or the tokens were refreshed, well or not.
pub enum DispatchEvent {
    Sent(Result<u16, TransportErrorView>),
    Refreshed(bool),
}

/// How a dispatch ends: with the response of one of its sends, counted from
/// 1, or with an error.
pub enum DispatchEnd {
    Delivered(nat),
    Failed(RobinhoodErrView),
}

/// How far a dispatch has come.
pub struct DispatchRun {
    /// How often the request was sent.
    pub sends: nat,
    /// How often a refresh was asked for.
    pub refreshes: nat,
    /// The waits between sends, in milliseconds.
    pub waits: Seq<u64>,
    /// Whether a refresh was asked for and is not yet back.
    pub refreshing: bool,
    /// How the dispatch ended, once it has.
    pub end: Option<DispatchEnd>,
}

impl DispatchRun {
    /// A dispatch before its first send.
    pub open spec fn start() -> DispatchRun {
        DispatchRun {
            sends: 0,
            refreshes: 0,
            waits: Seq::<u64>::empty(),
            refreshing: false,
            end: None,
        }
    }

    /// The dispatch after one more event. An event that the dispatch does
    /// not wait for changes nothing: any event after the end, a send while
    /// a refresh is out, a refresh that nobody asked for.
    pub open spec fn after(self, policy: Policy, url: Seq<char>, event: DispatchEvent) -> DispatchRun {
        if self.end is Some {
            self
        } else {
            match event {
                DispatchEvent::Sent(outcome) => if self.refreshing {
                    self
                } else {
                    let sent = DispatchRun { sends: self.sends + 1, ..self };
                    match next_step(policy, url, outcome) {
                        ReqStepView::Deliver => DispatchRun {
                            end: Some(DispatchEnd::Delivered(sent.sends)),
                            ..sent
                        },
                        ReqStepView::Refresh => DispatchRun {
                            refreshes: sent.refreshes + 1,
                            refreshing: true,
                            ..sent
                        },
                        ReqStepView::Backoff(millis) => DispatchRun {
                            waits: sent.waits.push(millis),
                            ..sent
                        },
                        ReqStepView::Fail(error) => DispatchRun {
                            end: Some(DispatchEnd::Failed(error)),
                            ..sent
                        },
                    }
                },
                DispatchEvent::Refreshed(well) => if !self.refreshing {
                    self
                } else {
                    match step_after_refresh(well) {
                        Ok(_) => DispatchRun { refreshing: false, ..self },
                        Err(error) => DispatchRun {
                            refreshing: false,
                            end: Some(DispatchEnd::Failed(error)),
                            ..self
                        },
                    }
                },
            }
        }
    }
}

/// The dispatch of a request to `url` after the given events, in the order
/// in which they came: what `send_req` and `after_refresh` make of them, one
/// after the other.
pub open spec fn dispatch(policy: Policy, url: Seq<char>, events: Seq<DispatchEvent>) -> DispatchRun
    decreases events.len(),
{
    if events.len() == 0 {
        DispatchRun::start()
    } else {
        dispatch(policy, url, events.drop_last()).after(policy, url, events.last())
    }
}

/// One more event takes a dispatch one step on.
pub proof fn lemma_dispatch_push(
    policy: Policy,
    url: Seq<char>,
    events: Seq<DispatchEvent>,
    event: DispatchEvent,
)
    ensures
        dispatch(policy, url, events.push(event)) == dispatch(policy, url, events).after(
            policy,
            url,
            event,
        ),
{
    assert(events.push(event).drop_last() =~= events);
}

/// A dispatch that has ended stays as it is, whatever comes after.
pub proof fn lemma_dispatch_ended(
    policy: Policy,
    url: Seq<char>,
    events: Seq<DispatchEvent>,
    later: Seq<DispatchEvent>,
)
    requires
        dispatch(policy, url, events).end is Some,
    ensures
        dispatch(policy, url, events + later) == dispatch(policy, url, events),
    decreases later.len(),
{
    if later.len() == 0 {
        assert(events + later =~= events);
    } else {
        lemma_dispatch_ended(policy, url, events, later.drop_last());
        assert(events + later =~= (events + later.drop_last()).push(later.last()));
        lemma_dispatch_push(policy, url, events + later.drop_last(), later.last());
    }
}

/// A request that is refused once with status 401 and then succeeds: the
/// session that refreshes by itself asks for one refresh, sends the request
/// a second time, and delivers the response of that second send.
pub proof fn law_refresh_then_deliver(
    policy: Policy,
    url: Seq<char>,
    refused: Result<u16, TransportErrorView>,
    status: u16,
)
    requires
        policy.auto_refresh,
        status_of(refused) == Some(401u16),
        !is_error_status(status),
    ensures
        dispatch(
            policy,
            url,
            seq![
                DispatchEvent::Sent(refused),
                DispatchEvent::Refreshed(true),
                DispatchEvent::Sent(Ok(status)),
            ],
        ) == (DispatchRun {
            sends: 2,
            refreshes: 1,
            waits: Seq::<u64>::empty(),
            refreshing: false,
            end: Some(DispatchEnd::Delivered(2)),
        }),
{
    let first = seq![DispatchEvent::Sent(refused)];
    let second = first.push(DispatchEvent::Refreshed(true));
    let third = second.push(DispatchEvent::Sent(Ok(status)));
    lemma_dispatch_push(policy, url, Seq::<DispatchEvent>::empty(), DispatchEvent::Sent(refused));
    assert(Seq::<DispatchEvent>::empty().push(DispatchEvent::Sent(refused)) =~= first);
    lemma_dispatch_push(policy, url, first, DispatchEvent::Refreshed(true));
    lemma_dispatch_push(policy, url, second, DispatchEvent::Sent(Ok(status)));
    assert(third =~= seq![
        DispatchEvent::Sent(refused),
        DispatchEvent::Refreshed(true),
        DispatchEvent::Sent(Ok(status)),
    ]);
}

/// A refresh that fails ends the dispatch as `Unauthorized`, after one send.
pub proof fn law_failed_refresh_is_unauthorized(
    policy: Policy,
    url: Seq<char>,
    refused: Result<u16, TransportErrorView>,
)
    requires
        policy.auto_refresh,
        status_of(refused) == Some(401u16),
    ensures
        dispatch(policy, url, seq![DispatchEvent::Sent(refused), DispatchEvent::Refreshed(false)])
            == (DispatchRun {
            sends: 1,
            refreshes: 1,
            waits: Seq::<u64>::empty(),
            refreshing: false,
            end: Some(DispatchEnd::Failed(RobinhoodErrView::Unauthorized)),
        }),
{
    let first = seq![DispatchEvent::Sent(refused)];
    lemma_dispatch_push(policy, url, Seq::<DispatchEvent>::empty(), DispatchEvent::Sent(refused));
    assert(Seq::<DispatchEvent>::empty().push(DispatchEvent::Sent(refused)) =~= first);
    lemma_dispatch_push(policy, url, first, DispatchEvent::Refreshed(false));
    assert(first.push(DispatchEvent::Refreshed(false)) =~= seq![
        DispatchEvent::Sent(refused),
        DispatchEvent::Refreshed(false),
    ]);
}

/// A request that meets status 404 ends at once as `NotFound` with its URL,
/// under every policy: after one send, without a refresh and without a
/// wait, and nothing that comes later changes that.
pub proof fn law_not_found_ends_dispatch(
    policy: Policy,
    url: Seq<char>,
    missing: Result<u16, TransportErrorView>,
    later: Seq<DispatchEvent>,
)
    requires
        status_of(missing) == Some(404u16),
    ensures
        next_step(policy, url, missing) == ReqStepView::Fail(RobinhoodErrView::NotFound(url)),
        dispatch(policy, url, seq![DispatchEvent::Sent(missing)] + later) == (DispatchRun {
            sends: 1,
            refreshes: 0,
            waits: Seq::<u64>::empty(),
            refreshing: false,
            end: Some(DispatchEnd::Failed(RobinhoodErrView::NotFound(url))),
        }),
{
    let first = seq![DispatchEvent::Sent(missing)];
    lemma_dispatch_push(policy, url, Seq::<DispatchEvent>::empty(), DispatchEvent::Sent(missing));
    assert(Seq::<DispatchEvent>::empty().push(DispatchEvent::Sent(missing)) =~= first);
    lemma_dispatch_ended(policy, url, first, later);
}

/// Whether an outcome is waited out under a policy that sends again: a
/// failure that may pass, with a status other than 401 and 404.
pub open spec fn waited_out(outcome: Result<u16, TransportErrorView>) -> bool {
    &&& may_pass(outcome)
    &&& status_of(outcome) != Some(401u16)
    &&& status_of(outcome) != Some(404u16)
}

/// The events of sending a request once for each of the outcomes.
pub open spec fn sends_of(outcomes: Seq<Result<u16, TransportErrorView>>) -> Seq<DispatchEvent> {
    outcomes.map_values(|outcome: Result<u16, TransportErrorView>| DispatchEvent::Sent(outcome))
}

/// Under a policy that sends again, a dispatch that has met nothing but
/// failures that may pass is still going: it has sent the request once for
/// each failure and waited the fixed time after each.
pub proof fn law_retry_goes_on(
    policy: Policy,
    url: Seq<char>,
    failures: Seq<Result<u16, TransportErrorView>>,
)
    requires
        policy.retry,
        forall|i: int| 0 <= i < failures.len() ==> waited_out(#[trigger] failures[i]),
    ensures
        dispatch(policy, url, sends_of(failures)) == (DispatchRun {
            sends: failures.len(),
            refreshes: 0,
            waits: Seq::new(failures.len(), |i: int| policy.backoff_millis),
            refreshing: false,
            end: None,
        }),
    decreases failures.len(),
{
    if failures.len() == 0 {
        assert(Seq::new(failures.len(), |i: int| policy.backoff_millis) =~= Seq::<u64>::empty());
    } else {
        let before = failures.drop_last();
        law_retry_goes_on(policy, url, before);
        assert(sends_of(failures).drop_last() =~= sends_of(before));
        assert(sends_of(failures).last() == DispatchEvent::Sent(failures.last()));
        assert(waited_out(failures[failures.len() - 1]));
        assert(Seq::new(before.len(), |i: int| policy.backoff_millis).push(policy.backoff_millis)
            =~= Seq::new(failures.len(), |i: int| policy.backoff_millis));
    }
}

/// Under a policy that sends again, a request that meets failures that may
/// pass and then succeeds is sent once for each failure and once more,
/// with the fixed wait after each failure, and delivers the response of the
/// last send.
pub proof fn law_retry_until_success(
    policy: Policy,
    url: Seq<char>,
    failures: Seq<Result<u16, TransportErrorView>>,
    status: u16,
)
    requires
        policy.retry,
        forall|i: int| 0 <= i < failures.len() ==> waited_out(#[trigger] failures[i]),
        !is_error_status(status),
    ensures
        dispatch(policy, url, sends_of(failures).push(DispatchEvent::Sent(Ok(status)))) == (
        DispatchRun {
            sends: failures.len() + 1,
            refreshes: 0,
            waits: Seq::new(failures.len(), |i: int| policy.backoff_millis),
            refreshing: false,
            end: Some(DispatchEnd::Delivered(failures.len() + 1)),
        }),
{
    law_retry_goes_on(policy, url, failures);
    lemma_dispatch_push(policy, url, sends_of(failures), DispatchEvent::Sent(Ok(status)));
}

/// Under a policy that does not send again, the first failure that may pass
/// ends the dispatch with the failure of the transport: after one send,
/// without a wait.
pub proof fn law_no_retry_fails_at_once(
    policy: Policy,
    url: Seq<char>,
    failure: Result<u16, TransportErrorView>,
    later: Seq<DispatchEvent>,
)
    requires
        !policy.retry,
        waited_out(failure),
    ensures
        dispatch(policy, url, seq![DispatchEvent::Sent(failure)] + later) == (DispatchRun {
            sends: 1,
            refreshes: 0,
            waits: Seq::<u64>::empty(),
            refreshing: false,
            end: Some(
                DispatchEnd::Failed(RobinhoodErrView::RequestError(failure_of(url, failure))),
            ),
        }),
{
    let first = seq![DispatchEvent::Sent(failure)];
    lemma_dispatch_push(policy, url, Seq::<DispatchEvent>::empty(), DispatchEvent::Sent(failure));
    assert(Seq::<DispatchEvent>::empty().push(DispatchEvent::Sent(failure)) =~= first);
    lemma_dispatch_ended(policy, url, first, later);
}

} // verus!
