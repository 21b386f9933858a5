//! The sign-in flow as a state machine.
//!
//! The flow itself touches neither the network nor the browser. Whoever runs
//! it performs the action that the machine asks for and reports what came of
//! it as the next event. The machine decides what follows, and it asks for
//! the release of the listener on every way out of the states that hold one.

use crate::authorize::{
    google_authorization_url, google_authorization_url_text,
    lemma_google_authorization_url_round_trip, query_value, url_query,
};
use crate::callback::{
    callback_parse_outcome, parse_callback, redirect_uri_for_port, redirect_uri_text,
    CallbackResult, CallbackResultView, MalformedReason,
};
use crate::parameter::{parameters, Parameter};
use crate::tokens::{
    authorization_code_fields, authorization_code_form, exchange_outcome,
    interpret_exchange_response, ExchangeError, ExchangeErrorView, OAuthTokens, OAuthTokensView,
};
use vstd::prelude::*;
use vstd::string::*;
use vstd::utf8::encode_utf8;

verus! {

/// How long to wait for the browser's request when the caller sets no time
/// of its own, in seconds.
pub const DEFAULT_CALLBACK_TIMEOUT_SECS: u64 = 300;

/// What the caller supplies for one sign-in.
#[derive(Debug, Clone, PartialEq, Eq)]
pub struct FlowConfig {
    pub client_id: String,
    pub client_secret: String,
}

/// The configuration as a mathematical value.
pub struct FlowConfigView {
    pub client_id: Seq<char>,
    pub client_secret: Seq<char>,
}

impl View for FlowConfig {
    type V = FlowConfigView;

    open spec fn view(&self) -> FlowConfigView {
        FlowConfigView { client_id: self.client_id@, client_secret: self.client_secret@ }
    }
}

/// Why a sign-in failed.
#[derive(Debug, Clone, PartialEq, Eq)]
pub enum FlowError {
    /// No local port could be bound.
    BindError { detail: String },
    /// The browser could not be opened.
    BrowserLaunchError { detail: String },
    /// No request reached the listener in time.
    CallbackTimeout,
    /// The listener broke while it waited for the request.
    ReceiveError { detail: String },
    /// The request held neither a code nor an error.
    CallbackMalformed { reason: MalformedReason },
    /// The provider reported an error, given here as it came.
    ProviderDenied { provider_error_code: String },
    /// The exchange of the code for tokens failed.
    Exchange { cause: ExchangeError },
    /// The caller gave the sign-in up.
    Cancelled,
    /// An event was reported that the state does not wait for.
    UnexpectedEvent,
}

/// A failure as a mathematical value.
pub enum FlowErrorView {
    BindError { detail: Seq<char> },
    BrowserLaunchError { detail: Seq<char> },
    CallbackTimeout,
    ReceiveError { detail: Seq<char> },
    CallbackMalformed { reason: MalformedReason },
    ProviderDenied { provider_error_code: Seq<char> },
    Exchange { cause: ExchangeErrorView },
    Cancelled,
    UnexpectedEvent,
}

impl View for FlowError {
    type V = FlowErrorView;

    open spec fn view(&self) -> FlowErrorView {
        match self {
            FlowError::BindError { detail } => FlowErrorView::BindError { detail: detail@ },
            FlowError::BrowserLaunchError { detail } => FlowErrorView::BrowserLaunchError {
                detail: detail@,
            },
            FlowError::CallbackTimeout => FlowErrorView::CallbackTimeout,
            FlowError::ReceiveError { detail } => FlowErrorView::ReceiveError { detail: detail@ },
            FlowError::CallbackMalformed { reason } => FlowErrorView::CallbackMalformed {
                reason: *reason,
            },
            FlowError::ProviderDenied { provider_error_code } => FlowErrorView::ProviderDenied {
                provider_error_code: provider_error_code@,
            },
            FlowError::Exchange { cause } => FlowErrorView::Exchange { cause: cause@ },
            FlowError::Cancelled => FlowErrorView::Cancelled,
            FlowError::UnexpectedEvent => FlowErrorView::UnexpectedEvent,
        }
    }
}

impl FlowErrorView {
    /// What to tell the user.
    pub open spec fn message_text(self) -> Seq<char> {
        match self {
            FlowErrorView::BindError { detail } => "Failed to start OAuth server: "@ + detail,
            FlowErrorView::BrowserLaunchError { detail } => "Failed to open browser: "@ + detail,
            FlowErrorView::CallbackTimeout => "Timed out waiting for the OAuth callback"@,
            FlowErrorView::ReceiveError { detail } => "Failed to receive callback: "@ + detail,
            FlowErrorView::CallbackMalformed { reason } => reason.message_text(),
            FlowErrorView::ProviderDenied { provider_error_code } => "OAuth error: "@
                + provider_error_code,
            FlowErrorView::Exchange { cause } => cause.message_text(),
            FlowErrorView::Cancelled => "Sign-in was cancelled"@,
            FlowErrorView::UnexpectedEvent => "Sign-in received an unexpected event"@,
        }
    }
}

impl FlowError {
    /// What to tell the user.
    pub fn message(&self) -> (message: String)
        ensures
            message@ == self@.message_text(),
    {
        match self {
            FlowError::BindError { detail } => {
                let mut message = "Failed to start OAuth server: ".to_owned();
                message.append(detail.as_str());
                message
            },
            FlowError::BrowserLaunchError { detail } => {
                let mut message = "Failed to open browser: ".to_owned();
                message.append(detail.as_str());
                message
            },
            FlowError::CallbackTimeout => "Timed out waiting for the OAuth callback".to_owned(),
            FlowError::ReceiveError { detail } => {
                let mut message = "Failed to receive callback: ".to_owned();
                message.append(detail.as_str());
                message
            },
            FlowError::CallbackMalformed { reason } => reason.message(),
            FlowError::ProviderDenied { provider_error_code } => {
                let mut message = "OAuth error: ".to_owned();
                message.append(provider_error_code.as_str());
                message
            },
            FlowError::Exchange { cause } => cause.message(),
            FlowError::Cancelled => "Sign-in was cancelled".to_owned(),
            FlowError::UnexpectedEvent => "Sign-in received an unexpected event".to_owned(),
        }
    }
}

/// Where a sign-in stands.
#[derive(Debug, Clone, PartialEq, Eq)]
pub enum FlowState {
    /// Nothing has happened yet; the listener is being opened.
    Idle,
    /// The listener is bound to `port`; the browser is being opened.
    ListenerOpen { port: u16 },
    /// The consent screen is open; the listener waits for the one request.
    AwaitingCallback { port: u16 },
    /// The request brought a code; the listener is being released.
    CodeReceived { port: u16, authorization_code: String },
    /// The code is being exchanged for tokens.
    Exchanging,
    /// The sign-in succeeded.
    Complete { tokens: OAuthTokens },
    /// The sign-in failed.
    Failed { reason: FlowError },
}

/// A state as a mathematical value.
pub enum FlowStateView {
    Idle,
    ListenerOpen { port: u16 },
    AwaitingCallback { port: u16 },
    CodeReceived { port: u16, authorization_code: Seq<char> },
    Exchanging,
    Complete { tokens: OAuthTokensView },
    Failed { reason: FlowErrorView },
}

impl View for FlowState {
    type V = FlowStateView;

    open spec fn view(&self) -> FlowStateView {
        match self {
            FlowState::Idle => FlowStateView::Idle,
            FlowState::ListenerOpen { port } => FlowStateView::ListenerOpen { port: *port },
            FlowState::AwaitingCallback { port } => FlowStateView::AwaitingCallback {
                port: *port,
            },
            FlowState::CodeReceived { port, authorization_code } => FlowStateView::CodeReceived {
                port: *port,
                authorization_code: authorization_code@,
            },
            FlowState::Exchanging => FlowStateView::Exchanging,
            FlowState::Complete { tokens } => FlowStateView::Complete { tokens: tokens@ },
            FlowState::Failed { reason } => FlowStateView::Failed { reason: reason@ },
        }
    }
}

impl FlowStateView {
    /// Whether the sign-in has ended.
    pub open spec fn is_terminal(self) -> bool {
        self is Complete || self is Failed
    }

    /// Whether the listener is bound and not yet asked to be released.
    pub open spec fn holds_listener(self) -> bool {
        self is ListenerOpen || self is AwaitingCallback
    }

    /// How far the sign-in has come, from 0 for `Idle` to 5 for the two
    /// terminal states.
    pub open spec fn rank(self) -> nat {
        match self {
            FlowStateView::Idle => 0,
            FlowStateView::ListenerOpen { .. } => 1,
            FlowStateView::AwaitingCallback { .. } => 2,
            FlowStateView::CodeReceived { .. } => 3,
            FlowStateView::Exchanging => 4,
            FlowStateView::Complete { .. } => 5,
            FlowStateView::Failed { .. } => 5,
        }
    }
}

impl FlowState {
    /// Whether the sign-in has ended.
    pub fn is_terminal(&self) -> (terminal: bool)
        ensures
            terminal == self@.is_terminal(),
    {
        match self {
            FlowState::Complete { .. } => true,
            FlowState::Failed { .. } => true,
            _ => false,
        }
    }

    /// Whether the listener is bound and not yet asked to be released.
    pub fn holds_listener(&self) -> (holds: bool)
        ensures
            holds == self@.holds_listener(),
    {
        match self {
            FlowState::ListenerOpen { .. } => true,
            FlowState::AwaitingCallback { .. } => true,
            _ => false,
        }
    }
}

/// What came of the action that the machine asked for.
#[derive(Debug, Clone, PartialEq, Eq)]
pub enum FlowEvent {
    /// The listener is bound to `port`.
    ListenerBound { port: u16 },
    /// No port could be bound.
    BindFailed { detail: String },
    /// The browser shows the consent screen.
    BrowserLaunched,
    /// The browser could not be opened.
    LaunchFailed { detail: String },
    /// A request reached the listener; this is its target.
    CallbackArrived { request_target: String },
    /// No request reached the listener in time.
    TimedOut,
    /// The listener broke while it waited.
    ReceiveFailed { detail: String },
    /// The listener is closed and its port is free.
    ListenerReleased,
    /// The token endpoint answered.
    TokenResponse { status: u16, body: Vec<u8> },
    /// The request to the token endpoint got no answer.
    RequestFailed { detail: String },
    /// The caller gives the sign-in up.
    Cancelled,
}

/// An event as a mathematical value.
pub enum FlowEventView {
    ListenerBound { port: u16 },
    BindFailed { detail: Seq<char> },
    BrowserLaunched,
    LaunchFailed { detail: Seq<char> },
    CallbackArrived { request_target: Seq<char> },
    TimedOut,
    ReceiveFailed { detail: Seq<char> },
    ListenerReleased,
    TokenResponse { status: u16, body: Seq<u8> },
    RequestFailed { detail: Seq<char> },
    Cancelled,
}

impl View for FlowEvent {
    type V = FlowEventView;

    open spec fn view(&self) -> FlowEventView {
        match self {
            FlowEvent::ListenerBound { port } => FlowEventView::ListenerBound { port: *port },
            FlowEvent::BindFailed { detail } => FlowEventView::BindFailed { detail: detail@ },
            FlowEvent::BrowserLaunched => FlowEventView::BrowserLaunched,
            FlowEvent::LaunchFailed { detail } => FlowEventView::LaunchFailed { detail: detail@ },
            FlowEvent::CallbackArrived { request_target } => FlowEventView::CallbackArrived {
                request_target: request_target@,
            },
            FlowEvent::TimedOut => FlowEventView::TimedOut,
            FlowEvent::ReceiveFailed { detail } => FlowEventView::ReceiveFailed {
                detail: detail@,
            },
            FlowEvent::ListenerReleased => FlowEventView::ListenerReleased,
            FlowEvent::TokenResponse { status, body } => FlowEventView::TokenResponse {
                status: *status,
                body: body@,
            },
            FlowEvent::RequestFailed { detail } => FlowEventView::RequestFailed {
                detail: detail@,
            },
            FlowEvent::Cancelled => FlowEventView::Cancelled,
        }
    }
}

/// What the machine asks for next.
#[derive(Debug, Clone, PartialEq, Eq)]
pub enum FlowAction {
    /// Bind a listener to a free loopback port.
    OpenListener,
    /// Open `url` in the user's browser.
    LaunchBrowser { url: String },
    /// Wait for the one request, no longer than the caller allows.
    AwaitCallback,
    /// Answer the request with the confirmation page, then close the
    /// listener.
    ConfirmAndRelease,
    /// Close the listener.
    ReleaseListener,
    /// Post `form` to the token endpoint.
    PostTokenRequest { form: Vec<Parameter> },
    /// Nothing is left to do.
    Finish,
}

/// An action as a mathematical value.
pub enum FlowActionView {
    OpenListener,
    LaunchBrowser { url: Seq<char> },
    AwaitCallback,
    ConfirmAndRelease,
    ReleaseListener,
    PostTokenRequest { form: Seq<(Seq<char>, Seq<char>)> },
    Finish,
}

impl View for FlowAction {
    type V = FlowActionView;

    open spec fn view(&self) -> FlowActionView {
        match self {
            FlowAction::OpenListener => FlowActionView::OpenListener,
            FlowAction::LaunchBrowser { url } => FlowActionView::LaunchBrowser { url: url@ },
            FlowAction::AwaitCallback => FlowActionView::AwaitCallback,
            FlowAction::ConfirmAndRelease => FlowActionView::ConfirmAndRelease,
            FlowAction::ReleaseListener => FlowActionView::ReleaseListener,
            FlowAction::PostTokenRequest { form } => FlowActionView::PostTokenRequest {
                form: parameters(form@),
            },
            FlowAction::Finish => FlowActionView::Finish,
        }
    }
}

impl FlowActionView {
    /// Whether the action closes the listener.
    pub open spec fn releases_listener(self) -> bool {
        self is ConfirmAndRelease || self is ReleaseListener
    }
}

impl FlowAction {
    /// Whether the action closes the listener.
    pub fn releases_listener(&self) -> (releases: bool)
        ensures
            releases == self@.releases_listener(),
    {
        match self {
            FlowAction::ConfirmAndRelease => true,
            FlowAction::ReleaseListener => true,
            _ => false,
        }
    }
}

/// The failure of a sign-in that stood in `state`, with the release of the
/// listener where the state holds one.
pub open spec fn failure(state: FlowStateView, reason: FlowErrorView) -> (
    FlowStateView,
    FlowActionView,
) {
    (
        FlowStateView::Failed { reason },
        if state.holds_listener() {
            FlowActionView::ReleaseListener
        } else {
            FlowActionView::Finish
        },
    )
}

/// What follows the request that reached the listener. The browser gets its
/// page and the listener is closed, whatever the request held.
pub open spec fn after_callback(port: u16, result: CallbackResultView) -> (
    FlowStateView,
    FlowActionView,
) {
    (
        match result {
            CallbackResultView::Success { authorization_code } => FlowStateView::CodeReceived {
                port,
                authorization_code,
            },
            CallbackResultView::Failure { provider_error_code } => FlowStateView::Failed {
                reason: FlowErrorView::ProviderDenied { provider_error_code },
            },
            CallbackResultView::Malformed { reason } => FlowStateView::Failed {
                reason: FlowErrorView::CallbackMalformed { reason },
            },
        },
        FlowActionView::ConfirmAndRelease,
    )
}

/// What follows the answer of the token endpoint.
pub open spec fn after_exchange(outcome: Result<OAuthTokensView, ExchangeErrorView>) -> (
    FlowStateView,
    FlowActionView,
) {
    (
        match outcome {
            Ok(tokens) => FlowStateView::Complete { tokens },
            Err(cause) => FlowStateView::Failed { reason: FlowErrorView::Exchange { cause } },
        },
        FlowActionView::Finish,
    )
}

/// The state that follows `state` on `event`, and the action to perform
/// next.
///
/// A terminal state stays as it is. A cancellation fails the sign-in from
/// every other state, and so does an event that the state does not wait for.
pub open spec fn step_spec(config: FlowConfigView, state: FlowStateView, event: FlowEventView) -> (
    FlowStateView,
    FlowActionView,
) {
    match state {
        FlowStateView::Complete { .. } => (state, FlowActionView::Finish),
        FlowStateView::Failed { .. } => (state, FlowActionView::Finish),
        FlowStateView::Idle => match event {
            FlowEventView::ListenerBound { port } => (
                FlowStateView::ListenerOpen { port },
                FlowActionView::LaunchBrowser {
                    url: google_authorization_url_text(config.client_id, redirect_uri_text(port)),
                },
            ),
            FlowEventView::BindFailed { detail } => failure(
                state,
                FlowErrorView::BindError { detail },
            ),
            FlowEventView::Cancelled => failure(state, FlowErrorView::Cancelled),
            _ => failure(state, FlowErrorView::UnexpectedEvent),
        },
        FlowStateView::ListenerOpen { port } => match event {
            FlowEventView::BrowserLaunched => (
                FlowStateView::AwaitingCallback { port },
                FlowActionView::AwaitCallback,
            ),
            FlowEventView::LaunchFailed { detail } => failure(
                state,
                FlowErrorView::BrowserLaunchError { detail },
            ),
            FlowEventView::Cancelled => failure(state, FlowErrorView::Cancelled),
            _ => failure(state, FlowErrorView::UnexpectedEvent),
        },
        FlowStateView::AwaitingCallback { port } => match event {
            FlowEventView::CallbackArrived { request_target } => after_callback(
                port,
                callback_parse_outcome(request_target),
            ),
            FlowEventView::TimedOut => failure(state, FlowErrorView::CallbackTimeout),
            FlowEventView::ReceiveFailed { detail } => failure(
                state,
                FlowErrorView::ReceiveError { detail },
            ),
            FlowEventView::Cancelled => failure(state, FlowErrorView::Cancelled),
            _ => failure(state, FlowErrorView::UnexpectedEvent),
        },
        FlowStateView::CodeReceived { port, authorization_code } => match event {
            FlowEventView::ListenerReleased => (
                FlowStateView::Exchanging,
                FlowActionView::PostTokenRequest {
                    form: authorization_code_fields(
                        authorization_code,
                        config.client_id,
                        config.client_secret,
                        redirect_uri_text(port),
                    ),
                },
            ),
            FlowEventView::Cancelled => failure(state, FlowErrorView::Cancelled),
            _ => failure(state, FlowErrorView::UnexpectedEvent),
        },
        FlowStateView::Exchanging => match event {
            FlowEventView::TokenResponse { status, body } => after_exchange(
                exchange_outcome(status, body),
            ),
            FlowEventView::RequestFailed { detail } => failure(
                state,
                FlowErrorView::Exchange { cause: ExchangeErrorView::RequestFailed { detail } },
            ),
            FlowEventView::Cancelled => failure(state, FlowErrorView::Cancelled),
            _ => failure(state, FlowErrorView::UnexpectedEvent),
        },
    }
}

/// The state after a run of events.
pub open spec fn state_after(config: FlowConfigView, state: FlowStateView, events: Seq<
    FlowEventView,
>) -> FlowStateView
    decreases events.len(),
{
    if events.len() == 0 {
        state
    } else {
        state_after(config, step_spec(config, state, events[0]).0, events.skip(1))
    }
}

/// The state in which a sign-in starts, and the first action.
pub fn begin() -> (start: (FlowState, FlowAction))
    ensures
        start.0@ == FlowStateView::Idle,
        start.1@ == FlowActionView::OpenListener,
{
    (FlowState::Idle, FlowAction::OpenListener)
}

/// Fails a sign-in that stood in a state with or without a listener.
fn fail(held_listener: bool, reason: FlowError) -> (next: (FlowState, FlowAction))
    ensures
        next.0@ == (FlowStateView::Failed { reason: reason@ }),
        next.1@ == (if held_listener {
            FlowActionView::ReleaseListener
        } else {
            FlowActionView::Finish
        }),
{
    let action = if held_listener {
        FlowAction::ReleaseListener
    } else {
        FlowAction::Finish
    };
    (FlowState::Failed { reason }, action)
}

/// Takes the sign-in one step further: given the state and what came of the
/// last action, returns the next state and the next action.
pub fn step(config: &FlowConfig, state: FlowState, event: FlowEvent) -> (next: (
    FlowState,
    FlowAction,
))
    ensures
        (next.0@, next.1@) == step_spec(config@, state@, event@),
{
    match state {
        FlowState::Complete { tokens } => (FlowState::Complete { tokens }, FlowAction::Finish),
        FlowState::Failed { reason } => (FlowState::Failed { reason }, FlowAction::Finish),
        FlowState::Idle => match event {
            FlowEvent::ListenerBound { port } => {
                let redirect_uri = redirect_uri_for_port(port);
                let url = google_authorization_url(
                    config.client_id.as_str(),
                    redirect_uri.as_str(),
                );
                (FlowState::ListenerOpen { port }, FlowAction::LaunchBrowser { url })
            },
            FlowEvent::BindFailed { detail } => fail(false, FlowError::BindError { detail }),
            FlowEvent::Cancelled => fail(false, FlowError::Cancelled),
            _ => fail(false, FlowError::UnexpectedEvent),
        },
        FlowState::ListenerOpen { port } => match event {
            FlowEvent::BrowserLaunched => (
                FlowState::AwaitingCallback { port },
                FlowAction::AwaitCallback,
            ),
            FlowEvent::LaunchFailed { detail } => fail(
                true,
                FlowError::BrowserLaunchError { detail },
            ),
            FlowEvent::Cancelled => fail(true, FlowError::Cancelled),
            _ => fail(true, FlowError::UnexpectedEvent),
        },
        FlowState::AwaitingCallback { port } => match event {
            FlowEvent::CallbackArrived { request_target } => {
                let next_state = match parse_callback(request_target.as_str()) {
                    CallbackResult::Success { authorization_code } => FlowState::CodeReceived {
                        port,
                        authorization_code,
                    },
                    CallbackResult::Failure { provider_error_code } => FlowState::Failed {
                        reason: FlowError::ProviderDenied { provider_error_code },
                    },
                    CallbackResult::Malformed { reason } => FlowState::Failed {
                        reason: FlowError::CallbackMalformed { reason },
                    },
                };
                (next_state, FlowAction::ConfirmAndRelease)
            },
            FlowEvent::TimedOut => fail(true, FlowError::CallbackTimeout),
            FlowEvent::ReceiveFailed { detail } => fail(true, FlowError::ReceiveError { detail }),
            FlowEvent::Cancelled => fail(true, FlowError::Cancelled),
            _ => fail(true, FlowError::UnexpectedEvent),
        },
        FlowState::CodeReceived { port, authorization_code } => match event {
            FlowEvent::ListenerReleased => {
                let form = authorization_code_form(
                    authorization_code,
                    config.client_id.clone(),
                    config.client_secret.clone(),
                    redirect_uri_for_port(port),
                );
                (FlowState::Exchanging, FlowAction::PostTokenRequest { form })
            },
            FlowEvent::Cancelled => fail(false, FlowError::Cancelled),
            _ => fail(false, FlowError::UnexpectedEvent),
        },
        FlowState::Exchanging => match event {
            FlowEvent::TokenResponse { status, body } => {
                let next_state = match interpret_exchange_response(status, body.as_slice()) {
                    Ok(tokens) => FlowState::Complete { tokens },
                    Err(cause) => FlowState::Failed { reason: FlowError::Exchange { cause } },
                };
                (next_state, FlowAction::Finish)
            },
            FlowEvent::RequestFailed { detail } => fail(
                false,
                FlowError::Exchange { cause: ExchangeError::RequestFailed { detail } },
            ),
            FlowEvent::Cancelled => fail(false, FlowError::Cancelled),
            _ => fail(false, FlowError::UnexpectedEvent),
        },
    }
}

/// A sign-in that has ended stays as it ended: no event changes a terminal
/// state, and nothing is left to do.
pub proof fn lemma_terminal_states_stay(
    config: FlowConfigView,
    state: FlowStateView,
    event: FlowEventView,
)
    requires
        state.is_terminal(),
    ensures
        step_spec(config, state, event) == (state, FlowActionView::Finish),
{
}

/// Every event takes a sign-in that has not ended strictly further, so the
/// states are passed in their order and none is entered twice.
pub proof fn lemma_every_step_advances(
    config: FlowConfigView,
    state: FlowStateView,
    event: FlowEventView,
)
    requires
        !state.is_terminal(),
    ensures
        step_spec(config, state, event).0.rank() > state.rank(),
        step_spec(config, state, event).0.rank() <= 5,
{
}

/// The listener is released on every way out. A step that leaves the states
/// that hold the listener asks for its release, whether the sign-in goes on,
/// fails, times out or is given up; no other step asks for it; and the
/// listener is only ever taken by the step that reports it bound.
pub proof fn lemma_listener_is_released(
    config: FlowConfigView,
    state: FlowStateView,
    event: FlowEventView,
)
    ensures
        ({
            let (next, action) = step_spec(config, state, event);
            &&& state.holds_listener() && !next.holds_listener() ==> action.releases_listener()
            &&& action.releases_listener() ==> state.holds_listener() && !next.holds_listener()
            &&& next.holds_listener() && !state.holds_listener() ==> state is Idle
                && event is ListenerBound
            &&& next.is_terminal() ==> !next.holds_listener()
            &&& next.rank() > 2 ==> !next.holds_listener()
        }),
{
}

/// Leaving the wait for the request always releases the listener: whatever
/// event ends `AwaitingCallback`, the action of that step closes the
/// listener, and the next state does not hold it.
pub proof fn lemma_listener_not_held_past_awaiting(
    config: FlowConfigView,
    port: u16,
    event: FlowEventView,
)
    ensures
        ({
            let (next, action) = step_spec(
                config,
                FlowStateView::AwaitingCallback { port },
                event,
            );
            action.releases_listener() && !next.holds_listener()
        }),
{
}

/// A sign-in reaches a terminal state after at most five events, counted
/// from `Idle`, and then stays in it.
pub proof fn lemma_flow_ends(config: FlowConfigView, state: FlowStateView, events: Seq<
    FlowEventView,
>)
    requires
        state.rank() + events.len() >= 5,
    ensures
        state_after(config, state, events).is_terminal(),
    decreases events.len(),
{
    if events.len() > 0 {
        let next = step_spec(config, state, events[0]).0;
        if state.is_terminal() {
            lemma_terminal_states_stay(config, state, events[0]);
        } else {
            lemma_every_step_advances(config, state, events[0]);
        }
        lemma_flow_ends(config, next, events.skip(1));
    }
}

/// The redirect address is the same on both ends. For a listener on `port`,
/// the consent screen is opened with the redirect address of that port, and
/// the form that later exchanges the code names the very same address, as the
/// provider demands.
pub proof fn lemma_redirect_uri_is_consistent(
    config: FlowConfigView,
    port: u16,
    authorization_code: Seq<char>,
)
    ensures
        step_spec(config, FlowStateView::Idle, FlowEventView::ListenerBound { port }).1
            matches FlowActionView::LaunchBrowser { url } && query_value(
            url_query(url),
            "redirect_uri"@,
        ) == Some(encode_utf8(redirect_uri_text(port))),
        step_spec(
            config,
            FlowStateView::CodeReceived { port, authorization_code },
            FlowEventView::ListenerReleased,
        ).1 matches FlowActionView::PostTokenRequest { form } && form[3] == (
            "redirect_uri"@,
            redirect_uri_text(port),
        ),
{
    lemma_google_authorization_url_round_trip(config.client_id, redirect_uri_text(port));
}

} // verus!
