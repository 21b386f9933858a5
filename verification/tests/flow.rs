use hvac_design_app::callback::MalformedReason;
use hvac_design_app::flow::{
    begin, step, FlowAction, FlowConfig, FlowError, FlowEvent, FlowState,
    DEFAULT_CALLBACK_TIMEOUT_SECS,
};
use hvac_design_app::parameter::Parameter;
use hvac_design_app::tokens::{ExchangeError, OAuthTokens};

const BODY: &[u8] = b"{\"access_token\":\"AT\",\"refresh_token\":\"RT\",\
    \"expires_in\":3600,\"id_token\":\"h.p.s\"}";

fn config() -> FlowConfig {
    FlowConfig { client_id: "client one".to_string(), client_secret: "hush".to_string() }
}

fn pair(name: &str, value: &str) -> Parameter {
    Parameter { name: name.to_string(), value: value.to_string() }
}

fn awaiting(port: u16) -> FlowState {
    let (state, _) = begin();
    let (state, _) = step(&config(), state, FlowEvent::ListenerBound { port });
    let (state, action) = step(&config(), state, FlowEvent::BrowserLaunched);
    assert_eq!(state, FlowState::AwaitingCallback { port });
    assert_eq!(action, FlowAction::AwaitCallback);
    state
}

fn exchanging(port: u16) -> FlowState {
    let arrived = FlowEvent::CallbackArrived { request_target: "/callback?code=xyz".to_string() };
    let (state, _) = step(&config(), awaiting(port), arrived);
    let (state, _) = step(&config(), state, FlowEvent::ListenerReleased);
    assert_eq!(state, FlowState::Exchanging);
    state
}

#[test]
fn flow_completes_with_the_tokens_of_the_provider() {
    let (state, action) = begin();
    assert_eq!(state, FlowState::Idle);
    assert_eq!(action, FlowAction::OpenListener);
    assert!(!state.holds_listener());

    let (state, action) = step(&config(), state, FlowEvent::ListenerBound { port: 51234 });
    assert_eq!(state, FlowState::ListenerOpen { port: 51234 });
    assert_eq!(
        action,
        FlowAction::LaunchBrowser {
            url: "https://accounts.google.com/o/oauth2/v2/auth?client_id=client%20one&\
                  redirect_uri=http%3A%2F%2Flocalhost%3A51234%2Fcallback&response_type=code&\
                  scope=openid%20email%20profile&access_type=offline&prompt=consent"
                .to_string()
        }
    );
    assert!(state.holds_listener());

    let (state, action) = step(&config(), state, FlowEvent::BrowserLaunched);
    assert_eq!(state, FlowState::AwaitingCallback { port: 51234 });
    assert_eq!(action, FlowAction::AwaitCallback);
    assert!(state.holds_listener());

    let arrived = FlowEvent::CallbackArrived { request_target: "/callback?code=xyz".to_string() };
    let (state, action) = step(&config(), state, arrived);
    assert_eq!(
        state,
        FlowState::CodeReceived { port: 51234, authorization_code: "xyz".to_string() }
    );
    assert_eq!(action, FlowAction::ConfirmAndRelease);
    assert!(action.releases_listener());
    assert!(!state.holds_listener());

    let (state, action) = step(&config(), state, FlowEvent::ListenerReleased);
    assert_eq!(state, FlowState::Exchanging);
    assert_eq!(
        action,
        FlowAction::PostTokenRequest {
            form: vec![
                pair("code", "xyz"),
                pair("client_id", "client one"),
                pair("client_secret", "hush"),
                pair("redirect_uri", "http://localhost:51234/callback"),
                pair("grant_type", "authorization_code"),
            ]
        }
    );

    let answered = FlowEvent::TokenResponse { status: 200, body: BODY.to_vec() };
    let (state, action) = step(&config(), state, answered);
    assert_eq!(
        state,
        FlowState::Complete {
            tokens: OAuthTokens {
                access_token: "AT".to_string(),
                refresh_token: Some("RT".to_string()),
                expires_in: 3600,
                id_token: "h.p.s".to_string(),
            }
        }
    );
    assert_eq!(action, FlowAction::Finish);
    assert!(state.is_terminal());
    assert!(!state.holds_listener());
}

#[test]
fn flow_times_out_and_releases_the_listener() {
    let (state, action) = step(&config(), awaiting(40000), FlowEvent::TimedOut);
    assert_eq!(state, FlowState::Failed { reason: FlowError::CallbackTimeout });
    assert_eq!(action, FlowAction::ReleaseListener);
    assert!(action.releases_listener());
    assert!(state.is_terminal());
    assert!(!state.holds_listener());
    let (state, action) = step(&config(), state, FlowEvent::ListenerReleased);
    assert_eq!(state, FlowState::Failed { reason: FlowError::CallbackTimeout });
    assert_eq!(action, FlowAction::Finish);
}

#[test]
fn bind_failure_ends_the_flow_at_once() {
    let (state, _) = begin();
    let failed = FlowEvent::BindFailed { detail: "no port".to_string() };
    let (state, action) = step(&config(), state, failed);
    assert_eq!(
        state,
        FlowState::Failed { reason: FlowError::BindError { detail: "no port".to_string() } }
    );
    assert_eq!(action, FlowAction::Finish);
}

#[test]
fn launch_failure_releases_the_listener() {
    let (state, _) = begin();
    let (state, _) = step(&config(), state, FlowEvent::ListenerBound { port: 9 });
    let failed = FlowEvent::LaunchFailed { detail: "no browser".to_string() };
    let (state, action) = step(&config(), state, failed);
    assert_eq!(
        state,
        FlowState::Failed {
            reason: FlowError::BrowserLaunchError { detail: "no browser".to_string() }
        }
    );
    assert_eq!(action, FlowAction::ReleaseListener);
}

#[test]
fn provider_error_fails_the_flow_with_the_provider_code() {
    let arrived =
        FlowEvent::CallbackArrived { request_target: "/callback?error=access_denied".to_string() };
    let (state, action) = step(&config(), awaiting(1), arrived);
    assert_eq!(
        state,
        FlowState::Failed {
            reason: FlowError::ProviderDenied { provider_error_code: "access_denied".to_string() }
        }
    );
    assert_eq!(action, FlowAction::ConfirmAndRelease);
}

#[test]
fn malformed_callback_fails_the_flow_as_malformed() {
    let arrived = FlowEvent::CallbackArrived { request_target: "/callback?state=1".to_string() };
    let (state, action) = step(&config(), awaiting(1), arrived);
    assert_eq!(
        state,
        FlowState::Failed {
            reason: FlowError::CallbackMalformed { reason: MalformedReason::MissingCode }
        }
    );
    assert_eq!(action, FlowAction::ConfirmAndRelease);
    let arrived = FlowEvent::CallbackArrived { request_target: ":x/".to_string() };
    let (state, action) = step(&config(), awaiting(1), arrived);
    assert_eq!(
        state,
        FlowState::Failed {
            reason: FlowError::CallbackMalformed { reason: MalformedReason::InvalidUrl }
        }
    );
    assert_eq!(action, FlowAction::ConfirmAndRelease);
}

#[test]
fn receive_failure_releases_the_listener() {
    let broke = FlowEvent::ReceiveFailed { detail: "reset".to_string() };
    let (state, action) = step(&config(), awaiting(1), broke);
    assert_eq!(
        state,
        FlowState::Failed { reason: FlowError::ReceiveError { detail: "reset".to_string() } }
    );
    assert_eq!(action, FlowAction::ReleaseListener);
}

#[test]
fn rejected_exchange_fails_the_flow_with_its_cause() {
    let answered =
        FlowEvent::TokenResponse { status: 400, body: b"{\"error\":\"invalid_grant\"}".to_vec() };
    let (state, action) = step(&config(), exchanging(2), answered);
    assert_eq!(
        state,
        FlowState::Failed {
            reason: FlowError::Exchange {
                cause: ExchangeError::ProviderRejected {
                    status: 400,
                    body_excerpt: "{\"error\":\"invalid_grant\"}".to_string(),
                }
            }
        }
    );
    assert_eq!(action, FlowAction::Finish);
    let answered = FlowEvent::TokenResponse { status: 200, body: b"<html>".to_vec() };
    let (state, _) = step(&config(), exchanging(2), answered);
    assert_eq!(
        state,
        FlowState::Failed {
            reason: FlowError::Exchange { cause: ExchangeError::MalformedResponse }
        }
    );
    let failed = FlowEvent::RequestFailed { detail: "dns".to_string() };
    let (state, _) = step(&config(), exchanging(2), failed);
    assert_eq!(
        state,
        FlowState::Failed {
            reason: FlowError::Exchange {
                cause: ExchangeError::RequestFailed { detail: "dns".to_string() }
            }
        }
    );
}

#[test]
fn cancelling_releases_the_listener_where_one_is_held() {
    let (idle, _) = begin();
    let (state, action) = step(&config(), idle, FlowEvent::Cancelled);
    assert_eq!(state, FlowState::Failed { reason: FlowError::Cancelled });
    assert_eq!(action, FlowAction::Finish);

    let (idle, _) = begin();
    let (open, _) = step(&config(), idle, FlowEvent::ListenerBound { port: 3 });
    let (state, action) = step(&config(), open, FlowEvent::Cancelled);
    assert_eq!(state, FlowState::Failed { reason: FlowError::Cancelled });
    assert_eq!(action, FlowAction::ReleaseListener);

    let (state, action) = step(&config(), awaiting(3), FlowEvent::Cancelled);
    assert_eq!(state, FlowState::Failed { reason: FlowError::Cancelled });
    assert_eq!(action, FlowAction::ReleaseListener);

    let (state, action) = step(&config(), exchanging(3), FlowEvent::Cancelled);
    assert_eq!(state, FlowState::Failed { reason: FlowError::Cancelled });
    assert_eq!(action, FlowAction::Finish);
}

#[test]
fn unexpected_event_fails_the_flow() {
    let (idle, _) = begin();
    let (state, action) = step(&config(), idle, FlowEvent::BrowserLaunched);
    assert_eq!(state, FlowState::Failed { reason: FlowError::UnexpectedEvent });
    assert_eq!(action, FlowAction::Finish);

    let (state, action) = step(&config(), awaiting(4), FlowEvent::ListenerBound { port: 5 });
    assert_eq!(state, FlowState::Failed { reason: FlowError::UnexpectedEvent });
    assert_eq!(action, FlowAction::ReleaseListener);

    let (state, action) = step(&config(), exchanging(4), FlowEvent::TimedOut);
    assert_eq!(state, FlowState::Failed { reason: FlowError::UnexpectedEvent });
    assert_eq!(action, FlowAction::Finish);
}

#[test]
fn terminal_states_stay_as_they_are() {
    let answered = FlowEvent::TokenResponse { status: 200, body: BODY.to_vec() };
    let (done, _) = step(&config(), exchanging(6), answered);
    assert!(done.is_terminal());
    let events = [
        FlowEvent::ListenerBound { port: 1 },
        FlowEvent::BrowserLaunched,
        FlowEvent::TimedOut,
        FlowEvent::Cancelled,
        FlowEvent::ListenerReleased,
        FlowEvent::TokenResponse { status: 500, body: Vec::new() },
    ];
    for event in events {
        let (state, action) = step(&config(), done.clone(), event);
        assert_eq!(state, done);
        assert_eq!(action, FlowAction::Finish);
    }
}

#[test]
fn every_flow_ends_within_five_events() {
    let events = [
        FlowEvent::ListenerBound { port: 7 },
        FlowEvent::BrowserLaunched,
        FlowEvent::CallbackArrived { request_target: "/callback?code=c".to_string() },
        FlowEvent::ListenerReleased,
        FlowEvent::TokenResponse { status: 200, body: BODY.to_vec() },
    ];
    for skipped in 0..events.len() - 1 {
        let (mut state, _) = begin();
        let mut steps = 0;
        for (at, event) in events.iter().enumerate() {
            if at != skipped {
                let (next, _) = step(&config(), state, event.clone());
                state = next;
                steps += 1;
            }
            if state.is_terminal() {
                break;
            }
        }
        assert!(state.is_terminal());
        assert!(steps <= 5);
        assert!(!state.holds_listener());
    }
}

#[test]
fn flow_errors_have_messages() {
    assert_eq!(
        FlowError::BindError { detail: "in use".to_string() }.message(),
        "Failed to start OAuth server: in use"
    );
    assert_eq!(
        FlowError::BrowserLaunchError { detail: "none".to_string() }.message(),
        "Failed to open browser: none"
    );
    assert_eq!(FlowError::CallbackTimeout.message(), "Timed out waiting for the OAuth callback");
    assert_eq!(
        FlowError::ReceiveError { detail: "reset".to_string() }.message(),
        "Failed to receive callback: reset"
    );
    assert_eq!(
        FlowError::CallbackMalformed { reason: MalformedReason::MissingCode }.message(),
        "No authorization code in callback"
    );
    assert_eq!(
        FlowError::ProviderDenied { provider_error_code: "access_denied".to_string() }.message(),
        "OAuth error: access_denied"
    );
    assert_eq!(
        FlowError::Exchange { cause: ExchangeError::MalformedResponse }.message(),
        "Failed to parse tokens"
    );
    assert_eq!(FlowError::Cancelled.message(), "Sign-in was cancelled");
    assert_eq!(FlowError::UnexpectedEvent.message(), "Sign-in received an unexpected event");
}

#[test]
fn default_timeout_is_five_minutes() {
    assert_eq!(DEFAULT_CALLBACK_TIMEOUT_SECS, 300);
}
