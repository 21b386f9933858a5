//! The one request that the provider's redirect sends to the local listener.

use crate::parameter::{parameters, Parameter};
use crate::text::{decimal_text, optional_text, push_decimal, same_text};
use vstd::prelude::*;
use vstd::string::*;

verus! {

/// The path of the redirect address, which is the path that the listener
/// serves.
pub const CALLBACK_PATH: &'static str = "/callback";

/// The status of the answer that the browser gets.
pub const CONFIRMATION_STATUS: u16 = 200;

/// The page that the browser gets, whatever the request held.
pub const CONFIRMATION_PAGE: &'static str = "
        <!DOCTYPE html>
        <html>
        <head><title>Authentication Successful</title></head>
        <body style=\"font-family: Arial; text-align: center; padding: 50px;\">
            <h1>\u{2713} Authentication Successful</h1>
            <p>You can close this window and return to the app.</p>
            <script>window.close();</script>
        </body>
        </html>
    ";

/// The redirect address for a listener on `port`.
pub open spec fn redirect_uri_text(port: u16) -> Seq<char> {
    "http://localhost:"@ + decimal_text(port as nat) + CALLBACK_PATH@
}

/// The redirect address that is sent to the provider for a listener on
/// `port`: `http://localhost:`, the port in decimal, and the callback path.
pub fn redirect_uri_for_port(port: u16) -> (uri: String)
    ensures
        uri@ == redirect_uri_text(port),
{
    let mut uri = "http://localhost:".to_owned();
    push_decimal(&mut uri, port as u64);
    uri.append(CALLBACK_PATH);
    uri
}

/// Why a request to the listener could not be used.
#[derive(Clone, Copy, Debug, PartialEq, Eq, Structural)]
pub enum MalformedReason {
    /// The request's target is not the rest of a URL.
    InvalidUrl,
    /// The query holds neither a `code` nor an `error`.
    MissingCode,
}

impl MalformedReason {
    /// What to tell the user.
    pub open spec fn message_text(self) -> Seq<char> {
        match self {
            MalformedReason::InvalidUrl => "Invalid callback URL"@,
            MalformedReason::MissingCode => "No authorization code in callback"@,
        }
    }

    /// What to tell the user.
    pub fn message(&self) -> (message: String)
        ensures
            message@ == self.message_text(),
    {
        match self {
            MalformedReason::InvalidUrl => "Invalid callback URL".to_owned(),
            MalformedReason::MissingCode => "No authorization code in callback".to_owned(),
        }
    }
}

/// What the request to the listener held.
#[derive(Debug, Clone, PartialEq, Eq)]
pub enum CallbackResult {
    /// The provider sent an authorization code.
    Success { authorization_code: String },
    /// The provider reported an error, such as a declined consent.
    Failure { provider_error_code: String },
    /// The request held neither.
    Malformed { reason: MalformedReason },
}

/// What the request held, as a mathematical value.
pub enum CallbackResultView {
    Success { authorization_code: Seq<char> },
    Failure { provider_error_code: Seq<char> },
    Malformed { reason: MalformedReason },
}

impl View for CallbackResult {
    type V = CallbackResultView;

    open spec fn view(&self) -> CallbackResultView {
        match self {
            CallbackResult::Success { authorization_code } => CallbackResultView::Success {
                authorization_code: authorization_code@,
            },
            CallbackResult::Failure { provider_error_code } => CallbackResultView::Failure {
                provider_error_code: provider_error_code@,
            },
            CallbackResult::Malformed { reason } => CallbackResultView::Malformed {
                reason: *reason,
            },
        }
    }
}

/// `url::Url`, a parsed URL. It is only made known here; nothing is said of
/// what it holds.
#[verifier::external_type_specification]
#[verifier::external_body]
pub struct ExUrl(url::Url);

/// `url::ParseError`, why text is no URL. It is only made known here.
#[verifier::external_type_specification]
#[verifier::external_body]
pub struct ExUrlParseError(url::ParseError);

/// The URL that `url::Url::parse` reads from `text`, if it accepts it.
pub uninterp spec fn parsed_url(text: Seq<char>) -> Option<url::Url>;

/// The name and value pairs that `url::Url::query_pairs` walks through, in
/// its order.
pub uninterp spec fn url_query_pairs(url: url::Url) -> Seq<(Seq<char>, Seq<char>)>;

/// Calls `url::Url::parse`. It returns the URL that the text spells, or an
/// error when the text is no absolute URL. The contract only names the
/// outcome: the same text gives the same URL.
#[verifier::external_body]
pub(crate) fn parse_url(text: &str) -> (parsed: Result<url::Url, url::ParseError>)
    ensures
        parsed matches Ok(url) ==> parsed_url(text@) == Some(url),
        parsed is Err ==> parsed_url(text@) is None,
{
    url::Url::parse(text)
}

/// Calls `url::Url::query_pairs`, which reads the URL's query as a form: the
/// parameters in their order, each name and value decoded. The contract only
/// names the outcome.
#[verifier::external_body]
pub(crate) fn query_pairs(url: &url::Url) -> (pairs: Vec<Parameter>)
    ensures
        parameters(pairs@) == url_query_pairs(*url),
{
    url.query_pairs().map(
        |(name, value)| Parameter { name: name.into_owned(), value: value.into_owned() },
    ).collect()
}

/// The value of the first pair that is named `key`.
pub open spec fn first_value(pairs: Seq<(Seq<char>, Seq<char>)>, key: Seq<char>) -> Option<
    Seq<char>,
>
    decreases pairs.len(),
{
    if pairs.len() == 0 {
        None
    } else if pairs[0].0 == key {
        Some(pairs[0].1)
    } else {
        first_value(pairs.skip(1), key)
    }
}

/// What the parameters of a request mean. An `error` is the provider's
/// refusal, also when a `code` stands beside it; without one, a `code` is
/// the authorization code; a query with neither is malformed.
pub open spec fn callback_outcome(pairs: Seq<(Seq<char>, Seq<char>)>) -> CallbackResultView {
    match first_value(pairs, "error"@) {
        Some(provider_error_code) => CallbackResultView::Failure { provider_error_code },
        None => match first_value(pairs, "code"@) {
            Some(authorization_code) => CallbackResultView::Success { authorization_code },
            None => CallbackResultView::Malformed { reason: MalformedReason::MissingCode },
        },
    }
}

/// What a request with the target `request_target` means: the target is
/// read as the rest of a URL on `http://localhost`.
pub open spec fn callback_parse_outcome(request_target: Seq<char>) -> CallbackResultView {
    match parsed_url("http://localhost"@ + request_target) {
        None => CallbackResultView::Malformed { reason: MalformedReason::InvalidUrl },
        Some(url) => callback_outcome(url_query_pairs(url)),
    }
}

/// The value of the first parameter that is named `key`.
pub fn find_value(pairs: &Vec<Parameter>, key: &str) -> (value: Option<String>)
    ensures
        optional_text(value) == first_value(parameters(pairs@), key@),
{
    let ghost all = parameters(pairs@);
    let mut i: usize = 0;
    assert(all.skip(0) =~= all);
    while i < pairs.len()
        invariant
            i <= pairs.len(),
            all == parameters(pairs@),
            first_value(all, key@) == first_value(all.skip(i as int), key@),
        decreases pairs.len() - i,
    {
        assert(all.skip(i as int)[0] == pairs@[i as int]@);
        if same_text(pairs[i].name.as_str(), key) {
            return Some(pairs[i].value.clone());
        }
        assert(all.skip(i as int).skip(1) =~= all.skip(i + 1));
        i += 1;
    }
    None
}

/// Tells what the parameters of a request mean.
pub fn classify_callback(pairs: &Vec<Parameter>) -> (result: CallbackResult)
    ensures
        result@ == callback_outcome(parameters(pairs@)),
{
    match find_value(pairs, "error") {
        Some(provider_error_code) => CallbackResult::Failure { provider_error_code },
        None => match find_value(pairs, "code") {
            Some(authorization_code) => CallbackResult::Success { authorization_code },
            None => CallbackResult::Malformed { reason: MalformedReason::MissingCode },
        },
    }
}

/// Reads the one request that reached the listener, given its target: the
/// path and query of its first line.
pub fn parse_callback(request_target: &str) -> (result: CallbackResult)
    ensures
        result@ == callback_parse_outcome(request_target@),
{
    let mut address = "http://localhost".to_owned();
    address.append(request_target);
    match parse_url(address.as_str()) {
        Err(_) => CallbackResult::Malformed { reason: MalformedReason::InvalidUrl },
        Ok(url) => {
            let pairs = query_pairs(&url);
            classify_callback(&pairs)
        },
    }
}

} // verus!
