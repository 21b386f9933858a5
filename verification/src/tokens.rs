//! The token endpoint: what is sent to it and how its answer is read.

use crate::identity::{segments, split_segments, token_bytes};
use crate::json::{
    json_document, optional_text_member, parse_json, read_optional_text, read_text, read_unsigned,
    text_member, unsigned_member,
};
use crate::parameter::{parameters, Parameter};
use crate::text::{decimal_text, optional_text, push_decimal};
use vstd::prelude::*;
use vstd::string::*;

verus! {

/// Google's token endpoint.
pub const GOOGLE_TOKEN_ENDPOINT: &'static str = "https://oauth2.googleapis.com/token";

/// How many characters of a rejected response's body an error keeps.
pub const BODY_EXCERPT_LIMIT: usize = 200;

/// The tokens that the provider hands out.
#[derive(Debug, Clone, PartialEq, Eq)]
pub struct OAuthTokens {
    pub access_token: String,
    pub refresh_token: Option<String>,
    /// Seconds until the access token expires.
    pub expires_in: u64,
    pub id_token: String,
}

/// The tokens as mathematical values.
pub struct OAuthTokensView {
    pub access_token: Seq<char>,
    pub refresh_token: Option<Seq<char>>,
    pub expires_in: u64,
    pub id_token: Seq<char>,
}

impl View for OAuthTokens {
    type V = OAuthTokensView;

    open spec fn view(&self) -> OAuthTokensView {
        OAuthTokensView {
            access_token: self.access_token@,
            refresh_token: optional_text(self.refresh_token),
            expires_in: self.expires_in,
            id_token: self.id_token@,
        }
    }
}

impl OAuthTokensView {
    /// What the provider promises of the tokens: the access token is not
    /// empty, and the identity token has three dot-separated segments.
    pub open spec fn well_formed(self) -> bool {
        &&& self.access_token.len() > 0
        &&& segments(token_bytes(self.id_token)).len() == 3
    }
}

impl OAuthTokens {
    /// Whether the tokens have the form that the provider promises.
    pub fn is_well_formed(&self) -> (well_formed: bool)
        ensures
            well_formed == self@.well_formed(),
    {
        let parts = split_segments(self.id_token.as_str().as_bytes());
        !self.access_token.as_str().is_empty() && parts.len() == 3
    }
}

/// Why the token endpoint gave no tokens.
#[derive(Debug, Clone, PartialEq, Eq)]
pub enum ExchangeError {
    /// The provider answered the code exchange with a status outside 200 to
    /// 299. The excerpt is the start of the answer's body.
    ProviderRejected { status: u16, body_excerpt: String },
    /// The provider answered with success, but the body is not a JSON object
    /// that holds the tokens.
    MalformedResponse,
    /// The provider did not accept the refresh token: the user has to sign in
    /// again. Nothing of the provider's answer is kept.
    ReauthenticationRequired,
    /// The request did not get an answer at all.
    RequestFailed { detail: String },
}

/// An exchange error as a mathematical value.
pub enum ExchangeErrorView {
    ProviderRejected { status: u16, body_excerpt: Seq<char> },
    MalformedResponse,
    ReauthenticationRequired,
    RequestFailed { detail: Seq<char> },
}

impl View for ExchangeError {
    type V = ExchangeErrorView;

    open spec fn view(&self) -> ExchangeErrorView {
        match self {
            ExchangeError::ProviderRejected { status, body_excerpt } => {
                ExchangeErrorView::ProviderRejected { status: *status, body_excerpt: body_excerpt@ }
            },
            ExchangeError::MalformedResponse => ExchangeErrorView::MalformedResponse,
            ExchangeError::ReauthenticationRequired => ExchangeErrorView::ReauthenticationRequired,
            ExchangeError::RequestFailed { detail } => ExchangeErrorView::RequestFailed {
                detail: detail@,
            },
        }
    }
}

impl ExchangeErrorView {
    /// What to tell the user.
    pub open spec fn message_text(self) -> Seq<char> {
        match self {
            ExchangeErrorView::ProviderRejected { status, body_excerpt } => {
                "Token exchange failed (HTTP "@ + decimal_text(status as nat) + "): "@
                    + body_excerpt
            },
            ExchangeErrorView::MalformedResponse => "Failed to parse tokens"@,
            ExchangeErrorView::ReauthenticationRequired => {
                "Token refresh failed - user may need to re-authenticate"@
            },
            ExchangeErrorView::RequestFailed { detail } => "Token exchange request failed: "@
                + detail,
        }
    }
}

impl ExchangeError {
    /// What to tell the user. A rejection names the status and shows the
    /// excerpt of the body.
    pub fn message(&self) -> (message: String)
        ensures
            message@ == self@.message_text(),
    {
        match self {
            ExchangeError::ProviderRejected { status, body_excerpt } => {
                let mut message = "Token exchange failed (HTTP ".to_owned();
                push_decimal(&mut message, *status as u64);
                message.append("): ");
                message.append(body_excerpt.as_str());
                message
            },
            ExchangeError::MalformedResponse => "Failed to parse tokens".to_owned(),
            ExchangeError::ReauthenticationRequired => {
                "Token refresh failed - user may need to re-authenticate".to_owned()
            },
            ExchangeError::RequestFailed { detail } => {
                let mut message = "Token exchange request failed: ".to_owned();
                message.append(detail.as_str());
                message
            },
        }
    }
}

/// The form that exchanges an authorization code for tokens.
pub open spec fn authorization_code_fields(
    code: Seq<char>,
    client_id: Seq<char>,
    client_secret: Seq<char>,
    redirect_uri: Seq<char>,
) -> Seq<(Seq<char>, Seq<char>)> {
    seq![
        ("code"@, code),
        ("client_id"@, client_id),
        ("client_secret"@, client_secret),
        ("redirect_uri"@, redirect_uri),
        ("grant_type"@, "authorization_code"@),
    ]
}

/// The form that exchanges a refresh token for new tokens.
pub open spec fn refresh_token_fields(
    refresh_token: Seq<char>,
    client_id: Seq<char>,
    client_secret: Seq<char>,
) -> Seq<(Seq<char>, Seq<char>)> {
    seq![
        ("refresh_token"@, refresh_token),
        ("client_id"@, client_id),
        ("client_secret"@, client_secret),
        ("grant_type"@, "refresh_token"@),
    ]
}

/// The fields of the form that is posted to the token endpoint to exchange an
/// authorization code. The redirect address must be the one that the consent
/// screen was opened with.
pub fn authorization_code_form(
    code: String,
    client_id: String,
    client_secret: String,
    redirect_uri: String,
) -> (form: Vec<Parameter>)
    ensures
        parameters(form@) == authorization_code_fields(
            code@,
            client_id@,
            client_secret@,
            redirect_uri@,
        ),
{
    let mut form: Vec<Parameter> = Vec::new();
    form.push(Parameter { name: "code".to_owned(), value: code });
    form.push(Parameter { name: "client_id".to_owned(), value: client_id });
    form.push(Parameter { name: "client_secret".to_owned(), value: client_secret });
    form.push(Parameter { name: "redirect_uri".to_owned(), value: redirect_uri });
    form.push(Parameter { name: "grant_type".to_owned(), value: "authorization_code".to_owned() });
    assert(parameters(form@) =~= authorization_code_fields(
        code@,
        client_id@,
        client_secret@,
        redirect_uri@,
    ));
    form
}

/// The fields of the form that is posted to the token endpoint to exchange a
/// refresh token.
pub fn refresh_token_form(refresh_token: String, client_id: String, client_secret: String) -> (form:
    Vec<Parameter>)
    ensures
        parameters(form@) == refresh_token_fields(refresh_token@, client_id@, client_secret@),
{
    let mut form: Vec<Parameter> = Vec::new();
    form.push(Parameter { name: "refresh_token".to_owned(), value: refresh_token });
    form.push(Parameter { name: "client_id".to_owned(), value: client_id });
    form.push(Parameter { name: "client_secret".to_owned(), value: client_secret });
    form.push(Parameter { name: "grant_type".to_owned(), value: "refresh_token".to_owned() });
    assert(parameters(form@) =~= refresh_token_fields(refresh_token@, client_id@, client_secret@));
    form
}

/// Whether an HTTP status reports success: 200 to 299.
pub open spec fn is_success(status: u16) -> bool {
    200 <= status < 300
}

/// The text that `String::from_utf8_lossy` makes of `bytes`.
pub uninterp spec fn lossy_text(bytes: Seq<u8>) -> Seq<char>;

/// Calls `String::from_utf8_lossy`. It returns the text that the bytes
/// encode when they are UTF-8, and otherwise the text with each invalid
/// sequence replaced by U+FFFD. The contract only names the outcome.
#[verifier::external_body]
pub(crate) fn text_of_bytes(bytes: &[u8]) -> (text: String)
    ensures
        text@ == lossy_text(bytes@),
{
    String::from_utf8_lossy(bytes).into_owned()
}

/// The start of `body`: all of it when it has at most `BODY_EXCERPT_LIMIT`
/// characters, else that many of them.
pub open spec fn body_excerpt(body: Seq<char>) -> Seq<char> {
    if body.len() <= BODY_EXCERPT_LIMIT {
        body
    } else {
        body.take(BODY_EXCERPT_LIMIT as int)
    }
}

/// The start of `body`, at most `BODY_EXCERPT_LIMIT` characters of it.
pub fn excerpt_of(body: &str) -> (excerpt: String)
    ensures
        excerpt@ == body_excerpt(body@),
{
    if body.unicode_len() <= BODY_EXCERPT_LIMIT {
        body.to_owned()
    } else {
        let head = body.substring_char(0, BODY_EXCERPT_LIMIT);
        assert(body@.subrange(0, BODY_EXCERPT_LIMIT as int) =~= body@.take(
            BODY_EXCERPT_LIMIT as int,
        ));
        head.to_owned()
    }
}

/// The tokens that a JSON document holds: the access token, the lifetime and
/// the identity token are required; the refresh token may be left out or be
/// `null`. A document that is no object, lacks a required member or has a
/// member of another type holds none.
pub open spec fn tokens_of(document: serde_json::Value) -> Option<OAuthTokensView> {
    match (
        text_member(document, "access_token"@),
        optional_text_member(document, "refresh_token"@),
        unsigned_member(document, "expires_in"@),
        text_member(document, "id_token"@),
    ) {
        (Some(access_token), Some(refresh_token), Some(expires_in), Some(id_token)) => Some(
            OAuthTokensView { access_token, refresh_token, expires_in, id_token },
        ),
        _ => None,
    }
}

/// What the body of a successful answer gives: the tokens, or
/// `MalformedResponse` when the body is no JSON document or holds no tokens.
pub open spec fn body_outcome(body: Seq<u8>) -> Result<OAuthTokensView, ExchangeErrorView> {
    match json_document(body) {
        None => Err(ExchangeErrorView::MalformedResponse),
        Some(document) => match tokens_of(document) {
            None => Err(ExchangeErrorView::MalformedResponse),
            Some(tokens) => Ok(tokens),
        },
    }
}

/// What the answer to a code exchange gives. A status outside 200 to 299 is a
/// rejection, which keeps the status and the start of the body.
pub open spec fn exchange_outcome(status: u16, body: Seq<u8>) -> Result<
    OAuthTokensView,
    ExchangeErrorView,
> {
    if is_success(status) {
        body_outcome(body)
    } else {
        Err(
            ExchangeErrorView::ProviderRejected {
                status,
                body_excerpt: body_excerpt(lossy_text(body)),
            },
        )
    }
}

/// What the answer to a refresh gives. A status outside 200 to 299 means that
/// the user has to sign in again, whatever the body says.
pub open spec fn refresh_outcome(status: u16, body: Seq<u8>) -> Result<
    OAuthTokensView,
    ExchangeErrorView,
> {
    if is_success(status) {
        body_outcome(body)
    } else {
        Err(ExchangeErrorView::ReauthenticationRequired)
    }
}

/// The view of what an exchange gave.
pub open spec fn exchanged_view(exchanged: Result<OAuthTokens, ExchangeError>) -> Result<
    OAuthTokensView,
    ExchangeErrorView,
> {
    match exchanged {
        Ok(tokens) => Ok(tokens@),
        Err(error) => Err(error@),
    }
}

/// Reads the tokens out of a JSON document.
pub fn tokens_from_json(document: &serde_json::Value) -> (tokens: Option<OAuthTokens>)
    ensures
        match tokens {
            Some(found) => tokens_of(*document) == Some(found@),
            None => tokens_of(*document) is None,
        },
{
    let access_token = read_text(document, "access_token");
    let refresh_token = read_optional_text(document, "refresh_token");
    let expires_in = read_unsigned(document, "expires_in");
    let id_token = read_text(document, "id_token");
    match (access_token, refresh_token, expires_in, id_token) {
        (Some(access_token), Some(refresh_token), Some(expires_in), Some(id_token)) => Some(
            OAuthTokens { access_token, refresh_token, expires_in, id_token },
        ),
        _ => None,
    }
}

/// Reads the tokens out of the body of a successful answer.
pub fn tokens_from_body(body: &[u8]) -> (exchanged: Result<OAuthTokens, ExchangeError>)
    ensures
        exchanged_view(exchanged) == body_outcome(body@),
{
    match parse_json(body) {
        Err(_) => Err(ExchangeError::MalformedResponse),
        Ok(document) => match tokens_from_json(&document) {
            None => Err(ExchangeError::MalformedResponse),
            Some(tokens) => Ok(tokens),
        },
    }
}

/// Reads the answer of the token endpoint to a code exchange.
///
/// A status outside 200 to 299 gives `ProviderRejected` with that status and
/// the start of the body. With a status of success the body must be a JSON
/// object that holds the tokens, else the result is `MalformedResponse`.
pub fn interpret_exchange_response(status: u16, body: &[u8]) -> (exchanged: Result<
    OAuthTokens,
    ExchangeError,
>)
    ensures
        exchanged_view(exchanged) == exchange_outcome(status, body@),
        exchanged is Ok ==> is_success(status),
        !is_success(status) ==> (exchanged matches Err(
            ExchangeError::ProviderRejected { status: kept, .. },
        ) && kept == status),
{
    if 200 <= status && status < 300 {
        tokens_from_body(body)
    } else {
        let text = text_of_bytes(body);
        Err(ExchangeError::ProviderRejected { status, body_excerpt: excerpt_of(text.as_str()) })
    }
}

/// Reads the answer of the token endpoint to a refresh.
///
/// A status outside 200 to 299 gives `ReauthenticationRequired` and keeps
/// nothing of the body. With a status of success the body must be a JSON
/// object that holds the tokens, else the result is `MalformedResponse`.
pub fn interpret_refresh_response(status: u16, body: &[u8]) -> (exchanged: Result<
    OAuthTokens,
    ExchangeError,
>)
    ensures
        exchanged_view(exchanged) == refresh_outcome(status, body@),
        !is_success(status) ==> (exchanged matches Err(ExchangeError::ReauthenticationRequired)),
        !(exchanged matches Err(ExchangeError::ProviderRejected { .. })),
{
    if 200 <= status && status < 300 {
        tokens_from_body(body)
    } else {
        Err(ExchangeError::ReauthenticationRequired)
    }
}

} // verus!
