//! The URL of the identity provider's consent screen, and how its query is
//! read back.

use crate::percent::{
    is_encoded_char, lemma_decoding_inverts_encoding, lemma_encoding_is_plain, percent_decoding,
    percent_encoded, percent_encoding,
};
use crate::text::{first_index, lacks, lemma_first_index_is, lemma_lacks_concat, texts};
use vstd::prelude::*;
use vstd::string::*;
use vstd::utf8::*;

verus! {

/// Google's authorization endpoint.
pub const GOOGLE_AUTH_ENDPOINT: &'static str = "https://accounts.google.com/o/oauth2/v2/auth";

/// What the consent screen is asked for beyond the scopes.
#[derive(Clone, Copy, Debug, PartialEq, Eq)]
pub struct ConsentFlags {
    /// Ask for offline access, so that a refresh token is issued.
    pub offline_access: bool,
    /// Always show the consent screen, so that the refresh token is issued
    /// again on a repeated sign-in.
    pub force_consent: bool,
}

/// The percent-encoding of the UTF-8 bytes of `value`.
pub open spec fn encoded_text(value: Seq<char>) -> Seq<char> {
    percent_encoding(encode_utf8(value))
}

/// The scopes, each percent-encoded, joined by an encoded space.
pub open spec fn scope_text(scopes: Seq<Seq<char>>) -> Seq<char>
    decreases scopes.len(),
{
    if scopes.len() == 0 {
        Seq::empty()
    } else if scopes.len() == 1 {
        encoded_text(scopes[0])
    } else {
        scope_text(scopes.drop_last()) + "%20"@ + encoded_text(scopes.last())
    }
}

/// One `name=value` parameter of a query.
pub open spec fn parameter(name: Seq<char>, value: Seq<char>) -> Seq<char> {
    name + seq!['='] + value
}

/// The parameters that follow the redirect address: the fixed response type,
/// the scopes and the flags that were asked for.
pub open spec fn fixed_parameters(scopes: Seq<Seq<char>>, flags: ConsentFlags) -> Seq<char> {
    "response_type=code"@ + "&scope="@ + scope_text(scopes) + (if flags.offline_access {
        "&access_type=offline"@
    } else {
        Seq::empty()
    }) + (if flags.force_consent {
        "&prompt=consent"@
    } else {
        Seq::empty()
    })
}

/// The query of the consent-screen URL.
pub open spec fn authorization_query(
    client_id: Seq<char>,
    redirect_uri: Seq<char>,
    scopes: Seq<Seq<char>>,
    flags: ConsentFlags,
) -> Seq<char> {
    parameter("client_id"@, encoded_text(client_id)) + seq!['&'] + parameter(
        "redirect_uri"@,
        encoded_text(redirect_uri),
    ) + seq!['&'] + fixed_parameters(scopes, flags)
}

/// The consent-screen URL: the endpoint, `?` and the query.
pub open spec fn authorization_url_text(
    endpoint: Seq<char>,
    client_id: Seq<char>,
    redirect_uri: Seq<char>,
    scopes: Seq<Seq<char>>,
    flags: ConsentFlags,
) -> Seq<char> {
    endpoint + seq!['?'] + authorization_query(client_id, redirect_uri, scopes, flags)
}

/// The scopes that the sign-in with Google asks for.
pub open spec fn google_scopes() -> Seq<Seq<char>> {
    seq!["openid"@, "email"@, "profile"@]
}

/// The URL that the sign-in with Google opens in the browser.
pub open spec fn google_authorization_url_text(
    client_id: Seq<char>,
    redirect_uri: Seq<char>,
) -> Seq<char> {
    authorization_url_text(
        GOOGLE_AUTH_ENDPOINT@,
        client_id,
        redirect_uri,
        google_scopes(),
        ConsentFlags { offline_access: true, force_consent: true },
    )
}

/// Appends the scopes to `out`, each percent-encoded, joined by `%20`.
fn push_scopes(out: &mut String, scopes: &Vec<String>)
    ensures
        final(out)@ == old(out)@ + scope_text(texts(scopes@)),
{
    let ghost all = texts(scopes@);
    let mut i: usize = 0;
    assert(all.take(0) =~= Seq::<Seq<char>>::empty());
    assert(out@ =~= old(out)@ + scope_text(all.take(0)));
    while i < scopes.len()
        invariant
            i <= scopes.len(),
            all == texts(scopes@),
            out@ == old(out)@ + scope_text(all.take(i as int)),
        decreases scopes.len() - i,
    {
        if i > 0 {
            out.append("%20");
        }
        let encoded = percent_encoded(scopes[i].as_str());
        out.append(encoded.as_str());
        proof {
            let next = all.take(i + 1);
            assert(next.drop_last() =~= all.take(i as int));
            assert(next.last() == scopes@[i as int]@);
            assert(out@ =~= old(out)@ + scope_text(next));
        }
        i += 1;
    }
    assert(all.take(scopes.len() as int) =~= all);
}

/// Builds the consent-screen URL: `client_id` and `redirect_uri` are
/// percent-encoded, the response type is fixed to `code`, the scopes are joined
/// into one parameter, and each flag that is set adds its parameter.
pub fn build_authorization_url(
    endpoint: &str,
    client_id: &str,
    redirect_uri: &str,
    scopes: &Vec<String>,
    flags: ConsentFlags,
) -> (url: String)
    ensures
        url@ == authorization_url_text(
            endpoint@,
            client_id@,
            redirect_uri@,
            texts(scopes@),
            flags,
        ),
{
    proof {
        reveal_strlit("?client_id=");
        reveal_strlit("client_id");
        reveal_strlit("&redirect_uri=");
        reveal_strlit("redirect_uri");
        reveal_strlit("&response_type=code&scope=");
        reveal_strlit("response_type=code");
        reveal_strlit("&scope=");
    }
    let mut url = endpoint.to_owned();
    url.append("?client_id=");
    let id = percent_encoded(client_id);
    url.append(id.as_str());
    url.append("&redirect_uri=");
    let uri = percent_encoded(redirect_uri);
    url.append(uri.as_str());
    url.append("&response_type=code&scope=");
    let ghost head = url@;
    assert(head =~= endpoint@ + seq!['?'] + parameter("client_id"@, encoded_text(client_id@))
        + seq!['&'] + parameter("redirect_uri"@, encoded_text(redirect_uri@)) + seq!['&']
        + "response_type=code"@ + "&scope="@);
    push_scopes(&mut url, scopes);
    if flags.offline_access {
        url.append("&access_type=offline");
    }
    if flags.force_consent {
        url.append("&prompt=consent");
    }
    assert(url@ =~= authorization_url_text(
        endpoint@,
        client_id@,
        redirect_uri@,
        texts(scopes@),
        flags,
    ));
    url
}

/// The URL that the sign-in with Google opens in the browser: Google's
/// endpoint, the scopes `openid`, `email` and `profile`, offline access and a
/// forced consent screen.
pub fn google_authorization_url(client_id: &str, redirect_uri: &str) -> (url: String)
    ensures
        url@ == google_authorization_url_text(client_id@, redirect_uri@),
{
    let mut scopes: Vec<String> = Vec::new();
    scopes.push("openid".to_owned());
    scopes.push("email".to_owned());
    scopes.push("profile".to_owned());
    assert(texts(scopes@) =~= google_scopes());
    build_authorization_url(
        GOOGLE_AUTH_ENDPOINT,
        client_id,
        redirect_uri,
        &scopes,
        ConsentFlags { offline_access: true, force_consent: true },
    )
}

/// The query of a URL: what stands between the first `?` and the fragment,
/// which starts at the first `#`.
pub open spec fn url_query(url: Seq<char>) -> Seq<char> {
    let body = url.take(first_index(url, '#') as int);
    let mark = first_index(body, '?') as int;
    if mark < body.len() {
        body.skip(mark + 1)
    } else {
        Seq::empty()
    }
}

/// The percent-decoded value of the first parameter of `query` that is named
/// `key`. Parameters are separated by `&`, an empty one is passed over, and a
/// parameter's name ends at its first `=`.
pub open spec fn query_value(query: Seq<char>, key: Seq<char>) -> Option<Seq<u8>>
    decreases query.len(),
{
    let end = first_index(query, '&') as int;
    let component = query.take(end);
    let split = first_index(component, '=') as int;
    if query.len() == 0 {
        None
    } else if component.len() > 0 && component.take(split) == key {
        Some(
            percent_decoding(
                if split < component.len() {
                    component.skip(split + 1)
                } else {
                    Seq::empty()
                },
            ),
        )
    } else if end < query.len() {
        query_value(query.skip(end + 1), key)
    } else {
        None
    }
}

/// Percent-encoded text lacks every character that the encoding never emits.
proof fn lemma_encoded_text_lacks(value: Seq<char>, unwanted: char)
    requires
        !is_encoded_char(unwanted),
    ensures
        lacks(encoded_text(value), unwanted),
{
    lemma_encoding_is_plain(encode_utf8(value));
    let encoded = encoded_text(value);
    assert forall|i: int| 0 <= i < encoded.len() implies encoded[i] != unwanted by {
        assert(is_encoded_char(encoded[i]));
    }
}

/// The joined scopes hold no `#`.
proof fn lemma_scope_text_lacks_fragment_mark(scopes: Seq<Seq<char>>)
    ensures
        lacks(scope_text(scopes), '#'),
    decreases scopes.len(),
{
    if scopes.len() == 1 {
        lemma_encoded_text_lacks(scopes[0], '#');
    } else if scopes.len() > 1 {
        reveal_strlit("%20");
        lemma_scope_text_lacks_fragment_mark(scopes.drop_last());
        lemma_encoded_text_lacks(scopes.last(), '#');
        lemma_lacks_concat(scope_text(scopes.drop_last()), "%20"@, '#');
        lemma_lacks_concat(
            scope_text(scopes.drop_last()) + "%20"@,
            encoded_text(scopes.last()),
            '#',
        );
    }
}

/// The query that the builder writes holds no `#`.
proof fn lemma_query_lacks_fragment_mark(
    client_id: Seq<char>,
    redirect_uri: Seq<char>,
    scopes: Seq<Seq<char>>,
    flags: ConsentFlags,
)
    ensures
        lacks(authorization_query(client_id, redirect_uri, scopes, flags), '#'),
{
    reveal_strlit("client_id");
    reveal_strlit("redirect_uri");
    reveal_strlit("response_type=code");
    reveal_strlit("&scope=");
    reveal_strlit("&access_type=offline");
    reveal_strlit("&prompt=consent");
    lemma_encoded_text_lacks(client_id, '#');
    lemma_encoded_text_lacks(redirect_uri, '#');
    lemma_scope_text_lacks_fragment_mark(scopes);
    let offline = if flags.offline_access {
        "&access_type=offline"@
    } else {
        Seq::empty()
    };
    let consent = if flags.force_consent {
        "&prompt=consent"@
    } else {
        Seq::empty()
    };
    let fixed_head = "response_type=code"@ + "&scope="@;
    let with_scopes = fixed_head + scope_text(scopes);
    let with_offline = with_scopes + offline;
    lemma_lacks_concat("response_type=code"@, "&scope="@, '#');
    lemma_lacks_concat(fixed_head, scope_text(scopes), '#');
    lemma_lacks_concat(with_scopes, offline, '#');
    lemma_lacks_concat(with_offline, consent, '#');
    assert(lacks(fixed_parameters(scopes, flags), '#'));
    let id_part = parameter("client_id"@, encoded_text(client_id));
    let uri_part = parameter("redirect_uri"@, encoded_text(redirect_uri));
    lemma_lacks_concat("client_id"@, seq!['='], '#');
    lemma_lacks_concat("client_id"@ + seq!['='], encoded_text(client_id), '#');
    lemma_lacks_concat("redirect_uri"@, seq!['='], '#');
    lemma_lacks_concat("redirect_uri"@ + seq!['='], encoded_text(redirect_uri), '#');
    lemma_lacks_concat(id_part, seq!['&'], '#');
    lemma_lacks_concat(id_part + seq!['&'], uri_part, '#');
    lemma_lacks_concat(id_part + seq!['&'] + uri_part, seq!['&'], '#');
    lemma_lacks_concat(
        id_part + seq!['&'] + uri_part + seq!['&'],
        fixed_parameters(scopes, flags),
        '#',
    );
}

/// Reading a query that starts with the parameter `name=value`: the value is
/// found there when `name` is the key, and otherwise the search goes on behind
/// the `&` that follows.
proof fn lemma_query_first_parameter(
    name: Seq<char>,
    value: Seq<char>,
    rest: Seq<char>,
    key: Seq<char>,
)
    requires
        name.len() > 0,
        lacks(name, '&'),
        lacks(name, '='),
        lacks(value, '&'),
        rest.len() == 0 || rest[0] == '&',
    ensures
        query_value(parameter(name, value) + rest, key) == (if name == key {
            Some(percent_decoding(value))
        } else if rest.len() == 0 {
            None
        } else {
            query_value(rest.skip(1), key)
        }),
{
    let head = parameter(name, value);
    let query = head + rest;
    lemma_lacks_concat(name, seq!['='], '&');
    lemma_lacks_concat(name + seq!['='], value, '&');
    assert forall|i: int| 0 <= i < head.len() implies query[i] != '&' by {
        assert(query[i] == head[i]);
    }
    if rest.len() > 0 {
        assert(query[head.len() as int] == rest[0]);
    }
    lemma_first_index_is(query, '&', head.len() as int);
    let component = query.take(head.len() as int);
    assert(component =~= head);
    assert forall|i: int| 0 <= i < name.len() implies head[i] != '=' by {
        assert(head[i] == name[i]);
    }
    assert(head[name.len() as int] == '=');
    lemma_first_index_is(head, '=', name.len() as int);
    assert(head.take(name.len() as int) =~= name);
    assert(head.skip(name.len() as int + 1) =~= value);
    if rest.len() > 0 {
        assert(query.skip(head.len() as int + 1) =~= rest.skip(1));
    }
}

/// Round trip of the consent-screen URL. Whatever the client identifier and
/// the redirect address are, reading the built URL back gives them unchanged:
/// the URL's query is the one that was written, and the percent-decoded values
/// of its parameters `client_id` and `redirect_uri` are the UTF-8 bytes of the
/// two inputs. The endpoint must itself hold no `?` and no `#`.
pub proof fn lemma_authorization_url_round_trip(
    endpoint: Seq<char>,
    client_id: Seq<char>,
    redirect_uri: Seq<char>,
    scopes: Seq<Seq<char>>,
    flags: ConsentFlags,
)
    requires
        lacks(endpoint, '?'),
        lacks(endpoint, '#'),
    ensures
        url_query(authorization_url_text(endpoint, client_id, redirect_uri, scopes, flags))
            == authorization_query(client_id, redirect_uri, scopes, flags),
        query_value(authorization_query(client_id, redirect_uri, scopes, flags), "client_id"@)
            == Some(encode_utf8(client_id)),
        query_value(authorization_query(client_id, redirect_uri, scopes, flags), "redirect_uri"@)
            == Some(encode_utf8(redirect_uri)),
{
    let query = authorization_query(client_id, redirect_uri, scopes, flags);
    let url = authorization_url_text(endpoint, client_id, redirect_uri, scopes, flags);
    assert(url_query(url) == query) by {
        lemma_query_lacks_fragment_mark(client_id, redirect_uri, scopes, flags);
        lemma_lacks_concat(endpoint, seq!['?'], '#');
        lemma_lacks_concat(endpoint + seq!['?'], query, '#');
        lemma_first_index_is(url, '#', url.len() as int);
        assert(url.take(url.len() as int) =~= url);
        assert forall|i: int| 0 <= i < endpoint.len() implies url[i] != '?' by {
            assert(url[i] == endpoint[i]);
        }
        assert(url[endpoint.len() as int] == '?');
        lemma_first_index_is(url, '?', endpoint.len() as int);
        assert(url.skip(endpoint.len() as int + 1) =~= query);
    }
    reveal_strlit("client_id");
    reveal_strlit("redirect_uri");
    let id = encoded_text(client_id);
    let uri = encoded_text(redirect_uri);
    let fixed = fixed_parameters(scopes, flags);
    let second = parameter("redirect_uri"@, uri) + (seq!['&'] + fixed);
    let first_rest = seq!['&'] + second;
    lemma_encoded_text_lacks(client_id, '&');
    lemma_encoded_text_lacks(redirect_uri, '&');
    lemma_decoding_inverts_encoding(encode_utf8(client_id));
    lemma_decoding_inverts_encoding(encode_utf8(redirect_uri));
    assert(query =~= parameter("client_id"@, id) + first_rest);
    assert(first_rest.skip(1) =~= second);
    assert("client_id"@ != "redirect_uri"@) by {
        assert("client_id"@.len() != "redirect_uri"@.len());
    }
    lemma_query_first_parameter("client_id"@, id, first_rest, "client_id"@);
    lemma_query_first_parameter("client_id"@, id, first_rest, "redirect_uri"@);
    lemma_query_first_parameter("redirect_uri"@, uri, seq!['&'] + fixed, "redirect_uri"@);
}

/// Round trip of the URL that the sign-in with Google opens: for every client
/// identifier and redirect address, the percent-decoded values of `client_id`
/// and `redirect_uri` in the query of that URL are the UTF-8 bytes of the two
/// inputs.
pub proof fn lemma_google_authorization_url_round_trip(
    client_id: Seq<char>,
    redirect_uri: Seq<char>,
)
    ensures
        query_value(
            url_query(google_authorization_url_text(client_id, redirect_uri)),
            "client_id"@,
        ) == Some(encode_utf8(client_id)),
        query_value(
            url_query(google_authorization_url_text(client_id, redirect_uri)),
            "redirect_uri"@,
        ) == Some(encode_utf8(redirect_uri)),
{
    reveal_strlit("https://accounts.google.com/o/oauth2/v2/auth");
    assert(lacks(GOOGLE_AUTH_ENDPOINT@, '?'));
    assert(lacks(GOOGLE_AUTH_ENDPOINT@, '#'));
    lemma_authorization_url_round_trip(
        GOOGLE_AUTH_ENDPOINT@,
        client_id,
        redirect_uri,
        google_scopes(),
        ConsentFlags { offline_access: true, force_consent: true },
    );
}

} // verus!
