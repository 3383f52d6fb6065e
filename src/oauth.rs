use vstd::prelude::*;
use vstd::string::*;
use vstd::utf8::*;
use crate::query::{free_of, lemma_param, lemma_split_at, lemma_split_free, query_pairs, split_on};

verus! {

/// An ASCII letter, an ASCII digit, or one of `-`, `.`, `_`, `~`: the bytes that
/// percent-encoding leaves as they are.
pub open spec fn is_unreserved(b: u8) -> bool {
    (48 <= b && b <= 57) || (65 <= b && b <= 90) || (97 <= b && b <= 122) || b == 45 || b == 46
        || b == 95 || b == 126
}

/// The upper-case hexadecimal digit for `d < 16`.
pub open spec fn hex_digit(d: u8) -> char {
    if d < 10 {
        (d + 48) as char
    } else {
        (d + 55) as char
    }
}

/// What one byte becomes in percent-encoded text.
pub open spec fn encoded_byte(b: u8) -> Seq<char> {
    if is_unreserved(b) {
        seq![b as char]
    } else {
        seq!['%', hex_digit(b / 16), hex_digit(b % 16)]
    }
}

/// Percent-encoding of a byte string, byte by byte.
pub open spec fn percent_encoded(bytes: Seq<u8>) -> Seq<char>
    decreases bytes.len(),
{
    if bytes.len() == 0 {
        seq![]
    } else {
        percent_encoded(bytes.drop_last()) + encoded_byte(bytes.last())
    }
}

/// Relies on `urlencoding::encode`: each byte of the UTF-8 form of `s` that is not
/// an ASCII letter, digit or one of `-._~` becomes `%` and two upper-case hex digits.
#[verifier::external_body]
fn url_encode(s: &str) -> (r: String)
    ensures
        r@ == percent_encoded(encode_utf8(s@)),
{
    urlencoding::encode(s).into_owned()
}

/// A character that may stand in percent-encoded text.
pub open spec fn is_encoded_char(c: char) -> bool {
    ('0' <= c && c <= '9') || ('A' <= c && c <= 'Z') || ('a' <= c && c <= 'z') || c == '-' || c
        == '.' || c == '_' || c == '~' || c == '%'
}

/// Percent-encoded text holds only letters, digits and `-._~%`; in particular no
/// `?`, `&` or `=` that would end a query parameter.
pub proof fn lemma_percent_encoded_chars(bytes: Seq<u8>)
    ensures
        forall|i: int|
            0 <= i < percent_encoded(bytes).len() ==> is_encoded_char(
                #[trigger] percent_encoded(bytes)[i],
            ),
    decreases bytes.len(),
{
    if bytes.len() > 0 {
        lemma_percent_encoded_chars(bytes.drop_last());
        let b = bytes.last();
        let hi = b / 16;
        let lo = b % 16;
        assert(hi < 16 && lo < 16);
        assert(is_encoded_char(hex_digit(hi)));
        assert(is_encoded_char(hex_digit(lo)));
        let e = encoded_byte(b);
        assert(forall|j: int| 0 <= j < e.len() ==> is_encoded_char(#[trigger] e[j]));
        let p = percent_encoded(bytes.drop_last());
        assert forall|i: int| 0 <= i < percent_encoded(bytes).len() implies is_encoded_char(
            #[trigger] percent_encoded(bytes)[i],
        ) by {
            if i < p.len() {
                assert(percent_encoded(bytes)[i] == p[i]);
            } else {
                assert(percent_encoded(bytes)[i] == e[i - p.len()]);
            }
        }
    }
}

/// The one scope this application asks for: read-only access to Gmail.
pub const GMAIL_READONLY_SCOPE: &'static str = "https://www.googleapis.com/auth/gmail.readonly";

/// The client record of the OAuth2 provider, read once from a trusted local file.
pub struct Credentials {
    pub client_id: String,
    pub client_secret: String,
    pub auth_uri: String,
    pub token_uri: String,
    pub redirect_uri: String,
}

/// The credentials file is absent, malformed, or lists no redirect URI.
pub struct ConfigMissing;

impl Credentials {
    /// Builds the credentials from the fields of the file's `web` record; the
    /// redirect URI is the first one listed there.
    pub fn from_web_record(
        client_id: String,
        client_secret: String,
        auth_uri: String,
        token_uri: String,
        redirect_uris: &Vec<String>,
    ) -> (r: Result<Credentials, ConfigMissing>)
        ensures
            r is Err <==> redirect_uris@.len() == 0,
            r matches Ok(c) ==> {
                &&& c.client_id == client_id
                &&& c.client_secret == client_secret
                &&& c.auth_uri == auth_uri
                &&& c.token_uri == token_uri
                &&& c.redirect_uri == redirect_uris@[0]
            },
    {
        if redirect_uris.len() == 0 {
            Err(ConfigMissing)
        } else {
            Ok(Credentials {
                client_id,
                client_secret,
                auth_uri,
                token_uri,
                redirect_uri: redirect_uris[0].clone(),
            })
        }
    }
}

pub open spec fn query_param(key: Seq<char>, value: Seq<char>) -> Seq<char> {
    key + seq!['='] + value
}

/// The four parameters of the authorization request, in order.
pub open spec fn authorization_query(redirect_uri: Seq<char>, client_id: Seq<char>) -> Seq<char> {
    query_param("scope"@, percent_encoded(encode_utf8(GMAIL_READONLY_SCOPE@))) + seq!['&']
        + query_param("redirect_uri"@, percent_encoded(encode_utf8(redirect_uri))) + seq!['&']
        + query_param("response_type"@, "code"@) + seq!['&'] + query_param("client_id"@, client_id)
}

/// The provider's authorization endpoint followed by the query.
pub open spec fn authorization_url(c: Credentials) -> Seq<char> {
    c.auth_uri@ + seq!['?'] + authorization_query(c.redirect_uri@, c.client_id@)
}

fn append_param(url: &mut String, key: &str, value: &str)
    ensures
        final(url)@ == old(url)@ + query_param(key@, value@),
{
    url.append(key);
    let eq = "=";
    proof {
        reveal_strlit("=");
    }
    url.append(eq);
    url.append(value);
    assert(final(url)@ =~= old(url)@ + query_param(key@, value@));
}

/// The URL the browser is sent to in order to sign in and grant read-only access.
/// No `state` parameter is generated.
pub fn build_authorization_url(credentials: &Credentials) -> (r: String)
    ensures
        r@ == authorization_url(*credentials),
{
    let mut url = credentials.auth_uri.clone();
    let question = "?";
    let amp = "&";
    proof {
        reveal_strlit("?");
        reveal_strlit("&");
    }
    url.append(question);
    let scope = url_encode(GMAIL_READONLY_SCOPE);
    append_param(&mut url, "scope", scope.as_str());
    url.append(amp);
    let redirect = url_encode(credentials.redirect_uri.as_str());
    append_param(&mut url, "redirect_uri", redirect.as_str());
    url.append(amp);
    append_param(&mut url, "response_type", "code");
    url.append(amp);
    append_param(&mut url, "client_id", credentials.client_id.as_str());
    assert(url@ =~= authorization_url(*credentials));
    url
}

/// Credentials whose authorization URL can be read back: the endpoint holds no
/// `?`, and the client id, which is sent unencoded, no `&` or `?`.
pub open spec fn credentials_well_formed(c: Credentials) -> bool {
    &&& free_of(c.auth_uri@, '?')
    &&& free_of(c.client_id@, '&')
    &&& free_of(c.client_id@, '?')
}

proof fn lemma_encoded_free(bytes: Seq<u8>)
    ensures
        free_of(percent_encoded(bytes), '&'),
        free_of(percent_encoded(bytes), '?'),
        free_of(percent_encoded(bytes), '='),
{
    lemma_percent_encoded_chars(bytes);
}

/// For well-formed credentials, the authorization URL is the endpoint, a `?`, and a
/// query that holds exactly the parameters `scope`, `redirect_uri`,
/// `response_type=code` and `client_id`, once each and in this order, with the
/// scope and the redirect URI percent-encoded.
pub proof fn lemma_authorization_url_params(c: Credentials)
    requires
        credentials_well_formed(c),
    ensures
        split_on(authorization_url(c), '?') == seq![
            c.auth_uri@,
            authorization_query(c.redirect_uri@, c.client_id@),
        ],
        query_pairs(authorization_query(c.redirect_uri@, c.client_id@)) == seq![
            ("scope"@, percent_encoded(encode_utf8(GMAIL_READONLY_SCOPE@))),
            ("redirect_uri"@, percent_encoded(encode_utf8(c.redirect_uri@))),
            ("response_type"@, "code"@),
            ("client_id"@, c.client_id@),
        ],
{
    reveal_strlit("scope");
    reveal_strlit("redirect_uri");
    reveal_strlit("response_type");
    reveal_strlit("code");
    reveal_strlit("client_id");
    let es = percent_encoded(encode_utf8(GMAIL_READONLY_SCOPE@));
    let er = percent_encoded(encode_utf8(c.redirect_uri@));
    lemma_encoded_free(encode_utf8(GMAIL_READONLY_SCOPE@));
    lemma_encoded_free(encode_utf8(c.redirect_uri@));
    let p1 = query_param("scope"@, es);
    let p2 = query_param("redirect_uri"@, er);
    let p3 = query_param("response_type"@, "code"@);
    let p4 = query_param("client_id"@, c.client_id@);
    assert(free_of(p1, '&') && free_of(p1, '?')) by {
        assert forall|i: int| 0 <= i < p1.len() implies p1[i] != '&' && p1[i] != '?' by {
            if i >= 6 {
                assert(p1[i] == es[i - 6]);
            }
        }
    }
    assert(free_of(p2, '&') && free_of(p2, '?')) by {
        assert forall|i: int| 0 <= i < p2.len() implies p2[i] != '&' && p2[i] != '?' by {
            if i >= 13 {
                assert(p2[i] == er[i - 13]);
            }
        }
    }
    assert(free_of(p3, '&') && free_of(p3, '?'));
    assert(free_of(p4, '&') && free_of(p4, '?')) by {
        assert forall|i: int| 0 <= i < p4.len() implies p4[i] != '&' && p4[i] != '?' by {
            if i >= 10 {
                assert(p4[i] == c.client_id@[i - 10]);
            }
        }
    }
    let q = authorization_query(c.redirect_uri@, c.client_id@);
    // the query holds no `?`
    let tail3 = p3 + seq!['&'] + p4;
    let tail2 = p2 + seq!['&'] + tail3;
    assert(q =~= p1 + seq!['&'] + tail2);
    lemma_split_free(p4, '&');
    lemma_split_at(p3, p4, '&');
    lemma_split_at(p2, tail3, '&');
    lemma_split_at(p1, tail2, '&');
    let segs = split_on(q, '&');
    assert(segs =~= seq![p1, p2, p3, p4]);
    assert(free_of(q, '?')) by {
        assert forall|i: int| 0 <= i < q.len() implies q[i] != '?' by {
            if i < p1.len() {
                assert(q[i] == p1[i]);
            } else if i == p1.len() {
            } else if i < p1.len() + 1 + p2.len() {
                assert(q[i] == p2[i - p1.len() - 1]);
            } else if i == p1.len() + 1 + p2.len() {
            } else if i < p1.len() + 2 + p2.len() + p3.len() {
                assert(q[i] == p3[i - p1.len() - 2 - p2.len()]);
            } else if i == p1.len() + 2 + p2.len() + p3.len() {
            } else {
                assert(q[i] == p4[i - p1.len() - 3 - p2.len() - p3.len()]);
            }
        }
    }
    lemma_split_free(q, '?');
    lemma_split_at(c.auth_uri@, q, '?');
    assert(authorization_url(c) =~= c.auth_uri@ + seq!['?'] + q);
    lemma_param("scope"@, es);
    lemma_param("redirect_uri"@, er);
    lemma_param("response_type"@, "code"@);
    lemma_param("client_id"@, c.client_id@);
    assert(query_pairs(q) =~= seq![
        ("scope"@, es),
        ("redirect_uri"@, er),
        ("response_type"@, "code"@),
        ("client_id"@, c.client_id@),
    ]);
}

/// The grant type of the authorization code exchange.
pub const AUTHORIZATION_CODE_GRANT: &'static str = "authorization_code";

/// A form-encoded POST to the provider's token endpoint.
pub struct TokenRequest {
    pub url: String,
    pub form: Vec<(String, String)>,
}

pub open spec fn pairs_view(v: Seq<(String, String)>) -> Seq<(Seq<char>, Seq<char>)> {
    v.map_values(|p: (String, String)| (p.0@, p.1@))
}

/// The fields of the exchange form, in order.
pub open spec fn token_form(c: Credentials, code: Seq<char>) -> Seq<(Seq<char>, Seq<char>)> {
    seq![
        ("client_id"@, c.client_id@),
        ("client_secret"@, c.client_secret@),
        ("code"@, code),
        ("grant_type"@, AUTHORIZATION_CODE_GRANT@),
        ("redirect_uri"@, c.redirect_uri@),
    ]
}

fn pair(key: &str, value: &str) -> (r: (String, String))
    ensures
        r.0@ == key@,
        r.1@ == value@,
{
    (key.to_owned(), value.to_owned())
}

/// The request that exchanges an authorization code for an access token.
pub fn token_request(credentials: &Credentials, code: &str) -> (r: TokenRequest)
    ensures
        r.url@ == credentials.token_uri@,
        pairs_view(r.form@) == token_form(*credentials, code@),
{
    let mut form: Vec<(String, String)> = Vec::new();
    form.push(pair("client_id", credentials.client_id.as_str()));
    form.push(pair("client_secret", credentials.client_secret.as_str()));
    form.push(pair("code", code));
    form.push(pair("grant_type", AUTHORIZATION_CODE_GRANT));
    form.push(pair("redirect_uri", credentials.redirect_uri.as_str()));
    assert(pairs_view(form@) =~= token_form(*credentials, code@));
    TokenRequest { url: credentials.token_uri.clone(), form }
}

/// The fields of the token endpoint's JSON reply; a field the reply lacks is `None`.
pub struct TokenFields {
    pub access_token: Option<String>,
    pub expires_in: Option<i32>,
    pub scope: Option<String>,
    pub token_type: Option<String>,
}

/// The access token granted by the provider, with its lifetime in seconds.
pub struct AccessGrant {
    pub access_token: String,
    pub expires_in: i32,
}

/// The exchange failed: the call did not go through, the body was not JSON, or a
/// field was missing. No partial token is kept.
pub struct TokenExchangeError;

pub open spec fn token_fields_complete(f: TokenFields) -> bool {
    &&& f.access_token is Some
    &&& f.expires_in is Some
    &&& f.scope is Some
    &&& f.token_type is Some
}

/// Reads the outcome of the exchange: `None` where the call or the JSON decoding
/// failed, else the fields of the reply. All four fields are required.
pub fn grant_from_reply(reply: Option<TokenFields>) -> (r: Result<AccessGrant, TokenExchangeError>)
    ensures
        r is Ok <==> (reply matches Some(f) && token_fields_complete(f)),
        r matches Ok(g) ==> {
            &&& reply->Some_0.access_token == Some(g.access_token)
            &&& reply->Some_0.expires_in == Some(g.expires_in)
        },
{
    match reply {
        None => Err(TokenExchangeError),
        Some(f) => match (f.access_token, f.expires_in, f.scope, f.token_type) {
            (Some(access_token), Some(expires_in), Some(_), Some(_)) => Ok(
                AccessGrant { access_token, expires_in },
            ),
            _ => Err(TokenExchangeError),
        },
    }
}

} // verus!
