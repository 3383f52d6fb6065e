use vstd::prelude::*;
use vstd::string::*;
use crate::gmail::{
    list_request, page_size, parse_max_results, profile_request,
    ApiRequest, ListRequest, MESSAGES_URL, PROFILE_URL, SearchResult, SummaryOutcome, bearer,
};
use crate::oauth::{
    authorization_url, build_authorization_url, grant_from_reply, token_fields_complete,
    token_request, token_form, pairs_view, ConfigMissing, Credentials, TokenFields, TokenRequest,
};
use crate::session::{
    apply_op, clear, read, removes_cookie, sets_cookie, write_cursor, CookieOp,
    SessionCookies, PAGE_TOKEN_COOKIE, TOKEN_COOKIE,
};

verus! {

pub const HOME_PATH: &'static str = "/home";

pub const LOGIN_PATH: &'static str = "/login";

pub const ERROR_PATH: &'static str = "/error";

/// The message of the error page.
pub const NOT_LOGGED_IN: &'static str = "Not logged in";

/// A `302 Found` to `location`.
pub struct Redirect {
    pub location: String,
}

/// A page rendered from a template.
pub enum Page {
    /// The summary page.
    Index,
    /// The error page, with its message and the path it points back to.
    Error { error: String, redirect: String },
}

/// A redirect together with the cookie changes that go with it.
pub struct RedirectWithCookies {
    pub cookie_ops: Vec<CookieOp>,
    pub redirect: Redirect,
}

fn redirect_to(path: &str) -> (r: Redirect)
    ensures
        r.location@ == path@,
{
    Redirect { location: path.to_owned() }
}

pub open spec fn has_session(cookies: SessionCookies) -> bool {
    cookies@.contains_key(TOKEN_COOKIE@)
}

/// `GET /`: to the summary page with a session, else to sign-in.
pub fn index(cookies: &SessionCookies) -> (r: Redirect)
    ensures
        r.location@ == if has_session(*cookies) {
            HOME_PATH@
        } else {
            LOGIN_PATH@
        },
{
    match read(cookies) {
        Some(_) => redirect_to(HOME_PATH),
        None => redirect_to(LOGIN_PATH),
    }
}

/// The error page, pointing back to sign-in.
pub fn error() -> (r: Page)
    ensures
        r matches Page::Error { error, redirect } && error@ == NOT_LOGGED_IN@ && redirect@
            == LOGIN_PATH@,
{
    Page::Error { error: NOT_LOGGED_IN.to_owned(), redirect: LOGIN_PATH.to_owned() }
}

/// `GET /home`: the summary page with a session, else the error page.
pub fn home(cookies: &SessionCookies) -> (r: Page)
    ensures
        has_session(*cookies) ==> r is Index,
        !has_session(*cookies) ==> (r matches Page::Error { error, redirect } && error@
            == NOT_LOGGED_IN@ && redirect@ == LOGIN_PATH@),
{
    match read(cookies) {
        Some(_) => Page::Index,
        None => error(),
    }
}

/// `GET /login`: forgets the session and its cursor, then sends the browser to the
/// provider's sign-in page, or to the error page where the credentials could not be
/// loaded.
pub fn login(credentials: &Result<Credentials, ConfigMissing>) -> (r: RedirectWithCookies)
    ensures
        r.cookie_ops@.len() == 2,
        removes_cookie(r.cookie_ops@[0], TOKEN_COOKIE@),
        removes_cookie(r.cookie_ops@[1], PAGE_TOKEN_COOKIE@),
        credentials is Ok ==> r.redirect.location@ == authorization_url(credentials->Ok_0),
        credentials is Err ==> r.redirect.location@ == ERROR_PATH@,
{
    let cookie_ops = clear();
    let redirect = match credentials {
        Ok(c) => Redirect { location: build_authorization_url(c) },
        Err(_) => redirect_to(ERROR_PATH),
    };
    RedirectWithCookies { cookie_ops, redirect }
}

/// `ops` are those of `session::clear`: the token, then the cursor, removed.
pub open spec fn clears_session(ops: Seq<CookieOp>) -> bool {
    &&& ops.len() == 2
    &&& removes_cookie(ops[0], TOKEN_COOKIE@)
    &&& removes_cookie(ops[1], PAGE_TOKEN_COOKIE@)
}

/// An authorization failure: the session is cleared and the browser sent to the
/// error page.
fn auth_failure() -> (r: RedirectWithCookies)
    ensures
        clears_session(r.cookie_ops@),
        r.redirect.location@ == ERROR_PATH@,
{
    RedirectWithCookies { cookie_ops: clear(), redirect: redirect_to(ERROR_PATH) }
}

/// `GET /oauth2callback`, first half: the token exchange to perform; where no code
/// came back or the credentials could not be loaded, the authorization fails. The
/// other query parameters are ignored.
pub fn callback_request(code: Option<&str>, credentials: &Result<Credentials, ConfigMissing>) -> (r:
    Result<TokenRequest, RedirectWithCookies>)
    ensures
        r is Ok <==> (code is Some && credentials is Ok),
        r matches Ok(t) ==> {
            &&& t.url@ == credentials->Ok_0.token_uri@
            &&& pairs_view(t.form@) == token_form(credentials->Ok_0, code->Some_0@)
        },
        r matches Err(e) ==> clears_session(e.cookie_ops@) && e.redirect.location@ == ERROR_PATH@,
{
    match (code, credentials) {
        (Some(code), Ok(c)) => Ok(token_request(c, code)),
        _ => Err(auth_failure()),
    }
}

/// What the second half of the callback does with the exchange's reply.
pub open spec fn callback_outcome(reply: Option<TokenFields>, r: RedirectWithCookies) -> bool {
    if reply is Some && token_fields_complete(reply->Some_0) {
        let f = reply->Some_0;
        &&& r.cookie_ops@.len() == 1
        &&& sets_cookie(r.cookie_ops@[0], TOKEN_COOKIE@, f.access_token->Some_0@)
        &&& r.cookie_ops@[0] matches CookieOp::Store { max_age, .. }
        &&& max_age == Some(f.expires_in->Some_0 as i64)
        &&& r.redirect.location@ == HOME_PATH@
    } else {
        &&& clears_session(r.cookie_ops@)
        &&& r.redirect.location@ == ERROR_PATH@
    }
}

/// `GET /oauth2callback`, second half: on a complete reply, stores the token for
/// as long as it lives and goes to the summary page; else the exchange failed, and
/// the session is cleared and the browser sent to the error page.
pub fn callback_finish(reply: Option<TokenFields>) -> (r: RedirectWithCookies)
    ensures
        callback_outcome(reply, r),
{
    let mut cookie_ops: Vec<CookieOp> = Vec::new();
    match grant_from_reply(reply) {
        Ok(grant) => {
            cookie_ops.push(crate::session::write(grant.access_token.as_str(), Some(grant.expires_in as i64)));
            RedirectWithCookies { cookie_ops, redirect: redirect_to(HOME_PATH) }
        },
        Err(_) => auth_failure(),
    }
}

/// A reply without an access token fails the exchange: the callback stores no
/// token, only removes cookies, leaves no session behind whatever the browser held
/// before, and ends on the error page.
pub proof fn lemma_missing_token_stores_nothing(
    reply: Option<TokenFields>,
    r: RedirectWithCookies,
    before: Map<Seq<char>, Seq<char>>,
)
    requires
        reply matches Some(f) ==> f.access_token is None,
        callback_outcome(reply, r),
    ensures
        forall|i: int| 0 <= i < r.cookie_ops@.len() ==> (#[trigger] r.cookie_ops@[i]) is Remove,
        !apply_op(apply_op(before, r.cookie_ops@[0]), r.cookie_ops@[1]).contains_key(TOKEN_COOKIE@),
        r.redirect.location@ == ERROR_PATH@,
{
    reveal_strlit("token");
    reveal_strlit("page_token");
    assert(TOKEN_COOKIE@ != PAGE_TOKEN_COOKIE@) by {
        assert(TOKEN_COOKIE@.len() != PAGE_TOKEN_COOKIE@.len());
    }
}

/// The sign-in redirect's location begins with the credentials' authorization
/// endpoint, whatever it is.
pub proof fn lemma_login_url_starts_with_endpoint(c: Credentials)
    ensures
        authorization_url(c).take(c.auth_uri@.len() as int) == c.auth_uri@,
{
    assert(authorization_url(c).take(c.auth_uri@.len() as int) =~= c.auth_uri@);
}

/// `GET /api/summary`, first half: the listing request of a signed-in user, with
/// the page size of `max` and the cursor the session holds; `None` without a
/// session.
pub fn summary_request(cookies: &SessionCookies, max: Option<&str>) -> (r: Option<ListRequest>)
    ensures
        r is Some <==> has_session(*cookies),
        r matches Some(l) ==> {
            &&& l.request.url@ == MESSAGES_URL@
            &&& l.request.authorization@ == bearer(cookies@[TOKEN_COOKIE@])
            &&& l.max_results == page_size(
                match max {
                    Some(m) => Some(m@),
                    None => None,
                },
            )
            &&& l.page_token is Some <==> cookies@.contains_key(PAGE_TOKEN_COOKIE@)
            &&& l.page_token matches Some(c) ==> c@ == cookies@[PAGE_TOKEN_COOKIE@]
        },
        r is Some && max is None ==> r->Some_0.max_results == 10,
{
    match read(cookies) {
        None => None,
        Some(s) => {
            let cursor = match &s.pagination_cursor {
                Some(c) => Some(c.as_str()),
                None => None,
            };
            Some(list_request(s.access_token.as_str(), parse_max_results(max), cursor))
        },
    }
}

/// `GET /api/summary`, second half: the JSON list to answer with and the change to
/// the cursor cookie: the next cursor is stored, and where there is none, or the
/// listing failed, the old one is removed.
pub fn summary_response(outcome: SummaryOutcome) -> (r: (Vec<SearchResult>, CookieOp))
    ensures
        outcome matches SummaryOutcome::Listed { summaries, next_cursor } ==> {
            &&& r.0 == summaries
            &&& next_cursor matches Some(c) ==> sets_cookie(r.1, PAGE_TOKEN_COOKIE@, c@)
            &&& next_cursor is None ==> removes_cookie(r.1, PAGE_TOKEN_COOKIE@)
        },
        outcome is UpstreamFailed ==> r.0@.len() == 0 && removes_cookie(
            r.1,
            PAGE_TOKEN_COOKIE@,
        ),
{
    let (summaries, next_cursor) = outcome.into_parts();
    (summaries, write_cursor(next_cursor))
}

/// `GET /api/profile`, first half: the profile request of a signed-in user.
pub fn profile_route_request(cookies: &SessionCookies) -> (r: Option<ApiRequest>)
    ensures
        r is Some <==> has_session(*cookies),
        r matches Some(q) ==> q.url@ == PROFILE_URL@ && q.authorization@ == bearer(
            cookies@[TOKEN_COOKIE@],
        ),
{
    match read(cookies) {
        None => None,
        Some(s) => Some(profile_request(s.access_token.as_str())),
    }
}

} // verus!
