use vstd::prelude::*;
use vstd::string::*;

verus! {

/// The account whose mailbox is read.
pub struct User {
    pub email: String,
}

/// The Gmail profile of the signed-in account.
pub struct Profile {
    pub email_address: String,
    pub messages_total: i32,
    pub threads_total: i32,
    pub history_id: String,
}

pub struct MessageHeader {
    pub name: String,
    pub value: String,
}

pub struct MessagePartBody {
    pub size: i32,
    pub data: Option<String>,
    pub attachment_id: Option<String>,
}

/// One MIME part of a message, with its own parts.
pub struct MessagePart {
    pub part_id: String,
    pub mime_type: String,
    pub filename: String,
    pub headers: Vec<MessageHeader>,
    pub body: MessagePartBody,
    pub parts: Option<Vec<MessagePart>>,
}

/// A message's metadata as the Gmail API returns it.
pub struct Message {
    pub id: String,
    pub thread_id: String,
    pub label_ids: Vec<String>,
    pub snippet: String,
    pub history_id: String,
    pub internal_date: String,
    pub payload: Option<MessagePart>,
    pub size_estimate: i32,
    pub raw: Option<String>,
}

/// One entry of a message listing.
pub struct MessageListEntry {
    pub id: String,
    pub thread_id: String,
}

/// One page of the message listing, with the cursor of the next page.
pub struct MessagesList {
    pub messages: Vec<MessageListEntry>,
    pub next_page_token: Option<String>,
    pub result_size_estimate: Option<i32>,
}

/// One line of the storage summary.
pub struct SearchResult {
    pub title: String,
    pub size: i32,
    pub thread_id: String,
}

/// A call to the Gmail API failed, or its reply did not have the expected shape.
pub struct ApiError;

/// The messages-list endpoint of the signed-in user.
pub const MESSAGES_URL: &'static str = "https://gmail.googleapis.com/gmail/v1/users/me/messages";

/// The profile endpoint of the signed-in user.
pub const PROFILE_URL: &'static str = "https://gmail.googleapis.com/gmail/v1/users/me/profile";

/// The page size asked for when none, or no number, is given.
pub const DEFAULT_MAX_RESULTS: u32 = 10;

/// An authorized GET to the Gmail API.
pub struct ApiRequest {
    pub url: String,
    /// The value of the `Authorization` header.
    pub authorization: String,
}

/// The request for one page of the listing: `maxResults`, and `pageToken` where a
/// cursor is given.
pub struct ListRequest {
    pub request: ApiRequest,
    pub max_results: u32,
    pub page_token: Option<String>,
}

pub open spec fn bearer(token: Seq<char>) -> Seq<char> {
    "Bearer "@ + token
}

pub open spec fn message_url(id: Seq<char>) -> Seq<char> {
    MESSAGES_URL@ + seq!['/'] + id
}

pub open spec fn is_digit(c: char) -> bool {
    '0' <= c && c <= '9'
}

pub open spec fn all_digits(s: Seq<char>) -> bool {
    forall|i: int| 0 <= i < s.len() ==> is_digit(#[trigger] s[i])
}

/// The number that decimal digits `s` write.
pub open spec fn digits_value(s: Seq<char>) -> nat
    decreases s.len(),
{
    if s.len() == 0 {
        0
    } else {
        digits_value(s.drop_last()) * 10 + (s.last() as nat - '0' as nat) as nat
    }
}

/// The digits of an unsigned decimal: what follows an optional leading `+`.
pub open spec fn unsigned_digits(s: Seq<char>) -> Seq<char> {
    if s.len() > 0 && s[0] == '+' {
        s.subrange(1, s.len() as int)
    } else {
        s
    }
}

/// The `u32` that `s` writes in decimal, if it is one: an optional `+`, then one
/// or more ASCII digits, with a value that fits.
pub open spec fn decimal_u32(s: Seq<char>) -> Option<u32> {
    let d = unsigned_digits(s);
    if d.len() > 0 && all_digits(d) && digits_value(d) <= u32::MAX {
        Some(digits_value(d) as u32)
    } else {
        None
    }
}

/// The page size a summary asks for: the `max` parameter where it is a `u32` in
/// decimal, else the default of 10. It is not held to Gmail's own bounds.
pub open spec fn page_size(max: Option<Seq<char>>) -> u32 {
    match max {
        Some(m) => match decimal_u32(m) {
            Some(n) => n,
            None => DEFAULT_MAX_RESULTS,
        },
        None => DEFAULT_MAX_RESULTS,
    }
}

/// Reads an unsigned decimal as `str::parse::<u32>` does.
pub fn parse_u32(s: &str) -> (r: Option<u32>)
    ensures
        r == decimal_u32(s@),
{
    let n = s.unicode_len();
    let mut i: usize = 0;
    if n > 0 && s.get_char(0) == '+' {
        i = 1;
    }
    let start = i;
    let ghost d = unsigned_digits(s@);
    assert(d =~= s@.subrange(start as int, n as int));
    if start == n {
        return None;
    }
    // saturates one above u32::MAX
    let mut acc: u64 = 0;
    while i < n
        invariant
            start <= i <= n,
            n == s@.len(),
            d == s@.subrange(start as int, n as int),
            d == unsigned_digits(s@),
            all_digits(d.take(i - start)),
            acc as nat == if digits_value(d.take(i - start)) <= u32::MAX {
                digits_value(d.take(i - start))
            } else {
                u32::MAX as nat + 1
            },
        decreases n - i,
    {
        let c = s.get_char(i);
        let ghost k = (i - start) as int;
        assert(d.take(k + 1).drop_last() =~= d.take(k));
        assert(d.take(k + 1).last() == c);
        if c < '0' || c > '9' {
            assert(d[k] == c);
            assert(!is_digit(d[k]));
            assert(!all_digits(d));
            return None;
        }
        let digit = (c as u32 - '0' as u32) as u64;
        let ghost prev = digits_value(d.take(k));
        assert(digits_value(d.take(k + 1)) == prev * 10 + digit);
        if acc > u32::MAX as u64 {
            assert(prev * 10 + digit > u32::MAX) by (nonlinear_arith)
                requires
                    prev > u32::MAX,
            ;
        } else {
            acc = acc * 10 + digit;
            if acc > u32::MAX as u64 {
                acc = u32::MAX as u64 + 1;
            }
        }
        assert(all_digits(d.take(k + 1))) by {
            assert forall|j: int| 0 <= j < k + 1 implies is_digit(#[trigger] d.take(k + 1)[j]) by {
                if j < k {
                    assert(d.take(k + 1)[j] == d.take(k)[j]);
                }
            }
        }
        i = i + 1;
    }
    assert(d.take(n - start) =~= d);
    if acc > u32::MAX as u64 {
        None
    } else {
        Some(acc as u32)
    }
}

/// The page size of a summary request; see [`page_size`].
pub fn parse_max_results(max: Option<&str>) -> (r: u32)
    ensures
        r == page_size(match max {
            Some(m) => Some(m@),
            None => None,
        }),
{
    match max {
        Some(m) => match parse_u32(m) {
            Some(n) => n,
            None => DEFAULT_MAX_RESULTS,
        },
        None => DEFAULT_MAX_RESULTS,
    }
}

fn bearer_header(token: &str) -> (r: String)
    ensures
        r@ == bearer(token@),
{
    let mut h = String::from_str("Bearer ");
    h.append(token);
    h
}

/// The request for one page of the listing.
pub fn list_request(token: &str, max_results: u32, cursor: Option<&str>) -> (r: ListRequest)
    ensures
        r.request.url@ == MESSAGES_URL@,
        r.request.authorization@ == bearer(token@),
        r.max_results == max_results,
        r.page_token is Some <==> cursor is Some,
        cursor matches Some(c) ==> r.page_token->Some_0@ == c@,
{
    let page_token = match cursor {
        Some(c) => Some(c.to_owned()),
        None => None,
    };
    ListRequest {
        request: ApiRequest { url: MESSAGES_URL.to_owned(), authorization: bearer_header(token) },
        max_results,
        page_token,
    }
}

/// The request for one message's metadata.
pub fn detail_request(token: &str, id: &str) -> (r: ApiRequest)
    ensures
        r.url@ == message_url(id@),
        r.authorization@ == bearer(token@),
{
    let mut url = MESSAGES_URL.to_owned();
    let slash = "/";
    proof {
        reveal_strlit("/");
    }
    url.append(slash);
    url.append(id);
    assert(url@ =~= message_url(id@));
    ApiRequest { url, authorization: bearer_header(token) }
}

/// The request for the signed-in account's profile.
pub fn profile_request(token: &str) -> (r: ApiRequest)
    ensures
        r.url@ == PROFILE_URL@,
        r.authorization@ == bearer(token@),
{
    ApiRequest { url: PROFILE_URL.to_owned(), authorization: bearer_header(token) }
}

/// The name of the header that gives a message its title.
pub const SUBJECT_HEADER: &'static str = "Subject";

/// The value of the first header named exactly `Subject`.
pub open spec fn first_subject(headers: Seq<MessageHeader>) -> Option<Seq<char>>
    decreases headers.len(),
{
    if headers.len() == 0 {
        None
    } else if headers[0].name@ == SUBJECT_HEADER@ {
        Some(headers[0].value@)
    } else {
        first_subject(headers.subrange(1, headers.len() as int))
    }
}

/// A message's title: the subject among the top-level headers of its payload.
pub open spec fn message_title(m: Message) -> Option<Seq<char>> {
    match m.payload {
        Some(p) => first_subject(p.headers@),
        None => None,
    }
}

/// `s` is the summary line of message `m`.
pub open spec fn summarizes(s: SearchResult, m: Message) -> bool {
    &&& message_title(m) == Some(s.title@)
    &&& s.size == m.size_estimate
    &&& s.thread_id@ == m.thread_id@
}

/// The messages that make it into a summary, in order: those whose fetch
/// succeeded and that have a title.
pub open spec fn summarized(details: Seq<Result<Message, ApiError>>) -> Seq<Message>
    decreases details.len(),
{
    if details.len() == 0 {
        seq![]
    } else {
        let rest = summarized(details.drop_last());
        match details.last() {
            Ok(m) => if message_title(m) is Some {
                rest.push(m)
            } else {
                rest
            },
            Err(_) => rest,
        }
    }
}

/// `r` summarizes the messages of `ms`, one line each, in the same order.
pub open spec fn summarizes_all(r: Seq<SearchResult>, ms: Seq<Message>) -> bool {
    &&& r.len() == ms.len()
    &&& forall|i: int| 0 <= i < r.len() ==> summarizes(#[trigger] r[i], ms[i])
}

/// The value of the first header named `Subject`, compared case-sensitively.
pub fn find_subject(headers: &Vec<MessageHeader>) -> (r: Option<String>)
    ensures
        r is Some <==> first_subject(headers@) is Some,
        r matches Some(v) ==> first_subject(headers@) == Some(v@),
{
    let subject = SUBJECT_HEADER.to_owned();
    let mut i: usize = 0;
    assert(headers@.subrange(0, headers@.len() as int) =~= headers@);
    while i < headers.len()
        invariant
            i <= headers@.len(),
            subject@ == SUBJECT_HEADER@,
            first_subject(headers@) == first_subject(headers@.subrange(i as int, headers@.len() as int)),
        decreases headers@.len() - i,
    {
        let ghost rest = headers@.subrange(i as int, headers@.len() as int);
        assert(rest[0] == headers@[i as int]);
        assert(rest.subrange(1, rest.len() as int) =~= headers@.subrange(i + 1, headers@.len() as int));
        if headers[i].name == subject {
            return Some(headers[i].value.clone());
        }
        i = i + 1;
    }
    None
}

/// The summary line of a fetched message; `None` where it has no payload or no
/// subject, which counts as a failed fetch.
pub fn summary_of(msg: &Message) -> (r: Option<SearchResult>)
    ensures
        r is Some <==> message_title(*msg) is Some,
        r matches Some(s) ==> summarizes(s, *msg),
{
    match &msg.payload {
        None => None,
        Some(p) => match find_subject(&p.headers) {
            None => None,
            Some(title) => Some(
                SearchResult {
                    title,
                    size: msg.size_estimate,
                    thread_id: msg.thread_id.clone(),
                },
            ),
        },
    }
}

proof fn lemma_summarized_len(details: Seq<Result<Message, ApiError>>)
    ensures
        summarized(details).len() <= details.len(),
    decreases details.len(),
{
    if details.len() > 0 {
        lemma_summarized_len(details.drop_last());
    }
}

/// The summary of a listing split in two is the summary of the first part followed
/// by that of the second.
pub proof fn lemma_summarized_append(
    a: Seq<Result<Message, ApiError>>,
    b: Seq<Result<Message, ApiError>>,
)
    ensures
        summarized(a + b) == summarized(a) + summarized(b),
    decreases b.len(),
{
    if b.len() == 0 {
        assert(a + b =~= a);
        assert(summarized(a) + summarized(b) =~= summarized(a));
    } else {
        lemma_summarized_append(a, b.drop_last());
        assert((a + b).drop_last() =~= a + b.drop_last());
        assert((a + b).last() == b.last());
        let sa = summarized(a);
        let sb = summarized(b.drop_last());
        match b.last() {
            Ok(m) => {
                if message_title(m) is Some {
                    assert(sa + sb.push(m) =~= (sa + sb).push(m));
                }
            },
            Err(_) => {},
        }
    }
}

/// A failed fetch is left out of the summary, and the messages around it keep
/// their order.
pub proof fn lemma_failed_fetch_omitted(
    before: Seq<Result<Message, ApiError>>,
    after: Seq<Result<Message, ApiError>>,
)
    ensures
        summarized(before + seq![Err(ApiError)] + after) == summarized(before) + summarized(after),
{
    let failed: Seq<Result<Message, ApiError>> = seq![Err(ApiError)];
    lemma_summarized_append(before + failed, after);
    lemma_summarized_append(before, failed);
    assert(failed.drop_last() =~= Seq::<Result<Message, ApiError>>::empty());
    assert(failed.last() is Err);
    assert(summarized(Seq::<Result<Message, ApiError>>::empty()) =~= Seq::<Message>::empty());
    assert(summarized(failed) =~= Seq::<Message>::empty());
    assert(summarized(before) + summarized(failed) =~= summarized(before));
}

/// The summary lines of the fetched messages, in the listing's order. A failed
/// fetch, or a message without a subject, is left out and not retried.
pub fn collect_summaries(details: &Vec<Result<Message, ApiError>>) -> (r: Vec<SearchResult>)
    ensures
        summarizes_all(r@, summarized(details@)),
        r@.len() <= details@.len(),
{
    let mut out: Vec<SearchResult> = Vec::new();
    let mut i: usize = 0;
    while i < details.len()
        invariant
            i <= details@.len(),
            summarizes_all(out@, summarized(details@.take(i as int))),
        decreases details@.len() - i,
    {
        let ghost before = out@;
        assert(details@.take(i + 1).drop_last() =~= details@.take(i as int));
        assert(details@.take(i + 1).last() == details@[i as int]);
        match &details[i] {
            Ok(m) => match summary_of(m) {
                Some(s) => {
                    out.push(s);
                    assert(summarizes_all(out@, summarized(details@.take(i + 1)))) by {
                        assert forall|j: int| 0 <= j < out@.len() implies summarizes(
                            #[trigger] out@[j],
                            summarized(details@.take(i + 1))[j],
                        ) by {
                            if j < before.len() {
                                assert(out@[j] == before[j]);
                            }
                        }
                    }
                },
                None => {},
            },
            Err(_) => {},
        }
        i = i + 1;
    }
    assert(details@.take(details@.len() as int) =~= details@);
    proof {
        lemma_summarized_len(details@);
    }
    out
}

/// The requests for the metadata of each listed message, in the listing's order.
pub fn detail_requests(token: &str, page: &MessagesList) -> (r: Vec<ApiRequest>)
    ensures
        r@.len() == page.messages@.len(),
        forall|i: int|
            0 <= i < r@.len() ==> (#[trigger] r@[i]).url@ == message_url(page.messages@[i].id@)
                && r@[i].authorization@ == bearer(token@),
{
    let mut out: Vec<ApiRequest> = Vec::new();
    let mut i: usize = 0;
    while i < page.messages.len()
        invariant
            i <= page.messages@.len(),
            out@.len() == i,
            forall|j: int|
                0 <= j < i ==> (#[trigger] out@[j]).url@ == message_url(page.messages@[j].id@)
                    && out@[j].authorization@ == bearer(token@),
        decreases page.messages@.len() - i,
    {
        out.push(detail_request(token, page.messages[i].id.as_str()));
        i = i + 1;
    }
    out
}

/// What one summary request found: the summary lines and the cursor of the next
/// page, or a failure of the listing itself. The two are kept apart here; the HTTP
/// boundary answers both with a list, empty on failure.
pub enum SummaryOutcome {
    Listed { summaries: Vec<SearchResult>, next_cursor: Option<String> },
    UpstreamFailed,
}

/// Assembles a summary from the listed page and the fetch of each of its entries,
/// in the page's order. The page's cursor is passed on unchanged.
pub fn summarize(page: Result<MessagesList, ApiError>, details: &Vec<Result<Message, ApiError>>) -> (r:
    SummaryOutcome)
    requires
        page matches Ok(p) ==> details@.len() == p.messages@.len(),
    ensures
        r is UpstreamFailed <==> page is Err,
        r matches SummaryOutcome::Listed { summaries, next_cursor } ==> {
            &&& summarizes_all(summaries@, summarized(details@))
            &&& summaries@.len() <= page->Ok_0.messages@.len()
            &&& next_cursor == page->Ok_0.next_page_token
        },
{
    match page {
        Err(_) => SummaryOutcome::UpstreamFailed,
        Ok(p) => SummaryOutcome::Listed {
            summaries: collect_summaries(details),
            next_cursor: p.next_page_token,
        },
    }
}

impl SummaryOutcome {
    /// The summary lines and the next cursor, with a failure read as an empty
    /// list and no cursor.
    pub fn into_parts(self) -> (r: (Vec<SearchResult>, Option<String>))
        ensures
            self matches SummaryOutcome::Listed { summaries, next_cursor } ==> r == (
            summaries,
            next_cursor,
            ),
            self is UpstreamFailed ==> r.0@.len() == 0 && r.1 is None,
    {
        match self {
            SummaryOutcome::Listed { summaries, next_cursor } => (summaries, next_cursor),
            SummaryOutcome::UpstreamFailed => (Vec::new(), None),
        }
    }
}

/// The account shown to the user: the profile's address, or an empty one where the
/// profile could not be fetched.
pub fn user_from_profile(profile: Result<Profile, ApiError>) -> (r: User)
    ensures
        profile matches Ok(p) ==> r.email == p.email_address,
        profile is Err ==> r.email@.len() == 0,
{
    match profile {
        Ok(p) => User { email: p.email_address },
        Err(_) => User { email: String::new() },
    }
}

} // verus!
