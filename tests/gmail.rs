use gmail_cleaner::gmail::{
    collect_summaries, detail_requests, find_subject, list_request, parse_max_results, parse_u32,
    summarize, summary_of, user_from_profile, ApiError, Message, MessageHeader, MessageListEntry,
    MessagePart, MessagePartBody, MessagesList, Profile, SummaryOutcome, MESSAGES_URL,
};

fn header(name: &str, value: &str) -> MessageHeader {
    MessageHeader { name: name.to_string(), value: value.to_string() }
}

fn message(id: &str, thread: &str, size: i32, headers: Option<Vec<MessageHeader>>) -> Message {
    Message {
        id: id.to_string(),
        thread_id: thread.to_string(),
        label_ids: vec!["INBOX".to_string()],
        snippet: String::new(),
        history_id: "1".to_string(),
        internal_date: "0".to_string(),
        payload: headers.map(|h| MessagePart {
            part_id: String::new(),
            mime_type: "text/plain".to_string(),
            filename: String::new(),
            headers: h,
            body: MessagePartBody { size: 0, data: None, attachment_id: None },
            parts: None,
        }),
        size_estimate: size,
        raw: None,
    }
}

fn page(ids: &[&str], next: Option<&str>) -> MessagesList {
    MessagesList {
        messages: ids
            .iter()
            .map(|i| MessageListEntry { id: i.to_string(), thread_id: format!("t{}", i) })
            .collect(),
        next_page_token: next.map(|n| n.to_string()),
        result_size_estimate: Some(ids.len() as i32),
    }
}

#[test]
fn max_results_default_and_parse() {
    assert_eq!(parse_max_results(None), 10);
    assert_eq!(parse_max_results(Some("5")), 5);
    assert_eq!(parse_max_results(Some("+7")), 7);
    assert_eq!(parse_max_results(Some("00012")), 12);
    assert_eq!(parse_max_results(Some("abc")), 10);
    assert_eq!(parse_max_results(Some("")), 10);
    assert_eq!(parse_max_results(Some("-1")), 10);
    assert_eq!(parse_max_results(Some("1000")), 1000);
    assert_eq!(parse_max_results(Some("0")), 0);
}

#[test]
fn parse_u32_limits() {
    assert_eq!(parse_u32("4294967295"), Some(u32::MAX));
    assert_eq!(parse_u32("4294967296"), None);
    assert_eq!(parse_u32("99999999999999999999"), None);
    assert_eq!(parse_u32("+"), None);
    assert_eq!(parse_u32(" 1"), None);
    assert_eq!(parse_u32("12a"), None);
    for s in ["0", "7", "+3", "123456", "4294967295", "", "x", "-0", "++1"] {
        assert_eq!(parse_u32(s), s.parse::<u32>().ok());
    }
}

#[test]
fn list_request_with_and_without_cursor() {
    let r = list_request("T", 10, None);
    assert_eq!(r.request.url, MESSAGES_URL);
    assert_eq!(r.request.authorization, "Bearer T");
    assert_eq!(r.max_results, 10);
    assert_eq!(r.page_token, None);
    let r = list_request("T", 3, Some("c1"));
    assert_eq!(r.max_results, 3);
    assert_eq!(r.page_token, Some("c1".to_string()));
}

#[test]
fn detail_requests_follow_listing() {
    let rs = detail_requests("T", &page(&["m1", "m2"], None));
    assert_eq!(rs.len(), 2);
    assert_eq!(rs[0].url, "https://gmail.googleapis.com/gmail/v1/users/me/messages/m1");
    assert_eq!(rs[1].url, "https://gmail.googleapis.com/gmail/v1/users/me/messages/m2");
    assert_eq!(rs[1].authorization, "Bearer T");
}

#[test]
fn subject_is_first_exact_match() {
    let hs = vec![
        header("From", "a@b"),
        header("subject", "lower"),
        header("Subject", "first"),
        header("Subject", "second"),
    ];
    assert_eq!(find_subject(&hs), Some("first".to_string()));
    assert_eq!(find_subject(&vec![header("subject", "x")]), None);
    assert_eq!(find_subject(&vec![]), None);
}

#[test]
fn summary_needs_payload_and_subject() {
    let m = message("m1", "t1", 512, Some(vec![header("Subject", "Hi")]));
    let s = summary_of(&m).unwrap();
    assert_eq!(s.title, "Hi");
    assert_eq!(s.size, 512);
    assert_eq!(s.thread_id, "t1");
    assert!(summary_of(&message("m2", "t2", 1, None)).is_none());
    assert!(summary_of(&message("m3", "t3", 1, Some(vec![header("From", "x")]))).is_none());
}

#[test]
fn failed_detail_is_dropped_and_order_kept() {
    let details: Vec<Result<Message, ApiError>> = vec![
        Ok(message("m1", "t1", 100, Some(vec![header("Subject", "one")]))),
        Err(ApiError),
        Ok(message("m3", "t3", 300, Some(vec![header("Subject", "three")]))),
    ];
    let r = collect_summaries(&details);
    assert_eq!(r.len(), 2);
    assert_eq!(r[0].title, "one");
    assert_eq!(r[0].size, 100);
    assert_eq!(r[1].title, "three");
    assert_eq!(r[1].thread_id, "t3");
}

#[test]
fn message_without_subject_is_dropped() {
    let details: Vec<Result<Message, ApiError>> = vec![
        Ok(message("m1", "t1", 1, None)),
        Ok(message("m2", "t2", 2, Some(vec![header("Subject", "two")]))),
    ];
    let r = collect_summaries(&details);
    assert_eq!(r.len(), 1);
    assert_eq!(r[0].title, "two");
}

#[test]
fn summarize_passes_cursor_on() {
    let details: Vec<Result<Message, ApiError>> =
        vec![Ok(message("m1", "t1", 5, Some(vec![header("Subject", "s")])))];
    match summarize(Ok(page(&["m1"], Some("next"))), &details) {
        SummaryOutcome::Listed { summaries, next_cursor } => {
            assert_eq!(summaries.len(), 1);
            assert_eq!(next_cursor, Some("next".to_string()));
        }
        SummaryOutcome::UpstreamFailed => panic!("listing succeeded"),
    }
}

#[test]
fn summarize_listing_failure() {
    let details: Vec<Result<Message, ApiError>> = vec![];
    let outcome = summarize(Err(ApiError), &details);
    assert!(matches!(outcome, SummaryOutcome::UpstreamFailed));
    let (list, cursor) = outcome.into_parts();
    assert!(list.is_empty());
    assert!(cursor.is_none());
}

#[test]
fn summarize_empty_listing_is_not_a_failure() {
    let details: Vec<Result<Message, ApiError>> = vec![];
    let outcome = summarize(Ok(page(&[], None)), &details);
    assert!(matches!(outcome, SummaryOutcome::Listed { .. }));
}

#[test]
fn profile_email_or_empty() {
    let p = Profile {
        email_address: "me@example.com".to_string(),
        messages_total: 3,
        threads_total: 2,
        history_id: "9".to_string(),
    };
    assert_eq!(user_from_profile(Ok(p)).email, "me@example.com");
    assert_eq!(user_from_profile(Err(ApiError)).email, "");
}
