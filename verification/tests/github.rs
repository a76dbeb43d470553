use site_sync::github::{
    body_limit, read_payload, EventError, GitHubEvent, Payload, MAX_DIGIT_RUN,
};

fn s(text: &str) -> String {
    text.to_string()
}

fn empty() -> Payload {
    Payload { full_ref: None, head: None, after: None, zen: None, hook_id: None }
}

#[test]
fn new_event_has_no_fields() {
    let event = GitHubEvent::new(s("issues"), s("d-1"));
    assert_eq!(
        event,
        GitHubEvent {
            event_type: s("issues"),
            delivery: s("d-1"),
            full_ref: None,
            new_sha: None,
            zen: None,
            hook_id: None
        }
    );
}

#[test]
fn push_event_has_ref_and_sha() {
    let event = GitHubEvent::push(s("push"), s("d-2"), s("refs/heads/master"), s("abc123"));
    assert_eq!(
        event,
        GitHubEvent {
            event_type: s("push"),
            delivery: s("d-2"),
            full_ref: Some(s("refs/heads/master")),
            new_sha: Some(s("abc123")),
            zen: None,
            hook_id: None
        }
    );
}

#[test]
fn ping_event_has_zen_and_hook() {
    let event = GitHubEvent::ping(s("ping"), s("d-3"), s("Keep it logically awesome."), 42);
    assert_eq!(
        event,
        GitHubEvent {
            event_type: s("ping"),
            delivery: s("d-3"),
            full_ref: None,
            new_sha: None,
            zen: Some(s("Keep it logically awesome.")),
            hook_id: Some(42)
        }
    );
}

#[test]
fn body_is_read_only_for_ping_and_push_with_both_headers() {
    assert!(GitHubEvent::reads_body(Some("push"), Some("d")));
    assert!(GitHubEvent::reads_body(Some("ping"), Some("d")));
    assert!(!GitHubEvent::reads_body(Some("issues"), Some("d")));
    assert!(!GitHubEvent::reads_body(Some("pushed"), Some("d")));
    assert!(!GitHubEvent::reads_body(Some(""), Some("d")));
    assert!(!GitHubEvent::reads_body(Some("push"), None));
    assert!(!GitHubEvent::reads_body(None, Some("d")));
    assert!(!GitHubEvent::reads_body(None, None));
}

#[test]
fn delivery_without_headers_is_refused() {
    let body = r#"{"ref":"refs/heads/master","after":"abc"}"#;
    assert_eq!(GitHubEvent::from_data(None, Some("d"), body), Err(EventError::MissingHeaders));
    assert_eq!(GitHubEvent::from_data(Some("push"), None, body), Err(EventError::MissingHeaders));
    assert_eq!(GitHubEvent::from_data(None, None, body), Err(EventError::MissingHeaders));
}

#[test]
fn unhandled_type_gives_a_plain_event_whatever_the_body() {
    let expected = GitHubEvent::new(s("issues"), s("d-9"));
    assert_eq!(GitHubEvent::from_data(Some("issues"), Some("d-9"), "not json"), Ok(expected.clone()));
    assert_eq!(
        GitHubEvent::from_data(Some("issues"), Some("d-9"), r#"{"ref":"r","after":"a"}"#),
        Ok(expected)
    );
}

#[test]
fn push_is_read_from_ref_and_after() {
    let body = r#"{"ref":"refs/heads/master","before":"000","after":"6113728f27ae82c7b1a177c8d03f9e96e0adf246"}"#;
    assert_eq!(
        GitHubEvent::from_data(Some("push"), Some("d-4"), body),
        Ok(GitHubEvent::push(
            s("push"),
            s("d-4"),
            s("refs/heads/master"),
            s("6113728f27ae82c7b1a177c8d03f9e96e0adf246")
        ))
    );
}

#[test]
fn push_prefers_head_over_after() {
    let body = r#"{"after":"aaa","head":"hhh","ref":"refs/heads/main"}"#;
    assert_eq!(
        GitHubEvent::from_data(Some("push"), Some("d"), body),
        Ok(GitHubEvent::push(s("push"), s("d"), s("refs/heads/main"), s("hhh")))
    );
}

#[test]
fn push_without_commit_is_refused() {
    let body = r#"{"ref":"refs/heads/master"}"#;
    assert_eq!(GitHubEvent::from_data(Some("push"), Some("d"), body), Err(EventError::MissingSha));
    let body = r#"{"ref":"refs/heads/master","after":17,"head":null}"#;
    assert_eq!(GitHubEvent::from_data(Some("push"), Some("d"), body), Err(EventError::MissingSha));
}

#[test]
fn push_without_ref_is_refused_before_the_commit_is_looked_at() {
    assert_eq!(
        GitHubEvent::from_data(Some("push"), Some("d"), r#"{"after":"abc"}"#),
        Err(EventError::MissingRef)
    );
    assert_eq!(GitHubEvent::from_data(Some("push"), Some("d"), "{}"), Err(EventError::MissingRef));
    assert_eq!(GitHubEvent::from_data(Some("push"), Some("d"), "[1,2]"), Err(EventError::MissingRef));
}

#[test]
fn body_that_is_no_json_is_refused() {
    assert_eq!(GitHubEvent::from_data(Some("push"), Some("d"), "{"), Err(EventError::InvalidJson));
    assert_eq!(GitHubEvent::from_data(Some("ping"), Some("d"), ""), Err(EventError::InvalidJson));
    assert_eq!(
        GitHubEvent::from_data(Some("ping"), Some("d"), "ref=master"),
        Err(EventError::InvalidJson)
    );
}

#[test]
fn ping_is_read_from_zen_and_hook_id() {
    let body = r#"{"zen":"Design for failure.","hook_id":30,"hook":{"type":"Repository"}}"#;
    assert_eq!(
        GitHubEvent::from_data(Some("ping"), Some("d-5"), body),
        Ok(GitHubEvent::ping(s("ping"), s("d-5"), s("Design for failure."), 30))
    );
}

#[test]
fn ping_without_zen_or_hook_is_refused() {
    assert_eq!(
        GitHubEvent::from_data(Some("ping"), Some("d"), r#"{"hook_id":30}"#),
        Err(EventError::MissingZen)
    );
    assert_eq!(
        GitHubEvent::from_data(Some("ping"), Some("d"), r#"{"zen":"z"}"#),
        Err(EventError::MissingHookId)
    );
    assert_eq!(
        GitHubEvent::from_data(Some("ping"), Some("d"), r#"{"zen":"z","hook_id":"30"}"#),
        Err(EventError::MissingHookId)
    );
    assert_eq!(
        GitHubEvent::from_data(Some("ping"), Some("d"), r#"{"zen":"z","hook_id":-1}"#),
        Err(EventError::MissingHookId)
    );
    assert_eq!(
        GitHubEvent::from_data(Some("ping"), Some("d"), r#"{"zen":"z","hook_id":1.5}"#),
        Err(EventError::MissingHookId)
    );
}

#[test]
fn ping_takes_a_hook_id_as_large_as_an_index_can_be() {
    let body = format!("{{\"zen\":\"z\",\"hook_id\":{}}}", usize::MAX);
    assert_eq!(
        GitHubEvent::from_data(Some("ping"), Some("d"), &body),
        Ok(GitHubEvent::ping(s("ping"), s("d"), s("z"), usize::MAX))
    );
    assert_eq!(
        GitHubEvent::from_data(Some("ping"), Some("d"), r#"{"zen":"z","hook_id":0}"#),
        Ok(GitHubEvent::ping(s("ping"), s("d"), s("z"), 0))
    );
    assert_eq!(
        GitHubEvent::from_data(
            Some("ping"),
            Some("d"),
            r#"{"zen":"z","hook_id":18446744073709551616}"#
        ),
        Err(EventError::MissingHookId)
    );
}

#[test]
fn payload_holds_the_five_members() {
    let body = r#"{"ref":"r","head":"h","after":"a","zen":"z","hook_id":7,"other":true}"#;
    assert_eq!(
        read_payload(body),
        Ok(Payload {
            full_ref: Some(s("r")),
            head: Some(s("h")),
            after: Some(s("a")),
            zen: Some(s("z")),
            hook_id: Some(7)
        })
    );
}

#[test]
fn payload_of_a_document_without_members_is_empty() {
    assert_eq!(read_payload("{}"), Ok(empty()));
    assert_eq!(read_payload("null"), Ok(empty()));
    assert_eq!(read_payload("[\"ref\"]"), Ok(empty()));
    assert_eq!(read_payload("\"ref\""), Ok(empty()));
    assert_eq!(read_payload("12"), Ok(empty()));
}

#[test]
fn payload_skips_members_of_another_kind() {
    let body = r#"{"ref":1,"head":true,"after":null,"zen":["z"],"hook_id":"7"}"#;
    assert_eq!(read_payload(body), Ok(empty()));
}

#[test]
fn payload_takes_the_last_of_repeated_members() {
    assert_eq!(
        read_payload(r#"{"ref":"first","ref":"second"}"#),
        Ok(Payload { full_ref: Some(s("second")), ..empty() })
    );
}

#[test]
fn payload_decodes_escapes_in_strings() {
    assert_eq!(
        read_payload(r#"{"zen":"a\"bé\n"}"#),
        Ok(Payload { zen: Some(s("a\"b\u{e9}\n")), ..empty() })
    );
}

#[test]
fn payload_of_invalid_json_is_an_error() {
    assert_eq!(read_payload("{\"ref\":"), Err(EventError::InvalidJson));
    assert_eq!(read_payload(""), Err(EventError::InvalidJson));
}

#[test]
fn event_from_payload_follows_the_type() {
    let payload = Payload {
        full_ref: Some(s("r")),
        head: None,
        after: Some(s("a")),
        zen: Some(s("z")),
        hook_id: Some(7),
    };
    assert_eq!(
        GitHubEvent::from_payload("push", "d", payload.clone()),
        Ok(GitHubEvent::push(s("push"), s("d"), s("r"), s("a")))
    );
    assert_eq!(
        GitHubEvent::from_payload("ping", "d", payload.clone()),
        Ok(GitHubEvent::ping(s("ping"), s("d"), s("z"), 7))
    );
    assert_eq!(
        GitHubEvent::from_payload("release", "d", payload),
        Ok(GitHubEvent::new(s("release"), s("d")))
    );
}

#[test]
fn event_from_payload_names_what_is_missing() {
    assert_eq!(GitHubEvent::from_payload("push", "d", empty()), Err(EventError::MissingRef));
    assert_eq!(
        GitHubEvent::from_payload("push", "d", Payload { full_ref: Some(s("r")), ..empty() }),
        Err(EventError::MissingSha)
    );
    assert_eq!(GitHubEvent::from_payload("ping", "d", empty()), Err(EventError::MissingZen));
    assert_eq!(
        GitHubEvent::from_payload("ping", "d", Payload { zen: Some(s("z")), ..empty() }),
        Err(EventError::MissingHookId)
    );
}

#[test]
fn refusals_carry_status_and_message() {
    assert_eq!(EventError::MissingHeaders.status(), Some(400));
    assert_eq!(EventError::InvalidJson.status(), Some(400));
    assert_eq!(EventError::OverlongNumber.status(), Some(400));
    assert_eq!(
        EventError::OverlongNumber.message(),
        "body holds a number of too many digits"
    );
    assert_eq!(EventError::MissingSha.status(), Some(400));
    assert_eq!(EventError::MissingRef.status(), None);
    assert_eq!(EventError::MissingZen.status(), None);
    assert_eq!(EventError::MissingHookId.status(), None);
    assert_eq!(EventError::MissingHeaders.message(), "missing delivery or event type headers");
    assert_eq!(EventError::InvalidJson.message(), "body is not valid JSON");
    assert_eq!(EventError::MissingRef.message(), "'push' event missing 'ref' field");
    assert_eq!(EventError::MissingSha.message(), "push event missing 'head' and 'after' fields");
    assert_eq!(EventError::MissingZen.message(), "'ping' event missing 'zen' field");
    assert_eq!(EventError::MissingHookId.message(), "'ping' event missing 'hook_id' field");
}

#[test]
fn body_is_read_up_to_five_mebibytes() {
    assert_eq!(body_limit(), 5_242_880);
}

fn push_with_fraction(zeros: usize) -> String {
    format!("{{\"ref\":\"r\",\"after\":\"a\",\"size\":0.{}}}", "0".repeat(zeros))
}

#[test]
fn the_longest_run_of_digits_is_read() {
    assert_eq!(MAX_DIGIT_RUN, 32_767);
    let body = push_with_fraction(MAX_DIGIT_RUN);
    assert_eq!(
        GitHubEvent::from_data(Some("push"), Some("d"), &body),
        Ok(GitHubEvent::push(s("push"), s("d"), s("r"), s("a")))
    );
    assert!(read_payload(&body).is_ok());
}

#[test]
fn body_with_an_overlong_fraction_is_refused_unread() {
    for zeros in [MAX_DIGIT_RUN + 1, MAX_DIGIT_RUN + 2, 100_000] {
        let body = push_with_fraction(zeros);
        assert_eq!(
            GitHubEvent::from_data(Some("push"), Some("d"), &body),
            Err(EventError::OverlongNumber)
        );
        assert_eq!(read_payload(&body), Err(EventError::OverlongNumber));
    }
    let bare = format!("0.{}", "0".repeat(MAX_DIGIT_RUN + 2));
    assert_eq!(read_payload(&bare), Err(EventError::OverlongNumber));
}

#[test]
fn body_with_an_overlong_run_of_digits_anywhere_is_refused() {
    let digits = "1".repeat(MAX_DIGIT_RUN + 1);
    let in_string = format!("{{\"ref\":\"{}\",\"after\":\"a\"}}", digits);
    assert_eq!(
        GitHubEvent::from_data(Some("push"), Some("d"), &in_string),
        Err(EventError::OverlongNumber)
    );
    let no_json = format!("{{{}", digits);
    assert_eq!(read_payload(&no_json), Err(EventError::OverlongNumber));
}

#[test]
fn overlong_body_of_an_unhandled_type_is_not_looked_at() {
    let body = push_with_fraction(MAX_DIGIT_RUN + 1);
    assert_eq!(
        GitHubEvent::from_data(Some("issues"), Some("d"), &body),
        Ok(GitHubEvent::new(s("issues"), s("d")))
    );
}

#[test]
fn long_runs_of_digits_up_to_the_limit_are_read() {
    let digits = "1".repeat(MAX_DIGIT_RUN);
    let body = format!("{{\"ref\":\"{}\",\"after\":\"a\",\"big\":{}}}", digits, digits);
    assert_eq!(
        GitHubEvent::from_data(Some("push"), Some("d"), &body),
        Ok(GitHubEvent::push(s("push"), s("d"), digits.clone(), s("a")))
    );
}
