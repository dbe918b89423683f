use shook::events::{
    encode_event, kind_from_name, kind_name_string, Author, Commit, Committer,
    DecodeErrorKind, Event, EventKind, HeadCommit, NumberOrString, Pusher,
};
use shook::json::{parse_json, render_chars, JsonValue};
use shook::payload::{body_format, decode, BodyFormat};

fn chars_of(s: &str) -> Vec<char> {
    s.chars().collect()
}

fn text_of(v: &JsonValue) -> String {
    render_chars(v).into_iter().collect()
}

fn parse_text(s: &str) -> JsonValue {
    parse_json(chars_of(s).as_slice()).expect("text should parse")
}

const PING_BODY: &str = "{\"hook_id\":42,\"sender\":{\"login\":\"octocat\"},\"zen\":\"keep it logically awesome.\"}";

#[test]
fn ping_body_decodes_with_fields() {
    let body: Vec<u8> = PING_BODY.as_bytes().to_vec();
    let event = decode("application/json", "ping", &body).expect("ping should decode");
    match event {
        Event::Ping { hook, hook_id, zen, sender, .. } => {
            assert_eq!(hook, None);
            assert_eq!(hook_id, Some(42));
            assert_eq!(zen, "keep it logically awesome.".to_string());
            assert_eq!(text_of(&sender), "{\"login\":\"octocat\"}");
        },
        other => panic!("wrong variant: {:?}", other),
    }
}

#[test]
fn unknown_event_name_is_an_error_not_a_default() {
    let body: Vec<u8> = PING_BODY.as_bytes().to_vec();
    let err = decode("application/json", "zing", &body).unwrap_err();
    assert_eq!(err.kind, DecodeErrorKind::UnknownEventName);
    assert!(err.path.is_empty());
}

#[test]
fn unsupported_content_type_is_rejected_before_the_body() {
    let body: Vec<u8> = b"not even json".to_vec();
    let err = decode("text/plain", "ping", &body).unwrap_err();
    assert_eq!(err.kind, DecodeErrorKind::UnsupportedContentType);
    assert_eq!(body_format("application/json"), Some(BodyFormat::Json));
    assert_eq!(
        body_format("application/x-www-form-urlencoded"),
        Some(BodyFormat::Form)
    );
    assert_eq!(body_format("text/plain"), None);
}

#[test]
fn whitespace_in_the_body_is_normalized_away() {
    // the same ping with spacing and reordered members still decodes
    let body: Vec<u8> = b"{ \"zen\" : \"hi\" ,\n \"sender\" : null }".to_vec();
    let event = decode("application/json", "ping", &body).expect("spaced ping should decode");
    match event {
        Event::Ping { zen, .. } => assert_eq!(zen, "hi".to_string()),
        other => panic!("wrong variant: {:?}", other),
    }
}

#[test]
fn malformed_json_body_is_rejected_whole() {
    let body: Vec<u8> = b"{\"zen\": ".to_vec();
    let err = decode("application/json", "ping", &body).unwrap_err();
    assert_eq!(err.kind, DecodeErrorKind::MalformedBody);
}

#[test]
fn decode_error_names_the_failing_path() {
    // zen must be a string
    let body: Vec<u8> = b"{\"sender\":null,\"zen\":5}".to_vec();
    let err = decode("application/json", "ping", &body).unwrap_err();
    assert_eq!(err.path, vec!["ping".to_string(), "zen".to_string()]);
    assert_eq!(err.kind, DecodeErrorKind::WrongType);
    assert_eq!(err.path_text(), "ping.zen".to_string());
}

#[test]
fn nested_decode_error_path_reaches_the_field() {
    let body_text = "{\"after\":\"a\",\"before\":\"b\",\"commits\":[],\"compare\":\"c\",\"created\":true,\"deleted\":false,\"forced\":false,\"head_commit\":{\"author\":{\"email\":7,\"name\":\"n\"},\"committer\":{\"name\":\"n\"},\"distinct\":true,\"id\":\"i\",\"message\":\"m\",\"timestamp\":\"t\",\"tree_id\":\"r\",\"url\":\"u\"},\"pusher\":{\"name\":\"p\"},\"ref\":\"refs/heads/main\",\"repository\":{},\"sender\":{}}";
    let body: Vec<u8> = body_text.as_bytes().to_vec();
    let err = decode("application/json", "push", &body).unwrap_err();
    assert_eq!(err.path_text(), "push.head_commit.author.email".to_string());
    assert_eq!(err.kind, DecodeErrorKind::WrongType);
}

#[test]
fn form_encoded_body_decodes() {
    let body: Vec<u8> = b"zen=hello&sender=bot".to_vec();
    let event = decode("application/x-www-form-urlencoded", "ping", &body)
        .expect("form ping should decode");
    match event {
        Event::Ping { zen, .. } => assert_eq!(zen, "hello".to_string()),
        other => panic!("wrong variant: {:?}", other),
    }
}

#[test]
fn missing_required_field_is_reported() {
    let body: Vec<u8> = b"{\"zen\":\"z\"}".to_vec();
    let err = decode("application/json", "ping", &body).unwrap_err();
    assert_eq!(err.path_text(), "ping.sender".to_string());
    assert_eq!(err.kind, DecodeErrorKind::MissingField);
}

#[test]
fn integer_overflow_is_an_invalid_integer() {
    let body: Vec<u8> = b"{\"hook_id\":99999999999999999999,\"sender\":null,\"zen\":\"z\"}".to_vec();
    let err = decode("application/json", "ping", &body).unwrap_err();
    assert_eq!(err.path_text(), "ping.hook_id".to_string());
    assert_eq!(err.kind, DecodeErrorKind::InvalidInteger);
}

#[test]
fn placeholder_event_keeps_its_payload() {
    let text = "{\"action\":\"started\",\"repository\":{\"name\":\"shook\"}}";
    let body: Vec<u8> = text.as_bytes().to_vec();
    let event = decode("application/json", "watch", &body).expect("watch should decode");
    match &event {
        Event::Watch { payload } => assert_eq!(text_of(payload), text),
        other => panic!("wrong variant: {:?}", other),
    }
    let (name, payload) = encode_event(&event);
    assert_eq!(name, "watch".to_string());
    assert_eq!(text_of(&payload), text);
}

#[test]
fn rich_event_round_trips_through_serialization() {
    let author = Author {
        date: None,
        email: "o@example.com".to_string(),
        name: "octocat".to_string(),
        username: Some("octocat".to_string()),
    };
    let committer = Committer {
        date: None,
        email: None,
        name: "octocat".to_string(),
        username: None,
    };
    let commit = Commit {
        added: Some(vec!["a.rs".to_string()]),
        author: Author { ..author },
        committer: Committer { ..committer },
        distinct: true,
        id: "abc123".to_string(),
        message: "fix".to_string(),
        modified: None,
        removed: None,
        timestamp: "2024-01-01T00:00:00Z".to_string(),
        tree_id: "def456".to_string(),
        url: "https://example.com/c/abc123".to_string(),
    };
    let event = Event::Push {
        after: "abc123".to_string(),
        base_ref: None,
        before: "000000".to_string(),
        commits: vec![commit],
        compare: "https://example.com/compare".to_string(),
        created: false,
        deleted: false,
        enterprise: None,
        forced: false,
        head_commit: HeadCommit {
            added: None,
            author: Author {
                date: None,
                email: "o@example.com".to_string(),
                name: "octocat".to_string(),
                username: None,
            },
            committer: Committer {
                date: None,
                email: None,
                name: "octocat".to_string(),
                username: None,
            },
            distinct: true,
            id: "abc123".to_string(),
            message: "fix".to_string(),
            modified: None,
            removed: None,
            timestamp: "2024-01-01T00:00:00Z".to_string(),
            tree_id: "def456".to_string(),
            url: "https://example.com/c/abc123".to_string(),
        },
        installation: None,
        organization: None,
        pusher: Pusher {
            date: None,
            email: Some("o@example.com".to_string()),
            name: "octocat".to_string(),
            username: None,
        },
        git_ref: "refs/heads/main".to_string(),
        repository: parse_text("{\"name\":\"shook\"}"),
        sender: parse_text("{\"login\":\"octocat\"}"),
    };
    let (name, payload) = encode_event(&event);
    assert_eq!(name, "push".to_string());
    let body: Vec<u8> = text_of(&payload).into_bytes();
    let again = decode("application/json", &name, &body).expect("re-decode should succeed");
    assert_eq!(again, event);
}

#[test]
fn every_kind_name_round_trips() {
    let kinds = [
        EventKind::BranchProtectionRule,
        EventKind::Ping,
        EventKind::Push,
        EventKind::ProjectsV2Item,
        EventKind::WorkflowRun,
        EventKind::Watch,
    ];
    for k in kinds {
        let name = kind_name_string(k);
        assert_eq!(kind_from_name(&name), Some(k));
    }
    assert_eq!(kind_from_name("push"), Some(EventKind::Push));
    assert_eq!(kind_from_name("projects_v2"), Some(EventKind::ProjectsV2));
    assert_eq!(kind_from_name("nonsense"), None);
    assert_eq!(kind_from_name(""), None);
}

#[test]
fn default_event_is_an_empty_ping() {
    let e = Event::default();
    match e {
        Event::Ping { hook, hook_id, organization, repository, sender, zen } => {
            assert_eq!(hook, None);
            assert_eq!(hook_id, None);
            assert_eq!(organization, None);
            assert_eq!(repository, None);
            assert_eq!(sender, JsonValue::Null);
            assert_eq!(zen, String::new());
        },
        other => panic!("wrong variant: {:?}", other),
    }
    let n = NumberOrString::default();
    assert_eq!(n, NumberOrString::Text(String::new()));
}

#[test]
fn parser_round_trips_reference_rendering() {
    let raw = "{ \"a\": [1, -2.5, 1e30, \"x\\ny\\u0001\", true, null], \"b\": {\"nested\": {\"deep\": [\"\\\"quoted\\\"\", \"sla\\\\sh\"]}}, \"unicode\": \"caf\\u00e9 \\ud83d\\ude00\" }";
    let value: serde_json::Value = serde_json::from_str(raw).unwrap();
    let canon = serde_json::to_string(&value).unwrap();
    let parsed = parse_text(&canon);
    assert_eq!(text_of(&parsed), canon);
}
