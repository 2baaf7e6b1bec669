use fzvoid::auth::authorization_header;
use fzvoid::batch::{batch_references, parse_references, trim, BatchRun};
use fzvoid::endpoint::{fetch_base, fetch_url, is_sandbox_id, void_base, void_url, Url};
use fzvoid::envelope::{FetchPayload, ResponseEnvelope};
use fzvoid::outcome::VoidOutcome;
use fzvoid::params::{return_error, Mode, Params};
use fzvoid::workflow::{
    after_fetch, after_void, Method, Reply, Stage, VoidSession, REQUEST_TIMEOUT_SECS,
};

fn s(x: &str) -> String {
    x.to_string()
}

fn params(user: &str) -> Params {
    Params::from_inputs(s(user), s("secret"), Some(s("ignored")), None)
}

fn ok_with_id(id: &str) -> Reply {
    Reply::Decoded {
        envelope: ResponseEnvelope {
            successful: true,
            response: Some(FetchPayload { id: s(id) }),
            errors: None,
        },
    }
}

fn failed(msgs: &[&str]) -> Reply {
    Reply::Decoded {
        envelope: ResponseEnvelope {
            successful: false,
            response: None,
            errors: Some(msgs.iter().map(|m| s(m)).collect()),
        },
    }
}

fn voided_ok() -> Reply {
    Reply::Decoded {
        envelope: ResponseEnvelope { successful: true, response: None, errors: None },
    }
}

fn finished_line(session: &VoidSession) -> String {
    session.outcome().expect("finished").line()
}

#[test]
fn authorization_is_basic_base64_of_user_colon_token() {
    assert_eq!(authorization_header(&s("user"), &s("pass")), "Basic dXNlcjpwYXNz");
    assert_eq!(authorization_header(&s("TEST"), &s("abc123")), "Basic VEVTVDphYmMxMjM=");
    assert_eq!(authorization_header(&s(""), &s("")), "Basic Og==");
}

#[test]
fn sandbox_ids_select_sandbox_prefixes() {
    for m in ["SC-scnet", "TEST"] {
        assert!(is_sandbox_id(&s(m)));
        assert_eq!(fetch_base(&s(m)), "https://gateway.pmnts-sandbox.io/v1.0/purchases/");
        assert_eq!(void_base(&s(m)), "https://gateway.pmnts-sandbox.io/v1.0/purchases/void?id=");
    }
}

#[test]
fn other_ids_select_production_prefixes() {
    for m in ["LIVE-1", "test", "SC-SCNET", "", "TEST ", "sandbox"] {
        assert!(!is_sandbox_id(&s(m)));
        assert_eq!(fetch_base(&s(m)), "https://gateway.pmnts.io/v1.0/purchases/");
        assert_eq!(void_base(&s(m)), "https://gateway.pmnts.io/v1.0/purchases/void?id=");
        assert!(fetch_base(&s(m)).starts_with("https://gateway.pmnts.io/"));
        assert!(void_base(&s(m)).starts_with("https://gateway.pmnts.io/"));
    }
}

#[test]
fn url_struct_routes_by_merchant() {
    assert_eq!(
        Url::new().get_fetch_url(&s("TEST")),
        "https://gateway.pmnts-sandbox.io/v1.0/purchases/"
    );
    assert_eq!(
        Url::new().get_void_url(&s("LIVE-1")),
        "https://gateway.pmnts.io/v1.0/purchases/void?id="
    );
    assert_eq!(
        Url::default().get_void_url(&s("SC-scnet")),
        "https://gateway.pmnts-sandbox.io/v1.0/purchases/void?id="
    );
}

#[test]
fn urls_append_verbatim() {
    assert_eq!(
        fetch_url(&s("TEST"), &s("abc-1")),
        "https://gateway.pmnts-sandbox.io/v1.0/purchases/abc-1"
    );
    assert_eq!(
        void_url(&s("LIVE-1"), &s("txn 9")),
        "https://gateway.pmnts.io/v1.0/purchases/void?id=txn 9"
    );
}

#[test]
fn scenario_sandbox_fetch_then_void_succeeds() {
    let mut session = VoidSession::new(&params("TEST"), &s("abc-1"));
    let q = session.request().expect("fetch due");
    assert!(matches!(q.method, Method::Get));
    assert_eq!(q.url, "https://gateway.pmnts-sandbox.io/v1.0/purchases/abc-1");
    assert_eq!(q.authorization, authorization_header(&s("TEST"), &s("secret")));
    assert_eq!(q.accept, "application/json");
    assert_eq!(q.content_type, "application/json");
    assert_eq!(q.timeout_secs, 10);
    assert_eq!(REQUEST_TIMEOUT_SECS, 10);
    session.receive(ok_with_id("txn-9"));
    let q = session.request().expect("void due");
    assert!(matches!(q.method, Method::Post));
    assert_eq!(q.url, "https://gateway.pmnts-sandbox.io/v1.0/purchases/void?id=txn-9");
    assert_eq!(q.accept, "application/json");
    assert_eq!(q.content_type, "application/json");
    assert_eq!(q.timeout_secs, 10);
    session.receive(voided_ok());
    assert!(session.request().is_none());
    assert_eq!(session.requests, 2);
    assert_eq!(finished_line(&session), "abc-1 - Voided");
}

#[test]
fn scenario_production_fetch_fails_without_void() {
    let mut session = VoidSession::new(&params("LIVE-1"), &s("X"));
    let q = session.request().unwrap();
    assert_eq!(q.url, "https://gateway.pmnts.io/v1.0/purchases/X");
    session.receive(failed(&["not found"]));
    assert!(session.request().is_none());
    assert_eq!(session.requests, 1);
    assert!(matches!(
        session.outcome(),
        Some(VoidOutcome::FetchFailed { reference, message }) if reference == "X" && message == "not found"
    ));
    assert_eq!(finished_line(&session), "X - Voiding failed - \"not found\"");
}

#[test]
fn scenario_void_rejected() {
    let mut session = VoidSession::new(&params("TEST"), &s("y"));
    session.receive(ok_with_id("i"));
    assert_eq!(
        session.request().unwrap().url,
        "https://gateway.pmnts-sandbox.io/v1.0/purchases/void?id=i"
    );
    session.receive(failed(&["already voided", "second"]));
    assert_eq!(finished_line(&session), "y - Voiding failed - \"already voided\"");
}

#[test]
fn scenario_fetch_timeout_is_transport_error() {
    let mut session = VoidSession::new(&params("TEST"), &s("t"));
    session.receive(Reply::Transport { message: s("operation timed out") });
    assert!(matches!(session.stage, Stage::Finished { outcome: VoidOutcome::TransportError { .. } }));
    assert_eq!(finished_line(&session), "t - TransportError: operation timed out");
}

#[test]
fn successful_fetch_without_id_is_decode_error() {
    let no_payload = Reply::Decoded {
        envelope: ResponseEnvelope { successful: true, response: None, errors: None },
    };
    let r = after_fetch(&s("r"), no_payload);
    assert!(matches!(r, Err(VoidOutcome::DecodeError { .. })));
    let r = after_fetch(&s("r"), ok_with_id(""));
    match r {
        Err(o) => assert_eq!(o.line(), "r - DecodeError: response holds no transaction id"),
        Ok(_) => panic!("an empty id must not be voided"),
    }
}

#[test]
fn undecodable_replies_are_decode_errors() {
    let r = after_fetch(&s("abc"), Reply::Undecodable);
    assert!(matches!(
        &r,
        Err(VoidOutcome::DecodeError { reference, message })
            if reference == "abc" && message == "00Error voiding transaction: abc"
    ));
    let o = after_void(&s("r"), Reply::Undecodable);
    assert_eq!(o.line(), "r - DecodeError: 02Error voiding transaction: r");
    let o = after_void(&s("r"), Reply::Transport { message: s("dns") });
    assert_eq!(o.line(), "r - TransportError: dns");
}

#[test]
fn failure_without_errors_uses_placeholder() {
    let none = Reply::Decoded {
        envelope: ResponseEnvelope { successful: false, response: None, errors: None },
    };
    assert_eq!(
        after_void(&s("z"), none).line(),
        "z - Voiding failed - \"no error message\""
    );
    let r = after_fetch(&s("z"), failed(&[]));
    assert_eq!(r.err().unwrap().line(), "z - Voiding failed - \"no error message\"");
}

#[test]
fn fetch_success_yields_id() {
    assert_eq!(after_fetch(&s("r"), ok_with_id("abc")).ok(), Some(s("abc")));
}

fn rejected_line(message: &str) -> String {
    after_void(&s("q"), failed(&[message])).line()
}

#[test]
fn failure_messages_are_quoted_and_escaped() {
    assert_eq!(rejected_line("plain"), "q - Voiding failed - \"plain\"");
    assert_eq!(rejected_line(""), "q - Voiding failed - \"\"");
    assert_eq!(rejected_line("a\"b\\c\nd"), "q - Voiding failed - \"a\\\"b\\\\c\\nd\"");
    assert_eq!(rejected_line("nul\0x"), "q - Voiding failed - \"nul\\0x\"");
}

#[test]
fn trimming_strips_both_ends() {
    assert_eq!(trim("  r1 \t\r"), "r1");
    assert_eq!(trim("a b"), "a b");
    assert_eq!(trim("   "), "");
    assert_eq!(trim(""), "");
    assert_eq!(trim("\u{3000}r\u{a0}\u{2029}"), "r");
    assert_eq!(trim("\u{85}\u{2000}x y\u{200a}\u{202f}\u{205f}\u{1680}"), "x y");
}

#[test]
fn scenario_batch_file_order_skips_empty_lines() {
    assert_eq!(parse_references("r1\nr2\n\nr3\n"), vec![s("r1"), s("r2"), s("r3")]);
}

#[test]
fn references_are_trimmed_and_crlf_tolerated() {
    assert_eq!(parse_references(" a \r\n\r\n  \nb"), vec![s("a"), s("b")]);
    assert_eq!(parse_references("\u{3000}r\n\u{a0}\n"), vec![s("r")]);
    assert!(parse_references("").is_empty());
    assert!(parse_references("\n\n").is_empty());
}

#[test]
fn scenario_missing_batch_file_is_input_error() {
    let r = batch_references(None);
    assert_eq!(r, Err(s("Error opening file: please check file and path")));
}

#[test]
fn empty_batch_file_is_input_error() {
    assert!(batch_references(Some(s("\n  \n"))).is_err());
    assert_eq!(batch_references(Some(s("r1\n"))), Ok(vec![s("r1")]));
}

#[test]
fn return_error_joins_message_and_reference() {
    let r: Result<(), String> = return_error("Could not fetch transaction: ", &s("ref-7"));
    assert_eq!(r, Err(s("Could not fetch transaction: ref-7")));
}

#[test]
fn params_prefer_file_over_reference() {
    let p = Params::from_inputs(s("u"), s("t"), Some(s("r")), Some(s("refs.txt")));
    assert_eq!(p.filename, "refs.txt");
    assert_eq!(p.reference, "");
    assert!(matches!(p.mode(), Mode::Batch));
    let p = Params::from_inputs(s("u"), s("t"), Some(s("r")), None);
    assert_eq!(p.reference, "r");
    assert!(matches!(p.mode(), Mode::Single));
    let p = Params::from_inputs(s("u"), s("t"), None, None);
    assert!(matches!(p.mode(), Mode::Idle));
    let p = Params::new();
    assert_eq!(p.username, "");
}

#[test]
fn batch_issues_at_most_two_requests_per_reference() {
    let refs = vec![s("r1"), s("r2"), s("r3")];
    let mut run = BatchRun::new(params("TEST"), refs);
    // r1: fetch ok, void ok; r2: fetch fails; r3: fetch ok, void transport error.
    let replies = vec![
        ok_with_id("a"),
        voided_ok(),
        failed(&["not found"]),
        ok_with_id("c"),
        Reply::Transport { message: s("reset") },
    ];
    let mut urls = Vec::new();
    for reply in replies {
        urls.push(run.next_request().expect("request due").url);
        run.receive(reply);
    }
    assert!(run.next_request().is_none());
    assert_eq!(run.requests, 5);
    assert!(run.requests <= 2 * run.references.len());
    assert_eq!(
        urls,
        vec![
            s("https://gateway.pmnts-sandbox.io/v1.0/purchases/r1"),
            s("https://gateway.pmnts-sandbox.io/v1.0/purchases/void?id=a"),
            s("https://gateway.pmnts-sandbox.io/v1.0/purchases/r2"),
            s("https://gateway.pmnts-sandbox.io/v1.0/purchases/r3"),
            s("https://gateway.pmnts-sandbox.io/v1.0/purchases/void?id=c"),
        ]
    );
    assert_eq!(
        run.lines,
        vec![
            s("r1 - Voided"),
            s("r2 - Voiding failed - \"not found\""),
            s("r3 - TransportError: reset"),
        ]
    );
}

#[test]
fn empty_batch_is_done_at_once() {
    let run = BatchRun::new(params("TEST"), Vec::new());
    assert!(run.next_request().is_none());
    assert_eq!(run.lines.len(), 0);
}

#[test]
fn batch_file_runs_references_in_file_order() {
    let refs = batch_references(Some(s("r1\nr2\n\nr3\n"))).expect("references listed");
    let mut run = BatchRun::new(params("TEST"), refs);
    let mut gets = Vec::new();
    while let Some(q) = run.next_request() {
        assert!(matches!(q.method, Method::Get));
        gets.push(q.url);
        run.receive(Reply::Transport { message: s("down") });
    }
    assert_eq!(
        gets,
        vec![
            s("https://gateway.pmnts-sandbox.io/v1.0/purchases/r1"),
            s("https://gateway.pmnts-sandbox.io/v1.0/purchases/r2"),
            s("https://gateway.pmnts-sandbox.io/v1.0/purchases/r3"),
        ]
    );
    assert_eq!(run.lines.len(), 3);
    assert!(run.lines[2].starts_with("r3 - "));
}
