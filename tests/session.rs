use kroeg::command::{Command, Method, OutputFormat};
use kroeg::session::{Action, Event, Failure, Session, COLLECTION_LIMIT};
use kroeg::token::Pointer;

fn connected(command: Command) -> (Session, Action) {
    let (mut s, a) = Session::start(command);
    assert!(matches!(a, Action::Connect));
    let a = s.step(Event::Connected);
    (s, a)
}

fn done(a: Action) -> (String, String) {
    match a {
        Action::Done { output, report } => (output, report),
        other => panic!("expected Done, got {:?}", other),
    }
}

#[test]
fn set_entity_stores_and_reprints_expanded() {
    let input = "{\"@id\":\"https://x/note1\",\"@type\":[\"https://www.w3.org/ns/activitystreams#Note\"]}";
    let command = Command::entity("set", "https://x/note1".to_string(), false, "expand", None).unwrap();
    let (mut s, a) = connected(command);
    assert!(matches!(a, Action::ReadInput));
    match s.step(Event::Input(input.to_string())) {
        Action::Expand { document } => assert_eq!(document, input),
        other => panic!("{:?}", other),
    }
    let expanded = "[{\"@id\":\"https://x/note1\",\"@type\":[\"https://www.w3.org/ns/activitystreams#Note\"]}]";
    match s.step(Event::Expanded(expanded.to_string())) {
        Action::Store { id, expanded: e } => {
            assert_eq!(id, "https://x/note1");
            assert_eq!(e, expanded);
        }
        other => panic!("{:?}", other),
    }
    let stored = "{\"@id\":\"https://x/note1\",\"@type\":[\"https://www.w3.org/ns/activitystreams#Note\"]}";
    let (out, report) = done(s.step(Event::Stored(stored.to_string())));
    assert_eq!(out, format!("{}\n", stored));
    assert!(out.contains("\"@id\":\"https://x/note1\""));
    assert_eq!(report, "");
    assert!(s.is_finished());
}

#[test]
fn token_without_public_key_reports_and_succeeds() {
    let (mut s, a) = connected(Command::IssueToken { actor_id: "alice".to_string() });
    match a {
        Action::LoadPublicKey { actor_id } => assert_eq!(actor_id, "alice"),
        other => panic!("{:?}", other),
    }
    let (out, report) = done(s.step(Event::Values(Some(vec![]))));
    assert_eq!(out, "");
    assert_eq!(report, "Cannot create authentication for user: no key\n");
}

#[test]
fn token_without_private_key_reports_and_succeeds() {
    let (mut s, _) = connected(Command::IssueToken { actor_id: "alice".to_string() });
    match s.step(Event::Values(Some(vec![Pointer::Id("alice#key".to_string())]))) {
        Action::LoadPrivateKey { key_id } => assert_eq!(key_id, "alice#key"),
        other => panic!("{:?}", other),
    }
    let (out, report) = done(s.step(Event::Values(Some(vec![]))));
    assert_eq!(out, "");
    assert_eq!(report, "Cannot create authentication for user: no private key\n");
}

#[test]
fn token_with_absent_key_entity_reports_and_succeeds() {
    let (mut s, _) = connected(Command::IssueToken { actor_id: "alice".to_string() });
    s.step(Event::Values(Some(vec![Pointer::Id("alice#key".to_string())])));
    let (out, report) = done(s.step(Event::Values(None)));
    assert_eq!(out, "");
    assert_eq!(report, "Cannot create authentication for user: key not found\n");
}

#[test]
fn token_with_unreadable_key_fails() {
    let (mut s, _) = connected(Command::IssueToken { actor_id: "alice".to_string() });
    s.step(Event::Values(Some(vec![Pointer::Id("alice#key".to_string())])));
    let a = s.step(Event::Values(Some(vec![Pointer::Text("not a key".to_string())])));
    assert!(matches!(a, Action::Fail(Failure::SigningFailed)));
}

#[test]
fn token_with_missing_actor_fails() {
    let (mut s, _) = connected(Command::IssueToken { actor_id: "alice".to_string() });
    assert!(matches!(s.step(Event::Values(None)), Action::Fail(Failure::MissingEntity)));
}

#[test]
fn query_prints_tab_separated_rows() {
    let (mut s, a) = connected(Command::RunQuery { lines: vec!["?a ?b ?c".to_string()] });
    match a {
        Action::Query { lines } => assert_eq!(lines, vec!["?a ?b ?c".to_string()]),
        other => panic!("{:?}", other),
    }
    let rows = vec![vec!["x".to_string(), "y".to_string()], vec!["z".to_string()]];
    let (out, _) = done(s.step(Event::Rows(rows)));
    assert_eq!(out, "x\ty\nz\n");
}

#[test]
fn query_with_no_rows_is_no_error() {
    let (mut s, _) = connected(Command::RunQuery { lines: vec!["?a ?b ?c".to_string()] });
    let (out, report) = done(s.step(Event::Rows(vec![])));
    assert_eq!(out, "");
    assert_eq!(report, "");
}

#[test]
fn get_absent_entity_prints_nothing() {
    let command = Command::entity("get", "https://x/none".to_string(), false, "expand", None).unwrap();
    let (mut s, a) = connected(command);
    match a {
        Action::Fetch { id, local } => {
            assert_eq!(id, "https://x/none");
            assert!(local);
        }
        other => panic!("{:?}", other),
    }
    let (out, report) = done(s.step(Event::Fetched(None)));
    assert_eq!(out, "");
    assert_eq!(report, "");
}

#[test]
fn get_compact_goes_through_compaction() {
    let command = Command::entity("get", "https://x/a".to_string(), true, "compact", None).unwrap();
    let (mut s, a) = connected(command);
    assert!(matches!(a, Action::Fetch { local: false, .. }));
    match s.step(Event::Fetched(Some("{\"@id\":\"https://x/a\"}".to_string()))) {
        Action::Compact { document } => assert_eq!(document, "{\"@id\":\"https://x/a\"}"),
        other => panic!("{:?}", other),
    }
    let (out, _) = done(s.step(Event::Compacted("{\"id\":\"https://x/a\"}".to_string())));
    assert_eq!(out, "{\"id\":\"https://x/a\"}\n");
}

#[test]
fn list_reads_whole_collection() {
    let command = Command::entity("list", "https://x/c".to_string(), false, "expand", None).unwrap();
    let (mut s, a) = connected(command);
    match a {
        Action::ReadCollection { id, limit } => {
            assert_eq!(id, "https://x/c");
            assert_eq!(limit, 2147483647);
            assert_eq!(limit, i32::MAX as u32);
        }
        other => panic!("{:?}", other),
    }
    assert_eq!(COLLECTION_LIMIT, 2147483647);
    let (out, _) = done(s.step(Event::Members(vec!["https://x/a".to_string(), "https://x/b".to_string()])));
    assert_eq!(out, "https://x/a\nhttps://x/b\n");
}

#[test]
fn add_then_list_shows_item() {
    let add = Command::entity("add", "c".to_string(), false, "expand", Some("i".to_string())).unwrap();
    let (mut s, a) = connected(add);
    match a {
        Action::Insert { collection, item } => {
            assert_eq!(collection, "c");
            assert_eq!(item, "i");
        }
        other => panic!("{:?}", other),
    }
    assert_eq!(done(s.step(Event::Applied)).0, "");
    let (mut l, _) = connected(Command::ListCollection { id: "c".to_string() });
    let (out, _) = done(l.step(Event::Members(vec!["i".to_string()])));
    assert!(out.lines().any(|line| line == "i"));
}

#[test]
fn del_twice_is_no_error() {
    for _ in 0..2 {
        let del = Command::entity("del", "c".to_string(), false, "expand", Some("i".to_string())).unwrap();
        let (mut s, a) = connected(del);
        assert!(matches!(a, Action::Remove { .. }));
        assert_eq!(done(s.step(Event::Applied)), (String::new(), String::new()));
    }
}

#[test]
fn request_post_reads_body_and_prints_compact() {
    let command = Command::request("post", "https://x/outbox".to_string(), "compact", None).unwrap();
    let (mut s, a) = connected(command);
    assert!(matches!(a, Action::ReadInput));
    match s.step(Event::Input("{}".to_string())) {
        Action::Send { method, url, user, body } => {
            assert_eq!(method, Method::Post);
            assert_eq!(url, "https://x/outbox");
            assert_eq!(user.subject, "anonymous");
            assert_eq!(user.issuer.as_deref(), Some("cli"));
            assert_eq!(body, "{}");
        }
        other => panic!("{:?}", other),
    }
    let (out, _) = done(s.step(Event::Responded {
        status: "201 Created".to_string(),
        headers: vec![("location".to_string(), "https://x/1".to_string())],
        body: "{\"id\":\"https://x/1\"}".to_string(),
    }));
    assert_eq!(out, "HTTP/1.0 201 Created\nlocation: https://x/1\n\n{\"id\":\"https://x/1\"}");
}

#[test]
fn request_get_expands_body() {
    let command = Command::request("get", "https://x/a".to_string(), "expand", Some("bob".to_string())).unwrap();
    let (mut s, a) = connected(command);
    match a {
        Action::Send { method, user, body, .. } => {
            assert_eq!(method, Method::Get);
            assert_eq!(user.subject, "bob");
            assert_eq!(body, "");
        }
        other => panic!("{:?}", other),
    }
    match s.step(Event::Responded { status: "200 OK".to_string(), headers: vec![], body: "{}".to_string() }) {
        Action::Expand { document } => assert_eq!(document, "{}"),
        other => panic!("{:?}", other),
    }
    let (out, _) = done(s.step(Event::Expanded("[]".to_string())));
    assert_eq!(out, "HTTP/1.0 200 OK\n\n[]\n");
}

#[test]
fn create_actor_prints_done() {
    let command = Command::actor("create", "https://x/alice".to_string(), Some("alice".to_string()), None).unwrap();
    let (mut s, a) = connected(command);
    match a {
        Action::CreateActor { id, document, user } => {
            assert_eq!(id, "https://x/alice");
            assert!(document.starts_with("{\"@id\":\"https://x/alice\""));
            assert_eq!(user.subject, "anonymous");
        }
        other => panic!("{:?}", other),
    }
    match s.step(Event::Applied) {
        Action::SetUpActor { id, user } => {
            assert_eq!(id, "https://x/alice");
            assert_eq!(user.subject, "anonymous");
        }
        other => panic!("{:?}", other),
    }
    assert_eq!(done(s.step(Event::Applied)).0, "done\n");
}

#[test]
fn failed_actor_setup_is_named() {
    let command = Command::actor("create", "https://x/alice".to_string(), None, None).unwrap();
    let (mut s, _) = connected(command);
    s.step(Event::Applied);
    let a = s.step(Event::Failed);
    assert!(matches!(a, Action::Fail(Failure::ActorSetupFailed)));
    assert_eq!(Failure::ActorSetupFailed.message(), "actor: the actor-creation handler failed");
}

#[test]
fn failures_name_their_step() {
    let (mut s, _) = Session::start(Command::ListCollection { id: "c".to_string() });
    assert!(matches!(s.step(Event::Failed), Action::Fail(Failure::ConnectionFailed)));
    assert!(matches!(s.step(Event::Connected), Action::Fail(Failure::OutOfOrder)));
    let set = Command::SetEntity { id: "i".to_string(), format: OutputFormat::Expand };
    let (mut s, _) = connected(set.clone());
    assert!(matches!(s.step(Event::Failed), Action::Fail(Failure::ReadFailed)));
    let (mut s, _) = connected(set);
    s.step(Event::Input("x".to_string()));
    assert!(matches!(s.step(Event::Malformed), Action::Fail(Failure::ParseFailed)));
    let (mut s, _) = connected(Command::ListCollection { id: "c".to_string() });
    assert!(matches!(s.step(Event::Failed), Action::Fail(Failure::StoreFailed)));
    assert_eq!(Failure::ConnectionFailed.message(), "connect: database connection failed");
    assert_eq!(Failure::ParseFailed.message(), "parse: could not interpret the document");
    assert_eq!(Failure::StoreFailed.message(), "store: the backend rejected the operation");
}

#[test]
fn set_and_get_print_the_same_document() {
    let doc = "{\"@id\":\"https://x/note1\"}".to_string();
    for format in ["expand", "compact"] {
        let set = Command::entity("set", "https://x/note1".to_string(), false, format, None).unwrap();
        let (mut s, _) = connected(set);
        s.step(Event::Input(doc.clone()));
        s.step(Event::Expanded(doc.clone()));
        let printed_by_set = format!("{:?}", s.step(Event::Stored(doc.clone())));
        let get = Command::entity("get", "https://x/note1".to_string(), false, format, None).unwrap();
        let (mut g, _) = connected(get);
        let printed_by_get = format!("{:?}", g.step(Event::Fetched(Some(doc.clone()))));
        assert_eq!(printed_by_set, printed_by_get);
    }
}

#[test]
fn sessions_end_with_an_outcome() {
    let (mut s, _) = connected(Command::ListCollection { id: "c".to_string() });
    assert!(!s.is_finished());
    let a = s.step(Event::Members(vec![]));
    assert!(matches!(a, Action::Done { .. }));
    assert!(s.is_finished());
    assert!(matches!(s.step(Event::Applied), Action::Fail(Failure::OutOfOrder)));
    assert!(s.is_finished());
}
