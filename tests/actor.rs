use kroeg::actor::{actor_document, actor_json_text};

#[test]
fn actor_document_minimal() {
    let d = actor_document("https://x/alice", &None, &None);
    assert_eq!(
        d,
        "{\"@id\":\"https://x/alice\",\"@type\":[\"https://www.w3.org/ns/activitystreams#Person\"]}"
    );
    let v: serde_json::Value = serde_json::from_str(&d).unwrap();
    assert_eq!(v["@id"], "https://x/alice");
}

#[test]
fn actor_document_with_names_escapes_values() {
    let d = actor_document(
        "https://x/alice",
        &Some("alice".to_string()),
        &Some("Alice \"A\" Liddell".to_string()),
    );
    let v: serde_json::Value = serde_json::from_str(&d).unwrap();
    assert_eq!(
        v["https://www.w3.org/ns/activitystreams#preferredUsername"][0]["@value"],
        "alice"
    );
    assert_eq!(
        v["https://www.w3.org/ns/activitystreams#name"][0]["@value"],
        "Alice \"A\" Liddell"
    );
    assert!(d.contains("\\\"A\\\""));
}

#[test]
fn actor_json_from_quoted_values() {
    assert_eq!(
        actor_json_text("\"i\"", None, Some("\"n\"")),
        "{\"@id\":\"i\",\"@type\":[\"https://www.w3.org/ns/activitystreams#Person\"],\"https://www.w3.org/ns/activitystreams#name\":[{\"@value\":\"n\"}]}"
    );
}

#[test]
fn control_characters_are_escaped() {
    let d = actor_document("a\nb\u{1}", &None, &None);
    assert!(d.starts_with("{\"@id\":\"a\\nb\\u0001\""));
}
