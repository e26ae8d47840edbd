use vstd::prelude::*;

use crate::encode::{json_quote, json_quoted};

verus! {

/// An optional property of the actor document, its value already quoted as
/// a JSON string.
pub open spec fn literal_property(iri: Seq<char>, quoted: Option<Seq<char>>) -> Seq<char> {
    match quoted {
        Some(q) => ",\""@ + iri + "\":[{\"@value\":"@ + q + "}]"@,
        None => Seq::empty(),
    }
}

/// The minimal expanded actor document: its id, the type Person, and the
/// preferred username and display name where given (all already quoted).
pub open spec fn actor_json(
    quoted_id: Seq<char>,
    quoted_username: Option<Seq<char>>,
    quoted_name: Option<Seq<char>>,
) -> Seq<char> {
    "{\"@id\":"@ + quoted_id + ",\"@type\":[\"https://www.w3.org/ns/activitystreams#Person\"]"@
        + literal_property("https://www.w3.org/ns/activitystreams#preferredUsername"@, quoted_username)
        + literal_property("https://www.w3.org/ns/activitystreams#name"@, quoted_name) + "}"@
}

pub open spec fn opt_view(s: Option<&str>) -> Option<Seq<char>> {
    match s {
        Some(t) => Some(t@),
        None => None,
    }
}

pub open spec fn quoted_opt(s: Option<Seq<char>>) -> Option<Seq<char>> {
    match s {
        Some(t) => Some(json_quoted(t)),
        None => None,
    }
}

fn append_literal(doc: &mut String, iri: &str, quoted: Option<&str>)
    ensures
        final(doc)@ == old(doc)@ + literal_property(iri@, opt_view(quoted)),
{
    match quoted {
        Some(q) => {
            doc.append(",\"");
            doc.append(iri);
            doc.append("\":[{\"@value\":");
            doc.append(q);
            doc.append("}]");
        },
        None => {
            assert(doc@ =~= doc@ + Seq::<char>::empty());
        },
    }
}

/// Writes the actor document from values already quoted as JSON strings.
pub fn actor_json_text(quoted_id: &str, quoted_username: Option<&str>, quoted_name: Option<&str>) -> (r:
    String)
    ensures
        r@ == actor_json(quoted_id@, opt_view(quoted_username), opt_view(quoted_name)),
{
    let mut doc = String::from_str("{\"@id\":");
    doc.append(quoted_id);
    doc.append(",\"@type\":[\"https://www.w3.org/ns/activitystreams#Person\"]");
    append_literal(
        &mut doc,
        "https://www.w3.org/ns/activitystreams#preferredUsername",
        quoted_username,
    );
    append_literal(&mut doc, "https://www.w3.org/ns/activitystreams#name", quoted_name);
    doc.append("}");
    doc
}

fn quote(s: &str) -> (r: String)
    ensures
        r@ == json_quoted(s@),
{
    match json_quote(s) {
        Ok(q) => q,
        Err(_) => String::new(),
    }
}

fn quote_opt(s: &Option<String>) -> (r: Option<String>)
    ensures
        r is Some == s is Some,
        r matches Some(t) ==> t@ == json_quoted(s->0@),
{
    match s {
        Some(t) => Some(quote(t.as_str())),
        None => None,
    }
}

pub open spec fn string_opt_view(s: Option<String>) -> Option<Seq<char>> {
    match s {
        Some(t) => Some(t@),
        None => None,
    }
}

/// The actor document for `id`, with its preferred username and display
/// name where given.
pub fn actor_document(id: &str, username: &Option<String>, name: &Option<String>) -> (r: String)
    ensures
        r@ == actor_json(
            json_quoted(id@),
            quoted_opt(string_opt_view(*username)),
            quoted_opt(string_opt_view(*name)),
        ),
{
    let qid = quote(id);
    let qu = quote_opt(username);
    let qn = quote_opt(name);
    let u = match &qu {
        Some(t) => Some(t.as_str()),
        None => None,
    };
    let n = match &qn {
        Some(t) => Some(t.as_str()),
        None => None,
    };
    actor_json_text(qid.as_str(), u, n)
}

} // verus!
