use vstd::prelude::*;

use crate::lease::{LeasedConnection, ViewHandle, ViewKind, view_of};

verus! {

/// The principal a command runs as.
#[derive(Clone, Debug)]
pub struct User {
    pub issuer: Option<String>,
    pub subject: String,
    pub audience: Vec<String>,
    pub token_identifier: String,
    /// Claim names and values.
    pub claims: Vec<(String, String)>,
}

/// The principal that local commands run as: issued by `cli`, named by
/// `--user` or else `anonymous`, with no audience and no claims.
pub open spec fn is_cli_user(u: User, subject: Option<Seq<char>>) -> bool {
    &&& u.issuer matches Some(i) && i@ == "cli"@
    &&& u.subject@ == match subject {
        Some(s) => s,
        None => "anonymous"@,
    }
    &&& u.audience@.len() == 0
    &&& u.token_identifier@ == "cli"@
    &&& u.claims@.len() == 0
}

impl User {
    /// The principal for a local command, optionally named.
    pub fn cli(subject: Option<String>) -> (r: User)
        ensures
            is_cli_user(
                r,
                match subject {
                    Some(s) => Some(s@),
                    None => None,
                },
            ),
    {
        let subject = match subject {
            Some(s) => s,
            None => String::from_str("anonymous"),
        };
        User {
            issuer: Some(String::from_str("cli")),
            subject,
            audience: Vec::new(),
            token_identifier: String::from_str("cli"),
            claims: Vec::new(),
        }
    }
}

/// The server's identity, as configured.
#[derive(Clone, Debug)]
pub struct ServerIdentity {
    /// Canonical origin URI.
    pub base: String,
    pub name: String,
    pub description: String,
    /// Tag stamped on every item this instance creates.
    pub instance_id: u32,
}

/// The environment one command runs in: who runs it, which server it runs
/// on, and the two store views of the lease it borrows.
#[derive(Clone, Debug)]
pub struct Context {
    pub user: User,
    pub server_base: String,
    pub name: String,
    pub description: String,
    pub instance_id: u32,
    pub entity_store: ViewHandle,
    pub queue_store: ViewHandle,
}

impl Context {
    /// Assembles the context of one command from a live lease.
    pub fn assemble(lease: &LeasedConnection, user: User, server: &ServerIdentity) -> (r: Context)
        requires
            lease.wf(),
            lease@.live,
        ensures
            r.user == user,
            r.server_base@ == server.base@,
            r.name@ == server.name@,
            r.description@ == server.description@,
            r.instance_id == server.instance_id,
            r.entity_store == view_of(lease@.id, ViewKind::Entity),
            r.queue_store == view_of(lease@.id, ViewKind::Queue),
    {
        let (entity_store, queue_store) = lease.get().unwrap();
        Context {
            user,
            server_base: server.base.clone(),
            name: server.name.clone(),
            description: server.description.clone(),
            instance_id: server.instance_id,
            entity_store,
            queue_store,
        }
    }
}

} // verus!
