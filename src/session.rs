use vstd::prelude::*;

use crate::actor::{actor_document, actor_json, quoted_opt, string_opt_view};
use crate::command::{Command, Method, OutputFormat};
use crate::context::{User, is_cli_user};
use crate::encode::json_quoted;
use crate::output::{lines_of, member_lines, query_rows, response_head, response_head_of, rows_of};
use crate::token::{
    MissingKeyMaterial, Pointer, TokenOutcome, TokenStep, after_actor, after_key,
    missing_key_text, pem_fits, signed_token, sole_reference, sole_text,
};

verus! {

/// The page size with which a collection is read whole: the largest
/// 32-bit signed value.
pub const COLLECTION_LIMIT: u32 = 2147483647;

/// Why a command stopped. Each names the step that failed.
#[derive(Clone, Copy, Debug, PartialEq, Eq, Structural)]
pub enum Failure {
    /// No backend session could be established.
    ConnectionFailed,
    /// Standard input could not be read.
    ReadFailed,
    /// A document could not be interpreted.
    ParseFailed,
    /// The backend rejected a read or a write.
    StoreFailed,
    /// The request handler failed.
    RequestFailed,
    /// The actor-creation handler failed.
    ActorSetupFailed,
    /// An entity the command needs does not exist.
    MissingEntity,
    /// The key could not sign.
    SigningFailed,
    /// An event came that the session was not waiting for.
    OutOfOrder,
}

pub open spec fn failure_text(f: Failure) -> Seq<char> {
    match f {
        Failure::ConnectionFailed => "connect: database connection failed"@,
        Failure::ReadFailed => "read: could not read standard input"@,
        Failure::ParseFailed => "parse: could not interpret the document"@,
        Failure::StoreFailed => "store: the backend rejected the operation"@,
        Failure::RequestFailed => "request: the handler failed"@,
        Failure::ActorSetupFailed => "actor: the actor-creation handler failed"@,
        Failure::MissingEntity => "store: entity not found"@,
        Failure::SigningFailed => "sign: the private key could not sign"@,
        Failure::OutOfOrder => "dispatch: unexpected event"@,
    }
}

impl Failure {
    /// The diagnostic for the operator, naming the step that failed.
    pub fn message(&self) -> (r: String)
        ensures
            r@ == failure_text(*self),
    {
        match self {
            Failure::ConnectionFailed => String::from_str("connect: database connection failed"),
            Failure::ReadFailed => String::from_str("read: could not read standard input"),
            Failure::ParseFailed => String::from_str("parse: could not interpret the document"),
            Failure::StoreFailed => String::from_str("store: the backend rejected the operation"),
            Failure::RequestFailed => String::from_str("request: the handler failed"),
            Failure::ActorSetupFailed => String::from_str(
                "actor: the actor-creation handler failed",
            ),
            Failure::MissingEntity => String::from_str("store: entity not found"),
            Failure::SigningFailed => String::from_str("sign: the private key could not sign"),
            Failure::OutOfOrder => String::from_str("dispatch: unexpected event"),
        }
    }
}

/// What the caller is to do next on behalf of a session.
#[derive(Clone, Debug)]
pub enum Action {
    /// Lease a connection from the pool.
    Connect,
    /// Fetch one entity; `local` keeps resolution to stored entities.
    Fetch { id: String, local: bool },
    /// Read all of standard input.
    ReadInput,
    /// Expand a JSON document as JSON-LD.
    Expand { document: String },
    /// Compact a JSON-LD document against the server's context.
    Compact { document: String },
    /// Interpret an expanded document as the store item `id` and store it.
    Store { id: String, expanded: String },
    /// Read the members of a collection, at most `limit` of them.
    ReadCollection { id: String, limit: u32 },
    /// Insert a member into a collection.
    Insert { collection: String, item: String },
    /// Remove a member from a collection.
    Remove { collection: String, item: String },
    /// Run raw query lines on the backend.
    Query { lines: Vec<String> },
    /// Run the request handler, in a context for `user`.
    Send { method: Method, url: String, user: User, body: String },
    /// Untangle the document of actor `id`, stamp its items with the
    /// instance id and store them, in a context for `user`.
    CreateActor { id: String, document: String, user: User },
    /// Run the actor-creation handler on actor `id`, in a context for `user`.
    SetUpActor { id: String, user: User },
    /// Load the actor and hand back the values of its `publicKey`.
    LoadPublicKey { actor_id: String },
    /// Load the key and hand back the values of its `privateKeyPem`.
    LoadPrivateKey { key_id: String },
    /// Print `output` to standard output and `report` to standard error,
    /// and end successfully.
    Done { output: String, report: String },
    /// Report the failure and end unsuccessfully.
    Fail(Failure),
}

/// What the caller hands back after performing an action.
#[derive(Clone, Debug)]
pub enum Event {
    Connected,
    Fetched(Option<String>),
    Input(String),
    Expanded(String),
    Stored(String),
    Members(Vec<String>),
    Applied,
    Rows(Vec<Vec<String>>),
    Responded { status: String, headers: Vec<(String, String)>, body: String },
    Compacted(String),
    /// The values of the property asked for; `None` when the entity is absent.
    Values(Option<Vec<Pointer>>),
    /// The input could not be interpreted.
    Malformed,
    /// The action failed.
    Failed,
}

/// Where a session stands.
#[derive(Clone, Debug)]
pub enum Phase {
    Connecting,
    Fetching,
    Reading,
    Expanding,
    Storing,
    Listing,
    Applying,
    /// Running the actor-creation handler.
    SettingUp,
    Querying,
    Requesting,
    /// Expanding a response body; `head` is printed before it.
    ExpandingBody { head: String },
    Compacting,
    LoadingActor,
    LoadingKey { key_id: String },
    Finished,
}

pub open spec fn done_with(a: Action, output: Seq<char>, report: Seq<char>) -> bool {
    a matches Action::Done { output: o, report: r } && o@ == output && r@ == report
}

/// Prints a document in `format`: as it is, or after compaction.
pub open spec fn render(format: OutputFormat, doc: Seq<char>, a: Action, p: Phase) -> bool {
    match format {
        OutputFormat::Expand => done_with(a, doc + "\n"@, Seq::empty()) && p is Finished,
        OutputFormat::Compact => (a matches Action::Compact { document } && document@ == doc)
            && p is Compacting,
    }
}

/// The failure that `Failed` means in phase `p`.
pub open spec fn failure_in(p: Phase) -> Failure {
    match p {
        Phase::Connecting => Failure::ConnectionFailed,
        Phase::Reading => Failure::ReadFailed,
        Phase::Expanding | Phase::ExpandingBody { .. } | Phase::Compacting => Failure::ParseFailed,
        Phase::Requesting => Failure::RequestFailed,
        Phase::SettingUp => Failure::ActorSetupFailed,
        _ => Failure::StoreFailed,
    }
}

/// The first action of a command, once connected.
pub open spec fn first_step(c: Command, a: Action, p: Phase) -> bool {
    match c {
        Command::GetEntity { id, local, .. } => (a matches Action::Fetch { id: i, local: l } && i@
            == id@ && l == local) && p is Fetching,
        Command::SetEntity { .. } => a is ReadInput && p is Reading,
        Command::ListCollection { id } => (a matches Action::ReadCollection { id: i, limit } && i@
            == id@ && limit == COLLECTION_LIMIT) && p is Listing,
        Command::AddToCollection { id, item } => (a matches Action::Insert {
            collection,
            item: m,
        } && collection@ == id@ && m@ == item@) && p is Applying,
        Command::RemoveFromCollection { id, item } => (a matches Action::Remove {
            collection,
            item: m,
        } && collection@ == id@ && m@ == item@) && p is Applying,
        Command::SimulateRequest { method, url, user, .. } => match method {
            Method::Get => (a matches Action::Send { method: m, url: u, user: who, body } && m
                == Method::Get && u@ == url@ && is_cli_user(who, string_opt_view(user)) && body@
                == Seq::<char>::empty()) && p is Requesting,
            Method::Post => a is ReadInput && p is Reading,
        },
        Command::CreateActor { id, username, display_name } => (a matches Action::CreateActor {
            id: i,
            document,
            user,
        } && i@ == id@ && document@ == actor_json(
            json_quoted(id@),
            quoted_opt(string_opt_view(username)),
            quoted_opt(string_opt_view(display_name)),
        ) && is_cli_user(user, None)) && p is Applying,
        Command::IssueToken { actor_id } => (a matches Action::LoadPublicKey { actor_id: i } && i@
            == actor_id@) && p is LoadingActor,
        Command::RunQuery { lines } => (a matches Action::Query { lines: ls } && ls@ == lines@)
            && p is Querying,
    }
}

/// The steps a session takes: from command `c` in phase `p`, event `e`
/// leads to action `a` and phase `q`.
pub open spec fn step_spec(c: Command, p: Phase, e: Event, a: Action, q: Phase) -> bool {
    if p is Finished {
        a == Action::Fail(Failure::OutOfOrder) && q is Finished
    } else if e is Malformed {
        a == Action::Fail(Failure::ParseFailed) && q is Finished
    } else if e is Failed {
        a == Action::Fail(failure_in(p)) && q is Finished
    } else {
        match (p, e) {
            (Phase::Connecting, Event::Connected) => first_step(c, a, q),
            (Phase::Fetching, Event::Fetched(found)) => match (c, found) {
                (Command::GetEntity { format, .. }, Some(doc)) => render(format, doc@, a, q),
                (Command::GetEntity { .. }, None) => done_with(a, Seq::empty(), Seq::empty())
                    && q is Finished,
                _ => a == Action::Fail(Failure::OutOfOrder) && q is Finished,
            },
            (Phase::Reading, Event::Input(text)) => match c {
                Command::SetEntity { .. } => (a matches Action::Expand { document }
                    && document@ == text@) && q is Expanding,
                Command::SimulateRequest { method: Method::Post, url, user, .. } => (a matches Action::Send {
                    method: m,
                    url: u,
                    user: who,
                    body,
                } && m == Method::Post && u@ == url@ && is_cli_user(who, string_opt_view(user))
                    && body@ == text@) && q is Requesting,
                _ => a == Action::Fail(Failure::OutOfOrder) && q is Finished,
            },
            (Phase::Expanding, Event::Expanded(doc)) => match c {
                Command::SetEntity { id, .. } => (a matches Action::Store { id: i, expanded }
                    && i@ == id@ && expanded@ == doc@) && q is Storing,
                _ => a == Action::Fail(Failure::OutOfOrder) && q is Finished,
            },
            (Phase::Storing, Event::Stored(doc)) => match c {
                Command::SetEntity { format, .. } => render(format, doc@, a, q),
                _ => a == Action::Fail(Failure::OutOfOrder) && q is Finished,
            },
            (Phase::Compacting, Event::Compacted(doc)) => done_with(
                a,
                doc@ + "\n"@,
                Seq::empty(),
            ) && q is Finished,
            (Phase::Listing, Event::Members(items)) => done_with(a, lines_of(items@), Seq::empty())
                && q is Finished,
            (Phase::Applying, Event::Applied) => match c {
                Command::CreateActor { id, .. } => (a matches Action::SetUpActor { id: i, user }
                    && i@ == id@ && is_cli_user(user, None)) && q is SettingUp,
                _ => done_with(a, Seq::empty(), Seq::empty()) && q is Finished,
            },
            (Phase::SettingUp, Event::Applied) => match c {
                Command::CreateActor { .. } => done_with(a, "done\n"@, Seq::empty())
                    && q is Finished,
                _ => a == Action::Fail(Failure::OutOfOrder) && q is Finished,
            },
            (Phase::Querying, Event::Rows(rows)) => done_with(a, rows_of(rows@), Seq::empty())
                && q is Finished,
            (Phase::Requesting, Event::Responded { status, headers, body }) => match c {
                Command::SimulateRequest { format: OutputFormat::Compact, .. } => done_with(
                    a,
                    response_head_of(status@, headers@) + body@,
                    Seq::empty(),
                ) && q is Finished,
                Command::SimulateRequest { format: OutputFormat::Expand, .. } => (a matches Action::Expand {
                    document,
                } && document@ == body@) && (q matches Phase::ExpandingBody { head } && head@
                    == response_head_of(status@, headers@)),
                _ => a == Action::Fail(Failure::OutOfOrder) && q is Finished,
            },
            (Phase::ExpandingBody { head }, Event::Expanded(doc)) => done_with(
                a,
                head@ + doc@ + "\n"@,
                Seq::empty(),
            ) && q is Finished,
            (Phase::LoadingActor, Event::Values(found)) => match found {
                None => a == Action::Fail(Failure::MissingEntity) && q is Finished,
                Some(values) => match sole_reference(values@) {
                    Some(k) => (a matches Action::LoadPrivateKey { key_id } && key_id@ == k) && (q matches Phase::LoadingKey {
                        key_id,
                    } && key_id@ == k),
                    None => done_with(
                        a,
                        Seq::empty(),
                        missing_key_text(MissingKeyMaterial::NoKey) + "\n"@,
                    ) && q is Finished,
                },
            },
            (Phase::LoadingKey { key_id }, Event::Values(found)) => match (c, found) {
                (_, None) => done_with(
                    a,
                    Seq::empty(),
                    missing_key_text(MissingKeyMaterial::KeyNotFound) + "\n"@,
                ) && q is Finished,
                (Command::IssueToken { actor_id }, Some(values)) => match sole_text(values@) {
                    None => done_with(
                        a,
                        Seq::empty(),
                        missing_key_text(MissingKeyMaterial::NoPrivateKey) + "\n"@,
                    ) && q is Finished,
                    Some(pem) => q is Finished && if pem_fits(pem) {
                        done_with(a, signed_token(key_id@, actor_id@, pem) + "\n"@, Seq::empty())
                            || a == Action::Fail(Failure::SigningFailed)
                    } else {
                        a == Action::Fail(Failure::SigningFailed)
                    },
                },
                _ => a == Action::Fail(Failure::OutOfOrder) && q is Finished,
            },
            _ => a == Action::Fail(Failure::OutOfOrder) && q is Finished,
        }
    }
}


fn done(output: String) -> (r: Action)
    ensures
        done_with(r, output@, Seq::empty()),
{
    Action::Done { output, report: String::new() }
}

fn line(text: &str) -> (r: String)
    ensures
        r@ == text@ + "\n"@,
{
    let mut r = String::from_str(text);
    r.append("\n");
    r
}

fn render_exec(format: OutputFormat, doc: String) -> (r: (Action, Phase))
    ensures
        render(format, doc@, r.0, r.1),
{
    match format {
        OutputFormat::Expand => (done(line(doc.as_str())), Phase::Finished),
        OutputFormat::Compact => (Action::Compact { document: doc }, Phase::Compacting),
    }
}

fn out_of_order() -> (r: (Action, Phase))
    ensures
        r.0 == Action::Fail(Failure::OutOfOrder),
        r.1 is Finished,
{
    (Action::Fail(Failure::OutOfOrder), Phase::Finished)
}

fn first_exec(c: &Command) -> (r: (Action, Phase))
    ensures
        first_step(*c, r.0, r.1),
{
    match c {
        Command::GetEntity { id, local, .. } => (
            Action::Fetch { id: id.clone(), local: *local },
            Phase::Fetching,
        ),
        Command::SetEntity { .. } => (Action::ReadInput, Phase::Reading),
        Command::ListCollection { id } => (
            Action::ReadCollection { id: id.clone(), limit: COLLECTION_LIMIT },
            Phase::Listing,
        ),
        Command::AddToCollection { id, item } => (
            Action::Insert { collection: id.clone(), item: item.clone() },
            Phase::Applying,
        ),
        Command::RemoveFromCollection { id, item } => (
            Action::Remove { collection: id.clone(), item: item.clone() },
            Phase::Applying,
        ),
        Command::SimulateRequest { method, url, user, .. } => match method {
            Method::Get => (
                Action::Send {
                    method: Method::Get,
                    url: url.clone(),
                    user: User::cli(user.clone()),
                    body: String::new(),
                },
                Phase::Requesting,
            ),
            Method::Post => (Action::ReadInput, Phase::Reading),
        },
        Command::CreateActor { id, username, display_name } => (
            Action::CreateActor {
                id: id.clone(),
                document: actor_document(id.as_str(), username, display_name),
                user: User::cli(None),
            },
            Phase::Applying,
        ),
        Command::IssueToken { actor_id } => (
            Action::LoadPublicKey { actor_id: actor_id.clone() },
            Phase::LoadingActor,
        ),
        Command::RunQuery { lines } => (Action::Query { lines: lines.clone() }, Phase::Querying),
    }
}

/// The dispatcher's state for one command: the command, and where it
/// stands.
pub struct Session {
    command: Command,
    phase: Phase,
}

pub struct SessionModel {
    pub command: Command,
    pub phase: Phase,
}

impl View for Session {
    type V = SessionModel;

    closed spec fn view(&self) -> SessionModel {
        SessionModel { command: self.command, phase: self.phase }
    }
}

impl Session {
    /// Starts dispatching `command`: the first action is always to lease a
    /// connection.
    pub fn start(command: Command) -> (r: (Session, Action))
        ensures
            r.0@.command == command,
            r.0@.phase is Connecting,
            r.1 is Connect,
    {
        (Session { command, phase: Phase::Connecting }, Action::Connect)
    }

    pub fn is_finished(&self) -> (r: bool)
        ensures
            r == self@.phase is Finished,
    {
        match self.phase {
            Phase::Finished => true,
            _ => false,
        }
    }

    /// Takes the outcome of the last action and says what to do next.
    pub fn step(&mut self, event: Event) -> (a: Action)
        ensures
            final(self)@.command == old(self)@.command,
            step_spec(old(self)@.command, old(self)@.phase, event, a, final(self)@.phase),
    {
        let mut phase = Phase::Finished;
        core::mem::swap(&mut phase, &mut self.phase);
        let (a, q) = match phase {
            Phase::Finished => out_of_order(),
            _ => match event {
                Event::Malformed => (Action::Fail(Failure::ParseFailed), Phase::Finished),
                Event::Failed => (Action::Fail(Self::failure_of(&phase)), Phase::Finished),
                _ => self.advance(phase, event),
            },
        };
        self.phase = q;
        a
    }

    fn failure_of(p: &Phase) -> (r: Failure)
        ensures
            r == failure_in(*p),
    {
        match p {
            Phase::Connecting => Failure::ConnectionFailed,
            Phase::Reading => Failure::ReadFailed,
            Phase::Expanding | Phase::ExpandingBody { .. } | Phase::Compacting => Failure::ParseFailed,
            Phase::Requesting => Failure::RequestFailed,
            Phase::SettingUp => Failure::ActorSetupFailed,
            _ => Failure::StoreFailed,
        }
    }

    fn advance(&self, p: Phase, e: Event) -> (r: (Action, Phase))
        requires
            !(p is Finished),
            !(e is Malformed),
            !(e is Failed),
        ensures
            step_spec(self.command, p, e, r.0, r.1),
    {
        match (p, e) {
            (Phase::Connecting, Event::Connected) => first_exec(&self.command),
            (Phase::Fetching, Event::Fetched(found)) => match (&self.command, found) {
                (Command::GetEntity { format, .. }, Some(doc)) => render_exec(*format, doc),
                (Command::GetEntity { .. }, None) => (done(String::new()), Phase::Finished),
                _ => out_of_order(),
            },
            (Phase::Reading, Event::Input(text)) => match &self.command {
                Command::SetEntity { .. } => (Action::Expand { document: text }, Phase::Expanding),
                Command::SimulateRequest { method: Method::Post, url, user, .. } => (
                    Action::Send {
                        method: Method::Post,
                        url: url.clone(),
                        user: User::cli(user.clone()),
                        body: text,
                    },
                    Phase::Requesting,
                ),
                _ => out_of_order(),
            },
            (Phase::Expanding, Event::Expanded(doc)) => match &self.command {
                Command::SetEntity { id, .. } => (
                    Action::Store { id: id.clone(), expanded: doc },
                    Phase::Storing,
                ),
                _ => out_of_order(),
            },
            (Phase::Storing, Event::Stored(doc)) => match &self.command {
                Command::SetEntity { format, .. } => render_exec(*format, doc),
                _ => out_of_order(),
            },
            (Phase::Compacting, Event::Compacted(doc)) => (
                done(line(doc.as_str())),
                Phase::Finished,
            ),
            (Phase::Listing, Event::Members(items)) => (
                done(member_lines(&items)),
                Phase::Finished,
            ),
            (Phase::Applying, Event::Applied) => match &self.command {
                Command::CreateActor { id, .. } => (
                    Action::SetUpActor { id: id.clone(), user: User::cli(None) },
                    Phase::SettingUp,
                ),
                _ => (done(String::new()), Phase::Finished),
            },
            (Phase::SettingUp, Event::Applied) => match &self.command {
                Command::CreateActor { .. } => {
                    proof {
                        reveal_strlit("done");
                        reveal_strlit("\n");
                        reveal_strlit("done\n");
                        assert("done"@ + "\n"@ =~= "done\n"@);
                    }
                    (done(line("done")), Phase::Finished)
                },
                _ => out_of_order(),
            },
            (Phase::Querying, Event::Rows(rows)) => (done(query_rows(&rows)), Phase::Finished),
            (Phase::Requesting, Event::Responded { status, headers, body }) => match &self.command {
                Command::SimulateRequest { format: OutputFormat::Compact, .. } => {
                    let mut out = response_head(status.as_str(), &headers);
                    out.append(body.as_str());
                    (done(out), Phase::Finished)
                },
                Command::SimulateRequest { format: OutputFormat::Expand, .. } => {
                    let head = response_head(status.as_str(), &headers);
                    (Action::Expand { document: body }, Phase::ExpandingBody { head })
                },
                _ => out_of_order(),
            },
            (Phase::ExpandingBody { head }, Event::Expanded(doc)) => {
                let mut out = head;
                out.append(doc.as_str());
                out.append("\n");
                (done(out), Phase::Finished)
            },
            (Phase::LoadingActor, Event::Values(found)) => match found {
                None => (Action::Fail(Failure::MissingEntity), Phase::Finished),
                Some(values) => match after_actor(&values) {
                    TokenStep::LoadKey(k) => (
                        Action::LoadPrivateKey { key_id: k.clone() },
                        Phase::LoadingKey { key_id: k },
                    ),
                    TokenStep::Missing(m) => (
                        Action::Done { output: String::new(), report: line(m.message().as_str()) },
                        Phase::Finished,
                    ),
                },
            },
            (Phase::LoadingKey { key_id }, Event::Values(found)) => match (&self.command, found) {
                (_, None) => (
                    Action::Done {
                        output: String::new(),
                        report: line(MissingKeyMaterial::KeyNotFound.message().as_str()),
                    },
                    Phase::Finished,
                ),
                (Command::IssueToken { actor_id }, Some(values)) => match after_key(
                    actor_id.as_str(),
                    key_id.as_str(),
                    &values,
                ) {
                    Ok(TokenOutcome::Token(t)) => (done(line(t.as_str())), Phase::Finished),
                    Ok(TokenOutcome::Missing(m)) => (
                        Action::Done { output: String::new(), report: line(m.message().as_str()) },
                        Phase::Finished,
                    ),
                    Err(_) => (Action::Fail(Failure::SigningFailed), Phase::Finished),
                },
                _ => out_of_order(),
            },
            _ => out_of_order(),
        }
    }
}


proof fn lemma_lines_of_append(a: Seq<String>, b: Seq<String>)
    ensures
        lines_of(a + b) == lines_of(a) + lines_of(b),
    decreases b.len(),
{
    if b.len() == 0 {
        assert(a + b =~= a);
        assert(lines_of(a) + lines_of(b) =~= lines_of(a));
    } else {
        lemma_lines_of_append(a, b.drop_last());
        assert((a + b).drop_last() =~= a + b.drop_last());
        assert(lines_of(a + b) =~= lines_of(a) + lines_of(b));
    }
}

/// Listing a collection prints every member that the store returns, each
/// on a line of its own.
pub proof fn lemma_listed_member_printed(c: Command, items: Vec<String>, k: int, a: Action, q: Phase)
    requires
        step_spec(c, Phase::Listing, Event::Members(items), a, q),
        0 <= k < items@.len(),
    ensures
        a matches Action::Done { output, .. } && exists|pre: Seq<char>, post: Seq<char>|
            output@ == pre + items@[k]@ + "\n"@ + post,
{
    let s = items@;
    let before = s.subrange(0, k);
    let one = s.subrange(k, k + 1);
    let after = s.subrange(k + 1, s.len() as int);
    assert(s =~= before + one + after);
    lemma_lines_of_append(before + one, after);
    lemma_lines_of_append(before, one);
    assert(one.drop_last() =~= Seq::<String>::empty());
    assert(lines_of(one.drop_last()) == Seq::<char>::empty());
    assert(one.last() == s[k]);
    assert(lines_of(one) =~= s[k]@ + "\n"@);
    let pre = lines_of(before);
    let post = lines_of(after);
    assert(lines_of(s) =~= pre + s[k]@ + "\n"@ + post);
}

/// Removing a member succeeds whenever the store applies the removal, so
/// removing the same member twice is no error the second time: each
/// removal session asks for exactly that removal and ends successfully,
/// printing nothing.
pub proof fn lemma_remove_succeeds(
    id: String,
    item: String,
    a1: Action,
    q1: Phase,
    a2: Action,
    q2: Phase,
)
    requires
        step_spec(
            Command::RemoveFromCollection { id, item },
            Phase::Connecting,
            Event::Connected,
            a1,
            q1,
        ),
        step_spec(Command::RemoveFromCollection { id, item }, q1, Event::Applied, a2, q2),
    ensures
        a1 matches Action::Remove { collection, item: m } && collection@ == id@ && m@ == item@,
        done_with(a2, Seq::empty(), Seq::empty()),
        q2 is Finished,
{
}

/// A session ends exactly when it hands out `Done` or `Fail`.
pub proof fn lemma_ends_with_outcome(c: Command, p: Phase, e: Event, a: Action, q: Phase)
    requires
        step_spec(c, p, e, a, q),
    ensures
        (a is Done || a is Fail) <==> q is Finished,
{
}

/// What `set` prints for the item it stored is what `get` prints when the
/// store hands that item back: in either format, the dispatcher shows both
/// documents the same way.
pub proof fn lemma_set_and_get_print_alike(
    set_id: String,
    get_id: String,
    local: bool,
    format: OutputFormat,
    stored: String,
    fetched: String,
    a1: Action,
    q1: Phase,
    a2: Action,
    q2: Phase,
)
    requires
        step_spec(
            Command::SetEntity { id: set_id, format },
            Phase::Storing,
            Event::Stored(stored),
            a1,
            q1,
        ),
        step_spec(
            Command::GetEntity { id: get_id, local, format },
            Phase::Fetching,
            Event::Fetched(Some(fetched)),
            a2,
            q2,
        ),
        stored@ == fetched@,
    ensures
        format == OutputFormat::Expand ==> (a1 matches Action::Done { output: o1, .. } && a2 matches Action::Done {
            output: o2,
            ..
        } && o1@ == o2@),
        format == OutputFormat::Compact ==> (a1 matches Action::Compact { document: d1 } && a2 matches Action::Compact {
            document: d2,
        } && d1@ == d2@),
{
}

} // verus!
