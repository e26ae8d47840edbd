use vstd::prelude::*;

use crate::text::same_text;

verus! {

/// The two serialisations in which documents are printed.
#[derive(Clone, Copy, Debug, PartialEq, Eq, Structural)]
pub enum OutputFormat {
    /// Fully explicit JSON-LD.
    Expand,
    /// JSON-LD shortened against the server's context.
    Compact,
}

/// What a `--format` value selects, if it names a format at all.
pub open spec fn format_named(s: Seq<char>) -> Option<OutputFormat> {
    if s == "expand"@ {
        Some(OutputFormat::Expand)
    } else if s == "compact"@ {
        Some(OutputFormat::Compact)
    } else {
        None
    }
}

impl OutputFormat {
    /// Reads a `--format` value: `expand` or `compact`, nothing else.
    pub fn parse(s: &str) -> (r: Option<OutputFormat>)
        ensures
            r == format_named(s@),
    {
        if same_text(s, "expand") {
            Some(OutputFormat::Expand)
        } else if same_text(s, "compact") {
            Some(OutputFormat::Compact)
        } else {
            None
        }
    }
}


/// The two request methods that can be simulated.
#[derive(Clone, Copy, Debug, PartialEq, Eq, Structural)]
pub enum Method {
    Get,
    Post,
}

/// What a request subcommand name selects.
pub open spec fn method_named(s: Seq<char>) -> Option<Method> {
    if s == "get"@ {
        Some(Method::Get)
    } else if s == "post"@ {
        Some(Method::Post)
    } else {
        None
    }
}

impl Method {
    /// Reads a request subcommand name: `get` or `post`.
    pub fn parse(s: &str) -> (r: Option<Method>)
        ensures
            r == method_named(s@),
    {
        if same_text(s, "get") {
            Some(Method::Get)
        } else if same_text(s, "post") {
            Some(Method::Post)
        } else {
            None
        }
    }

    /// Whether the request carries a body read from standard input.
    pub fn has_body(&self) -> (r: bool)
        ensures
            r == (*self == Method::Post),
    {
        match self {
            Method::Get => false,
            Method::Post => true,
        }
    }
}

/// Everything the dispatcher can be asked to do.
#[derive(Clone, Debug)]
pub enum Command {
    GetEntity { id: String, local: bool, format: OutputFormat },
    SetEntity { id: String, format: OutputFormat },
    ListCollection { id: String },
    AddToCollection { id: String, item: String },
    RemoveFromCollection { id: String, item: String },
    SimulateRequest { method: Method, url: String, user: Option<String>, format: OutputFormat },
    CreateActor { id: String, username: Option<String>, display_name: Option<String> },
    IssueToken { actor_id: String },
    RunQuery { lines: Vec<String> },
}

/// Why command-line values do not make a command.
#[derive(Clone, Copy, Debug, PartialEq, Eq, Structural)]
pub enum CommandError {
    /// The subcommand name is not one this command family has.
    UnknownSubcommand,
    /// The `--format` value is neither `expand` nor `compact`.
    UnknownFormat,
    /// `add` or `del` was given no member to insert or remove.
    MissingItem,
}

/// The entity subcommands.
pub open spec fn is_entity_subcommand(s: Seq<char>) -> bool {
    s == "get"@ || s == "set"@ || s == "list"@ || s == "add"@ || s == "del"@
}

/// The actor subcommands.
pub open spec fn is_actor_subcommand(s: Seq<char>) -> bool {
    s == "create"@ || s == "token"@
}

impl Command {
    /// Builds an `entity` command from its subcommand name, the entity or
    /// collection id, `--remote`, `--format` and the member that `add` and
    /// `del` take.
    pub fn entity(sub: &str, id: String, remote: bool, format: &str, item: Option<String>) -> (r:
        Result<Command, CommandError>)
        ensures
            !is_entity_subcommand(sub@) ==> r == Err::<Command, CommandError>(
                CommandError::UnknownSubcommand,
            ),
            is_entity_subcommand(sub@) && format_named(format@) is None ==> r == Err::<
                Command,
                CommandError,
            >(CommandError::UnknownFormat),
            is_entity_subcommand(sub@) && format_named(format@) is Some ==> {
                let f = format_named(format@)->0;
                &&& sub@ == "get"@ ==> (r matches Ok(Command::GetEntity { id: i, local, format: g })
                    && i@ == id@ && local == !remote && g == f)
                &&& sub@ == "set"@ ==> (r matches Ok(Command::SetEntity { id: i, format: g })
                    && i@ == id@ && g == f)
                &&& sub@ == "list"@ ==> (r matches Ok(Command::ListCollection { id: i }) && i@
                    == id@)
                &&& sub@ == "add"@ ==> match item {
                    None => r == Err::<Command, CommandError>(CommandError::MissingItem),
                    Some(m) => (r matches Ok(Command::AddToCollection { id: i, item: j }) && i@
                        == id@ && j@ == m@),
                }
                &&& sub@ == "del"@ ==> match item {
                    None => r == Err::<Command, CommandError>(CommandError::MissingItem),
                    Some(m) => (r matches Ok(Command::RemoveFromCollection { id: i, item: j })
                        && i@ == id@ && j@ == m@),
                }
            },
    {
        proof {
            reveal_strlit("get");
            reveal_strlit("set");
            reveal_strlit("list");
            reveal_strlit("add");
            reveal_strlit("del");
            assert("get"@[0] == 'g' && "set"@[0] == 's' && "list"@[0] == 'l');
            assert("add"@[0] == 'a' && "del"@[0] == 'd');
        }
        let is_get = same_text(sub, "get");
        let is_set = same_text(sub, "set");
        let is_list = same_text(sub, "list");
        let is_add = same_text(sub, "add");
        let is_del = same_text(sub, "del");
        if !(is_get || is_set || is_list || is_add || is_del) {
            return Err(CommandError::UnknownSubcommand);
        }
        let format = match OutputFormat::parse(format) {
            Some(f) => f,
            None => return Err(CommandError::UnknownFormat),
        };
        if is_get {
            Ok(Command::GetEntity { id, local: !remote, format })
        } else if is_set {
            Ok(Command::SetEntity { id, format })
        } else if is_list {
            Ok(Command::ListCollection { id })
        } else {
            match item {
                None => Err(CommandError::MissingItem),
                Some(item) => if is_add {
                    Ok(Command::AddToCollection { id, item })
                } else {
                    Ok(Command::RemoveFromCollection { id, item })
                },
            }
        }
    }

    /// Builds a `request` command from its subcommand name (`get` or `post`),
    /// the URL, `--format` and `--user`.
    pub fn request(sub: &str, url: String, format: &str, user: Option<String>) -> (r: Result<
        Command,
        CommandError,
    >)
        ensures
            method_named(sub@) is None ==> r == Err::<Command, CommandError>(
                CommandError::UnknownSubcommand,
            ),
            method_named(sub@) is Some && format_named(format@) is None ==> r == Err::<
                Command,
                CommandError,
            >(CommandError::UnknownFormat),
            method_named(sub@) is Some && format_named(format@) is Some ==> (r matches Ok(
                Command::SimulateRequest { method, url: u, user: v, format: f },
            ) && method == method_named(sub@)->0 && u@ == url@ && v == user && f == format_named(
                format@,
            )->0),
    {
        let method = match Method::parse(sub) {
            Some(m) => m,
            None => return Err(CommandError::UnknownSubcommand),
        };
        let format = match OutputFormat::parse(format) {
            Some(f) => f,
            None => return Err(CommandError::UnknownFormat),
        };
        Ok(Command::SimulateRequest { method, url, user, format })
    }

    /// Builds an `actor` command from its subcommand name (`create` or
    /// `token`), the actor id, `--username` and `--name`.
    pub fn actor(sub: &str, id: String, username: Option<String>, name: Option<String>) -> (r:
        Result<Command, CommandError>)
        ensures
            !is_actor_subcommand(sub@) ==> r == Err::<Command, CommandError>(
                CommandError::UnknownSubcommand,
            ),
            sub@ == "create"@ ==> (r matches Ok(
                Command::CreateActor { id: i, username: u, display_name: n },
            ) && i@ == id@ && u == username && n == name),
            sub@ == "token"@ ==> (r matches Ok(Command::IssueToken { actor_id: i }) && i@ == id@),
    {
        proof {
            reveal_strlit("create");
            reveal_strlit("token");
            assert("create"@[0] != "token"@[0]);
        }
        if same_text(sub, "create") {
            Ok(Command::CreateActor { id, username, display_name: name })
        } else if same_text(sub, "token") {
            Ok(Command::IssueToken { actor_id: id })
        } else {
            Err(CommandError::UnknownSubcommand)
        }
    }
}

} // verus!
