//! The command surface that the client offers to the agent: slash
//! commands and mentions, and the payload sent for each command.

use crate::api::{is_text_object, param, param_views, text_object, Param};
use crate::json::Json;
use crate::text::{
    chars_of, join2, contains, contains_str, lowercase, push_all, same_text, slice_chars,
    split_words, string_of, texts, to_lowercase, words,
};
use vstd::prelude::*;

verus! {

/// The texts of `parts` in a row, with one space between neighbours.
pub open spec fn joined(parts: Seq<Seq<char>>) -> Seq<char>
    decreases parts.len(),
{
    if parts.len() == 0 {
        Seq::empty()
    } else if parts.len() == 1 {
        parts[0]
    } else {
        joined(parts.drop_last()) + seq![' '] + parts.last()
    }
}

/// Joins `parts` with one space between neighbours.
pub fn join_words(parts: &Vec<String>) -> (out: String)
    ensures
        out@ == joined(texts(parts@)),
{
    let mut out: Vec<char> = Vec::new();
    let mut i: usize = 0;
    assert(texts(parts@).take(0) =~= Seq::<Seq<char>>::empty());
    while i < parts.len()
        invariant
            i <= parts.len(),
            out@ == joined(texts(parts@).take(i as int)),
        decreases parts.len() - i,
    {
        let ghost all = texts(parts@);
        assert(all.take(i + 1).drop_last() =~= all.take(i as int));
        assert(all.take(i + 1).last() == parts@[i as int]@);
        if i > 0 {
            out.push(' ');
        }
        let part = chars_of(parts[i].as_str());
        let ghost before = out@;
        push_all(&mut out, &part);
        proof {
            if i > 0 {
                assert(out@ =~= joined(all.take(i as int)) + seq![' '] + part@);
            } else {
                assert(out@ =~= part@);
                assert(all.take(1)[0] == part@);
            }
        }
        i += 1;
    }
    assert(texts(parts@).take(parts.len() as int) =~= texts(parts@));
    string_of(&out)
}

/// The command and the arguments of a slash command: the first word after
/// the leading `/` and the words after it. `None` where the text does not
/// start with `/` or holds no word after it.
pub open spec fn command_parts(text: Seq<char>) -> Option<(Seq<char>, Seq<Seq<char>>)> {
    if text.len() > 0 && text[0] == '/' {
        let parts = words(text.skip(1));
        if parts.len() > 0 {
            Some((parts[0], parts.skip(1)))
        } else {
            None
        }
    } else {
        None
    }
}

/// Splits a slash command into its name and its arguments.
pub fn process_command(text: &str) -> (r: Option<(String, Vec<String>)>)
    ensures
        match r {
            Some((command, args)) => command_parts(text@) == Some((command@, texts(args@))),
            None => command_parts(text@) is None,
        },
{
    let chars = chars_of(text);
    if chars.len() == 0 || chars[0] != '/' {
        return None;
    }
    let rest = slice_chars(&chars, 1, chars.len());
    assert(rest@ =~= text@.skip(1));
    let mut parts = split_words(&rest);
    if parts.len() == 0 {
        assert(texts(parts@).len() == 0);
        return None;
    }
    let ghost all = texts(parts@);
    let command = parts.remove(0);
    assert(texts(parts@) =~= all.skip(1));
    assert(all[0] == command@);
    Some((command, parts))
}

/// The text `low`, which is in lower case, names the agent: it holds
/// `@zeroclaw` or `@zc`.
pub open spec fn names_agent(low: Seq<char>) -> bool {
    contains(low, "@zeroclaw"@) || contains(low, "@zc"@)
}

/// The text mentions the agent, in whatever case it is written.
pub open spec fn mentions_agent(text: Seq<char>) -> bool {
    names_agent(lowercase(text))
}

/// Whether a text that was brought to lower case names the agent.
pub fn is_agent_mention_lowered(low: &str) -> (r: bool)
    ensures
        r == names_agent(low@),
{
    let chars = chars_of(low);
    contains_str(&chars, "@zeroclaw") || contains_str(&chars, "@zc")
}

/// Whether a text mentions the agent.
pub fn is_agent_mention(text: &str) -> (r: bool)
    ensures
        r == mentions_agent(text@),
{
    let low = to_lowercase(text);
    is_agent_mention_lowered(low.as_str())
}

/// A command for the agent.
#[derive(Debug)]
pub enum CommandType {
    /// Summarise a channel: the named one, or the active one.
    Resume { channel: Option<String> },
    /// Draft a message with the given intent.
    Draft { intent: String },
    /// Search for the given text.
    Search { query: String },
    /// A command that the client does not know.
    Unknown(String),
}

pub enum CommandView {
    Resume { channel: Option<Seq<char>> },
    Draft { intent: Seq<char> },
    Search { query: Seq<char> },
    Unknown(Seq<char>),
}

impl View for CommandType {
    type V = CommandView;

    open spec fn view(&self) -> CommandView {
        match self {
            CommandType::Resume { channel } => CommandView::Resume {
                channel: crate::text::opt_text(*channel),
            },
            CommandType::Draft { intent } => CommandView::Draft { intent: intent@ },
            CommandType::Search { query } => CommandView::Search { query: query@ },
            CommandType::Unknown(name) => CommandView::Unknown(name@),
        }
    }
}

/// A channel argument without its leading `#`, if it has one.
pub open spec fn channel_name(arg: Seq<char>) -> Seq<char> {
    if arg.len() > 0 && arg[0] == '#' {
        arg.skip(1)
    } else {
        arg
    }
}

/// The command with the given name and arguments. The name counts in
/// lower case.
pub open spec fn command_of(name: Seq<char>, args: Seq<Seq<char>>) -> CommandView {
    command_named(lowercase(name), name, args)
}

/// The command that `low` names, which is the name `name` in lower case,
/// with the given arguments. A name that is no command is kept as it was
/// written.
pub open spec fn command_named(low: Seq<char>, name: Seq<char>, args: Seq<Seq<char>>)
    -> CommandView {
    if low == "resume"@ || low == "r\u{e9}sume"@ || low == "summarize"@ {
        CommandView::Resume {
            channel: if args.len() > 0 {
                Some(channel_name(args[0]))
            } else {
                None
            },
        }
    } else if low == "draft"@ {
        CommandView::Draft { intent: joined(args) }
    } else if low == "cherche"@ || low == "search"@ {
        CommandView::Search { query: joined(args) }
    } else {
        CommandView::Unknown(name)
    }
}

/// The payload sent to the agent for `command`, as the members of a JSON
/// object of strings. A summary names the requested channel, and the
/// active one where none or an empty one is requested.
pub open spec fn payload_members(command: CommandView, active_channel: Seq<char>, user: Seq<char>)
    -> Seq<(Seq<char>, Seq<char>)> {
    match command {
        CommandView::Resume { channel } => {
            let named = channel is Some && channel->0.len() > 0;
            seq![
                ("command"@, "resume"@),
                (
                    "channel"@,
                    if named {
                        channel->0
                    } else {
                        active_channel
                    },
                ),
                ("user"@, user),
                (
                    "message"@,
                    if named {
                        "/resume #"@ + channel->0
                    } else {
                        "/resume"@
                    },
                ),
            ]
        },
        CommandView::Draft { intent } => seq![
            ("command"@, "draft"@),
            ("intent"@, intent),
            ("user"@, user),
            ("channel"@, active_channel),
            ("message"@, "/draft "@ + intent),
        ],
        CommandView::Search { query } => seq![
            ("command"@, "cherche"@),
            ("query"@, query),
            ("user"@, user),
            ("channel"@, active_channel),
            ("message"@, "/cherche "@ + query),
        ],
        CommandView::Unknown(name) => seq![
            ("command"@, "unknown"@),
            ("raw"@, name),
            ("user"@, user),
            ("channel"@, active_channel),
        ],
    }
}

impl CommandType {
    /// The command with the given name and arguments.
    pub fn from_command(name: &str, args: &Vec<String>) -> (r: CommandType)
        ensures
            r@ == command_of(name@, texts(args@)),
    {
        let low = to_lowercase(name);
        Self::from_lowered(low.as_str(), name, args)
    }

    /// The command that `low` names, which is `name` in lower case, with
    /// the given arguments.
    pub fn from_lowered(low: &str, name: &str, args: &Vec<String>) -> (r: CommandType)
        ensures
            r@ == command_named(low@, name@, texts(args@)),
    {
        if same_text(low, "resume") || same_text(low, "r\u{e9}sume")
            || same_text(low, "summarize") {
            let channel = if args.len() > 0 {
                let arg = chars_of(args[0].as_str());
                if arg.len() > 0 && arg[0] == '#' {
                    let stripped = slice_chars(&arg, 1, arg.len());
                    assert(stripped@ =~= arg@.skip(1));
                    Some(string_of(&stripped))
                } else {
                    Some(args[0].clone())
                }
            } else {
                None
            };
            CommandType::Resume { channel }
        } else if same_text(low, "draft") {
            CommandType::Draft { intent: join_words(args) }
        } else if same_text(low, "cherche") || same_text(low, "search") {
            CommandType::Search { query: join_words(args) }
        } else {
            CommandType::Unknown(name.to_owned())
        }
    }

    /// The members of the payload sent to the agent for this command.
    pub fn payload_params(&self, active_channel: &str, user: &str) -> (r: Vec<Param>)
        ensures
            param_views(r@) == payload_members(self@, active_channel@, user@),
    {
        let mut r: Vec<Param> = Vec::new();
        match self {
            CommandType::Resume { channel } => {
                let named = match channel {
                    Some(c) => !c.as_str().is_empty(),
                    None => false,
                };
                let (target, message) = match channel {
                    Some(c) => if named {
                        (c.clone(), join2("/resume #", c.as_str()))
                    } else {
                        (active_channel.to_owned(), "/resume".to_owned())
                    },
                    None => (active_channel.to_owned(), "/resume".to_owned()),
                };
                r.push(param("command", "resume"));
                r.push(param("channel", target.as_str()));
                r.push(param("user", user));
                r.push(param("message", message.as_str()));
            },
            CommandType::Draft { intent } => {
                let message = join2("/draft ", intent.as_str());
                r.push(param("command", "draft"));
                r.push(param("intent", intent.as_str()));
                r.push(param("user", user));
                r.push(param("channel", active_channel));
                r.push(param("message", message.as_str()));
            },
            CommandType::Search { query } => {
                let message = join2("/cherche ", query.as_str());
                r.push(param("command", "cherche"));
                r.push(param("query", query.as_str()));
                r.push(param("user", user));
                r.push(param("channel", active_channel));
                r.push(param("message", message.as_str()));
            },
            CommandType::Unknown(name) => {
                r.push(param("command", "unknown"));
                r.push(param("raw", name.as_str()));
                r.push(param("user", user));
                r.push(param("channel", active_channel));
            },
        }
        assert(param_views(r@) =~= payload_members(self@, active_channel@, user@));
        r
    }

    /// The payload sent to the agent for this command: a JSON object of
    /// strings.
    pub fn to_webhook_payload(&self, active_channel: &str, user: &str) -> (r: Json)
        ensures
            is_text_object(r, payload_members(self@, active_channel@, user@)),
    {
        let members = self.payload_params(active_channel, user);
        text_object(&members)
    }
}

} // verus!
