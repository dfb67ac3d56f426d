//! Commands: what enters the node loop from the web surface and from the
//! operator's terminal.

use vstd::prelude::*;
use vstd::string::{StrSliceExecFns, StringExecFns};
use crate::text::{join_from, joined, split_words, text_eq, texts, words};

verus! {

/// A command that the web surface hands to the node loop.
#[derive(Clone, Debug, PartialEq, Eq)]
pub enum NodeCommand {
    /// Add an entry to the shared log.
    Log(String),
    /// Send a direct message.
    SendDm { to: String, content: String },
}

/// What a line typed by the operator asks for.
#[derive(Clone, Debug, PartialEq, Eq)]
pub enum StdinCommand {
    /// `/peers`
    Peers,
    /// `/log <message…>`
    Log(String),
    /// `/log` without a message
    LogUsage,
    /// `/dm <peer_id> <message…>`
    Dm { to: String, content: String },
    /// `/dm` without a peer or without a message
    DmUsage,
    /// `/show`
    Show,
    /// Any other line that begins with `/`
    Unknown,
    /// A line that does not begin with `/`: chat for everybody
    Chat(String),
}

/// A typed line's meaning as a mathematical value.
pub enum StdinCommandView {
    Peers,
    Log(Seq<char>),
    LogUsage,
    Dm { to: Seq<char>, content: Seq<char> },
    DmUsage,
    Show,
    Unknown,
    Chat(Seq<char>),
}

impl View for StdinCommand {
    type V = StdinCommandView;

    open spec fn view(&self) -> StdinCommandView {
        match *self {
            StdinCommand::Peers => StdinCommandView::Peers,
            StdinCommand::Log(message) => StdinCommandView::Log(message@),
            StdinCommand::LogUsage => StdinCommandView::LogUsage,
            StdinCommand::Dm { to, content } => StdinCommandView::Dm { to: to@, content: content@ },
            StdinCommand::DmUsage => StdinCommandView::DmUsage,
            StdinCommand::Show => StdinCommandView::Show,
            StdinCommand::Unknown => StdinCommandView::Unknown,
            StdinCommand::Chat(line) => StdinCommandView::Chat(line@),
        }
    }
}

/// What a typed line asks for.
///
/// A line that begins with `/` is a command: its first word names it,
/// and its message is the remaining words joined by single spaces. Any
/// other line is chat, taken as it stands.
pub open spec fn parsed_line(line: Seq<char>) -> StdinCommandView {
    if line.len() > 0 && line[0] == '/' {
        let parts = words(line);
        let name = parts[0];
        if name == "/peers"@ {
            StdinCommandView::Peers
        } else if name == "/log"@ {
            if parts.len() > 1 {
                StdinCommandView::Log(joined(parts.skip(1), seq![' ']))
            } else {
                StdinCommandView::LogUsage
            }
        } else if name == "/dm"@ {
            if parts.len() > 2 {
                StdinCommandView::Dm { to: parts[1], content: joined(parts.skip(2), seq![' ']) }
            } else {
                StdinCommandView::DmUsage
            }
        } else if name == "/show"@ {
            StdinCommandView::Show
        } else {
            StdinCommandView::Unknown
        }
    } else {
        StdinCommandView::Chat(line)
    }
}

/// Reads a line typed by the operator.
pub fn parse_line(line: &str) -> (command: StdinCommand)
    ensures
        command@ == parsed_line(line@),
{
    if line.is_empty() || line.get_char(0) != '/' {
        return StdinCommand::Chat(String::from_str(line));
    }
    let parts = split_words(line);
    proof {
        reveal_strlit(" ");
        assert(" "@ =~= seq![' ']);
    }
    assert(words(line@).len() > 0);
    assert(texts(parts@)[0] == parts[0]@);
    let name = parts[0].as_str();
    if text_eq(name, "/peers") {
        StdinCommand::Peers
    } else if text_eq(name, "/log") {
        if parts.len() > 1 {
            StdinCommand::Log(join_from(&parts, 1, " "))
        } else {
            StdinCommand::LogUsage
        }
    } else if text_eq(name, "/dm") {
        if parts.len() > 2 {
            assert(texts(parts@)[1] == parts[1]@);
            StdinCommand::Dm { to: parts[1].clone(), content: join_from(&parts, 2, " ") }
        } else {
            StdinCommand::DmUsage
        }
    } else if text_eq(name, "/show") {
        StdinCommand::Show
    } else {
        StdinCommand::Unknown
    }
}

} // verus!
