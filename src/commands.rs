//! Text commands in the command channel. Moderators ban, unban and remove
//! the approved image of any user by identity; everyone can remove their
//! own approved image.
use vstd::prelude::*;
use crate::decimal::{decimal, parse_u64, parsed_u64, u64_decimal};
use crate::records::{Blacklist, Record, RecordKind, StoreOp};

verus! {

/// The words of `s`: its maximal runs of non-whitespace, in order.
pub uninterp spec fn whitespace_words(s: Seq<char>) -> Seq<Seq<char>>;

/// Relies on str::split_whitespace: the words of `s`, in order.
#[verifier::external_body]
fn split_words(s: &str) -> (r: Vec<String>)
    ensures
        r@.map_values(|w: String| w@) == whitespace_words(s@),
{
    let mut words = Vec::new();
    for w in s.split_whitespace() {
        words.push(w.to_string());
    }
    words
}

/// What a command does.
#[derive(Clone, Copy, Debug, PartialEq, Eq, Structural)]
pub enum CommandKind {
    /// Delete the user's approved image record.
    RemoveBanner,
    /// Put the user on the denylist.
    Ban,
    /// Take the user off the denylist.
    Unban,
}

/// A command and the user identity it applies to, in decimal.
#[derive(Debug, PartialEq, Eq)]
pub struct Command {
    pub kind: CommandKind,
    pub uid: String,
}

/// The command that `words` give, from an author with the given role.
/// A moderator who names a user acts on that user, if the name reads as an
/// identity; anyone else, or a moderator who names nobody, can only remove
/// their own image.
pub open spec fn command_for(words: Seq<Seq<char>>, author: u64, authorized: bool) -> Option<
    (CommandKind, Seq<char>),
> {
    if words.len() == 0 {
        None
    } else if authorized && words.len() >= 2 {
        let arg = words[1];
        if parsed_u64(arg) is None {
            None
        } else if words[0] == "~remove"@ {
            Some((CommandKind::RemoveBanner, arg))
        } else if words[0] == "~ban"@ {
            Some((CommandKind::Ban, arg))
        } else if words[0] == "~unban"@ {
            Some((CommandKind::Unban, arg))
        } else {
            None
        }
    } else if words[0] == "~remove"@ {
        Some((CommandKind::RemoveBanner, decimal(author as nat)))
    } else {
        None
    }
}

/// A decided command as its kind and the text of its user identity.
pub open spec fn command_view(c: Option<Command>) -> Option<(CommandKind, Seq<char>)> {
    match c {
        Some(c) => Some((c.kind, c.uid@)),
        None => None,
    }
}

/// Decides the command that the words of a message give.
pub fn decide_command(words: &Vec<String>, author: u64, authorized: bool) -> (r: Option<Command>)
    ensures
        command_view(r) == command_for(words@.map_values(|w: String| w@), author, authorized),
{
    let ghost ws = words@.map_values(|w: String| w@);
    if words.len() == 0 {
        return None;
    }
    assert(ws[0] == words@[0]@);
    let command = &words[0];
    if authorized && words.len() >= 2 {
        let arg = &words[1];
        assert(ws[1] == arg@);
        if parse_u64(arg.as_str()).is_none() {
            return None;
        }
        let kind = if *command == String::from_str("~remove") {
            CommandKind::RemoveBanner
        } else if *command == String::from_str("~ban") {
            CommandKind::Ban
        } else if *command == String::from_str("~unban") {
            CommandKind::Unban
        } else {
            return None;
        };
        Some(Command { kind, uid: arg.clone() })
    } else if *command == String::from_str("~remove") {
        Some(Command { kind: CommandKind::RemoveBanner, uid: u64_decimal(author) })
    } else {
        None
    }
}

/// Decides the command a message in the command channel gives.
pub fn command_from_text(content: &str, author: u64, authorized: bool) -> (r: Option<Command>)
    ensures
        command_view(r) == command_for(whitespace_words(content@), author, authorized),
{
    let words = split_words(content);
    decide_command(&words, author, authorized)
}

/// The answer to a command's author.
pub open spec fn command_reply(kind: CommandKind, succeeded: bool) -> Seq<char> {
    match kind {
        CommandKind::RemoveBanner => if succeeded {
            "usrbg removed"@
        } else {
            "failed to remove usrbg"@
        },
        CommandKind::Ban => if succeeded {
            "banned user"@
        } else {
            "failed to ban user"@
        },
        CommandKind::Unban => if succeeded {
            "unbanned user"@
        } else {
            "failed to unban user"@
        },
    }
}

impl Command {
    /// The database change the command makes.
    pub fn store_op(&self) -> (op: StoreOp)
        ensures
            match self.kind {
                CommandKind::RemoveBanner => op matches StoreOp::Delete { kind, uid } && kind
                    == RecordKind::ApprovedBanner && uid == self.uid,
                CommandKind::Ban => op matches StoreOp::Upsert(Record::BanEntry(b)) && b.uid
                    == self.uid,
                CommandKind::Unban => op matches StoreOp::Delete { kind, uid } && kind
                    == RecordKind::BanEntry && uid == self.uid,
            },
    {
        let uid = self.uid.clone();
        match self.kind {
            CommandKind::RemoveBanner => StoreOp::Delete { kind: RecordKind::ApprovedBanner, uid },
            CommandKind::Ban => StoreOp::Upsert(Record::BanEntry(Blacklist { uid })),
            CommandKind::Unban => StoreOp::Delete { kind: RecordKind::BanEntry, uid },
        }
    }

    /// The answer to the command's author, once the change succeeded or failed.
    pub fn reply(&self, succeeded: bool) -> (r: &'static str)
        ensures
            r@ == command_reply(self.kind, succeeded),
    {
        match self.kind {
            CommandKind::RemoveBanner => if succeeded {
                "usrbg removed"
            } else {
                "failed to remove usrbg"
            },
            CommandKind::Ban => if succeeded {
                "banned user"
            } else {
                "failed to ban user"
            },
            CommandKind::Unban => if succeeded {
                "unbanned user"
            } else {
                "failed to unban user"
            },
        }
    }
}

} // verus!
