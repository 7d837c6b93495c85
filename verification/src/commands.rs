//! The two commands of the chat front end: which one a name stands for, and
//! what is answered.

use crate::flags::NotifyFlag;
use crate::notice::profile_url_model;
use vstd::prelude::*;

verus! {

/// A command of the chat front end.
#[derive(Debug, Clone, Copy, PartialEq, Eq, Structural)]
pub enum Command {
    /// Sets the channel in which a guild is notified.
    Notify,
    /// Links a member with an account of the tracking service.
    Annict,
}

/// An answer to a command.
#[derive(Debug, Clone, PartialEq, Eq)]
pub struct Reply {
    pub content: String,
    /// Whether only the member who gave the command sees the answer.
    pub ephemeral: bool,
}

impl Command {
    /// The command of the given name.
    pub open spec fn of(name: Seq<char>) -> Option<Command> {
        if name == "notify"@ {
            Some(Command::Notify)
        } else if name == "annict"@ {
            Some(Command::Annict)
        } else {
            None
        }
    }

    /// The name under which the command is registered.
    pub open spec fn name_model(self) -> Seq<char> {
        match self {
            Command::Notify => "notify"@,
            Command::Annict => "annict"@,
        }
    }

    /// The command of the given name; none where there is no such command.
    pub fn parse(name: &String) -> (r: Option<Command>)
        ensures
            r == Command::of(name@),
    {
        if *name == String::from_str("notify") {
            Some(Command::Notify)
        } else if *name == String::from_str("annict") {
            Some(Command::Annict)
        } else {
            None
        }
    }

    /// The name under which the command is registered.
    pub fn name(&self) -> (name: &'static str)
        ensures
            name@ == self.name_model(),
    {
        match self {
            Command::Notify => "notify",
            Command::Annict => "annict",
        }
    }
}

/// What is logged of a command that does not exist.
pub open spec fn unknown_command_model(name: Seq<char>) -> Seq<char> {
    "不明なコマンド `"@ + name + "` を受信"@
}

/// What is logged of a command that does not exist.
pub fn unknown_command(name: &str) -> (text: String)
    ensures
        text@ == unknown_command_model(name@),
{
    String::from_str("不明なコマンド `").concat(name).concat("` を受信")
}

/// The answer to a command that was given outside a guild.
pub open spec fn guild_only_model() -> Seq<char> {
    "この操作はサーバー内で行ってください"@
}

/// The answer after an account was looked up for linking: with the account
/// found, that it is linked, with a link to its page that is not expanded;
/// otherwise, for the member alone, that there is none.
pub open spec fn link_reply_model(username: Seq<char>, found: bool) -> (Seq<char>, bool) {
    if found {
        (
            "ユーザー ["@ + username + "](<"@ + profile_url_model(username) + ">) と連携しました"@,
            false,
        )
    } else {
        ("ユーザー "@ + username + " は存在しません"@, true)
    }
}

/// The answer after a channel was set: where, and of what, it is notified.
pub open spec fn channel_reply_model(mention: Seq<char>, flag: NotifyFlag) -> Seq<char> {
    mention + " で "@ + flag.describe_model() + " のアクティビティを通知します"@
}

/// The answer to a command that was given outside a guild.
pub fn guild_only(ephemeral: bool) -> (reply: Reply)
    ensures
        reply.content@ == guild_only_model(),
        reply.ephemeral == ephemeral,
{
    Reply { content: String::from_str("この操作はサーバー内で行ってください"), ephemeral }
}

/// The answer after an account was looked up for linking.
pub fn link_reply(username: &str, found: bool) -> (reply: Reply)
    ensures
        (reply.content@, reply.ephemeral) == link_reply_model(username@, found),
{
    if found {
        let mut content = String::from_str("ユーザー [");
        content.append(username);
        content.append("](<");
        content.append("https://annict.com/@");
        content.append(username);
        content.append(">) と連携しました");
        assert(content@ =~= link_reply_model(username@, found).0);
        Reply { content, ephemeral: false }
    } else {
        let content = String::from_str("ユーザー ").concat(username).concat(" は存在しません");
        Reply { content, ephemeral: true }
    }
}

/// The answer after a channel was set.
pub fn channel_reply(mention: &str, flag: &NotifyFlag) -> (reply: Reply)
    ensures
        reply.content@ == channel_reply_model(mention@, *flag),
        !reply.ephemeral,
{
    let mut content = String::from_str(mention);
    content.append(" で ");
    content.append(flag.describe().as_str());
    content.append(" のアクティビティを通知します");
    Reply { content, ephemeral: false }
}

} // verus!
