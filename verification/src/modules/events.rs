//! What the bot says and logs around its commands: before and after each
//! command, when a command cannot be dispatched, and once it is connected.
use vstd::prelude::*;
use crate::text::{decimal, push_decimal};

verus! {

/// Discord's Administrator permission bit.
pub const ADMINISTRATOR: u64 = 8;

/// Why the framework refused to run a command, as plain values: the names and
/// reasons are the framework's own renderings of them.
pub enum DispatchFailure {
    /// A check failed: its name, and the rendering of its reason.
    CheckFailed { check: String, reason: String },
    /// The command is disabled.
    CommandDisabled(String),
    OnlyForDM,
    OnlyForGuilds,
    /// The caller lacks permissions: their bits, and the rendering of them.
    LackingPermissions { bits: u64, names: String },
    NotEnoughArguments { min: u16, given: usize },
    OnlyForOwners,
    /// Any other refusal, with the rendering of the whole refusal.
    Unhandled(String),
}

/// What to do about a refusal: tell the channel, or log it as an error.
pub enum DispatchReply {
    Say(String),
    LogError(String),
}

/// The answer to a refusal: `(true, text)` to say `text` in the channel,
/// `(false, text)` to log `text` as an error.
pub open spec fn dispatch_answer(error: DispatchFailure) -> (bool, Seq<char>) {
    match error {
        DispatchFailure::CheckFailed { check, reason } => (
            true,
            "The command checks have failed "@ + check@ + "\n"@ + reason@,
        ),
        DispatchFailure::CommandDisabled(s) => (true, "This command is disabled! "@ + s@),
        DispatchFailure::OnlyForDM => (true, "This command can only be used in DMs."@),
        DispatchFailure::OnlyForGuilds => (true, "This command can only be used in servers."@),
        DispatchFailure::LackingPermissions { bits, names } => if bits == ADMINISTRATOR {
            (true, "You need to be an **Administrator** to execute this command!"@)
        } else {
            (true, "You require **"@ + names@ + "** permission to execute this command!"@)
        },
        DispatchFailure::NotEnoughArguments { min, given } => (
            true,
            "Not enough arguments! ("@ + decimal(given as nat) + ") This command requires at least "@
                + decimal(min as nat),
        ),
        DispatchFailure::OnlyForOwners => (true, "Only the bot owner can use this!"@),
        DispatchFailure::Unhandled(debug) => (false, "Unhandled dispatch error: "@ + debug@),
    }
}

/// A lack of permissions is always said in the channel. The Administrator
/// sentence is given exactly when the missing permission is Administrator
/// alone; for any other permissions the answer does not depend on their bits
/// and names them after `You require **`.
pub proof fn lemma_permission_answer(bits: u64, other_bits: u64, names: String)
    ensures
        dispatch_answer(DispatchFailure::LackingPermissions { bits, names }).0,
        (dispatch_answer(DispatchFailure::LackingPermissions { bits, names }).1
            == "You need to be an **Administrator** to execute this command!"@) <==> bits == ADMINISTRATOR,
        bits != ADMINISTRATOR && other_bits != ADMINISTRATOR ==> dispatch_answer(
            DispatchFailure::LackingPermissions { bits, names },
        ) == dispatch_answer(DispatchFailure::LackingPermissions { bits: other_bits, names }),
        bits != ADMINISTRATOR ==> dispatch_answer(DispatchFailure::LackingPermissions { bits, names }).1.subrange(
            14,
            14 + names@.len() as int,
        ) == names@,
{
    reveal_strlit("You need to be an **Administrator** to execute this command!");
    reveal_strlit("You require **");
    reveal_strlit("** permission to execute this command!");
    if bits != ADMINISTRATOR {
        let text = dispatch_answer(DispatchFailure::LackingPermissions { bits, names }).1;
        assert(text[4] == 'r');
        assert("You need to be an **Administrator** to execute this command!"@[4] == 'n');
        assert(text.subrange(14, 14 + names@.len() as int) =~= names@);
    }
}

/// The answer to a command that the framework refused to run.
pub fn dispatch_error(error: &DispatchFailure) -> (res: DispatchReply)
    ensures
        match res {
            DispatchReply::Say(text) => dispatch_answer(*error) == (true, text@),
            DispatchReply::LogError(text) => dispatch_answer(*error) == (false, text@),
        },
{
    match error {
        DispatchFailure::CheckFailed { check, reason } => {
            let mut s = "The command checks have failed ".to_owned();
            s.append(check.as_str());
            s.append("\n");
            s.append(reason.as_str());
            DispatchReply::Say(s)
        },
        DispatchFailure::CommandDisabled(name) => {
            let mut s = "This command is disabled! ".to_owned();
            s.append(name.as_str());
            DispatchReply::Say(s)
        },
        DispatchFailure::OnlyForDM => DispatchReply::Say("This command can only be used in DMs.".to_owned()),
        DispatchFailure::OnlyForGuilds => DispatchReply::Say(
            "This command can only be used in servers.".to_owned(),
        ),
        DispatchFailure::LackingPermissions { bits, names } => {
            if *bits == ADMINISTRATOR {
                DispatchReply::Say(
                    "You need to be an **Administrator** to execute this command!".to_owned(),
                )
            } else {
                let mut s = "You require **".to_owned();
                s.append(names.as_str());
                s.append("** permission to execute this command!");
                DispatchReply::Say(s)
            }
        },
        DispatchFailure::NotEnoughArguments { min, given } => {
            let mut s = "Not enough arguments! (".to_owned();
            push_decimal(&mut s, *given as u128);
            s.append(") This command requires at least ");
            push_decimal(&mut s, *min as u128);
            DispatchReply::Say(s)
        },
        DispatchFailure::OnlyForOwners => DispatchReply::Say("Only the bot owner can use this!".to_owned()),
        DispatchFailure::Unhandled(debug) => {
            let mut s = "Unhandled dispatch error: ".to_owned();
            s.append(debug.as_str());
            DispatchReply::LogError(s)
        },
    }
}

/// How a command failed: the debug rendering of its error (for the log) and
/// the display rendering (for the channel).
pub struct CommandFailure {
    pub debug: String,
    pub display: String,
}

/// The level a log line is written at.
#[derive(Clone, Copy, Debug, PartialEq, Eq, Structural)]
pub enum LogLevel {
    Info,
    Error,
}

/// What to do after a command: a log line, and possibly a reply.
pub struct HookOutcome {
    pub level: LogLevel,
    pub log: String,
    pub reply: Option<String>,
}

/// `name#discriminator`, the way Discord spells a user.
pub open spec fn user_tag(author: Seq<char>, discriminator: u16) -> Seq<char> {
    author + "#"@ + decimal(discriminator as nat)
}

/// After a command: a failure is logged as an error and shown in a Rust code
/// block; a success is logged as the use of the command.
pub fn after_hook(author: &str, discriminator: u16, content: &str, error: &Option<CommandFailure>) -> (res: HookOutcome)
    ensures
        match error {
            Some(why) => {
                &&& res.level == LogLevel::Error
                &&& res.log@ == "Command error [ "@ + user_tag(author@, discriminator) + " "@ + content@ + " ]: "@
                    + why.debug@
                &&& res.reply matches Some(r) && r@ == "```rs\n"@ + why.display@ + "\n```"@
            },
            None => {
                &&& res.level == LogLevel::Info
                &&& res.log@ == user_tag(author@, discriminator) + " used "@ + content@ + " (took TODO)"@
                &&& res.reply is None
            },
        },
{
    let mut tag = author.to_owned();
    tag.append("#");
    push_decimal(&mut tag, discriminator as u128);
    match error {
        Some(why) => {
            let mut log = "Command error [ ".to_owned();
            log.append(tag.as_str());
            log.append(" ");
            log.append(content);
            log.append(" ]: ");
            log.append(why.debug.as_str());
            let mut reply = "```rs\n".to_owned();
            reply.append(why.display.as_str());
            reply.append("\n```");
            HookOutcome { level: LogLevel::Error, log, reply: Some(reply) }
        },
        None => {
            let mut log = tag;
            log.append(" used ");
            log.append(content);
            log.append(" (took TODO)");
            HookOutcome { level: LogLevel::Info, log, reply: None }
        },
    }
}

/// Before a command: the line to log, and whether to go on (always).
pub fn before_hook(cmd_name: &str) -> (res: (String, bool))
    ensures
        res.0@ == "Running command "@ + cmd_name@,
        res.1,
{
    let mut log = "Running command ".to_owned();
    log.append(cmd_name);
    (log, true)
}

/// The line logged once the bot is connected under `name`.
pub fn ready_message(name: &str) -> (res: String)
    ensures
        res@ == "Connected as "@ + name@,
{
    let mut log = "Connected as ".to_owned();
    log.append(name);
    log
}

} // verus!
