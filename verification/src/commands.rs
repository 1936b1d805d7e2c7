//! The chat commands `~join <channel id>` and `~leave`.
//!
//! Each command is a short run of steps: the framework's reading of the
//! argument, the lookup of the guild, the voice manager and the fetching of
//! music stay outside; `command_step` takes what the last of them gave and
//! says what to do next, ending with one reply. A `~join` that gets into
//! the channel then plays the music of the user who asked for it.

use vstd::prelude::*;

verus! {

/// The replies a command can end with.
#[derive(Clone, Copy, PartialEq, Eq, Structural, Debug)]
pub enum CommandReply {
    /// `~join` without a channel id that reads as a number.
    InvalidChannelId,
    /// The message came from outside a guild.
    NoGuild,
    /// The bot joined the voice channel (and plays the music, where some
    /// came).
    Joined,
    /// The voice manager could not join.
    JoinFailed,
    /// The bot left the voice channel.
    Left,
    /// `~leave` while the bot is in no voice channel of the guild.
    NotInVoice,
}

/// The text of a reply.
pub open spec fn reply_text(reply: CommandReply) -> Seq<char> {
    match reply {
        CommandReply::InvalidChannelId => "Requires a valid voice channel ID be given"@,
        CommandReply::NoGuild => "Groups and DMs not supported"@,
        CommandReply::Joined => ";;join"@,
        CommandReply::JoinFailed => "Error joining the channel"@,
        CommandReply::Left => ";;leave"@,
        CommandReply::NotInVoice => "Not in a voice channel"@,
    }
}

/// The reply answers the author of the command (rather than being said in
/// the channel).
pub open spec fn reply_to_author(reply: CommandReply) -> bool {
    reply is InvalidChannelId || reply is NotInVoice
}

impl CommandReply {
    /// The text of the reply.
    pub fn text(&self) -> (text: String)
        ensures
            text@ == reply_text(*self),
    {
        match self {
            CommandReply::InvalidChannelId => {
                proof {
                    reveal_strlit("Requires a valid voice channel ID be given");
                }
                "Requires a valid voice channel ID be given".to_string()
            },
            CommandReply::NoGuild => {
                proof {
                    reveal_strlit("Groups and DMs not supported");
                }
                "Groups and DMs not supported".to_string()
            },
            CommandReply::Joined => {
                proof {
                    reveal_strlit(";;join");
                }
                ";;join".to_string()
            },
            CommandReply::JoinFailed => {
                proof {
                    reveal_strlit("Error joining the channel");
                }
                "Error joining the channel".to_string()
            },
            CommandReply::Left => {
                proof {
                    reveal_strlit(";;leave");
                }
                ";;leave".to_string()
            },
            CommandReply::NotInVoice => {
                proof {
                    reveal_strlit("Not in a voice channel");
                }
                "Not in a voice channel".to_string()
            },
        }
    }

    /// Whether the reply answers the author of the command; otherwise it is
    /// said in the channel the command came from.
    pub fn to_author(&self) -> (to_author: bool)
        ensures
            to_author == reply_to_author(*self),
    {
        match self {
            CommandReply::InvalidChannelId | CommandReply::NotInVoice => true,
            _ => false,
        }
    }
}

/// Where a command stands.
#[derive(Clone, Copy, PartialEq, Eq, Structural, Debug)]
pub enum CommandState {
    /// `~join` came in from the user `author`; its argument is to be read.
    Join { author: u64 },
    /// `~join` named this voice channel; the guild is to be found.
    JoinChannel { author: u64, channel: u64 },
    /// The voice manager was asked to join in `guild`.
    Joining { author: u64, guild: u64 },
    /// The bot is in the voice of `guild`; the music is being fetched.
    FetchingMusic { guild: u64 },
    /// `~leave` came in; the guild is to be found.
    Leave,
    /// `~leave` in this guild; whether the bot is in its voice is to be
    /// checked.
    Leaving { guild: u64 },
    /// The command is over.
    Done,
}

/// What the last outside step gave.
#[derive(Clone, Copy, PartialEq, Eq, Structural, Debug)]
pub enum CommandEvent {
    /// The first argument read as a channel id, if it reads as one.
    Argument(Option<u64>),
    /// The guild of the channel the message came from, if any.
    Guild(Option<u64>),
    /// Whether the voice manager joined.
    Joined(bool),
    /// Whether music came for the user.
    Music(bool),
    /// Whether the voice manager holds a connection in the guild.
    Connected(bool),
}

/// What to do next.
#[derive(Clone, Copy, PartialEq, Eq, Structural, Debug)]
pub enum CommandAction {
    /// Find the guild of the channel the message came from.
    FindGuild,
    /// Ask the voice manager to join `channel` in `guild`.
    JoinVoice { guild: u64, channel: u64 },
    /// Fetch the music of `user`.
    FetchMusic { user: u64 },
    /// Play the music just fetched in the voice of `guild`, then give the
    /// reply.
    PlayMusic { guild: u64, reply: CommandReply },
    /// Ask the voice manager whether it holds a connection in `guild`.
    CheckVoice { guild: u64 },
    /// Drop the voice connection in `guild`, then give the reply.
    LeaveVoice { guild: u64, reply: CommandReply },
    /// Give the reply; the command is over.
    Reply(CommandReply),
    /// Nothing: the event does not belong to this state.
    Nothing,
}

/// The next state and action of a command in `state` on `event`.
pub open spec fn command_step_spec(state: CommandState, event: CommandEvent) -> (
    CommandState,
    CommandAction,
) {
    match (state, event) {
        (CommandState::Join { author }, CommandEvent::Argument(Some(channel))) => (
            CommandState::JoinChannel { author, channel },
            CommandAction::FindGuild,
        ),
        (CommandState::Join { .. }, CommandEvent::Argument(None)) => (
            CommandState::Done,
            CommandAction::Reply(CommandReply::InvalidChannelId),
        ),
        (CommandState::JoinChannel { author, channel }, CommandEvent::Guild(Some(guild))) => (
            CommandState::Joining { author, guild },
            CommandAction::JoinVoice { guild, channel },
        ),
        (CommandState::JoinChannel { .. }, CommandEvent::Guild(None)) => (
            CommandState::Done,
            CommandAction::Reply(CommandReply::NoGuild),
        ),
        (CommandState::Joining { author, guild }, CommandEvent::Joined(true)) => (
            CommandState::FetchingMusic { guild },
            CommandAction::FetchMusic { user: author },
        ),
        (CommandState::Joining { .. }, CommandEvent::Joined(false)) => (
            CommandState::Done,
            CommandAction::Reply(CommandReply::JoinFailed),
        ),
        (CommandState::FetchingMusic { guild }, CommandEvent::Music(true)) => (
            CommandState::Done,
            CommandAction::PlayMusic { guild, reply: CommandReply::Joined },
        ),
        (CommandState::FetchingMusic { .. }, CommandEvent::Music(false)) => (
            CommandState::Done,
            CommandAction::Reply(CommandReply::Joined),
        ),
        (CommandState::Leave, CommandEvent::Guild(Some(guild))) => (
            CommandState::Leaving { guild },
            CommandAction::CheckVoice { guild },
        ),
        (CommandState::Leave, CommandEvent::Guild(None)) => (
            CommandState::Done,
            CommandAction::Reply(CommandReply::NoGuild),
        ),
        (CommandState::Leaving { guild }, CommandEvent::Connected(true)) => (
            CommandState::Done,
            CommandAction::LeaveVoice { guild, reply: CommandReply::Left },
        ),
        (CommandState::Leaving { .. }, CommandEvent::Connected(false)) => (
            CommandState::Done,
            CommandAction::Reply(CommandReply::NotInVoice),
        ),
        _ => (CommandState::Done, CommandAction::Nothing),
    }
}

/// One step of a command: from where it stands and what the last outside
/// step gave, where it stands next and what to do.
pub fn command_step(state: CommandState, event: CommandEvent) -> (next: (
    CommandState,
    CommandAction,
))
    ensures
        next == command_step_spec(state, event),
{
    match (state, event) {
        (CommandState::Join { author }, CommandEvent::Argument(Some(channel))) => (
            CommandState::JoinChannel { author, channel },
            CommandAction::FindGuild,
        ),
        (CommandState::Join { .. }, CommandEvent::Argument(None)) => (
            CommandState::Done,
            CommandAction::Reply(CommandReply::InvalidChannelId),
        ),
        (CommandState::JoinChannel { author, channel }, CommandEvent::Guild(Some(guild))) => (
            CommandState::Joining { author, guild },
            CommandAction::JoinVoice { guild, channel },
        ),
        (CommandState::JoinChannel { .. }, CommandEvent::Guild(None)) => (
            CommandState::Done,
            CommandAction::Reply(CommandReply::NoGuild),
        ),
        (CommandState::Joining { author, guild }, CommandEvent::Joined(joined)) => {
            if joined {
                (CommandState::FetchingMusic { guild }, CommandAction::FetchMusic { user: author })
            } else {
                (CommandState::Done, CommandAction::Reply(CommandReply::JoinFailed))
            }
        },
        (CommandState::FetchingMusic { guild }, CommandEvent::Music(received)) => {
            if received {
                (
                    CommandState::Done,
                    CommandAction::PlayMusic { guild, reply: CommandReply::Joined },
                )
            } else {
                (CommandState::Done, CommandAction::Reply(CommandReply::Joined))
            }
        },
        (CommandState::Leave, CommandEvent::Guild(Some(guild))) => (
            CommandState::Leaving { guild },
            CommandAction::CheckVoice { guild },
        ),
        (CommandState::Leave, CommandEvent::Guild(None)) => (
            CommandState::Done,
            CommandAction::Reply(CommandReply::NoGuild),
        ),
        (CommandState::Leaving { guild }, CommandEvent::Connected(connected)) => {
            if connected {
                (CommandState::Done, CommandAction::LeaveVoice { guild, reply: CommandReply::Left })
            } else {
                (CommandState::Done, CommandAction::Reply(CommandReply::NotInVoice))
            }
        },
        _ => (CommandState::Done, CommandAction::Nothing),
    }
}

/// A `~join` from `author` that is fed what its outside steps give ends
/// after at most four steps with one reply. It asks to join only the
/// channel that its argument names, in the guild that was found; once in,
/// it fetches the music of `author`, and plays it in that guild where some
/// came.
pub proof fn join_runs_to_one_reply(
    author: u64,
    argument: Option<u64>,
    guild: Option<u64>,
    joined: bool,
    music: bool,
)
    ensures
        ({
            let (s1, a1) = command_step_spec(
                CommandState::Join { author },
                CommandEvent::Argument(argument),
            );
            let (s2, a2) = command_step_spec(s1, CommandEvent::Guild(guild));
            let (s3, a3) = command_step_spec(s2, CommandEvent::Joined(joined));
            let (s4, a4) = command_step_spec(s3, CommandEvent::Music(music));
            match (argument, guild) {
                (None, _) => s1 is Done && a1 == CommandAction::Reply(
                    CommandReply::InvalidChannelId,
                ),
                (Some(_), None) => a1 is FindGuild && s2 is Done && a2 == CommandAction::Reply(
                    CommandReply::NoGuild,
                ),
                (Some(c), Some(g)) => {
                    &&& a1 is FindGuild
                    &&& a2 == CommandAction::JoinVoice { guild: g, channel: c }
                    &&& if joined {
                        &&& a3 == CommandAction::FetchMusic { user: author }
                        &&& s4 is Done
                        &&& a4 == if music {
                            CommandAction::PlayMusic { guild: g, reply: CommandReply::Joined }
                        } else {
                            CommandAction::Reply(CommandReply::Joined)
                        }
                    } else {
                        s3 is Done && a3 == CommandAction::Reply(CommandReply::JoinFailed)
                    }
                },
            }
        }),
{
}

/// A `~leave` ends after at most two steps, and drops the connection of a
/// guild only where the voice manager holds one there.
pub proof fn leave_runs_to_one_reply(guild: Option<u64>, connected: bool)
    ensures
        ({
            let (s1, a1) = command_step_spec(CommandState::Leave, CommandEvent::Guild(guild));
            let (s2, a2) = command_step_spec(s1, CommandEvent::Connected(connected));
            match guild {
                None => s1 is Done && a1 == CommandAction::Reply(CommandReply::NoGuild),
                Some(g) => {
                    &&& a1 == CommandAction::CheckVoice { guild: g }
                    &&& s2 is Done
                    &&& a2 == if connected {
                        CommandAction::LeaveVoice { guild: g, reply: CommandReply::Left }
                    } else {
                        CommandAction::Reply(CommandReply::NotInVoice)
                    }
                },
            }
        }),
{
}

/// A command that is over stays over and does nothing more.
pub proof fn done_is_final(event: CommandEvent)
    ensures
        command_step_spec(CommandState::Done, event) == (CommandState::Done, CommandAction::Nothing),
{
}

/// The author of a command is answered only where the command failed over
/// what the author asked: a channel id that does not read as one, or a
/// `~leave` while the bot is in no voice channel. Every other outcome, a
/// join or a leave carried out and the failures of the bot's own lookups,
/// is said in the channel the command came from.
pub proof fn only_refusals_answer_the_author(state: CommandState, event: CommandEvent)
    ensures
        !reply_to_author(CommandReply::Joined),
        !reply_to_author(CommandReply::Left),
        !reply_to_author(CommandReply::NoGuild),
        !reply_to_author(CommandReply::JoinFailed),
        reply_to_author(CommandReply::InvalidChannelId),
        reply_to_author(CommandReply::NotInVoice),
        ({
            let (_, action) = command_step_spec(state, event);
            &&& action matches CommandAction::LeaveVoice { reply, .. } ==> !reply_to_author(reply)
            &&& action matches CommandAction::PlayMusic { reply, .. } ==> !reply_to_author(reply)
            &&& action matches CommandAction::Reply(reply) ==> (reply_to_author(reply) <==> (
            event == CommandEvent::Argument(None) || event == CommandEvent::Connected(false)))
        }),
{
}

} // verus!
