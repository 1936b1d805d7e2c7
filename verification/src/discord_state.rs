//! When the bot joins a voice channel: once the watched user is both in
//! the watched voice channel and playing Rocket League, the bot joins that
//! channel, once.
//!
//! The Discord gateway, its lookups and the voice connection stay outside;
//! each function here takes what they returned and decides the next state
//! and what to do.

use vstd::prelude::*;

verus! {

/// The user to watch and the voice channel to watch for.
pub struct DiscordInfo {
    pub username: String,
    pub channel: String,
}

/// What the bot knows: whether it is in the channel, the id of the voice
/// channel the user was last seen joining, and whether the user is in the
/// channel and in the game.
#[derive(Clone, Copy, PartialEq, Eq, Structural, Debug)]
pub struct DiscordState {
    pub bot_in_channel: bool,
    pub channel_id: Option<u64>,
    pub user_in_channel: bool,
    pub user_in_game: bool,
}

/// What to do with the voice connection after an event.
#[derive(Clone, Copy, PartialEq, Eq, Structural, Debug)]
pub enum JoinDecision {
    /// Nothing.
    Stay,
    /// Join the voice channel with this id.
    Join(u64),
    /// The bot should join, but no channel id was ever seen.
    NoChannelId,
}

/// What to do after the first look at a voice state update.
#[derive(Clone, Copy, PartialEq, Eq, Structural, Debug)]
pub enum VoiceStep {
    /// Look up the member on this server and this channel, then go on with
    /// `channel_is_voice` if it is a voice channel.
    LookUp { server: u64, channel: u64 },
    /// The user left voice; nothing more to do.
    Left,
}

/// The name of the game that counts.
pub open spec fn game_name() -> Seq<char> {
    "Rocket League"@
}

/// The bot should join now: the user is in the channel and in the game,
/// and the bot is not in the channel yet.
pub open spec fn should_join(s: DiscordState) -> bool {
    s.user_in_game && s.user_in_channel && !s.bot_in_channel
}

/// The state and decision after checking whether to join.
pub open spec fn join_spec(s: DiscordState) -> (DiscordState, JoinDecision) {
    if should_join(s) {
        match s.channel_id {
            Some(id) => (DiscordState { bot_in_channel: true, ..s }, JoinDecision::Join(id)),
            None => (s, JoinDecision::NoChannelId),
        }
    } else {
        (s, JoinDecision::Stay)
    }
}

/// The state after the first look at a voice state update with the given
/// server and channel.
pub open spec fn voice_update_spec(s: DiscordState, server: Option<u64>, channel: Option<u64>) -> (
    DiscordState,
    VoiceStep,
) {
    match (server, channel) {
        (Some(sv), Some(ch)) => (s, VoiceStep::LookUp { server: sv, channel: ch }),
        _ => (DiscordState { user_in_channel: false, ..s }, VoiceStep::Left),
    }
}

/// The state and decision after the watched user, or someone else, is seen
/// in a voice channel: the user named `username` seen in the channel named
/// `channel_name` flips whether the user is in the channel and records the
/// channel's id; then the bot checks whether to join.
pub open spec fn voice_spec(
    username: Seq<char>,
    watched: Seq<char>,
    s: DiscordState,
    display_name: Seq<char>,
    channel_name: Seq<char>,
    channel_id: Option<u64>,
) -> (DiscordState, JoinDecision) {
    if display_name == username && channel_name == watched {
        join_spec(
            DiscordState { user_in_channel: !s.user_in_channel, channel_id: channel_id, ..s },
        )
    } else {
        join_spec(s)
    }
}

/// The state and decision after a presence update: the watched user seen
/// playing Rocket League flips whether the user is in the game, then the
/// bot checks whether to join; a presence with no game at all clears it.
pub open spec fn presence_spec(
    username: Seq<char>,
    s: DiscordState,
    display_name: Seq<char>,
    game: Option<Seq<char>>,
) -> (DiscordState, JoinDecision) {
    match game {
        Some(g) => if display_name == username && g == game_name() {
            join_spec(DiscordState { user_in_game: !s.user_in_game, ..s })
        } else {
            join_spec(s)
        },
        None => (DiscordState { user_in_game: false, ..s }, JoinDecision::Stay),
    }
}

impl DiscordState {
    /// The state the bot starts from: nothing seen yet.
    pub fn new() -> (s: DiscordState)
        ensures
            s == (DiscordState {
                bot_in_channel: false,
                channel_id: None,
                user_in_channel: false,
                user_in_game: false,
            }),
    {
        DiscordState {
            bot_in_channel: false,
            channel_id: None,
            user_in_channel: false,
            user_in_game: false,
        }
    }
}

/// Joins the recorded channel if the user is in it and in the game and the
/// bot is not in it yet.
pub fn check_state_and_join_channel(state: &mut DiscordState) -> (decision: JoinDecision)
    ensures
        (*final(state), decision) == join_spec(*old(state)),
{
    let should = state.user_in_game && state.user_in_channel && !state.bot_in_channel;
    if should {
        match state.channel_id {
            Some(id) => {
                state.bot_in_channel = true;
                JoinDecision::Join(id)
            },
            None => JoinDecision::NoChannelId,
        }
    } else {
        JoinDecision::Stay
    }
}

/// The first look at a voice state update: where both a server and a
/// channel are given, they are to be looked up; otherwise the user is no
/// longer in a channel.
pub fn voice_channel_update_event(
    state: &mut DiscordState,
    server: Option<u64>,
    channel_id: Option<u64>,
) -> (step: VoiceStep)
    ensures
        (*final(state), step) == voice_update_spec(*old(state), server, channel_id),
{
    match (server, channel_id) {
        (Some(sv), Some(ch)) => VoiceStep::LookUp { server: sv, channel: ch },
        _ => {
            state.user_in_channel = false;
            VoiceStep::Left
        },
    }
}

/// A member whose display name is `display_name` is in the voice channel
/// named `channel_name` with id `channel_id`. Where that is the watched
/// user in the watched channel, flips whether the user is in the channel
/// and records the id; then joins if it should.
pub fn channel_is_voice(
    state: &mut DiscordState,
    info: &DiscordInfo,
    display_name: &String,
    channel_name: &String,
    channel_id: Option<u64>,
) -> (decision: JoinDecision)
    ensures
        (*final(state), decision) == voice_spec(
            info.username@,
            info.channel@,
            *old(state),
            display_name@,
            channel_name@,
            channel_id,
        ),
{
    let name_and_channel_match = *display_name == info.username && *channel_name == info.channel;
    if name_and_channel_match {
        state.user_in_channel = !state.user_in_channel;
        state.channel_id = channel_id;
    }
    check_state_and_join_channel(state)
}

/// A presence update for the member whose display name is `display_name`,
/// playing `game` if any. The watched user seen playing Rocket League flips
/// whether the user is in the game, and the bot joins if it should; a
/// presence with no game clears it.
pub fn game_state_update_event(
    state: &mut DiscordState,
    info: &DiscordInfo,
    display_name: &String,
    game: Option<String>,
) -> (decision: JoinDecision)
    ensures
        (*final(state), decision) == presence_spec(
            info.username@,
            *old(state),
            display_name@,
            match game {
                Some(g) => Some(g@),
                None => None,
            },
        ),
{
    match game {
        Some(name) => {
            let rocket_league = "Rocket League".to_string();
            proof {
                reveal_strlit("Rocket League");
            }
            let name_match_and_playing_game = *display_name == info.username && name
                == rocket_league;
            if name_match_and_playing_game {
                state.user_in_game = !state.user_in_game;
            }
            check_state_and_join_channel(state)
        },
        None => {
            state.user_in_game = false;
            JoinDecision::Stay
        },
    }
}

/// Every event leaves a bot that is in the channel in it, and never has
/// it join again; the bot joins only from outside the channel, with the
/// user in the channel and in the game, and the id it joins is the one
/// recorded.
pub proof fn bot_joins_at_most_once(
    username: Seq<char>,
    watched: Seq<char>,
    s: DiscordState,
    display_name: Seq<char>,
    channel_name: Seq<char>,
    channel_id: Option<u64>,
    game: Option<Seq<char>>,
    server: Option<u64>,
    update_channel: Option<u64>,
)
    ensures
        s.bot_in_channel ==> join_spec(s).0.bot_in_channel && !(join_spec(s).1 is Join),
        s.bot_in_channel ==> voice_update_spec(s, server, update_channel).0.bot_in_channel,
        ({
            let (after, decision) = voice_spec(
                username,
                watched,
                s,
                display_name,
                channel_name,
                channel_id,
            );
            &&& s.bot_in_channel ==> after.bot_in_channel && !(decision is Join)
            &&& decision matches JoinDecision::Join(id) ==> {
                &&& !s.bot_in_channel
                &&& after.bot_in_channel
                &&& after.user_in_channel
                &&& after.user_in_game
                &&& after.channel_id == Some(id)
            }
        }),
        ({
            let (after, decision) = presence_spec(username, s, display_name, game);
            &&& s.bot_in_channel ==> after.bot_in_channel && !(decision is Join)
            &&& decision matches JoinDecision::Join(id) ==> {
                &&& !s.bot_in_channel
                &&& after.bot_in_channel
                &&& after.user_in_channel
                &&& after.user_in_game
                &&& after.channel_id == Some(id)
            }
        }),
{
}

/// The watched user seen twice in the watched channel is back where the
/// bot first had the user, with the channel's id recorded; seen twice
/// playing Rocket League, the same holds of being in the game.
pub proof fn repeated_sightings_cancel(
    username: Seq<char>,
    watched: Seq<char>,
    s: DiscordState,
    channel_id: Option<u64>,
)
    ensures
        ({
            let once = voice_spec(username, watched, s, username, watched, channel_id).0;
            let twice = voice_spec(username, watched, once, username, watched, channel_id).0;
            &&& twice.user_in_channel == s.user_in_channel
            &&& twice.channel_id == channel_id
            &&& twice.user_in_game == s.user_in_game
        }),
        ({
            let once = presence_spec(username, s, username, Some(game_name())).0;
            let twice = presence_spec(username, once, username, Some(game_name())).0;
            &&& twice.user_in_game == s.user_in_game
            &&& twice.user_in_channel == s.user_in_channel
            &&& twice.channel_id == s.channel_id
        }),
{
}

/// Anyone other than the watched user, or any other channel or game,
/// changes nothing of what the bot knows about the user.
pub proof fn other_events_leave_user_alone(
    username: Seq<char>,
    watched: Seq<char>,
    s: DiscordState,
    display_name: Seq<char>,
    channel_name: Seq<char>,
    channel_id: Option<u64>,
    game: Seq<char>,
)
    ensures
        !(display_name == username && channel_name == watched) ==> {
            let after = voice_spec(username, watched, s, display_name, channel_name, channel_id).0;
            &&& after.user_in_channel == s.user_in_channel
            &&& after.user_in_game == s.user_in_game
            &&& after.channel_id == s.channel_id
        },
        !(display_name == username && game == game_name()) ==> {
            let after = presence_spec(username, s, display_name, Some(game)).0;
            &&& after.user_in_channel == s.user_in_channel
            &&& after.user_in_game == s.user_in_game
            &&& after.channel_id == s.channel_id
        },
{
}

} // verus!
