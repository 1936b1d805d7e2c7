use dynamic_entry_bot::commands::{
    command_step, CommandAction, CommandEvent, CommandReply, CommandState,
};
use dynamic_entry_bot::discord_state::{
    channel_is_voice, check_state_and_join_channel, game_state_update_event,
    voice_channel_update_event, DiscordInfo, DiscordState, JoinDecision, VoiceStep,
};

fn info() -> DiscordInfo {
    DiscordInfo { username: "alice".to_string(), channel: "General".to_string() }
}

fn s(name: &str) -> String {
    name.to_string()
}

#[test]
fn new_state_knows_nothing() {
    let st = DiscordState::new();
    assert_eq!(
        st,
        DiscordState {
            bot_in_channel: false,
            channel_id: None,
            user_in_channel: false,
            user_in_game: false
        }
    );
}

#[test]
fn bot_joins_when_user_in_channel_and_game() {
    let mut st = DiscordState::new();
    let d = channel_is_voice(&mut st, &info(), &s("alice"), &s("General"), Some(77));
    assert_eq!(d, JoinDecision::Stay);
    assert!(st.user_in_channel);
    assert_eq!(st.channel_id, Some(77));
    let d = game_state_update_event(&mut st, &info(), &s("alice"), Some(s("Rocket League")));
    assert_eq!(d, JoinDecision::Join(77));
    assert!(st.bot_in_channel);
}

#[test]
fn bot_joins_only_once() {
    let mut st = DiscordState::new();
    channel_is_voice(&mut st, &info(), &s("alice"), &s("General"), Some(77));
    game_state_update_event(&mut st, &info(), &s("alice"), Some(s("Rocket League")));
    assert!(st.bot_in_channel);
    // leave and come back, stop and start the game: never a second join
    channel_is_voice(&mut st, &info(), &s("alice"), &s("General"), Some(77));
    let d = channel_is_voice(&mut st, &info(), &s("alice"), &s("General"), Some(78));
    assert_eq!(d, JoinDecision::Stay);
    let d = game_state_update_event(&mut st, &info(), &s("alice"), Some(s("Rocket League")));
    assert_eq!(d, JoinDecision::Stay);
    let d = game_state_update_event(&mut st, &info(), &s("alice"), Some(s("Rocket League")));
    assert_eq!(d, JoinDecision::Stay);
    assert!(st.bot_in_channel);
}

#[test]
fn game_first_then_channel_also_joins() {
    let mut st = DiscordState::new();
    let d = game_state_update_event(&mut st, &info(), &s("alice"), Some(s("Rocket League")));
    assert_eq!(d, JoinDecision::Stay);
    assert!(st.user_in_game);
    let d = channel_is_voice(&mut st, &info(), &s("alice"), &s("General"), Some(5));
    assert_eq!(d, JoinDecision::Join(5));
}

#[test]
fn no_channel_id_is_reported() {
    let mut st = DiscordState {
        bot_in_channel: false,
        channel_id: None,
        user_in_channel: true,
        user_in_game: true,
    };
    assert_eq!(check_state_and_join_channel(&mut st), JoinDecision::NoChannelId);
    assert!(!st.bot_in_channel);
}

#[test]
fn other_user_or_channel_or_game_changes_nothing() {
    let mut st = DiscordState::new();
    channel_is_voice(&mut st, &info(), &s("bob"), &s("General"), Some(1));
    channel_is_voice(&mut st, &info(), &s("alice"), &s("Other"), Some(2));
    game_state_update_event(&mut st, &info(), &s("alice"), Some(s("Chess")));
    game_state_update_event(&mut st, &info(), &s("bob"), Some(s("Rocket League")));
    assert_eq!(st, DiscordState::new());
}

#[test]
fn seen_twice_toggles_back() {
    let mut st = DiscordState::new();
    channel_is_voice(&mut st, &info(), &s("alice"), &s("General"), Some(3));
    channel_is_voice(&mut st, &info(), &s("alice"), &s("General"), Some(3));
    assert!(!st.user_in_channel);
    assert_eq!(st.channel_id, Some(3));
}

#[test]
fn presence_without_game_clears_game() {
    let mut st = DiscordState::new();
    game_state_update_event(&mut st, &info(), &s("alice"), Some(s("Rocket League")));
    assert!(st.user_in_game);
    let d = game_state_update_event(&mut st, &info(), &s("anyone"), None);
    assert_eq!(d, JoinDecision::Stay);
    assert!(!st.user_in_game);
}

#[test]
fn voice_update_without_channel_means_left() {
    let mut st = DiscordState::new();
    st.user_in_channel = true;
    assert_eq!(voice_channel_update_event(&mut st, Some(1), None), VoiceStep::Left);
    assert!(!st.user_in_channel);
    st.user_in_channel = true;
    assert_eq!(voice_channel_update_event(&mut st, None, Some(2)), VoiceStep::Left);
    assert!(!st.user_in_channel);
    st.user_in_channel = true;
    assert_eq!(
        voice_channel_update_event(&mut st, Some(1), Some(2)),
        VoiceStep::LookUp { server: 1, channel: 2 }
    );
    assert!(st.user_in_channel);
}

#[test]
fn join_command_happy_path() {
    let (st, a) =
        command_step(CommandState::Join { author: 12323232323 }, CommandEvent::Argument(Some(34343434)));
    assert_eq!(a, CommandAction::FindGuild);
    let (st, a) = command_step(st, CommandEvent::Guild(Some(9)));
    assert_eq!(a, CommandAction::JoinVoice { guild: 9, channel: 34343434 });
    let (st, a) = command_step(st, CommandEvent::Joined(true));
    assert_eq!(a, CommandAction::FetchMusic { user: 12323232323 });
    let (st, a) = command_step(st, CommandEvent::Music(true));
    assert_eq!(a, CommandAction::PlayMusic { guild: 9, reply: CommandReply::Joined });
    assert_eq!(st, CommandState::Done);
}

#[test]
fn join_command_without_music_still_joins() {
    let (st, _) = command_step(CommandState::Join { author: 1 }, CommandEvent::Argument(Some(2)));
    let (st, _) = command_step(st, CommandEvent::Guild(Some(3)));
    let (st, _) = command_step(st, CommandEvent::Joined(true));
    assert_eq!(
        command_step(st, CommandEvent::Music(false)),
        (CommandState::Done, CommandAction::Reply(CommandReply::Joined))
    );
}

#[test]
fn join_command_failures() {
    let (st, a) = command_step(CommandState::Join { author: 1 }, CommandEvent::Argument(None));
    assert_eq!((st, a), (CommandState::Done, CommandAction::Reply(CommandReply::InvalidChannelId)));
    let (st, _) = command_step(CommandState::Join { author: 1 }, CommandEvent::Argument(Some(1)));
    let (st2, a) = command_step(st, CommandEvent::Guild(None));
    assert_eq!((st2, a), (CommandState::Done, CommandAction::Reply(CommandReply::NoGuild)));
    let (st, _) = command_step(st, CommandEvent::Guild(Some(2)));
    let (_, a) = command_step(st, CommandEvent::Joined(false));
    assert_eq!(a, CommandAction::Reply(CommandReply::JoinFailed));
}

#[test]
fn leave_command_paths() {
    let (st, a) = command_step(CommandState::Leave, CommandEvent::Guild(Some(4)));
    assert_eq!(a, CommandAction::CheckVoice { guild: 4 });
    assert_eq!(
        command_step(st, CommandEvent::Connected(true)),
        (CommandState::Done, CommandAction::LeaveVoice { guild: 4, reply: CommandReply::Left })
    );
    assert_eq!(
        command_step(st, CommandEvent::Connected(false)),
        (CommandState::Done, CommandAction::Reply(CommandReply::NotInVoice))
    );
    assert_eq!(
        command_step(CommandState::Leave, CommandEvent::Guild(None)),
        (CommandState::Done, CommandAction::Reply(CommandReply::NoGuild))
    );
}

#[test]
fn stray_events_end_the_command() {
    assert_eq!(
        command_step(CommandState::Done, CommandEvent::Joined(true)),
        (CommandState::Done, CommandAction::Nothing)
    );
    assert_eq!(
        command_step(CommandState::Join { author: 1 }, CommandEvent::Guild(Some(1))),
        (CommandState::Done, CommandAction::Nothing)
    );
}

#[test]
fn reply_texts() {
    assert_eq!(CommandReply::InvalidChannelId.text(), "Requires a valid voice channel ID be given");
    assert_eq!(CommandReply::NoGuild.text(), "Groups and DMs not supported");
    assert_eq!(CommandReply::Joined.text(), ";;join");
    assert_eq!(CommandReply::JoinFailed.text(), "Error joining the channel");
    assert_eq!(CommandReply::Left.text(), ";;leave");
    assert_eq!(CommandReply::NotInVoice.text(), "Not in a voice channel");
    assert!(CommandReply::InvalidChannelId.to_author());
    assert!(CommandReply::NotInVoice.to_author());
    assert!(!CommandReply::Joined.to_author());
    assert!(!CommandReply::NoGuild.to_author());
}
