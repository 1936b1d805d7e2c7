use dynamic_entry_bot::api::{ApiMessage, DiscordApi};
use dynamic_entry_bot::dynamic_bot::{BotAction, LoggedOutDBot};
use dynamic_entry_bot::internal_api::{ApiLinks, ApiResponse, InternalApi};
use dynamic_entry_bot::users::UserTable;
use std::sync::mpsc;

fn table() -> UserTable {
    let mut t = UserTable::new();
    t.insert("12323232323".to_string(), "youtube link".to_string());
    t.insert("42".to_string(), "theme".to_string());
    t
}

struct Client {
    api_tx: mpsc::Sender<ApiResponse>,
    music_rx: mpsc::Receiver<String>,
    close_rx: mpsc::Receiver<ApiResponse>,
}

fn links() -> (ApiLinks, Client) {
    let (api_tx, api_rx) = mpsc::channel();
    let (music_tx, music_rx) = mpsc::channel();
    let (close_tx, close_rx) = mpsc::channel();
    (ApiLinks { api_rx, music_tx, close_tx }, Client { api_tx, music_rx, close_rx })
}

#[test]
fn user_table_get_after_insert() {
    let t = table();
    assert_eq!(t.get(&"42".to_string()).map(|s| s.as_str()), Some("theme"));
    assert_eq!(t.get(&"12323232323".to_string()).map(|s| s.as_str()), Some("youtube link"));
    assert_eq!(t.get(&"7".to_string()), None);
}

#[test]
fn user_table_insert_replaces() {
    let mut t = table();
    t.insert("42".to_string(), "other".to_string());
    assert_eq!(t.get(&"42".to_string()).map(|s| s.as_str()), Some("other"));
    let mut pairs = t.pairs();
    pairs.sort();
    assert_eq!(
        pairs,
        vec![
            ("12323232323".to_string(), "youtube link".to_string()),
            ("42".to_string(), "other".to_string())
        ]
    );
}

#[test]
fn logged_out_bot_keeps_settings() {
    let bot = LoggedOutDBot::new(table(), "sdkfjdkjfdkfjd".to_string());
    assert_eq!(bot.token(), "sdkfjdkjfdkfjd");
    assert_eq!(bot.users().get(&"42".to_string()).map(|s| s.as_str()), Some("theme"));
}

#[test]
fn get_music_of_registered_user() {
    let (l, _client) = links();
    let bot = LoggedOutDBot::new(table(), "tok".to_string()).login(l);
    assert_eq!(bot.get_music("12323232323".to_string()), "youtube link");
}

#[test]
fn get_music_of_unknown_user_is_greeting() {
    let (l, _client) = links();
    let bot = LoggedOutDBot::new(table(), "tok".to_string()).login(l);
    assert_eq!(bot.get_music("nobody".to_string()), "A New Challenger");
    assert_eq!(bot.get_music("".to_string()), "A New Challenger");
}

#[test]
fn respond_plays_music_or_stops() {
    let (l, _client) = links();
    let bot = LoggedOutDBot::new(table(), "tok".to_string()).login(l);
    match bot.respond(ApiResponse::User("42".to_string())) {
        BotAction::Play(m) => assert_eq!(m, "theme"),
        BotAction::Stop => panic!("expected music"),
    }
    assert!(matches!(bot.respond(ApiResponse::Logout()), BotAction::Stop));
}

#[test]
fn listen_step_sends_music_over_channel() {
    let (l, client) = links();
    let mut bot = LoggedOutDBot::new(table(), "tok".to_string()).login(l);
    client.api_tx.send(ApiResponse::User("42".to_string())).unwrap();
    client.api_tx.send(ApiResponse::User("unknown".to_string())).unwrap();
    client.api_tx.send(ApiResponse::Logout()).unwrap();
    match bot.listen_step() {
        Some((ApiResponse::User(n), BotAction::Play(m))) => {
            assert_eq!(n, "42");
            assert_eq!(m, "theme");
        }
        _ => panic!("expected music for 42"),
    }
    match bot.listen_step() {
        Some((ApiResponse::User(n), BotAction::Play(m))) => {
            assert_eq!(n, "unknown");
            assert_eq!(m, "A New Challenger");
        }
        _ => panic!("expected the greeting"),
    }
    assert!(matches!(bot.listen_step(), Some((ApiResponse::Logout(), BotAction::Stop))));
    assert_eq!(client.music_rx.recv().unwrap(), "theme");
    assert_eq!(client.music_rx.recv().unwrap(), "A New Challenger");
    assert!(client.music_rx.try_recv().is_err());
}

#[test]
fn listen_step_notices_client_gone() {
    let (l, client) = links();
    let mut bot = LoggedOutDBot::new(table(), "tok".to_string()).login(l);
    drop(client.api_tx);
    assert!(bot.listen_step().is_none());
}

#[test]
fn login_then_logout_gives_back_settings() {
    let (l, client) = links();
    let bot = LoggedOutDBot::new(table(), "secret".to_string()).login(l);
    let (back, _requests) = bot.logout();
    assert_eq!(back.token(), "secret");
    assert_eq!(back.users().get(&"42".to_string()).map(|s| s.as_str()), Some("theme"));
    assert!(matches!(client.close_rx.recv().unwrap(), ApiResponse::Logout()));
}

#[test]
fn internal_api_close_returns_token() {
    let (l, client) = links();
    let mut api = InternalApi::new("abc".to_string(), l);
    client.api_tx.send(ApiResponse::User("9".to_string())).unwrap();
    match api.recieve_response() {
        Some(ApiResponse::User(n)) => assert_eq!(n, "9"),
        _ => panic!("expected a user"),
    }
    api.send_music("tune".to_string());
    assert_eq!(client.music_rx.recv().unwrap(), "tune");
    assert_eq!(api.close().0, "abc");
}

#[test]
fn discord_api_resolves_logout_with_own_token() {
    let (_tx, rx) = mpsc::channel::<ApiMessage>();
    let (mtx, _mrx) = mpsc::channel::<String>();
    let api = DiscordApi::new("mine".to_string(), rx, mtx);
    match api.resolve_message(ApiMessage::Logout()) {
        ApiMessage::LogoutWithToken(t) => assert_eq!(t, "mine"),
        _ => panic!("expected a token"),
    }
    match api.resolve_message(ApiMessage::LogoutWithToken("theirs".to_string())) {
        ApiMessage::LogoutWithToken(t) => assert_eq!(t, "theirs"),
        _ => panic!("expected a token"),
    }
    match api.resolve_message(ApiMessage::User("u".to_string())) {
        ApiMessage::User(n) => assert_eq!(n, "u"),
        _ => panic!("expected a user"),
    }
}

#[test]
fn discord_api_receives_and_sends() {
    let (tx, rx) = mpsc::channel::<ApiMessage>();
    let (mtx, mrx) = mpsc::channel::<String>();
    let mut api = DiscordApi::new("mine".to_string(), rx, mtx);
    tx.send(ApiMessage::Logout()).unwrap();
    match api.recieve_response() {
        Some(ApiMessage::LogoutWithToken(t)) => assert_eq!(t, "mine"),
        _ => panic!("expected a token"),
    }
    assert!(api.send_music("m".to_string()));
    assert_eq!(mrx.recv().unwrap(), "m");
    drop(mrx);
    assert!(!api.send_music("n".to_string()));
    drop(tx);
    assert!(api.recieve_response().is_none());
}

#[test]
fn act_on_user_and_logout() {
    let (l, client) = links();
    let mut bot = LoggedOutDBot::new(table(), "tok".to_string()).login(l);
    match bot.act_on(ApiResponse::User("12323232323".to_string())) {
        (ApiResponse::User(n), BotAction::Play(m)) => {
            assert_eq!(n, "12323232323");
            assert_eq!(m, "youtube link");
        }
        _ => panic!("expected music"),
    }
    assert_eq!(client.music_rx.recv().unwrap(), "youtube link");
    assert!(matches!(bot.act_on(ApiResponse::Logout()), (ApiResponse::Logout(), BotAction::Stop)));
    assert!(client.music_rx.try_recv().is_err());
}

#[test]
fn relay_response_keeps_message() {
    match InternalApi::relay_response(ApiResponse::User("u".to_string())) {
        ApiResponse::User(n) => assert_eq!(n, "u"),
        _ => panic!("expected a user"),
    }
    assert!(matches!(InternalApi::relay_response(ApiResponse::Logout()), ApiResponse::Logout()));
}

#[test]
fn close_hands_over_one_logout() {
    let (l, client) = links();
    let api = InternalApi::new("t".to_string(), l);
    let (token, _requests) = api.close();
    assert_eq!(token, "t");
    assert!(matches!(client.close_rx.recv().unwrap(), ApiResponse::Logout()));
    assert!(client.close_rx.try_recv().is_err());
}

#[test]
fn user_table_from_pairs_later_wins() {
    let t = UserTable::from_pairs(vec![
        ("a".to_string(), "1".to_string()),
        ("b".to_string(), "2".to_string()),
        ("a".to_string(), "3".to_string()),
    ]);
    assert_eq!(t.get(&"a".to_string()).map(|s| s.as_str()), Some("3"));
    assert_eq!(t.get(&"b".to_string()).map(|s| s.as_str()), Some("2"));
    assert_eq!(t.pairs().len(), 2);
    assert_eq!(UserTable::from_pairs(vec![]).pairs().len(), 0);
}
