//! A second form of the link to the client thread, in which a logout
//! carries the token that the client logged in with.

use vstd::prelude::*;
use std::sync::mpsc::{Receiver, Sender};
use crate::channel::{send, take_next, Inbox, Outbox};

verus! {

/// A message from the client thread.
pub enum ApiMessage {
    /// A user logged in; the name is the user's id.
    User(String),
    /// The client is shutting down.
    Logout(),
    /// The client is shutting down; it had logged in with this token.
    LogoutWithToken(String),
}

/// The link to a client thread, with the token that the client logged in
/// with.
pub struct DiscordApi {
    token: String,
    api_rx: Inbox<ApiMessage>,
    music_tx: Outbox<String>,
}

impl DiscordApi {
    /// The token that the client logged in with.
    pub closed spec fn token_view(&self) -> Seq<char> {
        self.token@
    }

    /// The music handed to the client so far, oldest first.
    pub closed spec fn sent_music(&self) -> Seq<String> {
        self.music_tx.handed()
    }

    /// The messages taken from the client so far, oldest first.
    pub closed spec fn received(&self) -> Seq<ApiMessage> {
        self.api_rx.received()
    }

    /// The link to a client that logged in with `token`, which sends its
    /// messages on the channel of `api_rx` and takes music on that of
    /// `music_tx`.
    pub fn new(token: String, api_rx: Receiver<ApiMessage>, music_tx: Sender<String>) -> (api:
        DiscordApi)
        ensures
            api.token_view() == token@,
            api.sent_music() == Seq::<String>::empty(),
            api.received() == Seq::<ApiMessage>::empty(),
    {
        DiscordApi { token, api_rx: Inbox::new(api_rx), music_tx: Outbox::new(music_tx) }
    }

    /// The message handed on for `message`: a logout without a token gets
    /// this link's token; any other message is handed on as it came.
    pub fn resolve_message(&self, message: ApiMessage) -> (resolved: ApiMessage)
        ensures
            resolution(self.token_view(), message, resolved),
    {
        match message {
            ApiMessage::User(name) => ApiMessage::User(name),
            ApiMessage::Logout() => ApiMessage::LogoutWithToken(self.token.clone()),
            ApiMessage::LogoutWithToken(token) => ApiMessage::LogoutWithToken(token),
        }
    }

    /// Waits for the next message from the client and resolves it: `None`
    /// once the client thread is gone. What comes back is the resolution of
    /// the message the client sent; a logout always carries a token.
    pub fn recieve_response(&mut self) -> (response: Option<ApiMessage>)
        ensures
            !(response matches Some(ApiMessage::Logout())),
            final(self).token_view() == old(self).token_view(),
            final(self).sent_music() == old(self).sent_music(),
            received_as(*old(self), *final(self), response),
    {
        let ghost before = self.received();
        match take_next(&mut self.api_rx) {
            Some(message) => {
                assert(self.received().drop_last() =~= before);
                Some(self.resolve_message(message))
            },
            None => None,
        }
    }

    /// Hands `music` to the client to play: `false` where the client is
    /// gone and cannot take it.
    pub fn send_music(&mut self, music: String) -> (delivered: bool)
        ensures
            final(self).sent_music() == old(self).sent_music().push(music),
            final(self).token_view() == old(self).token_view(),
            final(self).received() == old(self).received(),
    {
        send(&mut self.music_tx, music)
    }
}

/// `resolved` is what `message` becomes on a link whose client logged in
/// with `token`: a logout without a token gets `token`, any other message
/// stays as it came.
pub open spec fn resolution(token: Seq<char>, message: ApiMessage, resolved: ApiMessage) -> bool {
    match message {
        ApiMessage::User(name) => resolved matches ApiMessage::User(n) && n@ == name@,
        ApiMessage::Logout() => resolved matches ApiMessage::LogoutWithToken(t) && t@ == token,
        ApiMessage::LogoutWithToken(given) => resolved matches ApiMessage::LogoutWithToken(t) && t@
            == given@,
    }
}

/// `response` is what the link gave for the next message the client sent:
/// where one came, it was taken from the client and resolved on the link's
/// token; where none came, nothing was taken.
pub open spec fn received_as(before: DiscordApi, after: DiscordApi, response: Option<ApiMessage>) -> bool {
    match response {
        Some(r) => {
            &&& after.received().len() == before.received().len() + 1
            &&& after.received().drop_last() == before.received()
            &&& resolution(before.token_view(), after.received().last(), r)
        },
        None => after.received() == before.received(),
    }
}

/// A user that the client sends comes back as that same user, never as a
/// logout; a logout comes back carrying a token, the link's own where the
/// client gave none.
pub proof fn users_come_back_as_sent(
    before: DiscordApi,
    after: DiscordApi,
    response: Option<ApiMessage>,
)
    requires
        received_as(before, after, response),
        response is Some,
    ensures
        after.received().last() matches ApiMessage::User(name) ==> (response matches Some(
            ApiMessage::User(n),
        ) && n@ == name@),
        after.received().last() is Logout ==> (response matches Some(
            ApiMessage::LogoutWithToken(t),
        ) && t@ == before.token_view()),
        response matches Some(ApiMessage::User(_)) ==> after.received().last() is User,
{
}

/// Two messages of the same kind with the same text.
pub open spec fn same_message(a: ApiMessage, b: ApiMessage) -> bool {
    match (a, b) {
        (ApiMessage::User(x), ApiMessage::User(y)) => x@ == y@,
        (ApiMessage::Logout(), ApiMessage::Logout()) => true,
        (ApiMessage::LogoutWithToken(x), ApiMessage::LogoutWithToken(y)) => x@ == y@,
        _ => false,
    }
}

/// A resolved message is never a bare logout, is a user exactly where the
/// message was, and resolving it again changes nothing.
pub proof fn resolution_is_settled(
    token: Seq<char>,
    message: ApiMessage,
    resolved: ApiMessage,
    again: ApiMessage,
)
    requires
        resolution(token, message, resolved),
        resolution(token, resolved, again),
    ensures
        !(resolved is Logout),
        (message is User) <==> (resolved is User),
        same_message(resolved, again),
{
}

} // verus!
