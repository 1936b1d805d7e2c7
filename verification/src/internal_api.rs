//! The bot's side of the link to the thread that runs the Discord client:
//! users who log in arrive on one channel, the music to play goes back on
//! another, and a third asks the client to shut down.

use vstd::prelude::*;
use std::sync::mpsc::{Receiver, Sender};
use crate::channel::{send, take_next, Inbox, Outbox};

verus! {

/// A message from the client thread to the bot.
pub enum ApiResponse {
    /// A user logged in; the name is the user's id.
    User(String),
    /// The client is shutting down.
    Logout(),
}

/// `a` and `b` are the same message: the same kind, with the same user.
pub open spec fn same_response(a: ApiResponse, b: ApiResponse) -> bool {
    match (a, b) {
        (ApiResponse::User(x), ApiResponse::User(y)) => x@ == y@,
        (ApiResponse::Logout(), ApiResponse::Logout()) => true,
        _ => false,
    }
}

/// The three channel ends that tie the bot to a client thread.
pub struct ApiLinks {
    /// Brings the users who log in.
    pub api_rx: Receiver<ApiResponse>,
    /// Takes the music to play.
    pub music_tx: Sender<String>,
    /// Takes the request to shut down.
    pub close_tx: Sender<ApiResponse>,
}

/// A running link to a client thread, with the token that the client
/// logged in with.
pub struct InternalApi {
    token: String,
    api_rx: Inbox<ApiResponse>,
    music_tx: Outbox<String>,
    close_tx: Outbox<ApiResponse>,
}

impl InternalApi {
    /// The token that the client logged in with.
    pub closed spec fn token_view(&self) -> Seq<char> {
        self.token@
    }

    /// The music handed to the client so far, oldest first.
    pub closed spec fn sent_music(&self) -> Seq<String> {
        self.music_tx.handed()
    }

    /// The messages taken from the client so far, oldest first.
    pub closed spec fn received(&self) -> Seq<ApiResponse> {
        self.api_rx.received()
    }

    /// The requests to shut down handed to the client so far, oldest first.
    pub closed spec fn close_requests(&self) -> Seq<ApiResponse> {
        self.close_tx.handed()
    }

    /// The link to a client that logged in with `token` and talks over
    /// `links`.
    pub fn new(token: String, links: ApiLinks) -> (api: InternalApi)
        ensures
            api.token_view() == token@,
            api.sent_music() == Seq::<String>::empty(),
            api.close_requests() == Seq::<ApiResponse>::empty(),
            api.received() == Seq::<ApiResponse>::empty(),
    {
        InternalApi {
            token,
            api_rx: Inbox::new(links.api_rx),
            music_tx: Outbox::new(links.music_tx),
            close_tx: Outbox::new(links.close_tx),
        }
    }

    /// Waits for the next message from the client: `None` once the client
    /// thread is gone. A message that comes is handed on as the client sent
    /// it.
    pub fn recieve_response(&mut self) -> (response: Option<ApiResponse>)
        ensures
            final(self).token_view() == old(self).token_view(),
            final(self).sent_music() == old(self).sent_music(),
            final(self).close_requests() == old(self).close_requests(),
            match response {
                Some(r) => {
                    &&& final(self).received().len() == old(self).received().len() + 1
                    &&& final(self).received().drop_last() == old(self).received()
                    &&& same_response(final(self).received().last(), r)
                },
                None => final(self).received() == old(self).received(),
            },
    {
        match take_next(&mut self.api_rx) {
            Some(message) => Some(Self::relay_response(message)),
            None => None,
        }
    }

    /// The message handed on for `message` as it came from the client: the
    /// same kind, with the same user.
    pub fn relay_response(message: ApiResponse) -> (relayed: ApiResponse)
        ensures
            same_response(message, relayed),
    {
        match message {
            ApiResponse::User(name) => ApiResponse::User(name),
            ApiResponse::Logout() => ApiResponse::Logout(),
        }
    }

    /// Hands `music` to the client to play; what becomes of it is up to the
    /// client.
    pub fn send_music(&mut self, music: String)
        ensures
            final(self).sent_music() == old(self).sent_music().push(music),
            final(self).token_view() == old(self).token_view(),
            final(self).close_requests() == old(self).close_requests(),
            final(self).received() == old(self).received(),
    {
        let _delivered = send(&mut self.music_tx, music);
    }

    /// Asks the client to shut down: hands it one `Logout`. Gives back the
    /// token the client logged in with, and the requests to shut down handed
    /// over in all, this one last.
    pub fn close(self) -> (closed: (String, Ghost<Seq<ApiResponse>>))
        ensures
            closed.0@ == self.token_view(),
            closed.1@ == self.close_requests().push(ApiResponse::Logout()),
    {
        let mut close_tx = self.close_tx;
        let _delivered = send(&mut close_tx, ApiResponse::Logout());
        (self.token.clone(), Ghost(close_tx.handed()))
    }
}

} // verus!
