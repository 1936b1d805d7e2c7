//! The bot itself: logged out it is a table of users and a token; logged
//! in it answers each user who arrives with that user's music.

use vstd::prelude::*;
use crate::internal_api::{same_response, ApiLinks, ApiResponse, InternalApi};
use crate::users::UserTable;

verus! {

broadcast use vstd::string::group_string_axioms;

/// What the bot is set up with: the music of each registered user, and the
/// token that the client logs in with.
pub struct BotSettings {
    pub users: Map<Seq<char>, Seq<char>>,
    pub token: Seq<char>,
}

/// The music played for a user who has none registered.
pub open spec fn greeting() -> Seq<char> {
    "A New Challenger"@
}

/// The music that `user` gets: the registered music, or the greeting for a
/// user who has none.
pub open spec fn music_for(users: Map<Seq<char>, Seq<char>>, user: Seq<char>) -> Seq<char> {
    if users.contains_key(user) {
        users[user]
    } else {
        greeting()
    }
}

/// What the bot does about one message from the client.
pub enum BotAction {
    /// Play this music.
    Play(String),
    /// Stop listening: the client is shutting down.
    Stop,
}

/// A bot that is not logged in: its users and its token, as read from the
/// configuration.
pub struct LoggedOutDBot {
    users: UserTable,
    token: String,
}

impl View for LoggedOutDBot {
    type V = BotSettings;

    closed spec fn view(&self) -> BotSettings {
        BotSettings { users: self.users@, token: self.token@ }
    }
}

/// A logged-in bot: its users, and the link to the client thread.
pub struct DynamicBot {
    users: UserTable,
    api: InternalApi,
}

impl View for DynamicBot {
    type V = BotSettings;

    closed spec fn view(&self) -> BotSettings {
        BotSettings { users: self.users@, token: self.api.token_view() }
    }
}

impl LoggedOutDBot {
    /// A logged-out bot with the given users and token.
    pub fn new(users: UserTable, token: String) -> (bot: LoggedOutDBot)
        ensures
            bot@ == (BotSettings { users: users@, token: token@ }),
    {
        LoggedOutDBot { users, token }
    }

    /// The registered users.
    pub fn users(&self) -> (users: &UserTable)
        ensures
            users@ == self@.users,
    {
        &self.users
    }

    /// The token the client logs in with.
    pub fn token(&self) -> (token: &String)
        ensures
            token@ == self@.token,
    {
        &self.token
    }

    /// Logs in over `links`, the channels to a client thread started with
    /// this bot's token. The bot keeps its users and its token.
    pub fn login(self, links: ApiLinks) -> (bot: DynamicBot)
        ensures
            logged_in(self, bot),
    {
        let api = InternalApi::new(self.token, links);
        DynamicBot { users: self.users, api }
    }
}

impl DynamicBot {
    /// The music for `user`: the registered music, or "A New Challenger"
    /// for a user who has none.
    pub fn get_music(&self, user: String) -> (music: String)
        ensures
            music@ == music_for(self@.users, user@),
    {
        match self.users.get(&user) {
            Some(music) => music.clone(),
            None => {
                let greeting = "A New Challenger".to_string();
                proof {
                    reveal_strlit("A New Challenger");
                }
                greeting
            },
        }
    }

    /// What the bot does about `response`: a user who logged in gets that
    /// user's music, and a logout stops the bot.
    pub fn respond(&self, response: ApiResponse) -> (action: BotAction)
        ensures
            match response {
                ApiResponse::User(name) => action matches BotAction::Play(music) && music@
                    == music_for(self@.users, name@),
                ApiResponse::Logout() => action is Stop,
            },
    {
        match response {
            ApiResponse::User(name) => BotAction::Play(self.get_music(name)),
            ApiResponse::Logout() => BotAction::Stop,
        }
    }

    /// The music handed to the client so far, oldest first.
    pub closed spec fn sent_music(&self) -> Seq<String> {
        self.api.sent_music()
    }

    /// The requests to shut down handed to the client so far.
    pub closed spec fn close_requests(&self) -> Seq<ApiResponse> {
        self.api.close_requests()
    }

    /// The messages taken from the client so far, oldest first.
    pub closed spec fn received(&self) -> Seq<ApiResponse> {
        self.api.received()
    }

    /// Acts on `response` from the client: hands the client the music of a
    /// user who logged in, or stops on a logout. Gives back the message with
    /// what was done about it.
    pub fn act_on(&mut self, response: ApiResponse) -> (answer: (ApiResponse, BotAction))
        ensures
            answer.0 == response,
            answered(*old(self), *final(self), Some(answer)),
            final(self).received() == old(self).received(),
    {
        match response {
            ApiResponse::User(name) => {
                let action = self.respond(ApiResponse::User(name.clone()));
                match action {
                    BotAction::Play(music) => {
                        self.api.send_music(music.clone());
                        (ApiResponse::User(name), BotAction::Play(music))
                    },
                    BotAction::Stop => (ApiResponse::User(name), BotAction::Stop),
                }
            },
            ApiResponse::Logout() => {
                let action = self.respond(ApiResponse::Logout());
                (ApiResponse::Logout(), action)
            },
        }
    }

    /// Takes the next message from the client and acts on it as `act_on`
    /// does. Gives back the message with what was done about it; `None` once
    /// the client thread is gone.
    pub fn listen_step(&mut self) -> (step: Option<(ApiResponse, BotAction)>)
        ensures
            answered(*old(self), *final(self), step),
            heard(*old(self), *final(self), step),
    {
        match self.api.recieve_response() {
            Some(response) => Some(self.act_on(response)),
            None => None,
        }
    }

    /// Logs out: asks the client to shut down, handing it one `Logout`.
    /// Gives back the bot with its users and the token the client logged in
    /// with, and the requests to shut down handed over in all, this one last.
    pub fn logout(self) -> (out: (LoggedOutDBot, Ghost<Seq<ApiResponse>>))
        ensures
            logged_out(self, out.0),
            out.1@ == self.close_requests().push(ApiResponse::Logout()),
    {
        let (token, requests) = self.api.close();
        (LoggedOutDBot { users: self.users, token }, requests)
    }
}

/// `bot` is `before` logged in: the same users and token, and no music and
/// no request to shut down handed to the client yet.
pub open spec fn logged_in(before: LoggedOutDBot, bot: DynamicBot) -> bool {
    &&& bot@ == before@
    &&& bot.sent_music() == Seq::<String>::empty()
    &&& bot.close_requests() == Seq::<ApiResponse>::empty()
}

/// `after` is `bot` logged out: the same users and token.
pub open spec fn logged_out(bot: DynamicBot, after: LoggedOutDBot) -> bool {
    after@ == bot@
}

/// `after` is `before` once it has acted on `step`: the settings stay, a
/// user who logged in gets that user's music handed to the client, and a
/// logout stops the bot and hands nothing; where nothing came, nothing is
/// handed. No request to shut down is handed meanwhile.
pub open spec fn answered(
    before: DynamicBot,
    after: DynamicBot,
    step: Option<(ApiResponse, BotAction)>,
) -> bool {
    &&& after@ == before@
    &&& after.close_requests() == before.close_requests()
    &&& match step {
        Some((ApiResponse::User(name), action)) => action matches BotAction::Play(music) && music@
            == music_for(before@.users, name@) && after.sent_music() == before.sent_music().push(
            music,
        ),
        Some((ApiResponse::Logout(), action)) => action is Stop && after.sent_music()
            == before.sent_music(),
        None => after.sent_music() == before.sent_music(),
    }
}

/// `step` acts on the message the client sent next: where one came, it is
/// the message taken from the client, as sent; where none came, nothing was
/// taken.
pub open spec fn heard(
    before: DynamicBot,
    after: DynamicBot,
    step: Option<(ApiResponse, BotAction)>,
) -> bool {
    match step {
        Some((response, _)) => {
            &&& after.received().len() == before.received().len() + 1
            &&& after.received().drop_last() == before.received()
            &&& same_response(after.received().last(), response)
        },
        None => after.received() == before.received(),
    }
}

/// A step that takes a user from the client hands the client exactly the
/// music registered for that user as the client sent the name (the
/// greeting for a user without music), and takes nothing else.
pub proof fn listening_plays_for_the_user_sent(
    before: DynamicBot,
    after: DynamicBot,
    step: Option<(ApiResponse, BotAction)>,
    name: String,
)
    requires
        answered(before, after, step),
        heard(before, after, step),
        after.received().len() == before.received().len() + 1,
        after.received().last() == ApiResponse::User(name),
    ensures
        step matches Some((_, BotAction::Play(music))) && music@ == music_for(
            before@.users,
            name@,
        ) && after.sent_music() == before.sent_music().push(music),
        before@.users.contains_key(name@) ==> after.sent_music().last()@ == before@.users[name@],
        !before@.users.contains_key(name@) ==> after.sent_music().last()@ == "A New Challenger"@,
{
}

/// The text of each piece of music in `music`.
pub open spec fn texts(music: Seq<String>) -> Seq<Seq<char>> {
    music.map_values(|m: String| m@)
}

/// The music owed for the messages of `steps`, in order: that of each user
/// who logged in.
pub open spec fn music_owed(
    users: Map<Seq<char>, Seq<char>>,
    steps: Seq<Option<(ApiResponse, BotAction)>>,
) -> Seq<Seq<char>>
    decreases steps.len(),
{
    if steps.len() == 0 {
        Seq::empty()
    } else {
        let before = music_owed(users, steps.drop_last());
        match steps.last() {
            Some((ApiResponse::User(name), _)) => before.push(music_for(users, name@)),
            _ => before,
        }
    }
}

/// After `k` steps of a session the bot has its settings of the start, and
/// has handed the client the music owed for those steps.
proof fn lemma_session_prefix(
    before: LoggedOutDBot,
    states: Seq<DynamicBot>,
    steps: Seq<Option<(ApiResponse, BotAction)>>,
    k: int,
)
    requires
        states.len() == steps.len() + 1,
        logged_in(before, states[0]),
        forall|i: int|
            0 <= i < steps.len() ==> answered(states[i], states[i + 1], #[trigger] steps[i]),
        0 <= k <= steps.len(),
    ensures
        states[k]@ == before@,
        texts(states[k].sent_music()) == music_owed(before@.users, steps.take(k)),
        states[k].close_requests() == Seq::<ApiResponse>::empty(),
    decreases k,
{
    if k == 0 {
        assert(texts(states[0].sent_music()) =~= Seq::<Seq<char>>::empty());
        assert(steps.take(0) =~= Seq::<Option<(ApiResponse, BotAction)>>::empty());
    } else {
        lemma_session_prefix(before, states, steps, k - 1);
        let step = steps[k - 1];
        assert(answered(states[k - 1], states[k], step));
        assert(steps.take(k).drop_last() =~= steps.take(k - 1));
        assert(steps.take(k).last() == step);
        match step {
            Some((ApiResponse::User(name), action)) => {
                let music = action->Play_0;
                assert(texts(states[k].sent_music()) =~= texts(states[k - 1].sent_music()).push(
                    music@,
                ));
            },
            _ => {},
        }
    }
}

/// A whole session: log in, act on any run of messages, log out. The bot
/// comes back with the users and token it had, has handed the client, in
/// order, exactly the music of each user who logged in, and has asked it to
/// shut down exactly once, at the end.
pub proof fn session_sends_each_users_music(
    before: LoggedOutDBot,
    states: Seq<DynamicBot>,
    steps: Seq<Option<(ApiResponse, BotAction)>>,
    after: LoggedOutDBot,
    close_requests: Seq<ApiResponse>,
)
    requires
        states.len() == steps.len() + 1,
        logged_in(before, states[0]),
        forall|i: int|
            0 <= i < steps.len() ==> answered(states[i], states[i + 1], #[trigger] steps[i]),
        logged_out(states.last(), after),
        close_requests == states.last().close_requests().push(ApiResponse::Logout()),
    ensures
        after@ == before@,
        texts(states.last().sent_music()) == music_owed(before@.users, steps),
        close_requests == seq![ApiResponse::Logout()],
{
    lemma_session_prefix(before, states, steps, steps.len() as int);
    assert(steps.take(steps.len() as int) =~= steps);
}

/// Two users without registered music hear the same greeting, and a user
/// with registered music hears that music.
pub proof fn unregistered_users_share_greeting(
    users: Map<Seq<char>, Seq<char>>,
    first: Seq<char>,
    second: Seq<char>,
)
    ensures
        !users.contains_key(first) && !users.contains_key(second) ==> music_for(users, first)
            == music_for(users, second),
        users.contains_key(first) ==> music_for(users, first) == users[first],
{
}

} // verus!
