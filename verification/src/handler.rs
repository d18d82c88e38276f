use crate::cache::{Lookup, MemberSnapshot, PermFacts};
use crate::error::{
    DetectError, DownloadError, HandlerError, RemoteActionError, RemoteLookupError,
};
use vstd::prelude::*;
use vstd::string::*;

verus! {

/// For how many seconds a sender of a detected screenshot is restricted.
pub const BAN_DURATION: i64 = 60;

/// A platform account, as far as the bot reads it.
#[derive(Clone, Debug, PartialEq, Eq)]
pub struct User {
    pub id: u64,
    /// The language tag that the account announces, if it does.
    pub language_code: Option<String>,
}

/// An incoming message, as far as the bot reads it.
#[derive(Clone, Debug, PartialEq, Eq)]
pub struct Message {
    pub chat: i64,
    pub id: i32,
    /// The sender, where the platform tells it.
    pub from: Option<User>,
    /// The number of size variants of the attached photo; `None` without a photo.
    pub photo_sizes: Option<usize>,
}

/// The commands that the bot answers.
#[derive(Clone, Copy, Debug, PartialEq, Eq, Structural)]
pub enum Command {
    /// Greets the user and offers the link that adds the bot to a group.
    Start,
    /// Lists the commands.
    Help,
}

/// The texts that the bot sends, each known by the key under which its
/// translations are filed.
#[derive(Clone, Copy, Debug, PartialEq, Eq, Structural)]
pub enum Notice {
    /// The bot's rights in the chat have changed.
    BotPermUpdate,
    /// The sender was restricted.
    Restrict,
    /// A screenshot was found, but the message names no sender to restrict.
    RestrictFailed,
    /// A screenshot was found, but the bot lacks the right to act.
    MomoFound,
    /// The greeting.
    WelcomeBody,
    /// The label of the button that adds the bot to a group as administrator.
    WelcomeSetMeAsAdmin,
}

impl Notice {
    /// The key of the notice, as characters.
    pub open spec fn key_text(self) -> Seq<char> {
        match self {
            Notice::BotPermUpdate => "bot_perm_update"@,
            Notice::Restrict => "restrict"@,
            Notice::RestrictFailed => "restrict_failed"@,
            Notice::MomoFound => "momo_found"@,
            Notice::WelcomeBody => "welcome_body"@,
            Notice::WelcomeSetMeAsAdmin => "welcome_setmeasadmin"@,
        }
    }

    /// The key under which the translations of the notice are filed.
    pub fn key(&self) -> (k: &'static str)
        ensures
            k@ == self.key_text(),
    {
        match self {
            Notice::BotPermUpdate => "bot_perm_update",
            Notice::Restrict => "restrict",
            Notice::RestrictFailed => "restrict_failed",
            Notice::MomoFound => "momo_found",
            Notice::WelcomeBody => "welcome_body",
            Notice::WelcomeSetMeAsAdmin => "welcome_setmeasadmin",
        }
    }
}

/// The locale tag of a user: the language the account announces, English
/// where it announces none or where there is no user.
pub open spec fn locale_of(user: Option<User>) -> Seq<char> {
    match user {
        Some(User { id: _, language_code: Some(lang) }) => lang@,
        _ => "en"@,
    }
}

/// The locale in which the bot answers one user.
pub struct TranslateContext {
    locale: String,
}

impl TranslateContext {
    /// The locale tag, as characters.
    pub closed spec fn locale_tag(&self) -> Seq<char> {
        self.locale@
    }

    /// The context of a user of whom no language is known: English.
    pub fn new() -> (ctx: Self)
        ensures
            ctx.locale_tag() == "en"@,
    {
        TranslateContext { locale: String::from_str("en") }
    }

    /// The context of the sender of a message, or the English one where the
    /// message names no sender.
    pub fn from_message(message: &Message) -> (ctx: Self)
        ensures
            ctx.locale_tag() == locale_of(message.from),
    {
        match &message.from {
            Some(user) => TranslateContext::from_user(user),
            None => TranslateContext::new(),
        }
    }

    /// The context of a user: the language the account announces, or English.
    pub fn from_user(user: &User) -> (ctx: Self)
        ensures
            ctx.locale_tag() == locale_of(Some(*user)),
    {
        match &user.language_code {
            Some(lang) => TranslateContext { locale: String::from_str(lang.as_str()) },
            None => TranslateContext::new(),
        }
    }

    /// The locale tag.
    pub fn locale(&self) -> (tag: &str)
        ensures
            tag@ == self.locale_tag(),
    {
        self.locale.as_str()
    }
}

/// What follows from a change of the bot's membership in a chat.
#[derive(Clone, Copy, Debug, PartialEq, Eq, Structural)]
pub struct BotAdminChange {
    pub chat: i64,
    /// The fact to write over the one held of the chat.
    pub is_admin: bool,
    /// The text to send to the chat afterwards.
    pub notice: Notice,
}

/// What a membership change asks for: where the right to restrict members
/// is after the change what it was before, nothing; else the new fact for
/// the cache and the announcement of it.
pub open spec fn permission_change(
    chat: i64,
    old_member: MemberSnapshot,
    new_member: MemberSnapshot,
) -> Option<BotAdminChange> {
    if new_member.can_restrict_members != old_member.can_restrict_members {
        Some(
            BotAdminChange {
                chat,
                is_admin: new_member.can_restrict_members,
                notice: Notice::BotPermUpdate,
            },
        )
    } else {
        None
    }
}

/// Judges a change of the bot's own membership in `chat`.
pub fn permission_handler(chat: i64, old_member: MemberSnapshot, new_member: MemberSnapshot) -> (change:
    Option<BotAdminChange>)
    ensures
        change == permission_change(chat, old_member, new_member),
{
    if new_member.can_restrict_members != old_member.can_restrict_members {
        Some(
            BotAdminChange {
                chat,
                is_admin: new_member.can_restrict_members,
                notice: Notice::BotPermUpdate,
            },
        )
    } else {
        None
    }
}

/// A change of the bot's right to restrict, once written to the cache as
/// `permission_handler` asks, is what the cache answers with on that chat,
/// without a remote query; a membership change that leaves the right alone
/// asks for nothing.
pub proof fn lemma_change_reaches_the_cache(
    facts: PermFacts,
    chat: i64,
    old_member: MemberSnapshot,
    new_member: MemberSnapshot,
)
    ensures
        new_member.can_restrict_members == old_member.can_restrict_members ==> permission_change(
            chat,
            old_member,
            new_member,
        ) is None,
        new_member.can_restrict_members != old_member.can_restrict_members ==> ({
            let change = permission_change(chat, old_member, new_member);
            &&& change is Some
            &&& facts.with_bot_admin(change.unwrap().chat, change.unwrap().is_admin).bot_lookup(chat)
                == Lookup::Cached(new_member.can_restrict_members)
        }),
{
}

/// What a command is answered with.
#[derive(Clone, Copy, Debug, PartialEq, Eq, Structural)]
pub enum CommandReply {
    /// The greeting, in answer to the message and with previews off, under it
    /// one button that opens `invite_link` of the bot's own user name.
    Welcome { body: Notice, button: Notice },
    /// The list of the commands.
    Help,
}

/// The answer to a command: the greeting to `Start`, the list to `Help`.
pub open spec fn command_reply(command: Command) -> CommandReply {
    match command {
        Command::Start => CommandReply::Welcome {
            body: Notice::WelcomeBody,
            button: Notice::WelcomeSetMeAsAdmin,
        },
        Command::Help => CommandReply::Help,
    }
}

/// Judges a command.
pub fn command_handler(command: Command) -> (reply: CommandReply)
    ensures
        reply == command_reply(command),
{
    match command {
        Command::Start => CommandReply::Welcome {
            body: Notice::WelcomeBody,
            button: Notice::WelcomeSetMeAsAdmin,
        },
        Command::Help => CommandReply::Help,
    }
}

/// The address that adds the bot of user name `username` to a group and asks
/// for the right to restrict members.
pub open spec fn invite_link_text(username: Seq<char>) -> Seq<char> {
    "https://t.me/"@ + username + "?startgroup=start&admin=can_restrict_members"@
}

/// Builds the address behind the greeting's button; a bot without a user
/// name has none.
pub fn invite_link(username: Option<&str>) -> (link: Option<String>)
    ensures
        (match username {
            Some(name) => link.is_some() && link.unwrap()@ == invite_link_text(name@),
            None => link.is_none(),
        }),
{
    match username {
        None => None,
        Some(name) => {
            let mut link = String::from_str("https://t.me/");
            link.append(name);
            link.append("?startgroup=start&admin=can_restrict_members");
            Some(link)
        },
    }
}

/// The local file to which the file at the service's path `remote` is fetched.
pub fn local_path(remote: &str) -> (path: String)
    ensures
        path@ == "/tmp/"@ + remote@,
{
    let mut path = String::from_str("/tmp/");
    path.append(remote);
    path
}

/// The rights that a restricted member keeps, one bit for each.
#[derive(Clone, Copy, Debug, PartialEq, Eq, Structural)]
pub struct Permissions {
    pub bits: u32,
}

impl Permissions {
    /// No right is kept.
    pub open spec fn is_empty(self) -> bool {
        self.bits == 0
    }

    /// The set that keeps no right.
    pub fn empty() -> (none: Self)
        ensures
            none.is_empty(),
            none == (Permissions { bits: 0 }),
    {
        Permissions { bits: 0 }
    }

    /// Whether no right is kept.
    pub fn allows_nothing(&self) -> (nothing: bool)
        ensures
            nothing == self.is_empty(),
    {
        self.bits == 0
    }
}

/// What the handling of a photo message waits for.
#[derive(Clone, Copy, Debug, PartialEq, Eq, Structural)]
pub enum Phase {
    /// Whether the sender is an administrator of the chat.
    CheckingSender { user: u64 },
    /// The first size variant of the photo, fetched to a local file.
    Fetching,
    /// The detector's verdict on that file.
    Detecting,
    /// Whether the bot may restrict members of the chat.
    CheckingBot,
    /// The outcome of the restriction of `user` until `until`.
    Restricting { user: u64, until: i64 },
    /// The outcome of sending `notice`.
    Notifying { notice: Notice },
    /// Nothing: the handling has ended.
    Closed,
}

/// The handling of one message: what it is about, and how far it has come.
#[derive(Clone, Copy, Debug, PartialEq, Eq, Structural)]
pub struct Session {
    pub chat: i64,
    pub message_id: i32,
    pub sender: Option<u64>,
    pub photo_sizes: usize,
    pub phase: Phase,
}

/// What came back from the outside work that a session asked for.
#[derive(Debug, PartialEq, Eq)]
pub enum Event {
    /// The permission cache's answer on the sender.
    UserAdmin(Result<bool, RemoteLookupError>),
    /// The outcome of fetching the photo.
    Downloaded(Result<(), DownloadError>),
    /// The detector's verdict on the photo.
    Detected(Result<bool, DetectError>),
    /// The permission cache's answer on the bot itself.
    BotAdmin(Result<bool, RemoteLookupError>),
    /// The outcome of the restriction.
    Restricted(Result<(), RemoteActionError>),
    /// The outcome of sending a notice.
    Notified(Result<(), RemoteActionError>),
}

/// What a session asks its caller to do next.
#[derive(Debug, PartialEq, Eq)]
pub enum Action {
    /// Ask the permission cache whether `user` is an administrator of `chat`.
    AskUserAdmin { user: u64, chat: i64 },
    /// Fetch the first size variant of the photo.
    Download,
    /// Run the detector on the fetched file.
    Detect,
    /// Ask the permission cache whether the bot may restrict members of `chat`.
    AskBotAdmin { chat: i64 },
    /// Restrict `user` in `chat` to `permissions` until the time `until`, in
    /// seconds since the epoch.
    Restrict { chat: i64, user: u64, permissions: Permissions, until: i64 },
    /// Send `notice` to `chat`, in answer to the message `reply_to`.
    Notify { chat: i64, reply_to: i32, notice: Notice },
    /// End the handling with this result.
    Finish(Result<(), HandlerError>),
    /// Nothing: the event was not what the session waited for.
    Ignored,
}

impl Session {
    /// The session of `message` in the phase `phase`.
    pub open spec fn at(self, phase: Phase) -> Session {
        Session { phase, ..self }
    }

    /// The step taken once the sender is known not to be an administrator,
    /// or the message names no sender: a photo that comes in at least one
    /// size variant is fetched, in its first variant; one that names no
    /// variant at all holds nothing to fetch and is left alone.
    pub open spec fn examine(self) -> (Session, Action) {
        if self.photo_sizes >= 1 {
            (self.at(Phase::Fetching), Action::Download)
        } else {
            (self.at(Phase::Closed), Action::Finish(Ok(())))
        }
    }

    /// The step that ends the session with `result`.
    pub open spec fn close(self, result: Result<(), HandlerError>) -> (Session, Action) {
        (self.at(Phase::Closed), Action::Finish(result))
    }

    /// The step that sends `notice` in answer to the message.
    pub open spec fn notify(self, notice: Notice) -> (Session, Action) {
        (
            self.at(Phase::Notifying { notice }),
            Action::Notify { chat: self.chat, reply_to: self.message_id, notice },
        )
    }

    /// The step taken on the bot's own standing, at the time `now`: a bot
    /// with the right restricts the sender for `BAN_DURATION` seconds from
    /// `now`, keeping no permission, or says that it cannot where the message
    /// names no sender; a bot without the right says what it found.
    pub open spec fn act(self, bot_is_admin: bool, now: i64) -> (Session, Action) {
        if bot_is_admin {
            match self.sender {
                Some(user) => (
                    self.at(Phase::Restricting { user, until: (now + BAN_DURATION) as i64 }),
                    Action::Restrict {
                        chat: self.chat,
                        user,
                        permissions: Permissions { bits: 0 },
                        until: (now + BAN_DURATION) as i64,
                    },
                ),
                None => self.notify(Notice::RestrictFailed),
            }
        } else {
            self.notify(Notice::MomoFound)
        }
    }

    /// The session's next state and the action it asks for, on `event` at the
    /// time `now`. An event that the phase does not wait for changes nothing.
    pub open spec fn next(self, event: Event, now: i64) -> (Session, Action) {
        match (self.phase, event) {
            (Phase::CheckingSender { user }, Event::UserAdmin(Ok(is_admin))) => if is_admin {
                self.close(Ok(()))
            } else {
                self.examine()
            },
            (Phase::CheckingSender { user }, Event::UserAdmin(Err(e))) => self.close(
                Err(HandlerError::RemoteLookup(e)),
            ),
            (Phase::Fetching, Event::Downloaded(Ok(_))) => (
                self.at(Phase::Detecting),
                Action::Detect,
            ),
            (Phase::Fetching, Event::Downloaded(Err(e))) => self.close(
                Err(HandlerError::Download(e)),
            ),
            (Phase::Detecting, Event::Detected(verdict)) => if verdict == Ok::<bool, DetectError>(
                true,
            ) {
                (self.at(Phase::CheckingBot), Action::AskBotAdmin { chat: self.chat })
            } else {
                self.close(Ok(()))
            },
            (Phase::CheckingBot, Event::BotAdmin(Ok(is_admin))) => self.act(is_admin, now),
            (Phase::CheckingBot, Event::BotAdmin(Err(e))) => self.close(
                Err(HandlerError::RemoteLookup(e)),
            ),
            (Phase::Restricting { user, until }, Event::Restricted(Ok(_))) => self.notify(
                Notice::Restrict,
            ),
            (Phase::Restricting { user, until }, Event::Restricted(Err(e))) => self.close(
                Err(HandlerError::RemoteAction(e)),
            ),
            (Phase::Notifying { notice }, Event::Notified(Ok(_))) => self.close(Ok(())),
            (Phase::Notifying { notice }, Event::Notified(Err(e))) => self.close(
                Err(HandlerError::RemoteAction(e)),
            ),
            _ => (self, Action::Ignored),
        }
    }

    /// Takes in `event` at the time `now`, in seconds since the epoch, and
    /// says what to do next.
    pub fn step(self, event: Event, now: i64) -> (out: (Session, Action))
        requires
            now + BAN_DURATION <= i64::MAX,
        ensures
            out == self.next(event, now),
    {
        match (self.phase, event) {
            (Phase::CheckingSender { user: _ }, Event::UserAdmin(Ok(is_admin))) => {
                if is_admin {
                    self.closing(Ok(()))
                } else {
                    self.examining()
                }
            },
            (Phase::CheckingSender { user: _ }, Event::UserAdmin(Err(e))) => self.closing(
                Err(HandlerError::RemoteLookup(e)),
            ),
            (Phase::Fetching, Event::Downloaded(Ok(_))) => (
                Session { phase: Phase::Detecting, ..self },
                Action::Detect,
            ),
            (Phase::Fetching, Event::Downloaded(Err(e))) => self.closing(
                Err(HandlerError::Download(e)),
            ),
            (Phase::Detecting, Event::Detected(verdict)) => {
                match verdict {
                    Ok(true) => (
                        Session { phase: Phase::CheckingBot, ..self },
                        Action::AskBotAdmin { chat: self.chat },
                    ),
                    _ => self.closing(Ok(())),
                }
            },
            (Phase::CheckingBot, Event::BotAdmin(Ok(is_admin))) => {
                if is_admin {
                    match self.sender {
                        Some(user) => {
                            let until: i64 = now + BAN_DURATION;
                            (
                                Session { phase: Phase::Restricting { user, until }, ..self },
                                Action::Restrict {
                                    chat: self.chat,
                                    user,
                                    permissions: Permissions::empty(),
                                    until,
                                },
                            )
                        },
                        None => self.notifying(Notice::RestrictFailed),
                    }
                } else {
                    self.notifying(Notice::MomoFound)
                }
            },
            (Phase::CheckingBot, Event::BotAdmin(Err(e))) => self.closing(
                Err(HandlerError::RemoteLookup(e)),
            ),
            (Phase::Restricting { user: _, until: _ }, Event::Restricted(Ok(_))) => self.notifying(
                Notice::Restrict,
            ),
            (Phase::Restricting { user: _, until: _ }, Event::Restricted(Err(e))) => self.closing(
                Err(HandlerError::RemoteAction(e)),
            ),
            (Phase::Notifying { notice: _ }, Event::Notified(Ok(_))) => self.closing(Ok(())),
            (Phase::Notifying { notice: _ }, Event::Notified(Err(e))) => self.closing(
                Err(HandlerError::RemoteAction(e)),
            ),
            _ => (self, Action::Ignored),
        }
    }

    fn closing(self, result: Result<(), HandlerError>) -> (out: (Session, Action))
        ensures
            out == self.close(result),
    {
        (Session { phase: Phase::Closed, ..self }, Action::Finish(result))
    }

    fn examining(self) -> (out: (Session, Action))
        ensures
            out == self.examine(),
    {
        if self.photo_sizes >= 1 {
            (Session { phase: Phase::Fetching, ..self }, Action::Download)
        } else {
            self.closing(Ok(()))
        }
    }

    fn notifying(self, notice: Notice) -> (out: (Session, Action))
        ensures
            out == self.notify(notice),
    {
        (
            Session { phase: Phase::Notifying { notice }, ..self },
            Action::Notify { chat: self.chat, reply_to: self.message_id, notice },
        )
    }
}

/// The identity of the sender of a message, where it names one.
pub open spec fn sender_of(message: Message) -> Option<u64> {
    match message.from {
        Some(user) => Some(user.id),
        None => None,
    }
}

/// The first step on a message: one without a photo is left alone; for one
/// with a photo the sender's standing is asked first, and a message that names
/// no sender is examined at once.
pub open spec fn opening(message: Message) -> (Session, Action) {
    match message.photo_sizes {
        None => (
            Session {
                chat: message.chat,
                message_id: message.id,
                sender: sender_of(message),
                photo_sizes: 0,
                phase: Phase::Closed,
            },
            Action::Finish(Ok(())),
        ),
        Some(sizes) => {
            let session = Session {
                chat: message.chat,
                message_id: message.id,
                sender: sender_of(message),
                photo_sizes: sizes,
                phase: Phase::Closed,
            };
            match sender_of(message) {
                Some(user) => (
                    session.at(Phase::CheckingSender { user }),
                    Action::AskUserAdmin { user, chat: message.chat },
                ),
                None => session.examine(),
            }
        },
    }
}

/// Begins the handling of an incoming message; `Session::step` carries it on.
pub fn message_handler(message: &Message) -> (out: (Session, Action))
    ensures
        out == opening(*message),
{
    let sender: Option<u64> = match &message.from {
        Some(user) => Some(user.id),
        None => None,
    };
    match message.photo_sizes {
        None => (
            Session {
                chat: message.chat,
                message_id: message.id,
                sender,
                photo_sizes: 0,
                phase: Phase::Closed,
            },
            Action::Finish(Ok(())),
        ),
        Some(sizes) => {
            let session = Session {
                chat: message.chat,
                message_id: message.id,
                sender,
                photo_sizes: sizes,
                phase: Phase::Closed,
            };
            match sender {
                Some(user) => (
                    Session { phase: Phase::CheckingSender { user }, ..session },
                    Action::AskUserAdmin { user, chat: message.chat },
                ),
                None => session.examining(),
            }
        },
    }
}

/// The actions that a session asks for, one after the other, as the events
/// `events` come in, each with the time at which it comes.
pub open spec fn run(session: Session, events: Seq<(Event, i64)>) -> Seq<Action>
    decreases events.len(),
{
    if events.len() == 0 {
        Seq::empty()
    } else {
        let (next, action) = session.next(events[0].0, events[0].1);
        seq![action] + run(next, events.drop_first())
    }
}

/// How far a phase lies on the way of a session.
pub open spec fn phase_rank(phase: Phase) -> nat {
    match phase {
        Phase::CheckingSender { .. } => 0,
        Phase::Fetching => 1,
        Phase::Detecting => 2,
        Phase::CheckingBot => 3,
        Phase::Restricting { .. } => 4,
        Phase::Notifying { .. } => 5,
        Phase::Closed => 6,
    }
}

/// How many of `actions` are restrictions.
pub open spec fn restrictions(actions: Seq<Action>) -> nat
    decreases actions.len(),
{
    if actions.len() == 0 {
        0
    } else {
        restrictions(actions.drop_last()) + if actions.last() is Restrict {
            1nat
        } else {
            0nat
        }
    }
}

/// How many of `actions` fetch the photo or run the detector on it.
pub open spec fn examinations(actions: Seq<Action>) -> nat
    decreases actions.len(),
{
    if actions.len() == 0 {
        0
    } else {
        examinations(actions.drop_last()) + if actions.last() is Download || actions.last() is Detect {
            1nat
        } else {
            0nat
        }
    }
}

/// Every step either ignores its event and changes nothing, or moves the
/// session forward: a session never returns to a phase it has left.
pub proof fn lemma_step_moves_forward(session: Session, event: Event, now: i64)
    ensures
        session.next(event, now).1 is Ignored ==> session.next(event, now).0 == session,
        !(session.next(event, now).1 is Ignored) ==> phase_rank(session.next(event, now).0.phase)
            > phase_rank(session.phase),
        session.next(event, now).0.chat == session.chat,
        session.next(event, now).0.message_id == session.message_id,
        session.next(event, now).0.sender == session.sender,
{
}

/// A session that has ended ignores whatever comes.
pub proof fn lemma_closed_ignores(session: Session, event: Event, now: i64)
    requires
        session.phase is Closed,
    ensures
        session.next(event, now) == (session, Action::Ignored),
{
}

/// A restriction is asked for in one case only: the bot's right to restrict
/// was awaited and confirmed, and the message names its sender. It is then
/// aimed at that sender in the session's chat, keeps no permission, and ends
/// `BAN_DURATION` seconds after the time of the step.
pub proof fn lemma_restriction_needs_right(session: Session, event: Event, now: i64)
    requires
        session.next(event, now).1 is Restrict,
    ensures
        session.phase is CheckingBot,
        event == Event::BotAdmin(Ok(true)),
        session.sender is Some,
        session.next(event, now).1 == (Action::Restrict {
            chat: session.chat,
            user: session.sender.unwrap(),
            permissions: Permissions { bits: 0 },
            until: (now + BAN_DURATION) as i64,
        }),
        session.next(event, now).0.phase is Restricting,
{
}

/// A photo is fetched only once the sender is known not to be an
/// administrator, and the detector runs only on a photo that was fetched.
pub proof fn lemma_examination_needs_plain_sender(session: Session, event: Event, now: i64)
    ensures
        session.next(event, now).1 is Download ==> session.phase is CheckingSender && event
            == Event::UserAdmin(Ok(false)) && session.photo_sizes >= 1,
        session.next(event, now).1 is Detect ==> session.phase is Fetching && event
            matches Event::Downloaded(Ok(_)),
{
}

/// Every photo that comes in at least one size variant is examined unless
/// its sender is an administrator: where the message names no sender the
/// photo is fetched at once, and where it names one, as soon as the sender is
/// known to be no administrator. The detector then runs on what was fetched.
pub proof fn lemma_every_photo_is_examined(message: Message, now: i64)
    requires
        message.photo_sizes is Some,
        message.photo_sizes.unwrap() >= 1,
    ensures
        message.from is None ==> opening(message).1 == Action::Download,
        message.from is Some ==> opening(message).0.next(Event::UserAdmin(Ok(false)), now).1
            == Action::Download,
        opening(message).0.at(Phase::Fetching).next(Event::Downloaded(Ok(())), now).1
            == Action::Detect,
{
}

/// Adding one action to the front of a run adds it to the counts.
proof fn lemma_counts_front(first: Action, rest: Seq<Action>)
    ensures
        restrictions(seq![first] + rest) == restrictions(rest) + (if first is Restrict {
            1nat
        } else {
            0nat
        }),
        examinations(seq![first] + rest) == examinations(rest) + (if first is Download || first
            is Detect {
            1nat
        } else {
            0nat
        }),
    decreases rest.len(),
{
    let all = seq![first] + rest;
    if rest.len() == 0 {
        assert(restrictions(all.drop_last()) == 0);
        assert(examinations(all.drop_last()) == 0);
    } else {
        lemma_counts_front(first, rest.drop_last());
        assert(all.drop_last() =~= seq![first] + rest.drop_last());
    }
}

/// From a phase behind the check of the bot's standing no restriction is
/// asked for any more, whatever comes.
pub proof fn lemma_no_restriction_later(session: Session, events: Seq<(Event, i64)>)
    requires
        phase_rank(session.phase) > 3,
    ensures
        restrictions(run(session, events)) == 0,
    decreases events.len(),
{
    if events.len() > 0 {
        let (next, action) = session.next(events[0].0, events[0].1);
        lemma_no_restriction_later(next, events.drop_first());
        lemma_counts_front(action, run(next, events.drop_first()));
    }
}

/// A session asks for at most one restriction, whatever comes and in
/// whatever order.
pub proof fn lemma_at_most_one_restriction(session: Session, events: Seq<(Event, i64)>)
    ensures
        restrictions(run(session, events)) <= 1,
    decreases events.len(),
{
    if events.len() > 0 {
        let (next, action) = session.next(events[0].0, events[0].1);
        lemma_counts_front(action, run(next, events.drop_first()));
        if action is Restrict {
            lemma_no_restriction_later(next, events.drop_first());
        } else {
            lemma_at_most_one_restriction(next, events.drop_first());
        }
    }
}

/// From a phase behind the detection no photo is fetched and no detector
/// runs any more, whatever comes.
pub proof fn lemma_no_examination_later(session: Session, events: Seq<(Event, i64)>)
    requires
        phase_rank(session.phase) > 2,
    ensures
        examinations(run(session, events)) == 0,
        restrictions(run(session, events)) <= 1,
    decreases events.len(),
{
    lemma_at_most_one_restriction(session, events);
    if events.len() > 0 {
        let (next, action) = session.next(events[0].0, events[0].1);
        lemma_no_examination_later(next, events.drop_first());
        lemma_counts_front(action, run(next, events.drop_first()));
    }
}

/// Where the sender of a photo is an administrator of the chat, the handling
/// ends at once and in success: whatever else comes in, no photo is fetched,
/// no detector runs and nobody is restricted.
pub proof fn lemma_admin_sender_is_skipped(message: Message, rest: Seq<(Event, i64)>, now: i64)
    requires
        message.photo_sizes is Some,
        message.from is Some,
    ensures
        opening(message).1 == (Action::AskUserAdmin {
            user: message.from.unwrap().id,
            chat: message.chat,
        }),
        run(opening(message).0, seq![(Event::UserAdmin(Ok(true)), now)] + rest)[0]
            == Action::Finish(Ok(())),
        examinations(run(opening(message).0, seq![(Event::UserAdmin(Ok(true)), now)] + rest)) == 0,
        restrictions(run(opening(message).0, seq![(Event::UserAdmin(Ok(true)), now)] + rest)) == 0,
{
    let session = opening(message).0;
    let events = seq![(Event::UserAdmin(Ok(true)), now)] + rest;
    let (next, action) = session.next(events[0].0, events[0].1);
    assert(events.drop_first() =~= rest);
    lemma_no_examination_later(next, rest);
    lemma_no_restriction_later(next, rest);
    lemma_counts_front(action, run(next, rest));
}

/// Where a screenshot was detected and the bot lacks the right to restrict,
/// the chat is told that one was found, and nobody is restricted, whatever
/// comes in afterwards.
pub proof fn lemma_powerless_bot_only_tells(session: Session, rest: Seq<(Event, i64)>, now: i64)
    requires
        session.phase is CheckingBot,
    ensures
        run(session, seq![(Event::BotAdmin(Ok(false)), now)] + rest)[0] == (Action::Notify {
            chat: session.chat,
            reply_to: session.message_id,
            notice: Notice::MomoFound,
        }),
        restrictions(run(session, seq![(Event::BotAdmin(Ok(false)), now)] + rest)) == 0,
{
    let events = seq![(Event::BotAdmin(Ok(false)), now)] + rest;
    let (next, action) = session.next(events[0].0, events[0].1);
    assert(events.drop_first() =~= rest);
    lemma_no_restriction_later(next, rest);
    lemma_counts_front(action, run(next, rest));
}

/// The events of a handling in which every outside step succeeds, the sender
/// is no administrator, the detector finds a screenshot and the bot has the
/// right to restrict, the bot's standing being known at the time `now`.
pub open spec fn detection_events(now: i64, later: i64) -> Seq<(Event, i64)> {
    seq![
        (Event::UserAdmin(Ok(false)), later),
        (Event::Downloaded(Ok(())), later),
        (Event::Detected(Ok(true)), later),
        (Event::BotAdmin(Ok(true)), now),
        (Event::Restricted(Ok(())), later),
        (Event::Notified(Ok(())), later),
    ]
}

/// A photo of one or more size variants, from a sender who is no
/// administrator, detected as a screenshot in a chat where the bot has the
/// right: the sender is restricted exactly once, with no permission kept, until
/// `BAN_DURATION` seconds after the bot's standing was known; the chat is
/// told, and the handling ends in success.
pub proof fn lemma_detection_restricts_once(message: Message, now: i64, later: i64)
    requires
        message.photo_sizes is Some,
        message.photo_sizes.unwrap() >= 1,
        message.from is Some,
    ensures
        run(opening(message).0, detection_events(now, later)) == seq![
            Action::Download,
            Action::Detect,
            Action::AskBotAdmin { chat: message.chat },
            Action::Restrict {
                chat: message.chat,
                user: message.from.unwrap().id,
                permissions: Permissions { bits: 0 },
                until: (now + BAN_DURATION) as i64,
            },
            Action::Notify { chat: message.chat, reply_to: message.id, notice: Notice::Restrict },
            Action::Finish(Ok(())),
        ],
        restrictions(run(opening(message).0, detection_events(now, later))) == 1,
{
    let events = detection_events(now, later);
    let s0 = opening(message).0;
    let (s1, a1) = s0.next(events[0].0, events[0].1);
    let (s2, a2) = s1.next(events[1].0, events[1].1);
    let (s3, a3) = s2.next(events[2].0, events[2].1);
    let (s4, a4) = s3.next(events[3].0, events[3].1);
    let (s5, a5) = s4.next(events[4].0, events[4].1);
    let (s6, a6) = s5.next(events[5].0, events[5].1);
    let e1 = events.drop_first();
    let e2 = e1.drop_first();
    let e3 = e2.drop_first();
    let e4 = e3.drop_first();
    let e5 = e4.drop_first();
    let e6 = e5.drop_first();
    assert(run(s6, e6) =~= Seq::<Action>::empty());
    assert(run(s5, e5) =~= seq![a6]);
    assert(run(s4, e4) =~= seq![a5, a6]);
    assert(run(s3, e3) =~= seq![a4, a5, a6]);
    assert(run(s2, e2) =~= seq![a3, a4, a5, a6]);
    assert(run(s1, e1) =~= seq![a2, a3, a4, a5, a6]);
    lemma_no_restriction_later(s4, e4);
    lemma_counts_front(a4, run(s4, e4));
    lemma_counts_front(a3, run(s3, e3));
    lemma_counts_front(a2, run(s2, e2));
    lemma_counts_front(a1, run(s1, e1));
}

} // verus!
