use crate::error::RemoteLookupError;
use std::collections::HashMap;
use vstd::prelude::*;
use vstd::std_specs::hash::*;

verus! {

broadcast use group_hash_axioms;

/// What the messaging service reports of one member of one chat.
#[derive(Clone, Copy, Debug, PartialEq, Eq, Structural)]
pub struct MemberSnapshot {
    pub can_restrict_members: bool,
    pub is_owner: bool,
    pub is_administrator: bool,
}

impl MemberSnapshot {
    /// The fact kept of the bot itself: it may restrict members.
    pub open spec fn bot_fact(self) -> bool {
        self.can_restrict_members
    }

    /// The fact kept of a user: owner or administrator of the chat.
    pub open spec fn user_fact(self) -> bool {
        self.is_owner || self.is_administrator
    }

    /// Derives the fact kept of the bot itself.
    pub fn derive_bot_fact(&self) -> (fact: bool)
        ensures
            fact == self.bot_fact(),
    {
        self.can_restrict_members
    }

    /// Derives the fact kept of a user.
    pub fn derive_user_fact(&self) -> (fact: bool)
        ensures
            fact == self.user_fact(),
    {
        self.is_owner || self.is_administrator
    }
}

/// A membership query for the messaging service: `user` in `chat`.
#[derive(Clone, Copy, Debug, PartialEq, Eq, Structural)]
pub struct MemberQuery {
    pub chat: i64,
    pub user: u64,
}

/// The answer of a table to a question: the fact it holds, or the one query
/// to send to the messaging service before the question can be answered.
#[derive(Clone, Copy, Debug, PartialEq, Eq, Structural)]
pub enum Lookup {
    Cached(bool),
    Miss(MemberQuery),
}

impl Lookup {
    /// The number of remote queries that this answer asks for.
    pub open spec fn remote_calls(self) -> nat {
        match self {
            Lookup::Cached(_) => 0,
            Lookup::Miss(_) => 1,
        }
    }
}

/// The answer that a table holding `facts` gives on `key`: the fact held
/// there, or, where none is held, the request for `query`.
pub open spec fn answer_from<K>(facts: Map<K, bool>, key: K, query: MemberQuery) -> Lookup {
    if facts.contains_key(key) {
        Lookup::Cached(facts[key])
    } else {
        Lookup::Miss(query)
    }
}

/// What a caller is handed after a reply to a query for the bot: the fact
/// derived from the snapshot, or the failure as it came.
pub open spec fn bot_reply_result(reply: Result<MemberSnapshot, RemoteLookupError>) -> Result<
    bool,
    RemoteLookupError,
> {
    match reply {
        Ok(member) => Ok(member.bot_fact()),
        Err(e) => Err(e),
    }
}

/// What a caller is handed after a reply to a query for a user: the fact
/// derived from the snapshot, or the failure as it came.
pub open spec fn user_reply_result(reply: Result<MemberSnapshot, RemoteLookupError>) -> Result<
    bool,
    RemoteLookupError,
> {
    match reply {
        Ok(member) => Ok(member.user_fact()),
        Err(e) => Err(e),
    }
}

/// The facts of a table once a reply on `key` was taken in: a derived fact
/// is written under the key, a failure changes nothing.
pub open spec fn facts_after<K>(
    facts: Map<K, bool>,
    key: K,
    fact: Result<bool, RemoteLookupError>,
) -> Map<K, bool> {
    match fact {
        Ok(is_admin) => facts.insert(key, is_admin),
        Err(_) => facts,
    }
}

/// For each chat that was asked about, whether the bot may restrict its
/// members; with it the bot's own identity, under which it asks about itself.
pub struct BotAdminTable {
    bot_id: u64,
    facts: HashMap<i64, bool>,
}

impl View for BotAdminTable {
    type V = Map<i64, bool>;

    closed spec fn view(&self) -> Map<i64, bool> {
        self.facts@
    }
}

impl BotAdminTable {
    /// The identity of the bot that the table is about.
    pub closed spec fn bot(&self) -> u64 {
        self.bot_id
    }

    /// A table for the bot of identity `bot_id` that holds no fact.
    pub fn new(bot_id: u64) -> (table: Self)
        ensures
            table@ == Map::<i64, bool>::empty(),
            table.bot() == bot_id,
    {
        BotAdminTable { bot_id, facts: HashMap::new() }
    }

    /// The fact held of `chat`, if there is one.
    pub fn get(&self, chat: i64) -> (fact: Option<bool>)
        ensures
            fact == self@.get(chat),
    {
        match self.facts.get(&chat) {
            Some(fact) => Some(*fact),
            None => None,
        }
    }

    /// The answer on `chat`: the fact held, or the query for the bot's own
    /// membership in the chat.
    pub fn lookup(&self, chat: i64) -> (answer: Lookup)
        ensures
            answer == answer_from(self@, chat, MemberQuery { chat, user: self.bot() }),
    {
        match self.get(chat) {
            Some(is_admin) => Lookup::Cached(is_admin),
            None => Lookup::Miss(MemberQuery { chat, user: self.bot_id }),
        }
    }

    /// Writes the fact of `chat`, over the one that was there.
    pub fn set(&mut self, chat: i64, is_admin: bool)
        ensures
            final(self)@ == old(self)@.insert(chat, is_admin),
            final(self).bot() == old(self).bot(),
    {
        self.facts.insert(chat, is_admin);
    }

    /// Takes in the service's reply to a query for the bot in `chat`. A
    /// snapshot is turned into the bot's fact, which is stored and returned; a
    /// failure is handed on and nothing is stored.
    pub fn refresh(&mut self, chat: i64, reply: Result<MemberSnapshot, RemoteLookupError>) -> (fact:
        Result<bool, RemoteLookupError>)
        ensures
            fact == bot_reply_result(reply),
            final(self)@ == facts_after(old(self)@, chat, fact),
            final(self).bot() == old(self).bot(),
    {
        match reply {
            Ok(member) => {
                let is_admin = member.derive_bot_fact();
                self.set(chat, is_admin);
                Ok(is_admin)
            },
            Err(e) => Err(e),
        }
    }
}

/// For each chat and each user that was asked about in it, whether the user
/// is an administrator there. Kept in two levels, by chat and then by user.
pub struct UserAdminTable {
    facts: HashMap<i64, HashMap<u64, bool>>,
}

impl View for UserAdminTable {
    type V = Map<(i64, u64), bool>;

    closed spec fn view(&self) -> Map<(i64, u64), bool> {
        Map::new(
            |key: (i64, u64)| self.facts@.contains_key(key.0) && self.facts@[key.0]@.contains_key(key.1),
            |key: (i64, u64)| self.facts@[key.0]@[key.1],
        )
    }
}

impl UserAdminTable {
    /// A table that holds no fact.
    pub fn new() -> (table: Self)
        ensures
            table@ == Map::<(i64, u64), bool>::empty(),
    {
        let table = UserAdminTable { facts: HashMap::new() };
        table
    }

    /// The fact held of `user` in `chat`, if both the chat and the user are there.
    pub fn get(&self, user: u64, chat: i64) -> (fact: Option<bool>)
        ensures
            fact == self@.get((chat, user)),
    {
        match self.facts.get(&chat) {
            None => None,
            Some(users) => match users.get(&user) {
                None => None,
                Some(fact) => Some(*fact),
            },
        }
    }

    /// The answer on `user` in `chat`: the fact held, or the query for that
    /// membership.
    pub fn lookup(&self, user: u64, chat: i64) -> (answer: Lookup)
        ensures
            answer == answer_from(self@, (chat, user), MemberQuery { chat, user }),
    {
        match self.get(user, chat) {
            Some(is_admin) => Lookup::Cached(is_admin),
            None => Lookup::Miss(MemberQuery { chat, user }),
        }
    }

    /// Writes the fact of `user` in `chat`, over the one that was there; the
    /// chat's level is made where it was missing.
    pub fn set(&mut self, user: u64, chat: i64, is_admin: bool)
        ensures
            final(self)@ == old(self)@.insert((chat, user), is_admin),
    {
        let users = self.facts.entry(chat).or_insert(HashMap::new());
        users.insert(user, is_admin);
    }

    /// Takes in the service's reply to a query for `user` in `chat`. A
    /// snapshot is turned into the user's fact, which is stored and returned; a
    /// failure is handed on and nothing is stored.
    pub fn refresh(
        &mut self,
        user: u64,
        chat: i64,
        reply: Result<MemberSnapshot, RemoteLookupError>,
    ) -> (fact: Result<bool, RemoteLookupError>)
        ensures
            fact == user_reply_result(reply),
            final(self)@ == facts_after(old(self)@, (chat, user), fact),
    {
        match reply {
            Ok(member) => {
                let is_admin = member.derive_user_fact();
                self.set(user, chat, is_admin);
                Ok(is_admin)
            },
            Err(e) => Err(e),
        }
    }
}

/// What a permission cache holds, as plain mathematical values.
pub struct PermFacts {
    /// The bot's own identity, under which it asks about itself.
    pub bot_id: u64,
    /// By chat: the bot may restrict members there.
    pub bot_admin: Map<i64, bool>,
    /// By chat and user: the user is an administrator there.
    pub user_admin: Map<(i64, u64), bool>,
}

impl PermFacts {
    /// A cache in which nothing was asked yet.
    pub open spec fn empty(bot_id: u64) -> PermFacts {
        PermFacts { bot_id, bot_admin: Map::empty(), user_admin: Map::empty() }
    }

    /// The answer to "is the bot an administrator of `chat`".
    pub open spec fn bot_lookup(self, chat: i64) -> Lookup {
        answer_from(self.bot_admin, chat, MemberQuery { chat, user: self.bot_id })
    }

    /// The answer to "is `user` an administrator of `chat`".
    pub open spec fn user_lookup(self, user: u64, chat: i64) -> Lookup {
        answer_from(self.user_admin, (chat, user), MemberQuery { chat, user })
    }

    /// The cache with the bot's fact of `chat` written.
    pub open spec fn with_bot_admin(self, chat: i64, is_admin: bool) -> PermFacts {
        PermFacts { bot_admin: self.bot_admin.insert(chat, is_admin), ..self }
    }

    /// The cache with the fact of `user` in `chat` written.
    pub open spec fn with_user_admin(self, user: u64, chat: i64, is_admin: bool) -> PermFacts {
        PermFacts { user_admin: self.user_admin.insert((chat, user), is_admin), ..self }
    }

    /// The cache after the service's reply to a query for the bot in `chat`.
    pub open spec fn after_bot_reply(
        self,
        chat: i64,
        reply: Result<MemberSnapshot, RemoteLookupError>,
    ) -> PermFacts {
        match reply {
            Ok(member) => self.with_bot_admin(chat, member.bot_fact()),
            Err(_) => self,
        }
    }

    /// The cache after the service's reply to a query for `user` in `chat`.
    pub open spec fn after_user_reply(
        self,
        user: u64,
        chat: i64,
        reply: Result<MemberSnapshot, RemoteLookupError>,
    ) -> PermFacts {
        match reply {
            Ok(member) => self.with_user_admin(user, chat, member.user_fact()),
            Err(_) => self,
        }
    }
}

/// The permission cache: what is known of the bot's and of the users' rights,
/// by chat. A fact enters on the first question about it, through one remote
/// query, and stays until it is written over; none ever leaves.
pub struct PermCache {
    bot_admin: BotAdminTable,
    user_admin: UserAdminTable,
}

impl View for PermCache {
    type V = PermFacts;

    closed spec fn view(&self) -> PermFacts {
        PermFacts {
            bot_id: self.bot_admin.bot(),
            bot_admin: self.bot_admin@,
            user_admin: self.user_admin@,
        }
    }
}

impl PermCache {
    /// A cache for the bot of identity `bot_id`, with both tables empty.
    pub fn new(bot_id: u64) -> (cache: Self)
        ensures
            cache@ == PermFacts::empty(bot_id),
    {
        PermCache { bot_admin: BotAdminTable::new(bot_id), user_admin: UserAdminTable::new() }
    }

    /// Whether the bot may restrict members of `chat`: the fact held, or, for a
    /// chat never asked about, the query for the bot's own membership there.
    pub fn is_bot_admin(&self, chat_id: i64) -> (answer: Lookup)
        ensures
            answer == self@.bot_lookup(chat_id),
    {
        self.bot_admin.lookup(chat_id)
    }

    /// Writes the bot's fact of `chat`, whatever was held before. It cannot fail.
    pub fn set_bot_admin(&mut self, chat_id: i64, is_admin: bool)
        ensures
            final(self)@ == old(self)@.with_bot_admin(chat_id, is_admin),
    {
        self.bot_admin.set(chat_id, is_admin);
    }

    /// Takes in the reply to the query that `is_bot_admin` asked for: the
    /// derived fact is stored and returned, a failure is handed on uncached.
    pub fn update_bot_admin(
        &mut self,
        chat_id: i64,
        reply: Result<MemberSnapshot, RemoteLookupError>,
    ) -> (fact: Result<bool, RemoteLookupError>)
        ensures
            fact == bot_reply_result(reply),
            final(self)@ == old(self)@.after_bot_reply(chat_id, reply),
    {
        self.bot_admin.refresh(chat_id, reply)
    }

    /// Whether `user` is an administrator of `chat`: the fact held, or, where
    /// the chat or the user in it was never asked about, the query for that
    /// membership.
    pub fn is_user_admin(&self, user_id: u64, chat_id: i64) -> (answer: Lookup)
        ensures
            answer == self@.user_lookup(user_id, chat_id),
    {
        self.user_admin.lookup(user_id, chat_id)
    }

    /// Takes in the reply to the query that `is_user_admin` asked for: the
    /// derived fact is stored and returned, a failure is handed on uncached.
    pub fn update_user_admin(
        &mut self,
        user_id: u64,
        chat_id: i64,
        reply: Result<MemberSnapshot, RemoteLookupError>,
    ) -> (fact: Result<bool, RemoteLookupError>)
        ensures
            fact == user_reply_result(reply),
            final(self)@ == old(self)@.after_user_reply(user_id, chat_id, reply),
    {
        self.user_admin.refresh(user_id, chat_id, reply)
    }
}

/// A chat never asked about makes the cache ask for exactly one remote query,
/// that for the bot's own membership in it; the fact returned for the reply is
/// the capability derived from it, and from then on the cache answers itself.
pub proof fn lemma_first_bot_question(facts: PermFacts, chat: i64, member: MemberSnapshot)
    requires
        !facts.bot_admin.contains_key(chat),
    ensures
        facts.bot_lookup(chat) == Lookup::Miss(MemberQuery { chat, user: facts.bot_id }),
        facts.bot_lookup(chat).remote_calls() == 1,
        bot_reply_result(Ok(member)) == Ok::<bool, RemoteLookupError>(member.can_restrict_members),
        facts.after_bot_reply(chat, Ok(member)).bot_lookup(chat) == Lookup::Cached(
            member.can_restrict_members,
        ),
{
}

/// A failed query leaves the cache as it was: the next question about the
/// same chat asks the service again.
pub proof fn lemma_failure_not_cached(facts: PermFacts, user: u64, chat: i64, e: RemoteLookupError)
    ensures
        facts.after_bot_reply(chat, Err(e)) == facts,
        facts.after_user_reply(user, chat, Err(e)) == facts,
        bot_reply_result(Err(e)) == Err::<bool, RemoteLookupError>(e),
        user_reply_result(Err(e)) == Err::<bool, RemoteLookupError>(e),
{
}

/// Once a live reply for a user in a chat was taken in, the cache answers the
/// same question with the fact derived from it and asks for no second query.
pub proof fn lemma_user_fact_is_kept(facts: PermFacts, user: u64, chat: i64, member: MemberSnapshot)
    ensures
        user_reply_result(Ok(member)) == Ok::<bool, RemoteLookupError>(
            member.is_owner || member.is_administrator,
        ),
        facts.after_user_reply(user, chat, Ok(member)).user_lookup(user, chat) == Lookup::Cached(
            member.is_owner || member.is_administrator,
        ),
        facts.after_user_reply(user, chat, Ok(member)).user_lookup(user, chat).remote_calls() == 0,
{
}

/// What is held of a user in a chat is untouched by whatever is written of
/// the bot, and by what is written of another user or of another chat.
pub proof fn lemma_user_fact_survives(
    facts: PermFacts,
    user: u64,
    chat: i64,
    other_user: u64,
    other_chat: i64,
    is_admin: bool,
    reply: Result<MemberSnapshot, RemoteLookupError>,
)
    ensures
        facts.with_bot_admin(other_chat, is_admin).user_lookup(user, chat) == facts.user_lookup(
            user,
            chat,
        ),
        facts.after_bot_reply(other_chat, reply).user_lookup(user, chat) == facts.user_lookup(
            user,
            chat,
        ),
        (other_user, other_chat) != (user, chat) ==> facts.after_user_reply(
            other_user,
            other_chat,
            reply,
        ).user_lookup(user, chat) == facts.user_lookup(user, chat),
{
}

/// What is held of the bot in a chat is untouched by whatever is written of
/// users, and by what is written of the bot in another chat.
pub proof fn lemma_bot_fact_survives(
    facts: PermFacts,
    chat: i64,
    other_user: u64,
    other_chat: i64,
    is_admin: bool,
    reply: Result<MemberSnapshot, RemoteLookupError>,
)
    ensures
        facts.after_user_reply(other_user, other_chat, reply).bot_lookup(chat) == facts.bot_lookup(
            chat,
        ),
        other_chat != chat ==> facts.with_bot_admin(other_chat, is_admin).bot_lookup(chat)
            == facts.bot_lookup(chat),
        other_chat != chat ==> facts.after_bot_reply(other_chat, reply).bot_lookup(chat)
            == facts.bot_lookup(chat),
{
}

/// A fact written of the bot in a chat is what the next question about that
/// chat is answered with, and no remote query is asked for.
pub proof fn lemma_set_then_ask(facts: PermFacts, chat: i64, is_admin: bool)
    ensures
        facts.with_bot_admin(chat, is_admin).bot_lookup(chat) == Lookup::Cached(is_admin),
        facts.with_bot_admin(chat, is_admin).bot_lookup(chat).remote_calls() == 0,
{
}

/// No fact ever leaves the cache: whatever is written, every question that
/// was answered from the cache before is answered from it afterwards.
pub proof fn lemma_facts_never_leave(
    facts: PermFacts,
    user: u64,
    chat: i64,
    is_admin: bool,
    reply: Result<MemberSnapshot, RemoteLookupError>,
    asked_user: u64,
    asked_chat: i64,
)
    ensures
        facts.bot_lookup(asked_chat) is Cached ==> (facts.with_bot_admin(
            chat,
            is_admin,
        ).bot_lookup(asked_chat) is Cached && facts.after_bot_reply(chat, reply).bot_lookup(
            asked_chat,
        ) is Cached && facts.after_user_reply(user, chat, reply).bot_lookup(asked_chat) is Cached),
        facts.user_lookup(asked_user, asked_chat) is Cached ==> (facts.with_bot_admin(
            chat,
            is_admin,
        ).user_lookup(asked_user, asked_chat) is Cached && facts.after_bot_reply(
            chat,
            reply,
        ).user_lookup(asked_user, asked_chat) is Cached && facts.after_user_reply(
            user,
            chat,
            reply,
        ).user_lookup(asked_user, asked_chat) is Cached),
{
}

} // verus!
