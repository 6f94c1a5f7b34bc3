//! The registries that hold one handler per operation type.
//!
//! A registry stores handlers of many unrelated operation types side by side.
//! To do so it keeps each handler behind an interface that takes and returns
//! hidden values, under the identity of the operation type that the handler
//! serves.

use crate::command::Command;
use crate::command::CommandHandler;
use crate::erasure::holds;
use crate::erasure::identify;
use crate::erasure::holds_only;
use crate::erasure::open;
use crate::erasure::seal;
use crate::erasure::share;
use crate::erasure::type_identity;
use crate::erasure::Erased;
use crate::failure::MechanismFailure;
use crate::query::Query;
use crate::query::QueryHandler;
use crate::table::HandlerTable;
use core::any::TypeId;
use std::sync::Arc;
use vstd::prelude::*;

verus! {

/// A command handler behind an interface that hides the command type.
pub trait CommandHandlerWrapper: Send + Sync {
    /// Whether `reply` is something that this entry may hand back for
    /// `command`. `None` stands for a command that the entry does not
    /// recognise. Unless an entry says otherwise, every reply is admitted.
    open spec fn answers(&self, command: Erased, reply: Option<Erased>) -> bool {
        true
    }

    /// Recovers the command, has it handled and hides the reply. Returns
    /// `None` when `command` does not hold the type that this entry serves.
    fn execute(&self, command: Erased) -> (reply: Option<Erased>)
        ensures
            self.answers(command, reply),
    ;
}

/// A shared command handler as a registry stores it.
pub type CommandEntry = Arc<Box<dyn CommandHandlerWrapper>>;

/// What `answer_command` hands back: nothing when no command was recovered,
/// and otherwise a reply that `handler` gave to the recovered command.
pub open spec fn command_answered<C: Command>(
    handler: &Box<dyn CommandHandler<C>>,
    recovered: Option<C>,
    reply: Option<Result<C::Metadata, C::Error>>,
) -> bool {
    match recovered {
        None => reply is None,
        Some(command) => reply is Some && handler.handles(command, reply->Some_0),
    }
}

/// Has `handler` handle the command that was recovered from a hidden value.
/// Replies exactly when a command was recovered, and then with what the
/// handler gave for that command.
pub fn answer_command<C: Command>(
    handler: &Box<dyn CommandHandler<C>>,
    recovered: Option<C>,
) -> (reply: Option<Result<C::Metadata, C::Error>>)
    ensures
        command_answered(handler, recovered, reply),
{
    match recovered {
        Some(command) => Some(handler.handle(command)),
        None => None,
    }
}

impl<C: Command> CommandHandlerWrapper for Box<dyn CommandHandler<C>> {
    /// The entry gives no reply exactly when the hidden command holds no
    /// `C`. Otherwise its reply holds what the handler gave for the one
    /// command that the hidden command holds.
    open spec fn answers(&self, command: Erased, reply: Option<Erased>) -> bool {
        match reply {
            None => forall|recovered: C| !holds(command, recovered),
            Some(hidden) => exists|recovered: C, typed: Result<C::Metadata, C::Error>|
                {
                    &&& holds_only(command, recovered)
                    &&& #[trigger] self.handles(recovered, typed)
                    &&& holds(hidden, typed)
                },
        }
    }

    fn execute(&self, command: Erased) -> (reply: Option<Erased>) {
        match answer_command(self, open::<C>(command)) {
            Some(typed) => Some(seal(typed)),
            None => None,
        }
    }
}

/// The entry that hides `handler`: the handler behind the interface of the
/// handlers of `C`, and that behind the interface that hides `C`.
pub open spec fn command_entry<C: Command, H: CommandHandler<C> + 'static>(
    handler: H,
) -> CommandEntry {
    let typed: Box<dyn CommandHandler<C>> = Box::new(handler);
    let hidden: Box<dyn CommandHandlerWrapper> = Box::new(typed);
    Arc::new(hidden)
}

/// What recovering a reply to `C` from the hidden `reply` of an entry gives.
/// Where the entry gave no reply, the outcome is `TypeMismatch`. Where it
/// gave one, the outcome is `Ok` of the one value that the reply holds, or
/// `TypeMismatch` when the reply holds no reply to `C`.
pub open spec fn command_recovered<C: Command>(
    reply: Option<Erased>,
    outcome: Result<Result<C::Metadata, C::Error>, MechanismFailure>,
) -> bool {
    match reply {
        None => outcome == Err::<Result<C::Metadata, C::Error>, MechanismFailure>(
            MechanismFailure::TypeMismatch,
        ),
        Some(sealed) => match outcome {
            Ok(typed) => holds_only(sealed, typed),
            Err(_) => forall|typed: Result<C::Metadata, C::Error>| !holds(sealed, typed),
        },
    }
}

/// What `handle_command` hands back for `command` given to `entry`: the
/// entry was asked with a hidden value that holds `command`, and the outcome
/// is what recovering a reply to `C` from the entry's reply gives.
pub open spec fn command_handled<C: Command>(
    entry: CommandEntry,
    command: C,
    outcome: Result<Result<C::Metadata, C::Error>, MechanismFailure>,
) -> bool {
    exists|hidden: Erased, reply: Option<Erased>|
        {
            &&& holds(hidden, command)
            &&& #[trigger] entry.answers(hidden, reply)
            &&& command_recovered::<C>(reply, outcome)
        }
}

/// The reply of a handler passes through its entry unchanged. When the entry
/// made of `handler` is asked with a hidden value that holds `command`, it
/// does reply, and what is recovered from its reply is `Ok` of a reply that
/// the handler gave to `command`: a handler's `Ok(r)` comes back as `Ok(r)`,
/// its `Err(e)` as `Err(e)`, and nothing ends in `TypeMismatch`.
pub proof fn lemma_command_reply_is_the_handlers<C: Command>(
    handler: &Box<dyn CommandHandler<C>>,
    command: C,
    hidden: Erased,
    reply: Option<Erased>,
    outcome: Result<Result<C::Metadata, C::Error>, MechanismFailure>,
)
    requires
        holds(hidden, command),
        handler.answers(hidden, reply),
        command_recovered::<C>(reply, outcome),
    ensures
        reply is Some,
        outcome is Ok,
        handler.handles(command, outcome->Ok_0),
{
}

/// The same of a stored entry, as far as it can be said. A stored entry is
/// called through `dyn CommandHandlerWrapper`, and nothing relates what such
/// an entry answers to the handler that it was made of. Where the entry
/// answers as the entry made of `handler` does, the outcome of handling
/// `command` through it is `Ok` of a reply that `handler` gave to `command`.
pub proof fn lemma_command_stored_reply_is_the_handlers<C: Command>(
    entry: CommandEntry,
    handler: &Box<dyn CommandHandler<C>>,
    command: C,
    outcome: Result<Result<C::Metadata, C::Error>, MechanismFailure>,
)
    requires
        forall|hidden: Erased, reply: Option<Erased>| #[trigger]
            entry.answers(hidden, reply) ==> handler.answers(hidden, reply),
        command_handled(entry, command, outcome),
    ensures
        outcome is Ok,
        handler.handles(command, outcome->Ok_0),
{
}

/// Hides `command`, has `entry` execute it and recovers the reply as a reply
/// to `C`. Fails with `TypeMismatch` exactly when the entry gives no reply or
/// replies with a value of another type.
pub fn handle_command<C: Command>(entry: &CommandEntry, command: C) -> (outcome: Result<
    Result<C::Metadata, C::Error>,
    MechanismFailure,
>)
    ensures
        command_handled(*entry, command, outcome),
{
    let hidden = seal(command);
    let reply = entry.execute(hidden);
    let outcome = match reply {
        None => Err(MechanismFailure::TypeMismatch),
        Some(sealed) => open::<Result<C::Metadata, C::Error>>(sealed).ok_or(
            MechanismFailure::TypeMismatch,
        ),
    };
    assert(holds(hidden, command) && entry.answers(hidden, reply));
    outcome
}

/// Holds at most one command handler per command type.
pub struct CommandHandlerRegistry {
    handlers: HandlerTable<CommandEntry>,
}

impl CommandHandlerRegistry {
    /// The registered entries, by the identity of the command type that each
    /// serves.
    pub closed spec fn view(&self) -> Map<TypeId, CommandEntry> {
        self.handlers@
    }

    /// What a lookup under `key` finds.
    pub open spec fn lookup(&self, key: TypeId) -> Option<CommandEntry> {
        if self@.contains_key(key) {
            Some(self@[key])
        } else {
            None
        }
    }

    /// A registry holds finitely many entries.
    pub proof fn lemma_finite(&self)
        ensures
            self@.dom().finite(),
    {
        self.handlers.lemma_finite();
    }

    /// A registry without handlers.
    pub fn new() -> (registry: Self)
        ensures
            registry@ == Map::<TypeId, CommandEntry>::empty(),
    {
        CommandHandlerRegistry { handlers: HandlerTable::new() }
    }

    /// Stores `entry` under `key`, in place of any entry that was stored
    /// under `key` before. Entries under other identities stay as they were.
    pub fn register_entry(&mut self, key: TypeId, entry: CommandEntry)
        ensures
            final(self)@ == old(self)@.insert(key, entry),
    {
        self.handlers.insert(key, entry);
    }

    /// The entry stored under `key`, shared with the registry, or `None` when
    /// nothing is stored under `key`.
    pub fn entry(&self, key: &TypeId) -> (found: Option<CommandEntry>)
        ensures
            found == self.lookup(*key),
    {
        match self.handlers.get(key) {
            Some(entry) => Some(share(entry)),
            None => None,
        }
    }

    /// Hides `handler` behind an entry and stores that entry under `key`, in
    /// place of any entry that was stored under `key` before. Entries under
    /// other identities stay as they were. `key` is meant to be the identity
    /// of `C`: an entry stored under another identity will not recognise the
    /// commands that are sent to it.
    pub fn register_as<C: Command>(
        &mut self,
        key: TypeId,
        handler: impl CommandHandler<C> + 'static,
    )
        ensures
            final(self)@ == old(self)@.insert(key, command_entry::<C, _>(handler)),
    {
        let typed: Box<dyn CommandHandler<C>> = Box::new(handler);
        let hidden: Box<dyn CommandHandlerWrapper> = Box::new(typed);
        self.register_entry(key, Arc::new(hidden));
    }

    /// Registers `handler` for the command type `C`, in place of any handler
    /// registered for `C` before: the entry that hides `handler` now stands
    /// under the identity of `C`, which is the identity of every command of
    /// type `C`, and no other entry has changed.
    pub fn register<C: Command>(&mut self, handler: impl CommandHandler<C> + 'static)
        ensures
            forall|sample: C|
                final(self)@ == old(self)@.insert(
                    #[trigger] type_identity(sample),
                    command_entry::<C, _>(handler),
                ),
    {
        self.register_as::<C>(identify::<C>(), handler);
    }

    /// The entry registered for the command type `C`, or `None` when there is
    /// none: what a lookup under the identity of `C` finds, which is the
    /// identity of every command of type `C`.
    pub fn get_handler<C: Command>(&self) -> (found: Option<CommandEntry>)
        ensures
            forall|sample: C| found == self.lookup(#[trigger] type_identity(sample)),
    {
        let key = identify::<C>();
        self.entry(&key)
    }
}

impl Default for CommandHandlerRegistry {
    fn default() -> (registry: Self)
        ensures
            registry@ == Map::<TypeId, CommandEntry>::empty(),
    {
        CommandHandlerRegistry::new()
    }
}

/// A query handler behind an interface that hides the query type.
pub trait QueryHandlerWrapper: Send + Sync {
    /// Whether `reply` is something that this entry may hand back for
    /// `query`. `None` stands for a query that the entry does not
    /// recognise. Unless an entry says otherwise, every reply is admitted.
    open spec fn answers(&self, query: Erased, reply: Option<Erased>) -> bool {
        true
    }

    /// Recovers the query, has it handled and hides the reply. Returns
    /// `None` when `query` does not hold the type that this entry serves.
    fn execute(&self, query: Erased) -> (reply: Option<Erased>)
        ensures
            self.answers(query, reply),
    ;
}

/// A shared query handler as a registry stores it.
pub type QueryEntry = Arc<Box<dyn QueryHandlerWrapper>>;

/// What `answer_query` hands back: nothing when no query was recovered,
/// and otherwise a reply that `handler` gave to the recovered query.
pub open spec fn query_answered<Q: Query>(
    handler: &Box<dyn QueryHandler<Q>>,
    recovered: Option<Q>,
    reply: Option<Result<Q::Output, Q::Error>>,
) -> bool {
    match recovered {
        None => reply is None,
        Some(query) => reply is Some && handler.handles(query, reply->Some_0),
    }
}

/// Has `handler` handle the query that was recovered from a hidden value.
/// Replies exactly when a query was recovered, and then with what the
/// handler gave for that query.
pub fn answer_query<Q: Query>(
    handler: &Box<dyn QueryHandler<Q>>,
    recovered: Option<Q>,
) -> (reply: Option<Result<Q::Output, Q::Error>>)
    ensures
        query_answered(handler, recovered, reply),
{
    match recovered {
        Some(query) => Some(handler.handle(query)),
        None => None,
    }
}

impl<Q: Query> QueryHandlerWrapper for Box<dyn QueryHandler<Q>> {
    /// The entry gives no reply exactly when the hidden query holds no
    /// `Q`. Otherwise its reply holds what the handler gave for the one
    /// query that the hidden query holds.
    open spec fn answers(&self, query: Erased, reply: Option<Erased>) -> bool {
        match reply {
            None => forall|recovered: Q| !holds(query, recovered),
            Some(hidden) => exists|recovered: Q, typed: Result<Q::Output, Q::Error>|
                {
                    &&& holds_only(query, recovered)
                    &&& #[trigger] self.handles(recovered, typed)
                    &&& holds(hidden, typed)
                },
        }
    }

    fn execute(&self, query: Erased) -> (reply: Option<Erased>) {
        match answer_query(self, open::<Q>(query)) {
            Some(typed) => Some(seal(typed)),
            None => None,
        }
    }
}

/// The entry that hides `handler`: the handler behind the interface of the
/// handlers of `Q`, and that behind the interface that hides `Q`.
pub open spec fn query_entry<Q: Query, H: QueryHandler<Q> + 'static>(
    handler: H,
) -> QueryEntry {
    let typed: Box<dyn QueryHandler<Q>> = Box::new(handler);
    let hidden: Box<dyn QueryHandlerWrapper> = Box::new(typed);
    Arc::new(hidden)
}

/// What recovering a reply to `Q` from the hidden `reply` of an entry gives.
/// Where the entry gave no reply, the outcome is `TypeMismatch`. Where it
/// gave one, the outcome is `Ok` of the one value that the reply holds, or
/// `TypeMismatch` when the reply holds no reply to `Q`.
pub open spec fn query_recovered<Q: Query>(
    reply: Option<Erased>,
    outcome: Result<Result<Q::Output, Q::Error>, MechanismFailure>,
) -> bool {
    match reply {
        None => outcome == Err::<Result<Q::Output, Q::Error>, MechanismFailure>(
            MechanismFailure::TypeMismatch,
        ),
        Some(sealed) => match outcome {
            Ok(typed) => holds_only(sealed, typed),
            Err(_) => forall|typed: Result<Q::Output, Q::Error>| !holds(sealed, typed),
        },
    }
}

/// What `handle_query` hands back for `query` given to `entry`: the
/// entry was asked with a hidden value that holds `query`, and the outcome
/// is what recovering a reply to `Q` from the entry's reply gives.
pub open spec fn query_handled<Q: Query>(
    entry: QueryEntry,
    query: Q,
    outcome: Result<Result<Q::Output, Q::Error>, MechanismFailure>,
) -> bool {
    exists|hidden: Erased, reply: Option<Erased>|
        {
            &&& holds(hidden, query)
            &&& #[trigger] entry.answers(hidden, reply)
            &&& query_recovered::<Q>(reply, outcome)
        }
}

/// The reply of a handler passes through its entry unchanged. When the entry
/// made of `handler` is asked with a hidden value that holds `query`, it
/// does reply, and what is recovered from its reply is `Ok` of a reply that
/// the handler gave to `query`: a handler's `Ok(r)` comes back as `Ok(r)`,
/// its `Err(e)` as `Err(e)`, and nothing ends in `TypeMismatch`.
pub proof fn lemma_query_reply_is_the_handlers<Q: Query>(
    handler: &Box<dyn QueryHandler<Q>>,
    query: Q,
    hidden: Erased,
    reply: Option<Erased>,
    outcome: Result<Result<Q::Output, Q::Error>, MechanismFailure>,
)
    requires
        holds(hidden, query),
        handler.answers(hidden, reply),
        query_recovered::<Q>(reply, outcome),
    ensures
        reply is Some,
        outcome is Ok,
        handler.handles(query, outcome->Ok_0),
{
}

/// The same of a stored entry, as far as it can be said. A stored entry is
/// called through `dyn QueryHandlerWrapper`, and nothing relates what such
/// an entry answers to the handler that it was made of. Where the entry
/// answers as the entry made of `handler` does, the outcome of handling
/// `query` through it is `Ok` of a reply that `handler` gave to `query`.
pub proof fn lemma_query_stored_reply_is_the_handlers<Q: Query>(
    entry: QueryEntry,
    handler: &Box<dyn QueryHandler<Q>>,
    query: Q,
    outcome: Result<Result<Q::Output, Q::Error>, MechanismFailure>,
)
    requires
        forall|hidden: Erased, reply: Option<Erased>| #[trigger]
            entry.answers(hidden, reply) ==> handler.answers(hidden, reply),
        query_handled(entry, query, outcome),
    ensures
        outcome is Ok,
        handler.handles(query, outcome->Ok_0),
{
}

/// Hides `query`, has `entry` execute it and recovers the reply as a reply
/// to `Q`. Fails with `TypeMismatch` exactly when the entry gives no reply or
/// replies with a value of another type.
pub fn handle_query<Q: Query>(entry: &QueryEntry, query: Q) -> (outcome: Result<
    Result<Q::Output, Q::Error>,
    MechanismFailure,
>)
    ensures
        query_handled(*entry, query, outcome),
{
    let hidden = seal(query);
    let reply = entry.execute(hidden);
    let outcome = match reply {
        None => Err(MechanismFailure::TypeMismatch),
        Some(sealed) => open::<Result<Q::Output, Q::Error>>(sealed).ok_or(
            MechanismFailure::TypeMismatch,
        ),
    };
    assert(holds(hidden, query) && entry.answers(hidden, reply));
    outcome
}

/// Holds at most one query handler per query type.
pub struct QueryHandlerRegistry {
    handlers: HandlerTable<QueryEntry>,
}

impl QueryHandlerRegistry {
    /// The registered entries, by the identity of the query type that each
    /// serves.
    pub closed spec fn view(&self) -> Map<TypeId, QueryEntry> {
        self.handlers@
    }

    /// What a lookup under `key` finds.
    pub open spec fn lookup(&self, key: TypeId) -> Option<QueryEntry> {
        if self@.contains_key(key) {
            Some(self@[key])
        } else {
            None
        }
    }

    /// A registry holds finitely many entries.
    pub proof fn lemma_finite(&self)
        ensures
            self@.dom().finite(),
    {
        self.handlers.lemma_finite();
    }

    /// A registry without handlers.
    pub fn new() -> (registry: Self)
        ensures
            registry@ == Map::<TypeId, QueryEntry>::empty(),
    {
        QueryHandlerRegistry { handlers: HandlerTable::new() }
    }

    /// Stores `entry` under `key`, in place of any entry that was stored
    /// under `key` before. Entries under other identities stay as they were.
    pub fn register_entry(&mut self, key: TypeId, entry: QueryEntry)
        ensures
            final(self)@ == old(self)@.insert(key, entry),
    {
        self.handlers.insert(key, entry);
    }

    /// The entry stored under `key`, shared with the registry, or `None` when
    /// nothing is stored under `key`.
    pub fn entry(&self, key: &TypeId) -> (found: Option<QueryEntry>)
        ensures
            found == self.lookup(*key),
    {
        match self.handlers.get(key) {
            Some(entry) => Some(share(entry)),
            None => None,
        }
    }

    /// Hides `handler` behind an entry and stores that entry under `key`, in
    /// place of any entry that was stored under `key` before. Entries under
    /// other identities stay as they were. `key` is meant to be the identity
    /// of `Q`: an entry stored under another identity will not recognise the
    /// queries that are sent to it.
    pub fn register_as<Q: Query>(
        &mut self,
        key: TypeId,
        handler: impl QueryHandler<Q> + 'static,
    )
        ensures
            final(self)@ == old(self)@.insert(key, query_entry::<Q, _>(handler)),
    {
        let typed: Box<dyn QueryHandler<Q>> = Box::new(handler);
        let hidden: Box<dyn QueryHandlerWrapper> = Box::new(typed);
        self.register_entry(key, Arc::new(hidden));
    }

    /// Registers `handler` for the query type `Q`, in place of any handler
    /// registered for `Q` before: the entry that hides `handler` now stands
    /// under the identity of `Q`, which is the identity of every query of
    /// type `Q`, and no other entry has changed.
    pub fn register<Q: Query>(&mut self, handler: impl QueryHandler<Q> + 'static)
        ensures
            forall|sample: Q|
                final(self)@ == old(self)@.insert(
                    #[trigger] type_identity(sample),
                    query_entry::<Q, _>(handler),
                ),
    {
        self.register_as::<Q>(identify::<Q>(), handler);
    }

    /// The entry registered for the query type `Q`, or `None` when there is
    /// none: what a lookup under the identity of `Q` finds, which is the
    /// identity of every query of type `Q`.
    pub fn get_handler<Q: Query>(&self) -> (found: Option<QueryEntry>)
        ensures
            forall|sample: Q| found == self.lookup(#[trigger] type_identity(sample)),
    {
        let key = identify::<Q>();
        self.entry(&key)
    }
}

impl Default for QueryHandlerRegistry {
    fn default() -> (registry: Self)
        ensures
            registry@ == Map::<TypeId, QueryEntry>::empty(),
    {
        QueryHandlerRegistry::new()
    }
}

} // verus!
