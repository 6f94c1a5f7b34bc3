//! Commands, the handlers that carry them out, and the bus that brings the
//! two together.

use crate::erasure::identify;
use crate::erasure::share;
use crate::erasure::type_identity;
use crate::erasure::Erased;
use crate::failure::MechanismFailure;
use crate::registry::command_handled;
use crate::registry::handle_command;
use crate::registry::CommandEntry;
use crate::registry::CommandHandlerRegistry;
use crate::registry::CommandHandlerWrapper;
use core::any::TypeId;
use core::fmt::Debug;
use std::sync::Arc;
use vstd::prelude::*;

verus! {

/// An operation that changes state. Each command type fixes what a handler
/// reports when it succeeds and what it reports when it fails.
pub trait Command: Send + Sync + Debug + 'static {
    /// What a handler hands back when the command was carried out.
    type Metadata: Debug + Send + Sync;

    /// What a handler hands back when the command failed.
    type Error: Debug + Send + Sync;
}

/// The logic that carries out commands of type `C`. What a handler does is up
/// to it: a handler that wants to promise something of its replies says so in
/// `handles`.
pub trait CommandHandler<C: Command>: Send + Sync {
    /// Whether `reply` is something that this handler may hand back for
    /// `command`. Unless a handler says otherwise, every reply is admitted.
    open spec fn handles(&self, command: C, reply: Result<C::Metadata, C::Error>) -> bool {
        true
    }

    /// Carries out `command` and reports how it went.
    fn handle(&self, command: C) -> (reply: Result<C::Metadata, C::Error>)
        ensures
            self.handles(command, reply),
    ;
}

/// What `CommandBus::route` hands back for the hidden `command` that `entry`
/// was asked with: the entry's reply as it came, or `TypeMismatch` where the
/// entry gave none.
pub open spec fn command_routed(
    entry: CommandEntry,
    command: Erased,
    outcome: Result<Erased, MechanismFailure>,
) -> bool {
    match outcome {
        Ok(reply) => entry.answers(command, Some(reply)),
        Err(_) => entry.answers(command, None),
    }
}

/// Routes commands to the handlers of one registry. A bus never changes its
/// registry, and any number of buses may be cloned from one another.
pub struct CommandBus {
    registry: Arc<CommandHandlerRegistry>,
}

impl Clone for CommandBus {
    /// Another bus over the same registry.
    fn clone(&self) -> (bus: Self)
        ensures
            bus@ == self@,
    {
        CommandBus { registry: share(&self.registry) }
    }
}

impl CommandBus {
    /// The entries that this bus can reach, by the identity of the command
    /// type that each serves.
    pub closed spec fn view(&self) -> Map<TypeId, CommandEntry> {
        (*self.registry)@
    }

    /// A bus reaches finitely many entries.
    pub proof fn lemma_finite(&self)
        ensures
            self@.dom().finite(),
    {
        self.registry.lemma_finite();
    }

    /// A bus over `registry`, which is shared and fixed from here on.
    pub fn new(registry: CommandHandlerRegistry) -> (bus: Self)
        ensures
            bus@ == registry@,
    {
        CommandBus { registry: Arc::new(registry) }
    }

    /// Whether an entry is registered under `key`.
    pub fn serves(&self, key: &TypeId) -> (found: bool)
        ensures
            found == self@.contains_key(*key),
    {
        self.registry.entry(key).is_some()
    }

    /// Whether a handler is registered for the command type `C`, that is,
    /// under the identity of every command of type `C`. Only commands of a
    /// type that is served may be dispatched.
    pub fn serves_type<C: Command>(&self) -> (found: bool)
        ensures
            forall|sample: C| found == self@.contains_key(#[trigger] type_identity(sample)),
    {
        let key = identify::<C>();
        self.serves(&key)
    }

    /// Hands the hidden `command` to the entry registered under `key` and
    /// returns that entry's reply unchanged. Fails with `TypeMismatch` exactly
    /// when the entry gives no reply. An entry must be registered under
    /// `key`: routing without one is a mistake of the caller.
    pub fn route(&self, key: &TypeId, command: Erased) -> (outcome: Result<
        Erased,
        MechanismFailure,
    >)
        requires
            self@.contains_key(*key),
        ensures
            command_routed(self@[*key], command, outcome),
    {
        match self.registry.entry(key) {
            Some(entry) => entry.execute(command).ok_or(MechanismFailure::TypeMismatch),
            None => Err(MechanismFailure::TypeMismatch),
        }
    }

    /// Has the entry registered under `key` handle `command` and returns the
    /// handler's reply. Fails with `TypeMismatch` exactly when the entry
    /// gives no reply or one that holds no reply to `C`, as an entry does
    /// that serves another type than `C`. An entry must be registered under
    /// `key`: dispatching without one is a mistake of the caller.
    pub fn dispatch_as<C: Command>(&self, key: &TypeId, command: C) -> (outcome: Result<
        Result<C::Metadata, C::Error>,
        MechanismFailure,
    >)
        requires
            self@.contains_key(*key),
        ensures
            command_handled(self@[*key], command, outcome),
    {
        match self.registry.entry(key) {
            Some(entry) => handle_command(&entry, command),
            None => Err(MechanismFailure::TypeMismatch),
        }
    }

    /// Dispatches `command` to the handler registered for its type and
    /// returns the handler's reply. A handler must be registered for the type
    /// of `command`: every command type that is dispatched has to be
    /// registered first, and dispatching without a handler is a mistake in
    /// how the application was wired.
    pub fn dispatch<C: Command>(&self, command: C) -> (outcome: Result<
        Result<C::Metadata, C::Error>,
        MechanismFailure,
    >)
        requires
            self@.contains_key(type_identity(command)),
        ensures
            command_handled(self@[type_identity(command)], command, outcome),
    {
        let key = identify::<C>();
        self.dispatch_as(&key, command)
    }
}

/// Identity isolation: a handler registered for one command type does not
/// serve another. After `entry` has been registered under the identity of
/// `registered`, the identity of a command `sent` of another type, which had
/// no entry, still has none: `sent` cannot be dispatched, and `entry` is
/// never the one that answers it.
pub proof fn lemma_command_identity_isolation<A: Command, B: Command>(
    before: CommandHandlerRegistry,
    after: CommandHandlerRegistry,
    registered: A,
    entry: CommandEntry,
    sent: B,
)
    requires
        type_identity(registered) != type_identity(sent),
        !before@.contains_key(type_identity(sent)),
        after@ == before@.insert(type_identity(registered), entry),
    ensures
        !after@.contains_key(type_identity(sent)),
        after.lookup(type_identity(sent)) == before.lookup(type_identity(sent)),
        after.lookup(type_identity(sent)) is None,
{
}

/// The last registration wins: after two entries have been registered under
/// the identity of one command type, the registry is as if only the second
/// had been. A command of that type is handled through the second entry.
pub proof fn lemma_command_last_registration_wins<C: Command>(
    before: CommandHandlerRegistry,
    between: CommandHandlerRegistry,
    after: CommandHandlerRegistry,
    first: CommandEntry,
    second: CommandEntry,
    command: C,
    outcome: Result<Result<C::Metadata, C::Error>, MechanismFailure>,
)
    requires
        between@ == before@.insert(type_identity(command), first),
        after@ == between@.insert(type_identity(command), second),
        command_handled(after@[type_identity(command)], command, outcome),
    ensures
        after@ == before@.insert(type_identity(command), second),
        after.lookup(type_identity(command)) == Some(second),
        command_handled(second, command, outcome),
{
    assert(after@ =~= before@.insert(type_identity(command), second));
}

/// A reply passes through unchanged: a command routed under an identity that
/// has an entry ends in `Ok` of a reply that the entry gave to this very
/// command, or in `TypeMismatch` when the entry gave none. The bus adds
/// nothing and takes nothing away.
pub proof fn lemma_command_reply_passes_through(
    bus: CommandBus,
    key: TypeId,
    command: Erased,
    routed: Result<Erased, MechanismFailure>,
)
    requires
        bus@.contains_key(key),
        command_routed(bus@[key], command, routed),
    ensures
        forall|reply: Erased|
            routed == Ok::<Erased, MechanismFailure>(reply) ==> bus@[key].answers(
                command,
                Some(reply),
            ),
        routed is Err ==> bus@[key].answers(command, None),
{
}

} // verus!
