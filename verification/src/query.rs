//! Queries, the handlers that answer them, and the bus that brings the two
//! together.

use crate::erasure::identify;
use crate::erasure::share;
use crate::erasure::type_identity;
use crate::erasure::Erased;
use crate::failure::MechanismFailure;
use crate::registry::query_handled;
use crate::registry::handle_query;
use crate::registry::QueryEntry;
use crate::registry::QueryHandlerRegistry;
use crate::registry::QueryHandlerWrapper;
use core::any::TypeId;
use core::fmt::Debug;
use std::sync::Arc;
use vstd::prelude::*;

verus! {

/// An operation that reads state. Each query type fixes what a handler
/// returns when it succeeds and what it reports when it fails.
pub trait Query: Send + Sync + Debug + 'static {
    /// What a handler hands back when the query was answered.
    type Output: Send + Sync;

    /// What a handler hands back when the query failed.
    type Error: Debug + Send + Sync;
}

/// The logic that answers queries of type `Q`. What a handler does is up
/// to it: a handler that wants to promise something of its replies says so in
/// `handles`.
pub trait QueryHandler<Q: Query>: Send + Sync {
    /// Whether `reply` is something that this handler may hand back for
    /// `query`. Unless a handler says otherwise, every reply is admitted.
    open spec fn handles(&self, query: Q, reply: Result<Q::Output, Q::Error>) -> bool {
        true
    }

    /// Answers `query` or reports why it could not.
    fn handle(&self, query: Q) -> (reply: Result<Q::Output, Q::Error>)
        ensures
            self.handles(query, reply),
    ;
}

/// What `QueryBus::route` hands back for the hidden `query` that `entry`
/// was asked with: the entry's reply as it came, or `TypeMismatch` where the
/// entry gave none.
pub open spec fn query_routed(
    entry: QueryEntry,
    query: Erased,
    outcome: Result<Erased, MechanismFailure>,
) -> bool {
    match outcome {
        Ok(reply) => entry.answers(query, Some(reply)),
        Err(_) => entry.answers(query, None),
    }
}

/// Routes queries to the handlers of one registry. A bus never changes its
/// registry, and any number of buses may be cloned from one another.
pub struct QueryBus {
    registry: Arc<QueryHandlerRegistry>,
}

impl Clone for QueryBus {
    /// Another bus over the same registry.
    fn clone(&self) -> (bus: Self)
        ensures
            bus@ == self@,
    {
        QueryBus { registry: share(&self.registry) }
    }
}

impl QueryBus {
    /// The entries that this bus can reach, by the identity of the query
    /// type that each serves.
    pub closed spec fn view(&self) -> Map<TypeId, QueryEntry> {
        (*self.registry)@
    }

    /// A bus reaches finitely many entries.
    pub proof fn lemma_finite(&self)
        ensures
            self@.dom().finite(),
    {
        self.registry.lemma_finite();
    }

    /// A bus over `registry`, which is shared and fixed from here on.
    pub fn new(registry: QueryHandlerRegistry) -> (bus: Self)
        ensures
            bus@ == registry@,
    {
        QueryBus { registry: Arc::new(registry) }
    }

    /// Whether an entry is registered under `key`.
    pub fn serves(&self, key: &TypeId) -> (found: bool)
        ensures
            found == self@.contains_key(*key),
    {
        self.registry.entry(key).is_some()
    }

    /// Whether a handler is registered for the query type `Q`, that is,
    /// under the identity of every query of type `Q`. Only queries of a
    /// type that is served may be dispatched.
    pub fn serves_type<Q: Query>(&self) -> (found: bool)
        ensures
            forall|sample: Q| found == self@.contains_key(#[trigger] type_identity(sample)),
    {
        let key = identify::<Q>();
        self.serves(&key)
    }

    /// Hands the hidden `query` to the entry registered under `key` and
    /// returns that entry's reply unchanged. Fails with `TypeMismatch` exactly
    /// when the entry gives no reply. An entry must be registered under
    /// `key`: routing without one is a mistake of the caller.
    pub fn route(&self, key: &TypeId, query: Erased) -> (outcome: Result<
        Erased,
        MechanismFailure,
    >)
        requires
            self@.contains_key(*key),
        ensures
            query_routed(self@[*key], query, outcome),
    {
        match self.registry.entry(key) {
            Some(entry) => entry.execute(query).ok_or(MechanismFailure::TypeMismatch),
            None => Err(MechanismFailure::TypeMismatch),
        }
    }

    /// Has the entry registered under `key` handle `query` and returns the
    /// handler's reply. Fails with `TypeMismatch` exactly when the entry
    /// gives no reply or one that holds no reply to `Q`, as an entry does
    /// that serves another type than `Q`. An entry must be registered under
    /// `key`: dispatching without one is a mistake of the caller.
    pub fn dispatch_as<Q: Query>(&self, key: &TypeId, query: Q) -> (outcome: Result<
        Result<Q::Output, Q::Error>,
        MechanismFailure,
    >)
        requires
            self@.contains_key(*key),
        ensures
            query_handled(self@[*key], query, outcome),
    {
        match self.registry.entry(key) {
            Some(entry) => handle_query(&entry, query),
            None => Err(MechanismFailure::TypeMismatch),
        }
    }

    /// Dispatches `query` to the handler registered for its type and
    /// returns the handler's reply. A handler must be registered for the type
    /// of `query`: every query type that is dispatched has to be
    /// registered first, and dispatching without a handler is a mistake in
    /// how the application was wired.
    pub fn dispatch<Q: Query>(&self, query: Q) -> (outcome: Result<
        Result<Q::Output, Q::Error>,
        MechanismFailure,
    >)
        requires
            self@.contains_key(type_identity(query)),
        ensures
            query_handled(self@[type_identity(query)], query, outcome),
    {
        let key = identify::<Q>();
        self.dispatch_as(&key, query)
    }
}

/// Identity isolation: a handler registered for one query type does not
/// serve another. After `entry` has been registered under the identity of
/// `registered`, the identity of a query `sent` of another type, which had
/// no entry, still has none: `sent` cannot be dispatched, and `entry` is
/// never the one that answers it.
pub proof fn lemma_query_identity_isolation<A: Query, B: Query>(
    before: QueryHandlerRegistry,
    after: QueryHandlerRegistry,
    registered: A,
    entry: QueryEntry,
    sent: B,
)
    requires
        type_identity(registered) != type_identity(sent),
        !before@.contains_key(type_identity(sent)),
        after@ == before@.insert(type_identity(registered), entry),
    ensures
        !after@.contains_key(type_identity(sent)),
        after.lookup(type_identity(sent)) == before.lookup(type_identity(sent)),
        after.lookup(type_identity(sent)) is None,
{
}

/// The last registration wins: after two entries have been registered under
/// the identity of one query type, the registry is as if only the second
/// had been. A query of that type is handled through the second entry.
pub proof fn lemma_query_last_registration_wins<Q: Query>(
    before: QueryHandlerRegistry,
    between: QueryHandlerRegistry,
    after: QueryHandlerRegistry,
    first: QueryEntry,
    second: QueryEntry,
    query: Q,
    outcome: Result<Result<Q::Output, Q::Error>, MechanismFailure>,
)
    requires
        between@ == before@.insert(type_identity(query), first),
        after@ == between@.insert(type_identity(query), second),
        query_handled(after@[type_identity(query)], query, outcome),
    ensures
        after@ == before@.insert(type_identity(query), second),
        after.lookup(type_identity(query)) == Some(second),
        query_handled(second, query, outcome),
{
    assert(after@ =~= before@.insert(type_identity(query), second));
}

/// A reply passes through unchanged: a query routed under an identity that
/// has an entry ends in `Ok` of a reply that the entry gave to this very
/// query, or in `TypeMismatch` when the entry gave none. The bus adds
/// nothing and takes nothing away.
pub proof fn lemma_query_reply_passes_through(
    bus: QueryBus,
    key: TypeId,
    query: Erased,
    routed: Result<Erased, MechanismFailure>,
)
    requires
        bus@.contains_key(key),
        query_routed(bus@[key], query, routed),
    ensures
        forall|reply: Erased|
            routed == Ok::<Erased, MechanismFailure>(reply) ==> bus@[key].answers(
                query,
                Some(reply),
            ),
        routed is Err ==> bus@[key].answers(query, None),
{
}

} // verus!
