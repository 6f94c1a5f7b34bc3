//! Type identities and hidden values.
//!
//! A registry keeps handlers of unrelated operation types side by side, so
//! operations and replies cross it without their static types. This module
//! holds what that takes from the standard library: the identity of a type,
//! the box that hides a value, and the calls that put a value into the box
//! and take it out again. Their contracts say what the standard library
//! documents of these calls.

use core::any::Any;
use core::any::TypeId;
use std::sync::Arc;
use vstd::prelude::*;

verus! {

/// `core::any::TypeId`, the identity of a type. Two identities are equal or
/// they are not; nothing else is read from one.
#[verifier::external_type_specification]
#[verifier::external_body]
pub struct ExTypeId(core::any::TypeId);

/// What a hidden value may hold: anything. Every type is a `Content`, so a
/// value of any type can stand behind `dyn Content`, which is how contracts
/// speak of a value without its type.
pub trait Content {

}

impl<T> Content for T {

}

/// `value` seen without its type.
pub open spec fn content_of<T>(value: T) -> Box<dyn Content> {
    let content: Box<dyn Content> = Box::new(value);
    content
}

/// The identity of the type of the value behind `content`: what
/// `TypeId::of` gives for that type.
pub uninterp spec fn identity_of(content: Box<dyn Content>) -> TypeId;

/// The identity of the type of `sample`. It is the same for every value of
/// one type.
pub open spec fn type_identity<T>(sample: T) -> TypeId {
    identity_of(content_of(sample))
}

/// Calls `TypeId::of::<T>`. The identity depends on the type alone, so it is
/// the identity of every value of type `T`.
#[verifier::external_body]
pub(crate) fn identify<T: 'static>() -> (id: TypeId)
    ensures
        forall|sample: T| #[trigger] identity_of(content_of(sample)) == id,
{
    TypeId::of::<T>()
}

/// Calls `==` of `TypeId`. Two identities compare equal exactly when they are
/// the same identity.
#[verifier::external_body]
pub(crate) fn same_identity(a: &TypeId, b: &TypeId) -> (same: bool)
    ensures
        same == (*a == *b),
{
    a == b
}

/// Calls `Arc::clone`. The new pointer shares the allocation of the old one,
/// so both stand for the same value.
#[verifier::external_body]
pub(crate) fn share<T: ?Sized>(pointer: &Arc<T>) -> (shared: Arc<T>)
    ensures
        shared == *pointer,
{
    pointer.clone()
}

/// A value whose static type has been hidden, in a `Box<dyn Any + Send>`.
/// What the box holds is `held`; code outside this crate may build and open
/// the box with the standard library directly.
#[verifier::external_body]
pub struct Erased {
    pub inner: Box<dyn Any + Send>,
}

/// What the `Box<dyn Any + Send>` inside a hidden value holds: the value
/// that was put into the box, seen without its type.
pub uninterp spec fn held(hidden: Erased) -> Box<dyn Content>;

/// Whether `hidden` holds `value`, as a value of type `T`.
pub open spec fn holds<T>(hidden: Erased, value: T) -> bool {
    held(hidden) == content_of(value)
}

/// Whether `hidden` holds `value` and no other value of type `T`.
pub open spec fn holds_only<T>(hidden: Erased, value: T) -> bool {
    forall|other: T| #[trigger] holds(hidden, other) <==> other == value
}

/// Calls `Box::new` and lets the box become a `Box<dyn Any + Send>`. The box
/// holds the value that it was made from, as a value of type `T`.
#[verifier::external_body]
pub(crate) fn seal<T: Send + 'static>(value: T) -> (sealed: Erased)
    ensures
        held(sealed) == content_of(value),
{
    Erased { inner: Box::new(value) }
}

/// Calls `Box::<dyn Any + Send>::downcast`. When the box holds a value of
/// type `T`, that value comes back; when it holds a value of another type,
/// nothing comes back. So a value comes back exactly when the box holds it
/// as a `T`.
#[verifier::external_body]
pub(crate) fn open<T: 'static>(sealed: Erased) -> (value: Option<T>)
    ensures
        forall|content: T| value == Some(content) <==> #[trigger] holds(sealed, content),
{
    match sealed.inner.downcast::<T>() {
        Ok(boxed) => Some(*boxed),
        Err(_) => None,
    }
}

} // verus!
