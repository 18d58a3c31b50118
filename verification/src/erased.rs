//! Type erasure: a value of any `'static` type kept behind one type, and the
//! checked way back to it.
//!
//! Verus has no model of `dyn Any`, so the box is opaque here, and the few std
//! functions that make and open it are trusted. One relation carries what the
//! rest of the crate proves: [`erases`], between a box and the value in it. It
//! is the call relation of the function that makes the box, so nothing holds
//! of it but what the contracts in this file state.

use std::any::Any;
use std::any::TypeId;
use vstd::prelude::*;

verus! {

#[verifier::external_type_specification]
#[verifier::external_body]
pub struct ExTypeId(TypeId);

/// One value of some `'static` type, with the type forgotten.
///
/// The field is a `Box<dyn Any>`; the struct is opaque to the verifier because
/// the trait `Any` cannot be declared to it.
#[verifier::external_body]
pub struct Erased {
    inner: Box<dyn Any>,
}

/// The `TypeId` of the value inside the box, as `<dyn Any>::type_id` reports it.
pub uninterp spec fn erased_tag(e: Erased) -> TypeId;

/// `e` is a box that holds `v`: what boxing `v` returns.
pub closed spec fn erases<T: Any>(e: Erased, v: T) -> bool {
    call_ensures(boxed::<T>, (v,), e)
}

/// `e` holds a value of type `T`.
pub open spec fn holds_a<T: Any>(e: Erased) -> bool {
    exists|v: T| erases(e, v)
}

/// Calls `Box::new` and forgets the type. Nothing is claimed here: what it
/// returns is what `erases` holds of.
#[verifier::external_body]
fn boxed<T: Any>(v: T) -> (e: Erased) {
    Erased { inner: Box::new(v) }
}

/// Calls `<dyn Any>::downcast_ref::<T>`. Claims what its documentation says:
/// where the boxed value is of type `T`, a reference to that value, which is
/// the only value the box holds; `None` otherwise. Where it is `Some`, every
/// box that reports the `TypeId` of this one holds a value of type `T` too: a
/// `TypeId` stands for one type.
#[verifier::external_body]
fn downcast_ref<T: Any>(e: &Erased) -> (r: Option<&T>)
    ensures
        r matches Some(x) ==> erases(*e, *x),
        forall|v: T| erases(*e, v) ==> r == Some(&v),
        r is Some ==> forall|other: Erased|
            erased_tag(other) == erased_tag(*e) ==> #[trigger] holds_a::<T>(other),
{
    e.inner.downcast_ref::<T>()
}

/// Calls `<dyn Any>::downcast_mut::<T>`. Claims what its documentation says:
/// where the boxed value is of type `T`, a mutable reference to that value:
/// what is written through it is what the box holds afterwards, and the box
/// still reports the same `TypeId`. Otherwise `None`, and the box is untouched.
#[verifier::external_body]
fn downcast_mut<T: Any>(e: &mut Erased) -> (r: Option<&mut T>)
    ensures
        match r {
            Some(x) => erases(*old(e), *x) && erases(*final(e), *final(x))
                && erased_tag(*final(e)) == erased_tag(*old(e)),
            None => *final(e) == *old(e),
        },
        forall|v: T| erases(*old(e), v) ==> r is Some && *r->Some_0 == v,
{
    e.inner.downcast_mut::<T>()
}

/// `v` in a box, with its type forgotten. One look into the new box tells
/// that its `TypeId` is that of `T`.
pub(crate) fn erase<T: Any>(v: T) -> (e: Erased)
    ensures
        erases(e, v),
        forall|other: Erased| erased_tag(other) == erased_tag(e) ==> #[trigger] holds_a::<T>(other),
{
    let ghost value = v;
    let e = boxed(v);
    let seen = downcast_ref::<T>(&e);
    assert(erases(e, value));
    assert(seen is Some);
    e
}

/// The value in the box, if it is a `T`.
pub(crate) fn peek<T: Any>(e: &Erased) -> (r: Option<&T>)
    ensures
        r is Some <==> holds_a::<T>(*e),
        r matches Some(x) ==> erases(*e, *x),
        forall|v: T| erases(*e, v) ==> r == Some(&v),
{
    downcast_ref::<T>(e)
}

/// The value in the box, to be changed in place, if it is a `T`. The box
/// holds a `T` afterwards as it did before; on `None` it is untouched.
pub(crate) fn peek_mut<T: Any>(e: &mut Erased) -> (r: Option<&mut T>)
    ensures
        r is Some <==> holds_a::<T>(*old(e)),
        match r {
            Some(x) => erases(*old(e), *x) && erases(*final(e), *final(x))
                && erased_tag(*final(e)) == erased_tag(*old(e)),
            None => *final(e) == *old(e),
        },
        forall|v: T| erases(*old(e), v) ==> r is Some && *r->Some_0 == v,
{
    downcast_mut::<T>(e)
}

} // verus!
