//! Small value types: a colour, and the type-erased payload that messages and
//! callbacks carry.

use crate::erased::{erase, erases, holds_a, peek, peek_mut, Erased};
use std::any::Any;
use vstd::prelude::*;

verus! {

/// A colour, one byte per channel.
pub struct RGB {
    pub r: u8,
    pub g: u8,
    pub b: u8,
}

impl RGB {
    pub fn new(red: u8, green: u8, blue: u8) -> (c: Self)
        ensures
            c.r == red,
            c.g == green,
            c.b == blue,
    {
        Self { r: red, g: green, b: blue }
    }
}

/// At most one value of any type, written once and read back by a checked
/// downcast.
pub struct UserData {
    data: Option<Erased>,
}

impl UserData {
    /// The box inside, if there is one.
    pub closed spec fn slot(self) -> Option<Erased> {
        self.data
    }

    /// `self` holds exactly the value `v` of type `T`.
    pub open spec fn holds<T: Any>(self, v: T) -> bool {
        self.slot() matches Some(e) && erases(e, v)
    }

    /// `self` holds some value of type `T`.
    pub open spec fn has<T: Any>(self) -> bool {
        self.slot() matches Some(e) && holds_a::<T>(e)
    }

    /// A payload that holds `value`.
    pub fn new<T: Any>(value: T) -> (d: Self)
        ensures
            d.holds(value),
            d.has::<T>(),
    {
        Self { data: Some(erase(value)) }
    }

    /// A payload that holds nothing: every `get` on it gives `None`.
    pub fn empty() -> (d: Self)
        ensures
            d.slot() is None,
    {
        Self { data: None }
    }

    /// The value, if there is one and it is a `T`.
    pub fn get<T: Any>(&self) -> (r: Option<&T>)
        ensures
            r is Some <==> self.has::<T>(),
            r matches Some(x) ==> self.holds(*x),
            forall|v: T| self.holds(v) ==> r == Some(&v),
    {
        match &self.data {
            Some(t) => peek::<T>(t),
            None => None,
        }
    }

    /// The value, to be changed in place, if there is one and it is a `T`.
    /// Whatever is written through the reference is what `self` holds
    /// afterwards; on `None` nothing changes.
    pub fn get_mut<T: Any>(&mut self) -> (r: Option<&mut T>)
        ensures
            r is Some <==> old(self).has::<T>(),
            match r {
                Some(x) => old(self).holds(*x) && final(self).holds(*final(x))
                    && final(self).has::<T>(),
                None => *final(self) == *old(self),
            },
            forall|v: T| old(self).holds(v) ==> r is Some && *r->Some_0 == v,
    {
        match &mut self.data {
            Some(t) => peek_mut::<T>(t),
            None => None,
        }
    }
}

} // verus!
