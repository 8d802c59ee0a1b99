//! Blanket implementations of a trait for wrapper types.
//!
//! Given a trait declaration, the engine builds an implementation of that
//! trait for a wrapper (`&T`, `&mut T`, `Box<T>`, `Rc<T>`, `Arc<T>`,
//! `Cow<'_, T>`) of any type `T` that implements it, each method forwarding
//! to the wrapped value. It can also give every method of a trait a default
//! body that forwards to a free function of a given module.
use vstd::prelude::*;

pub mod default;
pub mod derive;
pub mod error;
pub mod items;
pub mod laws;
pub mod syntax;
pub mod types;
pub mod utils;

verus! {

/// The different receivers supported on a method.
#[derive(Debug, Clone, Copy, PartialEq, Eq, Structural)]
pub enum Receiver {
    Arbitrary,
    Ref,
    Mut,
    Owned,
}

/// The kind of a `self` parameter.
pub open spec fn receiver_kind(r: syntax::SelfParam) -> Receiver {
    if r.ty is Some {
        Receiver::Arbitrary
    } else if r.reference {
        if r.mutable {
            Receiver::Mut
        } else {
            Receiver::Ref
        }
    } else {
        Receiver::Owned
    }
}

impl Receiver {
    /// The kind of the `self` parameter `r`.
    pub fn of(r: &syntax::SelfParam) -> (k: Receiver)
        ensures
            k == receiver_kind(*r),
    {
        if r.ty.is_some() {
            Receiver::Arbitrary
        } else if r.reference {
            if r.mutable {
                Receiver::Mut
            } else {
                Receiver::Ref
            }
        } else {
            Receiver::Owned
        }
    }
}

} // verus!
