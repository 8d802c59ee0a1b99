//! The wrapper types that can be named in a request for derived implementations.
use vstd::prelude::*;

use crate::error::Error;
use crate::items::{derive_error, derive_impl, is_blanket_impl};
use crate::syntax::{ImplBlock, TraitDecl};
use crate::types::{same_text, Type};

verus! {

/// A wrapper type a blanket implementation is requested for.
#[derive(Debug, Clone, Copy, PartialEq, Eq, Hash, Structural)]
pub enum Derive {
    Box,
    Ref,
    Mut,
    Rc,
    Arc,
    Cow,
}

/// The option called `s`, if any.
pub open spec fn derive_named(s: Seq<char>) -> Option<Derive> {
    if s == "Box"@ {
        Some(Derive::Box)
    } else if s == "Ref"@ {
        Some(Derive::Ref)
    } else if s == "Mut"@ {
        Some(Derive::Mut)
    } else if s == "Rc"@ {
        Some(Derive::Rc)
    } else if s == "Arc"@ {
        Some(Derive::Arc)
    } else if s == "Cow"@ {
        Some(Derive::Cow)
    } else {
        None
    }
}

impl Derive {
    /// The option called `s`, if any.
    pub fn from_str(s: &str) -> (r: Option<Derive>)
        ensures
            r == derive_named(s@),
    {
        if same_text(s, "Box") {
            Some(Derive::Box)
        } else if same_text(s, "Ref") {
            Some(Derive::Ref)
        } else if same_text(s, "Mut") {
            Some(Derive::Mut)
        } else if same_text(s, "Rc") {
            Some(Derive::Rc)
        } else if same_text(s, "Arc") {
            Some(Derive::Arc)
        } else if same_text(s, "Cow") {
            Some(Derive::Cow)
        } else {
            None
        }
    }

    /// The wrapper type of this option.
    pub open spec fn spec_wrapper(self) -> Type {
        match self {
            Derive::Box => Type::Box,
            Derive::Ref => Type::Ref,
            Derive::Mut => Type::Mut,
            Derive::Rc => Type::Rc,
            Derive::Arc => Type::Arc,
            Derive::Cow => Type::Cow,
        }
    }

    /// The wrapper type of this option.
    pub fn wrapper(&self) -> (r: Type)
        ensures
            r == self.spec_wrapper(),
    {
        match self {
            Derive::Box => Type::Box,
            Derive::Ref => Type::Ref,
            Derive::Mut => Type::Mut,
            Derive::Rc => Type::Rc,
            Derive::Arc => Type::Arc,
            Derive::Cow => Type::Cow,
        }
    }

    /// Derive the blanket implementation of `trait_` for this wrapper type.
    pub fn defer_trait_methods(&self, trait_: TraitDecl) -> (r: Result<ImplBlock, Error>)
        ensures
            match r {
                Ok(b) => derive_error(trait_, self.spec_wrapper()) is None && is_blanket_impl(
                    b,
                    trait_,
                    self.spec_wrapper(),
                ),
                Err(e) => derive_error(trait_, self.spec_wrapper()) == Some(e),
            },
    {
        derive_impl(trait_, self.wrapper())
    }
}

} // verus!
