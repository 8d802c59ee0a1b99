//! The wrapper types a blanket implementation can be derived for.
use vstd::prelude::*;

use crate::error::{Error, ErrorKind};
use crate::items::{derive_error, derive_impl, is_blanket_impl};
use crate::syntax::{ImplBlock, SelfParam, TraitDecl};
use crate::{receiver_kind, Receiver};

verus! {

/// A wrapper type holding a single value of another type.
#[derive(Debug, Clone, Copy, PartialEq, Eq, Hash, Structural)]
pub enum Type {
    /// `Box<T>`.
    Box,
    /// `&T`.
    Ref,
    /// `&mut T`.
    Mut,
    /// `std::rc::Rc<T>`.
    Rc,
    /// `std::sync::Arc<T>`.
    Arc,
    /// `std::borrow::Cow<'_, T>`.
    Cow,
}

/// The wrapper type called `s`, if any.
pub open spec fn type_named(s: Seq<char>) -> Option<Type> {
    if s == "Box"@ {
        Some(Type::Box)
    } else if s == "Ref"@ {
        Some(Type::Ref)
    } else if s == "Mut"@ {
        Some(Type::Mut)
    } else if s == "Rc"@ {
        Some(Type::Rc)
    } else if s == "Arc"@ {
        Some(Type::Arc)
    } else if s == "Cow"@ {
        Some(Type::Cow)
    } else {
        None
    }
}

/// Whether two strings hold the same characters.
pub fn same_text(a: &str, b: &str) -> (r: bool)
    ensures
        r == (a@ == b@),
{
    let a = String::from_str(a);
    let b = String::from_str(b);
    a == b
}

impl Type {
    /// The wrapper type called `s`, if any.
    pub fn from_str(s: &str) -> (r: Option<Type>)
        ensures
            r == type_named(s@),
    {
        if same_text(s, "Box") {
            Some(Type::Box)
        } else if same_text(s, "Ref") {
            Some(Type::Ref)
        } else if same_text(s, "Mut") {
            Some(Type::Mut)
        } else if same_text(s, "Rc") {
            Some(Type::Rc)
        } else if same_text(s, "Arc") {
            Some(Type::Arc)
        } else if same_text(s, "Cow") {
            Some(Type::Cow)
        } else {
            None
        }
    }

    /// The short name of the wrapper type, as used in messages.
    pub open spec fn spec_name(self) -> Seq<char> {
        match self {
            Type::Box => "Box"@,
            Type::Ref => "Ref"@,
            Type::Mut => "Mut"@,
            Type::Rc => "Rc"@,
            Type::Arc => "Arc"@,
            Type::Cow => "Cow"@,
        }
    }

    /// The short name of the wrapper type, as used in messages.
    pub fn name(&self) -> (r: &'static str)
        ensures
            r@ == self.spec_name(),
    {
        match self {
            Type::Box => "Box",
            Type::Ref => "Ref",
            Type::Mut => "Mut",
            Type::Rc => "Rc",
            Type::Arc => "Arc",
            Type::Cow => "Cow",
        }
    }

    /// Whether methods with receiver `r` can be forwarded through this wrapper.
    pub open spec fn allows(self, r: Receiver) -> bool {
        match self {
            Type::Box => r != Receiver::Arbitrary,
            Type::Mut => r == Receiver::Ref || r == Receiver::Mut,
            _ => r == Receiver::Ref,
        }
    }

    /// Whether methods with receiver `r` can be forwarded through this wrapper.
    pub fn allows_receiver(&self, r: Receiver) -> (b: bool)
        ensures
            b == self.allows(r),
    {
        match self {
            Type::Box => !matches!(r, Receiver::Arbitrary),
            Type::Mut => matches!(r, Receiver::Ref | Receiver::Mut),
            _ => matches!(r, Receiver::Ref),
        }
    }

    /// The error for a receiver of kind `r` that this wrapper refuses.
    pub open spec fn rejection(self, r: Receiver) -> ErrorKind {
        match r {
            Receiver::Arbitrary => ErrorKind::ArbitraryReceiver(self),
            Receiver::Mut => ErrorKind::MutReceiver(self),
            _ => ErrorKind::OwnedReceiver(self),
        }
    }

    /// How many times `self` is dereferenced to reach the wrapped value
    /// for a receiver of kind `r`.
    pub open spec fn deref_depth(self, r: Receiver) -> nat {
        if r == Receiver::Owned {
            1
        } else {
            2
        }
    }

    /// Check that a method with receiver `r` can be forwarded through this wrapper.
    pub fn check_receiver(&self, r: &SelfParam) -> (res: Result<(), Error>)
        ensures
            res is Ok <==> self.allows(receiver_kind(*r)),
            res matches Err(e) ==> e == (Error { kind: self.rejection(receiver_kind(*r)), span: r.span }),
    {
        let k = Receiver::of(r);
        if self.allows_receiver(k) {
            Ok(())
        } else {
            let kind = match k {
                Receiver::Arbitrary => ErrorKind::ArbitraryReceiver(*self),
                Receiver::Mut => ErrorKind::MutReceiver(*self),
                _ => ErrorKind::OwnedReceiver(*self),
            };
            Err(Error { kind, span: r.span })
        }
    }

    /// The text of this wrapper around the type named `inner`.
    pub open spec fn wrapped(self, inner: Seq<char>) -> Seq<char> {
        match self {
            Type::Box => "Box<"@ + inner + ">"@,
            Type::Ref => "&"@ + inner,
            Type::Mut => "&mut "@ + inner,
            Type::Rc => "std::rc::Rc<"@ + inner + ">"@,
            Type::Arc => "std::sync::Arc<"@ + inner + ">"@,
            Type::Cow => "std::borrow::Cow<'_, "@ + inner + ">"@,
        }
    }

    /// Wrap the type named `ty` into this wrapper type.
    pub fn wrap(&self, ty: &str) -> (r: String)
        ensures
            r@ == self.wrapped(ty@),
    {
        let (open, close) = match self {
            Type::Box => ("Box<", ">"),
            Type::Ref => ("&", ""),
            Type::Mut => ("&mut ", ""),
            Type::Rc => ("std::rc::Rc<", ">"),
            Type::Arc => ("std::sync::Arc<", ">"),
            Type::Cow => ("std::borrow::Cow<'_, ", ">"),
        };
        let mut r = String::from_str(open);
        r.append(ty);
        r.append(close);
        proof {
            reveal_strlit("");
        }
        r
    }

    /// Further bounds the wrapped type must meet, as their text.
    pub open spec fn spec_extra_bounds(self) -> Seq<Seq<char>> {
        match self {
            Type::Cow => seq!["ToOwned"@],
            _ => Seq::empty(),
        }
    }

    /// Further bounds the wrapped type must meet, as their text.
    pub fn extra_bounds(&self) -> (r: Vec<String>)
        ensures
            r@.map_values(|b: String| b@) == self.spec_extra_bounds(),
    {
        let mut r: Vec<String> = Vec::new();
        if let Type::Cow = self {
            r.push(String::from_str("ToOwned"));
        }
        assert(r@.map_values(|b: String| b@) =~= self.spec_extra_bounds());
        r
    }

    /// Derive the blanket implementation of `trait_` for this wrapper type.
    pub fn defer_trait_methods(&self, trait_: TraitDecl) -> (r: Result<ImplBlock, Error>)
        ensures
            match r {
                Ok(b) => derive_error(trait_, *self) is None && is_blanket_impl(b, trait_, *self),
                Err(e) => derive_error(trait_, *self) == Some(e),
            },
    {
        derive_impl(trait_, *self)
    }
}

} // verus!
