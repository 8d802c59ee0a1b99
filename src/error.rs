//! The errors the engine reports.
use vstd::prelude::*;

use crate::types::Type;

verus! {

/// What went wrong.
#[derive(Debug, Clone, Copy, PartialEq, Eq, Structural)]
pub enum ErrorKind {
    /// A parameter pattern is not a plain identifier.
    ExpectedIdentifier,
    /// A const generic parameter, which cannot be forwarded.
    ConstGenerics,
    /// A `self: Type` receiver that the wrapper type cannot forward.
    ArbitraryReceiver(Type),
    /// A `&mut self` receiver that the wrapper type cannot forward.
    MutReceiver(Type),
    /// A `self` receiver that the wrapper type cannot forward.
    OwnedReceiver(Type),
    /// A method that already has a body while deferring to a module.
    DefaultImplementation,
}

/// An error, with the place in the source it is reported at.
#[derive(Debug, Clone, Copy, PartialEq, Eq, Structural)]
pub struct Error {
    pub kind: ErrorKind,
    pub span: u64,
}

/// The sentence telling that the wrapper `ty` cannot be derived for a
/// trait declaring methods of the kind `what`.
pub open spec fn refusal(ty: Type, what: Seq<char>) -> Seq<char> {
    "cannot derive `"@ + ty.spec_name() + "` for a trait declaring "@ + what
}

impl ErrorKind {
    /// The message reported for this error.
    pub open spec fn spec_message(self) -> Seq<char> {
        match self {
            ErrorKind::ExpectedIdentifier => "expected identifier"@,
            ErrorKind::ConstGenerics => "cannot handle const generics"@,
            ErrorKind::ArbitraryReceiver(ty) => refusal(ty, "methods with arbitrary receiver types"@),
            ErrorKind::MutReceiver(ty) => refusal(ty, "`&mut self` methods"@),
            ErrorKind::OwnedReceiver(ty) => refusal(ty, "`self` methods"@),
            ErrorKind::DefaultImplementation => "method should not have default implementation if using #[blanket(default = \"...\")]"@,
        }
    }

    /// The message reported for this error.
    pub fn message(&self) -> (r: String)
        ensures
            r@ == self.spec_message(),
    {
        match self {
            ErrorKind::ExpectedIdentifier => String::from_str("expected identifier"),
            ErrorKind::ConstGenerics => String::from_str("cannot handle const generics"),
            ErrorKind::ArbitraryReceiver(ty) => refusal_text(*ty, "methods with arbitrary receiver types"),
            ErrorKind::MutReceiver(ty) => refusal_text(*ty, "`&mut self` methods"),
            ErrorKind::OwnedReceiver(ty) => refusal_text(*ty, "`self` methods"),
            ErrorKind::DefaultImplementation => String::from_str(
                "method should not have default implementation if using #[blanket(default = \"...\")]",
            ),
        }
    }
}

fn refusal_text(ty: Type, what: &str) -> (r: String)
    ensures
        r@ == refusal(ty, what@),
{
    let mut r = String::from_str("cannot derive `");
    r.append(ty.name());
    r.append("` for a trait declaring ");
    r.append(what);
    r
}

impl Error {
    /// The message reported for this error.
    pub fn message(&self) -> (r: String)
        ensures
            r@ == self.kind.spec_message(),
    {
        self.kind.message()
    }
}

} // verus!
