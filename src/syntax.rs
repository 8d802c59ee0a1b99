//! The abstract syntax that the engine reads and writes.
//!
//! Only the parts of a trait that the transformations inspect are
//! structured; everything that is carried through untouched (bound lists,
//! types, attributes, where-clause predicates) is kept as its source text.
use vstd::prelude::*;

verus! {

/// The kind of a generic parameter.
#[derive(Debug, Clone, Copy, PartialEq, Eq, Structural)]
pub enum ParamKind {
    Type,
    Lifetime,
    Const,
}

/// A generic parameter such as `T: Send`, `'a` or `const N: usize`.
#[derive(Debug, Clone, PartialEq, Eq)]
pub struct GenericParam {
    pub kind: ParamKind,
    /// The parameter's name; a lifetime keeps its leading quote (`'a`).
    pub name: String,
    /// The text after the colon (`'static + Send`), if any; for a const
    /// parameter, its type.
    pub bounds: Option<String>,
    /// Where the parameter stands in the source.
    pub span: u64,
}

/// A list of generic parameters with its where-clause.
#[derive(Debug, Clone, PartialEq, Eq)]
pub struct Generics {
    pub params: Vec<GenericParam>,
    /// The where-clause predicates, each as its text (`Self: 'a`).
    pub where_clause: Vec<String>,
}

/// A `self` parameter: `&self`, `&'a mut self`, `self`, `mut self` or `self: Box<Self>`.
#[derive(Debug, Clone, PartialEq, Eq)]
pub struct SelfParam {
    /// Whether it is taken by reference (`&self`, `&mut self`).
    pub reference: bool,
    /// The lifetime of the reference, if one is written.
    pub lifetime: Option<String>,
    /// Whether `mut` is written (`&mut self` or `mut self`).
    pub mutable: bool,
    /// The explicit type of `self: Type`, if any.
    pub ty: Option<String>,
    pub span: u64,
}

/// The pattern of a non-receiver parameter.
#[derive(Debug, Clone, PartialEq, Eq)]
pub enum Pat {
    /// A plain binding such as `x`, `mut x` or `ref x`.
    Ident { by_ref: bool, mutable: bool, name: String },
    /// Any other pattern, as its text (`(a, b)`).
    Other(String),
}

/// A non-receiver parameter `pat: ty`.
#[derive(Debug, Clone, PartialEq, Eq)]
pub struct TypedArg {
    pub pat: Pat,
    pub ty: String,
    pub span: u64,
}

/// A method or associated function signature.
#[derive(Debug, Clone, PartialEq, Eq)]
pub struct Signature {
    /// The qualifiers written before `fn` other than `async` (`const`, `unsafe`, `extern "C"`).
    pub qualifiers: Option<String>,
    pub is_async: bool,
    pub name: String,
    pub generics: Generics,
    pub receiver: Option<SelfParam>,
    pub params: Vec<TypedArg>,
    /// The return type, if one is written.
    pub output: Option<String>,
    pub span: u64,
}

/// An expression built by the engine.
#[derive(Debug, PartialEq, Eq)]
pub enum Expr {
    /// `self`.
    SelfValue,
    /// A variable or path of one segment.
    Var(String),
    /// `(*e)`: a dereference, always parenthesised.
    Deref(Box<Expr>),
    /// `path::f(args)`.
    Call(FnCall),
    /// `<Ty as Trait<..>>::f(args)`.
    QualifiedCall(QualifiedCall),
    /// `receiver.m(args)`.
    MethodCall(MethodCall),
    /// `e.await`.
    Await(Box<Expr>),
}

/// A call of a function by its path.
#[derive(Debug, PartialEq, Eq)]
pub struct FnCall {
    /// The segments of the function's path, outermost first.
    pub func: Vec<String>,
    pub args: Vec<Expr>,
}

/// A reference to a trait with its generic arguments: `MyTrait<T, 'a>`.
#[derive(Debug, Clone, PartialEq, Eq)]
pub struct TraitRef {
    pub name: String,
    /// The arguments, as parameters without bounds.
    pub args: Vec<GenericParam>,
}

/// A fully qualified call `<self_ty as trait_ref>::method(args)`.
#[derive(Debug, PartialEq, Eq)]
pub struct QualifiedCall {
    pub self_ty: String,
    pub trait_ref: TraitRef,
    pub method: String,
    pub args: Vec<Expr>,
}

/// A method call `receiver.method(args)`.
#[derive(Debug, PartialEq, Eq)]
pub struct MethodCall {
    pub receiver: Box<Expr>,
    pub method: String,
    pub args: Vec<Expr>,
}

/// The body of a trait method.
#[derive(Debug, PartialEq, Eq)]
pub enum Body {
    /// A body written in the source, as its text.
    Verbatim(String),
    /// A body made of a single expression built by the engine.
    Expr(Expr),
}

/// A method declared in a trait.
#[derive(Debug, PartialEq, Eq)]
pub struct MethodDecl {
    pub attrs: Vec<String>,
    pub sig: Signature,
    pub default: Option<Body>,
    pub span: u64,
}

/// An associated type declared in a trait: `type Name<..>: Bounds where ..;`.
#[derive(Debug, Clone, PartialEq, Eq)]
pub struct AssocTypeDecl {
    pub attrs: Vec<String>,
    pub name: String,
    pub generics: Generics,
    pub bounds: Option<String>,
}

/// An item of a trait.
#[derive(Debug, PartialEq, Eq)]
pub enum TraitItem {
    Method(MethodDecl),
    Type(AssocTypeDecl),
    /// Any other item (a constant, a macro call), as its text.
    Other(String),
}

/// A trait declaration.
#[derive(Debug, PartialEq, Eq)]
pub struct TraitDecl {
    pub name: String,
    pub generics: Generics,
    pub items: Vec<TraitItem>,
    pub span: u64,
}

/// The fresh type parameter of a blanket implementation:
/// `name: trait_ref [+ ?Sized] [+ extra_bounds]`.
#[derive(Debug, Clone, PartialEq, Eq)]
pub struct Placeholder {
    pub name: String,
    /// Whether `?Sized` is added to its bounds.
    pub maybe_sized: bool,
    /// Further bounds required by the wrapper type.
    pub extra_bounds: Vec<String>,
}

/// A forwarding associated type
/// `attrs type name<generics> = <self_ty as trait_ref>::name<args> where ..;`.
#[derive(Debug, Clone, PartialEq, Eq)]
pub struct ImplType {
    pub attrs: Vec<String>,
    pub name: String,
    /// The declaration's own generics and where-clause, as written.
    pub generics: Generics,
    pub self_ty: String,
    pub trait_ref: TraitRef,
    /// The declaration's generic parameters without bounds.
    pub args: Vec<GenericParam>,
}

/// A forwarding method `#[inline] sig { body }`.
#[derive(Debug, PartialEq, Eq)]
pub struct ImplMethod {
    pub sig: Signature,
    pub body: Expr,
}

/// A generated implementation block
/// `impl<generics.params, placeholder> trait_ref for self_ty where .. { types methods }`.
#[derive(Debug, PartialEq, Eq)]
pub struct ImplBlock {
    pub generics: Generics,
    pub placeholder: Placeholder,
    pub trait_ref: TraitRef,
    pub self_ty: String,
    pub types: Vec<ImplType>,
    pub methods: Vec<ImplMethod>,
}

/// A parameter with its bounds removed.
pub open spec fn bare(p: GenericParam) -> GenericParam {
    GenericParam { bounds: None, ..p }
}

/// The parameters of `ps`, each with its bounds removed.
pub open spec fn bare_all(ps: Seq<GenericParam>) -> Seq<GenericParam> {
    ps.map_values(|p: GenericParam| bare(p))
}

/// `self` dereferenced `n` times.
pub open spec fn self_deref(n: nat) -> Expr
    decreases n,
{
    if n == 0 {
        Expr::SelfValue
    } else {
        Expr::Deref(Box::new(self_deref((n - 1) as nat)))
    }
}

/// A copy of `s`.
pub fn copy_opt_string(s: &Option<String>) -> (r: Option<String>)
    ensures
        r == *s,
{
    match s {
        Some(t) => Some(t.clone()),
        None => None,
    }
}

/// A copy of `v`, element by element.
pub fn copy_strings(v: &Vec<String>) -> (r: Vec<String>)
    ensures
        r@ == v@,
{
    let mut r: Vec<String> = Vec::new();
    for i in 0..v.len()
        invariant
            r@ == v@.take(i as int),
    {
        r.push(v[i].clone());
        assert(v@.take(i + 1) == v@.take(i as int).push(v@[i as int]));
    }
    assert(v@.take(v.len() as int) == v@);
    r
}

impl GenericParam {
    /// A copy of this parameter.
    pub fn duplicate(&self) -> (r: GenericParam)
        ensures
            r == *self,
    {
        GenericParam {
            kind: self.kind,
            name: self.name.clone(),
            bounds: copy_opt_string(&self.bounds),
            span: self.span,
        }
    }

    /// A copy of this parameter without its bounds.
    pub fn without_bounds(&self) -> (r: GenericParam)
        ensures
            r == bare(*self),
    {
        GenericParam { kind: self.kind, name: self.name.clone(), bounds: None, span: self.span }
    }
}

impl TraitRef {
    /// A copy of this trait reference.
    pub fn duplicate(&self) -> (r: TraitRef)
        ensures
            r.name == self.name,
            r.args@ == self.args@,
    {
        let mut args: Vec<GenericParam> = Vec::new();
        for i in 0..self.args.len()
            invariant
                args@ == self.args@.take(i as int),
        {
            args.push(self.args[i].duplicate());
            assert(self.args@.take(i + 1) == self.args@.take(i as int).push(self.args@[i as int]));
        }
        assert(self.args@.take(self.args.len() as int) == self.args@);
        TraitRef { name: self.name.clone(), args }
    }
}

} // verus!
