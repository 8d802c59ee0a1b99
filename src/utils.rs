//! Turning signatures into forwarding calls, and the helpers they share.
use vstd::prelude::*;

use crate::error::{Error, ErrorKind};
use crate::syntax::{TraitDecl, bare, bare_all, Expr, FnCall, GenericParam, MethodCall, ParamKind, Pat, QualifiedCall, Signature, TraitRef, TypedArg};

verus! {

/// The expression passing the parameter `a` on, if its pattern is a plain identifier.
pub open spec fn arg_expr(a: TypedArg) -> Expr {
    match a.pat {
        Pat::Ident { name, .. } => Expr::Var(name),
        Pat::Other(_) => Expr::SelfValue,
    }
}

/// The expressions passing each of `params` on, in order.
pub open spec fn arg_exprs(params: Seq<TypedArg>) -> Seq<Expr> {
    params.map_values(|a: TypedArg| arg_expr(a))
}

/// The error for the first of `params` whose pattern is not a plain identifier.
pub open spec fn first_bad_arg(params: Seq<TypedArg>) -> Option<Error>
    decreases params.len(),
{
    if params.len() == 0 {
        None
    } else if params[0].pat is Other {
        Some(Error { kind: ErrorKind::ExpectedIdentifier, span: params[0].span })
    } else {
        first_bad_arg(params.drop_first())
    }
}

/// The error for the first const parameter of `params`.
pub open spec fn first_const(params: Seq<GenericParam>) -> Option<Error>
    decreases params.len(),
{
    if params.len() == 0 {
        None
    } else if params[0].kind == ParamKind::Const {
        Some(Error { kind: ErrorKind::ConstGenerics, span: params[0].span })
    } else {
        first_const(params.drop_first())
    }
}

/// Build the expressions passing each of `params` on, in order.
fn forward_args(params: &Vec<TypedArg>) -> (r: Result<Vec<Expr>, Error>)
    ensures
        match r {
            Ok(args) => first_bad_arg(params@) is None && args@ == arg_exprs(params@),
            Err(e) => first_bad_arg(params@) == Some(e),
        },
{
    let mut args: Vec<Expr> = Vec::new();
    assert(params@.skip(0) == params@);
    for i in 0..params.len()
        invariant
            first_bad_arg(params@) == first_bad_arg(params@.skip(i as int)),
            args@ == arg_exprs(params@.take(i as int)),
    {
        assert(params@.skip(i as int).drop_first() == params@.skip(i + 1));
        assert(params@.skip(i as int)[0] == params@[i as int]);
        match &params[i].pat {
            Pat::Ident { name, .. } => {
                args.push(Expr::Var(name.clone()));
            },
            Pat::Other(_) => {
                return Err(Error { kind: ErrorKind::ExpectedIdentifier, span: params[i].span });
            },
        }
        assert(arg_exprs(params@.take(i + 1)) == arg_exprs(params@.take(i as int)).push(
            arg_expr(params@[i as int]),
        ));
    }
    assert(params@.take(params.len() as int) == params@);
    assert(params@.skip(params.len() as int).len() == 0);
    Ok(args)
}

/// The arguments of a call forwarding `sig` as a free function: `self` first
/// if it has a receiver, then each parameter.
pub open spec fn function_args(sig: Signature) -> Seq<Expr> {
    if sig.receiver is Some {
        seq![Expr::SelfValue] + arg_exprs(sig.params@)
    } else {
        arg_exprs(sig.params@)
    }
}

/// Convert a function signature to a function call with the same arguments.
pub fn signature_to_function_call(sig: &Signature) -> (r: Result<FnCall, Error>)
    ensures
        match r {
            Ok(call) => {
                &&& first_bad_arg(sig.params@) is None
                &&& call.func@ == seq![sig.name]
                &&& call.args@ == function_args(*sig)
            },
            Err(e) => first_bad_arg(sig.params@) == Some(e),
        },
{
    let rest = forward_args(&sig.params)?;
    let mut args: Vec<Expr> = Vec::new();
    if sig.receiver.is_some() {
        args.push(Expr::SelfValue);
    }
    let mut rest = rest;
    args.append(&mut rest);
    assert(args@ == function_args(*sig));
    let mut func: Vec<String> = Vec::new();
    func.push(sig.name.clone());
    Ok(FnCall { func, args })
}

/// Convert a method signature to a method call on `self` with the same arguments.
pub fn signature_to_method_call(sig: &Signature) -> (r: Result<MethodCall, Error>)
    requires
        sig.receiver is Some,
    ensures
        match r {
            Ok(call) => {
                &&& first_bad_arg(sig.params@) is None
                &&& *call.receiver == Expr::SelfValue
                &&& call.method == sig.name
                &&& call.args@ == arg_exprs(sig.params@)
            },
            Err(e) => first_bad_arg(sig.params@) == Some(e),
        },
{
    let args = forward_args(&sig.params)?;
    Ok(MethodCall { receiver: Box::new(Expr::SelfValue), method: sig.name.clone(), args })
}

/// Convert an associated function signature to a fully qualified call
/// `<generic_type as trait_ref>::f(..)` with the same arguments.
pub fn signature_to_associated_function_call(
    sig: &Signature,
    trait_ref: &TraitRef,
    generic_type: &String,
) -> (r: Result<QualifiedCall, Error>)
    requires
        sig.receiver is None,
    ensures
        match r {
            Ok(call) => {
                &&& first_bad_arg(sig.params@) is None
                &&& call.self_ty == *generic_type
                &&& call.trait_ref.name == trait_ref.name
                &&& call.trait_ref.args@ == trait_ref.args@
                &&& call.method == sig.name
                &&& call.args@ == arg_exprs(sig.params@)
            },
            Err(e) => first_bad_arg(sig.params@) == Some(e),
        },
{
    let args = forward_args(&sig.params)?;
    Ok(
        QualifiedCall {
            self_ty: generic_type.clone(),
            trait_ref: trait_ref.duplicate(),
            method: sig.name.clone(),
            args,
        },
    )
}

/// Prepend a module path to a function call name.
pub fn prepend_function_path(call: &mut FnCall, module: Vec<String>)
    ensures
        final(call).func@ == module@ + old(call).func@,
        final(call).args == old(call).args,
{
    let mut func = module;
    func.append(&mut call.func);
    call.func = func;
}

/// Dereference an expression, in brackets to keep the operation's priority.
pub fn deref_expr(expr: Expr) -> (r: Expr)
    ensures
        r == Expr::Deref(Box::new(expr)),
{
    Expr::Deref(Box::new(expr))
}

/// Convert generic parameter declarations to the bare parameters naming them:
/// given `<T: 'static + Send>`, get simply `<T>`.
pub fn generics_declaration_to_generics(params: &Vec<GenericParam>) -> (r: Result<
    Vec<GenericParam>,
    Error,
>)
    ensures
        match r {
            Ok(names) => first_const(params@) is None && names@ == bare_all(params@),
            Err(e) => first_const(params@) == Some(e),
        },
{
    let mut names: Vec<GenericParam> = Vec::new();
    assert(params@.skip(0) == params@);
    for i in 0..params.len()
        invariant
            first_const(params@) == first_const(params@.skip(i as int)),
            names@ == bare_all(params@.take(i as int)),
    {
        assert(params@.skip(i as int).drop_first() == params@.skip(i + 1));
        assert(params@.skip(i as int)[0] == params@[i as int]);
        if let ParamKind::Const = params[i].kind {
            return Err(Error { kind: ErrorKind::ConstGenerics, span: params[i].span });
        }
        names.push(params[i].without_bounds());
        assert(bare_all(params@.take(i + 1)) == bare_all(params@.take(i as int)).push(
            bare(params@[i as int]),
        ));
    }
    assert(params@.take(params.len() as int) == params@);
    assert(params@.skip(params.len() as int).len() == 0);
    Ok(names)
}

/// Whether `c` has the Unicode `Uppercase` property.
pub uninterp spec fn is_upper(c: char) -> bool;

/// Relies on `char::is_uppercase`: whether `c` has the Unicode `Uppercase` property.
#[verifier::external_body]
fn is_uppercase(c: char) -> (r: bool)
    ensures
        r == is_upper(c),
{
    c.is_uppercase()
}

/// Relies on `String::push`: appends `c` to the end of `s`.
#[verifier::external_body]
fn push_char(s: &mut String, c: char)
    ensures
        final(s)@ == old(s)@.push(c),
{
    s.push(c)
}

/// The upper-case characters of `name`, in order.
pub open spec fn initials(name: Seq<char>) -> Seq<char> {
    name.filter(|c: char| is_upper(c))
}

/// Whether `s` is the name of one of `params`.
pub open spec fn collides(s: Seq<char>, params: Seq<GenericParam>) -> bool {
    exists|i: int| 0 <= i < params.len() && #[trigger] params[i].name@ == s
}

/// The length of the longest name among `params`.
pub open spec fn max_name_len(params: Seq<GenericParam>) -> nat
    decreases params.len(),
{
    if params.len() == 0 {
        0
    } else {
        let rest = max_name_len(params.drop_last());
        let n = params.last().name@.len();
        if n > rest {
            n
        } else {
            rest
        }
    }
}

/// `k` underscores.
pub open spec fn underscores(k: nat) -> Seq<char> {
    Seq::new(k, |i: int| '_')
}

/// `base` followed by the fewest underscores, at least `k`, that make it
/// differ from the name of every one of `params`.
pub open spec fn fresh_from(base: Seq<char>, params: Seq<GenericParam>, k: nat) -> Seq<char>
    decreases max_name_len(params) + 1 - (base.len() + k),
{
    if base.len() + k > max_name_len(params) || !collides(base + underscores(k), params) {
        base + underscores(k)
    } else {
        fresh_from(base, params, k + 1)
    }
}

/// The start of the generic identifier for a trait called `name`: its
/// initials, or `T` for a name without upper-case characters.
pub open spec fn ident_base(name: Seq<char>) -> Seq<char> {
    if initials(name).len() == 0 {
        seq!['T']
    } else {
        initials(name)
    }
}

/// The generic identifier for a trait called `name` with generic parameters
/// `params`: its base, followed by as many underscores as it takes to
/// differ from every parameter's name.
pub open spec fn generic_ident(name: Seq<char>, params: Seq<GenericParam>) -> Seq<char> {
    fresh_from(ident_base(name), params, 0)
}

/// No name among `params` is longer than `max_name_len(params)`.
pub proof fn lemma_max_name_len(params: Seq<GenericParam>, i: int)
    requires
        0 <= i < params.len(),
    ensures
        params[i].name@.len() <= max_name_len(params),
    decreases params.len(),
{
    if i < params.len() - 1 {
        lemma_max_name_len(params.drop_last(), i);
    }
}

/// Whether `s` is the name of one of `params`.
fn is_param_name(s: &String, params: &Vec<GenericParam>) -> (r: bool)
    ensures
        r == collides(s@, params@),
{
    for i in 0..params.len()
        invariant
            forall|j: int| 0 <= j < i ==> params@[j].name@ != s@,
    {
        if params[i].name == *s {
            return true;
        }
    }
    false
}

/// Build a generic identifier suitable for the given trait.
///
/// This function extracts the initials of the trait identifier, or takes
/// `T` if it has none. If this results in the name of a generic parameter
/// of that trait, as many underscores as needed are added to the end of the
/// identifier.
pub fn trait_to_generic_ident(trait_: &TraitDecl) -> (r: String)
    ensures
        r@ == generic_ident(trait_.name@, trait_.generics.params@),
        !collides(r@, trait_.generics.params@),
        r@.len() > 0,
        is_upper(r@[0]) || r@[0] == 'T',
{
    let params = &trait_.generics.params;
    let mut raw = String::new();
    let ghost name = trait_.name@;
    for c in it: trait_.name.as_str().chars()
        invariant
            it.seq() == name,
            raw@ == initials(name.take(it.index() as int)),
    {
        proof {
            reveal(Seq::filter);
            assert(name.take(it.index() + 1).drop_last() == name.take(it.index() as int));
        }
        if is_uppercase(c) {
            push_char(&mut raw, c);
        }
    }
    proof {
        assert(name.take(name.len() as int) == name);
    }
    if raw.as_str().is_empty() {
        raw = String::from_str("T");
        proof {
            reveal_strlit("T");
        }
    } else {
        proof {
            name.lemma_filter_pred(|c: char| is_upper(c), 0);
        }
    }
    let ghost base = raw@;
    assert(base == ident_base(name));
    assert(base.len() > 0 && (is_upper(base[0]) || base[0] == 'T'));
    let ghost mut k: nat = 0;
    assert(raw@ == base + underscores(0));
    while is_param_name(&raw, params)
        invariant
            raw@ == base + underscores(k),
            base.len() > 0,
            fresh_from(base, params@, k) == generic_ident(trait_.name@, params@),
        decreases max_name_len(params@) + 1 - raw@.len(),
    {
        let ghost i = choose|i: int| 0 <= i < params@.len() && params@[i].name@ == raw@;
        proof {
            lemma_max_name_len(params@, i);
        }
        raw.append("_");
        proof {
            reveal_strlit("_");
            assert(base + underscores(k + 1) == (base + underscores(k)).push('_'));
            k = k + 1;
        }
    }
    proof {
        if raw@.len() > max_name_len(params@) {
            assert forall|i: int| 0 <= i < params@.len() implies params@[i].name@ != raw@ by {
                lemma_max_name_len(params@, i);
            }
        }
    }
    raw
}

} // verus!
