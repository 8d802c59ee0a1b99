//! Giving each method of a trait a default body that defers to a free
//! function of a module.
use vstd::prelude::*;

use crate::error::{Error, ErrorKind};
use crate::syntax::{copy_strings, Body, Expr, MethodDecl, TraitDecl, TraitItem};
use crate::utils::{first_bad_arg, function_args, prepend_function_path, signature_to_function_call};

verus! {

/// The error, if any, met while deferring the item `item` to a module.
pub open spec fn defer_item_error(item: TraitItem) -> Option<Error> {
    match item {
        TraitItem::Method(m) => if m.default is Some {
            Some(Error { kind: ErrorKind::DefaultImplementation, span: m.span })
        } else {
            first_bad_arg(m.sig.params@)
        },
        _ => None,
    }
}

/// The error of the first of `items` that cannot be deferred to a module.
pub open spec fn first_defer_error(items: Seq<TraitItem>) -> Option<Error>
    decreases items.len(),
{
    if items.len() == 0 {
        None
    } else {
        match defer_item_error(items[0]) {
            Some(e) => Some(e),
            None => first_defer_error(items.drop_first()),
        }
    }
}

/// Whether `body` calls the function `module::name` with the method's
/// arguments, `self` first if it has a receiver.
pub open spec fn deferring_body(body: Option<Body>, m: MethodDecl, module: Seq<String>) -> bool {
    match body {
        Some(Body::Expr(Expr::Call(call))) => {
            &&& call.func@ == module.push(m.sig.name)
            &&& call.args@ == function_args(m.sig)
        },
        _ => false,
    }
}

/// Whether `new` is the item `item` deferred to `module`: a method gets a
/// body calling the function of the same name in `module`, any other item
/// is kept.
pub open spec fn deferred_item(new: TraitItem, item: TraitItem, module: Seq<String>) -> bool {
    match item {
        TraitItem::Method(m) => match new {
            TraitItem::Method(n) => {
                &&& n.attrs == m.attrs
                &&& n.sig == m.sig
                &&& n.span == m.span
                &&& deferring_body(n.default, m, module)
            },
            _ => false,
        },
        _ => new == item,
    }
}

/// Give the method `m`, which has no body, one that calls the function of
/// the same name in `module`.
fn defer_method(m: MethodDecl, module: &Vec<String>) -> (r: Result<MethodDecl, Error>)
    ensures
        match r {
            Ok(n) => {
                &&& defer_item_error(TraitItem::Method(m)) is None
                &&& deferred_item(TraitItem::Method(n), TraitItem::Method(m), module@)
            },
            Err(e) => defer_item_error(TraitItem::Method(m)) == Some(e),
        },
{
    if m.default.is_some() {
        return Err(Error { kind: ErrorKind::DefaultImplementation, span: m.span });
    }
    let mut call = match signature_to_function_call(&m.sig) {
        Ok(call) => call,
        Err(e) => return Err(e),
    };
    prepend_function_path(&mut call, copy_strings(module));
    proof {
        assert(module@ + seq![m.sig.name] == module@.push(m.sig.name));
    }
    Ok(
        MethodDecl {
            attrs: m.attrs,
            sig: m.sig,
            default: Some(Body::Expr(Expr::Call(call))),
            span: m.span,
        },
    )
}

/// Update the method declarations of `trait_` to use default
/// implementations from the module `default`.
pub fn defer_trait_methods(trait_: TraitDecl, default: Vec<String>) -> (r: Result<TraitDecl, Error>)
    ensures
        match r {
            Ok(t) => {
                &&& first_defer_error(trait_.items@) is None
                &&& t.name == trait_.name
                &&& t.generics == trait_.generics
                &&& t.span == trait_.span
                &&& t.items@.len() == trait_.items@.len()
                &&& forall|i: int|
                    0 <= i < t.items@.len() ==> deferred_item(
                        #[trigger] t.items@[i],
                        trait_.items@[i],
                        default@,
                    )
            },
            Err(e) => first_defer_error(trait_.items@) == Some(e),
        },
{
    let ghost orig = trait_.items@;
    let TraitDecl { name, generics, items, span } = trait_;
    let mut items = items;
    let mut done: Vec<TraitItem> = Vec::new();
    let ghost mut k: int = 0;
    assert(orig.skip(0) == orig);
    while items.len() > 0
        invariant
            0 <= k <= orig.len(),
            orig == trait_.items@,
            items@ == orig.skip(k),
            first_defer_error(orig) == first_defer_error(orig.skip(k)),
            done@.len() == k,
            forall|i: int| 0 <= i < k ==> deferred_item(#[trigger] done@[i], orig[i], default@),
        decreases items.len(),
    {
        let item = items.remove(0);
        proof {
            assert(orig.skip(k)[0] == orig[k]);
            assert(orig.skip(k).drop_first() == orig.skip(k + 1));
            assert(item == orig[k]);
        }
        let new_item = match item {
            TraitItem::Method(m) => match defer_method(m, &default) {
                Ok(n) => TraitItem::Method(n),
                Err(e) => {
                    assert(first_defer_error(orig.skip(k)) == Some(e));
                    return Err(e);
                },
            },
            other => other,
        };
        done.push(new_item);
        proof {
            k = k + 1;
        }
    }
    Ok(TraitDecl { name, generics, items: done, span })
}

} // verus!
