//! Assembling a blanket implementation of a trait for a wrapper type.
use vstd::prelude::*;

use crate::error::Error;
use crate::syntax::{
    bare_all, self_deref, AssocTypeDecl, Expr, GenericParam, ImplBlock, ImplMethod, ImplType,
    Placeholder, Signature, TraitDecl, TraitItem, TraitRef,
};
use crate::types::Type;
use crate::utils::{
    arg_exprs, deref_expr, first_bad_arg, first_const, generic_ident,
    generics_declaration_to_generics, signature_to_associated_function_call,
    signature_to_method_call, trait_to_generic_ident,
};
use crate::{receiver_kind, Receiver};

verus! {

/// Whether `e` calls the method of signature `sig` on the wrapped value, with
/// the same arguments: as a method call on `self` dereferenced as many times
/// as the wrapper `ty` needs, or for an associated function, as a fully
/// qualified call `<generic_type as trait_name<trait_args>>::f(..)`.
pub open spec fn forwarding_call(
    e: Expr,
    sig: Signature,
    ty: Type,
    generic_type: String,
    trait_name: String,
    trait_args: Seq<GenericParam>,
) -> bool {
    match sig.receiver {
        Some(r) => match e {
            Expr::MethodCall(call) => {
                &&& *call.receiver == self_deref(ty.deref_depth(receiver_kind(r)))
                &&& call.method == sig.name
                &&& call.args@ == arg_exprs(sig.params@)
            },
            _ => false,
        },
        None => match e {
            Expr::QualifiedCall(call) => {
                &&& call.self_ty == generic_type
                &&& call.trait_ref.name == trait_name
                &&& call.trait_ref.args@ == trait_args
                &&& call.method == sig.name
                &&& call.args@ == arg_exprs(sig.params@)
            },
            _ => false,
        },
    }
}

/// Whether `body` forwards the method of signature `sig`: the forwarding
/// call, awaited once if the method is `async`.
pub open spec fn forwarding_body(
    body: Expr,
    sig: Signature,
    ty: Type,
    generic_type: String,
    trait_name: String,
    trait_args: Seq<GenericParam>,
) -> bool {
    if sig.is_async {
        match body {
            Expr::Await(inner) => forwarding_call(
                *inner,
                sig,
                ty,
                generic_type,
                trait_name,
                trait_args,
            ),
            _ => false,
        }
    } else {
        forwarding_call(body, sig, ty, generic_type, trait_name, trait_args)
    }
}

/// The error, if any, met while forwarding the method of signature `sig`
/// through the wrapper `ty`: a refused receiver, else a parameter that is
/// not a plain identifier.
pub open spec fn method_error(sig: Signature, ty: Type) -> Option<Error> {
    match sig.receiver {
        Some(r) => if ty.allows(receiver_kind(r)) {
            first_bad_arg(sig.params@)
        } else {
            Some(Error { kind: ty.rejection(receiver_kind(r)), span: r.span })
        },
        None => first_bad_arg(sig.params@),
    }
}

/// Whether `it` forwards the associated type `t` to the same type of
/// `generic_type` as an implementation of `trait_name<trait_args>`.
pub open spec fn forwarding_type(
    it: ImplType,
    t: AssocTypeDecl,
    generic_type: String,
    trait_name: String,
    trait_args: Seq<GenericParam>,
) -> bool {
    &&& it.attrs == t.attrs
    &&& it.name == t.name
    &&& it.generics == t.generics
    &&& it.self_ty == generic_type
    &&& it.trait_ref.name == trait_name
    &&& it.trait_ref.args@ == trait_args
    &&& it.args@ == bare_all(t.generics.params@)
}

/// The error, if any, met while forwarding the item `item` through `ty`.
pub open spec fn item_error(item: TraitItem, ty: Type) -> Option<Error> {
    match item {
        TraitItem::Method(m) => method_error(m.sig, ty),
        TraitItem::Type(t) => first_const(t.generics.params@),
        TraitItem::Other(_) => None,
    }
}

/// The error of the first of `items` that cannot be forwarded through `ty`.
pub open spec fn first_item_error(items: Seq<TraitItem>, ty: Type) -> Option<Error>
    decreases items.len(),
{
    if items.len() == 0 {
        None
    } else {
        match item_error(items[0], ty) {
            Some(e) => Some(e),
            None => first_item_error(items.drop_first(), ty),
        }
    }
}

/// The error, if any, met while deriving the implementation of `trait_`
/// for the wrapper `ty`: a const generic parameter of the trait, else the
/// error of the first item that cannot be forwarded.
pub open spec fn derive_error(trait_: TraitDecl, ty: Type) -> Option<Error> {
    match first_const(trait_.generics.params@) {
        Some(e) => Some(e),
        None => first_item_error(trait_.items@, ty),
    }
}

/// The signatures of the methods among `items`, in order.
pub open spec fn method_sigs(items: Seq<TraitItem>) -> Seq<Signature> {
    items.filter_map(
        |it: TraitItem|
            match it {
                TraitItem::Method(m) => Some(m.sig),
                _ => None,
            },
    )
}

/// The associated types among `items`, in order.
pub open spec fn type_decls(items: Seq<TraitItem>) -> Seq<AssocTypeDecl> {
    items.filter_map(
        |it: TraitItem|
            match it {
                TraitItem::Type(t) => Some(t),
                _ => None,
            },
    )
}

/// Whether `item` is a method taking `self` by value.
pub open spec fn takes_self_by_value(item: TraitItem) -> bool {
    match item {
        TraitItem::Method(m) => match m.sig.receiver {
            Some(r) => receiver_kind(r) == Receiver::Owned,
            None => false,
        },
        _ => false,
    }
}

/// Whether one of `items` is a method taking `self` by value.
pub open spec fn has_owned_receiver(items: Seq<TraitItem>) -> bool {
    exists|i: int| 0 <= i < items.len() && #[trigger] takes_self_by_value(items[i])
}

/// Whether `b` is the blanket implementation of `trait_` for the wrapper `ty`.
pub open spec fn is_blanket_impl(b: ImplBlock, trait_: TraitDecl, ty: Type) -> bool {
    let items = trait_.items@;
    let args = bare_all(trait_.generics.params@);
    let ph = b.placeholder.name;
    &&& b.generics == trait_.generics
    &&& b.trait_ref.name == trait_.name
    &&& b.trait_ref.args@ == args
    &&& ph@ == generic_ident(trait_.name@, trait_.generics.params@)
    &&& b.placeholder.maybe_sized == !has_owned_receiver(items)
    &&& b.placeholder.extra_bounds@.map_values(|s: String| s@) == ty.spec_extra_bounds()
    &&& b.self_ty@ == ty.wrapped(ph@)
    &&& b.types@.len() == type_decls(items).len()
    &&& forall|j: int|
        0 <= j < b.types@.len() ==> forwarding_type(
            #[trigger] b.types@[j],
            type_decls(items)[j],
            ph,
            trait_.name,
            args,
        )
    &&& b.methods@.len() == method_sigs(items).len()
    &&& forall|j: int|
        0 <= j < b.methods@.len() ==> {
            &&& (#[trigger] b.methods@[j]).sig == method_sigs(items)[j]
            &&& forwarding_body(b.methods@[j].body, method_sigs(items)[j], ty, ph, trait_.name, args)
        }
}

/// Derive the forwarding method for the trait method `m` through the
/// wrapper `ty`, where `generic_type` implements `trait_ref`.
pub fn derive_impl_item_fn(
    m: crate::syntax::MethodDecl,
    trait_ref: &TraitRef,
    generic_type: &String,
    ty: Type,
) -> (r: Result<ImplMethod, Error>)
    ensures
        match r {
            Ok(im) => {
                &&& method_error(m.sig, ty) is None
                &&& im.sig == m.sig
                &&& forwarding_body(
                    im.body,
                    m.sig,
                    ty,
                    *generic_type,
                    trait_ref.name,
                    trait_ref.args@,
                )
            },
            Err(e) => method_error(m.sig, ty) == Some(e),
        },
{
    let sig = m.sig;
    let call: Expr = match &sig.receiver {
        Some(r) => {
            ty.check_receiver(r)?;
            let mut call = signature_to_method_call(&sig)?;
            let inner = *call.receiver;
            proof {
                assert(self_deref(1) == Expr::Deref(Box::new(self_deref(0))));
                assert(self_deref(2) == Expr::Deref(Box::new(self_deref(1))));
            }
            if r.reference {
                call.receiver = Box::new(deref_expr(deref_expr(inner)));
            } else {
                call.receiver = Box::new(deref_expr(inner));
            }
            Expr::MethodCall(call)
        },
        None => Expr::QualifiedCall(
            signature_to_associated_function_call(&sig, trait_ref, generic_type)?,
        ),
    };
    let body = if sig.is_async {
        Expr::Await(Box::new(call))
    } else {
        call
    };
    Ok(ImplMethod { sig, body })
}

/// Derive the forwarding associated type for the trait's associated type
/// `t`, where `generic_type` implements `trait_ref`.
pub fn derive_impl_item_type(t: AssocTypeDecl, trait_ref: &TraitRef, generic_type: &String) -> (r:
    Result<ImplType, Error>)
    ensures
        match r {
            Ok(it) => {
                &&& first_const(t.generics.params@) is None
                &&& forwarding_type(it, t, *generic_type, trait_ref.name, trait_ref.args@)
            },
            Err(e) => first_const(t.generics.params@) == Some(e),
        },
{
    let args = generics_declaration_to_generics(&t.generics.params)?;
    Ok(
        ImplType {
            attrs: t.attrs,
            name: t.name,
            generics: t.generics,
            self_ty: generic_type.clone(),
            trait_ref: trait_ref.duplicate(),
            args,
        },
    )
}

/// Whether one of `items` is a method taking `self` by value.
fn any_owned_receiver(items: &Vec<TraitItem>) -> (b: bool)
    ensures
        b == has_owned_receiver(items@),
{
    for i in 0..items.len()
        invariant
            forall|j: int| 0 <= j < i ==> !takes_self_by_value(#[trigger] items@[j]),
    {
        if let TraitItem::Method(m) = &items[i] {
            if let Some(r) = &m.sig.receiver {
                if let Receiver::Owned = Receiver::of(r) {
                    assert(takes_self_by_value(items@[i as int]));
                    return true;
                }
            }
        }
    }
    false
}

/// Derive the blanket implementation of `trait_` for the wrapper type `ty`.
pub fn derive_impl(trait_: TraitDecl, ty: Type) -> (r: Result<ImplBlock, Error>)
    ensures
        match r {
            Ok(b) => derive_error(trait_, ty) is None && is_blanket_impl(b, trait_, ty),
            Err(e) => derive_error(trait_, ty) == Some(e),
        },
{
    // an identifier for the generic type the implementation is for
    let generic_type = trait_to_generic_ident(&trait_);
    let wrapper_type = ty.wrap(generic_type.as_str());
    // the trait's generics without their bounds, to name the trait
    let names = generics_declaration_to_generics(&trait_.generics.params)?;
    let trait_ref = TraitRef { name: trait_.name.clone(), args: names };
    // a method taking `self` by value needs the wrapped type to be sized
    let sized = any_owned_receiver(&trait_.items);
    let ghost orig = trait_.items@;
    let TraitDecl { name: _, generics, items, span: _ } = trait_;
    let mut items = items;
    let mut methods: Vec<ImplMethod> = Vec::new();
    let mut types: Vec<ImplType> = Vec::new();
    let ghost mut k: int = 0;
    assert(orig.skip(0) == orig);
    assert(orig.take(0) == Seq::<TraitItem>::empty());
    while items.len() > 0
        invariant
            0 <= k <= orig.len(),
            orig == trait_.items@,
            first_const(trait_.generics.params@) is None,
            generics == trait_.generics,
            trait_ref.name == trait_.name,
            trait_ref.args@ == bare_all(trait_.generics.params@),
            items@ == orig.skip(k),
            first_item_error(orig, ty) == first_item_error(orig.skip(k), ty),
            methods@.len() == method_sigs(orig.take(k)).len(),
            forall|j: int|
                0 <= j < methods@.len() ==> {
                    &&& (#[trigger] methods@[j]).sig == method_sigs(orig.take(k))[j]
                    &&& forwarding_body(
                        methods@[j].body,
                        method_sigs(orig.take(k))[j],
                        ty,
                        generic_type,
                        trait_ref.name,
                        trait_ref.args@,
                    )
                },
            types@.len() == type_decls(orig.take(k)).len(),
            forall|j: int|
                0 <= j < types@.len() ==> forwarding_type(
                    #[trigger] types@[j],
                    type_decls(orig.take(k))[j],
                    generic_type,
                    trait_ref.name,
                    trait_ref.args@,
                ),
        decreases items.len(),
    {
        let item = items.remove(0);
        proof {
            assert(orig.skip(k)[0] == orig[k]);
            assert(orig.skip(k).drop_first() == orig.skip(k + 1));
            assert(orig.take(k + 1).drop_last() == orig.take(k));
            assert(orig.take(k + 1).last() == orig[k]);
            assert(item == orig[k]);
        }
        match item {
            TraitItem::Method(m) => {
                match derive_impl_item_fn(m, &trait_ref, &generic_type, ty) {
                    Ok(im) => methods.push(im),
                    Err(e) => {
                        assert(item_error(orig[k], ty) == Some(e));
                        assert(first_item_error(orig.skip(k), ty) == Some(e));
                        return Err(e);
                    },
                }
            },
            TraitItem::Type(t) => {
                match derive_impl_item_type(t, &trait_ref, &generic_type) {
                    Ok(it) => types.push(it),
                    Err(e) => {
                        assert(item_error(orig[k], ty) == Some(e));
                        assert(first_item_error(orig.skip(k), ty) == Some(e));
                        return Err(e);
                    },
                }
            },
            TraitItem::Other(_) => {},
        }
        proof {
            k = k + 1;
        }
    }
    assert(orig.take(k) == orig);
    Ok(
        ImplBlock {
            generics,
            placeholder: Placeholder {
                name: generic_type,
                maybe_sized: !sized,
                extra_bounds: ty.extra_bounds(),
            },
            trait_ref,
            self_ty: wrapper_type,
            types,
            methods,
        },
    )
}

} // verus!
