//! Properties that hold of every blanket implementation the engine builds.
use vstd::prelude::*;

use crate::items::{
    derive_error, first_item_error, has_owned_receiver, is_blanket_impl, item_error, method_sigs,
    takes_self_by_value,
};
use crate::syntax::{bare, self_deref, Expr, GenericParam, ImplBlock, Signature, TraitDecl, TraitItem};
use crate::types::Type;
use crate::utils::{
    collides, fresh_from, generic_ident, ident_base, lemma_max_name_len, max_name_len, underscores,
};
use crate::{receiver_kind, Receiver};

verus! {

/// The call a forwarding body makes: the body itself, or what it awaits.
pub open spec fn forwarded_call(body: Expr) -> Expr {
    match body {
        Expr::Await(inner) => *inner,
        _ => body,
    }
}

/// Whether every method among `items` takes `&self`.
pub open spec fn only_ref_methods(items: Seq<TraitItem>) -> bool {
    forall|i: int|
        0 <= i < items.len() ==> match #[trigger] items[i] {
            TraitItem::Method(m) => m.sig.receiver is Some && receiver_kind(m.sig.receiver->0)
                == Receiver::Ref,
            _ => true,
        }
}

proof fn lemma_method_sigs_ref(items: Seq<TraitItem>)
    requires
        only_ref_methods(items),
    ensures
        forall|j: int|
            0 <= j < method_sigs(items).len() ==> (#[trigger] method_sigs(items)[j]).receiver is Some
                && receiver_kind(method_sigs(items)[j].receiver->0) == Receiver::Ref,
    decreases items.len(),
{
    if items.len() > 0 {
        let rest = items.drop_last();
        assert(only_ref_methods(rest)) by {
            assert forall|i: int| 0 <= i < rest.len() implies match #[trigger] rest[i] {
                TraitItem::Method(m) => m.sig.receiver is Some && receiver_kind(
                    m.sig.receiver->0,
                ) == Receiver::Ref,
                _ => true,
            } by {
                assert(rest[i] == items[i]);
            }
        }
        lemma_method_sigs_ref(rest);
        assert(items.last() == items[items.len() - 1]);
    }
}

/// For a trait whose methods all take `&self`, every method of its
/// implementation for `&T` calls the method on `self` dereferenced exactly
/// twice: once for the reference the method receives, once for the
/// reference the wrapper is.
pub proof fn law_ref_methods_deref_twice(trait_: TraitDecl, b: ImplBlock)
    requires
        only_ref_methods(trait_.items@),
        is_blanket_impl(b, trait_, Type::Ref),
    ensures
        forall|j: int|
            0 <= j < b.methods@.len() ==> match forwarded_call((#[trigger] b.methods@[j]).body) {
                Expr::MethodCall(call) => *call.receiver == Expr::Deref(
                    Box::new(Expr::Deref(Box::new(Expr::SelfValue))),
                ),
                _ => false,
            },
{
    lemma_method_sigs_ref(trait_.items@);
    assert(self_deref(1) == Expr::Deref(Box::new(self_deref(0))));
    assert(self_deref(2) == Expr::Deref(Box::new(self_deref(1))));
}

proof fn lemma_first_item_error_some(items: Seq<TraitItem>, ty: Type, i: int)
    requires
        0 <= i < items.len(),
        item_error(items[i], ty) is Some,
    ensures
        first_item_error(items, ty) is Some,
    decreases items.len(),
{
    if i > 0 && item_error(items[0], ty) is None {
        assert(items.drop_first()[i - 1] == items[i]);
        lemma_first_item_error_some(items.drop_first(), ty, i - 1);
    }
}

/// A trait with a method taking `self` by value gets an implementation for
/// `Box<T>` whose `T` keeps its `Sized` bound, and none for `&T`.
pub proof fn law_owned_receiver_needs_sized(trait_: TraitDecl, b: ImplBlock)
    requires
        has_owned_receiver(trait_.items@),
        is_blanket_impl(b, trait_, Type::Box),
    ensures
        !b.placeholder.maybe_sized,
        derive_error(trait_, Type::Ref) is Some,
{
    let i = choose|i: int|
        0 <= i < trait_.items@.len() && #[trigger] takes_self_by_value(trait_.items@[i]);
    assert(item_error(trait_.items@[i], Type::Ref) is Some);
    lemma_first_item_error_some(trait_.items@, Type::Ref, i);
}

proof fn lemma_fresh_from(base: Seq<char>, params: Seq<GenericParam>, k: nat)
    ensures
        !collides(fresh_from(base, params, k), params),
    decreases max_name_len(params) + 1 - (base.len() + k),
{
    if base.len() + k > max_name_len(params) {
        assert forall|i: int| 0 <= i < params.len() implies #[trigger] params[i].name@ != base
            + underscores(k) by {
            lemma_max_name_len(params, i);
        }
    } else if collides(base + underscores(k), params) {
        lemma_fresh_from(base, params, k + 1);
    }
}

/// The implementation keeps each generic parameter of the trait, with its
/// bounds, and names the trait with the same parameter without bounds; the
/// type parameter it adds has a name that none of them has.
pub proof fn law_generics_kept_and_named(trait_: TraitDecl, ty: Type, b: ImplBlock)
    requires
        is_blanket_impl(b, trait_, ty),
    ensures
        b.generics.params@ == trait_.generics.params@,
        b.trait_ref.args@.len() == trait_.generics.params@.len(),
        forall|i: int|
            0 <= i < trait_.generics.params@.len() ==> {
                &&& #[trigger] b.trait_ref.args@[i] == bare(trait_.generics.params@[i])
                &&& b.trait_ref.args@[i].bounds is None
                &&& b.trait_ref.args@[i].name == trait_.generics.params@[i].name
                &&& b.placeholder.name@ != trait_.generics.params@[i].name@
            },
{
    lemma_fresh_from(ident_base(trait_.name@), trait_.generics.params@, 0);
}

/// The names of `params`, in order.
pub open spec fn param_names(params: Seq<GenericParam>) -> Seq<Seq<char>> {
    params.map_values(|p: GenericParam| p.name@)
}

proof fn lemma_same_names(p1: Seq<GenericParam>, p2: Seq<GenericParam>)
    requires
        param_names(p1) == param_names(p2),
    ensures
        max_name_len(p1) == max_name_len(p2),
        forall|s: Seq<char>| collides(s, p1) == collides(s, p2),
    decreases p1.len(),
{
    assert(p1.len() == param_names(p1).len());
    assert(p2.len() == param_names(p2).len());
    if p1.len() > 0 {
        assert(param_names(p1.drop_last()) == param_names(p1).drop_last());
        assert(param_names(p2.drop_last()) == param_names(p2).drop_last());
        lemma_same_names(p1.drop_last(), p2.drop_last());
        assert(p1.last().name@ == param_names(p1)[p1.len() - 1]);
        assert(p2.last().name@ == param_names(p2)[p2.len() - 1]);
    }
    assert forall|s: Seq<char>| collides(s, p1) implies collides(s, p2) by {
        let i = choose|i: int| 0 <= i < p1.len() && #[trigger] p1[i].name@ == s;
        assert(param_names(p1)[i] == p2[i].name@);
    }
    assert forall|s: Seq<char>| collides(s, p2) implies collides(s, p1) by {
        let i = choose|i: int| 0 <= i < p2.len() && #[trigger] p2[i].name@ == s;
        assert(param_names(p2)[i] == p1[i].name@);
    }
}

proof fn lemma_fresh_from_names(
    base: Seq<char>,
    p1: Seq<GenericParam>,
    p2: Seq<GenericParam>,
    k: nat,
)
    requires
        param_names(p1) == param_names(p2),
    ensures
        fresh_from(base, p1, k) == fresh_from(base, p2, k),
    decreases max_name_len(p1) + 1 - (base.len() + k),
{
    lemma_same_names(p1, p2);
    if !(base.len() + k > max_name_len(p1) || !collides(base + underscores(k), p1)) {
        lemma_fresh_from_names(base, p1, p2, k + 1);
    }
}

/// Allocating the generic identifier is deterministic: two traits with the
/// same name and generic parameters of the same names get the same
/// identifier, and it is the name of none of those parameters.
pub proof fn law_generic_ident_deterministic(t1: TraitDecl, t2: TraitDecl)
    requires
        t1.name@ == t2.name@,
        param_names(t1.generics.params@) == param_names(t2.generics.params@),
    ensures
        generic_ident(t1.name@, t1.generics.params@) == generic_ident(
            t2.name@,
            t2.generics.params@,
        ),
        !collides(generic_ident(t1.name@, t1.generics.params@), t1.generics.params@),
{
    let base = ident_base(t1.name@);
    lemma_fresh_from_names(base, t1.generics.params@, t2.generics.params@, 0);
    lemma_fresh_from(base, t1.generics.params@, 0);
}

} // verus!
