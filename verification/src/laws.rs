//! The traversal's stated laws, proved once and for all over the event
//! model of [`crate::events`]. Together with the engine's contract in
//! [`crate::visit`] they pin down what a caller observes.

use vstd::prelude::*;

verus! {

use crate::events::{
    bound_events, bounds_events_upto, Event, function_events, generics_events, impl_events,
    input_events_upto, item_events, opt_args_events, opt_type_events, param_events,
    param_events_upto, path_events, trait_events, type_events,
};
use crate::ir::{
    Function, GenericBound, GenericParamDef, Impl, Item, ItemEnum, Path, Trait, Use,
};
use crate::occurrence::{item_paths, lemma_event_paths_membership, lemma_item_paths_reported};

/// An inert item — a module, an enum variant, an extern crate
/// declaration, a primitive declaration or a macro — produces no hook
/// invocations at all: such kinds cannot structurally contain a type or
/// trait path relevant to the API surface.
pub proof fn lemma_inert_item_silent(item: Item)
    requires
        item.inner is Module || item.inner is Variant || item.inner is ExternCrate
            || item.inner is Primitive || item.inner is ProcMacro || item.inner is Macro,
    ensures
        item_events(item) == Seq::<Event>::empty(),
{
}

/// A path occurrence is reported before anything reachable from its own
/// generic arguments: its event stands first in its event sequence, and
/// what follows is exactly the events of the attached arguments.
pub proof fn lemma_path_preorder(path: Path)
    ensures
        path_events(path).len() >= 1,
        path_events(path)[0] == Event::Path(path),
        path_events(path).skip(1) == opt_args_events(path.args),
{
    assert(path_events(path).skip(1) =~= opt_args_events(path.args));
}

/// An impl synthesized against a foreign blanket implementation yields no
/// hook invocations, whatever its generics, its trait path and its self
/// type hold.
pub proof fn lemma_blanket_impl_silent(impl_: Impl)
    requires
        impl_.blanket_impl is Some,
    ensures
        impl_events(impl_) == Seq::<Event>::empty(),
{
}

/// For a function of two inputs, the observed events are the first
/// input's in full, then the second input's in full, then the output
/// type's, then the generics': events of distinct inputs never
/// interleave.
pub proof fn lemma_function_input_order(fun: Function)
    requires
        fun.sig.inputs@.len() == 2,
    ensures
        function_events(fun) == type_events(fun.sig.inputs@[0].1) + type_events(
            fun.sig.inputs@[1].1,
        ) + opt_type_events(fun.sig.output) + generics_events(fun.generics),
{
    reveal_with_fuel(input_events_upto, 3);
    assert(function_events(fun) =~= type_events(fun.sig.inputs@[0].1) + type_events(
        fun.sig.inputs@[1].1,
    ) + opt_type_events(fun.sig.output) + generics_events(fun.generics));
}

/// A trait without generics whose single supertrait bound is a trait
/// bound on a bare path, with no higher-rank parameters, produces exactly
/// one hook invocation: the report of that path.
pub proof fn lemma_single_supertrait(trait_: Trait, path: Path)
    requires
        trait_.generics.params@.len() == 0,
        trait_.generics.where_predicates@.len() == 0,
        trait_.bounds@.len() == 1,
        (trait_.bounds@[0] matches GenericBound::TraitBound { trait_: bound_path, generic_params, modifier }
            && bound_path == path && generic_params@.len() == 0),
        path.args is None,
    ensures
        trait_events(trait_) == seq![Event::Path(path)],
{
    reveal_with_fuel(bounds_events_upto, 2);
    assert(generics_events(trait_.generics) =~= Seq::<Event>::empty());
    assert(bound_events(trait_.bounds@[0]) =~= seq![Event::Path(path)]);
    assert(trait_events(trait_) =~= seq![Event::Path(path)]);
}

/// An inherent impl — one with no trait path — whose self type is a
/// primitive contributes exactly the events of its generics: the trait
/// and self-type positions report nothing, yet the generics are still
/// walked.
pub proof fn lemma_inherent_primitive_impl(impl_: Impl)
    requires
        impl_.blanket_impl is None,
        impl_.trait_ is None,
        impl_.for_ is Primitive,
    ensures
        impl_events(impl_) == generics_events(impl_.generics),
{
    assert(impl_events(impl_) =~= generics_events(impl_.generics));
}

/// Generic parameters that are all lifetimes produce no events: a
/// lifetime parameter is a leaf.
pub proof fn lemma_lifetime_params_silent(s: Seq<GenericParamDef>, n: int)
    requires
        forall|i: int| 0 <= i < s.len() ==> (#[trigger] s[i].kind) is Lifetime,
    ensures
        param_events_upto(s, n) == Seq::<Event>::empty(),
    decreases n,
{
    if 0 < n <= s.len() {
        lemma_lifetime_params_silent(s, n - 1);
        assert(param_events(s[n - 1]) =~= Seq::<Event>::empty());
        assert(param_events_upto(s, n) =~= Seq::<Event>::empty());
    } else {
        assert(param_events_upto(s, n) =~= Seq::<Event>::empty());
    }
}

/// An inherent impl on a primitive whose generics hold only lifetime
/// parameters and no where-predicates yields zero hook invocations, even
/// though its generics are walked.
pub proof fn lemma_inherent_primitive_impl_silent(impl_: Impl)
    requires
        impl_.blanket_impl is None,
        impl_.trait_ is None,
        impl_.for_ is Primitive,
        forall|i: int|
            0 <= i < impl_.generics.params@.len() ==> (#[trigger] impl_.generics.params@[i].kind)
                is Lifetime,
        impl_.generics.where_predicates@.len() == 0,
    ensures
        impl_events(impl_) == Seq::<Event>::empty(),
{
    lemma_lifetime_params_silent(
        impl_.generics.params@,
        impl_.generics.params@.len() as int,
    );
    assert(impl_events(impl_) =~= Seq::<Event>::empty());
}

/// Every path occurrence reachable from an item is reported at least
/// once: each entry of the item's pre-order occurrence sequence stands
/// as a path event among the traversal's events. (That the reports come
/// in exactly the occurrence order is [`lemma_item_paths_reported`].)
pub proof fn lemma_every_reachable_path_reported(item: Item, i: int)
    requires
        0 <= i < item_paths(item).len(),
    ensures
        item_events(item).contains(Event::Path(item_paths(item)[i])),
{
    lemma_item_paths_reported(item);
    lemma_event_paths_membership(item_events(item), i);
}

/// A re-export item produces exactly one hook invocation, the report of
/// the re-export itself; nothing inside it is walked, so no path event
/// ever originates from it.
pub proof fn lemma_reexport_single_event(item: Item, use_: Use)
    requires
        item.inner == ItemEnum::Use(use_),
    ensures
        item_events(item) == seq![Event::Reexport(use_)],
{
}

} // verus!
