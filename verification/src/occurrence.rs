//! The pre-order sequence of path occurrences reachable from a node,
//! defined independently of the event model, and the proof that a
//! traversal's path events are exactly that sequence.
//!
//! [`crate::events`] states which hook invocations a walk produces;
//! this module states which path occurrences a node structurally
//! contains. That the two agree — every reachable occurrence is
//! reported, nothing else is, and the order is the pre-order of the
//! tree — is proved in [`lemma_item_paths_reported`].

use vstd::prelude::*;

verus! {

use crate::events::{
    arg_events_upto, bound_events, bounds_events_upto, constraint_events, constraint_events_upto,
    Event, fn_sig_events, generic_args_events, generics_events, impl_events, input_events_upto,
    item_events, opt_args_events, opt_path_events, opt_type_events, param_events_upto,
    param_kind_events, path_events, poly_trait_events_upto, pred_events, pred_events_upto,
    term_events, type_events, type_events_upto,
};
use crate::ir::{
    AssocItemConstraint, AssocItemConstraintKind, DynTrait, Enum, Function, FunctionPointer,
    FunctionSignature, GenericArg, GenericArgs, GenericBound, GenericParamDef, GenericParamDefKind,
    Generics, Impl, Item, ItemEnum, Path, PolyTrait, Static, Struct, Term, Trait, TraitAlias,
    Type, TypeAlias, Union, WherePredicate,
};

/// The paths of the path events among `es`, in order.
pub open spec fn event_paths(es: Seq<Event>) -> Seq<Path>
    decreases es.len(),
{
    if es.len() == 0 {
        Seq::empty()
    } else {
        event_paths(es.drop_last()) + (match es.last() {
            Event::Path(path) => seq![path],
            Event::Reexport(use_) => Seq::empty(),
        })
    }
}

/// The path occurrences reachable from an item, in pre-order.
pub open spec fn item_paths(item: Item) -> Seq<Path>
    decreases item,
{
    match item.inner {
        ItemEnum::Module => Seq::empty(),
        ItemEnum::ExternCrate => Seq::empty(),
        ItemEnum::Use(use_) => Seq::empty(),
        ItemEnum::Union(union_) => generics_paths(union_.generics),
        ItemEnum::Struct(struct_) => generics_paths(struct_.generics),
        ItemEnum::StructField(field_type) => type_paths(field_type),
        ItemEnum::Enum(enum_) => generics_paths(enum_.generics),
        ItemEnum::Variant => Seq::empty(),
        ItemEnum::Function(fun) => fn_sig_paths(fun.sig) + generics_paths(fun.generics),
        ItemEnum::Trait(trait_) => generics_paths(trait_.generics) + bounds_paths_upto(
            trait_.bounds@,
            trait_.bounds@.len() as int,
        ),
        ItemEnum::TraitAlias(trait_alias) => generics_paths(trait_alias.generics)
            + bounds_paths_upto(trait_alias.params@, trait_alias.params@.len() as int),
        ItemEnum::Impl(impl_) => impl_paths(impl_),
        ItemEnum::TypeAlias(type_alias) => type_paths(type_alias.type_) + generics_paths(
            type_alias.generics,
        ),
        ItemEnum::Constant { type_ } => type_paths(type_),
        ItemEnum::Static(static_) => type_paths(static_.type_),
        ItemEnum::ExternType => Seq::empty(),
        ItemEnum::Macro => Seq::empty(),
        ItemEnum::ProcMacro => Seq::empty(),
        ItemEnum::Primitive => Seq::empty(),
        ItemEnum::AssocConst { type_ } => type_paths(type_),
        ItemEnum::AssocType { generics, bounds, type_ } => generics_paths(generics)
            + bounds_paths_upto(bounds@, bounds@.len() as int) + opt_type_paths(type_),
    }
}

/// The path occurrences of an impl: none at all for one synthesized
/// against a foreign blanket implementation.
pub open spec fn impl_paths(impl_: Impl) -> Seq<Path>
    decreases impl_,
{
    if impl_.blanket_impl is Some {
        Seq::empty()
    } else {
        generics_paths(impl_.generics) + opt_path_paths(impl_.trait_) + type_paths(impl_.for_)
    }
}

/// The path occurrences of a signature, inputs first, then the output.
pub open spec fn fn_sig_paths(sig: FunctionSignature) -> Seq<Path>
    decreases sig,
{
    input_paths_upto(sig.inputs@, sig.inputs@.len() as int) + opt_type_paths(sig.output)
}

/// The path occurrences of the first `n` named inputs.
pub open spec fn input_paths_upto(s: Seq<(String, Type)>, n: int) -> Seq<Path>
    decreases s, n,
{
    if 0 < n <= s.len() {
        input_paths_upto(s, n - 1) + type_paths(s[n - 1].1)
    } else {
        Seq::empty()
    }
}

/// The path occurrences of an optional type.
pub open spec fn opt_type_paths(t: Option<Type>) -> Seq<Path>
    decreases t,
{
    match t {
        Some(type_) => type_paths(type_),
        None => Seq::empty(),
    }
}

/// The path occurrences of a generics clause.
pub open spec fn generics_paths(generics: Generics) -> Seq<Path>
    decreases generics,
{
    param_paths_upto(generics.params@, generics.params@.len() as int) + pred_paths_upto(
        generics.where_predicates@,
        generics.where_predicates@.len() as int,
    )
}

/// The path occurrences of the first `n` generic parameter definitions.
pub open spec fn param_paths_upto(s: Seq<GenericParamDef>, n: int) -> Seq<Path>
    decreases s, n,
{
    if 0 < n <= s.len() {
        param_paths_upto(s, n - 1) + param_paths(s[n - 1])
    } else {
        Seq::empty()
    }
}

/// The path occurrences of one generic parameter definition.
pub open spec fn param_paths(param: GenericParamDef) -> Seq<Path>
    decreases param,
{
    param_kind_paths(param.kind)
}

/// The path occurrences of a parameter kind.
pub open spec fn param_kind_paths(kind: GenericParamDefKind) -> Seq<Path>
    decreases kind,
{
    match kind {
        GenericParamDefKind::Lifetime => Seq::empty(),
        GenericParamDefKind::Type { is_synthetic, bounds, default } => bounds_paths_upto(
            bounds@,
            bounds@.len() as int,
        ) + opt_type_paths(default),
        GenericParamDefKind::Const { type_ } => type_paths(type_),
    }
}

/// The path occurrences of the first `n` where-predicates.
pub open spec fn pred_paths_upto(s: Seq<WherePredicate>, n: int) -> Seq<Path>
    decreases s, n,
{
    if 0 < n <= s.len() {
        pred_paths_upto(s, n - 1) + pred_paths(s[n - 1])
    } else {
        Seq::empty()
    }
}

/// The path occurrences of one where-predicate.
pub open spec fn pred_paths(pred: WherePredicate) -> Seq<Path>
    decreases pred,
{
    match pred {
        WherePredicate::BoundPredicate { type_, bounds, generic_params } => type_paths(type_)
            + bounds_paths_upto(bounds@, bounds@.len() as int) + param_paths_upto(
            generic_params@,
            generic_params@.len() as int,
        ),
        WherePredicate::LifetimePredicate { lifetime } => Seq::empty(),
        WherePredicate::EqPredicate { lhs, rhs } => type_paths(lhs) + term_paths(rhs),
    }
}

/// The path occurrences of the first `n` bounds.
pub open spec fn bounds_paths_upto(s: Seq<GenericBound>, n: int) -> Seq<Path>
    decreases s, n,
{
    if 0 < n <= s.len() {
        bounds_paths_upto(s, n - 1) + bound_paths(s[n - 1])
    } else {
        Seq::empty()
    }
}

/// The path occurrences of one bound.
pub open spec fn bound_paths(bound: GenericBound) -> Seq<Path>
    decreases bound,
{
    match bound {
        GenericBound::TraitBound { trait_, generic_params, modifier } => path_paths(trait_)
            + param_paths_upto(generic_params@, generic_params@.len() as int),
        GenericBound::Outlives(lifetime) => Seq::empty(),
        GenericBound::Use => Seq::empty(),
    }
}

/// The path occurrences of a term.
pub open spec fn term_paths(term: Term) -> Seq<Path>
    decreases term,
{
    match term {
        Term::Type(type_) => type_paths(type_),
        Term::Constant => Seq::empty(),
    }
}

/// The path occurrences of a path: itself first, then those of its own
/// generic arguments — the pre-order of the tree.
pub open spec fn path_paths(path: Path) -> Seq<Path>
    decreases path,
{
    seq![path] + opt_args_paths(path.args)
}

/// The path occurrences of optionally attached generic arguments.
pub open spec fn opt_args_paths(args: Option<Box<GenericArgs>>) -> Seq<Path>
    decreases args,
{
    match args {
        Some(args) => generic_args_paths(*args),
        None => Seq::empty(),
    }
}

/// The path occurrences of a generic-argument list.
pub open spec fn generic_args_paths(args: GenericArgs) -> Seq<Path>
    decreases args,
{
    match args {
        GenericArgs::AngleBracketed { args, constraints } => arg_paths_upto(
            args@,
            args@.len() as int,
        ) + constraint_paths_upto(constraints@, constraints@.len() as int),
        GenericArgs::Parenthesized { inputs, output } => type_paths_upto(
            inputs@,
            inputs@.len() as int,
        ) + opt_type_paths(output),
        GenericArgs::ReturnTypeNotation => Seq::empty(),
    }
}

/// The path occurrences of the first `n` generic arguments.
pub open spec fn arg_paths_upto(s: Seq<GenericArg>, n: int) -> Seq<Path>
    decreases s, n,
{
    if 0 < n <= s.len() {
        arg_paths_upto(s, n - 1) + arg_paths(s[n - 1])
    } else {
        Seq::empty()
    }
}

/// The path occurrences of one generic argument.
pub open spec fn arg_paths(arg: GenericArg) -> Seq<Path>
    decreases arg,
{
    match arg {
        GenericArg::Lifetime(lifetime) => Seq::empty(),
        GenericArg::Type(type_) => type_paths(type_),
        GenericArg::Const => Seq::empty(),
        GenericArg::Infer => Seq::empty(),
    }
}

/// The path occurrences of the first `n` associated-item constraints.
pub open spec fn constraint_paths_upto(s: Seq<AssocItemConstraint>, n: int) -> Seq<Path>
    decreases s, n,
{
    if 0 < n <= s.len() {
        constraint_paths_upto(s, n - 1) + constraint_paths(s[n - 1])
    } else {
        Seq::empty()
    }
}

/// The path occurrences of one associated-item constraint.
pub open spec fn constraint_paths(constraint: AssocItemConstraint) -> Seq<Path>
    decreases constraint,
{
    opt_args_paths(constraint.args) + constraint_kind_paths(constraint.binding)
}

/// The path occurrences of a constraint's payload.
pub open spec fn constraint_kind_paths(kind: AssocItemConstraintKind) -> Seq<Path>
    decreases kind,
{
    match kind {
        AssocItemConstraintKind::Equality(term) => term_paths(term),
        AssocItemConstraintKind::Constraint(bounds) => bounds_paths_upto(
            bounds@,
            bounds@.len() as int,
        ),
    }
}

/// The path occurrences of the first `n` types of a list.
pub open spec fn type_paths_upto(s: Seq<Type>, n: int) -> Seq<Path>
    decreases s, n,
{
    if 0 < n <= s.len() {
        type_paths_upto(s, n - 1) + type_paths(s[n - 1])
    } else {
        Seq::empty()
    }
}

/// The path occurrences of a type expression, in pre-order.
pub open spec fn type_paths(type_: Type) -> Seq<Path>
    decreases type_,
{
    match type_ {
        Type::ResolvedPath(path) => path_paths(path),
        Type::DynTrait(dyn_trait) => poly_trait_paths_upto(
            dyn_trait.traits@,
            dyn_trait.traits@.len() as int,
        ),
        Type::Generic(name) => Seq::empty(),
        Type::Primitive(name) => Seq::empty(),
        Type::FunctionPointer(fn_pointer) => fn_sig_paths(fn_pointer.sig) + param_paths_upto(
            fn_pointer.generic_params@,
            fn_pointer.generic_params@.len() as int,
        ),
        Type::Tuple(types) => type_paths_upto(types@, types@.len() as int),
        Type::Slice(inner) => type_paths(*inner),
        Type::Array { type_ } => type_paths(*type_),
        Type::Pat { type_ } => type_paths(*type_),
        Type::ImplTrait(bounds) => bounds_paths_upto(bounds@, bounds@.len() as int),
        Type::Infer => Seq::empty(),
        Type::RawPointer { is_mutable, type_ } => type_paths(*type_),
        Type::BorrowedRef { lifetime, is_mutable, type_ } => type_paths(*type_),
        Type::QualifiedPath { name, args, self_type, trait_ } => opt_args_paths(args) + type_paths(
            *self_type,
        ) + opt_path_paths(trait_),
    }
}

/// The path occurrences of an optional path.
pub open spec fn opt_path_paths(path: Option<Path>) -> Seq<Path>
    decreases path,
{
    match path {
        Some(path) => path_paths(path),
        None => Seq::empty(),
    }
}

/// The path occurrences of the first `n` trait entries of a `dyn` object.
pub open spec fn poly_trait_paths_upto(s: Seq<PolyTrait>, n: int) -> Seq<Path>
    decreases s, n,
{
    if 0 < n <= s.len() {
        poly_trait_paths_upto(s, n - 1) + poly_trait_paths(s[n - 1])
    } else {
        Seq::empty()
    }
}

/// The path occurrences of one trait entry of a `dyn` object.
pub open spec fn poly_trait_paths(poly: PolyTrait) -> Seq<Path>
    decreases poly,
{
    path_paths(poly.trait_) + param_paths_upto(
        poly.generic_params@,
        poly.generic_params@.len() as int,
    )
}

/// Filtering path events distributes over concatenation.
pub broadcast proof fn lemma_event_paths_add(a: Seq<Event>, b: Seq<Event>)
    ensures
        #[trigger] event_paths(a + b) == event_paths(a) + event_paths(b),
    decreases b.len(),
{
    if b.len() == 0 {
        assert(a + b =~= a);
        assert(event_paths(a + b) =~= event_paths(a) + event_paths(b));
    } else {
        lemma_event_paths_add(a, b.drop_last());
        assert((a + b).drop_last() =~= a + b.drop_last());
        assert((a + b).last() == b.last());
        assert(event_paths(a + b) =~= event_paths(a) + event_paths(b));
    }
}

/// A single path event filters to its path.
pub proof fn lemma_event_paths_single_path(path: Path)
    ensures
        event_paths(seq![Event::Path(path)]) == seq![path],
{
    reveal_with_fuel(event_paths, 2);
    assert(seq![Event::Path(path)].drop_last() =~= Seq::<Event>::empty());
    assert(event_paths(seq![Event::Path(path)]) =~= seq![path]);
}

/// A single re-export event filters to no path.
pub proof fn lemma_event_paths_single_reexport(use_: crate::ir::Use)
    ensures
        event_paths(seq![Event::Reexport(use_)]) == Seq::<Path>::empty(),
{
    reveal_with_fuel(event_paths, 2);
    assert(seq![Event::Reexport(use_)].drop_last() =~= Seq::<Event>::empty());
    assert(event_paths(seq![Event::Reexport(use_)]) =~= Seq::<Path>::empty());
}

/// Every path occurrence reachable from an item is reported, in
/// pre-order: the path events of a traversal of the item are exactly the
/// item's occurrence sequence — nothing reachable is omitted, nothing
/// else is reported, and the stable order is the tree's pre-order.
pub proof fn lemma_item_paths_reported(item: Item)
    ensures
        event_paths(item_events(item)) == item_paths(item),
    decreases item,
{
    broadcast use lemma_event_paths_add;

    match item.inner {
        ItemEnum::Use(use_) => {
            lemma_event_paths_single_reexport(use_);
        },
        ItemEnum::Union(union_) => lemma_generics_paths_reported(union_.generics),
        ItemEnum::Struct(struct_) => lemma_generics_paths_reported(struct_.generics),
        ItemEnum::StructField(field_type) => lemma_type_paths_reported(field_type),
        ItemEnum::Enum(enum_) => lemma_generics_paths_reported(enum_.generics),
        ItemEnum::Function(fun) => {
            lemma_fn_sig_paths_reported(fun.sig);
            lemma_generics_paths_reported(fun.generics);
        },
        ItemEnum::Trait(trait_) => {
            lemma_generics_paths_reported(trait_.generics);
            lemma_bounds_paths_reported(trait_.bounds@, trait_.bounds@.len() as int);
        },
        ItemEnum::TraitAlias(trait_alias) => {
            lemma_generics_paths_reported(trait_alias.generics);
            lemma_bounds_paths_reported(trait_alias.params@, trait_alias.params@.len() as int);
        },
        ItemEnum::Impl(impl_) => lemma_impl_paths_reported(impl_),
        ItemEnum::TypeAlias(type_alias) => {
            lemma_type_paths_reported(type_alias.type_);
            lemma_generics_paths_reported(type_alias.generics);
        },
        ItemEnum::Constant { type_ } => lemma_type_paths_reported(type_),
        ItemEnum::Static(static_) => lemma_type_paths_reported(static_.type_),
        ItemEnum::AssocConst { type_ } => lemma_type_paths_reported(type_),
        ItemEnum::AssocType { generics, bounds, type_ } => {
            lemma_generics_paths_reported(generics);
            lemma_bounds_paths_reported(bounds@, bounds@.len() as int);
            lemma_opt_type_paths_reported(type_);
        },
        _ => {},
    }
}

/// The impl walker reports exactly an impl's reachable occurrences.
pub proof fn lemma_impl_paths_reported(impl_: Impl)
    ensures
        event_paths(impl_events(impl_)) == impl_paths(impl_),
    decreases impl_,
{
    broadcast use lemma_event_paths_add;

    if !(impl_.blanket_impl is Some) {
        lemma_generics_paths_reported(impl_.generics);
        lemma_opt_path_paths_reported(impl_.trait_);
        lemma_type_paths_reported(impl_.for_);
    }
}

/// The signature walker reports exactly a signature's occurrences.
pub proof fn lemma_fn_sig_paths_reported(sig: FunctionSignature)
    ensures
        event_paths(fn_sig_events(sig)) == fn_sig_paths(sig),
    decreases sig,
{
    broadcast use lemma_event_paths_add;

    lemma_input_paths_reported(sig.inputs@, sig.inputs@.len() as int);
    lemma_opt_type_paths_reported(sig.output);
}

/// The first `n` inputs report exactly their occurrences.
pub proof fn lemma_input_paths_reported(s: Seq<(String, Type)>, n: int)
    ensures
        event_paths(input_events_upto(s, n)) == input_paths_upto(s, n),
    decreases s, n,
{
    broadcast use lemma_event_paths_add;

    if 0 < n <= s.len() {
        lemma_input_paths_reported(s, n - 1);
        lemma_type_paths_reported(s[n - 1].1);
    }
}

/// An optional type reports exactly its occurrences.
pub proof fn lemma_opt_type_paths_reported(t: Option<Type>)
    ensures
        event_paths(opt_type_events(t)) == opt_type_paths(t),
    decreases t,
{
    if let Some(type_) = t {
        lemma_type_paths_reported(type_);
    }
}

/// The generics walker reports exactly a clause's occurrences.
pub proof fn lemma_generics_paths_reported(generics: Generics)
    ensures
        event_paths(generics_events(generics)) == generics_paths(generics),
    decreases generics,
{
    broadcast use lemma_event_paths_add;

    lemma_param_paths_reported(generics.params@, generics.params@.len() as int);
    lemma_pred_paths_reported(
        generics.where_predicates@,
        generics.where_predicates@.len() as int,
    );
}

/// The first `n` generic parameters report exactly their occurrences.
pub proof fn lemma_param_paths_reported(s: Seq<GenericParamDef>, n: int)
    ensures
        event_paths(param_events_upto(s, n)) == param_paths_upto(s, n),
    decreases s, n,
{
    broadcast use lemma_event_paths_add;

    if 0 < n <= s.len() {
        reveal_with_fuel(param_events_upto, 2);
        reveal_with_fuel(param_paths_upto, 2);
        lemma_param_paths_reported(s, n - 1);
        lemma_param_kind_paths_reported(s[n - 1].kind);
    }
}

/// A parameter kind reports exactly its occurrences.
pub proof fn lemma_param_kind_paths_reported(kind: GenericParamDefKind)
    ensures
        event_paths(param_kind_events(kind)) == param_kind_paths(kind),
    decreases kind,
{
    broadcast use lemma_event_paths_add;

    match kind {
        GenericParamDefKind::Type { is_synthetic, bounds, default } => {
            lemma_bounds_paths_reported(bounds@, bounds@.len() as int);
            lemma_opt_type_paths_reported(default);
        },
        GenericParamDefKind::Const { type_ } => lemma_type_paths_reported(type_),
        GenericParamDefKind::Lifetime => {},
    }
}

/// The first `n` where-predicates report exactly their occurrences.
pub proof fn lemma_pred_paths_reported(s: Seq<WherePredicate>, n: int)
    ensures
        event_paths(pred_events_upto(s, n)) == pred_paths_upto(s, n),
    decreases s, n,
{
    broadcast use lemma_event_paths_add;

    if 0 < n <= s.len() {
        lemma_pred_paths_reported(s, n - 1);
        lemma_pred_paths_one_reported(s[n - 1]);
    }
}

/// One where-predicate reports exactly its occurrences.
pub proof fn lemma_pred_paths_one_reported(pred: WherePredicate)
    ensures
        event_paths(pred_events(pred)) == pred_paths(pred),
    decreases pred,
{
    broadcast use lemma_event_paths_add;

    match pred {
        WherePredicate::BoundPredicate { type_, bounds, generic_params } => {
            lemma_type_paths_reported(type_);
            lemma_bounds_paths_reported(bounds@, bounds@.len() as int);
            lemma_param_paths_reported(generic_params@, generic_params@.len() as int);
        },
        WherePredicate::EqPredicate { lhs, rhs } => {
            lemma_type_paths_reported(lhs);
            lemma_term_paths_reported(rhs);
        },
        WherePredicate::LifetimePredicate { lifetime } => {},
    }
}

/// The first `n` bounds report exactly their occurrences.
pub proof fn lemma_bounds_paths_reported(s: Seq<GenericBound>, n: int)
    ensures
        event_paths(bounds_events_upto(s, n)) == bounds_paths_upto(s, n),
    decreases s, n,
{
    broadcast use lemma_event_paths_add;

    if 0 < n <= s.len() {
        lemma_bounds_paths_reported(s, n - 1);
        lemma_bound_paths_reported(s[n - 1]);
    }
}

/// One bound reports exactly its occurrences.
pub proof fn lemma_bound_paths_reported(bound: GenericBound)
    ensures
        event_paths(bound_events(bound)) == bound_paths(bound),
    decreases bound,
{
    broadcast use lemma_event_paths_add;

    match bound {
        GenericBound::TraitBound { trait_, generic_params, modifier } => {
            lemma_path_paths_reported(trait_);
            lemma_param_paths_reported(generic_params@, generic_params@.len() as int);
        },
        GenericBound::Outlives(lifetime) => {},
        GenericBound::Use => {},
    }
}

/// A term reports exactly its occurrences.
pub proof fn lemma_term_paths_reported(term: Term)
    ensures
        event_paths(term_events(term)) == term_paths(term),
    decreases term,
{
    if let Term::Type(type_) = term {
        lemma_type_paths_reported(type_);
    }
}

/// The path walker reports exactly a path's occurrences: the path itself
/// first, then those of its generic arguments.
pub proof fn lemma_path_paths_reported(path: Path)
    ensures
        event_paths(path_events(path)) == path_paths(path),
    decreases path,
{
    broadcast use lemma_event_paths_add;

    lemma_event_paths_single_path(path);
    lemma_opt_args_paths_reported(path.args);
}

/// Optionally attached arguments report exactly their occurrences.
pub proof fn lemma_opt_args_paths_reported(args: Option<Box<GenericArgs>>)
    ensures
        event_paths(opt_args_events(args)) == opt_args_paths(args),
    decreases args,
{
    if let Some(args) = args {
        lemma_generic_args_paths_reported(*args);
    }
}

/// A generic-argument list reports exactly its occurrences.
pub proof fn lemma_generic_args_paths_reported(args: GenericArgs)
    ensures
        event_paths(generic_args_events(args)) == generic_args_paths(args),
    decreases args,
{
    broadcast use lemma_event_paths_add;

    match args {
        GenericArgs::AngleBracketed { args: list, constraints } => {
            lemma_arg_paths_reported(list@, list@.len() as int);
            lemma_constraint_paths_reported(constraints@, constraints@.len() as int);
        },
        GenericArgs::Parenthesized { inputs, output } => {
            lemma_type_list_paths_reported(inputs@, inputs@.len() as int);
            lemma_opt_type_paths_reported(output);
        },
        GenericArgs::ReturnTypeNotation => {},
    }
}

/// The first `n` generic arguments report exactly their occurrences.
pub proof fn lemma_arg_paths_reported(s: Seq<GenericArg>, n: int)
    ensures
        event_paths(arg_events_upto(s, n)) == arg_paths_upto(s, n),
    decreases s, n,
{
    broadcast use lemma_event_paths_add;

    if 0 < n <= s.len() {
        reveal_with_fuel(arg_events_upto, 2);
        reveal_with_fuel(arg_paths_upto, 2);
        lemma_arg_paths_reported(s, n - 1);
        if let GenericArg::Type(type_) = s[n - 1] {
            lemma_type_paths_reported(type_);
        }
    }
}

/// The first `n` associated-item constraints report exactly their
/// occurrences.
pub proof fn lemma_constraint_paths_reported(s: Seq<AssocItemConstraint>, n: int)
    ensures
        event_paths(constraint_events_upto(s, n)) == constraint_paths_upto(s, n),
    decreases s, n,
{
    broadcast use lemma_event_paths_add;

    if 0 < n <= s.len() {
        lemma_constraint_paths_reported(s, n - 1);
        lemma_constraint_paths_one_reported(s[n - 1]);
    }
}

/// One associated-item constraint reports exactly its occurrences.
pub proof fn lemma_constraint_paths_one_reported(constraint: AssocItemConstraint)
    ensures
        event_paths(constraint_events(constraint)) == constraint_paths(constraint),
    decreases constraint,
{
    broadcast use lemma_event_paths_add;

    lemma_opt_args_paths_reported(constraint.args);
    match constraint.binding {
        AssocItemConstraintKind::Equality(term) => lemma_term_paths_reported(term),
        AssocItemConstraintKind::Constraint(bounds) => lemma_bounds_paths_reported(
            bounds@,
            bounds@.len() as int,
        ),
    }
}

/// The first `n` types of a list report exactly their occurrences.
pub proof fn lemma_type_list_paths_reported(s: Seq<Type>, n: int)
    ensures
        event_paths(type_events_upto(s, n)) == type_paths_upto(s, n),
    decreases s, n,
{
    broadcast use lemma_event_paths_add;

    if 0 < n <= s.len() {
        lemma_type_list_paths_reported(s, n - 1);
        lemma_type_paths_reported(s[n - 1]);
    }
}

/// The type walker reports exactly a type's occurrences, in pre-order.
pub proof fn lemma_type_paths_reported(type_: Type)
    ensures
        event_paths(type_events(type_)) == type_paths(type_),
    decreases type_,
{
    broadcast use lemma_event_paths_add;

    reveal_with_fuel(type_events, 2);
    match type_ {
        Type::ResolvedPath(path) => lemma_path_paths_reported(path),
        Type::DynTrait(dyn_trait) => lemma_poly_trait_paths_reported(
            dyn_trait.traits@,
            dyn_trait.traits@.len() as int,
        ),
        Type::FunctionPointer(fn_pointer) => {
            lemma_fn_sig_paths_reported((*fn_pointer).sig);
            lemma_param_paths_reported(
                (*fn_pointer).generic_params@,
                (*fn_pointer).generic_params@.len() as int,
            );
        },
        Type::Tuple(types) => lemma_type_list_paths_reported(types@, types@.len() as int),
        Type::Slice(inner) => lemma_type_paths_reported(*inner),
        Type::Array { type_ } => lemma_type_paths_reported(*type_),
        Type::Pat { type_ } => lemma_type_paths_reported(*type_),
        Type::ImplTrait(bounds) => lemma_bounds_paths_reported(bounds@, bounds@.len() as int),
        Type::RawPointer { is_mutable, type_ } => lemma_type_paths_reported(*type_),
        Type::BorrowedRef { lifetime, is_mutable, type_ } => lemma_type_paths_reported(*type_),
        Type::QualifiedPath { name, args, self_type, trait_ } => {
            lemma_opt_args_paths_reported(args);
            lemma_type_paths_reported(*self_type);
            lemma_opt_path_paths_reported(trait_);
        },
        _ => {},
    }
}

/// An optional path reports exactly its occurrences.
pub proof fn lemma_opt_path_paths_reported(path: Option<Path>)
    ensures
        event_paths(opt_path_events(path)) == opt_path_paths(path),
    decreases path,
{
    if let Some(path) = path {
        lemma_path_paths_reported(path);
    }
}

/// The first `n` trait entries of a `dyn` object report exactly their
/// occurrences.
pub proof fn lemma_poly_trait_paths_reported(s: Seq<PolyTrait>, n: int)
    ensures
        event_paths(poly_trait_events_upto(s, n)) == poly_trait_paths_upto(s, n),
    decreases s, n,
{
    broadcast use lemma_event_paths_add;

    if 0 < n <= s.len() {
        reveal_with_fuel(poly_trait_events_upto, 2);
        reveal_with_fuel(poly_trait_paths_upto, 2);
        lemma_poly_trait_paths_reported(s, n - 1);
        lemma_path_paths_reported(s[n - 1].trait_);
        lemma_param_paths_reported(
            s[n - 1].generic_params@,
            s[n - 1].generic_params@.len() as int,
        );
    }
}

/// A path that stands in the filtered path list stands, wrapped as a
/// path event, among the events themselves.
pub proof fn lemma_event_paths_membership(es: Seq<Event>, i: int)
    requires
        0 <= i < event_paths(es).len(),
    ensures
        es.contains(Event::Path(event_paths(es)[i])),
    decreases es.len(),
{
    if es.len() > 0 {
        let prefix = event_paths(es.drop_last());
        if i < prefix.len() {
            lemma_event_paths_membership(es.drop_last(), i);
            let p = event_paths(es.drop_last())[i];
            let j = choose|j: int|
                0 <= j < es.drop_last().len() && es.drop_last()[j] == Event::Path(p);
            assert(es[j] == Event::Path(p));
            assert(es.contains(Event::Path(event_paths(es)[i])));
        } else {
            assert(es[es.len() - 1] == es.last());
            assert(es.contains(Event::Path(event_paths(es)[i])));
        }
    }
}

} // verus!
