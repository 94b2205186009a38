//! The mathematical model of a traversal: the exact sequence of visitor
//! events that walking a node produces, in pre-order.
//!
//! Each function below mirrors one layer of the grammar in [`crate::ir`]
//! and states, by structural recursion, which events the engine emits for
//! a node and in which order. The `..._events_upto` functions give the
//! events of the first `n` elements of a list, which is also the shape of
//! the engine's loop invariants.

use vstd::prelude::*;

verus! {

use crate::ir::{
    AssocItemConstraint, AssocItemConstraintKind, DynTrait, Enum, Function, FunctionPointer,
    FunctionSignature, GenericArg, GenericArgs, GenericBound, GenericParamDef, GenericParamDefKind,
    Generics, Impl, Item, ItemEnum, Path, PolyTrait, Static, Struct, StructKind, Term, Trait,
    TraitAlias, Type, TypeAlias, Union, Use, WherePredicate,
};

/// One observable effect of a traversal: a hook invocation on the visitor.
pub enum Event {
    /// `visit_path` was invoked with this path occurrence.
    Path(Path),
    /// `visit_use` was invoked with this re-export.
    Reexport(Use),
}

/// The events of dispatching one item.
///
/// Inert kinds (modules, enum variants, extern crates, primitives and
/// macros) produce no events; a re-export produces exactly its own report
/// and nothing from its internals; the unsupported foreign-type kind is
/// refused by the engine, so the empty sequence given here is never
/// observed.
pub open spec fn item_events(item: Item) -> Seq<Event>
    decreases item,
{
    match item.inner {
        ItemEnum::Module => Seq::empty(),
        ItemEnum::ExternCrate => Seq::empty(),
        ItemEnum::Use(use_) => seq![Event::Reexport(use_)],
        ItemEnum::Union(union_) => union_events(union_),
        ItemEnum::Struct(struct_) => struct_events(struct_),
        ItemEnum::StructField(field_type) => type_events(field_type),
        ItemEnum::Enum(enum_) => enum_events(enum_),
        ItemEnum::Variant => Seq::empty(),
        ItemEnum::Function(fun) => function_events(fun),
        ItemEnum::Trait(trait_) => trait_events(trait_),
        ItemEnum::TraitAlias(trait_alias) => trait_alias_events(trait_alias),
        ItemEnum::Impl(impl_) => impl_events(impl_),
        ItemEnum::TypeAlias(type_alias) => type_alias_events(type_alias),
        ItemEnum::Constant { type_ } => type_events(type_),
        ItemEnum::Static(static_) => static_events(static_),
        ItemEnum::ExternType => Seq::empty(),
        ItemEnum::Macro => Seq::empty(),
        ItemEnum::ProcMacro => Seq::empty(),
        ItemEnum::Primitive => Seq::empty(),
        ItemEnum::AssocConst { type_ } => type_events(type_),
        ItemEnum::AssocType { generics, bounds, type_ } => generics_events(generics)
            + bounds_events_upto(bounds@, bounds@.len() as int) + opt_type_events(type_),
    }
}

/// The events of a function: its signature first, then its generics.
pub open spec fn function_events(fun: Function) -> Seq<Event>
    decreases fun,
{
    fn_sig_events(fun.sig) + generics_events(fun.generics)
}

/// The events of a signature: each input's type in declaration order, then
/// the output type if present. Input names and the variadic flag are not
/// reported.
pub open spec fn fn_sig_events(sig: FunctionSignature) -> Seq<Event>
    decreases sig,
{
    input_events_upto(sig.inputs@, sig.inputs@.len() as int) + opt_type_events(sig.output)
}

/// The events of the first `n` named inputs of a signature.
pub open spec fn input_events_upto(s: Seq<(String, Type)>, n: int) -> Seq<Event>
    decreases s, n,
{
    if 0 < n <= s.len() {
        input_events_upto(s, n - 1) + type_events(s[n - 1].1)
    } else {
        Seq::empty()
    }
}

/// The events of an optional type: none when it is absent.
pub open spec fn opt_type_events(t: Option<Type>) -> Seq<Event>
    decreases t,
{
    match t {
        Some(type_) => type_events(type_),
        None => Seq::empty(),
    }
}

/// The events of a generics clause: each parameter definition in order,
/// then each where-predicate in order.
pub open spec fn generics_events(generics: Generics) -> Seq<Event>
    decreases generics,
{
    param_events_upto(generics.params@, generics.params@.len() as int) + pred_events_upto(
        generics.where_predicates@,
        generics.where_predicates@.len() as int,
    )
}

/// The events of the first `n` generic parameter definitions.
pub open spec fn param_events_upto(s: Seq<GenericParamDef>, n: int) -> Seq<Event>
    decreases s, n,
{
    if 0 < n <= s.len() {
        param_events_upto(s, n - 1) + param_events(s[n - 1])
    } else {
        Seq::empty()
    }
}

/// The events of one generic parameter definition: those of its kind.
pub open spec fn param_events(param: GenericParamDef) -> Seq<Event>
    decreases param,
{
    param_kind_events(param.kind)
}

/// The events of a parameter kind: a lifetime is a leaf; a type parameter
/// contributes its bounds then its default type; a const parameter
/// contributes its type, never its opaque default value.
pub open spec fn param_kind_events(kind: GenericParamDefKind) -> Seq<Event>
    decreases kind,
{
    match kind {
        GenericParamDefKind::Lifetime => Seq::empty(),
        GenericParamDefKind::Type { is_synthetic, bounds, default } => bounds_events_upto(
            bounds@,
            bounds@.len() as int,
        ) + opt_type_events(default),
        GenericParamDefKind::Const { type_ } => type_events(type_),
    }
}

/// The events of the first `n` where-predicates.
pub open spec fn pred_events_upto(s: Seq<WherePredicate>, n: int) -> Seq<Event>
    decreases s, n,
{
    if 0 < n <= s.len() {
        pred_events_upto(s, n - 1) + pred_events(s[n - 1])
    } else {
        Seq::empty()
    }
}

/// The events of one where-predicate: a bound predicate contributes its
/// type, bounds and higher-rank parameters in that order; an equality
/// predicate its two sides; a lifetime predicate is a leaf.
pub open spec fn pred_events(pred: WherePredicate) -> Seq<Event>
    decreases pred,
{
    match pred {
        WherePredicate::BoundPredicate { type_, bounds, generic_params } => type_events(type_)
            + bounds_events_upto(bounds@, bounds@.len() as int) + param_events_upto(
            generic_params@,
            generic_params@.len() as int,
        ),
        WherePredicate::LifetimePredicate { lifetime } => Seq::empty(),
        WherePredicate::EqPredicate { lhs, rhs } => type_events(lhs) + term_events(rhs),
    }
}

/// The events of the first `n` bounds of a bound list.
pub open spec fn bounds_events_upto(s: Seq<GenericBound>, n: int) -> Seq<Event>
    decreases s, n,
{
    if 0 < n <= s.len() {
        bounds_events_upto(s, n - 1) + bound_events(s[n - 1])
    } else {
        Seq::empty()
    }
}

/// The events of one bound: a trait bound contributes its path, then its
/// higher-rank parameters; outlives and `use` bounds are leaves.
pub open spec fn bound_events(bound: GenericBound) -> Seq<Event>
    decreases bound,
{
    match bound {
        GenericBound::TraitBound { trait_, generic_params, modifier } => path_events(trait_)
            + param_events_upto(generic_params@, generic_params@.len() as int),
        GenericBound::Outlives(lifetime) => Seq::empty(),
        GenericBound::Use => Seq::empty(),
    }
}

/// The events of a term: a type recurses, a constant value is a leaf.
pub open spec fn term_events(term: Term) -> Seq<Event>
    decreases term,
{
    match term {
        Term::Type(type_) => type_events(type_),
        Term::Constant => Seq::empty(),
    }
}

/// The events of a path occurrence: the path itself is reported first,
/// then its attached generic arguments are walked. This is the pre-order
/// contract for paths.
pub open spec fn path_events(path: Path) -> Seq<Event>
    decreases path,
{
    seq![Event::Path(path)] + opt_args_events(path.args)
}

/// The events of optionally attached generic arguments.
pub open spec fn opt_args_events(args: Option<Box<GenericArgs>>) -> Seq<Event>
    decreases args,
{
    match args {
        Some(args) => generic_args_events(*args),
        None => Seq::empty(),
    }
}

/// The events of a generic-argument list: ordered arguments, then
/// associated-item constraints; for the parenthesized form, the input
/// types in order, then the optional output type.
pub open spec fn generic_args_events(args: GenericArgs) -> Seq<Event>
    decreases args,
{
    match args {
        GenericArgs::AngleBracketed { args, constraints } => arg_events_upto(
            args@,
            args@.len() as int,
        ) + constraint_events_upto(constraints@, constraints@.len() as int),
        GenericArgs::Parenthesized { inputs, output } => type_events_upto(
            inputs@,
            inputs@.len() as int,
        ) + opt_type_events(output),
        GenericArgs::ReturnTypeNotation => Seq::empty(),
    }
}

/// The events of the first `n` generic arguments.
pub open spec fn arg_events_upto(s: Seq<GenericArg>, n: int) -> Seq<Event>
    decreases s, n,
{
    if 0 < n <= s.len() {
        arg_events_upto(s, n - 1) + arg_events(s[n - 1])
    } else {
        Seq::empty()
    }
}

/// The events of one generic argument: only a type argument recurses;
/// lifetimes, constants and inferred arguments are leaves.
pub open spec fn arg_events(arg: GenericArg) -> Seq<Event>
    decreases arg,
{
    match arg {
        GenericArg::Lifetime(lifetime) => Seq::empty(),
        GenericArg::Type(type_) => type_events(type_),
        GenericArg::Const => Seq::empty(),
        GenericArg::Infer => Seq::empty(),
    }
}

/// The events of the first `n` associated-item constraints.
pub open spec fn constraint_events_upto(s: Seq<AssocItemConstraint>, n: int) -> Seq<Event>
    decreases s, n,
{
    if 0 < n <= s.len() {
        constraint_events_upto(s, n - 1) + constraint_events(s[n - 1])
    } else {
        Seq::empty()
    }
}

/// The events of one associated-item constraint: its own attached generic
/// arguments first, then its equality or bound-list payload.
pub open spec fn constraint_events(constraint: AssocItemConstraint) -> Seq<Event>
    decreases constraint,
{
    opt_args_events(constraint.args) + constraint_kind_events(constraint.binding)
}

/// The events of a constraint's payload.
pub open spec fn constraint_kind_events(kind: AssocItemConstraintKind) -> Seq<Event>
    decreases kind,
{
    match kind {
        AssocItemConstraintKind::Equality(term) => term_events(term),
        AssocItemConstraintKind::Constraint(bounds) => bounds_events_upto(
            bounds@,
            bounds@.len() as int,
        ),
    }
}

/// The events of the first `n` types of a type list.
pub open spec fn type_events_upto(s: Seq<Type>, n: int) -> Seq<Event>
    decreases s, n,
{
    if 0 < n <= s.len() {
        type_events_upto(s, n - 1) + type_events(s[n - 1])
    } else {
        Seq::empty()
    }
}

/// The events of a type expression. Primitive, inferred and bare
/// generic-parameter types are leaves; every other variant recurses into
/// exactly its structural children, in declaration order. A qualified
/// path walks its attached arguments, then its self type, then its
/// optional trait path.
pub open spec fn type_events(type_: Type) -> Seq<Event>
    decreases type_,
{
    match type_ {
        Type::ResolvedPath(path) => path_events(path),
        Type::DynTrait(dyn_trait) => dyn_trait_events(dyn_trait),
        Type::Generic(name) => Seq::empty(),
        Type::Primitive(name) => Seq::empty(),
        Type::FunctionPointer(fn_pointer) => fn_pointer_events(*fn_pointer),
        Type::Tuple(types) => type_events_upto(types@, types@.len() as int),
        Type::Slice(inner) => type_events(*inner),
        Type::Array { type_ } => type_events(*type_),
        Type::Pat { type_ } => type_events(*type_),
        Type::ImplTrait(bounds) => bounds_events_upto(bounds@, bounds@.len() as int),
        Type::Infer => Seq::empty(),
        Type::RawPointer { is_mutable, type_ } => type_events(*type_),
        Type::BorrowedRef { lifetime, is_mutable, type_ } => type_events(*type_),
        Type::QualifiedPath { name, args, self_type, trait_ } => opt_args_events(args)
            + type_events(*self_type) + opt_path_events(trait_),
    }
}

/// The events of an optional path: none when it is absent.
pub open spec fn opt_path_events(path: Option<Path>) -> Seq<Event>
    decreases path,
{
    match path {
        Some(path) => path_events(path),
        None => Seq::empty(),
    }
}

/// The events of a function pointer: its signature, then its higher-rank
/// parameters.
pub open spec fn fn_pointer_events(fn_pointer: FunctionPointer) -> Seq<Event>
    decreases fn_pointer,
{
    fn_sig_events(fn_pointer.sig) + param_events_upto(
        fn_pointer.generic_params@,
        fn_pointer.generic_params@.len() as int,
    )
}

/// The events of a `dyn` object: each trait entry in order; the lifetime
/// is a leaf.
pub open spec fn dyn_trait_events(dyn_trait: DynTrait) -> Seq<Event>
    decreases dyn_trait,
{
    poly_trait_events_upto(dyn_trait.traits@, dyn_trait.traits@.len() as int)
}

/// The events of the first `n` trait entries of a `dyn` object.
pub open spec fn poly_trait_events_upto(s: Seq<PolyTrait>, n: int) -> Seq<Event>
    decreases s, n,
{
    if 0 < n <= s.len() {
        poly_trait_events_upto(s, n - 1) + poly_trait_events(s[n - 1])
    } else {
        Seq::empty()
    }
}

/// The events of one trait entry: its path, then its higher-rank
/// parameters.
pub open spec fn poly_trait_events(poly: PolyTrait) -> Seq<Event>
    decreases poly,
{
    path_events(poly.trait_) + param_events_upto(
        poly.generic_params@,
        poly.generic_params@.len() as int,
    )
}

/// The events of a struct: its field layout (a leaf), then its generics.
pub open spec fn struct_events(struct_: Struct) -> Seq<Event>
    decreases struct_,
{
    struct_kind_events(struct_.kind) + generics_events(struct_.generics)
}

/// The events of a struct's field layout: none, in every case, because
/// field types are walked only via the separate struct-field item kind.
pub open spec fn struct_kind_events(kind: StructKind) -> Seq<Event> {
    Seq::empty()
}

/// The events of an enum: its generics only; variants are separate items.
pub open spec fn enum_events(enum_: Enum) -> Seq<Event>
    decreases enum_,
{
    generics_events(enum_.generics)
}

/// The events of a union: its generics only; fields are separate items.
pub open spec fn union_events(union_: Union) -> Seq<Event>
    decreases union_,
{
    generics_events(union_.generics)
}

/// The events of a trait: its generics, then its supertrait bounds.
pub open spec fn trait_events(trait_: Trait) -> Seq<Event>
    decreases trait_,
{
    generics_events(trait_.generics) + bounds_events_upto(
        trait_.bounds@,
        trait_.bounds@.len() as int,
    )
}

/// The events of a trait alias: its generics, then its aliased bounds.
pub open spec fn trait_alias_events(trait_alias: TraitAlias) -> Seq<Event>
    decreases trait_alias,
{
    generics_events(trait_alias.generics) + bounds_events_upto(
        trait_alias.params@,
        trait_alias.params@.len() as int,
    )
}

/// The events of a type alias: the aliased type, then the generics.
pub open spec fn type_alias_events(type_alias: TypeAlias) -> Seq<Event>
    decreases type_alias,
{
    type_events(type_alias.type_) + generics_events(type_alias.generics)
}

/// The events of a static: its type only.
pub open spec fn static_events(static_: Static) -> Seq<Event>
    decreases static_,
{
    type_events(static_.type_)
}

/// The events of an impl block. An impl synthesized against a foreign
/// blanket implementation is entirely opaque and yields no events at all;
/// every other impl contributes its generics, its optional trait path and
/// its self type, in that order.
pub open spec fn impl_events(impl_: Impl) -> Seq<Event>
    decreases impl_,
{
    if impl_.blanket_impl is Some {
        Seq::empty()
    } else {
        generics_events(impl_.generics) + opt_path_events(impl_.trait_) + type_events(impl_.for_)
    }
}

} // verus!
