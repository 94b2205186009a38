//! The traversal engine: a dispatcher and one structural walker per
//! grammar layer, each proved to emit exactly the event sequence that
//! [`crate::events`] states for its node, appended to whatever the
//! visitor had already observed.

use vstd::prelude::*;

verus! {

use crate::events::{
    arg_events, arg_events_upto, bound_events, bounds_events_upto, constraint_events,
    constraint_events_upto, constraint_kind_events, dyn_trait_events, enum_events, Event,
    fn_pointer_events, fn_sig_events, function_events, generic_args_events, generics_events,
    impl_events, input_events_upto, item_events, opt_args_events, opt_path_events,
    param_events, param_events_upto, param_kind_events, path_events, poly_trait_events,
    poly_trait_events_upto, pred_events, pred_events_upto, static_events, struct_events,
    struct_kind_events, term_events, trait_alias_events, trait_events, type_alias_events,
    type_events, type_events_upto, union_events,
};
use crate::ir::{
    AssocItemConstraint, AssocItemConstraintKind, DynTrait, Enum, Function, FunctionPointer,
    FunctionSignature, GenericArg, GenericArgs, GenericBound, GenericParamDef, GenericParamDefKind,
    Generics, Impl, Item, ItemEnum, Path, PolyTrait, Static, Struct, StructKind, Term, Trait,
    TraitAlias, Type, TypeAlias, Union, Use, WherePredicate,
};
use vstd::pervasive::unreached;

/// The capability an engine caller supplies: two hooks, invoked as path
/// and re-export nodes are encountered. `events` is the abstract record
/// of every hook invocation so far, in order, and `inv` is whatever
/// well-formedness the implementation maintains across invocations; an
/// implementation that needs neither may define `inv` as `true`.
pub trait Visitor: Sized {
    /// The implementation's own invariant, preserved by both hooks.
    spec fn inv(&self) -> bool;

    /// Every hook invocation observed so far, in order.
    spec fn events(&self) -> Seq<Event>;

    /// Observe one resolved type or trait path occurrence. The engine
    /// invokes this before it walks the path's own generic arguments.
    fn visit_path(&mut self, path: &Path)
        requires
            old(self).inv(),
        ensures
            final(self).inv(),
            final(self).events() == old(self).events().push(Event::Path(*path)),
    ;

    /// Observe one re-export item. The engine does not additionally walk
    /// the re-export's internals.
    fn visit_use(&mut self, use_: &Use)
        requires
            old(self).inv(),
        ensures
            final(self).inv(),
            final(self).events() == old(self).events().push(Event::Reexport(*use_)),
    ;
}

/// Dispatch one item to the walker for its kind.
///
/// This is the engine's entry point: it invokes the visitor's hooks once
/// per reachable path occurrence and once per re-export, in pre-order,
/// and nothing else. Inert kinds produce no hook invocations. The
/// unsupported foreign-type kind is excluded by precondition; at run time
/// the dispatcher refuses it fatally rather than skip it silently.
pub fn visit_item<V: Visitor>(item: &Item, v: &mut V)
    requires
        old(v).inv(),
        item.supported(),
    ensures
        final(v).inv(),
        final(v).events() == old(v).events() + item_events(*item),
{
    match &item.inner {
        ItemEnum::Function(fun) => visit_function(fun, v),
        ItemEnum::Struct(struct_) => visit_struct(struct_, v),
        ItemEnum::StructField(field_type) => visit_type(field_type, v),
        ItemEnum::AssocType { generics, bounds, type_ } => {
            visit_generics(generics, v);
            visit_bound_list(bounds, v);
            if let Option::Some(type_) = type_ {
                visit_type(type_, v);
            }
            proof {
                assert(v.events() =~= old(v).events() + item_events(*item));
            }
        },
        ItemEnum::AssocConst { type_ } => visit_type(type_, v),
        ItemEnum::Impl(impl_) => visit_impl(impl_, v),
        ItemEnum::TypeAlias(type_alias) => visit_type_alias(type_alias, v),
        ItemEnum::Union(union_) => visit_union(union_, v),
        ItemEnum::Enum(enum_) => visit_enum(enum_, v),
        ItemEnum::Trait(trait_) => visit_trait(trait_, v),
        ItemEnum::TraitAlias(trait_alias) => visit_trait_alias(trait_alias, v),
        ItemEnum::Constant { type_ } => visit_type(type_, v),
        ItemEnum::Static(static_) => visit_static(static_, v),
        ItemEnum::Use(use_) => {
            v.visit_use(use_);
            proof {
                assert(v.events() =~= old(v).events() + item_events(*item));
            }
        },
        // deliberately inert: these kinds cannot structurally contain a
        // type or trait path relevant to the API surface
        ItemEnum::Module => {
            proof {
                assert(v.events() =~= old(v).events() + item_events(*item));
            }
        },
        ItemEnum::Variant => {
            proof {
                assert(v.events() =~= old(v).events() + item_events(*item));
            }
        },
        ItemEnum::ExternCrate => {
            proof {
                assert(v.events() =~= old(v).events() + item_events(*item));
            }
        },
        ItemEnum::Macro => {
            proof {
                assert(v.events() =~= old(v).events() + item_events(*item));
            }
        },
        ItemEnum::ProcMacro => {
            proof {
                assert(v.events() =~= old(v).events() + item_events(*item));
            }
        },
        ItemEnum::Primitive => {
            proof {
                assert(v.events() =~= old(v).events() + item_events(*item));
            }
        },
        // an unsupported grammar extension: fail fatally, never skip
        ItemEnum::ExternType => unreached(),
    }
}

fn visit_static<V: Visitor>(static_: &Static, v: &mut V)
    requires
        old(v).inv(),
    ensures
        final(v).inv(),
        final(v).events() == old(v).events() + static_events(*static_),
    decreases *static_,
{
    visit_type(&static_.type_, v);
}

fn visit_trait_alias<V: Visitor>(trait_alias: &TraitAlias, v: &mut V)
    requires
        old(v).inv(),
    ensures
        final(v).inv(),
        final(v).events() == old(v).events() + trait_alias_events(*trait_alias),
    decreases *trait_alias,
{
    visit_generics(&trait_alias.generics, v);
    visit_bound_list(&trait_alias.params, v);
    proof {
        assert(v.events() =~= old(v).events() + trait_alias_events(*trait_alias));
    }
}

fn visit_trait<V: Visitor>(trait_: &Trait, v: &mut V)
    requires
        old(v).inv(),
    ensures
        final(v).inv(),
        final(v).events() == old(v).events() + trait_events(*trait_),
    decreases *trait_,
{
    visit_generics(&trait_.generics, v);
    visit_bound_list(&trait_.bounds, v);
    proof {
        assert(v.events() =~= old(v).events() + trait_events(*trait_));
    }
}

fn visit_enum<V: Visitor>(enum_: &Enum, v: &mut V)
    requires
        old(v).inv(),
    ensures
        final(v).inv(),
        final(v).events() == old(v).events() + enum_events(*enum_),
    decreases *enum_,
{
    visit_generics(&enum_.generics, v);
}

fn visit_union<V: Visitor>(union_: &Union, v: &mut V)
    requires
        old(v).inv(),
    ensures
        final(v).inv(),
        final(v).events() == old(v).events() + union_events(*union_),
    decreases *union_,
{
    visit_generics(&union_.generics, v);
}

fn visit_impl<V: Visitor>(impl_: &Impl, v: &mut V)
    requires
        old(v).inv(),
    ensures
        final(v).inv(),
        final(v).events() == old(v).events() + impl_events(*impl_),
    decreases *impl_,
{
    // an impl synthesized against a foreign blanket implementation
    // incidentally mentions local types without being part of the local
    // API surface: it is entirely opaque, nothing in it is walked
    if impl_.blanket_impl.is_some() {
        proof {
            assert(v.events() =~= old(v).events() + impl_events(*impl_));
        }
        return ;
    }
    visit_generics(&impl_.generics, v);
    if let Option::Some(trait_) = &impl_.trait_ {
        visit_path(trait_, v);
    }
    visit_type(&impl_.for_, v);
    proof {
        assert(v.events() =~= old(v).events() + impl_events(*impl_));
    }
}

fn visit_type_alias<V: Visitor>(type_alias: &TypeAlias, v: &mut V)
    requires
        old(v).inv(),
    ensures
        final(v).inv(),
        final(v).events() == old(v).events() + type_alias_events(*type_alias),
    decreases *type_alias,
{
    visit_type(&type_alias.type_, v);
    visit_generics(&type_alias.generics, v);
    proof {
        assert(v.events() =~= old(v).events() + type_alias_events(*type_alias));
    }
}

fn visit_struct<V: Visitor>(struct_: &Struct, v: &mut V)
    requires
        old(v).inv(),
    ensures
        final(v).inv(),
        final(v).events() == old(v).events() + struct_events(*struct_),
    decreases *struct_,
{
    visit_struct_kind(&struct_.kind, v);
    visit_generics(&struct_.generics, v);
    proof {
        assert(v.events() =~= old(v).events() + struct_events(*struct_));
    }
}

fn visit_struct_kind<V: Visitor>(kind: &StructKind, v: &mut V)
    requires
        old(v).inv(),
    ensures
        final(v).inv(),
        final(v).events() == old(v).events() + struct_kind_events(*kind),
{
    // field types are walked only via the separate struct-field item
    // kind, never inline, so every layout is a leaf
    match kind {
        StructKind::Unit => (),
        StructKind::Tuple => (),
        StructKind::Plain => (),
    }
    proof {
        assert(v.events() =~= old(v).events() + struct_kind_events(*kind));
    }
}

fn visit_function<V: Visitor>(fun: &Function, v: &mut V)
    requires
        old(v).inv(),
    ensures
        final(v).inv(),
        final(v).events() == old(v).events() + function_events(*fun),
    decreases *fun,
{
    visit_fn_sig(&fun.sig, v);
    visit_generics(&fun.generics, v);
    proof {
        assert(v.events() =~= old(v).events() + function_events(*fun));
    }
}

#[verifier::loop_isolation(false)]
fn visit_fn_sig<V: Visitor>(sig: &FunctionSignature, v: &mut V)
    requires
        old(v).inv(),
    ensures
        final(v).inv(),
        final(v).events() == old(v).events() + fn_sig_events(*sig),
    decreases *sig,
{
    let n = sig.inputs.len();
    let mut i: usize = 0;
    while i < n
        invariant
            i <= n,
            v.inv(),
            v.events() == old(v).events() + input_events_upto(sig.inputs@, i as int),
        decreases n - i,
    {
        visit_type(&sig.inputs[i].1, v);
        i = i + 1;
        proof {
            assert(v.events() =~= old(v).events() + input_events_upto(sig.inputs@, i as int));
        }
    }
    if let Option::Some(output) = &sig.output {
        visit_type(output, v);
    }
    proof {
        assert(v.events() =~= old(v).events() + fn_sig_events(*sig));
    }
}

#[verifier::loop_isolation(false)]
fn visit_generics<V: Visitor>(generics: &Generics, v: &mut V)
    requires
        old(v).inv(),
    ensures
        final(v).inv(),
        final(v).events() == old(v).events() + generics_events(*generics),
    decreases *generics,
{
    visit_param_list(&generics.params, v);
    let n = generics.where_predicates.len();
    let mut i: usize = 0;
    while i < n
        invariant
            i <= n,
            v.inv(),
            v.events() == old(v).events() + param_events_upto(
                generics.params@,
                generics.params@.len() as int,
            ) + pred_events_upto(generics.where_predicates@, i as int),
        decreases n - i,
    {
        visit_where_predicate(&generics.where_predicates[i], v);
        i = i + 1;
        proof {
            assert(v.events() =~= old(v).events() + param_events_upto(
                generics.params@,
                generics.params@.len() as int,
            ) + pred_events_upto(generics.where_predicates@, i as int));
        }
    }
    proof {
        assert(v.events() =~= old(v).events() + generics_events(*generics));
    }
}

fn visit_generic_param_def<V: Visitor>(param: &GenericParamDef, v: &mut V)
    requires
        old(v).inv(),
    ensures
        final(v).inv(),
        final(v).events() == old(v).events() + param_events(*param),
    decreases *param,
{
    visit_generic_param_def_kind(&param.kind, v);
}

fn visit_where_predicate<V: Visitor>(where_predicate: &WherePredicate, v: &mut V)
    requires
        old(v).inv(),
    ensures
        final(v).inv(),
        final(v).events() == old(v).events() + pred_events(*where_predicate),
    decreases *where_predicate,
{
    match where_predicate {
        WherePredicate::BoundPredicate { type_, bounds, generic_params } => {
            visit_type(type_, v);
            visit_bound_list(bounds, v);
            visit_param_list(generic_params, v);
            proof {
                assert(v.events() =~= old(v).events() + pred_events(*where_predicate));
            }
        },
        WherePredicate::EqPredicate { lhs, rhs } => {
            visit_type(lhs, v);
            visit_term(rhs, v);
            proof {
                assert(v.events() =~= old(v).events() + pred_events(*where_predicate));
            }
        },
        // lifetime predicates can only express outlives relations
        WherePredicate::LifetimePredicate { lifetime } => {
            proof {
                assert(v.events() =~= old(v).events() + pred_events(*where_predicate));
            }
        },
    }
}

fn visit_generic_param_def_kind<V: Visitor>(kind: &GenericParamDefKind, v: &mut V)
    requires
        old(v).inv(),
    ensures
        final(v).inv(),
        final(v).events() == old(v).events() + param_kind_events(*kind),
    decreases *kind,
{
    match kind {
        // a lifetime parameter cannot reference a type or trait path
        GenericParamDefKind::Lifetime => {
            proof {
                assert(v.events() =~= old(v).events() + param_kind_events(*kind));
            }
        },
        GenericParamDefKind::Type { is_synthetic, bounds, default } => {
            visit_bound_list(bounds, v);
            if let Option::Some(default) = default {
                visit_type(default, v);
            }
            proof {
                assert(v.events() =~= old(v).events() + param_kind_events(*kind));
            }
        },
        // the parameter's type is walked; its default value is an opaque
        // constant, not a type reference
        GenericParamDefKind::Const { type_ } => {
            visit_type(type_, v);
        },
    }
}

fn visit_generic_bound<V: Visitor>(bound: &GenericBound, v: &mut V)
    requires
        old(v).inv(),
    ensures
        final(v).inv(),
        final(v).events() == old(v).events() + bound_events(*bound),
    decreases *bound,
{
    match bound {
        GenericBound::TraitBound { trait_, generic_params, modifier } => {
            visit_path(trait_, v);
            visit_param_list(generic_params, v);
            proof {
                assert(v.events() =~= old(v).events() + bound_events(*bound));
            }
        },
        GenericBound::Outlives(lifetime) => {
            proof {
                assert(v.events() =~= old(v).events() + bound_events(*bound));
            }
        },
        GenericBound::Use => {
            proof {
                assert(v.events() =~= old(v).events() + bound_events(*bound));
            }
        },
    }
}

fn visit_term<V: Visitor>(term: &Term, v: &mut V)
    requires
        old(v).inv(),
    ensures
        final(v).inv(),
        final(v).events() == old(v).events() + term_events(*term),
    decreases *term,
{
    match term {
        Term::Type(type_) => visit_type(type_, v),
        // a constant value is an opaque leaf
        Term::Constant => {
            proof {
                assert(v.events() =~= old(v).events() + term_events(*term));
            }
        },
    }
}

fn visit_path<V: Visitor>(path: &Path, v: &mut V)
    requires
        old(v).inv(),
    ensures
        final(v).inv(),
        final(v).events() == old(v).events() + path_events(*path),
    decreases *path,
{
    // the path itself is reported before its generic arguments: pre-order
    v.visit_path(path);
    if let Option::Some(args) = &path.args {
        visit_generic_args(&**args, v);
    }
    proof {
        assert(v.events() =~= old(v).events() + path_events(*path));
    }
}

fn visit_generic_args<V: Visitor>(args: &GenericArgs, v: &mut V)
    requires
        old(v).inv(),
    ensures
        final(v).inv(),
        final(v).events() == old(v).events() + generic_args_events(*args),
    decreases *args,
{
    match args {
        GenericArgs::AngleBracketed { args: list, constraints } => {
            visit_arg_list(list, v);
            visit_constraint_list(constraints, v);
            proof {
                assert(v.events() =~= old(v).events() + generic_args_events(*args));
            }
        },
        GenericArgs::Parenthesized { inputs, output } => {
            visit_type_list(inputs, v);
            if let Option::Some(type_) = output {
                visit_type(type_, v);
            }
            proof {
                assert(v.events() =~= old(v).events() + generic_args_events(*args));
            }
        },
        GenericArgs::ReturnTypeNotation => {
            proof {
                assert(v.events() =~= old(v).events() + generic_args_events(*args));
            }
        },
    }
}

fn visit_assoc_item_constraint<V: Visitor>(binding: &AssocItemConstraint, v: &mut V)
    requires
        old(v).inv(),
    ensures
        final(v).inv(),
        final(v).events() == old(v).events() + constraint_events(*binding),
    decreases *binding,
{
    // a constraint's own attached arguments come before its payload
    if let Option::Some(args) = &binding.args {
        visit_generic_args(&**args, v);
    }
    visit_assoc_item_constraint_kind(&binding.binding, v);
    proof {
        assert(v.events() =~= old(v).events() + constraint_events(*binding));
    }
}

fn visit_assoc_item_constraint_kind<V: Visitor>(binding: &AssocItemConstraintKind, v: &mut V)
    requires
        old(v).inv(),
    ensures
        final(v).inv(),
        final(v).events() == old(v).events() + constraint_kind_events(*binding),
    decreases *binding,
{
    match binding {
        AssocItemConstraintKind::Equality(term) => visit_term(term, v),
        AssocItemConstraintKind::Constraint(bounds) => visit_bound_list(bounds, v),
    }
}

fn visit_generic_arg<V: Visitor>(arg: &GenericArg, v: &mut V)
    requires
        old(v).inv(),
    ensures
        final(v).inv(),
        final(v).events() == old(v).events() + arg_events(*arg),
    decreases *arg,
{
    match arg {
        GenericArg::Type(type_) => visit_type(type_, v),
        // lifetimes, opaque constants and inferred arguments are leaves
        GenericArg::Lifetime(lifetime) => {
            proof {
                assert(v.events() =~= old(v).events() + arg_events(*arg));
            }
        },
        GenericArg::Const => {
            proof {
                assert(v.events() =~= old(v).events() + arg_events(*arg));
            }
        },
        GenericArg::Infer => {
            proof {
                assert(v.events() =~= old(v).events() + arg_events(*arg));
            }
        },
    }
}

fn visit_type<V: Visitor>(type_: &Type, v: &mut V)
    requires
        old(v).inv(),
    ensures
        final(v).inv(),
        final(v).events() == old(v).events() + type_events(*type_),
    decreases *type_,
{
    match type_ {
        Type::ResolvedPath(path) => visit_path(path, v),
        Type::DynTrait(dyn_trait) => visit_dyn_trait(dyn_trait, v),
        Type::FunctionPointer(fn_pointer) => visit_function_pointer(&**fn_pointer, v),
        Type::Tuple(types) => visit_type_list(types, v),
        Type::Slice(inner) => visit_type(&**inner, v),
        Type::Array { type_: inner } => visit_type(&**inner, v),
        Type::ImplTrait(bounds) => visit_bound_list(bounds, v),
        Type::RawPointer { is_mutable, type_: inner } => visit_type(&**inner, v),
        Type::BorrowedRef { lifetime, is_mutable, type_: inner } => visit_type(&**inner, v),
        Type::QualifiedPath { name, args, self_type, trait_ } => {
            if let Option::Some(args) = args {
                visit_generic_args(&**args, v);
            }
            proof {
                assert(v.events() =~= old(v).events() + opt_args_events(*args));
            }
            let ghost mid = v.events();
            visit_type(&**self_type, v);
            if let Option::Some(trait_) = trait_ {
                visit_path(trait_, v);
            }
            proof {
                assert(v.events() =~= mid + (type_events(**self_type) + opt_path_events(*trait_)));
                assert(v.events() =~= old(v).events() + type_events(*type_));
            }
        },
        Type::Pat { type_: inner } => visit_type(&**inner, v),
        // a bare generic-parameter reference, a primitive and an inferred
        // type are leaves
        Type::Generic(name) => {
            proof {
                assert(v.events() =~= old(v).events() + type_events(*type_));
            }
        },
        Type::Primitive(name) => {
            proof {
                assert(v.events() =~= old(v).events() + type_events(*type_));
            }
        },
        Type::Infer => {
            proof {
                assert(v.events() =~= old(v).events() + type_events(*type_));
            }
        },
    }
}

fn visit_function_pointer<V: Visitor>(fn_pointer: &FunctionPointer, v: &mut V)
    requires
        old(v).inv(),
    ensures
        final(v).inv(),
        final(v).events() == old(v).events() + fn_pointer_events(*fn_pointer),
    decreases *fn_pointer,
{
    visit_fn_sig(&fn_pointer.sig, v);
    visit_param_list(&fn_pointer.generic_params, v);
    proof {
        assert(v.events() =~= old(v).events() + fn_pointer_events(*fn_pointer));
    }
}

fn visit_dyn_trait<V: Visitor>(dyn_trait: &DynTrait, v: &mut V)
    requires
        old(v).inv(),
    ensures
        final(v).inv(),
        final(v).events() == old(v).events() + dyn_trait_events(*dyn_trait),
    decreases *dyn_trait,
{
    visit_poly_trait_list(&dyn_trait.traits, v);
}

fn visit_poly_trait<V: Visitor>(trait_: &PolyTrait, v: &mut V)
    requires
        old(v).inv(),
    ensures
        final(v).inv(),
        final(v).events() == old(v).events() + poly_trait_events(*trait_),
    decreases *trait_,
{
    visit_path(&trait_.trait_, v);
    visit_param_list(&trait_.generic_params, v);
    proof {
        assert(v.events() =~= old(v).events() + poly_trait_events(*trait_));
    }
}

#[verifier::loop_isolation(false)]
fn visit_bound_list<V: Visitor>(bounds: &Vec<GenericBound>, v: &mut V)
    requires
        old(v).inv(),
    ensures
        final(v).inv(),
        final(v).events() == old(v).events() + bounds_events_upto(bounds@, bounds@.len() as int),
    decreases *bounds,
{
    let n = bounds.len();
    let mut i: usize = 0;
    while i < n
        invariant
            i <= n,
            v.inv(),
            v.events() == old(v).events() + bounds_events_upto(bounds@, i as int),
        decreases n - i,
    {
        visit_generic_bound(&bounds[i], v);
        i = i + 1;
        proof {
            assert(v.events() =~= old(v).events() + bounds_events_upto(bounds@, i as int));
        }
    }
}

#[verifier::loop_isolation(false)]
fn visit_param_list<V: Visitor>(params: &Vec<GenericParamDef>, v: &mut V)
    requires
        old(v).inv(),
    ensures
        final(v).inv(),
        final(v).events() == old(v).events() + param_events_upto(params@, params@.len() as int),
    decreases *params,
{
    let n = params.len();
    let mut i: usize = 0;
    while i < n
        invariant
            i <= n,
            v.inv(),
            v.events() == old(v).events() + param_events_upto(params@, i as int),
        decreases n - i,
    {
        visit_generic_param_def(&params[i], v);
        i = i + 1;
        proof {
            assert(v.events() =~= old(v).events() + param_events_upto(params@, i as int));
        }
    }
}

#[verifier::loop_isolation(false)]
fn visit_type_list<V: Visitor>(types: &Vec<Type>, v: &mut V)
    requires
        old(v).inv(),
    ensures
        final(v).inv(),
        final(v).events() == old(v).events() + type_events_upto(types@, types@.len() as int),
    decreases *types,
{
    let n = types.len();
    let mut i: usize = 0;
    while i < n
        invariant
            i <= n,
            v.inv(),
            v.events() == old(v).events() + type_events_upto(types@, i as int),
        decreases n - i,
    {
        visit_type(&types[i], v);
        i = i + 1;
        proof {
            assert(v.events() =~= old(v).events() + type_events_upto(types@, i as int));
        }
    }
}

#[verifier::loop_isolation(false)]
fn visit_arg_list<V: Visitor>(args: &Vec<GenericArg>, v: &mut V)
    requires
        old(v).inv(),
    ensures
        final(v).inv(),
        final(v).events() == old(v).events() + arg_events_upto(args@, args@.len() as int),
    decreases *args,
{
    let n = args.len();
    let mut i: usize = 0;
    while i < n
        invariant
            i <= n,
            v.inv(),
            v.events() == old(v).events() + arg_events_upto(args@, i as int),
        decreases n - i,
    {
        visit_generic_arg(&args[i], v);
        i = i + 1;
        proof {
            assert(v.events() =~= old(v).events() + arg_events_upto(args@, i as int));
        }
    }
}

#[verifier::loop_isolation(false)]
fn visit_constraint_list<V: Visitor>(constraints: &Vec<AssocItemConstraint>, v: &mut V)
    requires
        old(v).inv(),
    ensures
        final(v).inv(),
        final(v).events() == old(v).events() + constraint_events_upto(
            constraints@,
            constraints@.len() as int,
        ),
    decreases *constraints,
{
    let n = constraints.len();
    let mut i: usize = 0;
    while i < n
        invariant
            i <= n,
            v.inv(),
            v.events() == old(v).events() + constraint_events_upto(constraints@, i as int),
        decreases n - i,
    {
        visit_assoc_item_constraint(&constraints[i], v);
        i = i + 1;
        proof {
            assert(v.events() =~= old(v).events() + constraint_events_upto(
                constraints@,
                i as int,
            ));
        }
    }
}

#[verifier::loop_isolation(false)]
fn visit_poly_trait_list<V: Visitor>(traits: &Vec<PolyTrait>, v: &mut V)
    requires
        old(v).inv(),
    ensures
        final(v).inv(),
        final(v).events() == old(v).events() + poly_trait_events_upto(traits@, traits@.len() as int),
    decreases *traits,
{
    let n = traits.len();
    let mut i: usize = 0;
    while i < n
        invariant
            i <= n,
            v.inv(),
            v.events() == old(v).events() + poly_trait_events_upto(traits@, i as int),
        decreases n - i,
    {
        visit_poly_trait(&traits[i], v);
        i = i + 1;
        proof {
            assert(v.events() =~= old(v).events() + poly_trait_events_upto(traits@, i as int));
        }
    }
}

} // verus!
