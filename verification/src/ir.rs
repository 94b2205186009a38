//! The intermediate representation of a library's public API surface.
//!
//! These types form the grammar that the traversal engine walks: items,
//! types, paths, generic arguments, bounds and where-predicates. Values are
//! built by the caller (for instance from an external extraction tool) and
//! are read-only inputs to the engine. Payloads the engine never inspects
//! (constant expressions, documentation, identifier cross-references into a
//! global item table) are not represented or are kept as opaque plain
//! values, so every value of these types is a finite tree: no variant can
//! reach an `Item` again, and recursion through `Vec`, `Option` and `Box`
//! is strictly structural.

use vstd::prelude::*;

verus! {

/// One declaration of the analyzed library, the root of a traversal.
pub struct Item {
    /// The declaration's own name, where it has one.
    pub name: Option<String>,
    /// The kind-specific payload.
    pub inner: ItemEnum,
}

impl Item {
    /// Whether the engine supports this item's kind. The foreign-type kind
    /// is an unsupported grammar extension: the dispatcher refuses it
    /// fatally rather than skip it silently.
    pub open spec fn supported(&self) -> bool {
        !(self.inner is ExternType)
    }
}

/// The kind of an [`Item`], with the structural payload of each kind.
///
/// The kinds `Module`, `Variant`, `ExternCrate`, `Primitive`, `ProcMacro`
/// and `Macro` carry nothing that can reference a type or trait path, so
/// they are deliberately inert: the engine treats them as documented
/// no-ops, not omissions.
#[allow(inconsistent_fields)]
pub enum ItemEnum {
    /// A module declaration. Inert: its children are separate items.
    Module,
    /// An `extern crate` declaration. Inert.
    ExternCrate,
    /// A re-export (`use`) of one or more items.
    Use(Use),
    /// A `union` declaration.
    Union(Union),
    /// A `struct` declaration.
    Struct(Struct),
    /// A field of a struct, as its bare type.
    StructField(Type),
    /// An `enum` declaration.
    Enum(Enum),
    /// A variant of an enum. Inert: its fields are separate items.
    Variant,
    /// A function declaration, including associated functions.
    Function(Function),
    /// A `trait` declaration.
    Trait(Trait),
    /// A trait alias declaration.
    TraitAlias(TraitAlias),
    /// An `impl` block.
    Impl(Impl),
    /// A type alias declaration.
    TypeAlias(TypeAlias),
    /// A constant declaration: only its type is walked, the value is opaque.
    Constant { type_: Type },
    /// A `static` declaration.
    Static(Static),
    /// A foreign type from an `extern` block: not supported by the engine.
    ExternType,
    /// A declarative macro. Inert.
    Macro,
    /// A procedural macro. Inert.
    ProcMacro,
    /// A primitive type declaration. Inert.
    Primitive,
    /// An associated constant: only its type is walked.
    AssocConst { type_: Type },
    /// An associated type, with its generics, bounds and optional default.
    AssocType { generics: Generics, bounds: Vec<GenericBound>, type_: Option<Type> },
}

/// A re-export of an item, reported to the visitor as a single event.
pub struct Use {
    /// The full path of the re-exported item as written in the `use` line.
    pub source: String,
    /// The name under which the item is re-exported.
    pub name: String,
    /// The opaque identity of the re-exported item, never dereferenced.
    pub id: Option<u32>,
    /// Whether this is a glob (`use ...::*`) re-export.
    pub is_glob: bool,
}

/// A named reference to a type or trait, optionally with generic arguments.
pub struct Path {
    /// The name as written in the source.
    pub path: String,
    /// The opaque identity of the referenced item, never dereferenced.
    pub id: u32,
    /// Generic arguments attached to the path, if any.
    pub args: Option<Box<GenericArgs>>,
}

/// Generic arguments attached to one path segment.
pub enum GenericArgs {
    /// Angle-bracketed arguments: ordered arguments plus associated-item
    /// constraints.
    AngleBracketed { args: Vec<GenericArg>, constraints: Vec<AssocItemConstraint> },
    /// Parenthesized `Fn`-style sugar: ordered input types and an optional
    /// output type.
    Parenthesized { inputs: Vec<Type>, output: Option<Type> },
    /// The `T::method(..)` marker, with no content.
    ReturnTypeNotation,
}

/// One generic argument.
pub enum GenericArg {
    /// A lifetime argument: a leaf, never descended into.
    Lifetime(String),
    /// A type argument.
    Type(Type),
    /// A constant argument: an opaque expression, never descended into.
    Const,
    /// An argument explicitly set to be inferred.
    Infer,
}

/// A constraint on an associated item within a path's generic arguments.
pub struct AssocItemConstraint {
    /// The name of the associated type or constant.
    pub name: String,
    /// Arguments provided to the associated item, if any.
    pub args: Option<Box<GenericArgs>>,
    /// How the associated item is constrained.
    pub binding: AssocItemConstraintKind,
}

/// The way an associated item is constrained.
pub enum AssocItemConstraintKind {
    /// The associated item equals a term exactly.
    Equality(Term),
    /// The associated item satisfies a list of bounds.
    Constraint(Vec<GenericBound>),
}

/// Either a type or an opaque constant value.
pub enum Term {
    /// A type.
    Type(Type),
    /// A constant value: a leaf, never descended into.
    Constant,
}

/// A bound in a bound list: a trait bound, an outlives bound, or a
/// precise-capturing `use` bound.
pub enum GenericBound {
    /// A trait bound, with higher-rank parameters and a modifier.
    TraitBound { trait_: Path, generic_params: Vec<GenericParamDef>, modifier: TraitBoundModifier },
    /// A lifetime (outlives) bound: a leaf.
    Outlives(String),
    /// A precise-capturing `use<..>` bound: a leaf.
    Use,
}

/// The modifier of a trait bound.
pub enum TraitBoundModifier {
    /// No modifier.
    Plain,
    /// A `?Trait` bound.
    Maybe,
    /// A `~const Trait` bound.
    MaybeConst,
}

/// One generic parameter accepted by an item.
pub struct GenericParamDef {
    /// The parameter's name.
    pub name: String,
    /// The parameter's kind and kind-specific payload.
    pub kind: GenericParamDefKind,
}

/// The kind of a [`GenericParamDef`].
pub enum GenericParamDefKind {
    /// A lifetime parameter: a leaf, it can only express outlives relations.
    Lifetime,
    /// A type parameter with its inline bounds and optional default type.
    Type { is_synthetic: bool, bounds: Vec<GenericBound>, default: Option<Type> },
    /// A const parameter: its type is walked, its default value is opaque.
    Const { type_: Type },
}

/// One `where` clause.
pub enum WherePredicate {
    /// A type constrained by a list of bounds, with higher-rank parameters.
    BoundPredicate { type_: Type, bounds: Vec<GenericBound>, generic_params: Vec<GenericParamDef> },
    /// A lifetime predicate: a leaf, it can only express outlives relations.
    LifetimePredicate { lifetime: String },
    /// A type required to equal a term.
    EqPredicate { lhs: Type, rhs: Term },
}

/// Ordered generic parameter definitions plus ordered where-predicates.
pub struct Generics {
    pub params: Vec<GenericParamDef>,
    pub where_predicates: Vec<WherePredicate>,
}

/// A function signature: ordered named inputs and an optional output. Only
/// the types are walked; names and the variadic flag are not.
pub struct FunctionSignature {
    pub inputs: Vec<(String, Type)>,
    pub output: Option<Type>,
    pub is_c_variadic: bool,
}

/// A function declaration: its signature and generics.
pub struct Function {
    pub sig: FunctionSignature,
    pub generics: Generics,
}

/// How a struct's fields are laid out. Field types are walked only via the
/// separate struct-field item kind, never inline, so every kind is a leaf.
pub enum StructKind {
    /// A unit struct.
    Unit,
    /// A tuple struct; its fields are separate items.
    Tuple,
    /// A plain struct; its fields are separate items.
    Plain,
}

/// A struct declaration.
pub struct Struct {
    pub kind: StructKind,
    pub generics: Generics,
}

/// An enum declaration; its variants are separate items.
pub struct Enum {
    pub generics: Generics,
}

/// A union declaration; its fields are separate items.
pub struct Union {
    pub generics: Generics,
}

/// A trait declaration: its generics and supertrait bounds.
pub struct Trait {
    pub generics: Generics,
    pub bounds: Vec<GenericBound>,
}

/// A trait alias declaration: its generics and aliased bounds.
pub struct TraitAlias {
    pub generics: Generics,
    pub params: Vec<GenericBound>,
}

/// A type alias declaration: the aliased type and the alias's generics.
pub struct TypeAlias {
    pub type_: Type,
    pub generics: Generics,
}

/// A static declaration: only its type is walked.
pub struct Static {
    pub type_: Type,
    pub is_mutable: bool,
}

/// An `impl` block.
pub struct Impl {
    pub generics: Generics,
    /// The implemented trait, absent for an inherent implementation.
    pub trait_: Option<Path>,
    /// The self (`for`) type.
    pub for_: Type,
    /// Present when this impl was synthesized against a foreign blanket
    /// implementation. Such an impl incidentally mentions local types
    /// without being part of the local API surface, so the engine treats
    /// it as entirely opaque: nothing in it is walked.
    pub blanket_impl: Option<Type>,
}

/// A function pointer type: a signature plus higher-rank parameters.
pub struct FunctionPointer {
    pub sig: FunctionSignature,
    pub generic_params: Vec<GenericParamDef>,
}

/// A `dyn Trait` object: its trait entries; the lifetime is a leaf.
pub struct DynTrait {
    pub traits: Vec<PolyTrait>,
    pub lifetime: Option<String>,
}

/// A trait path with higher-rank parameters, one entry of a `dyn` object.
pub struct PolyTrait {
    pub trait_: Path,
    pub generic_params: Vec<GenericParamDef>,
}

/// A type expression.
pub enum Type {
    /// A resolved name, routed through the path walker.
    ResolvedPath(Path),
    /// A `dyn Trait` object.
    DynTrait(DynTrait),
    /// A bare reference to a generic parameter: a leaf.
    Generic(String),
    /// A primitive type: a leaf.
    Primitive(String),
    /// A function pointer type.
    FunctionPointer(Box<FunctionPointer>),
    /// A tuple of types.
    Tuple(Vec<Type>),
    /// A slice type.
    Slice(Box<Type>),
    /// An array type; its length is an opaque constant, never inspected.
    Array { type_: Box<Type> },
    /// A pattern-refined type; only the underlying type is walked.
    Pat { type_: Box<Type> },
    /// An `impl Trait` type: its bound list.
    ImplTrait(Vec<GenericBound>),
    /// An inferred type: a leaf.
    Infer,
    /// A raw pointer type.
    RawPointer { is_mutable: bool, type_: Box<Type> },
    /// A reference type; its lifetime is a leaf.
    BorrowedRef { lifetime: Option<String>, is_mutable: bool, type_: Box<Type> },
    /// An associated-type projection (`<T as Trait>::Name`).
    QualifiedPath {
        name: String,
        args: Option<Box<GenericArgs>>,
        self_type: Box<Type>,
        trait_: Option<Path>,
    },
}

} // verus!
