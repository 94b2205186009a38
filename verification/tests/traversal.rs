//! End-to-end tests of the traversal engine: each test builds an item
//! tree, walks it with a recording visitor, and checks the exact ordered
//! names of the reported paths and re-exports.

use apiwalk::ir::{
    AssocItemConstraint, AssocItemConstraintKind, DynTrait, Enum, Function, FunctionSignature,
    GenericArg, GenericArgs, GenericBound, GenericParamDef, GenericParamDefKind, Generics, Impl,
    Item, ItemEnum, Path, PolyTrait, Static, Struct, StructKind, Term, Trait, TraitAlias,
    TraitBoundModifier, Type, TypeAlias, Union, Use, WherePredicate,
};
use apiwalk::record::PathRecorder;
use apiwalk::visit::visit_item;

fn bare_path(name: &str) -> Path {
    Path { path: name.to_string(), id: 0, args: None }
}

fn path_type(name: &str) -> Type {
    Type::ResolvedPath(bare_path(name))
}

fn empty_generics() -> Generics {
    Generics { params: Vec::new(), where_predicates: Vec::new() }
}

fn item(inner: ItemEnum) -> Item {
    Item { name: None, inner }
}

fn trait_bound(name: &str) -> GenericBound {
    GenericBound::TraitBound {
        trait_: bare_path(name),
        generic_params: Vec::new(),
        modifier: TraitBoundModifier::Plain,
    }
}

fn walk(it: &Item) -> PathRecorder {
    let mut recorder = PathRecorder::new();
    visit_item(it, &mut recorder);
    recorder
}

fn names(strings: &[&str]) -> Vec<String> {
    strings.iter().map(|s| s.to_string()).collect()
}

#[test]
fn inert_items_are_silent() {
    for inner in [
        ItemEnum::Module,
        ItemEnum::Variant,
        ItemEnum::ExternCrate,
        ItemEnum::Macro,
        ItemEnum::ProcMacro,
        ItemEnum::Primitive,
    ] {
        let recorder = walk(&item(inner));
        assert_eq!(recorder.paths, names(&[]));
        assert_eq!(recorder.reexports, names(&[]));
    }
}

#[test]
fn outer_path_reported_before_its_arguments() {
    let inner = Type::ResolvedPath(Path {
        path: "Inner".to_string(),
        id: 2,
        args: None,
    });
    let outer = Type::ResolvedPath(Path {
        path: "Outer".to_string(),
        id: 1,
        args: Some(Box::new(GenericArgs::AngleBracketed {
            args: vec![GenericArg::Type(inner)],
            constraints: Vec::new(),
        })),
    });
    let recorder = walk(&item(ItemEnum::StructField(outer)));
    assert_eq!(recorder.paths, names(&["Outer", "Inner"]));
    assert_eq!(recorder.reexports, names(&[]));
}

#[test]
fn blanket_impl_is_silent() {
    let mut generics = empty_generics();
    generics.params.push(GenericParamDef {
        name: "T".to_string(),
        kind: GenericParamDefKind::Type {
            is_synthetic: false,
            bounds: vec![trait_bound("Bound")],
            default: None,
        },
    });
    let impl_ = Impl {
        generics,
        trait_: Some(bare_path("ForeignTrait")),
        for_: path_type("LocalType"),
        blanket_impl: Some(path_type("BlanketTarget")),
    };
    let recorder = walk(&item(ItemEnum::Impl(impl_)));
    assert_eq!(recorder.paths, names(&[]));
    assert_eq!(recorder.reexports, names(&[]));
}

#[test]
fn function_inputs_then_output_in_order() {
    let first = Type::ResolvedPath(Path {
        path: "A".to_string(),
        id: 1,
        args: Some(Box::new(GenericArgs::AngleBracketed {
            args: vec![GenericArg::Type(path_type("A2"))],
            constraints: Vec::new(),
        })),
    });
    let fun = Function {
        sig: FunctionSignature {
            inputs: vec![("x".to_string(), first), ("y".to_string(), path_type("B"))],
            output: Some(path_type("C")),
            is_c_variadic: false,
        },
        generics: empty_generics(),
    };
    let recorder = walk(&item(ItemEnum::Function(fun)));
    assert_eq!(recorder.paths, names(&["A", "A2", "B", "C"]));
}

#[test]
fn single_supertrait_reported_once() {
    let trait_ = Trait { generics: empty_generics(), bounds: vec![trait_bound("Super")] };
    let recorder = walk(&item(ItemEnum::Trait(trait_)));
    assert_eq!(recorder.paths, names(&["Super"]));
    assert_eq!(recorder.reexports, names(&[]));
}

#[test]
fn inherent_impl_on_primitive_is_silent() {
    let mut generics = empty_generics();
    generics.params.push(GenericParamDef {
        name: "'a".to_string(),
        kind: GenericParamDefKind::Lifetime,
    });
    let impl_ = Impl {
        generics,
        trait_: None,
        for_: Type::Primitive("u32".to_string()),
        blanket_impl: None,
    };
    let recorder = walk(&item(ItemEnum::Impl(impl_)));
    assert_eq!(recorder.paths, names(&[]));
}

#[test]
fn impl_generics_then_trait_then_self_type() {
    let mut generics = empty_generics();
    generics.params.push(GenericParamDef {
        name: "T".to_string(),
        kind: GenericParamDefKind::Type {
            is_synthetic: false,
            bounds: vec![trait_bound("B")],
            default: None,
        },
    });
    let impl_ = Impl {
        generics,
        trait_: Some(bare_path("Tr")),
        for_: path_type("SelfTy"),
        blanket_impl: None,
    };
    let recorder = walk(&item(ItemEnum::Impl(impl_)));
    assert_eq!(recorder.paths, names(&["B", "Tr", "SelfTy"]));
}

#[test]
fn reexport_reports_exactly_itself() {
    let use_ = Use {
        source: "dep::inner::Widget".to_string(),
        name: "Widget".to_string(),
        id: Some(7),
        is_glob: false,
    };
    let recorder = walk(&item(ItemEnum::Use(use_)));
    assert_eq!(recorder.reexports, names(&["Widget"]));
    assert_eq!(recorder.paths, names(&[]));
}

#[test]
fn qualified_path_args_then_self_then_trait() {
    let qualified = Type::QualifiedPath {
        name: "Output".to_string(),
        args: Some(Box::new(GenericArgs::AngleBracketed {
            args: vec![GenericArg::Type(path_type("Arg"))],
            constraints: Vec::new(),
        })),
        self_type: Box::new(path_type("SelfSide")),
        trait_: Some(bare_path("TraitSide")),
    };
    let recorder = walk(&item(ItemEnum::StructField(qualified)));
    assert_eq!(recorder.paths, names(&["Arg", "SelfSide", "TraitSide"]));
}

#[test]
fn where_predicate_type_then_bounds() {
    let mut generics = empty_generics();
    generics.where_predicates.push(WherePredicate::BoundPredicate {
        type_: path_type("Constrained"),
        bounds: vec![trait_bound("Needed")],
        generic_params: Vec::new(),
    });
    let recorder = walk(&item(ItemEnum::Enum(Enum { generics })));
    assert_eq!(recorder.paths, names(&["Constrained", "Needed"]));
}

#[test]
fn lifetime_predicate_is_silent() {
    let mut generics = empty_generics();
    generics.where_predicates.push(WherePredicate::LifetimePredicate {
        lifetime: "'a".to_string(),
    });
    let recorder = walk(&item(ItemEnum::Union(Union { generics })));
    assert_eq!(recorder.paths, names(&[]));
}

#[test]
fn eq_predicate_walks_both_sides() {
    let mut generics = empty_generics();
    generics.where_predicates.push(WherePredicate::EqPredicate {
        lhs: path_type("Lhs"),
        rhs: Term::Type(path_type("Rhs")),
    });
    let recorder = walk(&item(ItemEnum::Enum(Enum { generics })));
    assert_eq!(recorder.paths, names(&["Lhs", "Rhs"]));
}

#[test]
fn dyn_trait_entries_in_order() {
    let dyn_trait = Type::DynTrait(DynTrait {
        traits: vec![
            PolyTrait { trait_: bare_path("First"), generic_params: Vec::new() },
            PolyTrait { trait_: bare_path("Second"), generic_params: Vec::new() },
        ],
        lifetime: Some("'static".to_string()),
    });
    let recorder = walk(&item(ItemEnum::StructField(dyn_trait)));
    assert_eq!(recorder.paths, names(&["First", "Second"]));
}

#[test]
fn parenthesized_args_inputs_then_output() {
    let fn_sugar = Type::ResolvedPath(Path {
        path: "Fn".to_string(),
        id: 3,
        args: Some(Box::new(GenericArgs::Parenthesized {
            inputs: vec![path_type("In")],
            output: Some(path_type("Out")),
        })),
    });
    let recorder = walk(&item(ItemEnum::StructField(fn_sugar)));
    assert_eq!(recorder.paths, names(&["Fn", "In", "Out"]));
}

#[test]
fn constraint_args_before_its_payload() {
    let constrained = Type::ResolvedPath(Path {
        path: "It".to_string(),
        id: 4,
        args: Some(Box::new(GenericArgs::AngleBracketed {
            args: vec![GenericArg::Type(path_type("A"))],
            constraints: vec![AssocItemConstraint {
                name: "Item".to_string(),
                args: Some(Box::new(GenericArgs::AngleBracketed {
                    args: vec![GenericArg::Type(path_type("CA"))],
                    constraints: Vec::new(),
                })),
                binding: AssocItemConstraintKind::Equality(Term::Type(path_type("Eq"))),
            }],
        })),
    });
    let recorder = walk(&item(ItemEnum::StructField(constrained)));
    assert_eq!(recorder.paths, names(&["It", "A", "CA", "Eq"]));
}

#[test]
fn constraint_bound_list_payload() {
    let constrained = Type::ResolvedPath(Path {
        path: "It".to_string(),
        id: 5,
        args: Some(Box::new(GenericArgs::AngleBracketed {
            args: Vec::new(),
            constraints: vec![AssocItemConstraint {
                name: "Item".to_string(),
                args: None,
                binding: AssocItemConstraintKind::Constraint(vec![trait_bound("CB")]),
            }],
        })),
    });
    let recorder = walk(&item(ItemEnum::StructField(constrained)));
    assert_eq!(recorder.paths, names(&["It", "CB"]));
}

#[test]
fn tuple_walks_only_path_children() {
    let tuple = Type::Tuple(vec![
        Type::Generic("T".to_string()),
        Type::Primitive("u8".to_string()),
        Type::Infer,
        path_type("P"),
    ]);
    let recorder = walk(&item(ItemEnum::StructField(tuple)));
    assert_eq!(recorder.paths, names(&["P"]));
}

#[test]
fn wrapped_types_reach_inner_path() {
    let wrapped = Type::BorrowedRef {
        lifetime: Some("'a".to_string()),
        is_mutable: false,
        type_: Box::new(Type::Slice(Box::new(Type::Array {
            type_: Box::new(Type::RawPointer {
                is_mutable: true,
                type_: Box::new(Type::Pat { type_: Box::new(path_type("Deep")) }),
            }),
        }))),
    };
    let recorder = walk(&item(ItemEnum::StructField(wrapped)));
    assert_eq!(recorder.paths, names(&["Deep"]));
}

#[test]
fn impl_trait_bounds_walked() {
    let impl_trait = Type::ImplTrait(vec![
        trait_bound("IB"),
        GenericBound::Outlives("'a".to_string()),
        GenericBound::Use,
    ]);
    let recorder = walk(&item(ItemEnum::StructField(impl_trait)));
    assert_eq!(recorder.paths, names(&["IB"]));
}

#[test]
fn function_pointer_signature_then_params() {
    let fn_ptr = Type::FunctionPointer(Box::new(apiwalk::ir::FunctionPointer {
        sig: FunctionSignature {
            inputs: vec![("a".to_string(), path_type("FpIn"))],
            output: Some(path_type("FpOut")),
            is_c_variadic: false,
        },
        generic_params: vec![GenericParamDef {
            name: "T".to_string(),
            kind: GenericParamDefKind::Type {
                is_synthetic: false,
                bounds: vec![trait_bound("FpBound")],
                default: None,
            },
        }],
    }));
    let recorder = walk(&item(ItemEnum::StructField(fn_ptr)));
    assert_eq!(recorder.paths, names(&["FpIn", "FpOut", "FpBound"]));
}

#[test]
fn const_param_type_walked_not_default() {
    let mut generics = empty_generics();
    generics.params.push(GenericParamDef {
        name: "N".to_string(),
        kind: GenericParamDefKind::Const { type_: path_type("Len") },
    });
    let recorder = walk(&item(ItemEnum::Struct(Struct { kind: StructKind::Plain, generics })));
    assert_eq!(recorder.paths, names(&["Len"]));
}

#[test]
fn type_param_bounds_then_default() {
    let mut generics = empty_generics();
    generics.params.push(GenericParamDef {
        name: "T".to_string(),
        kind: GenericParamDefKind::Type {
            is_synthetic: false,
            bounds: vec![trait_bound("TB")],
            default: Some(path_type("TDefault")),
        },
    });
    let recorder = walk(&item(ItemEnum::Struct(Struct { kind: StructKind::Unit, generics })));
    assert_eq!(recorder.paths, names(&["TB", "TDefault"]));
}

#[test]
fn assoc_type_generics_bounds_then_default() {
    let inner = ItemEnum::AssocType {
        generics: empty_generics(),
        bounds: vec![trait_bound("AB")],
        type_: Some(path_type("ADefault")),
    };
    let recorder = walk(&item(inner));
    assert_eq!(recorder.paths, names(&["AB", "ADefault"]));
}

#[test]
fn assoc_type_without_default_is_not_an_error() {
    let inner = ItemEnum::AssocType {
        generics: empty_generics(),
        bounds: vec![trait_bound("OnlyBound")],
        type_: None,
    };
    let recorder = walk(&item(inner));
    assert_eq!(recorder.paths, names(&["OnlyBound"]));
}

#[test]
fn assoc_const_and_constant_walk_type_only() {
    let recorder = walk(&item(ItemEnum::AssocConst { type_: path_type("AcTy") }));
    assert_eq!(recorder.paths, names(&["AcTy"]));
    let recorder = walk(&item(ItemEnum::Constant { type_: path_type("CTy") }));
    assert_eq!(recorder.paths, names(&["CTy"]));
}

#[test]
fn static_walks_its_type() {
    let static_ = Static { type_: path_type("STy"), is_mutable: true };
    let recorder = walk(&item(ItemEnum::Static(static_)));
    assert_eq!(recorder.paths, names(&["STy"]));
}

#[test]
fn type_alias_type_then_generics() {
    let mut generics = empty_generics();
    generics.params.push(GenericParamDef {
        name: "T".to_string(),
        kind: GenericParamDefKind::Type {
            is_synthetic: false,
            bounds: vec![trait_bound("GB")],
            default: None,
        },
    });
    let alias = TypeAlias { type_: path_type("Aliased"), generics };
    let recorder = walk(&item(ItemEnum::TypeAlias(alias)));
    assert_eq!(recorder.paths, names(&["Aliased", "GB"]));
}

#[test]
fn trait_alias_generics_then_bounds() {
    let alias = TraitAlias { generics: empty_generics(), params: vec![trait_bound("TA")] };
    let recorder = walk(&item(ItemEnum::TraitAlias(alias)));
    assert_eq!(recorder.paths, names(&["TA"]));
}

#[test]
fn lifetime_and_const_generic_args_are_leaves() {
    let with_args = Type::ResolvedPath(Path {
        path: "Holder".to_string(),
        id: 6,
        args: Some(Box::new(GenericArgs::AngleBracketed {
            args: vec![
                GenericArg::Lifetime("'a".to_string()),
                GenericArg::Const,
                GenericArg::Infer,
                GenericArg::Type(path_type("OnlyType")),
            ],
            constraints: Vec::new(),
        })),
    });
    let recorder = walk(&item(ItemEnum::StructField(with_args)));
    assert_eq!(recorder.paths, names(&["Holder", "OnlyType"]));
}

#[test]
fn return_type_notation_is_a_leaf() {
    let with_args = Type::ResolvedPath(Path {
        path: "Method".to_string(),
        id: 8,
        args: Some(Box::new(GenericArgs::ReturnTypeNotation)),
    });
    let recorder = walk(&item(ItemEnum::StructField(with_args)));
    assert_eq!(recorder.paths, names(&["Method"]));
}

#[test]
fn repeated_occurrences_are_repeated() {
    let tuple = Type::Tuple(vec![path_type("Same"), path_type("Same")]);
    let recorder = walk(&item(ItemEnum::StructField(tuple)));
    assert_eq!(recorder.paths, names(&["Same", "Same"]));
}

#[test]
fn constant_term_is_a_leaf() {
    let constrained = Type::ResolvedPath(Path {
        path: "Arr".to_string(),
        id: 9,
        args: Some(Box::new(GenericArgs::AngleBracketed {
            args: Vec::new(),
            constraints: vec![AssocItemConstraint {
                name: "LEN".to_string(),
                args: None,
                binding: AssocItemConstraintKind::Equality(Term::Constant),
            }],
        })),
    });
    let recorder = walk(&item(ItemEnum::StructField(constrained)));
    assert_eq!(recorder.paths, names(&["Arr"]));
}

#[test]
fn tuple_struct_fields_are_separate_items() {
    let mut generics = empty_generics();
    generics.params.push(GenericParamDef {
        name: "T".to_string(),
        kind: GenericParamDefKind::Type {
            is_synthetic: true,
            bounds: Vec::new(),
            default: None,
        },
    });
    let recorder = walk(&item(ItemEnum::Struct(Struct { kind: StructKind::Tuple, generics })));
    assert_eq!(recorder.paths, names(&[]));
}

#[test]
fn glob_reexport_reports_once() {
    let use_ = Use {
        source: "dep::prelude".to_string(),
        name: "prelude".to_string(),
        id: None,
        is_glob: true,
    };
    let recorder = walk(&item(ItemEnum::Use(use_)));
    assert_eq!(recorder.reexports, names(&["prelude"]));
    assert_eq!(recorder.paths, names(&[]));
}
