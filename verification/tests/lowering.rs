//! End-to-end checks of the token engine on crafted item-graph fixtures.

use std::collections::HashMap;

use rdoc::model::{
    Enum, FnDecl, Function, GenericBound, GenericParamDef, GenericParamDefKind, Generics, Header,
    Abi, Import, Item, ItemEnum, ItemKind, Path, Struct, StructKind, TraitBoundModifier, Type,
    Variant, VariantKind, WherePredicate,
};
use rdoc::pp::FromItemErrorKind;
use rdoc::token::{ItemId, Token, Tokens};

fn item(id: ItemId, name: Option<&str>, visibility: rdoc::model::Visibility, inner: ItemEnum) -> Item {
    Item {
        id,
        crate_id: 0,
        name: name.map(|n| n.to_string()),
        visibility,
        docs: None,
        links: vec![],
        attrs: vec![],
        deprecation: None,
        inner,
    }
}

fn no_generics() -> Generics {
    Generics { params: vec![], where_predicates: vec![] }
}

fn pub_vis() -> rdoc::model::Visibility {
    rdoc::model::Visibility::Public
}

fn field(id: ItemId, name: &str, ty: Type) -> Item {
    item(id, Some(name), rdoc::model::Visibility::Inherited, ItemEnum::StructField(ty))
}

fn generic(name: &str) -> Type {
    Type::Generic(name.to_string())
}

fn text_of(item: &Item, index: &HashMap<ItemId, Item>) -> String {
    Tokens::from_item(item, index).expect("lowering should succeed").render_text()
}

#[test]
fn unit_struct_public() {
    let index = HashMap::new();
    let s = item(
        1,
        Some("X"),
        pub_vis(),
        ItemEnum::Struct(Struct { kind: StructKind::Unit, generics: no_generics(), impls: vec![] }),
    );
    assert_eq!(text_of(&s, &index), "pub struct X;");
}

#[test]
fn unit_struct_crate_visibility() {
    let index = HashMap::new();
    let s = item(
        1,
        Some("X"),
        rdoc::model::Visibility::Crate,
        ItemEnum::Struct(Struct { kind: StructKind::Unit, generics: no_generics(), impls: vec![] }),
    );
    assert_eq!(text_of(&s, &index), "pub(crate) struct X;");
}

#[test]
fn unit_struct_restricted_visibility() {
    let index = HashMap::new();
    let s = item(
        1,
        Some("X"),
        rdoc::model::Visibility::Restricted { parent: 9, path: "crate::inner".to_string() },
        ItemEnum::Struct(Struct { kind: StructKind::Unit, generics: no_generics(), impls: vec![] }),
    );
    assert_eq!(text_of(&s, &index), "pub(in crate::inner) struct X;");
}

#[test]
fn unit_struct_private() {
    let index = HashMap::new();
    let s = item(
        1,
        Some("X"),
        rdoc::model::Visibility::Inherited,
        ItemEnum::Struct(Struct { kind: StructKind::Unit, generics: no_generics(), impls: vec![] }),
    );
    assert_eq!(text_of(&s, &index), "struct X;");
}

/// The end-to-end fixture: `pub struct Point<T> where T: Copy { x: T, y: T }`.
#[test]
fn point_struct_end_to_end() {
    let mut index = HashMap::new();
    index.insert(10, field(10, "x", generic("T")));
    index.insert(11, field(11, "y", generic("T")));
    let copy_bound = GenericBound::TraitBound {
        trait_path: Path { name: "Copy".to_string(), id: 99, args: None },
        generic_params: vec![],
        modifier: TraitBoundModifier::Plain,
    };
    let s = item(
        1,
        Some("Point"),
        pub_vis(),
        ItemEnum::Struct(Struct {
            kind: StructKind::Plain { fields: vec![10, 11], fields_stripped: false },
            generics: Generics {
                params: vec![GenericParamDef {
                    name: "T".to_string(),
                    kind: GenericParamDefKind::Type {
                        bounds: vec![],
                        default: None,
                        synthetic: false,
                    },
                }],
                where_predicates: vec![WherePredicate::BoundPredicate {
                    ty: generic("T"),
                    bounds: vec![copy_bound],
                    generic_params: vec![],
                }],
            },
            impls: vec![],
        }),
    );
    assert_eq!(
        text_of(&s, &index),
        "pub struct Point<T>\nwhere\n    T: Copy\n{    \n    x: T,\n    y: T,\n}"
    );
}

/// Hidden-fields distinction: all hidden and partly hidden render differently.
#[test]
fn hidden_fields_all_and_some() {
    let index = HashMap::new();
    let all_hidden = item(
        1,
        Some("S"),
        pub_vis(),
        ItemEnum::Struct(Struct {
            kind: StructKind::Plain { fields: vec![], fields_stripped: true },
            generics: no_generics(),
            impls: vec![],
        }),
    );
    let all_text = text_of(&all_hidden, &index);
    assert_eq!(all_text, "pub struct S { /* fields hidden */ }");

    let mut index2 = HashMap::new();
    index2.insert(10, field(10, "a", Type::Primitive("u8".to_string())));
    let some_hidden = item(
        1,
        Some("S"),
        pub_vis(),
        ItemEnum::Struct(Struct {
            kind: StructKind::Plain { fields: vec![10], fields_stripped: true },
            generics: no_generics(),
            impls: vec![],
        }),
    );
    let some_text = text_of(&some_hidden, &index2);
    assert_eq!(some_text, "pub struct S {    \n    a: u8,\n    /* some fields hidden */\n}");
    assert_ne!(all_text, some_text);
}

/// Graceful degradation: a dangling child id is a structural error, never a
/// crash.
#[test]
fn dangling_field_reports_child_not_found() {
    let index = HashMap::new();
    let s = item(
        1,
        Some("S"),
        pub_vis(),
        ItemEnum::Struct(Struct {
            kind: StructKind::Plain { fields: vec![77], fields_stripped: false },
            generics: no_generics(),
            impls: vec![],
        }),
    );
    let r = Tokens::from_item(&s, &index);
    assert_eq!(r.err().unwrap(), FromItemErrorKind::ChildrenNotFound(77));
}

/// A resolved child of the wrong kind is reported with the expected kind.
#[test]
fn wrong_child_kind_reported() {
    let mut index = HashMap::new();
    index.insert(
        77,
        item(
            77,
            Some("NotAField"),
            pub_vis(),
            ItemEnum::Struct(Struct {
                kind: StructKind::Unit,
                generics: no_generics(),
                impls: vec![],
            }),
        ),
    );
    let s = item(
        1,
        Some("S"),
        pub_vis(),
        ItemEnum::Struct(Struct {
            kind: StructKind::Plain { fields: vec![77], fields_stripped: false },
            generics: no_generics(),
            impls: vec![],
        }),
    );
    let r = Tokens::from_item(&s, &index);
    assert_eq!(
        r.err().unwrap(),
        FromItemErrorKind::UnexpectedItemType(77, ItemKind::StructField)
    );
}

/// Items that cannot stand alone are invalid.
#[test]
fn module_is_invalid_item() {
    let index = HashMap::new();
    let m = item(
        1,
        Some("m"),
        pub_vis(),
        ItemEnum::Module(rdoc::model::Module { is_crate: false, items: vec![] }),
    );
    assert_eq!(
        Tokens::from_item(&m, &index).err().unwrap(),
        FromItemErrorKind::InvalidItem
    );
}

/// A malformed attribute text fails with the attribute-parsing error.
#[test]
fn malformed_attribute_reported() {
    let index = HashMap::new();
    let mut s = item(
        1,
        Some("X"),
        pub_vis(),
        ItemEnum::Struct(Struct { kind: StructKind::Unit, generics: no_generics(), impls: vec![] }),
    );
    s.attrs = vec!["#[must_use".to_string()];
    assert_eq!(
        Tokens::from_item(&s, &index).err().unwrap(),
        FromItemErrorKind::AttributeParsing
    );
}

/// Only the preserved attributes print, one per line.
#[test]
fn attribute_allow_list() {
    let index = HashMap::new();
    let mut s = item(
        1,
        Some("X"),
        pub_vis(),
        ItemEnum::Struct(Struct { kind: StructKind::Unit, generics: no_generics(), impls: vec![] }),
    );
    s.attrs = vec![
        "#[inline]".to_string(),
        "#[must_use]".to_string(),
        "#[non_exhaustive]".to_string(),
    ];
    assert_eq!(text_of(&s, &index), "#[must_use]\n#[non_exhaustive]\npub struct X;");
}

/// Idempotence: lowering the same item and index twice yields identical
/// token sequences.
#[test]
fn lowering_is_idempotent() {
    let mut index = HashMap::new();
    index.insert(10, field(10, "x", generic("T")));
    let s = item(
        1,
        Some("S"),
        pub_vis(),
        ItemEnum::Struct(Struct {
            kind: StructKind::Plain { fields: vec![10], fields_stripped: false },
            generics: no_generics(),
            impls: vec![],
        }),
    );
    let a = Tokens::from_item(&s, &index).unwrap();
    let b = Tokens::from_item(&s, &index).unwrap();
    assert_eq!(a.list(), b.list());
    assert_eq!(a.render_text(), b.render_text());
}

/// Order preservation: children print in declared order, which here is
/// deliberately not alphabetical.
#[test]
fn declared_order_is_kept() {
    let mut index = HashMap::new();
    index.insert(20, item(20, Some("Zebra"), pub_vis(), ItemEnum::Variant(Variant {
        kind: VariantKind::Plain,
        discriminant: None,
    })));
    index.insert(21, item(21, Some("Alpha"), pub_vis(), ItemEnum::Variant(Variant {
        kind: VariantKind::Plain,
        discriminant: None,
    })));
    index.insert(22, item(22, Some("Mango"), pub_vis(), ItemEnum::Variant(Variant {
        kind: VariantKind::Plain,
        discriminant: None,
    })));
    let e = item(
        1,
        Some("E"),
        pub_vis(),
        ItemEnum::Enum(Enum {
            generics: no_generics(),
            variants_stripped: false,
            variants: vec![20, 21, 22],
            impls: vec![],
        }),
    );
    assert_eq!(
        text_of(&e, &index),
        "pub enum E {    \n    Zebra,\n    Alpha,\n    Mango,\n}"
    );
}

fn plain_header() -> Header {
    Header { is_const: false, is_unsafe: false, is_async: false, abi: Abi::Rust }
}

/// A bodyless function ends in a semicolon; the same function with a body
/// ends in an elided-body placeholder.
#[test]
fn function_terminators() {
    let index = HashMap::new();
    let mut f = item(
        1,
        Some("foo"),
        rdoc::model::Visibility::Inherited,
        ItemEnum::Function(Function {
            decl: FnDecl { inputs: vec![], output: None, c_variadic: false },
            generics: no_generics(),
            header: plain_header(),
            has_body: false,
        }),
    );
    assert_eq!(text_of(&f, &index), "fn foo();");
    if let ItemEnum::Function(ref mut func) = f.inner {
        func.has_body = true;
    }
    assert_eq!(text_of(&f, &index), "fn foo() { ... }");
}

/// Synthetic-parameter elision: trailing argument-position parameters vanish
/// from the angle-bracket list while the inputs that use them still print.
#[test]
fn synthetic_params_elided() {
    let index = HashMap::new();
    let f = item(
        1,
        Some("show"),
        pub_vis(),
        ItemEnum::Function(Function {
            decl: FnDecl {
                inputs: vec![("value".to_string(), generic("impl Display"))],
                output: None,
                c_variadic: false,
            },
            generics: Generics {
                params: vec![
                    GenericParamDef {
                        name: "T".to_string(),
                        kind: GenericParamDefKind::Type {
                            bounds: vec![],
                            default: None,
                            synthetic: false,
                        },
                    },
                    GenericParamDef {
                        name: "impl Display".to_string(),
                        kind: GenericParamDefKind::Type {
                            bounds: vec![],
                            default: None,
                            synthetic: true,
                        },
                    },
                ],
                where_predicates: vec![],
            },
            header: plain_header(),
            has_body: true,
        }),
    );
    assert_eq!(text_of(&f, &index), "pub fn show<T>(value: impl Display) { ... }");
}

/// A function with more than two inputs lays each on its own line; a `self`
/// receiver prints bare.
#[test]
fn function_inputs_multiline_and_receiver() {
    let index = HashMap::new();
    let f = item(
        1,
        Some("put"),
        pub_vis(),
        ItemEnum::Function(Function {
            decl: FnDecl {
                inputs: vec![
                    ("self".to_string(), generic("Self")),
                    ("k".to_string(), Type::Primitive("u32".to_string())),
                    ("v".to_string(), Type::Primitive("u32".to_string())),
                ],
                output: Some(Type::Primitive("bool".to_string())),
                c_variadic: false,
            },
            generics: no_generics(),
            header: plain_header(),
            has_body: true,
        }),
    );
    assert_eq!(
        text_of(&f, &index),
        "pub fn put(\n    Self,\n    k: u32,\n    v: u32\n) -> bool { ... }"
    );
}

/// Imports rename only when the visible name differs from the source's final
/// component.
#[test]
fn import_rename_logic() {
    let index = HashMap::new();
    let same = item(
        1,
        None,
        pub_vis(),
        ItemEnum::Import(Import {
            source: "std::vec::Vec".to_string(),
            name: "Vec".to_string(),
            id: Some(5),
            glob: false,
        }),
    );
    assert_eq!(text_of(&same, &index), "pub use std::vec::Vec;");
    let renamed = item(
        1,
        None,
        pub_vis(),
        ItemEnum::Import(Import {
            source: "std::vec::Vec".to_string(),
            name: "List".to_string(),
            id: Some(5),
            glob: false,
        }),
    );
    assert_eq!(text_of(&renamed, &index), "pub use std::vec::Vec as List;");
}

/// Type-expression lowering: references, slices, tuples, pointers, and the
/// never type.
#[test]
fn type_expressions() {
    let t = Type::BorrowedRef {
        lifetime: Some("'a".to_string()),
        mutable: true,
        ty: Box::new(Type::Slice(Box::new(Type::Primitive("u8".to_string())))),
    };
    assert_eq!(Tokens::from_type(&t).unwrap().render_text(), "&'a mut [u8]");

    let tup = Type::Tuple(vec![
        Type::Primitive("u8".to_string()),
        Type::Primitive("bool".to_string()),
    ]);
    assert_eq!(Tokens::from_type(&tup).unwrap().render_text(), "(u8, bool)");

    let never = Type::Primitive("never".to_string());
    assert_eq!(Tokens::from_type(&never).unwrap().render_text(), "!");

    let ptr = Type::RawPointer {
        mutable: false,
        ty: Box::new(Type::Primitive("u8".to_string())),
    };
    assert_eq!(Tokens::from_type(&ptr).unwrap().render_text(), "*const u8");

    let arr = Type::Array {
        ty: Box::new(Type::Primitive("u8".to_string())),
        len: "16".to_string(),
    };
    assert_eq!(Tokens::from_type(&arr).unwrap().render_text(), "[u8; 16]");

    let path = Type::ResolvedPath(Path {
        name: "Option".to_string(),
        id: 3,
        args: Some(Box::new(rdoc::model::GenericArgs::AngleBracketed {
            args: vec![rdoc::model::GenericArg::Type(Type::Primitive("u8".to_string()))],
            bindings: vec![],
        })),
    });
    assert_eq!(Tokens::from_type(&path).unwrap().render_text(), "Option<u8>");
}

/// Tokens carry cross-reference ids for the renderer to resolve.
#[test]
fn idents_carry_cross_reference_ids() {
    let t = Type::ResolvedPath(Path { name: "Widget".to_string(), id: 42, args: None });
    let toks = Tokens::from_type(&t).unwrap();
    assert_eq!(toks.list().len(), 1);
    match &toks.list()[0] {
        Token::Ident(name, link) => {
            assert_eq!(name, "Widget");
            assert_eq!(*link, Some(42));
        },
        other => panic!("expected an identifier token, got {:?}", other),
    }
}

/// No separator follows the final where-predicate; the body opens on the
/// next line.
#[test]
fn where_clause_has_no_trailing_separator() {
    let index = HashMap::new();
    let copy_bound = GenericBound::TraitBound {
        trait_path: Path { name: "Copy".to_string(), id: 99, args: None },
        generic_params: vec![],
        modifier: TraitBoundModifier::Plain,
    };
    let f = item(
        1,
        Some("f"),
        rdoc::model::Visibility::Inherited,
        ItemEnum::Function(Function {
            decl: FnDecl {
                inputs: vec![("x".to_string(), generic("T"))],
                output: None,
                c_variadic: false,
            },
            generics: Generics {
                params: vec![GenericParamDef {
                    name: "T".to_string(),
                    kind: GenericParamDefKind::Type {
                        bounds: vec![],
                        default: None,
                        synthetic: false,
                    },
                }],
                where_predicates: vec![WherePredicate::BoundPredicate {
                    ty: generic("T"),
                    bounds: vec![copy_bound],
                    generic_params: vec![],
                }],
            },
            header: plain_header(),
            has_body: true,
        }),
    );
    assert_eq!(text_of(&f, &index), "fn f<T>(x: T)\nwhere\n    T: Copy\n{ ... }");
}

/// A higher-ranked binder prefixes the whole predicate.
#[test]
fn higher_ranked_binder_is_a_prefix() {
    let index = HashMap::new();
    let trait_bound = GenericBound::TraitBound {
        trait_path: Path { name: "Visit".to_string(), id: 99, args: None },
        generic_params: vec![],
        modifier: TraitBoundModifier::Plain,
    };
    let s = item(
        1,
        Some("W"),
        pub_vis(),
        ItemEnum::Struct(Struct {
            kind: StructKind::Unit,
            generics: Generics {
                params: vec![GenericParamDef {
                    name: "F".to_string(),
                    kind: GenericParamDefKind::Type {
                        bounds: vec![],
                        default: None,
                        synthetic: false,
                    },
                }],
                where_predicates: vec![WherePredicate::BoundPredicate {
                    ty: generic("F"),
                    bounds: vec![trait_bound],
                    generic_params: vec![GenericParamDef {
                        name: "'a".to_string(),
                        kind: GenericParamDefKind::Lifetime { outlives: vec![] },
                    }],
                }],
            },
            impls: vec![],
        }),
    );
    assert_eq!(
        text_of(&s, &index),
        "pub struct W<F>\nwhere\n    for<'a> F: Visit\n;"
    );
}
