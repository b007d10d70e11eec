//! The typed item graph: one compiled library's public API as data.
//!
//! Items are nodes identified by an opaque id; child relationships are stored
//! as ids and resolved through the index. Values are immutable once loaded;
//! the lowering engine only reads them. Carried texts (names, opaque constant
//! expressions, attribute texts) are plain strings; the engine never re-parses
//! an opaque expression.

use std::collections::HashMap;
use vstd::prelude::*;

use crate::token::ItemId;

verus! {

/// One loaded item graph: the root module, the id-to-item index, summary
/// paths for page-worthy items, and the known external crates.
pub struct Crate {
    pub root: ItemId,
    pub index: HashMap<ItemId, Item>,
    pub paths: HashMap<ItemId, ItemSummary>,
    pub external_crates: HashMap<u32, ExternalCrate>,
}

/// A crate other than the one being rendered; a documentation root URL may be
/// known for it.
pub struct ExternalCrate {
    pub name: String,
    pub html_root_url: Option<String>,
}

/// Path components and kind of an item, as recorded in the path table.
pub struct ItemSummary {
    pub crate_id: u32,
    pub path: Vec<String>,
    pub kind: ItemKind,
}

/// A graph node.
pub struct Item {
    pub id: ItemId,
    pub crate_id: u32,
    pub name: Option<String>,
    pub visibility: Visibility,
    pub docs: Option<String>,
    /// Inline documentation links: link text to target id.
    pub links: Vec<(String, ItemId)>,
    /// Raw attribute texts, as written, `#[` included.
    pub attrs: Vec<String>,
    pub deprecation: Option<Deprecation>,
    pub inner: ItemEnum,
}

pub struct Deprecation {
    pub since: Option<String>,
    pub note: Option<String>,
}

/// Item visibility. `Inherited` is the default visibility: private, or
/// implied by the enclosing item, and printed as nothing.
pub enum Visibility {
    Public,
    Inherited,
    Crate,
    Restricted { parent: ItemId, path: String },
}

/// The tagged variant of an item, with its kind-specific payload.
pub enum ItemEnum {
    Module(Module),
    ExternCrate { name: String, rename: Option<String> },
    Import(Import),
    Union(Union),
    Struct(Struct),
    StructField(Type),
    Enum(Enum),
    Variant(Variant),
    Function(Function),
    Trait(Trait),
    TraitAlias(TraitAlias),
    Impl(Impl),
    TypeAlias(TypeAlias),
    OpaqueTy,
    Constant { ty: Type, value: Constant },
    Static(Static),
    ForeignType,
    Macro(String),
    ProcMacro(ProcMacro),
    Primitive(String),
    AssocConst { ty: Type, default: Option<String> },
    AssocType { generics: Generics, bounds: Vec<GenericBound>, default: Option<Type> },
}

/// The kind tag alone, as used in the path table and in structural errors.
#[derive(Clone, Copy, PartialEq, Eq, Structural, Debug)]
pub enum ItemKind {
    Module,
    ExternCrate,
    Import,
    Struct,
    StructField,
    Union,
    Enum,
    Variant,
    Function,
    TypeAlias,
    OpaqueTy,
    Constant,
    Trait,
    TraitAlias,
    Impl,
    Static,
    ForeignType,
    Macro,
    ProcAttribute,
    ProcDerive,
    AssocConst,
    AssocType,
    Primitive,
    Keyword,
}

pub struct Module {
    pub is_crate: bool,
    pub items: Vec<ItemId>,
}

pub struct Import {
    /// The full path being imported.
    pub source: String,
    /// The name under which the import is visible.
    pub name: String,
    pub id: Option<ItemId>,
    pub glob: bool,
}

pub struct Union {
    pub generics: Generics,
    pub fields_stripped: bool,
    pub fields: Vec<ItemId>,
    pub impls: Vec<ItemId>,
}

pub struct Struct {
    pub kind: StructKind,
    pub generics: Generics,
    pub impls: Vec<ItemId>,
}

pub enum StructKind {
    Unit,
    /// One entry per field position; a position whose field was stripped
    /// holds nothing and is printed as an inferred placeholder.
    Tuple(Vec<Option<ItemId>>),
    Plain { fields: Vec<ItemId>, fields_stripped: bool },
}

pub struct Enum {
    pub generics: Generics,
    pub variants_stripped: bool,
    pub variants: Vec<ItemId>,
    pub impls: Vec<ItemId>,
}

pub struct Variant {
    pub kind: VariantKind,
    pub discriminant: Option<Discriminant>,
}

pub enum VariantKind {
    Plain,
    Tuple(Vec<Option<ItemId>>),
    Struct { fields: Vec<ItemId>, fields_stripped: bool },
}

pub struct Discriminant {
    pub expr: String,
    pub value: String,
}

pub struct Function {
    pub decl: FnDecl,
    pub generics: Generics,
    pub header: Header,
    pub has_body: bool,
}

pub struct FnDecl {
    /// Parameter name and type, in declaration order.
    pub inputs: Vec<(String, Type)>,
    pub output: Option<Type>,
    pub c_variadic: bool,
}

pub struct Header {
    pub is_const: bool,
    pub is_unsafe: bool,
    pub is_async: bool,
    pub abi: Abi,
}

/// A function's calling convention.
pub enum Abi {
    Rust,
    C { unwind: bool },
    Cdecl { unwind: bool },
    Stdcall { unwind: bool },
    Fastcall { unwind: bool },
    Aapcs { unwind: bool },
    Win64 { unwind: bool },
    SysV64 { unwind: bool },
    System { unwind: bool },
    Other(String),
}

pub struct Trait {
    pub is_auto: bool,
    pub is_unsafe: bool,
    pub items: Vec<ItemId>,
    pub generics: Generics,
    pub bounds: Vec<GenericBound>,
    pub implementations: Vec<ItemId>,
}

pub struct TraitAlias {
    pub generics: Generics,
    pub params: Vec<GenericBound>,
}

pub struct Impl {
    pub is_unsafe: bool,
    pub generics: Generics,
    pub trait_path: Option<Path>,
    pub for_ty: Type,
    pub items: Vec<ItemId>,
    pub negative: bool,
    pub blanket_impl: Option<Type>,
}

pub struct TypeAlias {
    pub ty: Type,
    pub generics: Generics,
}

pub struct Static {
    pub ty: Type,
    pub mutable: bool,
    pub expr: String,
}

pub struct ProcMacro {
    pub kind: MacroKind,
    pub helpers: Vec<String>,
}

#[derive(Clone, Copy, PartialEq, Eq, Structural, Debug)]
pub enum MacroKind {
    Bang,
    Attr,
    Derive,
}

/// An ordered generic parameter list plus an ordered where-predicate list.
/// Their order is the authoritative print order: the engine never sorts.
pub struct Generics {
    pub params: Vec<GenericParamDef>,
    pub where_predicates: Vec<WherePredicate>,
}

pub struct GenericParamDef {
    pub name: String,
    pub kind: GenericParamDefKind,
}

pub enum GenericParamDefKind {
    Lifetime { outlives: Vec<String> },
    /// `synthetic` marks a compiler-synthesized parameter standing for an
    /// argument-position existential type; it is never printed.
    Type { bounds: Vec<GenericBound>, default: Option<Type>, synthetic: bool },
    Const { ty: Type, default: Option<String> },
}

pub enum WherePredicate {
    BoundPredicate { ty: Type, bounds: Vec<GenericBound>, generic_params: Vec<GenericParamDef> },
    LifetimePredicate { lifetime: String, outlives: Vec<String> },
    /// An equality constraint, modeled by the graph format as a pseudo-bound
    /// and printed with a colon.
    EqPredicate { lhs: Type, rhs: Term },
}

pub enum GenericBound {
    TraitBound { trait_path: Path, generic_params: Vec<GenericParamDef>, modifier: TraitBoundModifier },
    Outlives(String),
}

pub enum TraitBoundModifier {
    Plain,
    Maybe,
    MaybeConst,
}

/// Either side of an equality: a type or an opaque constant.
pub enum Term {
    Type(Type),
    Constant(Constant),
}

/// An opaque constant expression, carried through as text.
pub struct Constant {
    pub expr: String,
    pub value: Option<String>,
}

/// A named type with an id for cross-referencing and optional generic
/// arguments.
pub struct Path {
    pub name: String,
    pub id: ItemId,
    pub args: Option<Box<GenericArgs>>,
}

pub enum GenericArgs {
    AngleBracketed { args: Vec<GenericArg>, bindings: Vec<TypeBinding> },
    Parenthesized { inputs: Vec<Type>, output: Option<Type> },
}

pub enum GenericArg {
    Lifetime(String),
    Type(Type),
    Const(Constant),
    Infer,
}

/// An associated-item binding inside angle-bracketed generic arguments.
pub struct TypeBinding {
    pub name: String,
    pub binding: TypeBindingKind,
}

pub enum TypeBindingKind {
    Equality(Term),
    Constraint(Vec<GenericBound>),
}

pub struct PolyTrait {
    pub trait_path: Path,
    pub generic_params: Vec<GenericParamDef>,
}

pub struct DynTrait {
    pub traits: Vec<PolyTrait>,
    pub lifetime: Option<String>,
}

/// A recursive type expression. The tree is finite: named back-references go
/// through an id, which is an opaque leaf here.
pub enum Type {
    ResolvedPath(Path),
    DynTrait(DynTrait),
    /// A reference to a generic parameter, by name.
    Generic(String),
    Primitive(String),
    FunctionPointer(Box<FunctionPointer>),
    Tuple(Vec<Type>),
    Slice(Box<Type>),
    /// The length is carried as opaque text, never evaluated.
    Array { ty: Box<Type>, len: String },
    ImplTrait(Vec<GenericBound>),
    Infer,
    RawPointer { mutable: bool, ty: Box<Type> },
    BorrowedRef { lifetime: Option<String>, mutable: bool, ty: Box<Type> },
    QualifiedPath { name: String, args: Box<GenericArgs>, self_ty: Box<Type>, trait_path: Option<Path> },
}

pub struct FunctionPointer {
    pub decl: FnDecl,
    pub generic_params: Vec<GenericParamDef>,
    pub header: Header,
}

} // verus!
