//! The lowering engine, part two: whole items.
//!
//! Every item kind follows one shape: attributes, visibility, kind keyword,
//! name with its own id attached, generic parameter list, kind-specific body,
//! where-clause, terminator. Child references (fields, variants, members) are
//! resolved through the index; a reference that is missing or of the wrong
//! kind is a structural error for the whole item. For a field or variant
//! list, every reference is resolved before any child is lowered, so a
//! resolution error anywhere in the list takes precedence over a lowering
//! error in an earlier child.

use std::collections::HashMap;
use vstd::prelude::*;

use crate::model::{
    Enum, FnDecl, Function, Generics, Impl, Import, Item, ItemEnum, ItemKind, MacroKind, ProcMacro,
    Static, Struct, StructKind, Trait, TraitAlias, Type, TypeAlias, Union, Variant, VariantKind,
    WherePredicate, GenericParamDef, GenericParamDefKind, GenericBound,
};
use crate::pp::{
    attrs_toks, bounds_join, chars_of, header_toks, idv, inputs_join, kwv, nlv, params_join,
    params_join_range, path_toks, pctv, preds_join, push_sep, push_tabulated, sep_comma, sep_plus,
    sep_where, sep_toks, spv, str_eq_chars, tab_toks, tabv, type_toks, visibility_toks, with_attrs,
    with_bounds_join, with_header, with_inputs_join,
    with_params_join, with_params_join_range, with_path, with_preds_join, with_type,
    with_visibility, FromItemErrorKind, Sep, TokRes,
};
use crate::token::{tv, ItemId, Kw, Ponct, SpecialToken, Token, TokenV, Tokens};

verus! {

broadcast use crate::token::tv_push, crate::token::tv_add, crate::token::tv_len, crate::token::tv_index, vstd::std_specs::hash::group_hash_axioms;

/// What closes a where-clause: nothing, or a line break when a braced body
/// follows on its own line. No token ever follows the final predicate itself:
/// predicates are comma-and-newline-separated, with separators only between
/// them.
#[derive(Clone, Copy, PartialEq, Eq, Structural, Debug)]
pub enum WhereAfter {
    Nothing,
    NewLine,
}

pub open spec fn where_after_toks(a: WhereAfter) -> Seq<TokenV> {
    match a {
        WhereAfter::Nothing => seq![],
        WhereAfter::NewLine => seq![nlv()],
    }
}

/// Tokens of a where-clause: nothing when there is no predicate, else a line
/// break, the keyword, and one indented predicate per line.
pub open spec fn where_clause_toks(
    preds: Seq<WherePredicate>,
    sep: Seq<TokenV>,
    after: Seq<TokenV>,
) -> TokRes {
    if preds.len() == 0 {
        Result::Ok(seq![])
    } else {
        match preds_join(preds, 0, sep) {
            Result::Err(e) => Result::Err(e),
            Result::Ok(t) => Result::Ok(
                seq![nlv(), kwv(Kw::Where), nlv(), tabv()] + t + after,
            ),
        }
    }
}

/// Tokens of an angle-bracketed generic parameter list; nothing when empty.
pub open spec fn angle_params_toks(params: Seq<GenericParamDef>) -> TokRes {
    if params.len() == 0 {
        Result::Ok(seq![])
    } else {
        match params_join(params, 0, sep_comma()) {
            Result::Err(e) => Result::Err(e),
            Result::Ok(t) => Result::Ok(seq![pctv(Ponct::Lt)] + t + seq![pctv(Ponct::Gt)]),
        }
    }
}

/// A space and the item's name carrying its own id, when it has a name.
pub open spec fn opt_name_toks(item: Item) -> Seq<TokenV> {
    match item.name {
        Option::Some(n) => seq![spv(), idv(n@, Some(item.id))],
        Option::None => seq![],
    }
}

/// Resolves a child that must be a struct field.
pub open spec fn lookup_field(index: Map<ItemId, Item>, id: ItemId) -> Result<
    Item,
    FromItemErrorKind,
> {
    if !index.contains_key(id) {
        Result::Err(FromItemErrorKind::ChildrenNotFound(id))
    } else if index[id].inner is StructField {
        Result::Ok(index[id])
    } else {
        Result::Err(FromItemErrorKind::UnexpectedItemType(id, ItemKind::StructField))
    }
}

/// Resolves a child that must be an enum variant.
pub open spec fn lookup_variant(index: Map<ItemId, Item>, id: ItemId) -> Result<
    Item,
    FromItemErrorKind,
> {
    if !index.contains_key(id) {
        Result::Err(FromItemErrorKind::ChildrenNotFound(id))
    } else if index[id].inner is Variant {
        Result::Ok(index[id])
    } else {
        Result::Err(FromItemErrorKind::UnexpectedItemType(id, ItemKind::Variant))
    }
}

/// First resolution failure among field ids, if any.
pub open spec fn check_field_ids(index: Map<ItemId, Item>, ids: Seq<ItemId>, i: int) -> Result<
    (),
    FromItemErrorKind,
>
    decreases ids.len() - i,
{
    if i < 0 || i >= ids.len() {
        Result::Ok(())
    } else {
        match lookup_field(index, ids[i]) {
            Result::Err(e) => Result::Err(e),
            Result::Ok(_) => check_field_ids(index, ids, i + 1),
        }
    }
}

/// First resolution failure among optional field ids, if any.
pub open spec fn check_opt_field_ids(
    index: Map<ItemId, Item>,
    ids: Seq<Option<ItemId>>,
    i: int,
) -> Result<(), FromItemErrorKind>
    decreases ids.len() - i,
{
    if i < 0 || i >= ids.len() {
        Result::Ok(())
    } else {
        match ids[i] {
            Option::None => check_opt_field_ids(index, ids, i + 1),
            Option::Some(id) => match lookup_field(index, id) {
                Result::Err(e) => Result::Err(e),
                Result::Ok(_) => check_opt_field_ids(index, ids, i + 1),
            },
        }
    }
}

/// First resolution failure among variant ids, if any.
pub open spec fn check_variant_ids(index: Map<ItemId, Item>, ids: Seq<ItemId>, i: int) -> Result<
    (),
    FromItemErrorKind,
>
    decreases ids.len() - i,
{
    if i < 0 || i >= ids.len() {
        Result::Ok(())
    } else {
        match lookup_variant(index, ids[i]) {
            Result::Err(e) => Result::Err(e),
            Result::Ok(_) => check_variant_ids(index, ids, i + 1),
        }
    }
}

/// Tokens of one struct field: attributes, visibility, name when present,
/// and the field's type.
pub open spec fn struct_field_toks(item: Item, ty: Type) -> TokRes {
    match attrs_toks(item.attrs@) {
        Result::Err(e) => Result::Err(e),
        Result::Ok(at) => match type_toks(ty) {
            Result::Err(e) => Result::Err(e),
            Result::Ok(tt) => Result::Ok(
                at + visibility_toks(item.visibility) + (match item.name {
                    Option::Some(n) => seq![idv(n@, None), pctv(Ponct::Colon), spv()],
                    Option::None => seq![],
                }) + tt,
            ),
        },
    }
}

/// One line per named field: a line break, the field, a comma.
pub open spec fn record_field_lines(index: Map<ItemId, Item>, ids: Seq<ItemId>, i: int) -> TokRes
    decreases ids.len() - i,
{
    if i < 0 || i >= ids.len() {
        Result::Ok(seq![])
    } else {
        match lookup_field(index, ids[i]) {
            Result::Err(e) => Result::Err(e),
            Result::Ok(it) => match struct_field_toks(it, it.inner->StructField_0) {
                Result::Err(e) => Result::Err(e),
                Result::Ok(ft) => match record_field_lines(index, ids, i + 1) {
                    Result::Err(e) => Result::Err(e),
                    Result::Ok(rest) => Result::Ok(
                        seq![nlv()] + ft + seq![pctv(Ponct::Comma)] + rest,
                    ),
                },
            },
        }
    }
}

/// Tokens of a braced field list, hidden-field placeholders included. The
/// distinction between an all-hidden and a partly hidden list is kept: they
/// render differently.
pub open spec fn record_fields_body(
    index: Map<ItemId, Item>,
    ids: Seq<ItemId>,
    stripped: bool,
) -> TokRes {
    match check_field_ids(index, ids, 0) {
        Result::Err(e) => Result::Err(e),
        Result::Ok(_) => {
            if ids.len() > 0 {
                match record_field_lines(index, ids, 0) {
                    Result::Err(e) => Result::Err(e),
                    Result::Ok(lines) => {
                        let inner = lines + (if stripped {
                            seq![nlv(), TokenV::Special(SpecialToken::Hidden { all: false })]
                        } else {
                            seq![]
                        });
                        Result::Ok(
                            seq![pctv(Ponct::OpenBrace)] + tab_toks(inner) + seq![
                                nlv(),
                                pctv(Ponct::CloseBrace),
                            ],
                        )
                    },
                }
            } else if stripped {
                Result::Ok(
                    seq![
                        pctv(Ponct::OpenBrace),
                        spv(),
                        TokenV::Special(SpecialToken::Hidden { all: true }),
                        spv(),
                        pctv(Ponct::CloseBrace),
                    ],
                )
            } else {
                Result::Ok(seq![pctv(Ponct::OpenBrace), pctv(Ponct::CloseBrace)])
            }
        },
    }
}

/// Elements of a tuple struct body: visibility and type per present field, a
/// placeholder per stripped position, comma-space separated.
pub open spec fn struct_tuple_elems(
    index: Map<ItemId, Item>,
    ids: Seq<Option<ItemId>>,
    i: int,
) -> TokRes
    decreases ids.len() - i,
{
    if i < 0 || i >= ids.len() {
        Result::Ok(seq![])
    } else {
        let here: TokRes = match ids[i] {
            Option::None => Result::Ok(seq![pctv(Ponct::Underscore)]),
            Option::Some(id) => match lookup_field(index, id) {
                Result::Err(e) => Result::Err(e),
                Result::Ok(it) => match type_toks(it.inner->StructField_0) {
                    Result::Err(e) => Result::Err(e),
                    Result::Ok(tt) => Result::Ok(visibility_toks(it.visibility) + tt),
                },
            },
        };
        match here {
            Result::Err(e) => Result::Err(e),
            Result::Ok(h) => match struct_tuple_elems(index, ids, i + 1) {
                Result::Err(e) => Result::Err(e),
                Result::Ok(rest) => Result::Ok(
                    (if i > 0 {
                        sep_comma()
                    } else {
                        seq![]
                    }) + h + rest,
                ),
            },
        }
    }
}

/// Elements of a tuple variant body: the type per present field, a
/// placeholder per stripped position, comma-space separated.
pub open spec fn variant_tuple_elems(
    index: Map<ItemId, Item>,
    ids: Seq<Option<ItemId>>,
    i: int,
) -> TokRes
    decreases ids.len() - i,
{
    if i < 0 || i >= ids.len() {
        Result::Ok(seq![])
    } else {
        let here: TokRes = match ids[i] {
            Option::None => Result::Ok(seq![pctv(Ponct::Underscore)]),
            Option::Some(id) => match lookup_field(index, id) {
                Result::Err(e) => Result::Err(e),
                Result::Ok(it) => type_toks(it.inner->StructField_0),
            },
        };
        match here {
            Result::Err(e) => Result::Err(e),
            Result::Ok(h) => match variant_tuple_elems(index, ids, i + 1) {
                Result::Err(e) => Result::Err(e),
                Result::Ok(rest) => Result::Ok(
                    (if i > 0 {
                        sep_comma()
                    } else {
                        seq![]
                    }) + h + rest,
                ),
            },
        }
    }
}

/// Fields of a struct variant, comma-space separated.
pub open spec fn variant_struct_fields(index: Map<ItemId, Item>, ids: Seq<ItemId>, i: int) -> TokRes
    decreases ids.len() - i,
{
    if i < 0 || i >= ids.len() {
        Result::Ok(seq![])
    } else {
        match lookup_field(index, ids[i]) {
            Result::Err(e) => Result::Err(e),
            Result::Ok(it) => match struct_field_toks(it, it.inner->StructField_0) {
                Result::Err(e) => Result::Err(e),
                Result::Ok(ft) => match variant_struct_fields(index, ids, i + 1) {
                    Result::Err(e) => Result::Err(e),
                    Result::Ok(rest) => Result::Ok(
                        (if i > 0 {
                            sep_comma()
                        } else {
                            seq![]
                        }) + ft + rest,
                    ),
                },
            },
        }
    }
}

/// Tokens of one enum variant: name, then by kind nothing with an optional
/// discriminant, a tuple list, or an inline field list.
pub open spec fn variant_toks(item: Item, v: Variant, index: Map<ItemId, Item>) -> TokRes {
    match item.name {
        Option::None => Result::Err(FromItemErrorKind::MissingName(item.id)),
        Option::Some(n) => {
            let head = seq![idv(n@, None)];
            match v.kind {
                VariantKind::Plain => Result::Ok(
                    head + (match v.discriminant {
                        Option::Some(d) => seq![spv(), pctv(Ponct::Eq), spv(), idv(d.value@, None)],
                        Option::None => seq![],
                    }),
                ),
                VariantKind::Tuple(ids) => match check_opt_field_ids(index, ids@, 0) {
                    Result::Err(e) => Result::Err(e),
                    Result::Ok(_) => {
                        if ids@.len() == 0 {
                            Result::Ok(head)
                        } else {
                            match variant_tuple_elems(index, ids@, 0) {
                                Result::Err(e) => Result::Err(e),
                                Result::Ok(elems) => Result::Ok(
                                    head + seq![pctv(Ponct::OpenParen)] + elems + seq![
                                        pctv(Ponct::CloseParen),
                                    ],
                                ),
                            }
                        }
                    },
                },
                VariantKind::Struct { fields, fields_stripped } => match check_field_ids(
                    index,
                    fields@,
                    0,
                ) {
                    Result::Err(e) => Result::Err(e),
                    Result::Ok(_) => {
                        let open = head + seq![spv(), pctv(Ponct::OpenBrace), spv()];
                        if fields@.len() > 0 {
                            match variant_struct_fields(index, fields@, 0) {
                                Result::Err(e) => Result::Err(e),
                                Result::Ok(fs) => Result::Ok(
                                    open + fs + (if fields_stripped {
                                        seq![pctv(Ponct::Comma), spv(), pctv(Ponct::DotDotDot)]
                                    } else {
                                        seq![]
                                    }) + seq![spv(), pctv(Ponct::CloseBrace)],
                                ),
                            }
                        } else if fields_stripped {
                            Result::Ok(
                                open + seq![pctv(Ponct::Underscore), spv(), pctv(
                                    Ponct::CloseBrace,
                                )],
                            )
                        } else {
                            Result::Err(FromItemErrorKind::Unsupported)
                        }
                    },
                },
            }
        },
    }
}

/// One line per variant: a line break, the variant, a comma.
pub open spec fn variant_lines(index: Map<ItemId, Item>, ids: Seq<ItemId>, i: int) -> TokRes
    decreases ids.len() - i,
{
    if i < 0 || i >= ids.len() {
        Result::Ok(seq![])
    } else {
        match lookup_variant(index, ids[i]) {
            Result::Err(e) => Result::Err(e),
            Result::Ok(it) => match variant_toks(it, it.inner->Variant_0, index) {
                Result::Err(e) => Result::Err(e),
                Result::Ok(vt) => match variant_lines(index, ids, i + 1) {
                    Result::Err(e) => Result::Err(e),
                    Result::Ok(rest) => Result::Ok(
                        seq![nlv()] + vt + seq![pctv(Ponct::Comma)] + rest,
                    ),
                },
            },
        }
    }
}

/// The printed length of a function's generic parameter list: a trailing run
/// of argument-position existential type parameters, recognizable by their
/// reserved name prefix, is suppressed entirely.
pub open spec fn is_impl_param(p: GenericParamDef) -> bool {
    &&& p.kind is Type
    &&& p.name@.len() >= 4
    &&& p.name@.subrange(0, 4) == "impl"@
}

pub open spec fn without_impl_end(params: Seq<GenericParamDef>, j: int) -> int
    decreases j,
{
    if j <= 0 {
        0
    } else if is_impl_param(params[j - 1]) {
        without_impl_end(params, j - 1)
    } else {
        j
    }
}

/// Tokens of a function's parenthesized input list: inline for up to two
/// inputs, one indented line per input beyond that, and the variadic marker
/// when applicable.
pub open spec fn fn_inputs_toks(d: FnDecl) -> TokRes {
    let ins: TokRes = if d.inputs@.len() <= 2 {
        inputs_join(d.inputs@, 0, sep_comma())
    } else {
        match inputs_join(d.inputs@, 0, sep_where()) {
            Result::Err(e) => Result::Err(e),
            Result::Ok(t) => Result::Ok(seq![nlv(), tabv()] + t + seq![nlv()]),
        }
    };
    match ins {
        Result::Err(e) => Result::Err(e),
        Result::Ok(it) => {
            let vari: Seq<TokenV> = if d.c_variadic {
                (if d.inputs@.len() >= 1 {
                    sep_comma()
                } else {
                    seq![]
                }) + seq![kwv(Kw::DotDotDot)]
            } else {
                seq![]
            };
            Result::Ok(seq![pctv(Ponct::OpenParen)] + it + vari + seq![pctv(Ponct::CloseParen)])
        },
    }
}

/// A function's terminator: nothing in a signature-only listing, an
/// elided-body placeholder when a body exists, a semicolon otherwise.
pub open spec fn fn_term_toks(f: Function, standalone: bool) -> Seq<TokenV> {
    if standalone {
        seq![]
    } else if f.has_body {
        (if f.generics.where_predicates@.len() == 0 {
            seq![spv()]
        } else {
            seq![nlv()]
        }) + seq![
            pctv(Ponct::OpenBrace),
            spv(),
            TokenV::Special(SpecialToken::Ignored),
            spv(),
            pctv(Ponct::CloseBrace),
        ]
    } else {
        seq![pctv(Ponct::Semi)]
    }
}

/// Tokens of a function head: everything up to and including the return
/// type, before the where-clause and terminator.
pub open spec fn function_head_toks(item: Item, f: Function) -> TokRes {
    match attrs_toks(item.attrs@) {
        Result::Err(e) => Result::Err(e),
        Result::Ok(at) => {
            let end = without_impl_end(f.generics.params@, f.generics.params@.len() as int);
            let gens: TokRes = if end == 0 {
                Result::Ok(seq![])
            } else {
                match params_join_range(f.generics.params@, 0, 0, end, sep_comma()) {
                    Result::Err(e) => Result::Err(e),
                    Result::Ok(t) => Result::Ok(
                        seq![pctv(Ponct::Lt)] + t + seq![pctv(Ponct::Gt)],
                    ),
                }
            };
            match gens {
                Result::Err(e) => Result::Err(e),
                Result::Ok(gt) => match fn_inputs_toks(f.decl) {
                    Result::Err(e) => Result::Err(e),
                    Result::Ok(it) => {
                        let outp: TokRes = match f.decl.output {
                            Option::None => Result::Ok(seq![]),
                            Option::Some(o) => match type_toks(o) {
                                Result::Err(e) => Result::Err(e),
                                Result::Ok(ot) => Result::Ok(
                                    seq![spv(), pctv(Ponct::Minus), pctv(Ponct::Gt), spv()] + ot,
                                ),
                            },
                        };
                        match outp {
                            Result::Err(e) => Result::Err(e),
                            Result::Ok(ot) => Result::Ok(
                                at + visibility_toks(item.visibility) + header_toks(f.header)
                                    + seq![kwv(Kw::Fn)] + opt_name_toks(item) + gt + it + ot,
                            ),
                        }
                    },
                },
            }
        },
    }
}

/// Tokens of a function or method declaration. When `standalone` is false, a
/// terminator follows: a semicolon for a bodyless function, an elided-body
/// placeholder otherwise. The engine never reproduces function bodies.
pub open spec fn function_toks(item: Item, f: Function, standalone: bool) -> TokRes {
    match function_head_toks(item, f) {
        Result::Err(e) => Result::Err(e),
        Result::Ok(h) => match where_clause_toks(
            f.generics.where_predicates@,
            sep_where(),
            seq![],
        ) {
            Result::Err(e) => Result::Err(e),
            Result::Ok(wt) => Result::Ok(h + wt + fn_term_toks(f, standalone)),
        },
    }
}

/// Tokens of an associated constant: its type and optional default.
pub open spec fn assoc_const_toks(
    item: Item,
    ty: Type,
    default: Option<String>,
    standalone: bool,
) -> TokRes {
    match item.name {
        Option::None => Result::Err(FromItemErrorKind::MissingName(item.id)),
        Option::Some(n) => match type_toks(ty) {
            Result::Err(e) => Result::Err(e),
            Result::Ok(tt) => Result::Ok(
                seq![kwv(Kw::Const), spv(), idv(n@, Some(item.id)), pctv(Ponct::Colon), spv()] + tt
                    + (match default {
                    Option::Some(d) => seq![spv(), pctv(Ponct::Eq), spv(), idv(d@, None)],
                    Option::None => seq![],
                }) + (if standalone {
                    seq![]
                } else {
                    seq![pctv(Ponct::Semi)]
                }),
            ),
        },
    }
}

/// Tokens of an associated type: its generics, bounds, optional default, and
/// where-clause.
pub open spec fn assoc_type_toks(
    item: Item,
    generics: Generics,
    bounds: Seq<GenericBound>,
    default: Option<Type>,
    standalone: bool,
) -> TokRes {
    match item.name {
        Option::None => Result::Err(FromItemErrorKind::MissingName(item.id)),
        Option::Some(n) => match angle_params_toks(generics.params@) {
            Result::Err(e) => Result::Err(e),
            Result::Ok(gt) => {
                let bs: TokRes = if bounds.len() == 0 {
                    Result::Ok(seq![])
                } else {
                    match bounds_join(bounds, 0, sep_comma()) {
                        Result::Err(e) => Result::Err(e),
                        Result::Ok(t) => Result::Ok(seq![pctv(Ponct::Colon), spv()] + t),
                    }
                };
                match bs {
                    Result::Err(e) => Result::Err(e),
                    Result::Ok(bt) => {
                        let ds: TokRes = match default {
                            Option::None => Result::Ok(seq![]),
                            Option::Some(d) => match type_toks(d) {
                                Result::Err(e) => Result::Err(e),
                                Result::Ok(dt) => Result::Ok(
                                    seq![spv(), pctv(Ponct::Eq), spv()] + dt,
                                ),
                            },
                        };
                        match ds {
                            Result::Err(e) => Result::Err(e),
                            Result::Ok(dt) => match where_clause_toks(
                                generics.where_predicates@,
                                sep_where(),
                                seq![],
                            ) {
                                Result::Err(e) => Result::Err(e),
                                Result::Ok(wt) => Result::Ok(
                                    seq![kwv(Kw::Type), spv(), idv(n@, Some(item.id))] + gt + bt
                                        + dt + wt + (if standalone {
                                        seq![]
                                    } else {
                                        seq![pctv(Ponct::Semi)]
                                    }),
                                ),
                            },
                        }
                    },
                }
            },
        },
    }
}

/// Tokens of one trait member, by its resolved kind.
pub open spec fn trait_member_toks(index: Map<ItemId, Item>, id: ItemId) -> TokRes {
    if !index.contains_key(id) {
        Result::Err(FromItemErrorKind::ChildrenNotFound(id))
    } else {
        let it = index[id];
        match it.inner {
            ItemEnum::AssocConst { ty, default } => assoc_const_toks(it, ty, default, false),
            ItemEnum::AssocType { generics, bounds, default } => assoc_type_toks(
                it,
                generics,
                bounds@,
                default,
                false,
            ),
            ItemEnum::Function(f) => function_toks(it, f, false),
            _ => Result::Err(FromItemErrorKind::UnexpectedItemType(id, ItemKind::Trait)),
        }
    }
}

/// One region per trait member: a line break, the member, a line break.
pub open spec fn trait_member_lines(index: Map<ItemId, Item>, ids: Seq<ItemId>, i: int) -> TokRes
    decreases ids.len() - i,
{
    if i < 0 || i >= ids.len() {
        Result::Ok(seq![])
    } else {
        match trait_member_toks(index, ids[i]) {
            Result::Err(e) => Result::Err(e),
            Result::Ok(mt) => match trait_member_lines(index, ids, i + 1) {
                Result::Err(e) => Result::Err(e),
                Result::Ok(rest) => Result::Ok(seq![nlv()] + mt + seq![nlv()] + rest),
            },
        }
    }
}

/// The space that separates a head from its brace when no where-clause
/// intervened.
pub open spec fn brace_spacing(preds: Seq<WherePredicate>) -> Seq<TokenV> {
    if preds.len() == 0 {
        seq![spv()]
    } else {
        seq![]
    }
}

/// Index of the start of the last path separator at or before `j`, if any.
pub open spec fn last_path_sep(s: Seq<char>, j: int) -> Option<int>
    decreases j + 1,
{
    if j < 0 || j + 2 > s.len() {
        Option::None
    } else if s[j] == ':' && s[j + 1] == ':' {
        Option::Some(j)
    } else {
        last_path_sep(s, j - 1)
    }
}

/// The final component of an import source: what follows the last `::`, or
/// the whole source.
pub open spec fn import_tail(s: Seq<char>) -> Seq<char> {
    match last_path_sep(s, s.len() - 2) {
        Option::Some(j) => s.subrange(j + 2, s.len() as int),
        Option::None => s,
    }
}

/// Tokens of an import: the source path, and a rename when the visible name
/// differs from the source's final component.
pub open spec fn import_toks(item: Item, imp: Import) -> TokRes {
    match attrs_toks(item.attrs@) {
        Result::Err(e) => Result::Err(e),
        Result::Ok(at) => Result::Ok(
            at + visibility_toks(item.visibility) + seq![
                kwv(Kw::Use),
                spv(),
                idv(imp.source@, imp.id),
            ] + (if import_tail(imp.source@) != imp.name@ {
                seq![spv(), kwv(Kw::As), spv(), idv(imp.name@, None)]
            } else {
                seq![]
            }) + seq![pctv(Ponct::Semi)],
        ),
    }
}

/// Tokens of a union declaration.
pub open spec fn union_toks(item: Item, u: Union, index: Map<ItemId, Item>) -> TokRes {
    match attrs_toks(item.attrs@) {
        Result::Err(e) => Result::Err(e),
        Result::Ok(at) => match angle_params_toks(u.generics.params@) {
            Result::Err(e) => Result::Err(e),
            Result::Ok(gt) => match where_clause_toks(
                u.generics.where_predicates@,
                sep_where(),
                where_after_toks(WhereAfter::NewLine),
            ) {
                Result::Err(e) => Result::Err(e),
                Result::Ok(wt) => match record_fields_body(index, u.fields@, u.fields_stripped) {
                    Result::Err(e) => Result::Err(e),
                    Result::Ok(bt) => Result::Ok(
                        at + visibility_toks(item.visibility) + seq![kwv(Kw::Union)]
                            + opt_name_toks(item) + gt + wt + brace_spacing(
                            u.generics.where_predicates@,
                        ) + bt,
                    ),
                },
            },
        },
    }
}

/// Tokens of a struct declaration, in record, tuple or unit form.
pub open spec fn struct_toks(item: Item, s: Struct, index: Map<ItemId, Item>) -> TokRes {
    match attrs_toks(item.attrs@) {
        Result::Err(e) => Result::Err(e),
        Result::Ok(at) => match angle_params_toks(s.generics.params@) {
            Result::Err(e) => Result::Err(e),
            Result::Ok(gt) => match where_clause_toks(
                s.generics.where_predicates@,
                sep_where(),
                where_after_toks(WhereAfter::NewLine),
            ) {
                Result::Err(e) => Result::Err(e),
                Result::Ok(wt) => {
                    let head = at + visibility_toks(item.visibility) + seq![kwv(Kw::Struct)]
                        + opt_name_toks(item) + gt + wt;
                    match s.kind {
                        StructKind::Plain { fields, fields_stripped } => match record_fields_body(
                            index,
                            fields@,
                            fields_stripped,
                        ) {
                            Result::Err(e) => Result::Err(e),
                            Result::Ok(bt) => Result::Ok(
                                head + brace_spacing(s.generics.where_predicates@) + bt,
                            ),
                        },
                        StructKind::Tuple(ids) => match check_opt_field_ids(index, ids@, 0) {
                            Result::Err(e) => Result::Err(e),
                            Result::Ok(_) => match struct_tuple_elems(index, ids@, 0) {
                                Result::Err(e) => Result::Err(e),
                                Result::Ok(et) => Result::Ok(
                                    head + seq![pctv(Ponct::OpenParen)] + et + seq![
                                        pctv(Ponct::CloseParen),
                                        pctv(Ponct::Semi),
                                    ],
                                ),
                            },
                        },
                        StructKind::Unit => Result::Ok(head + seq![pctv(Ponct::Semi)]),
                    }
                },
            },
        },
    }
}

/// Tokens of an enum declaration with its variants.
pub open spec fn enum_toks(item: Item, en: Enum, index: Map<ItemId, Item>) -> TokRes {
    match attrs_toks(item.attrs@) {
        Result::Err(e) => Result::Err(e),
        Result::Ok(at) => match angle_params_toks(en.generics.params@) {
            Result::Err(e) => Result::Err(e),
            Result::Ok(gt) => match where_clause_toks(
                en.generics.where_predicates@,
                sep_where(),
                where_after_toks(WhereAfter::Nothing),
            ) {
                Result::Err(e) => Result::Err(e),
                Result::Ok(wt) => match check_variant_ids(index, en.variants@, 0) {
                    Result::Err(e) => Result::Err(e),
                    Result::Ok(_) => {
                        let head = at + visibility_toks(item.visibility) + seq![kwv(Kw::Enum)]
                            + opt_name_toks(item) + gt + wt + seq![spv(), pctv(Ponct::OpenBrace)];
                        if en.variants@.len() > 0 {
                            match variant_lines(index, en.variants@, 0) {
                                Result::Err(e) => Result::Err(e),
                                Result::Ok(lines) => {
                                    let inner = lines + (if en.variants_stripped {
                                        seq![
                                            nlv(),
                                            TokenV::Special(SpecialToken::Hidden { all: false }),
                                        ]
                                    } else {
                                        seq![]
                                    });
                                    Result::Ok(
                                        head + tab_toks(inner) + seq![
                                            nlv(),
                                            pctv(Ponct::CloseBrace),
                                        ],
                                    )
                                },
                            }
                        } else if en.variants_stripped {
                            Result::Ok(
                                head + seq![
                                    spv(),
                                    TokenV::Special(SpecialToken::Hidden { all: true }),
                                    spv(),
                                    pctv(Ponct::CloseBrace),
                                ],
                            )
                        } else {
                            Result::Ok(head + seq![pctv(Ponct::CloseBrace)])
                        }
                    },
                },
            },
        },
    }
}

/// Tokens of a trait head: through the supertrait bound list, before the
/// where-clause and body.
pub open spec fn trait_head_toks(item: Item, t: Trait) -> TokRes {
    match attrs_toks(item.attrs@) {
        Result::Err(e) => Result::Err(e),
        Result::Ok(at) => match angle_params_toks(t.generics.params@) {
            Result::Err(e) => Result::Err(e),
            Result::Ok(gt) => {
                let bs: TokRes = if t.bounds@.len() == 0 {
                    Result::Ok(seq![])
                } else {
                    match bounds_join(t.bounds@, 0, sep_plus()) {
                        Result::Err(e) => Result::Err(e),
                        Result::Ok(b) => Result::Ok(seq![pctv(Ponct::Colon), spv()] + b),
                    }
                };
                match bs {
                    Result::Err(e) => Result::Err(e),
                    Result::Ok(bt) => Result::Ok(
                        at + visibility_toks(item.visibility) + (if t.is_unsafe {
                            seq![kwv(Kw::Unsafe), spv()]
                        } else {
                            seq![]
                        }) + (if t.is_auto {
                            seq![kwv(Kw::Auto), spv()]
                        } else {
                            seq![]
                        }) + seq![kwv(Kw::Trait)] + opt_name_toks(item) + gt + bt,
                    ),
                }
            },
        },
    }
}

/// Tokens of a trait declaration with its member signatures.
pub open spec fn trait_toks(item: Item, t: Trait, index: Map<ItemId, Item>) -> TokRes {
    match trait_head_toks(item, t) {
        Result::Err(e) => Result::Err(e),
        Result::Ok(h) => match where_clause_toks(
            t.generics.where_predicates@,
            sep_where(),
            where_after_toks(WhereAfter::NewLine),
        ) {
            Result::Err(e) => Result::Err(e),
            Result::Ok(wt) => match trait_member_lines(index, t.items@, 0) {
                Result::Err(e) => Result::Err(e),
                Result::Ok(lines) => Result::Ok(
                    h + wt + brace_spacing(t.generics.where_predicates@) + seq![
                        pctv(Ponct::OpenBrace),
                    ] + tab_toks(lines) + seq![pctv(Ponct::CloseBrace)],
                ),
            },
        },
    }
}

/// Tokens of a trait alias.
pub open spec fn trait_alias_toks(item: Item, ta: TraitAlias) -> TokRes {
    match attrs_toks(item.attrs@) {
        Result::Err(e) => Result::Err(e),
        Result::Ok(at) => match angle_params_toks(ta.generics.params@) {
            Result::Err(e) => Result::Err(e),
            Result::Ok(gt) => match bounds_join(ta.params@, 0, sep_plus()) {
                Result::Err(e) => Result::Err(e),
                Result::Ok(bt) => match where_clause_toks(
                    ta.generics.where_predicates@,
                    sep_where(),
                    seq![],
                ) {
                    Result::Err(e) => Result::Err(e),
                    Result::Ok(wt) => Result::Ok(
                        at + visibility_toks(item.visibility) + seq![kwv(Kw::Trait)]
                            + opt_name_toks(item) + gt + seq![spv(), pctv(Ponct::Eq), spv()] + bt
                            + wt + seq![pctv(Ponct::Semi)],
                    ),
                },
            },
        },
    }
}

/// Tokens of an implementation-block head. No member is printed: a renderer
/// walks the members itself.
pub open spec fn impl_toks(item: Item, im: Impl) -> TokRes {
    match attrs_toks(item.attrs@) {
        Result::Err(e) => Result::Err(e),
        Result::Ok(at) => match angle_params_toks(im.generics.params@) {
            Result::Err(e) => Result::Err(e),
            Result::Ok(gt) => {
                let tr: TokRes = match im.trait_path {
                    Option::Some(p) => match path_toks(p) {
                        Result::Err(e) => Result::Err(e),
                        Result::Ok(pt) => Result::Ok(
                            (if im.negative {
                                seq![pctv(Ponct::Bang)]
                            } else {
                                seq![]
                            }) + pt + seq![spv(), kwv(Kw::For), spv()],
                        ),
                    },
                    Option::None => Result::Ok(seq![]),
                };
                match tr {
                    Result::Err(e) => Result::Err(e),
                    Result::Ok(tt) => {
                        let target: TokRes = match im.blanket_impl {
                            Option::Some(b) => type_toks(b),
                            Option::None => type_toks(im.for_ty),
                        };
                        match target {
                            Result::Err(e) => Result::Err(e),
                            Result::Ok(ft) => match where_clause_toks(
                                im.generics.where_predicates@,
                                sep_where(),
                                where_after_toks(WhereAfter::Nothing),
                            ) {
                                Result::Err(e) => Result::Err(e),
                                Result::Ok(wt) => Result::Ok(
                                    at + (if im.is_unsafe {
                                        seq![kwv(Kw::Unsafe), spv()]
                                    } else {
                                        seq![]
                                    }) + seq![kwv(Kw::Impl)] + gt + seq![spv()] + tt + ft + wt,
                                ),
                            },
                        }
                    },
                }
            },
        },
    }
}

/// Tokens of a type alias.
pub open spec fn typealias_toks(item: Item, ta: TypeAlias) -> TokRes {
    match item.name {
        Option::None => Result::Err(FromItemErrorKind::MissingName(item.id)),
        Option::Some(n) => match attrs_toks(item.attrs@) {
            Result::Err(e) => Result::Err(e),
            Result::Ok(at) => match angle_params_toks(ta.generics.params@) {
                Result::Err(e) => Result::Err(e),
                Result::Ok(gt) => match type_toks(ta.ty) {
                    Result::Err(e) => Result::Err(e),
                    Result::Ok(tt) => match where_clause_toks(
                        ta.generics.where_predicates@,
                        seq![pctv(Ponct::Comma), nlv(), spv()],
                        where_after_toks(WhereAfter::Nothing),
                    ) {
                        Result::Err(e) => Result::Err(e),
                        Result::Ok(wt) => Result::Ok(
                            at + visibility_toks(item.visibility) + seq![
                                kwv(Kw::Type),
                                spv(),
                                idv(n@, Some(item.id)),
                            ] + gt + seq![spv(), pctv(Ponct::Eq), spv()] + tt + wt + seq![
                                pctv(Ponct::Semi),
                            ],
                        ),
                    },
                },
            },
        },
    }
}

/// Tokens of a constant: type and opaque expression text.
pub open spec fn constant_toks(item: Item, ty: Type, value: crate::model::Constant) -> TokRes {
    match item.name {
        Option::None => Result::Err(FromItemErrorKind::MissingName(item.id)),
        Option::Some(n) => match attrs_toks(item.attrs@) {
            Result::Err(e) => Result::Err(e),
            Result::Ok(at) => match type_toks(ty) {
                Result::Err(e) => Result::Err(e),
                Result::Ok(tt) => Result::Ok(
                    at + visibility_toks(item.visibility) + seq![
                        kwv(Kw::Const),
                        spv(),
                        idv(n@, Some(item.id)),
                        pctv(Ponct::Colon),
                        spv(),
                    ] + tt + seq![spv(), pctv(Ponct::Eq), spv(), idv(value.expr@, None), pctv(
                        Ponct::Semi,
                    )],
                ),
            },
        },
    }
}

/// Tokens of a static: mutability, type and opaque expression text.
pub open spec fn static_toks(item: Item, st: Static) -> TokRes {
    match item.name {
        Option::None => Result::Err(FromItemErrorKind::MissingName(item.id)),
        Option::Some(n) => match attrs_toks(item.attrs@) {
            Result::Err(e) => Result::Err(e),
            Result::Ok(at) => match type_toks(st.ty) {
                Result::Err(e) => Result::Err(e),
                Result::Ok(tt) => Result::Ok(
                    at + visibility_toks(item.visibility) + seq![
                        kwv(Kw::Static),
                        spv(),
                        kwv(
                            if st.mutable {
                                Kw::Mut
                            } else {
                                Kw::Const
                            },
                        ),
                        spv(),
                        idv(n@, Some(item.id)),
                        pctv(Ponct::Colon),
                        spv(),
                    ] + tt + seq![spv(), pctv(Ponct::Eq), spv(), idv(st.expr@, None), pctv(
                        Ponct::Semi,
                    )],
                ),
            },
        },
    }
}

/// Tokens of a declarative macro: its attributes and its text, carried
/// through opaque.
pub open spec fn macro_toks(item: Item, text: Seq<char>) -> TokRes {
    match attrs_toks(item.attrs@) {
        Result::Err(e) => Result::Err(e),
        Result::Ok(at) => Result::Ok(at + seq![idv(text, None)]),
    }
}

/// Tokens of a procedural macro, in call, attribute or derive form.
pub open spec fn proc_macro_toks(item: Item, pm: ProcMacro) -> TokRes {
    match item.name {
        Option::None => Result::Err(FromItemErrorKind::MissingName(item.id)),
        Option::Some(n) => Result::Ok(
            match pm.kind {
                MacroKind::Bang => seq![
                    idv(n@, Some(item.id)),
                    pctv(Ponct::Bang),
                    pctv(Ponct::OpenParen),
                    pctv(Ponct::CloseParen),
                ],
                MacroKind::Attr => seq![
                    pctv(Ponct::Pound),
                    pctv(Ponct::OpenBracket),
                    idv(n@, Some(item.id)),
                    pctv(Ponct::CloseBracket),
                ],
                MacroKind::Derive => seq![
                    pctv(Ponct::Pound),
                    pctv(Ponct::OpenBracket),
                    idv("derive"@, None),
                    pctv(Ponct::OpenParen),
                    idv(n@, Some(item.id)),
                    pctv(Ponct::CloseParen),
                    pctv(Ponct::CloseBracket),
                ],
            },
        ),
    }
}

/// Tokens of one item's declaration, by its kind. Items that cannot stand
/// alone are invalid; deliberately deferred kinds are unsupported.
pub open spec fn item_toks(item: Item, index: Map<ItemId, Item>) -> TokRes {
    match item.inner {
        ItemEnum::Module(_) => Result::Err(FromItemErrorKind::InvalidItem),
        ItemEnum::ExternCrate { .. } => Result::Err(FromItemErrorKind::InvalidItem),
        ItemEnum::Import(imp) => import_toks(item, imp),
        ItemEnum::Union(u) => union_toks(item, u, index),
        ItemEnum::Struct(s) => struct_toks(item, s, index),
        ItemEnum::StructField(ty) => struct_field_toks(item, ty),
        ItemEnum::Enum(en) => enum_toks(item, en, index),
        ItemEnum::Variant(v) => variant_toks(item, v, index),
        ItemEnum::Function(f) => function_toks(item, f, false),
        ItemEnum::Trait(t) => trait_toks(item, t, index),
        ItemEnum::TraitAlias(ta) => trait_alias_toks(item, ta),
        ItemEnum::Impl(im) => impl_toks(item, im),
        ItemEnum::TypeAlias(ta) => typealias_toks(item, ta),
        ItemEnum::OpaqueTy => Result::Err(FromItemErrorKind::Unsupported),
        ItemEnum::Constant { ty, value } => constant_toks(item, ty, value),
        ItemEnum::Static(st) => static_toks(item, st),
        ItemEnum::ForeignType => Result::Err(FromItemErrorKind::Unsupported),
        ItemEnum::Macro(text) => macro_toks(item, text@),
        ItemEnum::ProcMacro(pm) => proc_macro_toks(item, pm),
        ItemEnum::Primitive(_) => Result::Err(FromItemErrorKind::Unsupported),
        ItemEnum::AssocConst { ty, default } => assoc_const_toks(item, ty, default, true),
        ItemEnum::AssocType { generics, bounds, default } => assoc_type_toks(
            item,
            generics,
            bounds@,
            default,
            true,
        ),
    }
}

/// Appends a where-clause.
#[verifier::loop_isolation(false)]
pub fn with_where_clause(
    out: &mut Vec<Token>,
    preds: &Vec<WherePredicate>,
    sep: Sep,
    after: WhereAfter,
) -> (r: Result<(), FromItemErrorKind>)
    ensures
        r is Ok <==> where_clause_toks(preds@, sep_toks(sep), where_after_toks(after)) is Ok,
        r is Ok ==> tv(final(out)@) == tv(old(out)@) + where_clause_toks(
            preds@,
            sep_toks(sep),
            where_after_toks(after),
        )->Ok_0,
        r is Err ==> r->Err_0 == where_clause_toks(
            preds@,
            sep_toks(sep),
            where_after_toks(after),
        )->Err_0,
{
    if preds.len() == 0 {
        proof {
            assert(tv(out@) =~= tv(old(out)@) + where_clause_toks(
                preds@,
                sep_toks(sep),
                where_after_toks(after),
            )->Ok_0);
        }
        return Result::Ok(());
    }
    out.push(Token::Special(SpecialToken::NewLine));
    out.push(Token::Kw(Kw::Where));
    out.push(Token::Special(SpecialToken::NewLine));
    out.push(Token::Special(SpecialToken::Tabulation));
    match with_preds_join(out, preds, sep) {
        Result::Ok(()) => {},
        Result::Err(e) => {
            return Result::Err(e);
        },
    }
    match after {
        WhereAfter::Nothing => {},
        WhereAfter::NewLine => {
            out.push(Token::Special(SpecialToken::NewLine));
        },
    }
    proof {
        assert(tv(out@) =~= tv(old(out)@) + where_clause_toks(
            preds@,
            sep_toks(sep),
            where_after_toks(after),
        )->Ok_0);
    }
    Result::Ok(())
}

/// Appends an angle-bracketed generic parameter list, nothing when empty.
#[verifier::loop_isolation(false)]
pub fn with_angle_params(out: &mut Vec<Token>, params: &Vec<GenericParamDef>) -> (r: Result<
    (),
    FromItemErrorKind,
>)
    ensures
        r is Ok <==> angle_params_toks(params@) is Ok,
        r is Ok ==> tv(final(out)@) == tv(old(out)@) + angle_params_toks(params@)->Ok_0,
        r is Err ==> r->Err_0 == angle_params_toks(params@)->Err_0,
{
    if params.len() == 0 {
        proof {
            assert(tv(out@) =~= tv(old(out)@) + angle_params_toks(params@)->Ok_0);
        }
        return Result::Ok(());
    }
    out.push(Token::Ponct(Ponct::Lt));
    match with_params_join(out, params, Sep::CommaSpace) {
        Result::Ok(()) => {},
        Result::Err(e) => {
            return Result::Err(e);
        },
    }
    out.push(Token::Ponct(Ponct::Gt));
    proof {
        assert(tv(out@) =~= tv(old(out)@) + angle_params_toks(params@)->Ok_0);
    }
    Result::Ok(())
}

/// Appends a space and the item's name when it has one.
#[verifier::loop_isolation(false)]
pub fn with_opt_name(out: &mut Vec<Token>, item: &Item)
    ensures
        tv(final(out)@) == tv(old(out)@) + opt_name_toks(*item),
{
    match &item.name {
        Option::Some(n) => {
            out.push(Token::Special(SpecialToken::Space));
            out.push(Token::Ident(n.clone(), Some(item.id)));
        },
        Option::None => {},
    }
    assert(tv(out@) =~= tv(old(out)@) + opt_name_toks(*item));
}

/// Resolves every field reference, returning the first failure.
#[verifier::loop_isolation(false)]
fn check_fields(index: &HashMap<ItemId, Item>, ids: &Vec<ItemId>) -> (r: Result<
    (),
    FromItemErrorKind,
>)
    ensures
        r is Ok <==> check_field_ids(index@, ids@, 0) is Ok,
        r is Err ==> r->Err_0 == check_field_ids(index@, ids@, 0)->Err_0,
{
    let mut i: usize = 0;
    while i < ids.len()
        invariant
            i <= ids@.len(),
            check_field_ids(index@, ids@, 0) is Ok <==> check_field_ids(index@, ids@, i as int) is Ok,
            check_field_ids(index@, ids@, i as int) is Err ==> check_field_ids(
                index@,
                ids@,
                i as int,
            )->Err_0 == check_field_ids(index@, ids@, 0)->Err_0,
        decreases ids@.len() - i,
    {
        let id = ids[i];
        match index.get(&id) {
            Option::Some(it) => {
                if !matches!(&it.inner, ItemEnum::StructField(_)) {
                    return Result::Err(FromItemErrorKind::UnexpectedItemType(
                        id,
                        ItemKind::StructField,
                    ));
                }
            },
            Option::None => {
                return Result::Err(FromItemErrorKind::ChildrenNotFound(id));
            },
        }
        i = i + 1;
    }
    Result::Ok(())
}

/// Resolves every optional field reference, returning the first failure.
#[verifier::loop_isolation(false)]
fn check_opt_fields(index: &HashMap<ItemId, Item>, ids: &Vec<Option<ItemId>>) -> (r: Result<
    (),
    FromItemErrorKind,
>)
    ensures
        r is Ok <==> check_opt_field_ids(index@, ids@, 0) is Ok,
        r is Err ==> r->Err_0 == check_opt_field_ids(index@, ids@, 0)->Err_0,
{
    let mut i: usize = 0;
    while i < ids.len()
        invariant
            i <= ids@.len(),
            check_opt_field_ids(index@, ids@, 0) is Ok <==> check_opt_field_ids(
                index@,
                ids@,
                i as int,
            ) is Ok,
            check_opt_field_ids(index@, ids@, i as int) is Err ==> check_opt_field_ids(
                index@,
                ids@,
                i as int,
            )->Err_0 == check_opt_field_ids(index@, ids@, 0)->Err_0,
        decreases ids@.len() - i,
    {
        match &ids[i] {
            Option::Some(id) => {
                match index.get(id) {
                    Option::Some(it) => {
                        if !matches!(&it.inner, ItemEnum::StructField(_)) {
                            return Result::Err(FromItemErrorKind::UnexpectedItemType(
                                *id,
                                ItemKind::StructField,
                            ));
                        }
                    },
                    Option::None => {
                        return Result::Err(FromItemErrorKind::ChildrenNotFound(*id));
                    },
                }
            },
            Option::None => {},
        }
        i = i + 1;
    }
    Result::Ok(())
}

/// Resolves every variant reference, returning the first failure.
#[verifier::loop_isolation(false)]
fn check_variants(index: &HashMap<ItemId, Item>, ids: &Vec<ItemId>) -> (r: Result<
    (),
    FromItemErrorKind,
>)
    ensures
        r is Ok <==> check_variant_ids(index@, ids@, 0) is Ok,
        r is Err ==> r->Err_0 == check_variant_ids(index@, ids@, 0)->Err_0,
{
    let mut i: usize = 0;
    while i < ids.len()
        invariant
            i <= ids@.len(),
            check_variant_ids(index@, ids@, 0) is Ok <==> check_variant_ids(
                index@,
                ids@,
                i as int,
            ) is Ok,
            check_variant_ids(index@, ids@, i as int) is Err ==> check_variant_ids(
                index@,
                ids@,
                i as int,
            )->Err_0 == check_variant_ids(index@, ids@, 0)->Err_0,
        decreases ids@.len() - i,
    {
        let id = ids[i];
        match index.get(&id) {
            Option::Some(it) => {
                if !matches!(&it.inner, ItemEnum::Variant(_)) {
                    return Result::Err(FromItemErrorKind::UnexpectedItemType(
                        id,
                        ItemKind::Variant,
                    ));
                }
            },
            Option::None => {
                return Result::Err(FromItemErrorKind::ChildrenNotFound(id));
            },
        }
        i = i + 1;
    }
    Result::Ok(())
}

/// Appends one struct field.
#[verifier::loop_isolation(false)]
pub fn with_struct_field(out: &mut Vec<Token>, it: &Item, ty: &Type) -> (r: Result<
    (),
    FromItemErrorKind,
>)
    ensures
        r is Ok <==> struct_field_toks(*it, *ty) is Ok,
        r is Ok ==> tv(final(out)@) == tv(old(out)@) + struct_field_toks(*it, *ty)->Ok_0,
        r is Err ==> r->Err_0 == struct_field_toks(*it, *ty)->Err_0,
{
    match with_attrs(out, &it.attrs) {
        Result::Ok(()) => {},
        Result::Err(e) => {
            return Result::Err(e);
        },
    }
    with_visibility(out, &it.visibility);
    match &it.name {
        Option::Some(n) => {
            out.push(Token::Ident(n.clone(), None));
            out.push(Token::Ponct(Ponct::Colon));
            out.push(Token::Special(SpecialToken::Space));
        },
        Option::None => {},
    }
    match with_type(out, ty) {
        Result::Ok(()) => {},
        Result::Err(e) => {
            return Result::Err(e);
        },
    }
    proof {
        assert(tv(out@) =~= tv(old(out)@) + struct_field_toks(*it, *ty)->Ok_0);
    }
    Result::Ok(())
}

/// Appends a braced field list, indentation and hidden-field placeholders
/// included.
#[verifier::loop_isolation(false)]
#[verifier::rlimit(100)]
fn with_record_fields_body(
    out: &mut Vec<Token>,
    index: &HashMap<ItemId, Item>,
    ids: &Vec<ItemId>,
    stripped: bool,
) -> (r: Result<(), FromItemErrorKind>)
    ensures
        r is Ok <==> record_fields_body(index@, ids@, stripped) is Ok,
        r is Ok ==> tv(final(out)@) == tv(old(out)@) + record_fields_body(
            index@,
            ids@,
            stripped,
        )->Ok_0,
        r is Err ==> r->Err_0 == record_fields_body(index@, ids@, stripped)->Err_0,
{
    match check_fields(index, ids) {
        Result::Ok(()) => {},
        Result::Err(e) => {
            return Result::Err(e);
        },
    }
    if ids.len() > 0 {
        let mut inner: Vec<Token> = Vec::new();
        let mut i: usize = 0;
        proof {
            crate::token::tv_empty();
        }
        while i < ids.len()
            invariant
                i <= ids@.len(),
                check_field_ids(index@, ids@, i as int) is Ok,
                record_field_lines(index@, ids@, 0) is Ok <==> record_field_lines(
                    index@,
                    ids@,
                    i as int,
                ) is Ok,
                record_field_lines(index@, ids@, i as int) is Err ==> record_field_lines(
                    index@,
                    ids@,
                    i as int,
                )->Err_0 == record_field_lines(index@, ids@, 0)->Err_0,
                record_field_lines(index@, ids@, i as int) is Ok ==> tv(inner@)
                    + record_field_lines(index@, ids@, i as int)->Ok_0 == record_field_lines(
                    index@,
                    ids@,
                    0,
                )->Ok_0,
            decreases ids@.len() - i,
        {
            let id = ids[i];
            inner.push(Token::Special(SpecialToken::NewLine));
            match index.get(&id) {
                Option::Some(it) => {
                    match &it.inner {
                        ItemEnum::StructField(ty) => {
                            match with_struct_field(&mut inner, it, ty) {
                                Result::Ok(()) => {},
                                Result::Err(e) => {
                                    return Result::Err(e);
                                },
                            }
                        },
                        _ => {
                            proof {
                                assert(false);
                            }
                        },
                    }
                },
                Option::None => {
                    proof {
                        assert(false);
                    }
                },
            }
            inner.push(Token::Ponct(Ponct::Comma));
            i = i + 1;
        }
        proof {
            assert(record_field_lines(index@, ids@, ids@.len() as int) is Ok);
            assert(record_field_lines(index@, ids@, ids@.len() as int)->Ok_0 =~= Seq::<
                TokenV,
            >::empty());
            assert(tv(inner@) =~= record_field_lines(index@, ids@, 0)->Ok_0);
        }
        if stripped {
            inner.push(Token::Special(SpecialToken::NewLine));
            inner.push(Token::Special(SpecialToken::Hidden { all: false }));
        }
        proof {
            assert(tv(inner@) =~= record_field_lines(index@, ids@, 0)->Ok_0 + (if stripped {
                seq![nlv(), TokenV::Special(SpecialToken::Hidden { all: false })]
            } else {
                seq![]
            }));
        }
        out.push(Token::Ponct(Ponct::OpenBrace));
        push_tabulated(out, &inner);
        out.push(Token::Special(SpecialToken::NewLine));
        out.push(Token::Ponct(Ponct::CloseBrace));
        proof {
            assert(tv(out@) =~= tv(old(out)@) + record_fields_body(index@, ids@, stripped)->Ok_0);
        }
    } else if stripped {
        out.push(Token::Ponct(Ponct::OpenBrace));
        out.push(Token::Special(SpecialToken::Space));
        out.push(Token::Special(SpecialToken::Hidden { all: true }));
        out.push(Token::Special(SpecialToken::Space));
        out.push(Token::Ponct(Ponct::CloseBrace));
        proof {
            assert(tv(out@) =~= tv(old(out)@) + record_fields_body(index@, ids@, stripped)->Ok_0);
        }
    } else {
        out.push(Token::Ponct(Ponct::OpenBrace));
        out.push(Token::Ponct(Ponct::CloseBrace));
        proof {
            assert(tv(out@) =~= tv(old(out)@) + record_fields_body(index@, ids@, stripped)->Ok_0);
        }
    }
    Result::Ok(())
}

/// Appends one enum variant.
#[verifier::loop_isolation(false)]
#[verifier::rlimit(100)]
pub fn with_enum_variant(
    out: &mut Vec<Token>,
    index: &HashMap<ItemId, Item>,
    it: &Item,
    v: &Variant,
) -> (r: Result<(), FromItemErrorKind>)
    ensures
        r is Ok <==> variant_toks(*it, *v, index@) is Ok,
        r is Ok ==> tv(final(out)@) == tv(old(out)@) + variant_toks(*it, *v, index@)->Ok_0,
        r is Err ==> r->Err_0 == variant_toks(*it, *v, index@)->Err_0,
{
    let n = match &it.name {
        Option::Some(n) => n,
        Option::None => {
            return Result::Err(FromItemErrorKind::MissingName(it.id));
        },
    };
    out.push(Token::Ident(n.clone(), None));
    match &v.kind {
        VariantKind::Plain => {
            match &v.discriminant {
                Option::Some(d) => {
                    out.push(Token::Special(SpecialToken::Space));
                    out.push(Token::Ponct(Ponct::Eq));
                    out.push(Token::Special(SpecialToken::Space));
                    out.push(Token::Ident(d.value.clone(), None));
                },
                Option::None => {},
            }
            proof {
                assert(tv(out@) =~= tv(old(out)@) + variant_toks(*it, *v, index@)->Ok_0);
            }
            Result::Ok(())
        },
        VariantKind::Tuple(ids) => {
            match check_opt_fields(index, ids) {
                Result::Ok(()) => {},
                Result::Err(e) => {
                    return Result::Err(e);
                },
            }
            if ids.len() > 0 {
                out.push(Token::Ponct(Ponct::OpenParen));
                let mut i: usize = 0;
                while i < ids.len()
                    invariant
                        i <= ids@.len(),
                        check_opt_field_ids(index@, ids@, i as int) is Ok,
                        variant_tuple_elems(index@, ids@, 0) is Ok <==> variant_tuple_elems(
                            index@,
                            ids@,
                            i as int,
                        ) is Ok,
                        variant_tuple_elems(index@, ids@, i as int) is Err
                            ==> variant_tuple_elems(index@, ids@, i as int)->Err_0
                            == variant_tuple_elems(index@, ids@, 0)->Err_0,
                        variant_tuple_elems(index@, ids@, i as int) is Ok ==> tv(out@)
                            + variant_tuple_elems(index@, ids@, i as int)->Ok_0 == tv(old(out)@)
                            + variant_toks(*it, *v, index@)->Ok_0.drop_last(),
                    decreases ids@.len() - i,
                {
                    if i > 0 {
                        push_sep(out, Sep::CommaSpace);
                    }
                    match &ids[i] {
                        Option::Some(id) => {
                            match index.get(id) {
                                Option::Some(fit) => {
                                    match &fit.inner {
                                        ItemEnum::StructField(ty) => {
                                            match with_type(out, ty) {
                                                Result::Ok(()) => {},
                                                Result::Err(e) => {
                                                    return Result::Err(e);
                                                },
                                            }
                                        },
                                        _ => {
                                            proof {
                                                assert(false);
                                            }
                                        },
                                    }
                                },
                                Option::None => {
                                    proof {
                                        assert(false);
                                    }
                                },
                            }
                        },
                        Option::None => {
                            out.push(Token::Ponct(Ponct::Underscore));
                        },
                    }
                    i = i + 1;
                }
                out.push(Token::Ponct(Ponct::CloseParen));
            }
            proof {
                assert(tv(out@) =~= tv(old(out)@) + variant_toks(*it, *v, index@)->Ok_0);
            }
            Result::Ok(())
        },
        VariantKind::Struct { fields, fields_stripped } => {
            match check_fields(index, fields) {
                Result::Ok(()) => {},
                Result::Err(e) => {
                    return Result::Err(e);
                },
            }
            out.push(Token::Special(SpecialToken::Space));
            out.push(Token::Ponct(Ponct::OpenBrace));
            out.push(Token::Special(SpecialToken::Space));
            if fields.len() > 0 {
                let mut i: usize = 0;
                while i < fields.len()
                    invariant
                        i <= fields@.len(),
                        check_field_ids(index@, fields@, i as int) is Ok,
                        variant_struct_fields(index@, fields@, 0) is Ok
                            <==> variant_struct_fields(index@, fields@, i as int) is Ok,
                        variant_struct_fields(index@, fields@, i as int) is Err
                            ==> variant_struct_fields(index@, fields@, i as int)->Err_0
                            == variant_struct_fields(index@, fields@, 0)->Err_0,
                        variant_struct_fields(index@, fields@, i as int) is Ok ==> tv(out@)
                            + variant_struct_fields(index@, fields@, i as int)->Ok_0 == tv(
                            old(out)@,
                        ) + seq![idv(it.name->Some_0@, None), spv(), pctv(Ponct::OpenBrace), spv()]
                            + variant_struct_fields(index@, fields@, 0)->Ok_0,
                    decreases fields@.len() - i,
                {
                    if i > 0 {
                        push_sep(out, Sep::CommaSpace);
                    }
                    let id = fields[i];
                    match index.get(&id) {
                        Option::Some(fit) => {
                            match &fit.inner {
                                ItemEnum::StructField(ty) => {
                                    match with_struct_field(out, fit, ty) {
                                        Result::Ok(()) => {},
                                        Result::Err(e) => {
                                            return Result::Err(e);
                                        },
                                    }
                                },
                                _ => {
                                    proof {
                                        assert(false);
                                    }
                                },
                            }
                        },
                        Option::None => {
                            proof {
                                assert(false);
                            }
                        },
                    }
                    i = i + 1;
                }
                if *fields_stripped {
                    out.push(Token::Ponct(Ponct::Comma));
                    out.push(Token::Special(SpecialToken::Space));
                    out.push(Token::Ponct(Ponct::DotDotDot));
                }
            } else if *fields_stripped {
                out.push(Token::Ponct(Ponct::Underscore));
            } else {
                return Result::Err(FromItemErrorKind::Unsupported);
            }
            out.push(Token::Special(SpecialToken::Space));
            out.push(Token::Ponct(Ponct::CloseBrace));
            proof {
                assert(tv(out@) =~= tv(old(out)@) + variant_toks(*it, *v, index@)->Ok_0);
            }
            Result::Ok(())
        },
    }
}

/// Whether a parameter is a compiler-synthesized argument-position type
/// parameter, by its reserved name prefix.
fn is_impl_param_exec(p: &GenericParamDef) -> (r: bool)
    ensures
        r == is_impl_param(*p),
{
    if !matches!(&p.kind, GenericParamDefKind::Type { .. }) {
        return false;
    }
    let s = p.name.as_str();
    let n = s.unicode_len();
    if n < 4 {
        return false;
    }
    let r = s.get_char(0) == 'i' && s.get_char(1) == 'm' && s.get_char(2) == 'p' && s.get_char(3)
        == 'l';
    proof {
        reveal_strlit("impl");
        if r {
            assert(p.name@.subrange(0, 4) =~= "impl"@);
        } else {
            assert(p.name@.subrange(0, 4) != "impl"@) by {
                if p.name@.subrange(0, 4) == "impl"@ {
                    assert(p.name@.subrange(0, 4)[0] == 'i');
                    assert(p.name@.subrange(0, 4)[1] == 'm');
                    assert(p.name@.subrange(0, 4)[2] == 'p');
                    assert(p.name@.subrange(0, 4)[3] == 'l');
                }
            }
        }
    }
    r
}

/// The printed length of a function's generic parameter list.
#[verifier::loop_isolation(false)]
fn without_impl_len(params: &Vec<GenericParamDef>) -> (r: usize)
    ensures
        r as int == without_impl_end(params@, params@.len() as int),
        r <= params@.len(),
{
    let mut end: usize = 0;
    let mut i: usize = 0;
    while i < params.len()
        invariant
            i <= params@.len(),
            end as int == without_impl_end(params@, i as int),
            end <= i,
        decreases params@.len() - i,
    {
        if !is_impl_param_exec(&params[i]) {
            end = i + 1;
        }
        i = i + 1;
    }
    end
}

/// Appends a function's parenthesized input list.
#[verifier::loop_isolation(false)]
#[verifier::rlimit(100)]
fn with_fn_inputs(out: &mut Vec<Token>, d: &FnDecl) -> (r: Result<(), FromItemErrorKind>)
    ensures
        r is Ok <==> fn_inputs_toks(*d) is Ok,
        r is Ok ==> tv(final(out)@) == tv(old(out)@) + fn_inputs_toks(*d)->Ok_0,
        r is Err ==> r->Err_0 == fn_inputs_toks(*d)->Err_0,
{
    out.push(Token::Ponct(Ponct::OpenParen));
    if d.inputs.len() <= 2 {
        match with_inputs_join(out, &d.inputs, Sep::CommaSpace) {
            Result::Ok(()) => {},
            Result::Err(e) => {
                return Result::Err(e);
            },
        }
    } else {
        out.push(Token::Special(SpecialToken::NewLine));
        out.push(Token::Special(SpecialToken::Tabulation));
        match with_inputs_join(out, &d.inputs, Sep::WhereNl) {
            Result::Ok(()) => {},
            Result::Err(e) => {
                return Result::Err(e);
            },
        }
        out.push(Token::Special(SpecialToken::NewLine));
    }
    if d.c_variadic {
        if d.inputs.len() >= 1 {
            out.push(Token::Ponct(Ponct::Comma));
            out.push(Token::Special(SpecialToken::Space));
        }
        out.push(Token::Kw(Kw::DotDotDot));
    }
    out.push(Token::Ponct(Ponct::CloseParen));
    proof {
        assert(tv(out@) =~= tv(old(out)@) + fn_inputs_toks(*d)->Ok_0);
    }
    Result::Ok(())
}

/// Appends a function's terminator.
fn with_fn_term(out: &mut Vec<Token>, f: &Function, standalone: bool)
    ensures
        tv(final(out)@) == tv(old(out)@) + fn_term_toks(*f, standalone),
{
    if !standalone {
        if f.has_body {
            if f.generics.where_predicates.len() == 0 {
                out.push(Token::Special(SpecialToken::Space));
            } else {
                out.push(Token::Special(SpecialToken::NewLine));
            }
            out.push(Token::Ponct(Ponct::OpenBrace));
            out.push(Token::Special(SpecialToken::Space));
            out.push(Token::Special(SpecialToken::Ignored));
            out.push(Token::Special(SpecialToken::Space));
            out.push(Token::Ponct(Ponct::CloseBrace));
        } else {
            out.push(Token::Ponct(Ponct::Semi));
        }
    }
    assert(tv(out@) =~= tv(old(out)@) + fn_term_toks(*f, standalone));
}

/// Appends a function head, through the return type.
#[verifier::loop_isolation(false)]
#[verifier::rlimit(100)]
fn with_function_head(out: &mut Vec<Token>, item: &Item, f: &Function) -> (r: Result<
    (),
    FromItemErrorKind,
>)
    ensures
        r is Ok <==> function_head_toks(*item, *f) is Ok,
        r is Ok ==> tv(final(out)@) == tv(old(out)@) + function_head_toks(*item, *f)->Ok_0,
        r is Err ==> r->Err_0 == function_head_toks(*item, *f)->Err_0,
{
    match with_attrs(out, &item.attrs) {
        Result::Ok(()) => {},
        Result::Err(e) => {
            return Result::Err(e);
        },
    }
    with_visibility(out, &item.visibility);
    with_header(out, &f.header);
    out.push(Token::Kw(Kw::Fn));
    with_opt_name(out, item);
    let ghost a1 = tv(old(out)@) + attrs_toks(item.attrs@)->Ok_0 + visibility_toks(
        item.visibility,
    ) + header_toks(f.header) + seq![kwv(Kw::Fn)] + opt_name_toks(*item);
    proof {
        assert(tv(out@) =~= a1);
    }
    let end = without_impl_len(&f.generics.params);
    if end > 0 {
        out.push(Token::Ponct(Ponct::Lt));
        match with_params_join_range(out, &f.generics.params, 0, end, Sep::CommaSpace) {
            Result::Ok(()) => {},
            Result::Err(e) => {
                return Result::Err(e);
            },
        }
        out.push(Token::Ponct(Ponct::Gt));
    }
    let ghost a2 = a1 + (if without_impl_end(f.generics.params@, f.generics.params@.len() as int)
        == 0 {
        seq![]
    } else {
        seq![pctv(Ponct::Lt)] + params_join_range(
            f.generics.params@,
            0,
            0,
            without_impl_end(f.generics.params@, f.generics.params@.len() as int),
            sep_comma(),
        )->Ok_0 + seq![pctv(Ponct::Gt)]
    });
    proof {
        assert(tv(out@) =~= a2);
    }
    match with_fn_inputs(out, &f.decl) {
        Result::Ok(()) => {},
        Result::Err(e) => {
            return Result::Err(e);
        },
    }
    match &f.decl.output {
        Option::Some(o) => {
            out.push(Token::Special(SpecialToken::Space));
            out.push(Token::Ponct(Ponct::Minus));
            out.push(Token::Ponct(Ponct::Gt));
            out.push(Token::Special(SpecialToken::Space));
            match with_type(out, o) {
                Result::Ok(()) => {},
                Result::Err(e) => {
                    return Result::Err(e);
                },
            }
        },
        Option::None => {},
    }
    proof {
        assert(tv(out@) =~= tv(old(out)@) + function_head_toks(*item, *f)->Ok_0);
    }
    Result::Ok(())
}

/// Appends a function or method declaration.
#[verifier::loop_isolation(false)]
#[verifier::rlimit(100)]
pub fn with_function(out: &mut Vec<Token>, item: &Item, f: &Function, standalone: bool) -> (r:
    Result<(), FromItemErrorKind>)
    ensures
        r is Ok <==> function_toks(*item, *f, standalone) is Ok,
        r is Ok ==> tv(final(out)@) == tv(old(out)@) + function_toks(*item, *f, standalone)->Ok_0,
        r is Err ==> r->Err_0 == function_toks(*item, *f, standalone)->Err_0,
{
    match with_function_head(out, item, f) {
        Result::Ok(()) => {},
        Result::Err(e) => {
            return Result::Err(e);
        },
    }
    match with_where_clause(out, &f.generics.where_predicates, Sep::WhereNl, WhereAfter::Nothing) {
        Result::Ok(()) => {},
        Result::Err(e) => {
            return Result::Err(e);
        },
    }
    with_fn_term(out, f, standalone);
    proof {
        assert(tv(out@) =~= tv(old(out)@) + function_toks(*item, *f, standalone)->Ok_0);
    }
    Result::Ok(())
}

/// Appends an associated constant.
#[verifier::loop_isolation(false)]
pub fn with_assoc_const(
    out: &mut Vec<Token>,
    item: &Item,
    ty: &Type,
    default: &Option<String>,
    standalone: bool,
) -> (r: Result<(), FromItemErrorKind>)
    ensures
        r is Ok <==> assoc_const_toks(*item, *ty, *default, standalone) is Ok,
        r is Ok ==> tv(final(out)@) == tv(old(out)@) + assoc_const_toks(
            *item,
            *ty,
            *default,
            standalone,
        )->Ok_0,
        r is Err ==> r->Err_0 == assoc_const_toks(*item, *ty, *default, standalone)->Err_0,
{
    let n = match &item.name {
        Option::Some(n) => n,
        Option::None => {
            return Result::Err(FromItemErrorKind::MissingName(item.id));
        },
    };
    out.push(Token::Kw(Kw::Const));
    out.push(Token::Special(SpecialToken::Space));
    out.push(Token::Ident(n.clone(), Some(item.id)));
    out.push(Token::Ponct(Ponct::Colon));
    out.push(Token::Special(SpecialToken::Space));
    match with_type(out, ty) {
        Result::Ok(()) => {},
        Result::Err(e) => {
            return Result::Err(e);
        },
    }
    match default {
        Option::Some(d) => {
            out.push(Token::Special(SpecialToken::Space));
            out.push(Token::Ponct(Ponct::Eq));
            out.push(Token::Special(SpecialToken::Space));
            out.push(Token::Ident(d.clone(), None));
        },
        Option::None => {},
    }
    if !standalone {
        out.push(Token::Ponct(Ponct::Semi));
    }
    proof {
        assert(tv(out@) =~= tv(old(out)@) + assoc_const_toks(*item, *ty, *default, standalone)->Ok_0);
    }
    Result::Ok(())
}

/// Appends an associated type.
#[verifier::loop_isolation(false)]
#[verifier::rlimit(100)]
pub fn with_assoc_type(
    out: &mut Vec<Token>,
    item: &Item,
    generics: &Generics,
    bounds: &Vec<GenericBound>,
    default: &Option<Type>,
    standalone: bool,
) -> (r: Result<(), FromItemErrorKind>)
    ensures
        r is Ok <==> assoc_type_toks(*item, *generics, bounds@, *default, standalone) is Ok,
        r is Ok ==> tv(final(out)@) == tv(old(out)@) + assoc_type_toks(
            *item,
            *generics,
            bounds@,
            *default,
            standalone,
        )->Ok_0,
        r is Err ==> r->Err_0 == assoc_type_toks(
            *item,
            *generics,
            bounds@,
            *default,
            standalone,
        )->Err_0,
{
    let n = match &item.name {
        Option::Some(n) => n,
        Option::None => {
            return Result::Err(FromItemErrorKind::MissingName(item.id));
        },
    };
    out.push(Token::Kw(Kw::Type));
    out.push(Token::Special(SpecialToken::Space));
    out.push(Token::Ident(n.clone(), Some(item.id)));
    match with_angle_params(out, &generics.params) {
        Result::Ok(()) => {},
        Result::Err(e) => {
            return Result::Err(e);
        },
    }
    if bounds.len() > 0 {
        out.push(Token::Ponct(Ponct::Colon));
        out.push(Token::Special(SpecialToken::Space));
        match with_bounds_join(out, bounds, Sep::CommaSpace) {
            Result::Ok(()) => {},
            Result::Err(e) => {
                return Result::Err(e);
            },
        }
    }
    match default {
        Option::Some(d) => {
            out.push(Token::Special(SpecialToken::Space));
            out.push(Token::Ponct(Ponct::Eq));
            out.push(Token::Special(SpecialToken::Space));
            match with_type(out, d) {
                Result::Ok(()) => {},
                Result::Err(e) => {
                    return Result::Err(e);
                },
            }
        },
        Option::None => {},
    }
    match with_where_clause(out, &generics.where_predicates, Sep::WhereNl, WhereAfter::Nothing) {
        Result::Ok(()) => {},
        Result::Err(e) => {
            return Result::Err(e);
        },
    }
    if !standalone {
        out.push(Token::Ponct(Ponct::Semi));
    }
    proof {
        assert(tv(out@) =~= tv(old(out)@) + assoc_type_toks(
            *item,
            *generics,
            bounds@,
            *default,
            standalone,
        )->Ok_0);
    }
    Result::Ok(())
}

/// Whether the visible name of an import differs from the final component of
/// its source path.
#[verifier::loop_isolation(false)]
fn import_name_differs(source: &String, name: &String) -> (r: bool)
    ensures
        r == (import_tail(source@) != name@),
{
    let chars = chars_of(source.as_str());
    let n = chars.len();
    if n >= 2 {
        let mut j: usize = n - 1;
        while j > 0
            invariant
                j <= n - 1,
                n == chars@.len(),
                last_path_sep(chars@, n - 2) == last_path_sep(chars@, j - 1),
            decreases j,
        {
            if chars[j - 1] == ':' && chars[j] == ':' {
                let differs = !str_eq_chars(name.as_str(), &chars, j + 1, n);
                proof {
                    assert(last_path_sep(chars@, n - 2) == Option::Some(j - 1));
                    assert(import_tail(source@) =~= chars@.subrange(j + 1, n as int));
                }
                return differs;
            }
            j = j - 1;
        }
        proof {
            assert(last_path_sep(chars@, n - 2) is None);
        }
    }
    let differs = !str_eq_chars(name.as_str(), &chars, 0, n);
    proof {
        assert(chars@.subrange(0, n as int) =~= source@);
        assert(import_tail(source@) == source@);
    }
    differs
}

/// Appends an import declaration.
#[verifier::loop_isolation(false)]
#[verifier::rlimit(100)]
fn item_import(out: &mut Vec<Token>, item: &Item, imp: &Import) -> (r: Result<
    (),
    FromItemErrorKind,
>)
    ensures
        r is Ok <==> import_toks(*item, *imp) is Ok,
        r is Ok ==> tv(final(out)@) == tv(old(out)@) + import_toks(*item, *imp)->Ok_0,
        r is Err ==> r->Err_0 == import_toks(*item, *imp)->Err_0,
{
    match with_attrs(out, &item.attrs) {
        Result::Ok(()) => {},
        Result::Err(e) => {
            return Result::Err(e);
        },
    }
    with_visibility(out, &item.visibility);
    out.push(Token::Kw(Kw::Use));
    out.push(Token::Special(SpecialToken::Space));
    out.push(Token::Ident(imp.source.clone(), imp.id));
    if import_name_differs(&imp.source, &imp.name) {
        out.push(Token::Special(SpecialToken::Space));
        out.push(Token::Kw(Kw::As));
        out.push(Token::Special(SpecialToken::Space));
        out.push(Token::Ident(imp.name.clone(), None));
    }
    out.push(Token::Ponct(Ponct::Semi));
    proof {
        assert(tv(out@) =~= tv(old(out)@) + import_toks(*item, *imp)->Ok_0);
    }
    Result::Ok(())
}

/// Appends a union declaration.
#[verifier::loop_isolation(false)]
#[verifier::rlimit(100)]
fn item_union(out: &mut Vec<Token>, item: &Item, u: &Union, index: &HashMap<ItemId, Item>) -> (r:
    Result<(), FromItemErrorKind>)
    ensures
        r is Ok <==> union_toks(*item, *u, index@) is Ok,
        r is Ok ==> tv(final(out)@) == tv(old(out)@) + union_toks(*item, *u, index@)->Ok_0,
        r is Err ==> r->Err_0 == union_toks(*item, *u, index@)->Err_0,
{
    match with_attrs(out, &item.attrs) {
        Result::Ok(()) => {},
        Result::Err(e) => {
            return Result::Err(e);
        },
    }
    with_visibility(out, &item.visibility);
    out.push(Token::Kw(Kw::Union));
    with_opt_name(out, item);
    match with_angle_params(out, &u.generics.params) {
        Result::Ok(()) => {},
        Result::Err(e) => {
            return Result::Err(e);
        },
    }
    match with_where_clause(out, &u.generics.where_predicates, Sep::WhereNl, WhereAfter::NewLine) {
        Result::Ok(()) => {},
        Result::Err(e) => {
            return Result::Err(e);
        },
    }
    if u.generics.where_predicates.len() == 0 {
        out.push(Token::Special(SpecialToken::Space));
    }
    match with_record_fields_body(out, index, &u.fields, u.fields_stripped) {
        Result::Ok(()) => {},
        Result::Err(e) => {
            return Result::Err(e);
        },
    }
    proof {
        assert(tv(out@) =~= tv(old(out)@) + union_toks(*item, *u, index@)->Ok_0);
    }
    Result::Ok(())
}

/// Appends a struct declaration.
#[verifier::loop_isolation(false)]
#[verifier::rlimit(100)]
fn item_struct(
    out: &mut Vec<Token>,
    item: &Item,
    st: &Struct,
    index: &HashMap<ItemId, Item>,
) -> (r: Result<(), FromItemErrorKind>)
    ensures
        r is Ok <==> struct_toks(*item, *st, index@) is Ok,
        r is Ok ==> tv(final(out)@) == tv(old(out)@) + struct_toks(*item, *st, index@)->Ok_0,
        r is Err ==> r->Err_0 == struct_toks(*item, *st, index@)->Err_0,
{
    match with_attrs(out, &item.attrs) {
        Result::Ok(()) => {},
        Result::Err(e) => {
            return Result::Err(e);
        },
    }
    with_visibility(out, &item.visibility);
    out.push(Token::Kw(Kw::Struct));
    with_opt_name(out, item);
    match with_angle_params(out, &st.generics.params) {
        Result::Ok(()) => {},
        Result::Err(e) => {
            return Result::Err(e);
        },
    }
    match with_where_clause(out, &st.generics.where_predicates, Sep::WhereNl, WhereAfter::NewLine) {
        Result::Ok(()) => {},
        Result::Err(e) => {
            return Result::Err(e);
        },
    }
    match &st.kind {
        StructKind::Plain { fields, fields_stripped } => {
            if st.generics.where_predicates.len() == 0 {
                out.push(Token::Special(SpecialToken::Space));
            }
            match with_record_fields_body(out, index, fields, *fields_stripped) {
                Result::Ok(()) => {},
                Result::Err(e) => {
                    return Result::Err(e);
                },
            }
        },
        StructKind::Tuple(ids) => {
            match check_opt_fields(index, ids) {
                Result::Ok(()) => {},
                Result::Err(e) => {
                    return Result::Err(e);
                },
            }
            out.push(Token::Ponct(Ponct::OpenParen));
            let ghost head = tv(out@);
            let mut i: usize = 0;
            while i < ids.len()
                invariant
                    i <= ids@.len(),
                    check_opt_field_ids(index@, ids@, i as int) is Ok,
                    struct_tuple_elems(index@, ids@, 0) is Ok <==> struct_tuple_elems(
                        index@,
                        ids@,
                        i as int,
                    ) is Ok,
                    struct_tuple_elems(index@, ids@, i as int) is Err ==> struct_tuple_elems(
                        index@,
                        ids@,
                        i as int,
                    )->Err_0 == struct_tuple_elems(index@, ids@, 0)->Err_0,
                    struct_tuple_elems(index@, ids@, i as int) is Ok ==> tv(out@)
                        + struct_tuple_elems(index@, ids@, i as int)->Ok_0 == head
                        + struct_tuple_elems(index@, ids@, 0)->Ok_0,
                decreases ids@.len() - i,
            {
                if i > 0 {
                    push_sep(out, Sep::CommaSpace);
                }
                match &ids[i] {
                    Option::Some(id) => {
                        match index.get(id) {
                            Option::Some(fit) => {
                                match &fit.inner {
                                    ItemEnum::StructField(ty) => {
                                        with_visibility(out, &fit.visibility);
                                        match with_type(out, ty) {
                                            Result::Ok(()) => {},
                                            Result::Err(e) => {
                                                return Result::Err(e);
                                            },
                                        }
                                    },
                                    _ => {
                                        proof {
                                            assert(false);
                                        }
                                    },
                                }
                            },
                            Option::None => {
                                proof {
                                    assert(false);
                                }
                            },
                        }
                    },
                    Option::None => {
                        out.push(Token::Ponct(Ponct::Underscore));
                    },
                }
                i = i + 1;
            }
            out.push(Token::Ponct(Ponct::CloseParen));
            out.push(Token::Ponct(Ponct::Semi));
        },
        StructKind::Unit => {
            out.push(Token::Ponct(Ponct::Semi));
        },
    }
    proof {
        assert(tv(out@) =~= tv(old(out)@) + struct_toks(*item, *st, index@)->Ok_0);
    }
    Result::Ok(())
}

/// Appends an enum declaration.
#[verifier::loop_isolation(false)]
#[verifier::rlimit(100)]
fn item_enum(out: &mut Vec<Token>, item: &Item, en: &Enum, index: &HashMap<ItemId, Item>) -> (r:
    Result<(), FromItemErrorKind>)
    ensures
        r is Ok <==> enum_toks(*item, *en, index@) is Ok,
        r is Ok ==> tv(final(out)@) == tv(old(out)@) + enum_toks(*item, *en, index@)->Ok_0,
        r is Err ==> r->Err_0 == enum_toks(*item, *en, index@)->Err_0,
{
    match with_attrs(out, &item.attrs) {
        Result::Ok(()) => {},
        Result::Err(e) => {
            return Result::Err(e);
        },
    }
    with_visibility(out, &item.visibility);
    out.push(Token::Kw(Kw::Enum));
    with_opt_name(out, item);
    match with_angle_params(out, &en.generics.params) {
        Result::Ok(()) => {},
        Result::Err(e) => {
            return Result::Err(e);
        },
    }
    match with_where_clause(out, &en.generics.where_predicates, Sep::WhereNl, WhereAfter::Nothing) {
        Result::Ok(()) => {},
        Result::Err(e) => {
            return Result::Err(e);
        },
    }
    match check_variants(index, &en.variants) {
        Result::Ok(()) => {},
        Result::Err(e) => {
            return Result::Err(e);
        },
    }
    out.push(Token::Special(SpecialToken::Space));
    out.push(Token::Ponct(Ponct::OpenBrace));
    if en.variants.len() > 0 {
        let mut inner: Vec<Token> = Vec::new();
        let mut i: usize = 0;
        proof {
            crate::token::tv_empty();
        }
        while i < en.variants.len()
            invariant
                i <= en.variants@.len(),
                check_variant_ids(index@, en.variants@, i as int) is Ok,
                variant_lines(index@, en.variants@, 0) is Ok <==> variant_lines(
                    index@,
                    en.variants@,
                    i as int,
                ) is Ok,
                variant_lines(index@, en.variants@, i as int) is Err ==> variant_lines(
                    index@,
                    en.variants@,
                    i as int,
                )->Err_0 == variant_lines(index@, en.variants@, 0)->Err_0,
                variant_lines(index@, en.variants@, i as int) is Ok ==> tv(inner@)
                    + variant_lines(index@, en.variants@, i as int)->Ok_0 == variant_lines(
                    index@,
                    en.variants@,
                    0,
                )->Ok_0,
            decreases en.variants@.len() - i,
        {
            let id = en.variants[i];
            inner.push(Token::Special(SpecialToken::NewLine));
            match index.get(&id) {
                Option::Some(vit) => {
                    match &vit.inner {
                        ItemEnum::Variant(v) => {
                            match with_enum_variant(&mut inner, index, vit, v) {
                                Result::Ok(()) => {},
                                Result::Err(e) => {
                                    return Result::Err(e);
                                },
                            }
                        },
                        _ => {
                            proof {
                                assert(false);
                            }
                        },
                    }
                },
                Option::None => {
                    proof {
                        assert(false);
                    }
                },
            }
            inner.push(Token::Ponct(Ponct::Comma));
            i = i + 1;
        }
        proof {
            assert(variant_lines(index@, en.variants@, en.variants@.len() as int) is Ok);
            assert(variant_lines(index@, en.variants@, en.variants@.len() as int)->Ok_0 =~= Seq::<
                TokenV,
            >::empty());
            assert(tv(inner@) =~= variant_lines(index@, en.variants@, 0)->Ok_0);
        }
        if en.variants_stripped {
            inner.push(Token::Special(SpecialToken::NewLine));
            inner.push(Token::Special(SpecialToken::Hidden { all: false }));
        }
        proof {
            assert(tv(inner@) =~= variant_lines(index@, en.variants@, 0)->Ok_0 + (
            if en.variants_stripped {
                seq![nlv(), TokenV::Special(SpecialToken::Hidden { all: false })]
            } else {
                seq![]
            }));
        }
        push_tabulated(out, &inner);
        out.push(Token::Special(SpecialToken::NewLine));
        out.push(Token::Ponct(Ponct::CloseBrace));
    } else if en.variants_stripped {
        out.push(Token::Special(SpecialToken::Space));
        out.push(Token::Special(SpecialToken::Hidden { all: true }));
        out.push(Token::Special(SpecialToken::Space));
        out.push(Token::Ponct(Ponct::CloseBrace));
    } else {
        out.push(Token::Ponct(Ponct::CloseBrace));
    }
    proof {
        assert(tv(out@) =~= tv(old(out)@) + enum_toks(*item, *en, index@)->Ok_0);
    }
    Result::Ok(())
}

/// Appends a trait's member signatures, one indented region per member.
#[verifier::loop_isolation(false)]
#[verifier::rlimit(100)]
fn with_trait_members(out: &mut Vec<Token>, index: &HashMap<ItemId, Item>, ids: &Vec<ItemId>) -> (r:
    Result<(), FromItemErrorKind>)
    ensures
        r is Ok <==> trait_member_lines(index@, ids@, 0) is Ok,
        r is Ok ==> tv(final(out)@) == tv(old(out)@) + tab_toks(
            trait_member_lines(index@, ids@, 0)->Ok_0,
        ),
        r is Err ==> r->Err_0 == trait_member_lines(index@, ids@, 0)->Err_0,
{
    let mut inner: Vec<Token> = Vec::new();
    let mut i: usize = 0;
    proof {
        crate::token::tv_empty();
    }
    while i < ids.len()
        invariant
            i <= ids@.len(),
            trait_member_lines(index@, ids@, 0) is Ok <==> trait_member_lines(
                index@,
                ids@,
                i as int,
            ) is Ok,
            trait_member_lines(index@, ids@, i as int) is Err ==> trait_member_lines(
                index@,
                ids@,
                i as int,
            )->Err_0 == trait_member_lines(index@, ids@, 0)->Err_0,
            trait_member_lines(index@, ids@, i as int) is Ok ==> tv(inner@)
                + trait_member_lines(index@, ids@, i as int)->Ok_0 == trait_member_lines(
                index@,
                ids@,
                0,
            )->Ok_0,
        decreases ids@.len() - i,
    {
        let id = ids[i];
        inner.push(Token::Special(SpecialToken::NewLine));
        match index.get(&id) {
            Option::Some(mit) => {
                match &mit.inner {
                    ItemEnum::AssocConst { ty, default } => {
                        match with_assoc_const(&mut inner, mit, ty, default, false) {
                            Result::Ok(()) => {},
                            Result::Err(e) => {
                                return Result::Err(e);
                            },
                        }
                    },
                    ItemEnum::AssocType { generics, bounds, default } => {
                        match with_assoc_type(&mut inner, mit, generics, bounds, default, false) {
                            Result::Ok(()) => {},
                            Result::Err(e) => {
                                return Result::Err(e);
                            },
                        }
                    },
                    ItemEnum::Function(f) => {
                        match with_function(&mut inner, mit, f, false) {
                            Result::Ok(()) => {},
                            Result::Err(e) => {
                                return Result::Err(e);
                            },
                        }
                    },
                    _ => {
                        return Result::Err(FromItemErrorKind::UnexpectedItemType(
                            id,
                            ItemKind::Trait,
                        ));
                    },
                }
            },
            Option::None => {
                return Result::Err(FromItemErrorKind::ChildrenNotFound(id));
            },
        }
        inner.push(Token::Special(SpecialToken::NewLine));
        i = i + 1;
    }
    proof {
        assert(trait_member_lines(index@, ids@, ids@.len() as int) is Ok);
        assert(trait_member_lines(index@, ids@, ids@.len() as int)->Ok_0 =~= Seq::<
            TokenV,
        >::empty());
        assert(tv(inner@) =~= trait_member_lines(index@, ids@, 0)->Ok_0);
    }
    push_tabulated(out, &inner);
    Result::Ok(())
}

/// Appends a trait head, through the supertrait bounds.
#[verifier::loop_isolation(false)]
#[verifier::rlimit(100)]
fn item_trait_head(out: &mut Vec<Token>, item: &Item, t: &Trait) -> (r: Result<
    (),
    FromItemErrorKind,
>)
    ensures
        r is Ok <==> trait_head_toks(*item, *t) is Ok,
        r is Ok ==> tv(final(out)@) == tv(old(out)@) + trait_head_toks(*item, *t)->Ok_0,
        r is Err ==> r->Err_0 == trait_head_toks(*item, *t)->Err_0,
{
    match with_attrs(out, &item.attrs) {
        Result::Ok(()) => {},
        Result::Err(e) => {
            return Result::Err(e);
        },
    }
    with_visibility(out, &item.visibility);
    if t.is_unsafe {
        out.push(Token::Kw(Kw::Unsafe));
        out.push(Token::Special(SpecialToken::Space));
    }
    if t.is_auto {
        out.push(Token::Kw(Kw::Auto));
        out.push(Token::Special(SpecialToken::Space));
    }
    out.push(Token::Kw(Kw::Trait));
    with_opt_name(out, item);
    match with_angle_params(out, &t.generics.params) {
        Result::Ok(()) => {},
        Result::Err(e) => {
            return Result::Err(e);
        },
    }
    if t.bounds.len() > 0 {
        out.push(Token::Ponct(Ponct::Colon));
        out.push(Token::Special(SpecialToken::Space));
        match with_bounds_join(out, &t.bounds, Sep::Plus) {
            Result::Ok(()) => {},
            Result::Err(e) => {
                return Result::Err(e);
            },
        }
    }
    proof {
        assert(tv(out@) =~= tv(old(out)@) + trait_head_toks(*item, *t)->Ok_0);
    }
    Result::Ok(())
}

/// Appends a trait declaration with its member signatures.
#[verifier::loop_isolation(false)]
#[verifier::rlimit(100)]
fn item_trait(out: &mut Vec<Token>, item: &Item, t: &Trait, index: &HashMap<ItemId, Item>) -> (r:
    Result<(), FromItemErrorKind>)
    ensures
        r is Ok <==> trait_toks(*item, *t, index@) is Ok,
        r is Ok ==> tv(final(out)@) == tv(old(out)@) + trait_toks(*item, *t, index@)->Ok_0,
        r is Err ==> r->Err_0 == trait_toks(*item, *t, index@)->Err_0,
{
    match item_trait_head(out, item, t) {
        Result::Ok(()) => {},
        Result::Err(e) => {
            return Result::Err(e);
        },
    }
    match with_where_clause(out, &t.generics.where_predicates, Sep::WhereNl, WhereAfter::NewLine) {
        Result::Ok(()) => {},
        Result::Err(e) => {
            return Result::Err(e);
        },
    }
    if t.generics.where_predicates.len() == 0 {
        out.push(Token::Special(SpecialToken::Space));
    }
    out.push(Token::Ponct(Ponct::OpenBrace));
    match with_trait_members(out, index, &t.items) {
        Result::Ok(()) => {},
        Result::Err(e) => {
            return Result::Err(e);
        },
    }
    out.push(Token::Ponct(Ponct::CloseBrace));
    proof {
        assert(tv(out@) =~= tv(old(out)@) + trait_toks(*item, *t, index@)->Ok_0);
    }
    Result::Ok(())
}

/// Appends a trait alias.
#[verifier::loop_isolation(false)]
#[verifier::rlimit(100)]
fn item_trait_alias(out: &mut Vec<Token>, item: &Item, ta: &TraitAlias) -> (r: Result<
    (),
    FromItemErrorKind,
>)
    ensures
        r is Ok <==> trait_alias_toks(*item, *ta) is Ok,
        r is Ok ==> tv(final(out)@) == tv(old(out)@) + trait_alias_toks(*item, *ta)->Ok_0,
        r is Err ==> r->Err_0 == trait_alias_toks(*item, *ta)->Err_0,
{
    match with_attrs(out, &item.attrs) {
        Result::Ok(()) => {},
        Result::Err(e) => {
            return Result::Err(e);
        },
    }
    with_visibility(out, &item.visibility);
    out.push(Token::Kw(Kw::Trait));
    with_opt_name(out, item);
    match with_angle_params(out, &ta.generics.params) {
        Result::Ok(()) => {},
        Result::Err(e) => {
            return Result::Err(e);
        },
    }
    out.push(Token::Special(SpecialToken::Space));
    out.push(Token::Ponct(Ponct::Eq));
    out.push(Token::Special(SpecialToken::Space));
    match with_bounds_join(out, &ta.params, Sep::Plus) {
        Result::Ok(()) => {},
        Result::Err(e) => {
            return Result::Err(e);
        },
    }
    match with_where_clause(out, &ta.generics.where_predicates, Sep::WhereNl, WhereAfter::Nothing) {
        Result::Ok(()) => {},
        Result::Err(e) => {
            return Result::Err(e);
        },
    }
    out.push(Token::Ponct(Ponct::Semi));
    proof {
        assert(tv(out@) =~= tv(old(out)@) + trait_alias_toks(*item, *ta)->Ok_0);
    }
    Result::Ok(())
}

/// Appends an implementation-block head.
#[verifier::loop_isolation(false)]
#[verifier::rlimit(100)]
fn item_impl(out: &mut Vec<Token>, item: &Item, im: &Impl) -> (r: Result<(), FromItemErrorKind>)
    ensures
        r is Ok <==> impl_toks(*item, *im) is Ok,
        r is Ok ==> tv(final(out)@) == tv(old(out)@) + impl_toks(*item, *im)->Ok_0,
        r is Err ==> r->Err_0 == impl_toks(*item, *im)->Err_0,
{
    match with_attrs(out, &item.attrs) {
        Result::Ok(()) => {},
        Result::Err(e) => {
            return Result::Err(e);
        },
    }
    if im.is_unsafe {
        out.push(Token::Kw(Kw::Unsafe));
        out.push(Token::Special(SpecialToken::Space));
    }
    out.push(Token::Kw(Kw::Impl));
    match with_angle_params(out, &im.generics.params) {
        Result::Ok(()) => {},
        Result::Err(e) => {
            return Result::Err(e);
        },
    }
    out.push(Token::Special(SpecialToken::Space));
    match &im.trait_path {
        Option::Some(p) => {
            if im.negative {
                out.push(Token::Ponct(Ponct::Bang));
            }
            match with_path(out, p) {
                Result::Ok(()) => {},
                Result::Err(e) => {
                    return Result::Err(e);
                },
            }
            out.push(Token::Special(SpecialToken::Space));
            out.push(Token::Kw(Kw::For));
            out.push(Token::Special(SpecialToken::Space));
        },
        Option::None => {},
    }
    let target_r = match &im.blanket_impl {
        Option::Some(b) => with_type(out, b),
        Option::None => with_type(out, &im.for_ty),
    };
    match target_r {
        Result::Ok(()) => {},
        Result::Err(e) => {
            return Result::Err(e);
        },
    }
    match with_where_clause(out, &im.generics.where_predicates, Sep::WhereNl, WhereAfter::Nothing) {
        Result::Ok(()) => {},
        Result::Err(e) => {
            return Result::Err(e);
        },
    }
    proof {
        assert(tv(out@) =~= tv(old(out)@) + impl_toks(*item, *im)->Ok_0);
    }
    Result::Ok(())
}

/// Appends a type alias.
#[verifier::loop_isolation(false)]
#[verifier::rlimit(100)]
fn item_typealias(out: &mut Vec<Token>, item: &Item, ta: &TypeAlias) -> (r: Result<
    (),
    FromItemErrorKind,
>)
    ensures
        r is Ok <==> typealias_toks(*item, *ta) is Ok,
        r is Ok ==> tv(final(out)@) == tv(old(out)@) + typealias_toks(*item, *ta)->Ok_0,
        r is Err ==> r->Err_0 == typealias_toks(*item, *ta)->Err_0,
{
    let n = match &item.name {
        Option::Some(n) => n,
        Option::None => {
            return Result::Err(FromItemErrorKind::MissingName(item.id));
        },
    };
    match with_attrs(out, &item.attrs) {
        Result::Ok(()) => {},
        Result::Err(e) => {
            return Result::Err(e);
        },
    }
    with_visibility(out, &item.visibility);
    out.push(Token::Kw(Kw::Type));
    out.push(Token::Special(SpecialToken::Space));
    out.push(Token::Ident(n.clone(), Some(item.id)));
    match with_angle_params(out, &ta.generics.params) {
        Result::Ok(()) => {},
        Result::Err(e) => {
            return Result::Err(e);
        },
    }
    out.push(Token::Special(SpecialToken::Space));
    out.push(Token::Ponct(Ponct::Eq));
    out.push(Token::Special(SpecialToken::Space));
    match with_type(out, &ta.ty) {
        Result::Ok(()) => {},
        Result::Err(e) => {
            return Result::Err(e);
        },
    }
    match with_where_clause(out, &ta.generics.where_predicates, Sep::WhereNlSpace, WhereAfter::Nothing) {
        Result::Ok(()) => {},
        Result::Err(e) => {
            return Result::Err(e);
        },
    }
    out.push(Token::Ponct(Ponct::Semi));
    proof {
        assert(tv(out@) =~= tv(old(out)@) + typealias_toks(*item, *ta)->Ok_0);
    }
    Result::Ok(())
}

/// Appends a constant declaration.
#[verifier::loop_isolation(false)]
#[verifier::rlimit(100)]
fn item_constant(
    out: &mut Vec<Token>,
    item: &Item,
    ty: &Type,
    value: &crate::model::Constant,
) -> (r: Result<(), FromItemErrorKind>)
    ensures
        r is Ok <==> constant_toks(*item, *ty, *value) is Ok,
        r is Ok ==> tv(final(out)@) == tv(old(out)@) + constant_toks(*item, *ty, *value)->Ok_0,
        r is Err ==> r->Err_0 == constant_toks(*item, *ty, *value)->Err_0,
{
    let n = match &item.name {
        Option::Some(n) => n,
        Option::None => {
            return Result::Err(FromItemErrorKind::MissingName(item.id));
        },
    };
    match with_attrs(out, &item.attrs) {
        Result::Ok(()) => {},
        Result::Err(e) => {
            return Result::Err(e);
        },
    }
    with_visibility(out, &item.visibility);
    out.push(Token::Kw(Kw::Const));
    out.push(Token::Special(SpecialToken::Space));
    out.push(Token::Ident(n.clone(), Some(item.id)));
    out.push(Token::Ponct(Ponct::Colon));
    out.push(Token::Special(SpecialToken::Space));
    match with_type(out, ty) {
        Result::Ok(()) => {},
        Result::Err(e) => {
            return Result::Err(e);
        },
    }
    out.push(Token::Special(SpecialToken::Space));
    out.push(Token::Ponct(Ponct::Eq));
    out.push(Token::Special(SpecialToken::Space));
    out.push(Token::Ident(value.expr.clone(), None));
    out.push(Token::Ponct(Ponct::Semi));
    proof {
        assert(tv(out@) =~= tv(old(out)@) + constant_toks(*item, *ty, *value)->Ok_0);
    }
    Result::Ok(())
}

/// Appends a static declaration.
#[verifier::loop_isolation(false)]
#[verifier::rlimit(100)]
fn item_static(out: &mut Vec<Token>, item: &Item, st: &Static) -> (r: Result<
    (),
    FromItemErrorKind,
>)
    ensures
        r is Ok <==> static_toks(*item, *st) is Ok,
        r is Ok ==> tv(final(out)@) == tv(old(out)@) + static_toks(*item, *st)->Ok_0,
        r is Err ==> r->Err_0 == static_toks(*item, *st)->Err_0,
{
    let n = match &item.name {
        Option::Some(n) => n,
        Option::None => {
            return Result::Err(FromItemErrorKind::MissingName(item.id));
        },
    };
    match with_attrs(out, &item.attrs) {
        Result::Ok(()) => {},
        Result::Err(e) => {
            return Result::Err(e);
        },
    }
    with_visibility(out, &item.visibility);
    out.push(Token::Kw(Kw::Static));
    out.push(Token::Special(SpecialToken::Space));
    out.push(Token::Kw(if st.mutable { Kw::Mut } else { Kw::Const }));
    out.push(Token::Special(SpecialToken::Space));
    out.push(Token::Ident(n.clone(), Some(item.id)));
    out.push(Token::Ponct(Ponct::Colon));
    out.push(Token::Special(SpecialToken::Space));
    match with_type(out, &st.ty) {
        Result::Ok(()) => {},
        Result::Err(e) => {
            return Result::Err(e);
        },
    }
    out.push(Token::Special(SpecialToken::Space));
    out.push(Token::Ponct(Ponct::Eq));
    out.push(Token::Special(SpecialToken::Space));
    out.push(Token::Ident(st.expr.clone(), None));
    out.push(Token::Ponct(Ponct::Semi));
    proof {
        assert(tv(out@) =~= tv(old(out)@) + static_toks(*item, *st)->Ok_0);
    }
    Result::Ok(())
}

/// Appends a procedural macro, in call, attribute or derive form.
#[verifier::loop_isolation(false)]
#[verifier::rlimit(100)]
fn item_proc_macro(out: &mut Vec<Token>, item: &Item, pm: &ProcMacro) -> (r: Result<
    (),
    FromItemErrorKind,
>)
    ensures
        r is Ok <==> proc_macro_toks(*item, *pm) is Ok,
        r is Ok ==> tv(final(out)@) == tv(old(out)@) + proc_macro_toks(*item, *pm)->Ok_0,
        r is Err ==> r->Err_0 == proc_macro_toks(*item, *pm)->Err_0,
{
    let n = match &item.name {
        Option::Some(n) => n,
        Option::None => {
            return Result::Err(FromItemErrorKind::MissingName(item.id));
        },
    };
    match pm.kind {
        MacroKind::Bang => {
            out.push(Token::Ident(n.clone(), Some(item.id)));
            out.push(Token::Ponct(Ponct::Bang));
            out.push(Token::Ponct(Ponct::OpenParen));
            out.push(Token::Ponct(Ponct::CloseParen));
        },
        MacroKind::Attr => {
            out.push(Token::Ponct(Ponct::Pound));
            out.push(Token::Ponct(Ponct::OpenBracket));
            out.push(Token::Ident(n.clone(), Some(item.id)));
            out.push(Token::Ponct(Ponct::CloseBracket));
        },
        MacroKind::Derive => {
            out.push(Token::Ponct(Ponct::Pound));
            out.push(Token::Ponct(Ponct::OpenBracket));
            out.push(Token::Ident("derive".to_owned(), None));
            out.push(Token::Ponct(Ponct::OpenParen));
            out.push(Token::Ident(n.clone(), Some(item.id)));
            out.push(Token::Ponct(Ponct::CloseParen));
            out.push(Token::Ponct(Ponct::CloseBracket));
        },
    }
    proof {
        assert(tv(out@) =~= tv(old(out)@) + proc_macro_toks(*item, *pm)->Ok_0);
    }
    Result::Ok(())
}

impl Tokens {
    /// Lowers one standalone type expression to its token sequence.
    pub fn from_type(ty: &Type) -> (r: Result<Tokens, FromItemErrorKind>)
        ensures
            r is Ok <==> type_toks(*ty) is Ok,
            r is Ok ==> r->Ok_0@ == type_toks(*ty)->Ok_0,
            r is Err ==> r->Err_0 == type_toks(*ty)->Err_0,
    {
        let mut out: Vec<Token> = Vec::new();
        proof {
            crate::token::tv_empty();
        }
        match with_type(&mut out, ty) {
            Result::Ok(()) => {},
            Result::Err(e) => {
                return Result::Err(e);
            },
        }
        proof {
            assert(tv(out@) =~= type_toks(*ty)->Ok_0);
        }
        Result::Ok(Tokens(out))
    }

    /// Lowers one item to its full declaration-syntax token sequence,
    /// resolving child references through the index.
    pub fn from_item(item: &Item, index: &HashMap<ItemId, Item>) -> (r: Result<
        Tokens,
        FromItemErrorKind,
    >)
        ensures
            r is Ok <==> item_toks(*item, index@) is Ok,
            r is Ok ==> r->Ok_0@ == item_toks(*item, index@)->Ok_0,
            r is Err ==> r->Err_0 == item_toks(*item, index@)->Err_0,
    {
        let mut out: Vec<Token> = Vec::new();
        proof {
            crate::token::tv_empty();
        }
        let res: Result<(), FromItemErrorKind> = match &item.inner {
            ItemEnum::Module(_) => Result::Err(FromItemErrorKind::InvalidItem),
            ItemEnum::ExternCrate { .. } => Result::Err(FromItemErrorKind::InvalidItem),
            ItemEnum::Import(imp) => item_import(&mut out, item, imp),
            ItemEnum::Union(u) => item_union(&mut out, item, u, index),
            ItemEnum::Struct(st) => item_struct(&mut out, item, st, index),
            ItemEnum::StructField(ty) => with_struct_field(&mut out, item, ty),
            ItemEnum::Enum(en) => item_enum(&mut out, item, en, index),
            ItemEnum::Variant(v) => with_enum_variant(&mut out, index, item, v),
            ItemEnum::Function(f) => with_function(&mut out, item, f, false),
            ItemEnum::Trait(t) => item_trait(&mut out, item, t, index),
            ItemEnum::TraitAlias(ta) => item_trait_alias(&mut out, item, ta),
            ItemEnum::Impl(im) => item_impl(&mut out, item, im),
            ItemEnum::TypeAlias(ta) => item_typealias(&mut out, item, ta),
            ItemEnum::OpaqueTy => Result::Err(FromItemErrorKind::Unsupported),
            ItemEnum::Constant { ty, value } => item_constant(&mut out, item, ty, value),
            ItemEnum::Static(st) => item_static(&mut out, item, st),
            ItemEnum::ForeignType => Result::Err(FromItemErrorKind::Unsupported),
            ItemEnum::Macro(text) => {
                let res = with_attrs(&mut out, &item.attrs);
                match res {
                    Result::Ok(()) => {
                        out.push(Token::Ident(text.clone(), None));
                        Result::Ok(())
                    },
                    Result::Err(e) => Result::Err(e),
                }
            },
            ItemEnum::ProcMacro(pm) => item_proc_macro(&mut out, item, pm),
            ItemEnum::Primitive(_) => Result::Err(FromItemErrorKind::Unsupported),
            ItemEnum::AssocConst { ty, default } => with_assoc_const(
                &mut out,
                item,
                ty,
                default,
                true,
            ),
            ItemEnum::AssocType { generics, bounds, default } => with_assoc_type(
                &mut out,
                item,
                generics,
                bounds,
                default,
                true,
            ),
        };
        match res {
            Result::Ok(()) => {
                proof {
                    assert(tv(out@) =~= item_toks(*item, index@)->Ok_0);
                }
                Result::Ok(Tokens(out))
            },
            Result::Err(e) => Result::Err(e),
        }
    }
}

} // verus!
