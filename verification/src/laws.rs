//! Statements the lowering engine guarantees, proved once and for all: the
//! engine is a pure function of its input, visibility prefixes are fixed,
//! hidden-field renderings are distinguishable, synthetic parameters are
//! elided, declared order is kept, and a dangling child reference is reported
//! as a structural error instead of a crash.

use vstd::prelude::*;

use crate::items::{
    check_field_ids, is_impl_param, item_toks, lookup_field, lookup_variant, record_field_lines,
    record_fields_body, struct_field_toks, trait_member_lines, trait_member_toks, variant_lines,
    variant_toks, without_impl_end,
};
use crate::model::{GenericParamDef, Item, Visibility, WherePredicate};
use crate::pp::{
    idv, kwv, nlv, param_def_toks, params_join, pctv, preds_join, spv, tab_from, where_pred_toks,
    FromItemErrorKind,
};
use crate::token::{ItemId, Kw, Ponct, SpecialToken, TokenV};

verus! {

/// Lowering is deterministic: the token sequence is a pure function of the
/// item and the index, so lowering the same pair twice yields identical
/// sequences. Any two results that meet the lowering contract agree.
pub proof fn lemma_lowering_deterministic(
    item: Item,
    index: Map<ItemId, Item>,
    r1: Seq<TokenV>,
    r2: Seq<TokenV>,
)
    requires
        (item_toks(item, index) is Ok),
        r1 == item_toks(item, index)->Ok_0,
        r2 == item_toks(item, index)->Ok_0,
    ensures
        r1 == r2,
{
}

/// The four visibility prefixes are exactly: `pub` and a space; nothing;
/// `pub(crate)` and a space; `pub(in path)` and a space with the path
/// carrying its cross-reference target.
pub proof fn lemma_visibility_prefixes()
    ensures
        crate::pp::visibility_toks(Visibility::Public) == seq![kwv(Kw::Pub), spv()],
        crate::pp::visibility_toks(Visibility::Inherited) == Seq::<TokenV>::empty(),
        crate::pp::visibility_toks(Visibility::Crate) == seq![
            kwv(Kw::Pub),
            pctv(Ponct::OpenParen),
            kwv(Kw::Crate),
            pctv(Ponct::CloseParen),
            spv(),
        ],
        forall|parent: ItemId, path: String|
            #[trigger] crate::pp::visibility_toks(Visibility::Restricted { parent, path })
                == seq![
                kwv(Kw::Pub),
                pctv(Ponct::OpenParen),
                kwv(Kw::In),
                spv(),
                idv(path@, Some(parent)),
                pctv(Ponct::CloseParen),
                spv(),
            ],
{
    assert(crate::pp::visibility_toks(Visibility::Inherited) =~= Seq::<TokenV>::empty());
}

/// An indented region keeps its final token: indentation only inserts
/// tabulation stops, never drops or reorders what it indents.
pub proof fn lemma_tab_keeps_last(s: Seq<TokenV>, i: int, pending: bool)
    requires
        0 <= i < s.len(),
    ensures
        tab_from(s, i, pending).len() > 0,
        tab_from(s, i, pending).last() == s.last(),
    decreases s.len() - i,
{
    let pre: Seq<TokenV> = if pending {
        seq![crate::pp::tabv()]
    } else {
        seq![]
    };
    let rest = tab_from(s, i + 1, s[i] == nlv());
    if i + 1 < s.len() {
        lemma_tab_keeps_last(s, i + 1, s[i] == nlv());
        assert(tab_from(s, i, pending) == pre + seq![s[i]] + rest);
        assert((pre + seq![s[i]] + rest).last() == rest.last());
    } else {
        assert(rest =~= Seq::<TokenV>::empty());
        assert(tab_from(s, i, pending) =~= pre + seq![s[i]]);
        assert((pre + seq![s[i]]).last() == s[i]);
    }
}

/// A field list with every field hidden and one with some fields visible
/// render differently: the former is exactly the all-hidden placeholder
/// between braces, the latter ends in the some-hidden placeholder before its
/// closing line, and the two sequences are never equal.
pub proof fn lemma_hidden_fields_distinction(index: Map<ItemId, Item>, ids: Seq<ItemId>)
    requires
        ids.len() > 0,
        (record_fields_body(index, ids, true) is Ok),
    ensures
        record_fields_body(index, Seq::<ItemId>::empty(), true)->Ok_0 == seq![
            pctv(Ponct::OpenBrace),
            spv(),
            TokenV::Special(SpecialToken::Hidden { all: true }),
            spv(),
            pctv(Ponct::CloseBrace),
        ],
        ({
            let some = record_fields_body(index, ids, true)->Ok_0;
            some[some.len() - 3] == TokenV::Special(SpecialToken::Hidden { all: false })
        }),
        record_fields_body(index, ids, true)->Ok_0 != record_fields_body(
            index,
            Seq::<ItemId>::empty(),
            true,
        )->Ok_0,
{
    assert(record_fields_body(index, Seq::<ItemId>::empty(), true)->Ok_0 =~= seq![
        pctv(Ponct::OpenBrace),
        spv(),
        TokenV::Special(SpecialToken::Hidden { all: true }),
        spv(),
        pctv(Ponct::CloseBrace),
    ]);
    let lines = crate::items::record_field_lines(index, ids, 0)->Ok_0;
    let inner = lines + seq![nlv(), TokenV::Special(SpecialToken::Hidden { all: false })];
    assert(inner.last() == TokenV::Special(SpecialToken::Hidden { all: false }));
    lemma_tab_keeps_last(inner, 0, true);
    let some = record_fields_body(index, ids, true)->Ok_0;
    assert(some[some.len() - 3] == TokenV::Special(SpecialToken::Hidden { all: false }));
    if some == record_fields_body(index, Seq::<ItemId>::empty(), true)->Ok_0 {
        assert(some.len() == 5);
        assert(some[2] == TokenV::Special(SpecialToken::Hidden { all: true }));
        assert(false);
    }
}

/// The printed parameter-list length never exceeds the list.
pub proof fn lemma_without_impl_le(params: Seq<GenericParamDef>, j: int)
    ensures
        without_impl_end(params, j) <= j || j < 0,
        0 <= without_impl_end(params, j),
    decreases j,
{
    if j > 0 && is_impl_param(params[j - 1]) {
        lemma_without_impl_le(params, j - 1);
    }
}

/// Synthetic-parameter elision: a trailing run of compiler-synthesized
/// argument-position type parameters is suppressed from the printed list. In
/// particular, when every parameter from position `m` on is synthetic, the
/// printed list stops at or before `m`; when they all are, nothing of the
/// angle-bracket list is printed at all, while the function's inputs, which
/// refer to those parameters by name inside their types, still print.
pub proof fn lemma_synthetic_suffix_elided(params: Seq<GenericParamDef>, m: int, j: int)
    requires
        0 <= m <= j <= params.len(),
        forall|k: int| m <= k < j ==> is_impl_param(#[trigger] params[k]),
    ensures
        without_impl_end(params, j) <= m,
    decreases j,
{
    if j > m {
        assert(is_impl_param(params[j - 1]));
        lemma_synthetic_suffix_elided(params, m, j - 1);
    } else {
        lemma_without_impl_le(params, j);
    }
}

/// A parameter list whose last parameter is not synthetic is printed whole.
pub proof fn lemma_plain_params_kept(params: Seq<GenericParamDef>)
    requires
        params.len() > 0,
        !is_impl_param(params.last()),
    ensures
        without_impl_end(params, params.len() as int) == params.len(),
{
}

/// Order preservation: the tokens of a variant list are the per-variant
/// segments concatenated in the declared order, each on its own line; the
/// engine never sorts or deduplicates.
pub proof fn lemma_variant_order(index: Map<ItemId, Item>, ids: Seq<ItemId>, i: int)
    requires
        0 <= i < ids.len(),
        (variant_lines(index, ids, i) is Ok),
    ensures
        (lookup_variant(index, ids[i]) is Ok),
        variant_lines(index, ids, i)->Ok_0 == seq![nlv()] + variant_toks(
            index[ids[i]],
            index[ids[i]].inner->Variant_0,
            index,
        )->Ok_0 + seq![pctv(Ponct::Comma)] + variant_lines(index, ids, i + 1)->Ok_0,
{
}

/// Order preservation: a generic parameter list's tokens are the
/// per-parameter segments concatenated in the declared order, separated only
/// by the given separator.
pub proof fn lemma_param_order(ps: Seq<GenericParamDef>, i: int, sep: Seq<TokenV>)
    requires
        0 <= i < ps.len(),
        (params_join(ps, i, sep) is Ok),
    ensures
        params_join(ps, i, sep)->Ok_0 == (if i > 0 {
            sep
        } else {
            Seq::<TokenV>::empty()
        }) + param_def_toks(ps[i])->Ok_0 + params_join(ps, i + 1, sep)->Ok_0,
{
    assert(Seq::<TokenV>::empty() =~= seq![]);
}

/// Order preservation: a where-predicate list's tokens are the per-predicate
/// segments concatenated in the declared order.
pub proof fn lemma_predicate_order(ws: Seq<WherePredicate>, i: int, sep: Seq<TokenV>)
    requires
        0 <= i < ws.len(),
        (preds_join(ws, i, sep) is Ok),
    ensures
        preds_join(ws, i, sep)->Ok_0 == (if i > 0 {
            sep
        } else {
            Seq::<TokenV>::empty()
        }) + where_pred_toks(ws[i])->Ok_0 + preds_join(ws, i + 1, sep)->Ok_0,
{
    assert(Seq::<TokenV>::empty() =~= seq![]);
}

/// Order preservation: a record field list's tokens are the per-field lines
/// concatenated in the declared order, one line each.
pub proof fn lemma_field_order(index: Map<ItemId, Item>, ids: Seq<ItemId>, i: int)
    requires
        0 <= i < ids.len(),
        (record_field_lines(index, ids, i) is Ok),
    ensures
        (lookup_field(index, ids[i]) is Ok),
        record_field_lines(index, ids, i)->Ok_0 == seq![nlv()] + struct_field_toks(
            index[ids[i]],
            index[ids[i]].inner->StructField_0,
        )->Ok_0 + seq![pctv(Ponct::Comma)] + record_field_lines(index, ids, i + 1)->Ok_0,
{
}

/// Order preservation: a trait's member regions are concatenated in the
/// declared order, one line-delimited region each.
pub proof fn lemma_trait_member_order(index: Map<ItemId, Item>, ids: Seq<ItemId>, i: int)
    requires
        0 <= i < ids.len(),
        (trait_member_lines(index, ids, i) is Ok),
    ensures
        trait_member_lines(index, ids, i)->Ok_0 == seq![nlv()] + trait_member_toks(
            index,
            ids[i],
        )->Ok_0 + seq![nlv()] + trait_member_lines(index, ids, i + 1)->Ok_0,
{
}

/// Graceful degradation: when a child reference in a field list is missing
/// from the index and the references before it resolve, the whole field list
/// fails with exactly that child's id, and never panics; the declaration
/// lowering hands the same error on, whether or not fields are hidden.
pub proof fn lemma_dangling_child_reported(index: Map<ItemId, Item>, ids: Seq<ItemId>, k: int)
    requires
        0 <= k < ids.len(),
        forall|j: int| 0 <= j < k ==> lookup_field(index, #[trigger] ids[j]) is Ok,
        !index.contains_key(ids[k]),
    ensures
        check_field_ids(index, ids, 0) == Result::<(), FromItemErrorKind>::Err(
            FromItemErrorKind::ChildrenNotFound(ids[k]),
        ),
        record_fields_body(index, ids, true) == Result::<Seq<TokenV>, FromItemErrorKind>::Err(
            FromItemErrorKind::ChildrenNotFound(ids[k]),
        ),
        record_fields_body(index, ids, false) == Result::<Seq<TokenV>, FromItemErrorKind>::Err(
            FromItemErrorKind::ChildrenNotFound(ids[k]),
        ),
{
    lemma_check_err_from(index, ids, 0, k);
}

proof fn lemma_check_err_from(index: Map<ItemId, Item>, ids: Seq<ItemId>, i: int, k: int)
    requires
        0 <= i <= k < ids.len(),
        forall|j: int| i <= j < k ==> lookup_field(index, #[trigger] ids[j]) is Ok,
        !index.contains_key(ids[k]),
    ensures
        check_field_ids(index, ids, i) == Result::<(), FromItemErrorKind>::Err(
            FromItemErrorKind::ChildrenNotFound(ids[k]),
        ),
    decreases k - i,
{
    if i < k {
        lemma_check_err_from(index, ids, i + 1, k);
    }
}

} // verus!
