//! The lowering engine, part one: failure kinds, token-sequence helpers, and
//! the lowerings shared by every item kind (attributes, visibility, function
//! headers, calling conventions, indentation).
//!
//! Every lowering function appends to a token vector and is specified against
//! a spec function that gives the exact token-view sequence it appends; a
//! fallible one also agrees with its spec function on when and how it fails.

use vstd::prelude::*;

use crate::model::{
    Abi, GenericArg, GenericArgs, GenericBound, GenericParamDef, GenericParamDefKind, Header,
    ItemKind, Path, PolyTrait, Term, TraitBoundModifier, Type, TypeBinding, TypeBindingKind,
    Visibility, WherePredicate,
};
use crate::token::{tv, ItemId, Kw, Ponct, SpecialToken, Token, TokenV};

verus! {

broadcast use crate::token::tv_push, crate::token::tv_add, crate::token::tv_len, crate::token::tv_index;

/// Failure of the token-pushing sink itself. Appending to a vector is modeled
/// as infallible here, so the engine never produces this; the variant remains
/// so that callers can treat sink errors like any other lowering error.
#[derive(Clone, Copy, PartialEq, Eq, Structural, Debug)]
pub enum PusherError {
    AllocationFailed,
}

/// Why an item or type expression could not be lowered.
#[derive(Clone, Copy, PartialEq, Eq, Structural, Debug)]
pub enum FromItemErrorKind {
    /// The item kind cannot stand alone as a declaration.
    InvalidItem,
    /// A child reference was not found in the index.
    ChildrenNotFound(ItemId),
    /// A resolved child had the wrong tagged variant; the expected kind is
    /// carried beside the child's id.
    UnexpectedItemType(ItemId, ItemKind),
    /// A raw attribute string could not be parsed into a name prefix.
    AttributeParsing,
    /// The token sink failed.
    PusherError(PusherError),
    /// A graph-format corner case this design deliberately defers.
    Unsupported,
    /// An item that must carry a name carries none: a structural defect of
    /// the graph.
    MissingName(ItemId),
}

/// Shorthand spec constructors for token views.
pub open spec fn kwv(k: Kw) -> TokenV {
    TokenV::Kw(k)
}

pub open spec fn pctv(p: Ponct) -> TokenV {
    TokenV::Ponct(p)
}

pub open spec fn spv() -> TokenV {
    TokenV::Special(SpecialToken::Space)
}

pub open spec fn nlv() -> TokenV {
    TokenV::Special(SpecialToken::NewLine)
}

pub open spec fn tabv() -> TokenV {
    TokenV::Special(SpecialToken::Tabulation)
}

pub open spec fn idv(s: Seq<char>, id: Option<ItemId>) -> TokenV {
    TokenV::Ident(s, id)
}

/// The comma-space separator.
pub open spec fn sep_comma() -> Seq<TokenV> {
    seq![pctv(Ponct::Comma), spv()]
}

/// The space-plus-space separator of bound lists.
pub open spec fn sep_plus() -> Seq<TokenV> {
    seq![spv(), pctv(Ponct::Plus), spv()]
}

/// The comma, line break and fresh indent separator of where-clauses.
pub open spec fn sep_where() -> Seq<TokenV> {
    seq![pctv(Ponct::Comma), nlv(), tabv()]
}

/// Tokens of a visibility prefix.
pub open spec fn visibility_toks(v: Visibility) -> Seq<TokenV> {
    match v {
        Visibility::Public => seq![kwv(Kw::Pub), spv()],
        Visibility::Inherited => seq![],
        Visibility::Crate => seq![
            kwv(Kw::Pub),
            pctv(Ponct::OpenParen),
            kwv(Kw::Crate),
            pctv(Ponct::CloseParen),
            spv(),
        ],
        Visibility::Restricted { parent, path } => seq![
            kwv(Kw::Pub),
            pctv(Ponct::OpenParen),
            kwv(Kw::In),
            spv(),
            idv(path@, Some(parent)),
            pctv(Ponct::CloseParen),
            spv(),
        ],
    }
}

/// Appends the visibility prefix: `pub `, `pub(crate) `, `pub(in path) `, or
/// nothing for the default visibility.
pub fn with_visibility(out: &mut Vec<Token>, v: &Visibility)
    ensures
        tv(final(out)@) == tv(old(out)@) + visibility_toks(*v),
{
    match v {
        Visibility::Public => {
            out.push(Token::Kw(Kw::Pub));
            out.push(Token::Special(SpecialToken::Space));
        },
        Visibility::Inherited => {},
        Visibility::Crate => {
            out.push(Token::Kw(Kw::Pub));
            out.push(Token::Ponct(Ponct::OpenParen));
            out.push(Token::Kw(Kw::Crate));
            out.push(Token::Ponct(Ponct::CloseParen));
            out.push(Token::Special(SpecialToken::Space));
        },
        Visibility::Restricted { parent, path } => {
            out.push(Token::Kw(Kw::Pub));
            out.push(Token::Ponct(Ponct::OpenParen));
            out.push(Token::Kw(Kw::In));
            out.push(Token::Special(SpecialToken::Space));
            out.push(Token::Ident(path.clone(), Some(*parent)));
            out.push(Token::Ponct(Ponct::CloseParen));
            out.push(Token::Special(SpecialToken::Space));
        },
    }
    assert(tv(out@) =~= tv(old(out)@) + visibility_toks(*v));
}

/// The name under which a calling convention is spelled.
pub open spec fn abi_name(abi: Abi) -> Seq<char> {
    match abi {
        Abi::Rust => "Rust"@,
        Abi::C { unwind } => if unwind {
            "C-unwind"@
        } else {
            "C"@
        },
        Abi::Cdecl { unwind } => if unwind {
            "cdecl-unwind"@
        } else {
            "cdecl"@
        },
        Abi::Stdcall { unwind } => if unwind {
            "stdcall-unwind"@
        } else {
            "stdcall"@
        },
        Abi::Fastcall { unwind } => if unwind {
            "fastcall-unwind"@
        } else {
            "fastcall"@
        },
        Abi::Aapcs { unwind } => if unwind {
            "aapcs-unwind"@
        } else {
            "aapcs"@
        },
        Abi::Win64 { unwind } => if unwind {
            "win64-unwind"@
        } else {
            "win64"@
        },
        Abi::SysV64 { unwind } => if unwind {
            "sysv64-unwind"@
        } else {
            "sysv64"@
        },
        Abi::System { unwind } => if unwind {
            "system-unwind"@
        } else {
            "system"@
        },
        Abi::Other(name) => name@,
    }
}

/// Tokens of a calling-convention prefix: nothing for the default convention,
/// else the keyword and the quoted convention name.
pub open spec fn abi_toks(abi: Abi) -> Seq<TokenV> {
    match abi {
        Abi::Rust => seq![],
        _ => seq![
            kwv(Kw::Extern),
            spv(),
            pctv(Ponct::Quote),
            idv(abi_name(abi), None),
            pctv(Ponct::Quote),
            spv(),
        ],
    }
}

fn abi_name_str(abi: &Abi) -> (r: String)
    ensures
        r@ == abi_name(*abi),
{
    match abi {
        Abi::Rust => "Rust".to_owned(),
        Abi::C { unwind } => if *unwind {
            "C-unwind".to_owned()
        } else {
            "C".to_owned()
        },
        Abi::Cdecl { unwind } => if *unwind {
            "cdecl-unwind".to_owned()
        } else {
            "cdecl".to_owned()
        },
        Abi::Stdcall { unwind } => if *unwind {
            "stdcall-unwind".to_owned()
        } else {
            "stdcall".to_owned()
        },
        Abi::Fastcall { unwind } => if *unwind {
            "fastcall-unwind".to_owned()
        } else {
            "fastcall".to_owned()
        },
        Abi::Aapcs { unwind } => if *unwind {
            "aapcs-unwind".to_owned()
        } else {
            "aapcs".to_owned()
        },
        Abi::Win64 { unwind } => if *unwind {
            "win64-unwind".to_owned()
        } else {
            "win64".to_owned()
        },
        Abi::SysV64 { unwind } => if *unwind {
            "sysv64-unwind".to_owned()
        } else {
            "sysv64".to_owned()
        },
        Abi::System { unwind } => if *unwind {
            "system-unwind".to_owned()
        } else {
            "system".to_owned()
        },
        Abi::Other(name) => name.clone(),
    }
}

/// Appends the calling-convention prefix of a non-default ABI.
pub fn with_abi(out: &mut Vec<Token>, abi: &Abi)
    ensures
        tv(final(out)@) == tv(old(out)@) + abi_toks(*abi),
{
    match abi {
        Abi::Rust => {},
        _ => {
            out.push(Token::Kw(Kw::Extern));
            out.push(Token::Special(SpecialToken::Space));
            out.push(Token::Ponct(Ponct::Quote));
            out.push(Token::Ident(abi_name_str(abi), None));
            out.push(Token::Ponct(Ponct::Quote));
            out.push(Token::Special(SpecialToken::Space));
        },
    }
    assert(tv(out@) =~= tv(old(out)@) + abi_toks(*abi));
}

/// Tokens of a function-header prefix: qualifier keywords in fixed order,
/// then the calling convention.
pub open spec fn header_toks(h: Header) -> Seq<TokenV> {
    (if h.is_const {
        seq![kwv(Kw::Const), spv()]
    } else {
        seq![]
    }) + (if h.is_unsafe {
        seq![kwv(Kw::Unsafe), spv()]
    } else {
        seq![]
    }) + (if h.is_async {
        seq![kwv(Kw::Async), spv()]
    } else {
        seq![]
    }) + abi_toks(h.abi)
}

/// Appends the function-header prefix.
pub fn with_header(out: &mut Vec<Token>, h: &Header)
    ensures
        tv(final(out)@) == tv(old(out)@) + header_toks(*h),
{
    if h.is_const {
        out.push(Token::Kw(Kw::Const));
        out.push(Token::Special(SpecialToken::Space));
    }
    if h.is_unsafe {
        out.push(Token::Kw(Kw::Unsafe));
        out.push(Token::Special(SpecialToken::Space));
    }
    if h.is_async {
        out.push(Token::Kw(Kw::Async));
        out.push(Token::Special(SpecialToken::Space));
    }
    with_abi(out, &h.abi);
    assert(tv(out@) =~= tv(old(out)@) + header_toks(*h));
}

/// Whether a character may continue an attribute name.
pub open spec fn spec_ident_char(c: char) -> bool {
    ('a' <= c && c <= 'z') || ('A' <= c && c <= 'Z') || ('0' <= c && c <= '9') || c == '_'
}

fn is_ident_char(c: char) -> (r: bool)
    ensures
        r == spec_ident_char(c),
{
    ('a' <= c && c <= 'z') || ('A' <= c && c <= 'Z') || ('0' <= c && c <= '9') || c == '_'
}

/// Index of the first character at or after `j` that cannot continue an
/// attribute name; nothing if every remaining character can.
pub open spec fn attr_name_end(a: Seq<char>, j: int) -> Option<int>
    decreases a.len() - j,
{
    if j < 0 || j >= a.len() {
        Option::None
    } else if !spec_ident_char(a[j]) {
        Option::Some(j)
    } else {
        attr_name_end(a, j + 1)
    }
}

/// The attribute names that are preserved in declarations; all other
/// attributes are dropped silently.
pub open spec fn attr_allowed(name: Seq<char>) -> bool {
    ||| name == "must_use"@
    ||| name == "export_name"@
    ||| name == "link_section"@
    ||| name == "no_mangle"@
    ||| name == "repr"@
    ||| name == "non_exhaustive"@
}

/// The name prefix of a raw attribute text: the characters after `#[` up to
/// the first one that cannot continue a name. Malformed texts are an error.
pub open spec fn attr_name_of(a: Seq<char>) -> Result<Seq<char>, FromItemErrorKind> {
    if a.len() < 2 {
        Result::Err(FromItemErrorKind::AttributeParsing)
    } else {
        match attr_name_end(a, 2) {
            Option::Some(j) => Result::Ok(a.subrange(2, j)),
            Option::None => Result::Err(FromItemErrorKind::AttributeParsing),
        }
    }
}

/// Tokens of the preserved attributes among `attrs[i..]`, given whether one
/// was already printed: each preserved attribute stands on its own line.
pub open spec fn attrs_toks_from(attrs: Seq<String>, i: int, printed: bool) -> Result<
    Seq<TokenV>,
    FromItemErrorKind,
>
    decreases attrs.len() - i,
{
    if i < 0 || i >= attrs.len() {
        Result::Ok(if printed {
            seq![nlv()]
        } else {
            seq![]
        })
    } else {
        match attr_name_of(attrs[i]@) {
            Result::Err(e) => Result::Err(e),
            Result::Ok(name) => {
                let keep = attr_allowed(name);
                let here: Seq<TokenV> = if keep {
                    (if printed {
                        seq![nlv()]
                    } else {
                        seq![]
                    }) + seq![TokenV::Attr(attrs[i]@)]
                } else {
                    seq![]
                };
                match attrs_toks_from(attrs, i + 1, printed || keep) {
                    Result::Err(e) => Result::Err(e),
                    Result::Ok(rest) => Result::Ok(here + rest),
                }
            },
        }
    }
}

/// Tokens of an attribute block: the preserved attributes, one per line, and
/// a final line break when any was printed.
pub open spec fn attrs_toks(attrs: Seq<String>) -> Result<Seq<TokenV>, FromItemErrorKind> {
    attrs_toks_from(attrs, 0, false)
}

/// The characters of a text, as a vector.
pub fn chars_of(s: &str) -> (r: Vec<char>)
    ensures
        r@ == s@,
{
    let n = s.unicode_len();
    let mut r: Vec<char> = Vec::new();
    let mut i: usize = 0;
    while i < n
        invariant
            n == s@.len(),
            i <= n,
            r@ == s@.subrange(0, i as int),
        decreases n - i,
    {
        r.push(s.get_char(i));
        i = i + 1;
    }
    assert(r@ =~= s@);
    r
}

/// Looks for the end of the name prefix of one attribute text.
fn find_attr_name_end(chars: &Vec<char>) -> (r: Option<usize>)
    requires
        chars@.len() >= 2,
    ensures
        match r {
            Option::Some(j) => attr_name_end(chars@, 2) == Option::Some(j as int) && 2 <= j
                < chars@.len(),
            Option::None => attr_name_end(chars@, 2) is None,
        },
{
    let mut j: usize = 2;
    while j < chars.len()
        invariant
            2 <= j <= chars@.len(),
            attr_name_end(chars@, 2) == attr_name_end(chars@, j as int),
        decreases chars@.len() - j,
    {
        if !is_ident_char(chars[j]) {
            return Option::Some(j);
        }
        j = j + 1;
    }
    Option::None
}

fn attr_is_allowed(chars: &Vec<char>, from: usize, to: usize) -> (r: bool)
    requires
        from <= to <= chars@.len(),
    ensures
        r == attr_allowed(chars@.subrange(from as int, to as int)),
{
    if str_eq_chars("must_use", chars, from, to) {
        true
    } else if str_eq_chars("export_name", chars, from, to) {
        true
    } else if str_eq_chars("link_section", chars, from, to) {
        true
    } else if str_eq_chars("no_mangle", chars, from, to) {
        true
    } else if str_eq_chars("repr", chars, from, to) {
        true
    } else {
        str_eq_chars("non_exhaustive", chars, from, to)
    }
}

/// Compares a text against a character range.
pub fn str_eq_chars(s: &str, chars: &Vec<char>, from: usize, to: usize) -> (r: bool)
    requires
        from <= to <= chars@.len(),
    ensures
        r == (s@ == chars@.subrange(from as int, to as int)),
{
    let n = s.unicode_len();
    if n != to - from {
        assert(s@.len() != chars@.subrange(from as int, to as int).len());
        return false;
    }
    let mut i: usize = 0;
    while i < n
        invariant
            n == s@.len(),
            n == to - from,
            from <= to <= chars@.len(),
            i <= n,
            forall|m: int| 0 <= m < i ==> s@[m] == chars@[from + m],
        decreases n - i,
    {
        if s.get_char(i) != chars[from + i] {
            assert(s@[i as int] != chars@.subrange(from as int, to as int)[i as int]);
            return false;
        }
        i = i + 1;
    }
    assert(s@ =~= chars@.subrange(from as int, to as int));
    true
}

/// Appends the attribute block: each preserved attribute on its own line.
/// Malformed attribute texts fail with an attribute-parsing error.
pub fn with_attrs(out: &mut Vec<Token>, attrs: &Vec<String>) -> (r: Result<
    (),
    FromItemErrorKind,
>)
    ensures
        r is Ok <==> attrs_toks(attrs@) is Ok,
        r is Ok ==> tv(final(out)@) == tv(old(out)@) + attrs_toks(attrs@)->Ok_0,
        r is Err ==> r->Err_0 == attrs_toks(attrs@)->Err_0,
{
    let ghost full = attrs_toks(attrs@);
    let mut i: usize = 0;
    let mut printed = false;
    while i < attrs.len()
        invariant
            i <= attrs@.len(),
            attrs_toks(attrs@) is Ok <==> attrs_toks_from(attrs@, i as int, printed) is Ok,
            attrs_toks_from(attrs@, i as int, printed) is Err ==> attrs_toks_from(
                attrs@,
                i as int,
                printed,
            )->Err_0 == attrs_toks(attrs@)->Err_0,
            attrs_toks_from(attrs@, i as int, printed) is Ok ==> tv(out@) + attrs_toks_from(
                attrs@,
                i as int,
                printed,
            )->Ok_0 == tv(old(out)@) + attrs_toks(attrs@)->Ok_0,
        decreases attrs@.len() - i,
    {
        let chars = chars_of(attrs[i].as_str());
        if chars.len() < 2 {
            return Result::Err(FromItemErrorKind::AttributeParsing);
        }
        let end = match find_attr_name_end(&chars) {
            Option::Some(j) => j,
            Option::None => {
                return Result::Err(FromItemErrorKind::AttributeParsing);
            },
        };
        if attr_is_allowed(&chars, 2, end) {
            if printed {
                out.push(Token::Special(SpecialToken::NewLine));
            }
            out.push(Token::Attr(attrs[i].clone()));
            printed = true;
        }
        i = i + 1;
    }
    if printed {
        out.push(Token::Special(SpecialToken::NewLine));
    }
    assert(tv(out@) =~= tv(old(out)@) + attrs_toks(attrs@)->Ok_0);
    Result::Ok(())
}

/// The indentation transform: a fresh indent is inserted before the first
/// token of the region and after every line break inside it, except when
/// nothing follows.
pub open spec fn tab_from(s: Seq<TokenV>, i: int, pending: bool) -> Seq<TokenV>
    decreases s.len() - i,
{
    if i < 0 || i >= s.len() {
        seq![]
    } else {
        (if pending {
            seq![tabv()]
        } else {
            seq![]
        }) + seq![s[i]] + tab_from(s, i + 1, s[i] == nlv())
    }
}

/// The indentation transform over a whole region.
pub open spec fn tab_toks(s: Seq<TokenV>) -> Seq<TokenV> {
    tab_from(s, 0, true)
}

/// A fresh token equal to the given one.
fn dup_token(t: &Token) -> (r: Token)
    ensures
        r == *t,
{
    match t {
        Token::Ident(s, id) => Token::Ident(s.clone(), *id),
        Token::Kw(k) => Token::Kw(*k),
        Token::Ponct(p) => Token::Ponct(*p),
        Token::Special(s) => Token::Special(*s),
        Token::Attr(s) => Token::Attr(s.clone()),
        Token::Primitive(s) => Token::Primitive(s.clone()),
    }
}

/// Appends a lowered region one indentation level deeper: a tabulation goes
/// in before its first token and after each line break inside it.
pub fn push_tabulated(out: &mut Vec<Token>, inner: &Vec<Token>)
    ensures
        tv(final(out)@) == tv(old(out)@) + tab_toks(tv(inner@)),
{
    let mut i: usize = 0;
    let mut pending = true;
    while i < inner.len()
        invariant
            i <= inner@.len(),
            tv(out@) + tab_from(tv(inner@), i as int, pending) == tv(old(out)@) + tab_toks(
                tv(inner@),
            ),
        decreases inner@.len() - i,
    {
        if pending {
            out.push(Token::Special(SpecialToken::Tabulation));
        }
        let is_nl = matches!(&inner[i], Token::Special(SpecialToken::NewLine));
        let t = dup_token(&inner[i]);
        out.push(t);
        pending = is_nl;
        i = i + 1;
    }
    assert(tv(out@) =~= tv(old(out)@) + tab_toks(tv(inner@)));
}

/// Outcome of lowering: the appended token views, or the failure.
pub type TokRes = Result<Seq<TokenV>, FromItemErrorKind>;

/// Idents of `ss[i..]`, separated by ` + `.
pub open spec fn strs_join(ss: Seq<String>, i: int) -> Seq<TokenV>
    decreases ss.len() - i,
{
    if i < 0 || i >= ss.len() {
        seq![]
    } else {
        (if i > 0 {
            sep_plus()
        } else {
            seq![]
        }) + seq![idv(ss[i]@, None)] + strs_join(ss, i + 1)
    }
}

/// Index of the first generic parameter that is not a lifetime; the length if
/// every one is. Bounds print their lifetime parameters in a binder before
/// the path and any remaining parameters after it.
pub open spec fn bound_pivot_from(ps: Seq<GenericParamDef>, i: int) -> int
    decreases ps.len() - i,
{
    if i < 0 || i >= ps.len() {
        ps.len() as int
    } else if !(ps[i].kind is Lifetime) {
        i
    } else {
        bound_pivot_from(ps, i + 1)
    }
}

pub open spec fn bound_pivot(ps: Seq<GenericParamDef>) -> int {
    bound_pivot_from(ps, 0)
}

/// Tokens of a named path: the name carrying its cross-reference id, then
/// any generic arguments.
pub open spec fn path_toks(p: Path) -> TokRes
    decreases p, 0int,
{
    match p.args {
        Option::Some(a) => match generic_args_toks(*a) {
            Result::Err(e) => Result::Err(e),
            Result::Ok(t) => Result::Ok(seq![idv(p.name@, Some(p.id))] + t),
        },
        Option::None => Result::Ok(seq![idv(p.name@, Some(p.id))]),
    }
}

/// Tokens of a generic-argument list: angle-bracketed arguments and
/// associated-item bindings, or a parenthesized signature form.
pub open spec fn generic_args_toks(a: GenericArgs) -> TokRes
    decreases a, 0int,
{
    match a {
        GenericArgs::AngleBracketed { args, bindings } => {
            if args@.len() == 0 && bindings@.len() == 0 {
                Result::Ok(seq![])
            } else {
                match args_join(args@, 0, sep_comma()) {
                    Result::Err(e) => Result::Err(e),
                    Result::Ok(aa) => match bindings_join(bindings@, 0, sep_comma()) {
                        Result::Err(e) => Result::Err(e),
                        Result::Ok(bb) => Result::Ok(
                            seq![pctv(Ponct::Lt)] + aa + (if args@.len() > 0 && bindings@.len()
                                > 0 {
                                sep_comma()
                            } else {
                                seq![]
                            }) + bb + seq![pctv(Ponct::Gt)],
                        ),
                    },
                }
            }
        },
        GenericArgs::Parenthesized { inputs, output } => {
            let ins: TokRes = if inputs@.len() == 0 {
                Result::Ok(seq![])
            } else {
                match types_join(inputs@, 0, sep_comma()) {
                    Result::Err(e) => Result::Err(e),
                    Result::Ok(tt) => Result::Ok(
                        seq![pctv(Ponct::OpenParen)] + tt + seq![pctv(Ponct::CloseParen)],
                    ),
                }
            };
            match ins {
                Result::Err(e) => Result::Err(e),
                Result::Ok(tt) => match output {
                    Option::None => Result::Ok(tt),
                    Option::Some(o) => match type_toks(o) {
                        Result::Err(e) => Result::Err(e),
                        Result::Ok(ot) => Result::Ok(
                            tt + seq![spv(), pctv(Ponct::Minus), pctv(Ponct::Gt), spv()] + ot,
                        ),
                    },
                },
            }
        },
    }
}

/// Tokens of one generic argument.
pub open spec fn generic_arg_toks(a: GenericArg) -> TokRes
    decreases a, 0int,
{
    match a {
        GenericArg::Lifetime(lt) => Result::Ok(seq![idv(lt@, None)]),
        GenericArg::Type(t) => type_toks(t),
        GenericArg::Infer => Result::Ok(seq![kwv(Kw::Underscore)]),
        GenericArg::Const(c) => Result::Ok(
            seq![
                kwv(Kw::Const),
                spv(),
                idv(c.expr@, None),
                pctv(Ponct::Colon),
                spv(),
                idv("?"@, None),
            ] + (if c.value is Some {
                seq![spv(), pctv(Ponct::Eq), spv(), idv(c.value->Some_0@, None)]
            } else {
                seq![]
            }),
        ),
    }
}

/// Tokens of one associated-item binding inside a generic-argument list.
pub open spec fn binding_toks(b: TypeBinding) -> TokRes
    decreases b, 0int,
{
    match b.binding {
        TypeBindingKind::Equality(term) => match term {
            Term::Type(ty) => match type_toks(ty) {
                Result::Err(e) => Result::Err(e),
                Result::Ok(tt) => Result::Ok(
                    seq![idv(b.name@, None), spv(), pctv(Ponct::Eq), spv()] + tt,
                ),
            },
            Term::Constant(_) => Result::Err(FromItemErrorKind::Unsupported),
        },
        TypeBindingKind::Constraint(c) => bounds_join(c@, 0, sep_comma()),
    }
}

/// Tokens of one generic bound.
pub open spec fn bound_toks(b: GenericBound) -> TokRes
    decreases b, 0int,
{
    match b {
        GenericBound::TraitBound { trait_path, generic_params, modifier } => {
            let m: Seq<TokenV> = match modifier {
                TraitBoundModifier::Plain => seq![],
                TraitBoundModifier::Maybe => seq![kwv(Kw::Question)],
                TraitBoundModifier::MaybeConst => seq![kwv(Kw::QuestionConst)],
            };
            let pivot = bound_pivot(generic_params@);
            let lts: TokRes = if pivot == 0 {
                Result::Ok(seq![])
            } else {
                match params_join_range(generic_params@, 0, 0, pivot, sep_comma()) {
                    Result::Err(e) => Result::Err(e),
                    Result::Ok(t) => Result::Ok(
                        seq![pctv(Ponct::For), pctv(Ponct::Lt)] + t + seq![pctv(Ponct::Gt), spv()],
                    ),
                }
            };
            match lts {
                Result::Err(e) => Result::Err(e),
                Result::Ok(lt) => match path_toks(trait_path) {
                    Result::Err(e) => Result::Err(e),
                    Result::Ok(pt) => {
                        let len = generic_params@.len() as int;
                        match params_join_range(generic_params@, pivot, pivot, len, sep_plus()) {
                            Result::Err(e) => Result::Err(e),
                            Result::Ok(rt) => Result::Ok(m + lt + pt + rt),
                        }
                    },
                },
            }
        },
        GenericBound::Outlives(s) => Result::Ok(seq![idv(s@, None)]),
    }
}

/// Tokens of one generic parameter definition. A synthetic type parameter
/// prints as nothing.
pub open spec fn param_def_toks(p: GenericParamDef) -> TokRes
    decreases p, 0int,
{
    match p.kind {
        GenericParamDefKind::Lifetime { outlives } => Result::Ok(
            seq![idv(p.name@, None)] + (if outlives@.len() > 0 {
                seq![pctv(Ponct::Colon), spv()] + strs_join(outlives@, 0)
            } else {
                seq![]
            }),
        ),
        GenericParamDefKind::Type { bounds, default, synthetic } => {
            if synthetic {
                Result::Ok(seq![])
            } else {
                let bs: TokRes = if bounds@.len() == 0 {
                    Result::Ok(seq![])
                } else {
                    match bounds_join(bounds@, 0, sep_plus()) {
                        Result::Err(e) => Result::Err(e),
                        Result::Ok(t) => Result::Ok(seq![pctv(Ponct::Colon), spv()] + t),
                    }
                };
                match bs {
                    Result::Err(e) => Result::Err(e),
                    Result::Ok(bt) => match default {
                        Option::None => Result::Ok(seq![idv(p.name@, None)] + bt),
                        Option::Some(d) => match type_toks(d) {
                            Result::Err(e) => Result::Err(e),
                            Result::Ok(dt) => Result::Ok(
                                seq![idv(p.name@, None)] + bt + seq![spv(), pctv(Ponct::Eq), spv()]
                                    + dt,
                            ),
                        },
                    },
                }
            }
        },
        GenericParamDefKind::Const { ty, default } => match type_toks(ty) {
            Result::Err(e) => Result::Err(e),
            Result::Ok(tt) => Result::Ok(
                seq![kwv(Kw::Const), spv(), idv(p.name@, None), pctv(Ponct::Colon), spv()] + tt + (
                match default {
                    Option::Some(d) => seq![spv(), pctv(Ponct::Eq), spv(), idv(d@, None)],
                    Option::None => seq![],
                }),
            ),
        },
    }
}

/// Tokens of one where-predicate.
pub open spec fn where_pred_toks(w: WherePredicate) -> TokRes
    decreases w, 0int,
{
    match w {
        WherePredicate::BoundPredicate { ty, bounds, generic_params } => {
            let hrtb: TokRes = if generic_params@.len() == 0 {
                Result::Ok(seq![])
            } else {
                match params_join(generic_params@, 0, sep_comma()) {
                    Result::Err(e) => Result::Err(e),
                    Result::Ok(t) => Result::Ok(
                        seq![kwv(Kw::For), pctv(Ponct::Lt)] + t + seq![pctv(Ponct::Gt), spv()],
                    ),
                }
            };
            match hrtb {
                Result::Err(e) => Result::Err(e),
                Result::Ok(ht) => match type_toks(ty) {
                    Result::Err(e) => Result::Err(e),
                    Result::Ok(tt) => match bounds_join(bounds@, 0, sep_plus()) {
                        Result::Err(e) => Result::Err(e),
                        Result::Ok(bt) => Result::Ok(
                            ht + tt + seq![pctv(Ponct::Colon), spv()] + bt,
                        ),
                    },
                },
            }
        },
        WherePredicate::LifetimePredicate { lifetime, outlives } => Result::Ok(
            seq![idv(lifetime@, None), pctv(Ponct::Colon), spv()] + strs_join(outlives@, 0),
        ),
        WherePredicate::EqPredicate { lhs, rhs } => match type_toks(lhs) {
            Result::Err(e) => Result::Err(e),
            Result::Ok(lt) => match rhs {
                Term::Type(ty) => match type_toks(ty) {
                    Result::Err(e) => Result::Err(e),
                    Result::Ok(rt) => Result::Ok(lt + seq![pctv(Ponct::Colon), spv()] + rt),
                },
                Term::Constant(_) => Result::Err(FromItemErrorKind::Unsupported),
            },
        },
    }
}

/// Tokens of one polymorphic trait reference inside a trait object.
pub open spec fn poly_trait_toks(pt: PolyTrait) -> TokRes
    decreases pt, 0int,
{
    let gens: TokRes = if pt.generic_params@.len() == 0 {
        Result::Ok(seq![])
    } else {
        match params_join(pt.generic_params@, 0, sep_comma()) {
            Result::Err(e) => Result::Err(e),
            Result::Ok(t) => Result::Ok(
                seq![kwv(Kw::For), pctv(Ponct::Lt)] + t + seq![pctv(Ponct::Gt)],
            ),
        }
    };
    match gens {
        Result::Err(e) => Result::Err(e),
        Result::Ok(gt) => match path_toks(pt.trait_path) {
            Result::Err(e) => Result::Err(e),
            Result::Ok(p) => Result::Ok(gt + p),
        },
    }
}

/// Tokens of one function-pointer or function input, type only.
pub open spec fn input_ty_toks(inp: (String, Type)) -> TokRes
    decreases inp, 0int,
{
    type_toks(inp.1)
}

/// Tokens of one named function input: the name, except for a receiver,
/// then the type.
pub open spec fn input_toks(inp: (String, Type)) -> TokRes
    decreases inp, 0int,
{
    match type_toks(inp.1) {
        Result::Err(e) => Result::Err(e),
        Result::Ok(tt) => Result::Ok(
            (if inp.0@ == "self"@ {
                seq![]
            } else {
                seq![idv(inp.0@, None), pctv(Ponct::Colon), spv()]
            }) + tt,
        ),
    }
}

/// Tokens of one type expression.
pub open spec fn type_toks(t: Type) -> TokRes
    decreases t, 0int,
{
    match t {
        Type::ResolvedPath(p) => path_toks(p),
        Type::DynTrait(dt) => {
            let traits: TokRes = if dt.traits@.len() == 0 {
                Result::Ok(seq![])
            } else {
                match polys_join(dt.traits@, 0, sep_plus()) {
                    Result::Err(e) => Result::Err(e),
                    Result::Ok(t2) => Result::Ok(seq![spv()] + t2),
                }
            };
            match traits {
                Result::Err(e) => Result::Err(e),
                Result::Ok(tt) => Result::Ok(
                    seq![kwv(Kw::Dyn)] + tt + (match dt.lifetime {
                        Option::Some(lt) => seq![spv(), pctv(Ponct::Plus), idv(lt@, None)],
                        Option::None => seq![],
                    }),
                ),
            }
        },
        Type::Generic(g) => Result::Ok(seq![idv(g@, None)]),
        Type::Primitive(p) => if p@ == "never"@ {
            Result::Ok(seq![idv("!"@, None)])
        } else {
            Result::Ok(seq![TokenV::Primitive(p@)])
        },
        Type::FunctionPointer(fp) => {
            let gens: TokRes = if fp.generic_params@.len() == 0 {
                Result::Ok(seq![])
            } else {
                match params_join(fp.generic_params@, 0, sep_comma()) {
                    Result::Err(e) => Result::Err(e),
                    Result::Ok(t2) => Result::Ok(
                        seq![pctv(Ponct::Lt)] + t2 + seq![pctv(Ponct::Gt)],
                    ),
                }
            };
            match gens {
                Result::Err(e) => Result::Err(e),
                Result::Ok(gt) => match input_tys_join(fp.decl.inputs@, 0, sep_comma()) {
                    Result::Err(e) => Result::Err(e),
                    Result::Ok(it) => {
                        let head = header_toks(fp.header) + seq![kwv(Kw::Fn)] + gt + seq![
                            pctv(Ponct::OpenParen),
                        ] + it + seq![pctv(Ponct::CloseParen)];
                        match fp.decl.output {
                            Option::None => Result::Ok(head),
                            Option::Some(o) => match type_toks(o) {
                                Result::Err(e) => Result::Err(e),
                                Result::Ok(ot) => Result::Ok(
                                    head + seq![spv(), pctv(Ponct::Minus), pctv(Ponct::Gt), spv()]
                                        + ot,
                                ),
                            },
                        }
                    },
                },
            }
        },
        Type::Tuple(types) => match types_join(types@, 0, sep_comma()) {
            Result::Err(e) => Result::Err(e),
            Result::Ok(tt) => Result::Ok(
                seq![pctv(Ponct::OpenParen)] + tt + seq![pctv(Ponct::CloseParen)],
            ),
        },
        Type::Slice(b) => match type_toks(*b) {
            Result::Err(e) => Result::Err(e),
            Result::Ok(tt) => Result::Ok(
                seq![pctv(Ponct::OpenBracket)] + tt + seq![pctv(Ponct::CloseBracket)],
            ),
        },
        Type::Array { ty, len } => match type_toks(*ty) {
            Result::Err(e) => Result::Err(e),
            Result::Ok(tt) => Result::Ok(
                seq![pctv(Ponct::OpenBracket)] + tt + seq![
                    pctv(Ponct::Semi),
                    spv(),
                    idv(len@, None),
                    pctv(Ponct::CloseBracket),
                ],
            ),
        },
        Type::ImplTrait(bounds) => {
            if bounds@.len() == 0 {
                Result::Ok(seq![])
            } else {
                match bounds_join(bounds@, 0, sep_plus()) {
                    Result::Err(e) => Result::Err(e),
                    Result::Ok(bt) => Result::Ok(seq![kwv(Kw::Impl), spv()] + bt),
                }
            }
        },
        Type::Infer => Result::Ok(seq![idv("_"@, None)]),
        Type::RawPointer { mutable, ty } => match type_toks(*ty) {
            Result::Err(e) => Result::Err(e),
            Result::Ok(tt) => Result::Ok(
                seq![
                    kwv(Kw::Star),
                    kwv(
                        if mutable {
                            Kw::Mut
                        } else {
                            Kw::Const
                        },
                    ),
                    spv(),
                ] + tt,
            ),
        },
        Type::BorrowedRef { lifetime, mutable, ty } => match type_toks(*ty) {
            Result::Err(e) => Result::Err(e),
            Result::Ok(tt) => Result::Ok(
                seq![kwv(Kw::Amp)] + (match lifetime {
                    Option::Some(lt) => seq![idv(lt@, None), spv()],
                    Option::None => seq![],
                }) + (if mutable {
                    seq![kwv(Kw::Mut), spv()]
                } else {
                    seq![]
                }) + tt,
            ),
        },
        Type::QualifiedPath { name, args, self_ty, trait_path } => match trait_path {
            Option::Some(tr) => match type_toks(*self_ty) {
                Result::Err(e) => Result::Err(e),
                Result::Ok(st) => match path_toks(tr) {
                    Result::Err(e) => Result::Err(e),
                    Result::Ok(pt) => match generic_args_toks(*args) {
                        Result::Err(e) => Result::Err(e),
                        Result::Ok(at) => Result::Ok(
                            seq![pctv(Ponct::Lt)] + st + seq![spv(), kwv(Kw::As), spv()] + pt
                                + seq![pctv(Ponct::Gt), pctv(Ponct::PathSep), idv(name@, None)]
                                + at,
                        ),
                    },
                },
            },
            Option::None => match type_toks(*self_ty) {
                Result::Err(e) => Result::Err(e),
                Result::Ok(st) => match generic_args_toks(*args) {
                    Result::Err(e) => Result::Err(e),
                    Result::Ok(at) => Result::Ok(
                        st + seq![pctv(Ponct::PathSep), idv(name@, None)] + at,
                    ),
                },
            },
        },
    }
}

/// `type_toks` over `ts[i..]`, separated.
pub open spec fn types_join(ts: Seq<Type>, i: int, sep: Seq<TokenV>) -> TokRes
    decreases ts, ts.len() - i,
{
    if i < 0 || i >= ts.len() {
        Result::Ok(seq![])
    } else {
        match type_toks(ts[i]) {
            Result::Err(e) => Result::Err(e),
            Result::Ok(a) => match types_join(ts, i + 1, sep) {
                Result::Err(e) => Result::Err(e),
                Result::Ok(rest) => Result::Ok(
                    (if i > 0 {
                        sep
                    } else {
                        seq![]
                    }) + a + rest,
                ),
            },
        }
    }
}

/// `generic_arg_toks` over `xs[i..]`, separated.
pub open spec fn args_join(xs: Seq<GenericArg>, i: int, sep: Seq<TokenV>) -> TokRes
    decreases xs, xs.len() - i,
{
    if i < 0 || i >= xs.len() {
        Result::Ok(seq![])
    } else {
        match generic_arg_toks(xs[i]) {
            Result::Err(e) => Result::Err(e),
            Result::Ok(a) => match args_join(xs, i + 1, sep) {
                Result::Err(e) => Result::Err(e),
                Result::Ok(rest) => Result::Ok(
                    (if i > 0 {
                        sep
                    } else {
                        seq![]
                    }) + a + rest,
                ),
            },
        }
    }
}

/// `binding_toks` over `xs[i..]`, separated.
pub open spec fn bindings_join(xs: Seq<TypeBinding>, i: int, sep: Seq<TokenV>) -> TokRes
    decreases xs, xs.len() - i,
{
    if i < 0 || i >= xs.len() {
        Result::Ok(seq![])
    } else {
        match binding_toks(xs[i]) {
            Result::Err(e) => Result::Err(e),
            Result::Ok(a) => match bindings_join(xs, i + 1, sep) {
                Result::Err(e) => Result::Err(e),
                Result::Ok(rest) => Result::Ok(
                    (if i > 0 {
                        sep
                    } else {
                        seq![]
                    }) + a + rest,
                ),
            },
        }
    }
}

/// `bound_toks` over `xs[i..]`, separated.
pub open spec fn bounds_join(xs: Seq<GenericBound>, i: int, sep: Seq<TokenV>) -> TokRes
    decreases xs, xs.len() - i,
{
    if i < 0 || i >= xs.len() {
        Result::Ok(seq![])
    } else {
        match bound_toks(xs[i]) {
            Result::Err(e) => Result::Err(e),
            Result::Ok(a) => match bounds_join(xs, i + 1, sep) {
                Result::Err(e) => Result::Err(e),
                Result::Ok(rest) => Result::Ok(
                    (if i > 0 {
                        sep
                    } else {
                        seq![]
                    }) + a + rest,
                ),
            },
        }
    }
}

/// `param_def_toks` over `xs[i..]`, separated.
pub open spec fn params_join(xs: Seq<GenericParamDef>, i: int, sep: Seq<TokenV>) -> TokRes
    decreases xs, xs.len() - i,
{
    if i < 0 || i >= xs.len() {
        Result::Ok(seq![])
    } else {
        match param_def_toks(xs[i]) {
            Result::Err(e) => Result::Err(e),
            Result::Ok(a) => match params_join(xs, i + 1, sep) {
                Result::Err(e) => Result::Err(e),
                Result::Ok(rest) => Result::Ok(
                    (if i > 0 {
                        sep
                    } else {
                        seq![]
                    }) + a + rest,
                ),
            },
        }
    }
}

/// `param_def_toks` over `xs[i..to]`, separated; `from` marks where the
/// printed range began, so no separator goes before its first element.
pub open spec fn params_join_range(
    xs: Seq<GenericParamDef>,
    from: int,
    i: int,
    to: int,
    sep: Seq<TokenV>,
) -> TokRes
    decreases xs, to - i,
{
    if i < from || i < 0 || i >= to || i >= xs.len() {
        Result::Ok(seq![])
    } else {
        match param_def_toks(xs[i]) {
            Result::Err(e) => Result::Err(e),
            Result::Ok(a) => match params_join_range(xs, from, i + 1, to, sep) {
                Result::Err(e) => Result::Err(e),
                Result::Ok(rest) => Result::Ok(
                    (if i > from {
                        sep
                    } else {
                        seq![]
                    }) + a + rest,
                ),
            },
        }
    }
}

/// `poly_trait_toks` over `xs[i..]`, separated.
pub open spec fn polys_join(xs: Seq<PolyTrait>, i: int, sep: Seq<TokenV>) -> TokRes
    decreases xs, xs.len() - i,
{
    if i < 0 || i >= xs.len() {
        Result::Ok(seq![])
    } else {
        match poly_trait_toks(xs[i]) {
            Result::Err(e) => Result::Err(e),
            Result::Ok(a) => match polys_join(xs, i + 1, sep) {
                Result::Err(e) => Result::Err(e),
                Result::Ok(rest) => Result::Ok(
                    (if i > 0 {
                        sep
                    } else {
                        seq![]
                    }) + a + rest,
                ),
            },
        }
    }
}

/// `where_pred_toks` over `xs[i..]`, separated.
pub open spec fn preds_join(xs: Seq<WherePredicate>, i: int, sep: Seq<TokenV>) -> TokRes
    decreases xs, xs.len() - i,
{
    if i < 0 || i >= xs.len() {
        Result::Ok(seq![])
    } else {
        match where_pred_toks(xs[i]) {
            Result::Err(e) => Result::Err(e),
            Result::Ok(a) => match preds_join(xs, i + 1, sep) {
                Result::Err(e) => Result::Err(e),
                Result::Ok(rest) => Result::Ok(
                    (if i > 0 {
                        sep
                    } else {
                        seq![]
                    }) + a + rest,
                ),
            },
        }
    }
}

/// `input_ty_toks` over `xs[i..]`, separated.
pub open spec fn input_tys_join(xs: Seq<(String, Type)>, i: int, sep: Seq<TokenV>) -> TokRes
    decreases xs, xs.len() - i,
{
    if i < 0 || i >= xs.len() {
        Result::Ok(seq![])
    } else {
        match input_ty_toks(xs[i]) {
            Result::Err(e) => Result::Err(e),
            Result::Ok(a) => match input_tys_join(xs, i + 1, sep) {
                Result::Err(e) => Result::Err(e),
                Result::Ok(rest) => Result::Ok(
                    (if i > 0 {
                        sep
                    } else {
                        seq![]
                    }) + a + rest,
                ),
            },
        }
    }
}

/// `input_toks` over `xs[i..]`, separated, for exec loops over named inputs.
pub open spec fn inputs_join(xs: Seq<(String, Type)>, i: int, sep: Seq<TokenV>) -> TokRes
    decreases xs, xs.len() - i,
{
    if i < 0 || i >= xs.len() {
        Result::Ok(seq![])
    } else {
        match input_toks(xs[i]) {
            Result::Err(e) => Result::Err(e),
            Result::Ok(a) => match inputs_join(xs, i + 1, sep) {
                Result::Err(e) => Result::Err(e),
                Result::Ok(rest) => Result::Ok(
                    (if i > 0 {
                        sep
                    } else {
                        seq![]
                    }) + a + rest,
                ),
            },
        }
    }
}

/// A list separator, for the executable joins.
#[derive(Clone, Copy, PartialEq, Eq, Structural, Debug)]
pub enum Sep {
    CommaSpace,
    Plus,
    WhereNl,
    WhereNlSpace,
}

/// The token views of a separator.
pub open spec fn sep_toks(s: Sep) -> Seq<TokenV> {
    match s {
        Sep::CommaSpace => sep_comma(),
        Sep::Plus => sep_plus(),
        Sep::WhereNl => sep_where(),
        Sep::WhereNlSpace => seq![pctv(Ponct::Comma), nlv(), spv()],
    }
}

/// Appends one separator.
pub fn push_sep(out: &mut Vec<Token>, s: Sep)
    ensures
        tv(final(out)@) == tv(old(out)@) + sep_toks(s),
{
    match s {
        Sep::CommaSpace => {
            out.push(Token::Ponct(Ponct::Comma));
            out.push(Token::Special(SpecialToken::Space));
        },
        Sep::Plus => {
            out.push(Token::Special(SpecialToken::Space));
            out.push(Token::Ponct(Ponct::Plus));
            out.push(Token::Special(SpecialToken::Space));
        },
        Sep::WhereNl => {
            out.push(Token::Ponct(Ponct::Comma));
            out.push(Token::Special(SpecialToken::NewLine));
            out.push(Token::Special(SpecialToken::Tabulation));
        },
        Sep::WhereNlSpace => {
            out.push(Token::Ponct(Ponct::Comma));
            out.push(Token::Special(SpecialToken::NewLine));
            out.push(Token::Special(SpecialToken::Space));
        },
    }
    assert(tv(out@) =~= tv(old(out)@) + sep_toks(s));
}

/// Whether a text equals a string value.
fn string_is(a: &String, lit: &str) -> (r: bool)
    ensures
        r == (a@ == lit@),
{
    *a == lit.to_owned()
}

/// Index of the first generic parameter that is not a lifetime.
fn find_bound_pivot(ps: &Vec<GenericParamDef>) -> (r: usize)
    ensures
        r as int == bound_pivot(ps@),
        r <= ps@.len(),
{
    let mut i: usize = 0;
    while i < ps.len()
        invariant
            i <= ps@.len(),
            bound_pivot(ps@) == bound_pivot_from(ps@, i as int),
        decreases ps@.len() - i,
    {
        if !matches!(&ps[i].kind, GenericParamDefKind::Lifetime { .. }) {
            return i;
        }
        i = i + 1;
    }
    i
}

/// Appends a named path.
#[verifier::loop_isolation(false)]
pub fn with_path(out: &mut Vec<Token>, p: &Path) -> (r: Result<(), FromItemErrorKind>)
    ensures
        r is Ok <==> path_toks(*p) is Ok,
        r is Ok ==> tv(final(out)@) == tv(old(out)@) + path_toks(*p)->Ok_0,
        r is Err ==> r->Err_0 == path_toks(*p)->Err_0,
    decreases *p, 0int,
{
    out.push(Token::Ident(p.name.clone(), Some(p.id)));
    match &p.args {
        Option::Some(a) => {
            match with_generic_args(out, &*a) {
                Result::Ok(()) => {},
                Result::Err(e) => {
                    return Result::Err(e);
                },
            }
        },
        Option::None => {},
    }
    assert(tv(out@) =~= tv(old(out)@) + path_toks(*p)->Ok_0);
    Result::Ok(())
}

/// Appends a generic-argument list.
#[verifier::loop_isolation(false)]
#[verifier::rlimit(100)]
pub fn with_generic_args(out: &mut Vec<Token>, a: &GenericArgs) -> (r: Result<
    (),
    FromItemErrorKind,
>)
    ensures
        r is Ok <==> generic_args_toks(*a) is Ok,
        r is Ok ==> tv(final(out)@) == tv(old(out)@) + generic_args_toks(*a)->Ok_0,
        r is Err ==> r->Err_0 == generic_args_toks(*a)->Err_0,
    decreases *a, 0int,
{
    match a {
        GenericArgs::AngleBracketed { args, bindings } => {
            if args.len() == 0 && bindings.len() == 0 {
                assert(tv(out@) =~= tv(old(out)@) + generic_args_toks(*a)->Ok_0);
                return Result::Ok(());
            }
            out.push(Token::Ponct(Ponct::Lt));
            match with_args_join(out, args, Sep::CommaSpace) {
                Result::Ok(()) => {},
                Result::Err(e) => {
                    return Result::Err(e);
                },
            }
            if args.len() > 0 && bindings.len() > 0 {
                push_sep(out, Sep::CommaSpace);
            }
            match with_bindings_join(out, bindings, Sep::CommaSpace) {
                Result::Ok(()) => {},
                Result::Err(e) => {
                    return Result::Err(e);
                },
            }
            out.push(Token::Ponct(Ponct::Gt));
            assert(tv(out@) =~= tv(old(out)@) + generic_args_toks(*a)->Ok_0);
            Result::Ok(())
        },
        GenericArgs::Parenthesized { inputs, output } => {
            if inputs.len() > 0 {
                out.push(Token::Ponct(Ponct::OpenParen));
                match with_types_join(out, inputs, Sep::CommaSpace) {
                    Result::Ok(()) => {},
                    Result::Err(e) => {
                        return Result::Err(e);
                    },
                }
                out.push(Token::Ponct(Ponct::CloseParen));
            }
            match output {
                Option::Some(o) => {
                    out.push(Token::Special(SpecialToken::Space));
                    out.push(Token::Ponct(Ponct::Minus));
                    out.push(Token::Ponct(Ponct::Gt));
                    out.push(Token::Special(SpecialToken::Space));
                    match with_type(out, o) {
                        Result::Ok(()) => {},
                        Result::Err(e) => {
                            return Result::Err(e);
                        },
                    }
                },
                Option::None => {},
            }
            assert(tv(out@) =~= tv(old(out)@) + generic_args_toks(*a)->Ok_0);
            Result::Ok(())
        },
    }
}

/// Appends one generic argument.
#[verifier::loop_isolation(false)]
pub fn with_generic_arg(out: &mut Vec<Token>, a: &GenericArg) -> (r: Result<
    (),
    FromItemErrorKind,
>)
    ensures
        r is Ok <==> generic_arg_toks(*a) is Ok,
        r is Ok ==> tv(final(out)@) == tv(old(out)@) + generic_arg_toks(*a)->Ok_0,
        r is Err ==> r->Err_0 == generic_arg_toks(*a)->Err_0,
    decreases *a, 0int,
{
    match a {
        GenericArg::Lifetime(lt) => {
            out.push(Token::Ident(lt.clone(), None));
        },
        GenericArg::Type(t) => {
            match with_type(out, t) {
                Result::Ok(()) => {},
                Result::Err(e) => {
                    return Result::Err(e);
                },
            }
        },
        GenericArg::Infer => {
            out.push(Token::Kw(Kw::Underscore));
        },
        GenericArg::Const(c) => {
            out.push(Token::Kw(Kw::Const));
            out.push(Token::Special(SpecialToken::Space));
            out.push(Token::Ident(c.expr.clone(), None));
            out.push(Token::Ponct(Ponct::Colon));
            out.push(Token::Special(SpecialToken::Space));
            out.push(Token::Ident("?".to_owned(), None));
            match &c.value {
                Option::Some(v) => {
                    out.push(Token::Special(SpecialToken::Space));
                    out.push(Token::Ponct(Ponct::Eq));
                    out.push(Token::Special(SpecialToken::Space));
                    out.push(Token::Ident(v.clone(), None));
                },
                Option::None => {},
            }
        },
    }
    assert(tv(out@) =~= tv(old(out)@) + generic_arg_toks(*a)->Ok_0);
    Result::Ok(())
}

/// Appends one associated-item binding.
#[verifier::loop_isolation(false)]
pub fn with_type_binding(out: &mut Vec<Token>, b: &TypeBinding) -> (r: Result<
    (),
    FromItemErrorKind,
>)
    ensures
        r is Ok <==> binding_toks(*b) is Ok,
        r is Ok ==> tv(final(out)@) == tv(old(out)@) + binding_toks(*b)->Ok_0,
        r is Err ==> r->Err_0 == binding_toks(*b)->Err_0,
    decreases *b, 0int,
{
    match &b.binding {
        TypeBindingKind::Equality(term) => {
            match term {
                Term::Type(ty) => {
                    out.push(Token::Ident(b.name.clone(), None));
                    out.push(Token::Special(SpecialToken::Space));
                    out.push(Token::Ponct(Ponct::Eq));
                    out.push(Token::Special(SpecialToken::Space));
                    match with_type(out, ty) {
                        Result::Ok(()) => {},
                        Result::Err(e) => {
                            return Result::Err(e);
                        },
                    }
                },
                Term::Constant(_) => {
                    return Result::Err(FromItemErrorKind::Unsupported);
                },
            }
        },
        TypeBindingKind::Constraint(c) => {
            match with_bounds_join(out, c, Sep::CommaSpace) {
                Result::Ok(()) => {},
                Result::Err(e) => {
                    return Result::Err(e);
                },
            }
        },
    }
    assert(tv(out@) =~= tv(old(out)@) + binding_toks(*b)->Ok_0);
    Result::Ok(())
}

/// Appends one generic bound.
#[verifier::loop_isolation(false)]
#[verifier::rlimit(100)]
pub fn with_generic_bound(out: &mut Vec<Token>, b: &GenericBound) -> (r: Result<
    (),
    FromItemErrorKind,
>)
    ensures
        r is Ok <==> bound_toks(*b) is Ok,
        r is Ok ==> tv(final(out)@) == tv(old(out)@) + bound_toks(*b)->Ok_0,
        r is Err ==> r->Err_0 == bound_toks(*b)->Err_0,
    decreases *b, 0int,
{
    match b {
        GenericBound::TraitBound { trait_path, generic_params, modifier } => {
            match modifier {
                TraitBoundModifier::Plain => {},
                TraitBoundModifier::Maybe => {
                    out.push(Token::Kw(Kw::Question));
                },
                TraitBoundModifier::MaybeConst => {
                    out.push(Token::Kw(Kw::QuestionConst));
                },
            }
            let pivot = find_bound_pivot(generic_params);
            if pivot > 0 {
                out.push(Token::Ponct(Ponct::For));
                out.push(Token::Ponct(Ponct::Lt));
                match with_params_join_range(out, generic_params, 0, pivot, Sep::CommaSpace) {
                    Result::Ok(()) => {},
                    Result::Err(e) => {
                        return Result::Err(e);
                    },
                }
                out.push(Token::Ponct(Ponct::Gt));
                out.push(Token::Special(SpecialToken::Space));
            }
            match with_path(out, trait_path) {
                Result::Ok(()) => {},
                Result::Err(e) => {
                    return Result::Err(e);
                },
            }
            match with_params_join_range(out, generic_params, pivot, generic_params.len(), Sep::Plus) {
                Result::Ok(()) => {},
                Result::Err(e) => {
                    return Result::Err(e);
                },
            }
            assert(tv(out@) =~= tv(old(out)@) + bound_toks(*b)->Ok_0);
            Result::Ok(())
        },
        GenericBound::Outlives(s) => {
            out.push(Token::Ident(s.clone(), None));
            assert(tv(out@) =~= tv(old(out)@) + bound_toks(*b)->Ok_0);
            Result::Ok(())
        },
    }
}

/// Appends one generic parameter definition.
#[verifier::loop_isolation(false)]
#[verifier::rlimit(100)]
pub fn with_generic_param_def(out: &mut Vec<Token>, p: &GenericParamDef) -> (r: Result<
    (),
    FromItemErrorKind,
>)
    ensures
        r is Ok <==> param_def_toks(*p) is Ok,
        r is Ok ==> tv(final(out)@) == tv(old(out)@) + param_def_toks(*p)->Ok_0,
        r is Err ==> r->Err_0 == param_def_toks(*p)->Err_0,
    decreases *p, 0int,
{
    match &p.kind {
        GenericParamDefKind::Lifetime { outlives } => {
            out.push(Token::Ident(p.name.clone(), None));
            if outlives.len() > 0 {
                out.push(Token::Ponct(Ponct::Colon));
                out.push(Token::Special(SpecialToken::Space));
                with_strs_join(out, outlives);
            }
        },
        GenericParamDefKind::Type { bounds, default, synthetic } => {
            if !*synthetic {
                out.push(Token::Ident(p.name.clone(), None));
                if bounds.len() > 0 {
                    out.push(Token::Ponct(Ponct::Colon));
                    out.push(Token::Special(SpecialToken::Space));
                    match with_bounds_join(out, bounds, Sep::Plus) {
                        Result::Ok(()) => {},
                        Result::Err(e) => {
                            return Result::Err(e);
                        },
                    }
                }
                match default {
                    Option::Some(d) => {
                        out.push(Token::Special(SpecialToken::Space));
                        out.push(Token::Ponct(Ponct::Eq));
                        out.push(Token::Special(SpecialToken::Space));
                        match with_type(out, d) {
                            Result::Ok(()) => {},
                            Result::Err(e) => {
                                return Result::Err(e);
                            },
                        }
                    },
                    Option::None => {},
                }
            }
        },
        GenericParamDefKind::Const { ty, default } => {
            out.push(Token::Kw(Kw::Const));
            out.push(Token::Special(SpecialToken::Space));
            out.push(Token::Ident(p.name.clone(), None));
            out.push(Token::Ponct(Ponct::Colon));
            out.push(Token::Special(SpecialToken::Space));
            match with_type(out, ty) {
                Result::Ok(()) => {},
                Result::Err(e) => {
                    return Result::Err(e);
                },
            }
            match default {
                Option::Some(d) => {
                    out.push(Token::Special(SpecialToken::Space));
                    out.push(Token::Ponct(Ponct::Eq));
                    out.push(Token::Special(SpecialToken::Space));
                    out.push(Token::Ident(d.clone(), None));
                },
                Option::None => {},
            }
        },
    }
    assert(tv(out@) =~= tv(old(out)@) + param_def_toks(*p)->Ok_0);
    Result::Ok(())
}

/// Appends one where-predicate.
#[verifier::loop_isolation(false)]
#[verifier::rlimit(100)]
pub fn with_where_predicate(out: &mut Vec<Token>, w: &WherePredicate) -> (r: Result<
    (),
    FromItemErrorKind,
>)
    ensures
        r is Ok <==> where_pred_toks(*w) is Ok,
        r is Ok ==> tv(final(out)@) == tv(old(out)@) + where_pred_toks(*w)->Ok_0,
        r is Err ==> r->Err_0 == where_pred_toks(*w)->Err_0,
    decreases *w, 0int,
{
    match w {
        WherePredicate::BoundPredicate { ty, bounds, generic_params } => {
            if generic_params.len() > 0 {
                out.push(Token::Kw(Kw::For));
                out.push(Token::Ponct(Ponct::Lt));
                match with_params_join(out, generic_params, Sep::CommaSpace) {
                    Result::Ok(()) => {},
                    Result::Err(e) => {
                        return Result::Err(e);
                    },
                }
                out.push(Token::Ponct(Ponct::Gt));
                out.push(Token::Special(SpecialToken::Space));
            }
            match with_type(out, ty) {
                Result::Ok(()) => {},
                Result::Err(e) => {
                    return Result::Err(e);
                },
            }
            out.push(Token::Ponct(Ponct::Colon));
            out.push(Token::Special(SpecialToken::Space));
            match with_bounds_join(out, bounds, Sep::Plus) {
                Result::Ok(()) => {},
                Result::Err(e) => {
                    return Result::Err(e);
                },
            }
        },
        WherePredicate::LifetimePredicate { lifetime, outlives } => {
            out.push(Token::Ident(lifetime.clone(), None));
            out.push(Token::Ponct(Ponct::Colon));
            out.push(Token::Special(SpecialToken::Space));
            with_strs_join(out, outlives);
        },
        WherePredicate::EqPredicate { lhs, rhs } => {
            match with_type(out, lhs) {
                Result::Ok(()) => {},
                Result::Err(e) => {
                    return Result::Err(e);
                },
            }
            out.push(Token::Ponct(Ponct::Colon));
            out.push(Token::Special(SpecialToken::Space));
            match rhs {
                Term::Type(ty) => {
                    match with_type(out, ty) {
                        Result::Ok(()) => {},
                        Result::Err(e) => {
                            return Result::Err(e);
                        },
                    }
                },
                Term::Constant(_) => {
                    return Result::Err(FromItemErrorKind::Unsupported);
                },
            }
        },
    }
    assert(tv(out@) =~= tv(old(out)@) + where_pred_toks(*w)->Ok_0);
    Result::Ok(())
}

/// Appends one polymorphic trait reference.
#[verifier::loop_isolation(false)]
pub fn with_poly_trait(out: &mut Vec<Token>, pt: &PolyTrait) -> (r: Result<
    (),
    FromItemErrorKind,
>)
    ensures
        r is Ok <==> poly_trait_toks(*pt) is Ok,
        r is Ok ==> tv(final(out)@) == tv(old(out)@) + poly_trait_toks(*pt)->Ok_0,
        r is Err ==> r->Err_0 == poly_trait_toks(*pt)->Err_0,
    decreases *pt, 0int,
{
    if pt.generic_params.len() > 0 {
        out.push(Token::Kw(Kw::For));
        out.push(Token::Ponct(Ponct::Lt));
        match with_params_join(out, &pt.generic_params, Sep::CommaSpace) {
            Result::Ok(()) => {},
            Result::Err(e) => {
                return Result::Err(e);
            },
        }
        out.push(Token::Ponct(Ponct::Gt));
    }
    match with_path(out, &pt.trait_path) {
        Result::Ok(()) => {},
        Result::Err(e) => {
            return Result::Err(e);
        },
    }
    assert(tv(out@) =~= tv(old(out)@) + poly_trait_toks(*pt)->Ok_0);
    Result::Ok(())
}

/// Appends one type expression.
#[verifier::loop_isolation(false)]
#[verifier::rlimit(100)]
pub fn with_type(out: &mut Vec<Token>, t: &Type) -> (r: Result<(), FromItemErrorKind>)
    ensures
        r is Ok <==> type_toks(*t) is Ok,
        r is Ok ==> tv(final(out)@) == tv(old(out)@) + type_toks(*t)->Ok_0,
        r is Err ==> r->Err_0 == type_toks(*t)->Err_0,
    decreases *t, 1int,
{
    match t {
        Type::ResolvedPath(p) => {
            match with_path(out, p) {
                Result::Ok(()) => {},
                Result::Err(e) => {
                    return Result::Err(e);
                },
            }
            proof { assert(tv(out@) =~= tv(old(out)@) + type_toks(*t)->Ok_0); }
            return Result::Ok(());
        },
        Type::DynTrait(dt) => {
            out.push(Token::Kw(Kw::Dyn));
            if dt.traits.len() > 0 {
                out.push(Token::Special(SpecialToken::Space));
                match with_polys_join(out, &dt.traits, Sep::Plus) {
                    Result::Ok(()) => {},
                    Result::Err(e) => {
                        return Result::Err(e);
                    },
                }
            }
            match &dt.lifetime {
                Option::Some(lt) => {
                    out.push(Token::Special(SpecialToken::Space));
                    out.push(Token::Ponct(Ponct::Plus));
                    out.push(Token::Ident(lt.clone(), None));
                },
                Option::None => {},
            }
            proof { assert(tv(out@) =~= tv(old(out)@) + type_toks(*t)->Ok_0); }
            return Result::Ok(());
        },
        Type::Generic(g) => {
            out.push(Token::Ident(g.clone(), None));
            proof { assert(tv(out@) =~= tv(old(out)@) + type_toks(*t)->Ok_0); }
            return Result::Ok(());
        },
        Type::Primitive(p) => {
            if string_is(p, "never") {
                out.push(Token::Ident("!".to_owned(), None));
            } else {
                out.push(Token::Primitive(p.clone()));
            }
            proof { assert(tv(out@) =~= tv(old(out)@) + type_toks(*t)->Ok_0); }
            return Result::Ok(());
        },
        Type::FunctionPointer(_) => {
            return with_type_fnptr(out, t);
        },
        Type::Tuple(types) => {
            out.push(Token::Ponct(Ponct::OpenParen));
            match with_types_join(out, types, Sep::CommaSpace) {
                Result::Ok(()) => {},
                Result::Err(e) => {
                    return Result::Err(e);
                },
            }
            out.push(Token::Ponct(Ponct::CloseParen));
            proof { assert(tv(out@) =~= tv(old(out)@) + type_toks(*t)->Ok_0); }
            return Result::Ok(());
        },
        Type::Slice(b) => {
            out.push(Token::Ponct(Ponct::OpenBracket));
            match with_type(out, &*b) {
                Result::Ok(()) => {},
                Result::Err(e) => {
                    return Result::Err(e);
                },
            }
            out.push(Token::Ponct(Ponct::CloseBracket));
            proof { assert(tv(out@) =~= tv(old(out)@) + type_toks(*t)->Ok_0); }
            return Result::Ok(());
        },
        Type::Array { ty, len } => {
            out.push(Token::Ponct(Ponct::OpenBracket));
            match with_type(out, &*ty) {
                Result::Ok(()) => {},
                Result::Err(e) => {
                    return Result::Err(e);
                },
            }
            out.push(Token::Ponct(Ponct::Semi));
            out.push(Token::Special(SpecialToken::Space));
            out.push(Token::Ident(len.clone(), None));
            out.push(Token::Ponct(Ponct::CloseBracket));
            proof { assert(tv(out@) =~= tv(old(out)@) + type_toks(*t)->Ok_0); }
            return Result::Ok(());
        },
        Type::ImplTrait(bounds) => {
            if bounds.len() > 0 {
                out.push(Token::Kw(Kw::Impl));
                out.push(Token::Special(SpecialToken::Space));
                match with_bounds_join(out, bounds, Sep::Plus) {
                    Result::Ok(()) => {},
                    Result::Err(e) => {
                        return Result::Err(e);
                    },
                }
            }
            proof { assert(tv(out@) =~= tv(old(out)@) + type_toks(*t)->Ok_0); }
            return Result::Ok(());
        },
        Type::Infer => {
            out.push(Token::Ident("_".to_owned(), None));
            proof { assert(tv(out@) =~= tv(old(out)@) + type_toks(*t)->Ok_0); }
            return Result::Ok(());
        },
        Type::RawPointer { mutable, ty } => {
            out.push(Token::Kw(Kw::Star));
            out.push(Token::Kw(if *mutable { Kw::Mut } else { Kw::Const }));
            out.push(Token::Special(SpecialToken::Space));
            match with_type(out, &*ty) {
                Result::Ok(()) => {},
                Result::Err(e) => {
                    return Result::Err(e);
                },
            }
            proof { assert(tv(out@) =~= tv(old(out)@) + type_toks(*t)->Ok_0); }
            return Result::Ok(());
        },
        Type::BorrowedRef { lifetime, mutable, ty } => {
            out.push(Token::Kw(Kw::Amp));
            match lifetime {
                Option::Some(lt) => {
                    out.push(Token::Ident(lt.clone(), None));
                    out.push(Token::Special(SpecialToken::Space));
                },
                Option::None => {},
            }
            if *mutable {
                out.push(Token::Kw(Kw::Mut));
                out.push(Token::Special(SpecialToken::Space));
            }
            match with_type(out, &*ty) {
                Result::Ok(()) => {},
                Result::Err(e) => {
                    return Result::Err(e);
                },
            }
            proof { assert(tv(out@) =~= tv(old(out)@) + type_toks(*t)->Ok_0); }
            return Result::Ok(());
        },
        Type::QualifiedPath { .. } => {
            return with_type_qpath(out, t);
        },
    }
}


/// Appends a function-pointer type expression.
#[verifier::loop_isolation(false)]
#[verifier::rlimit(100)]
fn with_type_fnptr(out: &mut Vec<Token>, t: &Type) -> (r: Result<(), FromItemErrorKind>)
    requires
        *t is FunctionPointer,
    ensures
        r is Ok <==> type_toks(*t) is Ok,
        r is Ok ==> tv(final(out)@) == tv(old(out)@) + type_toks(*t)->Ok_0,
        r is Err ==> r->Err_0 == type_toks(*t)->Err_0,
    decreases *t, 0int,
{
    match t {
        Type::FunctionPointer(fp) => {
            with_header(out, &fp.header);
            out.push(Token::Kw(Kw::Fn));
            if fp.generic_params.len() > 0 {
                out.push(Token::Ponct(Ponct::Lt));
                match with_params_join(out, &fp.generic_params, Sep::CommaSpace) {
                    Result::Ok(()) => {},
                    Result::Err(e) => {
                        return Result::Err(e);
                    },
                }
                out.push(Token::Ponct(Ponct::Gt));
            }
            out.push(Token::Ponct(Ponct::OpenParen));
            match with_input_tys_join(out, &fp.decl.inputs, Sep::CommaSpace) {
                Result::Ok(()) => {},
                Result::Err(e) => {
                    return Result::Err(e);
                },
            }
            out.push(Token::Ponct(Ponct::CloseParen));
            match &fp.decl.output {
                Option::Some(o) => {
                    out.push(Token::Special(SpecialToken::Space));
                    out.push(Token::Ponct(Ponct::Minus));
                    out.push(Token::Ponct(Ponct::Gt));
                    out.push(Token::Special(SpecialToken::Space));
                    match with_type(out, o) {
                        Result::Ok(()) => {},
                        Result::Err(e) => {
                            return Result::Err(e);
                        },
                    }
                },
                Option::None => {},
            }
            proof { assert(tv(out@) =~= tv(old(out)@) + type_toks(*t)->Ok_0); }
            Result::Ok(())
        },
        _ => {
            proof { assert(false); }
            Result::Ok(())
        },
    }
}

/// Appends a qualified associated path.
#[verifier::loop_isolation(false)]
#[verifier::rlimit(100)]
fn with_type_qpath(out: &mut Vec<Token>, t: &Type) -> (r: Result<(), FromItemErrorKind>)
    requires
        *t is QualifiedPath,
    ensures
        r is Ok <==> type_toks(*t) is Ok,
        r is Ok ==> tv(final(out)@) == tv(old(out)@) + type_toks(*t)->Ok_0,
        r is Err ==> r->Err_0 == type_toks(*t)->Err_0,
    decreases *t, 0int,
{
    match t {
        Type::QualifiedPath { name, args, self_ty, trait_path } => {
            match trait_path {
                Option::Some(tr) => {
                    out.push(Token::Ponct(Ponct::Lt));
                    match with_type(out, &*self_ty) {
                        Result::Ok(()) => {},
                        Result::Err(e) => {
                            return Result::Err(e);
                        },
                    }
                    out.push(Token::Special(SpecialToken::Space));
                    out.push(Token::Kw(Kw::As));
                    out.push(Token::Special(SpecialToken::Space));
                    match with_path(out, tr) {
                        Result::Ok(()) => {},
                        Result::Err(e) => {
                            return Result::Err(e);
                        },
                    }
                    out.push(Token::Ponct(Ponct::Gt));
                    out.push(Token::Ponct(Ponct::PathSep));
                    out.push(Token::Ident(name.clone(), None));
                    match with_generic_args(out, &*args) {
                        Result::Ok(()) => {},
                        Result::Err(e) => {
                            return Result::Err(e);
                        },
                    }
                },
                Option::None => {
                    match with_type(out, &*self_ty) {
                        Result::Ok(()) => {},
                        Result::Err(e) => {
                            return Result::Err(e);
                        },
                    }
                    out.push(Token::Ponct(Ponct::PathSep));
                    out.push(Token::Ident(name.clone(), None));
                    match with_generic_args(out, &*args) {
                        Result::Ok(()) => {},
                        Result::Err(e) => {
                            return Result::Err(e);
                        },
                    }
                },
            }
            proof { assert(tv(out@) =~= tv(old(out)@) + type_toks(*t)->Ok_0); }
            Result::Ok(())
        },
        _ => {
            proof { assert(false); }
            Result::Ok(())
        },
    }
}

/// Appends the idents of a lifetime list, separated by ` + `.
#[verifier::loop_isolation(false)]
pub fn with_strs_join(out: &mut Vec<Token>, ss: &Vec<String>)
    ensures
        tv(final(out)@) == tv(old(out)@) + strs_join(ss@, 0),
{
    let mut i: usize = 0;
    while i < ss.len()
        invariant
            i <= ss@.len(),
            tv(out@) + strs_join(ss@, i as int) == tv(old(out)@) + strs_join(ss@, 0),
        decreases ss@.len() - i,
    {
        if i > 0 {
            push_sep(out, Sep::Plus);
        }
        out.push(Token::Ident(ss[i].clone(), None));
        i = i + 1;
    }
    assert(tv(out@) =~= tv(old(out)@) + strs_join(ss@, 0));
}

/// Appends `one type` over a list, separated.
#[verifier::loop_isolation(false)]
#[verifier::rlimit(100)]
pub fn with_types_join(out: &mut Vec<Token>, xs: &Vec<Type>, sep: Sep) -> (r: Result<
    (),
    FromItemErrorKind,
>)
    ensures
        r is Ok <==> types_join(xs@, 0, sep_toks(sep)) is Ok,
        r is Ok ==> tv(final(out)@) == tv(old(out)@) + types_join(xs@, 0, sep_toks(sep))->Ok_0,
        r is Err ==> r->Err_0 == types_join(xs@, 0, sep_toks(sep))->Err_0,
    decreases *xs, 0int,
{
    let mut i: usize = 0;
    while i < xs.len()
        invariant
            i <= xs@.len(),
            types_join(xs@, 0, sep_toks(sep)) is Ok <==> types_join(xs@, i as int, sep_toks(sep)) is Ok,
            types_join(xs@, i as int, sep_toks(sep)) is Err ==> types_join(xs@, i as int, sep_toks(sep))->Err_0
                == types_join(xs@, 0, sep_toks(sep))->Err_0,
            types_join(xs@, i as int, sep_toks(sep)) is Ok ==> tv(out@) + types_join(xs@, i as int, sep_toks(sep))->Ok_0
                == tv(old(out)@) + types_join(xs@, 0, sep_toks(sep))->Ok_0,
        decreases xs@.len() - i,
    {
        if i > 0 {
            push_sep(out, sep);
        }
        proof {
            assert(decreases_to!(*xs => xs@[i as int]));
        }
        match with_type(out, &xs[i]) {
            Result::Ok(()) => {},
            Result::Err(e) => {
                return Result::Err(e);
            },
        }
        i = i + 1;
    }
    Result::Ok(())
}

/// Appends `one generic argument` over a list, separated.
#[verifier::loop_isolation(false)]
pub fn with_args_join(out: &mut Vec<Token>, xs: &Vec<GenericArg>, sep: Sep) -> (r: Result<
    (),
    FromItemErrorKind,
>)
    ensures
        r is Ok <==> args_join(xs@, 0, sep_toks(sep)) is Ok,
        r is Ok ==> tv(final(out)@) == tv(old(out)@) + args_join(xs@, 0, sep_toks(sep))->Ok_0,
        r is Err ==> r->Err_0 == args_join(xs@, 0, sep_toks(sep))->Err_0,
    decreases *xs, 0int,
{
    let mut i: usize = 0;
    while i < xs.len()
        invariant
            i <= xs@.len(),
            args_join(xs@, 0, sep_toks(sep)) is Ok <==> args_join(xs@, i as int, sep_toks(sep)) is Ok,
            args_join(xs@, i as int, sep_toks(sep)) is Err ==> args_join(xs@, i as int, sep_toks(sep))->Err_0
                == args_join(xs@, 0, sep_toks(sep))->Err_0,
            args_join(xs@, i as int, sep_toks(sep)) is Ok ==> tv(out@) + args_join(xs@, i as int, sep_toks(sep))->Ok_0
                == tv(old(out)@) + args_join(xs@, 0, sep_toks(sep))->Ok_0,
        decreases xs@.len() - i,
    {
        if i > 0 {
            push_sep(out, sep);
        }
        proof {
            assert(decreases_to!(*xs => xs@[i as int]));
        }
        match with_generic_arg(out, &xs[i]) {
            Result::Ok(()) => {},
            Result::Err(e) => {
                return Result::Err(e);
            },
        }
        i = i + 1;
    }
    Result::Ok(())
}

/// Appends `one binding` over a list, separated.
#[verifier::loop_isolation(false)]
pub fn with_bindings_join(out: &mut Vec<Token>, xs: &Vec<TypeBinding>, sep: Sep) -> (r: Result<
    (),
    FromItemErrorKind,
>)
    ensures
        r is Ok <==> bindings_join(xs@, 0, sep_toks(sep)) is Ok,
        r is Ok ==> tv(final(out)@) == tv(old(out)@) + bindings_join(xs@, 0, sep_toks(sep))->Ok_0,
        r is Err ==> r->Err_0 == bindings_join(xs@, 0, sep_toks(sep))->Err_0,
    decreases *xs, 0int,
{
    let mut i: usize = 0;
    while i < xs.len()
        invariant
            i <= xs@.len(),
            bindings_join(xs@, 0, sep_toks(sep)) is Ok <==> bindings_join(xs@, i as int, sep_toks(sep)) is Ok,
            bindings_join(xs@, i as int, sep_toks(sep)) is Err ==> bindings_join(xs@, i as int, sep_toks(sep))->Err_0
                == bindings_join(xs@, 0, sep_toks(sep))->Err_0,
            bindings_join(xs@, i as int, sep_toks(sep)) is Ok ==> tv(out@) + bindings_join(xs@, i as int, sep_toks(sep))->Ok_0
                == tv(old(out)@) + bindings_join(xs@, 0, sep_toks(sep))->Ok_0,
        decreases xs@.len() - i,
    {
        if i > 0 {
            push_sep(out, sep);
        }
        proof {
            assert(decreases_to!(*xs => xs@[i as int]));
        }
        match with_type_binding(out, &xs[i]) {
            Result::Ok(()) => {},
            Result::Err(e) => {
                return Result::Err(e);
            },
        }
        i = i + 1;
    }
    Result::Ok(())
}

/// Appends `one bound` over a list, separated.
#[verifier::loop_isolation(false)]
pub fn with_bounds_join(out: &mut Vec<Token>, xs: &Vec<GenericBound>, sep: Sep) -> (r: Result<
    (),
    FromItemErrorKind,
>)
    ensures
        r is Ok <==> bounds_join(xs@, 0, sep_toks(sep)) is Ok,
        r is Ok ==> tv(final(out)@) == tv(old(out)@) + bounds_join(xs@, 0, sep_toks(sep))->Ok_0,
        r is Err ==> r->Err_0 == bounds_join(xs@, 0, sep_toks(sep))->Err_0,
    decreases *xs, 0int,
{
    let mut i: usize = 0;
    while i < xs.len()
        invariant
            i <= xs@.len(),
            bounds_join(xs@, 0, sep_toks(sep)) is Ok <==> bounds_join(xs@, i as int, sep_toks(sep)) is Ok,
            bounds_join(xs@, i as int, sep_toks(sep)) is Err ==> bounds_join(xs@, i as int, sep_toks(sep))->Err_0
                == bounds_join(xs@, 0, sep_toks(sep))->Err_0,
            bounds_join(xs@, i as int, sep_toks(sep)) is Ok ==> tv(out@) + bounds_join(xs@, i as int, sep_toks(sep))->Ok_0
                == tv(old(out)@) + bounds_join(xs@, 0, sep_toks(sep))->Ok_0,
        decreases xs@.len() - i,
    {
        if i > 0 {
            push_sep(out, sep);
        }
        proof {
            assert(decreases_to!(*xs => xs@[i as int]));
        }
        match with_generic_bound(out, &xs[i]) {
            Result::Ok(()) => {},
            Result::Err(e) => {
                return Result::Err(e);
            },
        }
        i = i + 1;
    }
    Result::Ok(())
}

/// Appends `one parameter definition` over a list, separated.
#[verifier::loop_isolation(false)]
pub fn with_params_join(out: &mut Vec<Token>, xs: &Vec<GenericParamDef>, sep: Sep) -> (r: Result<
    (),
    FromItemErrorKind,
>)
    ensures
        r is Ok <==> params_join(xs@, 0, sep_toks(sep)) is Ok,
        r is Ok ==> tv(final(out)@) == tv(old(out)@) + params_join(xs@, 0, sep_toks(sep))->Ok_0,
        r is Err ==> r->Err_0 == params_join(xs@, 0, sep_toks(sep))->Err_0,
    decreases *xs, 0int,
{
    let mut i: usize = 0;
    while i < xs.len()
        invariant
            i <= xs@.len(),
            params_join(xs@, 0, sep_toks(sep)) is Ok <==> params_join(xs@, i as int, sep_toks(sep)) is Ok,
            params_join(xs@, i as int, sep_toks(sep)) is Err ==> params_join(xs@, i as int, sep_toks(sep))->Err_0
                == params_join(xs@, 0, sep_toks(sep))->Err_0,
            params_join(xs@, i as int, sep_toks(sep)) is Ok ==> tv(out@) + params_join(xs@, i as int, sep_toks(sep))->Ok_0
                == tv(old(out)@) + params_join(xs@, 0, sep_toks(sep))->Ok_0,
        decreases xs@.len() - i,
    {
        if i > 0 {
            push_sep(out, sep);
        }
        proof {
            assert(decreases_to!(*xs => xs@[i as int]));
        }
        match with_generic_param_def(out, &xs[i]) {
            Result::Ok(()) => {},
            Result::Err(e) => {
                return Result::Err(e);
            },
        }
        i = i + 1;
    }
    Result::Ok(())
}

/// Appends `one trait reference` over a list, separated.
#[verifier::loop_isolation(false)]
pub fn with_polys_join(out: &mut Vec<Token>, xs: &Vec<PolyTrait>, sep: Sep) -> (r: Result<
    (),
    FromItemErrorKind,
>)
    ensures
        r is Ok <==> polys_join(xs@, 0, sep_toks(sep)) is Ok,
        r is Ok ==> tv(final(out)@) == tv(old(out)@) + polys_join(xs@, 0, sep_toks(sep))->Ok_0,
        r is Err ==> r->Err_0 == polys_join(xs@, 0, sep_toks(sep))->Err_0,
    decreases *xs, 0int,
{
    let mut i: usize = 0;
    while i < xs.len()
        invariant
            i <= xs@.len(),
            polys_join(xs@, 0, sep_toks(sep)) is Ok <==> polys_join(xs@, i as int, sep_toks(sep)) is Ok,
            polys_join(xs@, i as int, sep_toks(sep)) is Err ==> polys_join(xs@, i as int, sep_toks(sep))->Err_0
                == polys_join(xs@, 0, sep_toks(sep))->Err_0,
            polys_join(xs@, i as int, sep_toks(sep)) is Ok ==> tv(out@) + polys_join(xs@, i as int, sep_toks(sep))->Ok_0
                == tv(old(out)@) + polys_join(xs@, 0, sep_toks(sep))->Ok_0,
        decreases xs@.len() - i,
    {
        if i > 0 {
            push_sep(out, sep);
        }
        proof {
            assert(decreases_to!(*xs => xs@[i as int]));
        }
        match with_poly_trait(out, &xs[i]) {
            Result::Ok(()) => {},
            Result::Err(e) => {
                return Result::Err(e);
            },
        }
        i = i + 1;
    }
    Result::Ok(())
}

/// Appends `one where-predicate` over a list, separated.
#[verifier::loop_isolation(false)]
pub fn with_preds_join(out: &mut Vec<Token>, xs: &Vec<WherePredicate>, sep: Sep) -> (r: Result<
    (),
    FromItemErrorKind,
>)
    ensures
        r is Ok <==> preds_join(xs@, 0, sep_toks(sep)) is Ok,
        r is Ok ==> tv(final(out)@) == tv(old(out)@) + preds_join(xs@, 0, sep_toks(sep))->Ok_0,
        r is Err ==> r->Err_0 == preds_join(xs@, 0, sep_toks(sep))->Err_0,
    decreases *xs, 0int,
{
    let mut i: usize = 0;
    while i < xs.len()
        invariant
            i <= xs@.len(),
            preds_join(xs@, 0, sep_toks(sep)) is Ok <==> preds_join(xs@, i as int, sep_toks(sep)) is Ok,
            preds_join(xs@, i as int, sep_toks(sep)) is Err ==> preds_join(xs@, i as int, sep_toks(sep))->Err_0
                == preds_join(xs@, 0, sep_toks(sep))->Err_0,
            preds_join(xs@, i as int, sep_toks(sep)) is Ok ==> tv(out@) + preds_join(xs@, i as int, sep_toks(sep))->Ok_0
                == tv(old(out)@) + preds_join(xs@, 0, sep_toks(sep))->Ok_0,
        decreases xs@.len() - i,
    {
        if i > 0 {
            push_sep(out, sep);
        }
        proof {
            assert(decreases_to!(*xs => xs@[i as int]));
        }
        match with_where_predicate(out, &xs[i]) {
            Result::Ok(()) => {},
            Result::Err(e) => {
                return Result::Err(e);
            },
        }
        i = i + 1;
    }
    Result::Ok(())
}

/// Appends `one input type` over a list, separated.
#[verifier::loop_isolation(false)]
#[verifier::rlimit(100)]
pub fn with_input_tys_join(out: &mut Vec<Token>, xs: &Vec<(String, Type)>, sep: Sep) -> (r: Result<
    (),
    FromItemErrorKind,
>)
    ensures
        r is Ok <==> input_tys_join(xs@, 0, sep_toks(sep)) is Ok,
        r is Ok ==> tv(final(out)@) == tv(old(out)@) + input_tys_join(xs@, 0, sep_toks(sep))->Ok_0,
        r is Err ==> r->Err_0 == input_tys_join(xs@, 0, sep_toks(sep))->Err_0,
    decreases *xs, 0int,
{
    let mut i: usize = 0;
    while i < xs.len()
        invariant
            i <= xs@.len(),
            input_tys_join(xs@, 0, sep_toks(sep)) is Ok <==> input_tys_join(xs@, i as int, sep_toks(sep)) is Ok,
            input_tys_join(xs@, i as int, sep_toks(sep)) is Err ==> input_tys_join(xs@, i as int, sep_toks(sep))->Err_0
                == input_tys_join(xs@, 0, sep_toks(sep))->Err_0,
            input_tys_join(xs@, i as int, sep_toks(sep)) is Ok ==> tv(out@) + input_tys_join(xs@, i as int, sep_toks(sep))->Ok_0
                == tv(old(out)@) + input_tys_join(xs@, 0, sep_toks(sep))->Ok_0,
        decreases xs@.len() - i,
    {
        if i > 0 {
            push_sep(out, sep);
        }
        proof {
            assert(decreases_to!(*xs => xs@[i as int]));
            assert(input_ty_toks(xs@[i as int]) == type_toks(xs@[i as int].1));
        }
        match with_type(out, &xs[i].1) {
            Result::Ok(()) => {},
            Result::Err(e) => {
                return Result::Err(e);
            },
        }
        i = i + 1;
    }
    Result::Ok(())
}

/// Appends `one named input` over a list, separated.
#[verifier::loop_isolation(false)]
#[verifier::rlimit(100)]
pub fn with_inputs_join(out: &mut Vec<Token>, xs: &Vec<(String, Type)>, sep: Sep) -> (r: Result<
    (),
    FromItemErrorKind,
>)
    ensures
        r is Ok <==> inputs_join(xs@, 0, sep_toks(sep)) is Ok,
        r is Ok ==> tv(final(out)@) == tv(old(out)@) + inputs_join(xs@, 0, sep_toks(sep))->Ok_0,
        r is Err ==> r->Err_0 == inputs_join(xs@, 0, sep_toks(sep))->Err_0,
    decreases *xs, 0int,
{
    let mut i: usize = 0;
    while i < xs.len()
        invariant
            i <= xs@.len(),
            inputs_join(xs@, 0, sep_toks(sep)) is Ok <==> inputs_join(xs@, i as int, sep_toks(sep)) is Ok,
            inputs_join(xs@, i as int, sep_toks(sep)) is Err ==> inputs_join(xs@, i as int, sep_toks(sep))->Err_0
                == inputs_join(xs@, 0, sep_toks(sep))->Err_0,
            inputs_join(xs@, i as int, sep_toks(sep)) is Ok ==> tv(out@) + inputs_join(xs@, i as int, sep_toks(sep))->Ok_0
                == tv(old(out)@) + inputs_join(xs@, 0, sep_toks(sep))->Ok_0,
        decreases xs@.len() - i,
    {
        if i > 0 {
            push_sep(out, sep);
        }
        proof {
            assert(decreases_to!(*xs => xs@[i as int]));
        }
        match {
            let inp = &xs[i];
            if !string_is(&inp.0, "self") {
                out.push(Token::Ident(inp.0.clone(), None));
                out.push(Token::Ponct(Ponct::Colon));
                out.push(Token::Special(SpecialToken::Space));
            }
            with_type(out, &inp.1)
        } {
            Result::Ok(()) => {},
            Result::Err(e) => {
                return Result::Err(e);
            },
        }
        i = i + 1;
    }
    Result::Ok(())
}

/// Appends parameter definitions over `xs[from..to]`, separated.
#[verifier::loop_isolation(false)]
pub fn with_params_join_range(
    out: &mut Vec<Token>,
    xs: &Vec<GenericParamDef>,
    from: usize,
    to: usize,
    sep: Sep,
) -> (r: Result<(), FromItemErrorKind>)
    requires
        from <= to <= xs@.len(),
    ensures
        r is Ok <==> params_join_range(xs@, from as int, from as int, to as int, sep_toks(sep)) is Ok,
        r is Ok ==> tv(final(out)@) == tv(old(out)@) + params_join_range(
            xs@,
            from as int,
            from as int,
            to as int,
            sep_toks(sep),
        )->Ok_0,
        r is Err ==> r->Err_0 == params_join_range(
            xs@,
            from as int,
            from as int,
            to as int,
            sep_toks(sep),
        )->Err_0,
    decreases *xs, 0int,
{
    let mut i: usize = from;
    while i < to
        invariant
            from <= i <= to,
            params_join_range(xs@, from as int, from as int, to as int, sep_toks(sep)) is Ok
                <==> params_join_range(xs@, from as int, i as int, to as int, sep_toks(sep)) is Ok,
            params_join_range(xs@, from as int, i as int, to as int, sep_toks(sep)) is Err
                ==> params_join_range(xs@, from as int, i as int, to as int, sep_toks(sep))->Err_0
                == params_join_range(xs@, from as int, from as int, to as int, sep_toks(sep))->Err_0,
            params_join_range(xs@, from as int, i as int, to as int, sep_toks(sep)) is Ok
                ==> tv(out@) + params_join_range(xs@, from as int, i as int, to as int, sep_toks(sep))->Ok_0
                == tv(old(out)@) + params_join_range(xs@, from as int, from as int, to as int, sep_toks(sep))->Ok_0,
        decreases to - i,
    {
        if i > from {
            push_sep(out, sep);
        }
        proof {
            assert(decreases_to!(*xs => xs@[i as int]));
        }
        match with_generic_param_def(out, &xs[i]) {
            Result::Ok(()) => {},
            Result::Err(e) => {
                return Result::Err(e);
            },
        }
        i = i + 1;
    }
    Result::Ok(())
}

} // verus!
