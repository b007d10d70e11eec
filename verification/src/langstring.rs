//! The code-fence info-string parser: classifies a fenced code block's
//! language string into the flags that decide how the block is rendered.
//!
//! An info string is split into tokens at commas, spaces and tabs, after
//! trimming and after removing one surrounding brace pair; each token is
//! trimmed and loses one leading dot. Known tokens set flags; an unknown
//! token marks the block as carrying other tags, which suppresses the
//! language default unless a language tag was also seen.

use vstd::prelude::*;

use crate::pp::{chars_of, str_eq_chars};

verus! {

/// Which examples are excluded from testing.
#[derive(Debug, PartialEq, Eq, Clone)]
pub enum Ignore {
    All,
    Nothing,
    Listed(Vec<String>),
}

/// Ghost image of [`Ignore`].
#[verifier::ext_equal]
pub enum IgnoreV {
    All,
    Nothing,
    Listed(Seq<Seq<char>>),
}

impl View for Ignore {
    type V = IgnoreV;

    open spec fn view(&self) -> IgnoreV {
        match self {
            Ignore::All => IgnoreV::All,
            Ignore::Nothing => IgnoreV::Nothing,
            Ignore::Listed(v) => IgnoreV::Listed(v@.map_values(|s: String| s@)),
        }
    }
}

/// The parsed flags of one code-fence info string.
#[derive(Debug, PartialEq, Eq, Clone)]
pub struct LangString {
    pub original: String,
    pub should_panic: bool,
    pub no_run: bool,
    pub ignore: Ignore,
    pub rust: bool,
    pub test_harness: bool,
    pub compile_fail: bool,
    pub error_codes: Vec<String>,
    pub allow_fail: bool,
    pub edition: Option<u8>,
}

/// Ghost image of [`LangString`].
#[verifier::ext_equal]
pub struct LangStringV {
    pub original: Seq<char>,
    pub should_panic: bool,
    pub no_run: bool,
    pub ignore: IgnoreV,
    pub rust: bool,
    pub test_harness: bool,
    pub compile_fail: bool,
    pub error_codes: Seq<Seq<char>>,
    pub allow_fail: bool,
    pub edition: Option<u8>,
}

impl View for LangString {
    type V = LangStringV;

    open spec fn view(&self) -> LangStringV {
        LangStringV {
            original: self.original@,
            should_panic: self.should_panic,
            no_run: self.no_run,
            ignore: self.ignore@,
            rust: self.rust,
            test_harness: self.test_harness,
            compile_fail: self.compile_fail,
            error_codes: self.error_codes@.map_values(|s: String| s@),
            allow_fail: self.allow_fail,
            edition: self.edition,
        }
    }
}

/// Whether a character separates info-string tokens.
pub open spec fn is_sep(c: char) -> bool {
    c == ',' || c == ' ' || c == '\t'
}

/// Whether a character is trimmed from a token's ends: the whitespace
/// characters, the Unicode ones included.
pub open spec fn is_ws(c: char) -> bool {
    ||| ('\u{0009}' <= c && c <= '\u{000D}')
    ||| c == ' '
    ||| c == '\u{0085}'
    ||| c == '\u{00A0}'
    ||| c == '\u{1680}'
    ||| ('\u{2000}' <= c && c <= '\u{200A}')
    ||| c == '\u{2028}'
    ||| c == '\u{2029}'
    ||| c == '\u{202F}'
    ||| c == '\u{205F}'
    ||| c == '\u{3000}'
}

/// First index at or after `i` holding a non-whitespace character.
pub open spec fn skip_ws(s: Seq<char>, i: int) -> int
    decreases s.len() - i,
{
    if i < 0 || i >= s.len() {
        s.len() as int
    } else if is_ws(s[i]) {
        skip_ws(s, i + 1)
    } else {
        i
    }
}

/// One past the last index before `j` holding a non-whitespace character.
pub open spec fn rskip_ws(s: Seq<char>, j: int) -> int
    decreases j,
{
    if j <= 0 {
        0
    } else if is_ws(s[j - 1]) {
        rskip_ws(s, j - 1)
    } else {
        j
    }
}

/// The text with leading and trailing whitespace removed.
pub open spec fn trimmed(s: Seq<char>) -> Seq<char> {
    let from = skip_ws(s, 0);
    let to = rskip_ws(s, s.len() as int);
    if from <= to {
        s.subrange(from, to)
    } else {
        Seq::empty()
    }
}

/// One finished raw token: trimmed, one leading dot removed, dropped when
/// empty.
pub open spec fn finish_token(cur: Seq<char>) -> Seq<Seq<char>> {
    let t = trimmed(cur);
    let d: Seq<char> = if t.len() > 0 && t[0] == '.' {
        t.subrange(1, t.len() as int)
    } else {
        t
    };
    if d.len() == 0 {
        seq![]
    } else {
        seq![d]
    }
}

/// The normalized tokens of `u[i..]`, given the unfinished token so far.
pub open spec fn split_norm(u: Seq<char>, i: int, cur: Seq<char>) -> Seq<Seq<char>>
    decreases u.len() - i,
{
    if i < 0 || i >= u.len() {
        finish_token(cur)
    } else if is_sep(u[i]) {
        finish_token(cur) + split_norm(u, i + 1, Seq::empty())
    } else {
        split_norm(u, i + 1, cur.push(u[i]))
    }
}

/// The body of an info string: trimmed, and without one surrounding brace
/// pair when both braces are present.
pub open spec fn fence_body(s: Seq<char>) -> Seq<char> {
    let t = trimmed(s);
    if t.len() > 0 && t[0] == '{' && t[t.len() - 1] == '}' {
        t.subrange(1, t.len() - 1)
    } else {
        t
    }
}

/// The normalized tokens of a whole info string.
pub open spec fn fence_tokens(s: Seq<char>) -> Seq<Seq<char>> {
    split_norm(fence_body(s), 0, Seq::empty())
}

/// The value of an unsigned decimal text with an optional leading plus sign;
/// nothing if it is empty or holds any other character.
pub open spec fn parse_uint(s: Seq<char>, i: int, acc: nat) -> Option<nat>
    decreases s.len() - i,
{
    if i < 0 || i >= s.len() {
        Option::Some(acc)
    } else if '0' <= s[i] && s[i] <= '9' {
        parse_uint(s, i + 1, (acc * 10 + (s[i] as int - '0' as int)) as nat)
    } else {
        Option::None
    }
}

pub open spec fn parse_number(s: Seq<char>) -> Option<nat> {
    if s.len() == 0 {
        Option::None
    } else if s[0] == '+' {
        if s.len() == 1 {
            Option::None
        } else {
            parse_uint(s, 1, 0)
        }
    } else {
        parse_uint(s, 0, 0)
    }
}

/// A named-ignore token with every repetition of its prefix removed.
pub open spec fn strip_ignore(s: Seq<char>) -> Seq<char>
    decreases s.len(),
{
    if s.len() >= 7 && s.subrange(0, 7) == "ignore-"@ {
        strip_ignore(s.subrange(7, s.len() as int))
    } else {
        s
    }
}

/// The edition number of an edition tag: the parsed value when it fits the
/// edition field, nothing otherwise.
pub open spec fn edition_of(s: Seq<char>) -> Option<u8> {
    match parse_number(s) {
        Option::Some(n) => if n <= 255 {
            Option::Some(n as u8)
        } else {
            Option::None
        },
        Option::None => Option::None,
    }
}

/// The folded parse state: the flags seen so far, whether a language tag and
/// whether an unknown tag was seen, and the collected ignore list.
#[verifier::ext_equal]
pub struct FenceState {
    pub data: LangStringV,
    pub seen_rust: bool,
    pub seen_other: bool,
    pub ignores: Seq<Seq<char>>,
}

/// The state after one token.
pub open spec fn fence_step(st: FenceState, tok: Seq<char>) -> FenceState {
    if tok == "should_panic"@ {
        FenceState {
            data: LangStringV { should_panic: true, ..st.data },
            seen_rust: !st.seen_other,
            ..st
        }
    } else if tok == "no_run"@ {
        FenceState {
            data: LangStringV { no_run: true, ..st.data },
            seen_rust: !st.seen_other,
            ..st
        }
    } else if tok == "ignore"@ {
        FenceState {
            data: LangStringV { ignore: IgnoreV::All, ..st.data },
            seen_rust: !st.seen_other,
            ..st
        }
    } else if tok.len() >= 7 && tok.subrange(0, 7) == "ignore-"@ {
        FenceState {
            ignores: st.ignores.push(strip_ignore(tok)),
            seen_rust: !st.seen_other,
            ..st
        }
    } else if tok == "allow_fail"@ {
        FenceState {
            data: LangStringV { allow_fail: true, ..st.data },
            seen_rust: !st.seen_other,
            ..st
        }
    } else if tok == "rust"@ {
        FenceState { data: LangStringV { rust: true, ..st.data }, seen_rust: true, ..st }
    } else if tok == "test_harness"@ {
        FenceState {
            data: LangStringV { test_harness: true, ..st.data },
            seen_rust: !st.seen_other || st.seen_rust,
            ..st
        }
    } else if tok == "compile_fail"@ {
        FenceState {
            data: LangStringV { compile_fail: true, no_run: true, ..st.data },
            seen_rust: !st.seen_other || st.seen_rust,
            ..st
        }
    } else if tok.len() >= 7 && tok.subrange(0, 7) == "edition"@ {
        FenceState {
            data: LangStringV {
                edition: edition_of(tok.subrange(7, tok.len() as int)),
                ..st.data
            },
            ..st
        }
    } else if tok.len() == 5 && tok[0] == 'E' {
        if parse_number(tok.subrange(1, 5)) is Some {
            FenceState {
                data: LangStringV {
                    error_codes: st.data.error_codes.push(tok),
                    ..st.data
                },
                seen_rust: !st.seen_other || st.seen_rust,
                ..st
            }
        } else {
            FenceState { seen_other: true, ..st }
        }
    } else {
        FenceState { seen_other: true, ..st }
    }
}

/// The state after the tokens of `toks[i..]`.
pub open spec fn fence_fold(toks: Seq<Seq<char>>, i: int, st: FenceState) -> FenceState
    decreases toks.len() - i,
{
    if i < 0 || i >= toks.len() {
        st
    } else {
        fence_fold(toks, i + 1, fence_step(st, toks[i]))
    }
}

/// The parse state every info string starts from.
pub open spec fn fence_init(s: Seq<char>) -> FenceState {
    FenceState {
        data: LangStringV {
            original: s,
            should_panic: false,
            no_run: false,
            ignore: IgnoreV::Nothing,
            rust: true,
            test_harness: false,
            compile_fail: false,
            error_codes: Seq::empty(),
            allow_fail: false,
            edition: Option::None,
        },
        seen_rust: false,
        seen_other: false,
        ignores: Seq::empty(),
    }
}

/// The parse of a whole info string: the folded flags, with named ignores
/// overriding a blanket ignore, and the language default suppressed when
/// only unknown tags were seen.
pub open spec fn fence_parse(s: Seq<char>) -> LangStringV {
    let st = fence_fold(fence_tokens(s), 0, fence_init(s));
    LangStringV {
        ignore: if st.ignores.len() > 0 {
            IgnoreV::Listed(st.ignores)
        } else {
            st.data.ignore
        },
        rust: st.data.rust && (!st.seen_other || st.seen_rust),
        ..st.data
    }
}

/// Trims a character vector, in place of the end indices.
#[verifier::loop_isolation(false)]
fn trim_range(chars: &Vec<char>) -> (r: (usize, usize))
    ensures
        r.0 as int == skip_ws(chars@, 0),
        r.1 as int == rskip_ws(chars@, chars@.len() as int),
        r.0 <= chars@.len(),
        r.1 <= chars@.len(),
{
    let mut from: usize = 0;
    while from < chars.len() && is_ws_exec(chars[from])
        invariant
            from <= chars@.len(),
            skip_ws(chars@, 0) == skip_ws(chars@, from as int),
        decreases chars@.len() - from,
    {
        from = from + 1;
    }
    let mut to: usize = chars.len();
    while to > 0 && is_ws_exec(chars[to - 1])
        invariant
            to <= chars@.len(),
            rskip_ws(chars@, chars@.len() as int) == rskip_ws(chars@, to as int),
        decreases to,
    {
        to = to - 1;
    }
    (from, to)
}

fn is_ws_exec(c: char) -> (r: bool)
    ensures
        r == is_ws(c),
{
    ('\u{0009}' <= c && c <= '\u{000D}') || c == ' ' || c == '\u{0085}' || c == '\u{00A0}' || c
        == '\u{1680}' || ('\u{2000}' <= c && c <= '\u{200A}') || c == '\u{2028}' || c
        == '\u{2029}' || c == '\u{202F}' || c == '\u{205F}' || c == '\u{3000}'
}

fn is_sep_exec(c: char) -> (r: bool)
    ensures
        r == is_sep(c),
{
    c == ',' || c == ' ' || c == '\t'
}

/// The subrange of a character vector, as a fresh vector.
#[verifier::loop_isolation(false)]
fn sub_chars(chars: &Vec<char>, from: usize, to: usize) -> (r: Vec<char>)
    requires
        from <= to <= chars@.len(),
    ensures
        r@ == chars@.subrange(from as int, to as int),
{
    let mut r: Vec<char> = Vec::new();
    let mut i: usize = from;
    while i < to
        invariant
            from <= i <= to <= chars@.len(),
            r@ == chars@.subrange(from as int, i as int),
        decreases to - i,
    {
        r.push(chars[i]);
        i = i + 1;
    }
    assert(r@ =~= chars@.subrange(from as int, to as int));
    r
}

/// Finishes one raw token: trim, strip one leading dot, drop if empty.
#[verifier::loop_isolation(false)]
fn finish_exec(cur: &Vec<char>) -> (r: Option<Vec<char>>)
    ensures
        match r {
            Option::Some(t) => finish_token(cur@) == seq![t@],
            Option::None => finish_token(cur@) == Seq::<Seq<char>>::empty(),
        },
{
    let (from, to) = trim_range(cur);
    if from > to {
        proof {
            assert(trimmed(cur@) =~= Seq::<char>::empty());
        }
        return Option::None;
    }
    let t = sub_chars(cur, from, to);
    let start: usize = if t.len() > 0 && t[0] == '.' {
        1
    } else {
        0
    };
    if t.len() == start {
        proof {
            if start == 1 {
                assert(trimmed(cur@).subrange(1, trimmed(cur@).len() as int) =~= Seq::<
                    char,
                >::empty());
            }
        }
        return Option::None;
    }
    let d = sub_chars(&t, start, t.len());
    proof {
        if start == 0 {
            assert(d@ =~= trimmed(cur@));
        }
    }
    Option::Some(d)
}

/// Splits a fence body into normalized tokens.
#[verifier::loop_isolation(false)]
fn split_exec(u: &Vec<char>) -> (r: Vec<Vec<char>>)
    ensures
        r@.map_values(|t: Vec<char>| t@) == split_norm(u@, 0, Seq::empty()),
{
    let mut toks: Vec<Vec<char>> = Vec::new();
    let mut cur: Vec<char> = Vec::new();
    let mut i: usize = 0;
    while i < u.len()
        invariant
            i <= u@.len(),
            toks@.map_values(|t: Vec<char>| t@) + split_norm(u@, i as int, cur@) == split_norm(
                u@,
                0,
                Seq::empty(),
            ),
        decreases u@.len() - i,
    {
        if is_sep_exec(u[i]) {
            match finish_exec(&cur) {
                Option::Some(t) => {
                    toks.push(t);
                    proof {
                        assert(toks@.map_values(|t2: Vec<char>| t2@) =~= toks@.drop_last()
                            .map_values(|t2: Vec<char>| t2@).push(toks@.last()@));
                    }
                },
                Option::None => {},
            }
            cur = Vec::new();
        } else {
            let c = u[i];
            cur.push(c);
        }
        i = i + 1;
    }
    match finish_exec(&cur) {
        Option::Some(t) => {
            toks.push(t);
            proof {
                assert(toks@.map_values(|t2: Vec<char>| t2@) =~= toks@.drop_last().map_values(
                    |t2: Vec<char>| t2@,
                ).push(toks@.last()@));
            }
        },
        Option::None => {},
    }
    proof {
        assert(toks@.map_values(|t: Vec<char>| t@) =~= split_norm(u@, 0, Seq::empty()));
    }
    toks
}

/// A number that is only ever read from digits is at least any of its
/// running partial values.
proof fn lemma_parse_uint_grows(s: Seq<char>, i: int, acc: nat)
    ensures
        (parse_uint(s, i, acc) is Some) ==> parse_uint(s, i, acc)->0 >= acc,
    decreases s.len() - i,
{
    if !(i < 0 || i >= s.len()) && '0' <= s[i] && s[i] <= '9' {
        lemma_parse_uint_grows(s, i + 1, (acc * 10 + (s[i] as int - '0' as int)) as nat);
        assert(acc * 10 >= acc) by (nonlinear_arith);
    }
}

/// Parses an edition number: early exits once the running value can no
/// longer fit, which is sound because the value only grows.
#[verifier::loop_isolation(false)]
fn parse_edition(sub: &Vec<char>) -> (r: Option<u8>)
    ensures
        r == edition_of(sub@),
{
    let n = sub.len();
    if n == 0 {
        return Option::None;
    }
    let mut i: usize = 0;
    if sub[0] == '+' {
        if n == 1 {
            return Option::None;
        }
        i = 1;
    }
    let ghost base = i as int;
    let mut acc: u32 = 0;
    while i < n
        invariant
            base <= i <= n,
            n == sub@.len(),
            acc <= 255,
            parse_uint(sub@, base, 0) == parse_uint(sub@, i as int, acc as nat),
        decreases n - i,
    {
        let c = sub[i];
        if c < '0' || c > '9' {
            return Option::None;
        }
        acc = acc * 10 + (c as u32 - '0' as u32);
        if acc > 255 {
            proof {
                lemma_parse_uint_grows(sub@, i + 1, acc as nat);
            }
            return Option::None;
        }
        i = i + 1;
    }
    Option::Some(acc as u8)
}

/// Whether a run of digits parses does not depend on the accumulator.
proof fn lemma_parse_uint_some(s: Seq<char>, i: int, acc: nat)
    ensures
        (parse_uint(s, i, acc) is Some) <==> (parse_uint(s, i, 0) is Some),
    decreases s.len() - i,
{
    if !(i < 0 || i >= s.len()) && '0' <= s[i] && s[i] <= '9' {
        lemma_parse_uint_some(s, i + 1, (acc * 10 + (s[i] as int - '0' as int)) as nat);
        lemma_parse_uint_some(s, i + 1, (s[i] as int - '0' as int) as nat);
    }
}

/// Whether a token parses as a number at all.
#[verifier::loop_isolation(false)]
fn is_number(sub: &Vec<char>) -> (r: bool)
    ensures
        r == (parse_number(sub@) is Some),
{
    let n = sub.len();
    if n == 0 {
        return false;
    }
    let mut i: usize = 0;
    if sub[0] == '+' {
        if n == 1 {
            return false;
        }
        i = 1;
    }
    let ghost base = i as int;
    while i < n
        invariant
            base <= i <= n,
            (parse_uint(sub@, base, 0) is Some) <==> (parse_uint(sub@, i as int, 0) is Some),
        decreases n - i,
    {
        let c = sub[i];
        if c < '0' || c > '9' {
            return false;
        }
        proof {
            lemma_parse_uint_some(sub@, i + 1, (c as int - '0' as int) as nat);
        }
        i = i + 1;
    }
    true
}

fn vec_eq_lit(tok: &Vec<char>, lit: &str) -> (r: bool)
    ensures
        r == (tok@ == lit@),
{
    let r = str_eq_chars(lit, tok, 0, tok.len());
    proof {
        assert(tok@.subrange(0, tok@.len() as int) =~= tok@);
    }
    r
}

#[verifier::loop_isolation(false)]
fn to_string_chars(chars: &Vec<char>, from: usize, to: usize) -> (r: String)
    requires
        from <= to <= chars@.len(),
    ensures
        r@ == chars@.subrange(from as int, to as int),
{
    let mut out = String::new();
    let mut i: usize = from;
    while i < to
        invariant
            from <= i <= to <= chars@.len(),
            out@ == chars@.subrange(from as int, i as int),
        decreases to - i,
    {
        push_char(&mut out, chars[i]);
        i = i + 1;
    }
    assert(out@ =~= chars@.subrange(from as int, to as int));
    out
}

/// Relies on String::push: appends exactly the one character.
#[verifier::external_body]
fn push_char(s: &mut String, c: char)
    ensures
        final(s)@ == old(s)@.push(c),
{
    s.push(c);
}

impl LangString {
    /// The flags every info string starts from.
    pub fn default_flags(original: String) -> (r: LangString)
        ensures
            r@ == fence_init(original@).data,
    {
        let r = LangString {
            original,
            should_panic: false,
            no_run: false,
            ignore: Ignore::Nothing,
            rust: true,
            test_harness: false,
            compile_fail: false,
            error_codes: Vec::new(),
            allow_fail: false,
            edition: Option::None,
        };
        proof {
            assert(r@ =~~= fence_init(original@).data);
        }
        r
    }

    /// Parses one code-fence info string.
    #[verifier::loop_isolation(false)]
    #[verifier::rlimit(100)]
    pub fn parse(string: &str) -> (r: LangString)
        ensures
            r@ == fence_parse(string@),
    {
        let chars = chars_of(string);
        let (from, to) = trim_range(&chars);
        let t = if from > to {
            proof {
                assert(trimmed(chars@) =~= Seq::<char>::empty());
            }
            Vec::new()
        } else {
            sub_chars(&chars, from, to)
        };
        proof {
            assert(t@ == trimmed(chars@));
        }
        let body = if t.len() > 0 && t[0] == '{' && t[t.len() - 1] == '}' {
            sub_chars(&t, 1, t.len() - 1)
        } else {
            proof {
                assert(t@.subrange(0, t@.len() as int) =~= t@);
            }
            sub_chars(&t, 0, t.len())
        };
        proof {
            assert(body@ == fence_body(string@));
        }
        let toks = split_exec(&body);

        let mut data = LangString::default_flags(string.to_owned());
        let mut seen_rust = false;
        let mut seen_other = false;
        let mut ignores: Vec<String> = Vec::new();
        let ghost toks_v = toks@.map_values(|t2: Vec<char>| t2@);
        proof {
            assert(FenceState {
                data: data@,
                seen_rust: false,
                seen_other: false,
                ignores: ignores@.map_values(|s2: String| s2@),
            } =~~= fence_init(string@));
        }
        let mut i: usize = 0;
        while i < toks.len()
            invariant
                i <= toks@.len(),
                toks_v == toks@.map_values(|t2: Vec<char>| t2@),
                toks_v == fence_tokens(string@),
                fence_fold(toks_v, 0, fence_init(string@)) == fence_fold(
                    toks_v,
                    i as int,
                    FenceState {
                        data: data@,
                        seen_rust,
                        seen_other,
                        ignores: ignores@.map_values(|s: String| s@),
                    },
                ),
            decreases toks@.len() - i,
        {
            let tok = &toks[i];
            let ghost st0 = FenceState {
                data: data@,
                seen_rust,
                seen_other,
                ignores: ignores@.map_values(|s: String| s@),
            };
            proof {
                assert(toks_v[i as int] == tok@);
            }
            if vec_eq_lit(tok, "should_panic") {
                data.should_panic = true;
                seen_rust = !seen_other;
            } else if vec_eq_lit(tok, "no_run") {
                data.no_run = true;
                seen_rust = !seen_other;
            } else if vec_eq_lit(tok, "ignore") {
                data.ignore = Ignore::All;
                seen_rust = !seen_other;
            } else if tok.len() >= 7 && str_eq_chars("ignore-", tok, 0, 7) {
                let mut start: usize = 0;
                proof {
                    assert(tok@.subrange(0, tok@.len() as int) =~= tok@);
                }
                while tok.len() - start >= 7 && str_eq_chars("ignore-", tok, start, start + 7)
                    invariant
                        start <= tok@.len(),
                        strip_ignore(tok@) == strip_ignore(
                            tok@.subrange(start as int, tok@.len() as int),
                        ),
                    decreases tok@.len() - start,
                {
                    proof {
                        let sub = tok@.subrange(start as int, tok@.len() as int);
                        assert(sub.subrange(0, 7) =~= tok@.subrange(
                            start as int,
                            start + 7,
                        ));
                        assert(sub.subrange(7, sub.len() as int) =~= tok@.subrange(
                            start + 7,
                            tok@.len() as int,
                        ));
                    }
                    start = start + 7;
                }
                proof {
                    let sub = tok@.subrange(start as int, tok@.len() as int);
                    if sub.len() >= 7 {
                        assert(sub.subrange(0, 7) =~= tok@.subrange(start as int, start + 7));
                    }
                    assert(strip_ignore(tok@) == sub);
                }
                ignores.push(to_string_chars(tok, start, tok.len()));
                seen_rust = !seen_other;
                proof {
                    assert(ignores@.map_values(|s: String| s@) =~= st0.ignores.push(
                        strip_ignore(tok@),
                    ));
                }
            } else if vec_eq_lit(tok, "allow_fail") {
                data.allow_fail = true;
                seen_rust = !seen_other;
            } else if vec_eq_lit(tok, "rust") {
                data.rust = true;
                seen_rust = true;
            } else if vec_eq_lit(tok, "test_harness") {
                data.test_harness = true;
                seen_rust = !seen_other || seen_rust;
            } else if vec_eq_lit(tok, "compile_fail") {
                data.compile_fail = true;
                seen_rust = !seen_other || seen_rust;
                data.no_run = true;
            } else if tok.len() >= 7 && str_eq_chars("edition", tok, 0, 7) {
                let sub = sub_chars(tok, 7, tok.len());
                data.edition = parse_edition(&sub);
            } else if tok.len() == 5 && tok[0] == 'E' {
                let sub = sub_chars(tok, 1, 5);
                if is_number(&sub) {
                    data.error_codes.push(to_string_chars(tok, 0, tok.len()));
                    seen_rust = !seen_other || seen_rust;
                    proof {
                        assert(tok@.subrange(0, tok@.len() as int) =~= tok@);
                        assert(data.error_codes@.map_values(|s: String| s@)
                            =~= st0.data.error_codes.push(tok@));
                    }
                } else {
                    seen_other = true;
                }
            } else {
                seen_other = true;
            }
            proof {
                let st1 = FenceState {
                    data: data@,
                    seen_rust,
                    seen_other,
                    ignores: ignores@.map_values(|s: String| s@),
                };
                assert(st1 == fence_step(st0, toks_v[i as int]));
            }
            i = i + 1;
        }
        if ignores.len() > 0 {
            data.ignore = Ignore::Listed(ignores);
        }
        data.rust = data.rust && (!seen_other || seen_rust);
        proof {
            assert(data@ == fence_parse(string@));
        }
        data
    }
}

} // verus!
