//! The engine's sole output unit: a closed set of classified tokens.
//!
//! Identifiers, attribute texts and primitive-type names carry text taken
//! from the item graph; keywords and punctuation are drawn from closed sets.
//! A token sequence is the complete contract between the lowering engine and
//! a page renderer: the renderer interprets token kinds, never item kinds.

use vstd::prelude::*;
use vstd::string::StringExecFns;

verus! {

/// Identifier of an item-graph node, usable as a cross-reference target.
pub type ItemId = u64;

/// A keyword token.
#[derive(Clone, Copy, PartialEq, Eq, Structural, Debug)]
pub enum Kw {
    Pub,
    Crate,
    In,
    As,
    Use,
    Union,
    Struct,
    Enum,
    Trait,
    Auto,
    Unsafe,
    Impl,
    For,
    Where,
    Const,
    Static,
    Mut,
    Async,
    Fn,
    Dyn,
    Type,
    Extern,
    /// The variadic-argument marker of a C-variadic function.
    DotDotDot,
    /// The raw-pointer sigil.
    Star,
    /// The borrow sigil.
    Amp,
    /// The inferred-value marker of a generic argument.
    Underscore,
    /// The relaxed-bound modifier.
    Question,
    /// The conditionally-const relaxed-bound modifier.
    QuestionConst,
}

/// A punctuation token.
#[derive(Clone, Copy, PartialEq, Eq, Structural, Debug)]
pub enum Ponct {
    Lt,
    Gt,
    Comma,
    Colon,
    Semi,
    OpenBrace,
    CloseBrace,
    OpenParen,
    CloseParen,
    OpenBracket,
    CloseBracket,
    Underscore,
    Bang,
    Pound,
    Eq,
    Plus,
    Minus,
    Quote,
    PathSep,
    /// A higher-ranked binder introduction, classified as punctuation when it
    /// opens the parameter list at the head of a trait bound.
    For,
    /// The trailing ellipsis of a partially hidden inline field list.
    DotDotDot,
}

/// A layout or placeholder token.
#[derive(Clone, Copy, PartialEq, Eq, Structural, Debug)]
pub enum SpecialToken {
    NewLine,
    Space,
    Tabulation,
    /// Placeholder for hidden fields or variants: `all` tells whether every
    /// one of them is hidden or only some.
    Hidden { all: bool },
    /// Placeholder for an elided function body.
    Ignored,
}

/// One classified token of a lowered declaration.
#[derive(Clone, PartialEq, Debug)]
pub enum Token {
    /// An identifier, possibly carrying the id of the item it refers to.
    Ident(String, Option<ItemId>),
    Kw(Kw),
    Ponct(Ponct),
    Special(SpecialToken),
    /// The raw text of a preserved attribute.
    Attr(String),
    /// The name of a primitive type.
    Primitive(String),
}

/// Mathematical image of a [`Token`]: texts become character sequences.
pub enum TokenV {
    Ident(Seq<char>, Option<ItemId>),
    Kw(Kw),
    Ponct(Ponct),
    Special(SpecialToken),
    Attr(Seq<char>),
    Primitive(Seq<char>),
}

impl View for Token {
    type V = TokenV;

    open spec fn view(&self) -> TokenV {
        match self {
            Token::Ident(s, id) => TokenV::Ident(s@, *id),
            Token::Kw(k) => TokenV::Kw(*k),
            Token::Ponct(p) => TokenV::Ponct(*p),
            Token::Special(s) => TokenV::Special(*s),
            Token::Attr(s) => TokenV::Attr(s@),
            Token::Primitive(s) => TokenV::Primitive(s@),
        }
    }
}

impl DeepView for Token {
    type V = TokenV;

    open spec fn deep_view(&self) -> TokenV {
        self.view()
    }
}

/// The view of a whole token sequence.
pub open spec fn tv(s: Seq<Token>) -> Seq<TokenV> {
    s.map_values(|t: Token| t@)
}

pub broadcast proof fn tv_push(s: Seq<Token>, t: Token)
    ensures
        #[trigger] tv(s.push(t)) == tv(s).push(t@),
{
    assert(tv(s.push(t)) =~= tv(s).push(t@));
}

pub broadcast proof fn tv_add(a: Seq<Token>, b: Seq<Token>)
    ensures
        #[trigger] tv(a + b) == tv(a) + tv(b),
{
    assert(tv(a + b) =~= tv(a) + tv(b));
}

pub broadcast proof fn tv_len(s: Seq<Token>)
    ensures
        #[trigger] tv(s).len() == s.len(),
{
}

pub broadcast proof fn tv_index(s: Seq<Token>, i: int)
    requires
        0 <= i < s.len(),
    ensures
        #[trigger] tv(s)[i] == s[i]@,
{
}

pub proof fn tv_empty()
    ensures
        tv(Seq::<Token>::empty()) == Seq::<TokenV>::empty(),
{
    assert(tv(Seq::<Token>::empty()) =~= Seq::<TokenV>::empty());
}

/// The spelling of a keyword.
pub open spec fn kw_chars(k: Kw) -> Seq<char> {
    match k {
        Kw::Pub => "pub"@,
        Kw::Crate => "crate"@,
        Kw::In => "in"@,
        Kw::As => "as"@,
        Kw::Use => "use"@,
        Kw::Union => "union"@,
        Kw::Struct => "struct"@,
        Kw::Enum => "enum"@,
        Kw::Trait => "trait"@,
        Kw::Auto => "auto"@,
        Kw::Unsafe => "unsafe"@,
        Kw::Impl => "impl"@,
        Kw::For => "for"@,
        Kw::Where => "where"@,
        Kw::Const => "const"@,
        Kw::Static => "static"@,
        Kw::Mut => "mut"@,
        Kw::Async => "async"@,
        Kw::Fn => "fn"@,
        Kw::Dyn => "dyn"@,
        Kw::Type => "type"@,
        Kw::Extern => "extern"@,
        Kw::DotDotDot => "..."@,
        Kw::Star => "*"@,
        Kw::Amp => "&"@,
        Kw::Underscore => "_"@,
        Kw::Question => "?"@,
        Kw::QuestionConst => "?const"@,
    }
}

/// The spelling of a punctuation token.
pub open spec fn ponct_chars(p: Ponct) -> Seq<char> {
    match p {
        Ponct::Lt => "<"@,
        Ponct::Gt => ">"@,
        Ponct::Comma => ","@,
        Ponct::Colon => ":"@,
        Ponct::Semi => ";"@,
        Ponct::OpenBrace => "{"@,
        Ponct::CloseBrace => "}"@,
        Ponct::OpenParen => "("@,
        Ponct::CloseParen => ")"@,
        Ponct::OpenBracket => "["@,
        Ponct::CloseBracket => "]"@,
        Ponct::Underscore => "_"@,
        Ponct::Bang => "!"@,
        Ponct::Pound => "#"@,
        Ponct::Eq => "="@,
        Ponct::Plus => "+"@,
        Ponct::Minus => "-"@,
        Ponct::Quote => "\""@,
        Ponct::PathSep => "::"@,
        Ponct::For => "for"@,
        Ponct::DotDotDot => "..."@,
    }
}

/// The spelling of a layout or placeholder token.
pub open spec fn special_chars(s: SpecialToken) -> Seq<char> {
    match s {
        SpecialToken::NewLine => "\n"@,
        SpecialToken::Space => " "@,
        SpecialToken::Tabulation => "    "@,
        SpecialToken::Hidden { all } => if all {
            "/* fields hidden */"@
        } else {
            "/* some fields hidden */"@
        },
        SpecialToken::Ignored => "..."@,
    }
}

/// The plain-text spelling of one token.
pub open spec fn token_chars(t: TokenV) -> Seq<char> {
    match t {
        TokenV::Ident(s, _) => s,
        TokenV::Kw(k) => kw_chars(k),
        TokenV::Ponct(p) => ponct_chars(p),
        TokenV::Special(s) => special_chars(s),
        TokenV::Attr(s) => s,
        TokenV::Primitive(s) => s,
    }
}

/// The plain-text spelling of a token sequence.
pub open spec fn text_of(ts: Seq<TokenV>, i: int) -> Seq<char>
    decreases ts.len() - i,
{
    if i < 0 || i >= ts.len() {
        Seq::empty()
    } else {
        token_chars(ts[i]) + text_of(ts, i + 1)
    }
}

fn kw_str(k: &Kw) -> (r: &'static str)
    ensures
        r@ == kw_chars(*k),
{
    match k {
        Kw::Pub => "pub",
        Kw::Crate => "crate",
        Kw::In => "in",
        Kw::As => "as",
        Kw::Use => "use",
        Kw::Union => "union",
        Kw::Struct => "struct",
        Kw::Enum => "enum",
        Kw::Trait => "trait",
        Kw::Auto => "auto",
        Kw::Unsafe => "unsafe",
        Kw::Impl => "impl",
        Kw::For => "for",
        Kw::Where => "where",
        Kw::Const => "const",
        Kw::Static => "static",
        Kw::Mut => "mut",
        Kw::Async => "async",
        Kw::Fn => "fn",
        Kw::Dyn => "dyn",
        Kw::Type => "type",
        Kw::Extern => "extern",
        Kw::DotDotDot => "...",
        Kw::Star => "*",
        Kw::Amp => "&",
        Kw::Underscore => "_",
        Kw::Question => "?",
        Kw::QuestionConst => "?const",
    }
}

fn ponct_str(p: &Ponct) -> (r: &'static str)
    ensures
        r@ == ponct_chars(*p),
{
    match p {
        Ponct::Lt => "<",
        Ponct::Gt => ">",
        Ponct::Comma => ",",
        Ponct::Colon => ":",
        Ponct::Semi => ";",
        Ponct::OpenBrace => "{",
        Ponct::CloseBrace => "}",
        Ponct::OpenParen => "(",
        Ponct::CloseParen => ")",
        Ponct::OpenBracket => "[",
        Ponct::CloseBracket => "]",
        Ponct::Underscore => "_",
        Ponct::Bang => "!",
        Ponct::Pound => "#",
        Ponct::Eq => "=",
        Ponct::Plus => "+",
        Ponct::Minus => "-",
        Ponct::Quote => "\"",
        Ponct::PathSep => "::",
        Ponct::For => "for",
        Ponct::DotDotDot => "...",
    }
}

fn special_str(s: &SpecialToken) -> (r: &'static str)
    ensures
        r@ == special_chars(*s),
{
    match s {
        SpecialToken::NewLine => "\n",
        SpecialToken::Space => " ",
        SpecialToken::Tabulation => "    ",
        SpecialToken::Hidden { all } => if *all {
            "/* fields hidden */"
        } else {
            "/* some fields hidden */"
        },
        SpecialToken::Ignored => "...",
    }
}

/// The spelling of one token, as a borrowed piece of text.
pub fn token_str<'a>(t: &'a Token) -> (r: &'a str)
    ensures
        r@ == token_chars(t@),
{
    match t {
        Token::Ident(s, _) => s.as_str(),
        Token::Kw(k) => kw_str(k),
        Token::Ponct(p) => ponct_str(p),
        Token::Special(s) => special_str(s),
        Token::Attr(s) => s.as_str(),
        Token::Primitive(s) => s.as_str(),
    }
}

/// An ordered, append-only sequence of tokens: one lowered declaration.
pub struct Tokens(pub Vec<Token>);

impl View for Tokens {
    type V = Seq<TokenV>;

    open spec fn view(&self) -> Seq<TokenV> {
        tv(self.0@)
    }
}

impl Tokens {
    /// The tokens, in the order they were produced.
    pub fn list(&self) -> (r: &Vec<Token>)
        ensures
            tv(r@) == self@,
    {
        &self.0
    }

    /// Renders the sequence as plain text, one token's spelling after the
    /// other; a renderer that decorates tokens makes its own pass instead.
    pub fn render_text(&self) -> (r: String)
        ensures
            r@ == text_of(self@, 0),
    {
        let mut out = String::new();
        let mut i: usize = 0;
        proof {
            broadcast use tv_len, tv_index;
        }
        while i < self.0.len()
            invariant
                i <= self.0.len(),
                out@ + text_of(self@, i as int) == text_of(self@, 0),
            decreases self.0.len() - i,
        {
            let piece = token_str(&self.0[i]);
            out.append(piece);
            i = i + 1;
        }
        out
    }
}

} // verus!
