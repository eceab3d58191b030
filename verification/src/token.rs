//! Tokens of the annotation argument language.
//!
//! The host lexer hands the library a flat stream of raw tokens; [`cook`]
//! fuses the two-character operators `::`, `=>` and `->` into single tokens,
//! following the lexer's mark that says two punctuation characters adjoin.
//! A token's position is its index in the cooked stream, and every error and
//! span the parser reports is such an index.
//!
//! [`render`] turns a token run back into text, one space after every token
//! except an adjoining punctuation character, so that equal token runs yield
//! equal text.

use vstd::prelude::*;
use vstd::string::StringExecFns;
use crate::host::push_char;

verus! {

/// A delimiter of a balanced group.
#[derive(Clone, Copy, Debug, PartialEq, Eq, Structural)]
pub enum Delim {
    Paren,
    Bracket,
    Brace,
}

/// One token as the host lexer yields it. The flag on a punctuation
/// character says that the next token follows with no space in between.
#[derive(Debug)]
pub enum RawToken {
    Ident(String),
    Literal(String),
    Punct(char, bool),
    Open(Delim),
    Close(Delim),
}

/// Mathematical value of a raw token.
pub enum RawTok {
    Ident { text: Seq<char> },
    Literal { text: Seq<char> },
    Punct { ch: char, joint: bool },
    Open { d: Delim },
    Close { d: Delim },
}

impl View for RawToken {
    type V = RawTok;

    open spec fn view(&self) -> RawTok {
        match self {
            RawToken::Ident(s) => RawTok::Ident { text: s@ },
            RawToken::Literal(s) => RawTok::Literal { text: s@ },
            RawToken::Punct(c, j) => RawTok::Punct { ch: *c, joint: *j },
            RawToken::Open(d) => RawTok::Open { d: *d },
            RawToken::Close(d) => RawTok::Close { d: *d },
        }
    }
}

/// One cooked token: as [`RawToken`], with the separators `::`, `=>` and the
/// arrow `->` fused into single tokens.
#[derive(Debug)]
pub enum Token {
    Ident(String),
    Literal(String),
    PathSep,
    FatArrow,
    RArrow,
    Punct(char, bool),
    Open(Delim),
    Close(Delim),
}

/// Mathematical value of a cooked token.
pub enum Tok {
    Ident { text: Seq<char> },
    Literal { text: Seq<char> },
    PathSep,
    FatArrow,
    RArrow,
    Punct { ch: char, joint: bool },
    Open { d: Delim },
    Close { d: Delim },
}

impl View for Token {
    type V = Tok;

    open spec fn view(&self) -> Tok {
        match self {
            Token::Ident(s) => Tok::Ident { text: s@ },
            Token::Literal(s) => Tok::Literal { text: s@ },
            Token::PathSep => Tok::PathSep,
            Token::FatArrow => Tok::FatArrow,
            Token::RArrow => Tok::RArrow,
            Token::Punct(c, j) => Tok::Punct { ch: *c, joint: *j },
            Token::Open(d) => Tok::Open { d: *d },
            Token::Close(d) => Tok::Close { d: *d },
        }
    }
}

/// The values of a raw token sequence.
pub open spec fn raw_model(s: Seq<RawToken>) -> Seq<RawTok> {
    s.map_values(|t: RawToken| t@)
}

/// The values of a cooked token sequence.
pub open spec fn toks_model(s: Seq<Token>) -> Seq<Tok> {
    s.map_values(|t: Token| t@)
}

/// Whether two adjacent raw tokens fuse into one cooked token: a joined `:`,
/// `=` or `-` followed by the matching second character.
pub open spec fn fuses(a: RawTok, b: RawTok) -> bool {
    match (a, b) {
        (RawTok::Punct { ch: ca, joint: true }, RawTok::Punct { ch: cb, joint: _ }) => (ca == ':'
            && cb == ':') || (ca == '=' && cb == '>') || (ca == '-' && cb == '>'),
        _ => false,
    }
}

/// The cooked token that a fusing pair yields, determined by its first
/// character.
pub open spec fn fused(a: RawTok) -> Tok {
    match a {
        RawTok::Punct { ch, joint: _ } => if ch == ':' {
            Tok::PathSep
        } else if ch == '=' {
            Tok::FatArrow
        } else {
            Tok::RArrow
        },
        _ => Tok::RArrow,
    }
}

/// The cooked form of one raw token that fuses with nothing.
pub open spec fn cook_one(a: RawTok) -> Tok {
    match a {
        RawTok::Ident { text } => Tok::Ident { text },
        RawTok::Literal { text } => Tok::Literal { text },
        RawTok::Punct { ch, joint } => Tok::Punct { ch, joint },
        RawTok::Open { d } => Tok::Open { d },
        RawTok::Close { d } => Tok::Close { d },
    }
}

/// Cooking from position `i` on: fuse each `::`, `=>` and `->` pair, keep
/// every other token as it is.
pub open spec fn cook_at(s: Seq<RawTok>, i: int) -> Seq<Tok>
    decreases s.len() - i,
{
    if i < 0 || i >= s.len() {
        Seq::empty()
    } else if i + 1 < s.len() && fuses(s[i], s[i + 1]) {
        seq![fused(s[i])] + cook_at(s, i + 2)
    } else {
        seq![cook_one(s[i])] + cook_at(s, i + 1)
    }
}

/// The text of one cooked token.
pub open spec fn tok_text(t: Tok) -> Seq<char> {
    match t {
        Tok::Ident { text } => text,
        Tok::Literal { text } => text,
        Tok::PathSep => "::"@,
        Tok::FatArrow => "=>"@,
        Tok::RArrow => "->"@,
        Tok::Punct { ch, joint: _ } => seq![ch],
        Tok::Open { d } => seq![open_char(d)],
        Tok::Close { d } => seq![close_char(d)],
    }
}

/// The gap written after one cooked token: nothing after an adjoining
/// punctuation character, one space otherwise.
pub open spec fn tok_gap(t: Tok) -> Seq<char> {
    match t {
        Tok::Punct { ch: _, joint: true } => Seq::empty(),
        _ => " "@,
    }
}

/// The opening character of a delimiter.
pub open spec fn open_char(d: Delim) -> char {
    match d {
        Delim::Paren => '(',
        Delim::Bracket => '[',
        Delim::Brace => '{',
    }
}

/// The closing character of a delimiter.
pub open spec fn close_char(d: Delim) -> char {
    match d {
        Delim::Paren => ')',
        Delim::Bracket => ']',
        Delim::Brace => '}',
    }
}

/// The text of the token run `[i, hi)`: each token's text, with its gap
/// written between tokens and not after the last one.
pub open spec fn render_at(s: Seq<Tok>, i: int, hi: int) -> Seq<char>
    decreases hi - i,
{
    if i < 0 || i >= hi {
        Seq::empty()
    } else if i + 1 >= hi {
        tok_text(s[i])
    } else {
        tok_text(s[i]) + tok_gap(s[i]) + render_at(s, i + 1, hi)
    }
}

/// Fuse the two-character operators `::`, `=>` and `->` of a raw token
/// stream into single tokens.
pub fn cook(raw: &Vec<RawToken>) -> (r: Vec<Token>)
    ensures
        toks_model(r@) == cook_at(raw_model(raw@), 0),
{
    cook_from(raw, 0)
}

fn cook_from(raw: &Vec<RawToken>, i: usize) -> (r: Vec<Token>)
    requires
        i <= raw.len(),
    ensures
        toks_model(r@) == cook_at(raw_model(raw@), i as int),
    decreases raw.len() - i,
{
    let ghost m = raw_model(raw@);
    if i >= raw.len() {
        let r: Vec<Token> = Vec::new();
        proof {
            assert(toks_model(r@) =~= cook_at(m, i as int));
        }
        r
    } else {
        let pair: bool = if i + 1 < raw.len() {
            match (&raw[i], &raw[i + 1]) {
                (RawToken::Punct(ca, true), RawToken::Punct(cb, _)) => (*ca == ':' && *cb == ':')
                    || (*ca == '=' && *cb == '>') || (*ca == '-' && *cb == '>'),
                _ => false,
            }
        } else {
            false
        };
        if pair {
            let head: Token = match &raw[i] {
                RawToken::Punct(ca, _) => {
                    if *ca == ':' {
                        Token::PathSep
                    } else if *ca == '=' {
                        Token::FatArrow
                    } else {
                        Token::RArrow
                    }
                },
                _ => Token::RArrow,
            };
            let mut rest = cook_from(raw, i + 2);
            let ghost rest_model = toks_model(rest@);
            rest.insert(0, head);
            proof {
                assert(toks_model(rest@) =~= seq![head@] + rest_model);
                assert(head@ == fused(m[i as int]));
            }
            rest
        } else {
            let head: Token = match &raw[i] {
                RawToken::Ident(s) => Token::Ident(s.clone()),
                RawToken::Literal(s) => Token::Literal(s.clone()),
                RawToken::Punct(c, j) => Token::Punct(*c, *j),
                RawToken::Open(d) => Token::Open(*d),
                RawToken::Close(d) => Token::Close(*d),
            };
            let mut rest = cook_from(raw, i + 1);
            let ghost rest_model = toks_model(rest@);
            rest.insert(0, head);
            proof {
                assert(toks_model(rest@) =~= seq![head@] + rest_model);
                assert(head@ == cook_one(m[i as int]));
            }
            rest
        }
    }
}

/// The text of one token, without its gap.
fn token_text_exec(t: &Token) -> (r: String)
    ensures
        r@ == tok_text(t@),
{
    match t {
        Token::Ident(s) => s.clone(),
        Token::Literal(s) => s.clone(),
        Token::PathSep => String::from_str("::"),
        Token::FatArrow => String::from_str("=>"),
        Token::RArrow => String::from_str("->"),
        Token::Punct(c, _) => {
            let mut r = String::new();
            push_char(&mut r, *c);
            proof {
                assert(Seq::<char>::empty().push(*c) =~= seq![*c]);
            }
            r
        },
        Token::Open(d) => {
            let mut r = String::new();
            let c: char = match d {
                Delim::Paren => '(',
                Delim::Bracket => '[',
                Delim::Brace => '{',
            };
            push_char(&mut r, c);
            proof {
                assert(Seq::<char>::empty().push(c) =~= seq![c]);
            }
            r
        },
        Token::Close(d) => {
            let mut r = String::new();
            let c: char = match d {
                Delim::Paren => ')',
                Delim::Bracket => ']',
                Delim::Brace => '}',
            };
            push_char(&mut r, c);
            proof {
                assert(Seq::<char>::empty().push(c) =~= seq![c]);
            }
            r
        },
    }
}

/// The text of the token run `[i, hi)` of `toks`.
pub fn render(toks: &Vec<Token>, i: usize, hi: usize) -> (r: String)
    requires
        i <= hi,
        hi <= toks.len(),
    ensures
        r@ == render_at(toks_model(toks@), i as int, hi as int),
    decreases hi - i,
{
    if i >= hi {
        let r = String::new();
        r
    } else {
        proof {
            assert(toks_model(toks@)[i as int] == toks@[i as int]@);
        }
        let mut p = token_text_exec(&toks[i]);
        if i + 1 < hi {
            let gap: bool = match &toks[i] {
                Token::Punct(_, j) => !*j,
                _ => true,
            };
            if gap {
                p.append(" ");
            }
            let rest = render(toks, i + 1, hi);
            p.append(rest.as_str());
            proof {
                if !gap {
                    assert(tok_gap(toks@[i as int]@) =~= Seq::<char>::empty());
                    assert(p@ =~= tok_text(toks@[i as int]@) + tok_gap(toks@[i as int]@)
                        + render_at(toks_model(toks@), i + 1 as int, hi as int));
                }
            }
        }
        p
    }
}

} // verus!
