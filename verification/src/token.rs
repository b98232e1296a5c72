//! A flat token model for the metadata attached to fields.
//!
//! The structural description of a declaration carries each attribute's
//! content as a sequence of these tokens. Group delimiters appear as
//! explicit open/close tokens, so a comma inside a group can be told apart
//! from a top-level comma by tracking the nesting depth. A punctuation
//! token records whether it is joined to the token after it, so that a
//! multi-character operator such as `::` or `=>` renders as one lexable
//! operator and not as separated characters.

use vstd::prelude::*;
use vstd::string::*;

verus! {

/// A group delimiter.
#[derive(Debug, Clone, PartialEq, Eq)]
pub enum Delim {
    Paren,
    Bracket,
    Brace,
}

/// Whether a punctuation character touches the token after it.
#[derive(Debug, Clone, PartialEq, Eq, Structural)]
pub enum Spacing {
    /// A space may follow: the character is an operator of its own.
    Alone,
    /// The next token follows immediately: together they form one
    /// multi-character operator (or a lifetime mark before its name).
    Joint,
}

/// One token of an attribute's content.
#[derive(Debug, Clone, PartialEq, Eq)]
pub enum Token {
    /// An identifier or keyword.
    Ident(String),
    /// A single punctuation character, with its spacing.
    Punct(char, Spacing),
    /// A literal, held as its source text (a string literal keeps its quotes).
    Lit(String),
    /// The opening delimiter of a group.
    Open(Delim),
    /// The closing delimiter of a group.
    Close(Delim),
}

pub open spec fn delim_open_text(d: Delim) -> Seq<char> {
    match d {
        Delim::Paren => "("@,
        Delim::Bracket => "["@,
        Delim::Brace => "{"@,
    }
}

pub open spec fn delim_close_text(d: Delim) -> Seq<char> {
    match d {
        Delim::Paren => ")"@,
        Delim::Bracket => "]"@,
        Delim::Brace => "}"@,
    }
}

/// The source text of one token.
pub open spec fn token_text(t: Token) -> Seq<char> {
    match t {
        Token::Ident(s) => s@,
        Token::Punct(c, _) => seq![c],
        Token::Lit(s) => s@,
        Token::Open(d) => delim_open_text(d),
        Token::Close(d) => delim_close_text(d),
    }
}

/// What stands between a token and the one after it: nothing after a
/// joined punctuation character, one space otherwise.
pub open spec fn sep_after(t: Token) -> Seq<char> {
    if t matches Token::Punct(_, Spacing::Joint) {
        Seq::empty()
    } else {
        " "@
    }
}

/// The text of the first `n` tokens, each separated from the next by its
/// recorded spacing.
pub open spec fn rendered_upto(ts: Seq<Token>, n: int) -> Seq<char>
    decreases n,
{
    if n <= 0 {
        Seq::empty()
    } else if n == 1 {
        token_text(ts[0])
    } else {
        rendered_upto(ts, n - 1) + sep_after(ts[n - 2]) + token_text(ts[n - 1])
    }
}

/// The text of a token sequence.
pub open spec fn render_spec(ts: Seq<Token>) -> Seq<char> {
    rendered_upto(ts, ts.len() as int)
}

/// How far one token moves the group-nesting depth.
pub open spec fn depth_step(t: Token) -> int {
    match t {
        Token::Open(_) => 1,
        Token::Close(_) => -1,
        _ => 0,
    }
}

/// The group-nesting depth after the first `n` tokens.
pub open spec fn depth_at(ts: Seq<Token>, n: int) -> int
    decreases n,
{
    if n <= 0 {
        0
    } else {
        depth_at(ts, n - 1) + depth_step(ts[n - 1])
    }
}

/// Whether the text opens a raw string literal's quote at position `i`,
/// after zero or more `#` marks.
pub open spec fn raw_quote_after_hashes(s: Seq<char>, i: int) -> bool
    decreases s.len() - i,
{
    if i < 0 || i >= s.len() {
        false
    } else if s[i] == '"' {
        true
    } else if s[i] == '#' {
        raw_quote_after_hashes(s, i + 1)
    } else {
        false
    }
}

/// Whether the literal text is a string literal: plain (`"x"`) or raw
/// (`r"x"`, `r#"x"#`). Byte strings are no string literals.
pub open spec fn is_string_lit_text(s: Seq<char>) -> bool {
    s.len() > 0 && (s[0] == '"' || (s[0] == 'r' && raw_quote_after_hashes(s, 1)))
}

/// Whether the token is a string literal.
pub open spec fn is_string_lit(t: Token) -> bool {
    match t {
        Token::Lit(s) => is_string_lit_text(s@),
        _ => false,
    }
}

/// Relies on String::push: appends the given character to the end of this String.
#[verifier::external_body]
pub fn push_char(out: &mut String, c: char)
    ensures
        final(out)@ == old(out)@ + seq![c],
{
    out.push(c)
}

/// Appends the source text of one token.
pub fn append_token_text(out: &mut String, t: &Token)
    ensures
        final(out)@ == old(out)@ + token_text(*t),
{
    match t {
        Token::Ident(s) => out.append(s.as_str()),
        Token::Punct(c, _) => push_char(out, *c),
        Token::Lit(s) => out.append(s.as_str()),
        Token::Open(d) => match d {
            Delim::Paren => out.append("("),
            Delim::Bracket => out.append("["),
            Delim::Brace => out.append("{"),
        },
        Token::Close(d) => match d {
            Delim::Paren => out.append(")"),
            Delim::Bracket => out.append("]"),
            Delim::Brace => out.append("}"),
        },
    }
}

/// Appends what stands between this token and the next one.
pub fn append_sep_after(out: &mut String, t: &Token)
    ensures
        final(out)@ == old(out)@ + sep_after(*t),
{
    match t {
        Token::Punct(_, Spacing::Joint) => {},
        _ => out.append(" "),
    }
}

fn check_raw_quote_after_hashes(s: &str, i: usize) -> (r: bool)
    requires
        i <= s@.len(),
    ensures
        r == raw_quote_after_hashes(s@, i as int),
    decreases s@.len() - i,
{
    if i >= s.unicode_len() {
        false
    } else {
        let c = s.get_char(i);
        if c == '"' {
            true
        } else if c == '#' {
            check_raw_quote_after_hashes(s, i + 1)
        } else {
            false
        }
    }
}

/// Whether the token is a string literal, decided at run time.
pub fn check_string_lit(t: &Token) -> (r: bool)
    ensures
        r == is_string_lit(*t),
{
    match t {
        Token::Lit(s) => {
            if s.as_str().unicode_len() > 0 {
                let c = s.as_str().get_char(0);
                if c == '"' {
                    true
                } else if c == 'r' {
                    check_raw_quote_after_hashes(s.as_str(), 1)
                } else {
                    false
                }
            } else {
                false
            }
        },
        _ => false,
    }
}

} // verus!
