//! The attribute resolver.
//!
//! Scans a field's attributes for the recognized directive `#[from_file(
//! default = <expression>)]`. The first `from_file` attribute decides the
//! outcome; within it, the scan looks for the key `default` at nesting
//! depth zero, followed by `=`, and collects the value up to the next
//! top-level comma. The value must parse as a host-language expression; a
//! string literal is captured in its owned form so that an owned-string
//! field can default from a quoted literal.

use vstd::prelude::*;
use vstd::string::*;
use crate::ast::Attribute;
use crate::checks::{check_expr, expr_ok};
use crate::error::FromFileError;
use crate::token::{
    check_string_lit, depth_step, is_string_lit, render_spec, rendered_upto,
    token_text, Token,
};

verus! {

/// The resolved outcome of scanning one field's attributes.
#[derive(Debug, Clone, PartialEq, Eq)]
pub enum Directive {
    /// No directive: a leaf field falls back to its type's zero value.
    Absent,
    /// An override expression, held as the text spliced into emitted code.
    Explicit(String),
}

/// Whether the token is the directive key `default`.
pub open spec fn is_default_ident(t: Token) -> bool {
    t matches Token::Ident(s) && s@ == "default"@
}

/// Whether the token is the punctuation `=`.
pub open spec fn is_eq_punct(t: Token) -> bool {
    t matches Token::Punct(c, _) && c == '='
}

/// Whether the token is the punctuation `,`.
pub open spec fn is_comma(t: Token) -> bool {
    t matches Token::Punct(c, _) && c == ','
}

/// The position right after `default =` at depth zero, scanning from
/// position `i` at nesting depth `depth`; `None` when the key never occurs
/// at depth zero, or occurs without `=` after it.
pub open spec fn scan_default(ts: Seq<Token>, i: int, depth: int) -> Option<int>
    decreases ts.len() - i,
{
    if i < 0 || i >= ts.len() {
        None
    } else if depth == 0 && is_default_ident(ts[i]) {
        if i + 1 < ts.len() && is_eq_punct(ts[i + 1]) {
            Some(i + 2)
        } else {
            None
        }
    } else {
        scan_default(ts, i + 1, depth + depth_step(ts[i]))
    }
}

/// The position of the first top-level comma at or after `i` (scanning at
/// nesting depth `depth`), or the end of the tokens.
pub open spec fn expr_end(ts: Seq<Token>, i: int, depth: int) -> int
    decreases ts.len() - i,
{
    if i < 0 || i >= ts.len() {
        ts.len() as int
    } else if depth == 0 && is_comma(ts[i]) {
        i
    } else {
        expr_end(ts, i + 1, depth + depth_step(ts[i]))
    }
}

/// The value tokens of the directive within one attribute's content.
pub open spec fn directive_value(ts: Seq<Token>) -> Seq<Token> {
    match scan_default(ts, 0, 0) {
        Some(s) => ts.subrange(s, expr_end(ts, s, 0)),
        None => Seq::empty(),
    }
}

/// Whether one attribute's content carries a well-formed directive: the
/// `default =` key is found and the collected value is an expression.
pub open spec fn attr_ok(ts: Seq<Token>) -> bool {
    scan_default(ts, 0, 0) is Some && expr_ok(render_spec(directive_value(ts)))
}

/// The override text a well-formed directive resolves to: the value's text,
/// with a lone string literal taken to its owned form.
pub open spec fn directive_text(ts: Seq<Token>) -> Seq<char> {
    let expr = directive_value(ts);
    if expr.len() == 1 && is_string_lit(expr[0]) {
        token_text(expr[0]) + " . to_string ()"@
    } else {
        render_spec(expr)
    }
}

/// Whether the attribute is a directive attribute.
pub open spec fn is_directive_attr(a: Attribute) -> bool {
    a.path@ == "from_file"@
}

/// The index of the first directive attribute, if any: the one that decides.
pub open spec fn find_directive_from(ats: Seq<Attribute>, i: int) -> Option<int>
    decreases ats.len() - i,
{
    if i < 0 || i >= ats.len() {
        None
    } else if is_directive_attr(ats[i]) {
        Some(i)
    } else {
        find_directive_from(ats, i + 1)
    }
}

pub open spec fn find_directive(ats: Seq<Attribute>) -> Option<int> {
    find_directive_from(ats, 0)
}

/// What resolving a field's attributes yields, as a whole: `None` when no
/// directive attribute is present, and otherwise the override text of the
/// first directive attribute — provided that one is well-formed.
pub open spec fn attrs_resolution(ats: Seq<Attribute>) -> Option<Seq<char>> {
    match find_directive(ats) {
        None => None,
        Some(i) => Some(directive_text(ats[i].tokens@)),
    }
}

/// Whether resolving a field's attributes succeeds.
pub open spec fn attrs_ok(ats: Seq<Attribute>) -> bool {
    match find_directive(ats) {
        None => true,
        Some(i) => attr_ok(ats[i].tokens@),
    }
}

/// The position a failed resolution is attributed to: the deciding
/// directive attribute.
pub open spec fn attrs_err_span(ats: Seq<Attribute>) -> usize {
    match find_directive(ats) {
        Some(i) => ats[i].span,
        None => 0,
    }
}

fn string_eq_lit(s: &String, lit: &str) -> (r: bool)
    ensures
        r == (s@ == lit@),
{
    let n = String::from_str(lit);
    *s == n
}

fn is_default_ident_exec(t: &Token) -> (r: bool)
    ensures
        r == is_default_ident(*t),
{
    match t {
        Token::Ident(s) => string_eq_lit(s, "default"),
        _ => false,
    }
}

fn is_eq_punct_exec(t: &Token) -> (r: bool)
    ensures
        r == is_eq_punct(*t),
{
    match t {
        Token::Punct(c, _) => *c == '=',
        _ => false,
    }
}

fn is_comma_exec(t: &Token) -> (r: bool)
    ensures
        r == is_comma(*t),
{
    match t {
        Token::Punct(c, _) => *c == ',',
        _ => false,
    }
}

fn depth_step_exec(t: &Token) -> (r: i128)
    ensures
        r as int == depth_step(*t),
{
    match t {
        Token::Open(_) => 1,
        Token::Close(_) => -1,
        _ => 0,
    }
}

fn scan_default_exec(ts: &Vec<Token>, i: usize, depth: i128) -> (r: Option<usize>)
    requires
        i <= ts@.len(),
        -(i as int) <= depth as int <= i as int,
    ensures
        match r {
            Some(s) => scan_default(ts@, i as int, depth as int) == Some(s as int) && s <= ts@.len(),
            None => scan_default(ts@, i as int, depth as int) is None,
        },
    decreases ts@.len() - i,
{
    if i >= ts.len() {
        None
    } else if depth == 0 && is_default_ident_exec(&ts[i]) {
        if i + 1 < ts.len() && is_eq_punct_exec(&ts[i + 1]) {
            Some(i + 2)
        } else {
            None
        }
    } else {
        let step = depth_step_exec(&ts[i]);
        scan_default_exec(ts, i + 1, depth + step)
    }
}

fn expr_end_exec(ts: &Vec<Token>, i: usize, depth: i128) -> (r: usize)
    requires
        i <= ts@.len(),
        -(i as int) <= depth as int <= i as int,
    ensures
        r as int == expr_end(ts@, i as int, depth as int),
        i <= r <= ts@.len(),
    decreases ts@.len() - i,
{
    if i >= ts.len() {
        ts.len()
    } else if depth == 0 && is_comma_exec(&ts[i]) {
        i
    } else {
        let step = depth_step_exec(&ts[i]);
        expr_end_exec(ts, i + 1, depth + step)
    }
}

/// The value-token range of the directive within one attribute's content:
/// everything after `default =` up to the next top-level comma.
pub fn extract_default_token(ts: &Vec<Token>) -> (r: Option<(usize, usize)>)
    ensures
        match r {
            Some(p) => {
                &&& scan_default(ts@, 0, 0) == Some(p.0 as int)
                &&& p.1 as int == expr_end(ts@, p.0 as int, 0)
                &&& p.0 <= p.1 <= ts@.len()
            },
            None => scan_default(ts@, 0, 0) is None,
        },
{
    match scan_default_exec(ts, 0, 0) {
        None => None,
        Some(s) => {
            let e = expr_end_exec(ts, s, 0);
            Some((s, e))
        },
    }
}

/// Renders the tokens in `[s, e)` as text, each token separated from the
/// next by its recorded spacing.
pub fn collect_until_commas(ts: &Vec<Token>, s: usize, e: usize) -> (out: String)
    requires
        s <= e <= ts@.len(),
    ensures
        out@ == render_spec(ts@.subrange(s as int, e as int)),
{
    let mut out = String::new();
    let mut i: usize = s;
    while i < e
        invariant
            s <= i <= e <= ts@.len(),
            out@ == render_spec(ts@.subrange(s as int, i as int)),
        decreases e - i,
    {
        if i > s {
            crate::token::append_sep_after(&mut out, &ts[i - 1]);
        }
        crate::token::append_token_text(&mut out, &ts[i]);
        proof {
            let pre = ts@.subrange(s as int, i as int);
            let cur = ts@.subrange(s as int, i as int + 1);
            assert(cur[i - s] == ts@[i as int]);
            if i > s {
                lemma_rendered_upto_prefix(cur, pre, i as int - s);
            }
        }
        i = i + 1;
    }
    out
}

/// The text of the first `n` tokens depends on those tokens alone.
proof fn lemma_rendered_upto_prefix(a: Seq<Token>, b: Seq<Token>, n: int)
    requires
        n <= a.len(),
        n <= b.len(),
        forall|k: int| 0 <= k < n ==> a[k] == b[k],
    ensures
        rendered_upto(a, n) == rendered_upto(b, n),
    decreases n,
{
    if n > 1 {
        lemma_rendered_upto_prefix(a, b, n - 1);
    }
}

/// Resolves the content of one directive attribute: collects the value of
/// `default =`, checks that it is an expression, and captures a lone
/// string literal in its owned form.
pub fn parse_default(a: &Attribute) -> (r: Result<Directive, FromFileError>)
    ensures
        (if attr_ok(a.tokens@) {
            r matches Ok(d) && d matches Directive::Explicit(e) && e@ == directive_text(a.tokens@)
        } else {
            r == Err::<Directive, FromFileError>(FromFileError::InvalidAttribute { span: a.span })
        }),
{
    match extract_default_token(&a.tokens) {
        None => Err(FromFileError::InvalidAttribute { span: a.span }),
        Some(p) => {
            let s = p.0;
            let e = p.1;
            let raw = collect_until_commas(&a.tokens, s, e);
            if check_expr(raw.as_str()) {
                if e - s == 1 && check_string_lit(&a.tokens[s]) {
                    let mut t = raw;
                    t.append(" . to_string ()");
                    proof {
                        let expr = directive_value(a.tokens@);
                        assert(expr.len() == 1);
                        assert(expr[0] == a.tokens@[s as int]);
                        assert(render_spec(expr) == token_text(expr[0]));
                    }
                    Ok(Directive::Explicit(t))
                } else {
                    Ok(Directive::Explicit(raw))
                }
            } else {
                Err(FromFileError::InvalidAttribute { span: a.span })
            }
        },
    }
}

/// Resolves one field's attributes to its directive.
///
/// The first `from_file` attribute decides; attributes after it are never
/// read. Within that attribute the first `default` key at depth zero wins.
pub fn parse_from_file_default_attr(attrs: &Vec<Attribute>) -> (r: Result<
    Directive,
    FromFileError,
>)
    ensures
        match find_directive(attrs@) {
            None => r == Ok::<Directive, FromFileError>(Directive::Absent),
            Some(i) => {
                if attr_ok(attrs@[i].tokens@) {
                    r matches Ok(d) && d matches Directive::Explicit(e) && e@ == directive_text(
                        attrs@[i].tokens@,
                    )
                } else {
                    r == Err::<Directive, FromFileError>(FromFileError::InvalidAttribute {
                        span: attrs@[i].span,
                    })
                }
            },
        },
{
    match find_directive_exec(attrs, 0) {
        None => Ok(Directive::Absent),
        Some(i) => parse_default(&attrs[i]),
    }
}

fn find_directive_exec(attrs: &Vec<Attribute>, i: usize) -> (r: Option<usize>)
    requires
        i <= attrs@.len(),
    ensures
        match r {
            Some(k) => find_directive_from(attrs@, i as int) == Some(k as int) && k
                < attrs@.len(),
            None => find_directive_from(attrs@, i as int) is None,
        },
    decreases attrs@.len() - i,
{
    if i >= attrs.len() {
        None
    } else if string_eq_lit(&attrs[i].path, "from_file") {
        Some(i)
    } else {
        find_directive_exec(attrs, i + 1)
    }
}

} // verus!
