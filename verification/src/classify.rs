//! The field classifier.
//!
//! A field either delegates to its type's own shadow (a nested field) or is
//! wrapped directly in an optional (a leaf field). A type reference counts
//! as nested when it is a single simple path that is not one of the
//! built-in scalar or string names; everything else — generic types,
//! multi-segment paths, references, tuples — is a leaf.

use vstd::prelude::*;
use vstd::string::*;
use crate::parser::Directive;

verus! {

/// How one field is emitted.
#[derive(Debug, Clone, PartialEq, Eq)]
pub enum Classification {
    /// Wrap the field's own type in an optional and resolve it in place.
    Leaf(Directive),
    /// Delegate to the field type's own shadow and reconstruction.
    Nested,
}

/// Whether the character can open an identifier.
pub open spec fn is_ident_start_char(c: char) -> bool {
    ('a' <= c && c <= 'z') || ('A' <= c && c <= 'Z') || c == '_'
}

/// Whether the character can continue an identifier.
pub open spec fn is_ident_char(c: char) -> bool {
    is_ident_start_char(c) || ('0' <= c && c <= '9')
}

/// Whether the type text is one plain identifier: a single simple path.
pub open spec fn is_simple_path(s: Seq<char>) -> bool {
    &&& s.len() > 0
    &&& is_ident_start_char(s[0])
    &&& forall|i: int| 0 <= i < s.len() ==> is_ident_char(#[trigger] s[i])
}

/// Whether the name denotes a built-in scalar or string type.
pub open spec fn is_primitive_name(s: Seq<char>) -> bool {
    ||| s == "bool"@
    ||| s == "char"@
    ||| s == "str"@
    ||| s == "String"@
    ||| s == "i8"@
    ||| s == "i16"@
    ||| s == "i32"@
    ||| s == "i64"@
    ||| s == "i128"@
    ||| s == "isize"@
    ||| s == "u8"@
    ||| s == "u16"@
    ||| s == "u32"@
    ||| s == "u64"@
    ||| s == "u128"@
    ||| s == "usize"@
    ||| s == "f32"@
    ||| s == "f64"@
}

/// Whether a field of this type delegates to the type's own shadow.
pub open spec fn is_nested_ty(s: Seq<char>) -> bool {
    is_simple_path(s) && !is_primitive_name(s)
}

fn check_ident_start_char(c: char) -> (r: bool)
    ensures
        r == is_ident_start_char(c),
{
    ('a' <= c && c <= 'z') || ('A' <= c && c <= 'Z') || c == '_'
}

fn check_ident_char(c: char) -> (r: bool)
    ensures
        r == is_ident_char(c),
{
    check_ident_start_char(c) || ('0' <= c && c <= '9')
}

fn check_simple_path(s: &str) -> (r: bool)
    ensures
        r == is_simple_path(s@),
{
    let n = s.unicode_len();
    if n == 0 {
        return false;
    }
    if !check_ident_start_char(s.get_char(0)) {
        return false;
    }
    let mut i: usize = 0;
    while i < n
        invariant
            0 <= i <= n,
            n == s@.len(),
            is_ident_start_char(s@[0]),
            forall|j: int| 0 <= j < i ==> is_ident_char(#[trigger] s@[j]),
        decreases n - i,
    {
        if !check_ident_char(s.get_char(i)) {
            return false;
        }
        i = i + 1;
    }
    true
}

fn string_eq_lit(s: &str, lit: &str) -> (r: bool)
    ensures
        r == (s@ == lit@),
{
    let a = String::from_str(s);
    let b = String::from_str(lit);
    a == b
}

fn check_primitive_name(s: &str) -> (r: bool)
    ensures
        r == is_primitive_name(s@),
{
    string_eq_lit(s, "bool") || string_eq_lit(s, "char") || string_eq_lit(s, "str")
        || string_eq_lit(s, "String") || string_eq_lit(s, "i8") || string_eq_lit(s, "i16")
        || string_eq_lit(s, "i32") || string_eq_lit(s, "i64") || string_eq_lit(s, "i128")
        || string_eq_lit(s, "isize") || string_eq_lit(s, "u8") || string_eq_lit(s, "u16")
        || string_eq_lit(s, "u32") || string_eq_lit(s, "u64") || string_eq_lit(s, "u128")
        || string_eq_lit(s, "usize") || string_eq_lit(s, "f32") || string_eq_lit(s, "f64")
}

/// Whether the field type delegates to its own generated shadow.
pub fn is_from_file_struct(ty: &str) -> (r: bool)
    ensures
        r == is_nested_ty(ty@),
{
    check_simple_path(ty) && !check_primitive_name(ty)
}

/// Classifies one field from its type and its resolved directive.
pub fn classify(ty: &str, directive: Directive) -> (r: Classification)
    ensures
        is_nested_ty(ty@) ==> r == Classification::Nested,
        !is_nested_ty(ty@) ==> r == Classification::Leaf(directive),
{
    if is_from_file_struct(ty) {
        Classification::Nested
    } else {
        Classification::Leaf(directive)
    }
}

} // verus!
