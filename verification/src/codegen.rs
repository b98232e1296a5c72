//! The field emitter.
//!
//! For each field, emits the shadow field declaration and the resolution
//! expression that the reconstruction function uses, and records the
//! zero-value obligation of a leaf field that has no explicit default.
//! Every emitted fragment is pinned down, character for character, as a
//! function of the field.

use vstd::prelude::*;
use vstd::string::*;
use crate::ast::Field;
use crate::classify::{classify, is_nested_ty, Classification};
use crate::error::FromFileError;
use crate::parser::{
    attrs_err_span, attrs_ok, attrs_resolution, parse_from_file_default_attr, Directive,
};

verus! {

/// The attribute that sets the layered-merge strategy of one shadow field:
/// keep the present value, fill only what is absent.
pub open spec fn merge_attr_text() -> Seq<char> {
    "# [merge (strategy = merge :: option :: overwrite_none)] "@
}

/// The shadow declaration of one field: an optional wrapping either the
/// field type's own shadow (nested) or the field type itself (leaf).
pub open spec fn shadow_field_spec(f: Field, with_merge: bool) -> Seq<char> {
    (if with_merge {
        merge_attr_text()
    } else {
        Seq::<char>::empty()
    }) + (if is_nested_ty(f.ty@) {
        "pub "@ + f.name@ + " : Option < < "@ + f.ty@ + " as filecaster :: FromFile > :: Shadow >"@
    } else {
        "pub "@ + f.name@ + " : Option < "@ + f.ty@ + " >"@
    })
}

/// The resolution expression of one field, following the tie-break table.
/// A nested field delegates to its type's own reconstruction, passing the
/// possibly absent nested shadow value through unchanged. A leaf field
/// resolves a present shadow value recursively and falls back, when
/// absent, to the override expression if the field carries one, else to
/// the type's zero value.
pub open spec fn assign_spec(f: Field) -> Seq<char> {
    if is_nested_ty(f.ty@) {
        f.name@ + " : < "@ + f.ty@ + " as filecaster :: FromFile > :: from_file (file . "@
            + f.name@ + ")"@
    } else {
        match attrs_resolution(f.attrs@) {
            Some(e) => f.name@ + " : file . "@ + f.name@ + " . map (| inner | < "@ + f.ty@
                + " as filecaster :: FromFile > :: from_file (Some (inner))) . unwrap_or ("@ + e
                + ")"@,
            None => f.name@ + " : file . "@ + f.name@ + " . unwrap_or_default ()"@,
        }
    }
}

/// Whether the field obliges its type to support zero-value construction:
/// exactly the leaf fields resolved by the zero-value fallback.
pub open spec fn field_needs_bound(f: Field) -> bool {
    !is_nested_ty(f.ty@) && attrs_resolution(f.attrs@) is None
}

/// The recorded obligation, as a where-clause predicate.
pub open spec fn bound_spec(f: Field) -> Seq<char> {
    f.ty@ + " : Default"@
}

/// The obligations of the first `n` fields, in field order.
pub open spec fn bounds_upto(fs: Seq<Field>, n: int) -> Seq<Seq<char>>
    decreases n,
{
    if n <= 0 {
        Seq::empty()
    } else if field_needs_bound(fs[n - 1]) {
        bounds_upto(fs, n - 1).push(bound_spec(fs[n - 1]))
    } else {
        bounds_upto(fs, n - 1)
    }
}

/// The zero-value obligations of all fields, in field order.
pub open spec fn bounds_texts(fs: Seq<Field>) -> Seq<Seq<char>> {
    bounds_upto(fs, fs.len() as int)
}

/// The first field whose attributes do not resolve, from position `i` on.
pub open spec fn first_bad_field_from(fs: Seq<Field>, i: int) -> Option<int>
    decreases fs.len() - i,
{
    if i < 0 || i >= fs.len() {
        None
    } else if !attrs_ok(fs[i].attrs@) {
        Some(i)
    } else {
        first_bad_field_from(fs, i + 1)
    }
}

/// Whether every field's attributes resolve.
pub open spec fn fields_ok(fs: Seq<Field>) -> bool {
    first_bad_field_from(fs, 0) is None
}

/// Builds the shadow declaration, the resolution expression and the
/// optional zero-value obligation of one field.
pub fn build_file_field(field: &Field, with_merge: bool) -> (r: Result<
    (String, String, Option<String>),
    FromFileError,
>)
    ensures
        match r {
            Ok(t) => {
                &&& attrs_ok(field.attrs@)
                &&& t.0@ == shadow_field_spec(*field, with_merge)
                &&& t.1@ == assign_spec(*field)
                &&& (match t.2 {
                    Some(b) => field_needs_bound(*field) && b@ == bound_spec(*field),
                    None => !field_needs_bound(*field),
                })
            },
            Err(e) => !attrs_ok(field.attrs@) && e == (FromFileError::InvalidAttribute {
                span: attrs_err_span(field.attrs@),
            }),
        },
{
    let directive = match parse_from_file_default_attr(&field.attrs) {
        Ok(d) => d,
        Err(e) => {
            return Err(e);
        },
    };
    let classification = classify(field.ty.as_str(), directive);

    let mut decl = String::new();
    if with_merge {
        decl.append("# [merge (strategy = merge :: option :: overwrite_none)] ");
    }
    decl.append("pub ");
    decl.append(field.name.as_str());
    match &classification {
        Classification::Nested => {
            decl.append(" : Option < < ");
            decl.append(field.ty.as_str());
            decl.append(" as filecaster :: FromFile > :: Shadow >");
        },
        Classification::Leaf(_) => {
            decl.append(" : Option < ");
            decl.append(field.ty.as_str());
            decl.append(" >");
        },
    }
    proof {
        assert(decl@ =~= shadow_field_spec(*field, with_merge));
    }

    let mut assign = String::new();
    let mut bound: Option<String> = None;
    match classification {
        Classification::Nested => {
            assign.append(field.name.as_str());
            assign.append(" : < ");
            assign.append(field.ty.as_str());
            assign.append(" as filecaster :: FromFile > :: from_file (file . ");
            assign.append(field.name.as_str());
            assign.append(")");
            proof {
                assert(assign@ =~= assign_spec(*field));
            }
        },
        Classification::Leaf(Directive::Explicit(e)) => {
            assign.append(field.name.as_str());
            assign.append(" : file . ");
            assign.append(field.name.as_str());
            assign.append(" . map (| inner | < ");
            assign.append(field.ty.as_str());
            assign.append(" as filecaster :: FromFile > :: from_file (Some (inner))) . unwrap_or (");
            assign.append(e.as_str());
            assign.append(")");
            proof {
                assert(assign@ =~= assign_spec(*field));
            }
        },
        Classification::Leaf(Directive::Absent) => {
            assign.append(field.name.as_str());
            assign.append(" : file . ");
            assign.append(field.name.as_str());
            assign.append(" . unwrap_or_default ()");
            let mut b = String::new();
            b.append(field.ty.as_str());
            b.append(" : Default");
            proof {
                assert(assign@ =~= assign_spec(*field));
                assert(b@ =~= bound_spec(*field));
            }
            bound = Some(b);
        },
    }
    Ok((decl, assign, bound))
}

/// Emits all fields in declaration order: the resolution expressions, the
/// shadow field declarations, and the recorded zero-value obligations.
pub fn process_fields(fields: &Vec<Field>, with_merge: bool) -> (r: Result<
    (Vec<String>, Vec<String>, Vec<String>),
    FromFileError,
>)
    ensures
        match r {
            Ok(t) => {
                &&& fields_ok(fields@)
                &&& t.0@.len() == fields@.len()
                &&& (forall|i: int|
                    0 <= i < fields@.len() ==> (#[trigger] t.0@[i])@ == assign_spec(fields@[i]))
                &&& t.1@.len() == fields@.len()
                &&& (forall|i: int|
                    0 <= i < fields@.len() ==> (#[trigger] t.1@[i])@ == shadow_field_spec(
                        fields@[i],
                        with_merge,
                    ))
                &&& t.2@.map_values(|s: String| s@) == bounds_texts(fields@)
            },
            Err(e) => {
                &&& first_bad_field_from(fields@, 0) matches Some(i) && e
                    == (FromFileError::InvalidAttribute {
                    span: attrs_err_span(fields@[i].attrs@),
                })
            },
        },
{
    let mut assignments: Vec<String> = Vec::new();
    let mut file_fields: Vec<String> = Vec::new();
    let mut default_bounds: Vec<String> = Vec::new();
    let mut i: usize = 0;
    while i < fields.len()
        invariant
            0 <= i <= fields@.len(),
            forall|j: int| 0 <= j < i ==> attrs_ok(#[trigger] fields@[j].attrs@),
            assignments@.len() == i,
            forall|j: int|
                0 <= j < i ==> (#[trigger] assignments@[j])@ == assign_spec(fields@[j]),
            file_fields@.len() == i,
            forall|j: int|
                0 <= j < i ==> (#[trigger] file_fields@[j])@ == shadow_field_spec(
                    fields@[j],
                    with_merge,
                ),
            default_bounds@.map_values(|s: String| s@) == bounds_upto(fields@, i as int),
        decreases fields@.len() - i,
    {
        match build_file_field(&fields[i], with_merge) {
            Ok(t) => {
                let (decl, assign, bound) = t;
                assignments.push(assign);
                file_fields.push(decl);
                match bound {
                    Some(b) => {
                        default_bounds.push(b);
                    },
                    None => {},
                }
                proof {
                    assert(default_bounds@.map_values(|s: String| s@) =~= bounds_upto(
                        fields@,
                        i as int + 1,
                    ));
                }
            },
            Err(e) => {
                proof {
                    lemma_first_bad_skip(fields@, i as int);
                }
                return Err(e);
            },
        }
        i = i + 1;
    }
    proof {
        lemma_first_bad_skip(fields@, i as int);
    }
    Ok((assignments, file_fields, default_bounds))
}

/// Skipping fields that resolve does not change which field fails first.
proof fn lemma_first_bad_skip(fs: Seq<Field>, i: int)
    requires
        0 <= i <= fs.len(),
        forall|j: int| 0 <= j < i ==> attrs_ok(#[trigger] fs[j].attrs@),
    ensures
        first_bad_field_from(fs, 0) == first_bad_field_from(fs, i),
    decreases i,
{
    if i > 0 {
        lemma_first_bad_skip(fs, i - 1);
    }
}

} // verus!
