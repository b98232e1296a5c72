//! The declaration assembler.
//!
//! Stitches the per-field emissions into the final generated code: the
//! shadow declaration with its derived capability set, the reconstruction
//! function, and the two standard conversions — both of which funnel
//! through the single reconstruction function, so there is exactly one
//! code path for the defaulting logic. Every generic parameter is
//! constrained to support zero-value construction, and every zero-value
//! obligation recorded by the emitter becomes a where-clause predicate.

use vstd::prelude::*;
use vstd::string::*;
use crate::ast::{vis_text, Decl, DeclBody, GenericParam, Struct, Visibility};
use crate::checks::{check_where_predicate, where_predicate_ok};
use crate::codegen::{
    assign_spec, bounds_texts, fields_ok, first_bad_field_from, process_fields,
    shadow_field_spec,
};
use crate::error::FromFileError;
use crate::extract::extract_struct;
use crate::parser::attrs_err_span;

verus! {

/// The first `n` texts joined by the separator.
pub open spec fn join_upto(xs: Seq<Seq<char>>, sep: Seq<char>, n: int) -> Seq<char>
    decreases n,
{
    if n <= 0 {
        Seq::empty()
    } else if n == 1 {
        xs[0]
    } else {
        join_upto(xs, sep, n - 1) + sep + xs[n - 1]
    }
}

/// The texts joined by the separator.
pub open spec fn join_texts(xs: Seq<Seq<char>>, sep: Seq<char>) -> Seq<char> {
    join_upto(xs, sep, xs.len() as int)
}

fn join_strings(items: &Vec<String>, sep: &str) -> (out: String)
    ensures
        out@ == join_texts(items@.map_values(|s: String| s@), sep@),
{
    let mut out = String::new();
    let mut i: usize = 0;
    while i < items.len()
        invariant
            0 <= i <= items@.len(),
            out@ == join_upto(items@.map_values(|s: String| s@), sep@, i as int),
        decreases items@.len() - i,
    {
        if i > 0 {
            out.append(sep);
        }
        out.append(items[i].as_str());
        proof {
            assert(items@.map_values(|s: String| s@)[i as int] == items@[i as int]@);
        }
        i = i + 1;
    }
    out
}

/// The derived capability set of the shadow declaration: debuggable,
/// cloneable, zero-value constructible, (de)serializable, and — when the
/// layered-merge capability is asked for — mergeable.
pub open spec fn derive_clause_text(with_merge: bool) -> Seq<char> {
    if with_merge {
        "# [derive (Debug , Clone , Default , serde :: Deserialize , serde :: Serialize , merge :: Merge)]"@
    } else {
        "# [derive (Debug , Clone , Default , serde :: Deserialize , serde :: Serialize)]"@
    }
}

/// Builds the derive clause of the shadow declaration.
pub fn build_derive_clause(with_merge: bool) -> (out: String)
    ensures
        out@ == derive_clause_text(with_merge),
{
    if with_merge {
        String::from_str(
            "# [derive (Debug , Clone , Default , serde :: Deserialize , serde :: Serialize , merge :: Merge)]",
        )
    } else {
        String::from_str(
            "# [derive (Debug , Clone , Default , serde :: Deserialize , serde :: Serialize)]",
        )
    }
}

/// The parameter names of the first `n` generic parameters, joined by commas.
pub open spec fn names_upto(ps: Seq<GenericParam>, n: int) -> Seq<char>
    decreases n,
{
    if n <= 0 {
        Seq::empty()
    } else if n == 1 {
        ps[0].name@
    } else {
        names_upto(ps, n - 1) + " , "@ + ps[n - 1].name@
    }
}

/// The generic arguments written after a type's name.
pub open spec fn ty_generics_text(ps: Seq<GenericParam>) -> Seq<char> {
    if ps.len() == 0 {
        Seq::empty()
    } else {
        "< "@ + names_upto(ps, ps.len() as int) + " > "@
    }
}

/// The declared bounds of one parameter, each followed by `+`, ready for
/// the appended zero-value bound.
pub open spec fn bounds_prefix(bs: Seq<String>, n: int) -> Seq<char>
    decreases n,
{
    if n <= 0 {
        Seq::empty()
    } else {
        bounds_prefix(bs, n - 1) + bs[n - 1]@ + " + "@
    }
}

/// One generic parameter with its declared bounds and the zero-value bound
/// appended: the reconstruction function needs it even when every field
/// carries an explicit override, because the top-level absent case must
/// still produce a value.
pub open spec fn bounded_param_text(p: GenericParam) -> Seq<char> {
    p.name@ + " : "@ + bounds_prefix(p.bounds@, p.bounds@.len() as int) + "Default"@
}

/// The first `n` bounded parameters, joined by commas.
pub open spec fn bounded_params_upto(ps: Seq<GenericParam>, n: int) -> Seq<char>
    decreases n,
{
    if n <= 0 {
        Seq::empty()
    } else if n == 1 {
        bounded_param_text(ps[0])
    } else {
        bounded_params_upto(ps, n - 1) + " , "@ + bounded_param_text(ps[n - 1])
    }
}

/// The generic parameters written after `impl`, every one constrained to
/// support zero-value construction.
pub open spec fn impl_generics_text(ps: Seq<GenericParam>) -> Seq<char> {
    if ps.len() == 0 {
        Seq::empty()
    } else {
        "< "@ + bounded_params_upto(ps, ps.len() as int) + " > "@
    }
}

/// Renders the impl generics with the zero-value bound added to every
/// parameter.
pub fn add_trait_bounds(generics: &Vec<GenericParam>) -> (out: String)
    ensures
        out@ == impl_generics_text(generics@),
{
    if generics.len() == 0 {
        return String::new();
    }
    let mut out = String::from_str("< ");
    let mut i: usize = 0;
    while i < generics.len()
        invariant
            0 < generics@.len(),
            0 <= i <= generics@.len(),
            out@ == "< "@ + bounded_params_upto(generics@, i as int),
        decreases generics@.len() - i,
    {
        if i > 0 {
            out.append(" , ");
        }
        let ghost entry = out@;
        let p = &generics[i];
        out.append(p.name.as_str());
        out.append(" : ");
        let mut j: usize = 0;
        while j < p.bounds.len()
            invariant
                0 <= j <= p.bounds@.len(),
                p == generics@[i as int],
                out@ == entry + p.name@ + " : "@ + bounds_prefix(p.bounds@, j as int),
            decreases p.bounds@.len() - j,
        {
            out.append(p.bounds[j].as_str());
            out.append(" + ");
            j = j + 1;
        }
        out.append("Default");
        proof {
            assert(out@ =~= "< "@ + bounded_params_upto(generics@, i as int + 1));
        }
        i = i + 1;
    }
    out.append(" > ");
    proof {
        assert(out@ =~= impl_generics_text(generics@));
    }
    out
}

/// Renders the generic arguments written after a type's name.
pub fn render_ty_generics(generics: &Vec<GenericParam>) -> (out: String)
    ensures
        out@ == ty_generics_text(generics@),
{
    if generics.len() == 0 {
        return String::new();
    }
    let mut out = String::from_str("< ");
    let mut i: usize = 0;
    while i < generics.len()
        invariant
            0 < generics@.len(),
            0 <= i <= generics@.len(),
            out@ == "< "@ + names_upto(generics@, i as int),
        decreases generics@.len() - i,
    {
        if i > 0 {
            out.append(" , ");
        }
        out.append(generics[i].name.as_str());
        proof {
            assert(out@ =~= "< "@ + names_upto(generics@, i as int + 1));
        }
        i = i + 1;
    }
    out.append(" > ");
    out
}

/// The where-clause predicates already declared, as texts.
pub open spec fn prior_preds(w: Option<Vec<String>>) -> Seq<Seq<char>> {
    match w {
        Some(ps) => ps@.map_values(|s: String| s@),
        None => Seq::empty(),
    }
}

/// The predicate texts of an optional where clause.
pub open spec fn preds_view(w: Option<Vec<String>>) -> Option<Seq<Seq<char>>> {
    match w {
        Some(ps) => Some(ps@.map_values(|s: String| s@)),
        None => None,
    }
}

/// The rendered where clause.
pub open spec fn where_text(preds: Option<Seq<Seq<char>>>) -> Seq<char> {
    match preds {
        None => Seq::empty(),
        Some(ps) => if ps.len() == 0 {
            Seq::empty()
        } else {
            "where "@ + join_texts(ps, " , "@) + " "@
        },
    }
}

fn render_where(w: &Option<Vec<String>>) -> (out: String)
    ensures
        out@ == where_text(preds_view(*w)),
{
    match w {
        Option::None => String::new(),
        Option::Some(ps) => {
            if ps.len() == 0 {
                String::new()
            } else {
                let mut out = String::from_str("where ");
                let joined = join_strings(ps, " , ");
                out.append(joined.as_str());
                out.append(" ");
                out
            }
        },
    }
}

fn clone_pred_list(w: &Option<Vec<String>>) -> (r: Option<Vec<String>>)
    ensures
        preds_view(r) == preds_view(*w),
{
    match w {
        Option::None => Option::None,
        Option::Some(ps) => {
            let mut out: Vec<String> = Vec::new();
            let mut i: usize = 0;
            while i < ps.len()
                invariant
                    0 <= i <= ps@.len(),
                    out@.len() == i,
                    forall|j: int| 0 <= j < i ==> (#[trigger] out@[j])@ == ps@[j]@,
                decreases ps@.len() - i,
            {
                out.push(String::from_str(ps[i].as_str()));
                i = i + 1;
            }
            proof {
                assert(out@.map_values(|s: String| s@) =~~= ps@.map_values(|s: String| s@));
                assert(preds_view(Some(out)) == preds_view(*w));
            }
            Option::Some(out)
        },
    }
}

/// Appends the recorded zero-value obligations to the declared where
/// clause, validating each as a predicate of the host language.
pub fn build_where_clause(
    where_clause: Option<Vec<String>>,
    default_bounds: Vec<String>,
    span: usize,
) -> (r: Result<Option<Vec<String>>, FromFileError>)
    ensures
        match r {
            Ok(w) => {
                &&& (default_bounds@.len() == 0 ==> w == where_clause)
                &&& (default_bounds@.len() > 0 ==> {
                    &&& (forall|i: int|
                        0 <= i < default_bounds@.len() ==> where_predicate_ok(
                            (#[trigger] default_bounds@[i])@,
                        ))
                    &&& w matches Some(ps) && ps@.map_values(|s: String| s@) == prior_preds(
                        where_clause,
                    ) + default_bounds@.map_values(|s: String| s@)
                })
            },
            Err(e) => {
                &&& exists|i: int|
                    0 <= i < default_bounds@.len() && !where_predicate_ok(
                        (#[trigger] default_bounds@[i])@,
                    )
                &&& e == (FromFileError::InvalidAttribute { span })
            },
        },
{
    if default_bounds.len() == 0 {
        return Ok(where_clause);
    }
    let mut i: usize = 0;
    while i < default_bounds.len()
        invariant
            0 <= i <= default_bounds@.len(),
            forall|j: int|
                0 <= j < i ==> where_predicate_ok((#[trigger] default_bounds@[j])@),
        decreases default_bounds@.len() - i,
    {
        if !check_where_predicate(default_bounds[i].as_str()) {
            return Err(FromFileError::InvalidAttribute { span });
        }
        i = i + 1;
    }
    let ghost orig = prior_preds(where_clause);
    match where_clause {
        Option::Some(mut wc) => {
            let ghost origv = wc@;
            let mut k: usize = 0;
            while k < default_bounds.len()
                invariant
                    0 <= k <= default_bounds@.len(),
                    wc@.len() == origv.len() + k,
                    forall|j: int| 0 <= j < origv.len() ==> wc@[j] == origv[j],
                    forall|j: int|
                        origv.len() <= j < origv.len() + k ==> (#[trigger] wc@[j])@
                            == default_bounds@[j - origv.len()]@,
                decreases default_bounds@.len() - k,
            {
                wc.push(String::from_str(default_bounds[k].as_str()));
                k = k + 1;
            }
            proof {
                assert(orig == origv.map_values(|s: String| s@));
                assert(wc@.map_values(|s: String| s@) =~~= orig + default_bounds@.map_values(
                    |s: String| s@,
                ));
            }
            Ok(Option::Some(wc))
        },
        Option::None => {
            proof {
                assert(Seq::<Seq<char>>::empty() + default_bounds@.map_values(|s: String| s@)
                    =~= default_bounds@.map_values(|s: String| s@));
            }
            Ok(Option::Some(default_bounds))
        },
    }
}

/// The shadow field declarations of all fields, in order.
pub open spec fn shadow_fields_seq(fs: Seq<crate::ast::Field>, with_merge: bool) -> Seq<
    Seq<char>,
> {
    Seq::new(fs.len(), |i: int| shadow_field_spec(fs[i], with_merge))
}

/// The resolution expressions of all fields, in order.
pub open spec fn assigns_seq(fs: Seq<crate::ast::Field>) -> Seq<Seq<char>> {
    Seq::new(fs.len(), |i: int| assign_spec(fs[i]))
}

/// The complete where-clause predicates of the generated items: what was
/// declared, followed by the recorded zero-value obligations.
pub open spec fn combined_preds(s: Struct) -> Option<Seq<Seq<char>>> {
    if bounds_texts(s.fields@).len() == 0 {
        preds_view(s.where_preds)
    } else {
        Some(prior_preds(s.where_preds) + bounds_texts(s.fields@))
    }
}

/// The generated shadow declaration.
pub open spec fn struct_decl_text(s: Struct, with_merge: bool) -> Seq<char> {
    vis_text(s.vis) + "struct "@ + s.name@ + "File "@ + ty_generics_text(s.generics@)
        + where_text(combined_preds(s)) + "{ "@ + join_texts(
        shadow_fields_seq(s.fields@, with_merge),
        " , "@,
    ) + " }"@
}

/// The generated reconstruction impl: the shadow type association and the
/// reconstruction function that walks both structures in lockstep.
pub open spec fn from_file_impl_text(s: Struct) -> Seq<char> {
    "impl "@ + impl_generics_text(s.generics@) + "filecaster :: FromFile for "@ + s.name@ + " "@
        + ty_generics_text(s.generics@) + where_text(combined_preds(s)) + "{ type Shadow = "@
        + s.name@ + "File "@ + ty_generics_text(s.generics@)
        + "; fn from_file (file : Option < Self :: Shadow >) -> Self { let file = file . unwrap_or_default () ; Self { "@
        + join_texts(assigns_seq(s.fields@), " , "@) + " } } }"@
}

/// The generated conversion from an optional shadow value.
pub open spec fn conv_opt_impl_text(s: Struct) -> Seq<char> {
    "impl "@ + impl_generics_text(s.generics@) + "From < Option < "@ + s.name@ + "File "@
        + ty_generics_text(s.generics@) + "> > for "@ + s.name@ + " "@ + ty_generics_text(
        s.generics@,
    ) + where_text(combined_preds(s)) + "{ fn from (value : Option < "@ + s.name@ + "File "@
        + ty_generics_text(s.generics@)
        + ">) -> Self { < Self as filecaster :: FromFile > :: from_file (value) } }"@
}

/// The generated conversion from a present shadow value.
pub open spec fn conv_impl_text(s: Struct) -> Seq<char> {
    "impl "@ + impl_generics_text(s.generics@) + "From < "@ + s.name@ + "File "@
        + ty_generics_text(s.generics@) + "> for "@ + s.name@ + " "@ + ty_generics_text(
        s.generics@,
    ) + where_text(combined_preds(s)) + "{ fn from (value : "@ + s.name@ + "File "@
        + ty_generics_text(s.generics@)
        + ") -> Self { < Self as filecaster :: FromFile > :: from_file (Some (value)) } }"@
}

/// Everything the generator emits for one declaration.
pub open spec fn generated_code(s: Struct, with_merge: bool) -> Seq<char> {
    derive_clause_text(with_merge) + "\n"@ + struct_decl_text(s, with_merge) + "\n"@
        + from_file_impl_text(s) + "\n"@ + conv_opt_impl_text(s) + "\n"@ + conv_impl_text(s)
}

/// Whether generation succeeds for the declaration.
pub open spec fn generate_ok(s: Struct) -> bool {
    &&& fields_ok(s.fields@)
    &&& forall|i: int|
        0 <= i < bounds_texts(s.fields@).len() ==> where_predicate_ok(
            #[trigger] bounds_texts(s.fields@)[i],
        )
}

/// The diagnostics generation can end in: a field whose directive is
/// malformed, or a recorded obligation that does not form a predicate.
pub open spec fn generate_error(s: Struct, e: FromFileError) -> bool {
    ||| (first_bad_field_from(s.fields@, 0) matches Some(i) && e
        == (FromFileError::InvalidAttribute { span: attrs_err_span(s.fields@[i].attrs@) }))
    ||| (fields_ok(s.fields@) && (exists|i: int|
        0 <= i < bounds_texts(s.fields@).len() && !where_predicate_ok(
            #[trigger] bounds_texts(s.fields@)[i],
        )) && e == (FromFileError::InvalidAttribute { span: s.span }))
}

/// Generates the shadow declaration, the reconstruction impl and the two
/// conversions for a validated named-field declaration.
#[verifier::rlimit(60)]
pub fn generate_impl(info: &Struct, with_merge: bool) -> (r: Result<String, FromFileError>)
    ensures
        match r {
            Ok(out) => generate_ok(*info) && out@ == generated_code(*info, with_merge),
            Err(e) => generate_error(*info, e),
        },
{
    let impl_generics = add_trait_bounds(&info.generics);
    let ty_generics = render_ty_generics(&info.generics);
    let parts = match process_fields(&info.fields, with_merge) {
        Ok(t) => t,
        Err(e) => {
            return Err(e);
        },
    };
    let (assignments, file_fields, default_bounds) = parts;
    let prior = clone_pred_list(&info.where_preds);
    let ghost db = default_bounds@;
    let w = match build_where_clause(prior, default_bounds, info.span) {
        Ok(w) => w,
        Err(e) => {
            proof {
                let i = choose|i: int|
                    0 <= i < db.len() && !where_predicate_ok((#[trigger] db[i])@);
                assert(bounds_texts(info.fields@)[i] == db.map_values(|s: String| s@)[i]);
                assert(!where_predicate_ok(bounds_texts(info.fields@)[i]));
            }
            return Err(e);
        },
    };
    let where_str = render_where(&w);
    proof {
        if bounds_texts(info.fields@).len() == 0 {
            assert(preds_view(w) == combined_preds(*info));
        } else {
            assert(preds_view(w) matches Some(ps) && combined_preds(*info) matches Some(cs)
                && ps =~= cs);
        }
        assert(where_str@ == where_text(combined_preds(*info)));
    }
    let derive = build_derive_clause(with_merge);
    let fields_join = join_strings(&file_fields, " , ");
    let assigns_join = join_strings(&assignments, " , ");
    proof {
        assert(file_fields@.map_values(|s: String| s@) =~= shadow_fields_seq(
            info.fields@,
            with_merge,
        ));
        assert(assignments@.map_values(|s: String| s@) =~= assigns_seq(info.fields@));
    }

    let mut decl_part = String::new();
    match &info.vis {
        Visibility::Public => decl_part.append("pub "),
        Visibility::Inherited => {},
        Visibility::Restricted(s) => {
            decl_part.append(s.as_str());
            decl_part.append(" ");
        },
    }
    decl_part.append("struct ");
    decl_part.append(info.name.as_str());
    decl_part.append("File ");
    decl_part.append(ty_generics.as_str());
    decl_part.append(where_str.as_str());
    decl_part.append("{ ");
    decl_part.append(fields_join.as_str());
    decl_part.append(" }");
    proof {
        assert(decl_part@ =~= struct_decl_text(*info, with_merge));
    }

    let mut impl_part = String::new();
    impl_part.append("impl ");
    impl_part.append(impl_generics.as_str());
    impl_part.append("filecaster :: FromFile for ");
    impl_part.append(info.name.as_str());
    impl_part.append(" ");
    impl_part.append(ty_generics.as_str());
    impl_part.append(where_str.as_str());
    impl_part.append("{ type Shadow = ");
    impl_part.append(info.name.as_str());
    impl_part.append("File ");
    impl_part.append(ty_generics.as_str());
    impl_part.append(
        "; fn from_file (file : Option < Self :: Shadow >) -> Self { let file = file . unwrap_or_default () ; Self { ",
    );
    impl_part.append(assigns_join.as_str());
    impl_part.append(" } } }");
    proof {
        assert(impl_part@ =~= from_file_impl_text(*info));
    }

    let mut conv_opt_part = String::new();
    conv_opt_part.append("impl ");
    conv_opt_part.append(impl_generics.as_str());
    conv_opt_part.append("From < Option < ");
    conv_opt_part.append(info.name.as_str());
    conv_opt_part.append("File ");
    conv_opt_part.append(ty_generics.as_str());
    conv_opt_part.append("> > for ");
    conv_opt_part.append(info.name.as_str());
    conv_opt_part.append(" ");
    conv_opt_part.append(ty_generics.as_str());
    conv_opt_part.append(where_str.as_str());
    conv_opt_part.append("{ fn from (value : Option < ");
    conv_opt_part.append(info.name.as_str());
    conv_opt_part.append("File ");
    conv_opt_part.append(ty_generics.as_str());
    conv_opt_part.append(
        ">) -> Self { < Self as filecaster :: FromFile > :: from_file (value) } }",
    );
    proof {
        assert(conv_opt_part@ =~= conv_opt_impl_text(*info));
    }

    let mut conv_part = String::new();
    conv_part.append("impl ");
    conv_part.append(impl_generics.as_str());
    conv_part.append("From < ");
    conv_part.append(info.name.as_str());
    conv_part.append("File ");
    conv_part.append(ty_generics.as_str());
    conv_part.append("> for ");
    conv_part.append(info.name.as_str());
    conv_part.append(" ");
    conv_part.append(ty_generics.as_str());
    conv_part.append(where_str.as_str());
    conv_part.append("{ fn from (value : ");
    conv_part.append(info.name.as_str());
    conv_part.append("File ");
    conv_part.append(ty_generics.as_str());
    conv_part.append(
        ") -> Self { < Self as filecaster :: FromFile > :: from_file (Some (value)) } }",
    );
    proof {
        assert(conv_part@ =~= conv_impl_text(*info));
    }

    let mut out = String::new();
    out.append(derive.as_str());
    out.append("\n");
    out.append(decl_part.as_str());
    out.append("\n");
    out.append(impl_part.as_str());
    out.append("\n");
    out.append(conv_opt_part.as_str());
    out.append("\n");
    out.append(conv_part.as_str());
    proof {
        assert(out@ =~= generated_code(*info, with_merge));
    }
    Ok(out)
}

/// The structural form of a declaration already known to have named fields.
pub open spec fn decl_struct(d: Decl) -> Struct {
    Struct {
        vis: d.vis,
        name: d.name,
        generics: d.generics,
        where_preds: d.where_preds,
        fields: (match d.body {
            DeclBody::Named(fs) => fs,
            _ => vstd::pervasive::arbitrary(),
        }),
        span: d.span,
    }
}

/// The whole pipeline for one declaration: extraction, per-field
/// resolution and emission, and assembly of the generated code.
pub fn impl_from_file(input: Decl, with_merge: bool) -> (r: Result<String, FromFileError>)
    ensures
        match r {
            Ok(out) => {
                &&& input.body is Named
                &&& generate_ok(decl_struct(input))
                &&& out@ == generated_code(decl_struct(input), with_merge)
            },
            Err(e) => {
                ||| (!(input.body is Named) && e == (FromFileError::NotNamedStruct {
                    span: input.span,
                }))
                ||| (input.body is Named && generate_error(decl_struct(input), e))
            },
        },
{
    let ghost ghost_input = input;
    match extract_struct(input) {
        Err(e) => Err(e),
        Ok(s) => {
            proof {
                assert(s == decl_struct(ghost_input));
            }
            generate_impl(&s, with_merge)
        },
    }
}

} // verus!
