//! The declaration extractor.
//!
//! Validates that the input declaration is a named-field product type and
//! hands its parts to the rest of the pipeline; every other shape is
//! rejected with a diagnostic attributed to the declaration.

use vstd::prelude::*;
use crate::ast::{Decl, DeclBody, Field, Struct};
use crate::error::FromFileError;

verus! {

/// The fields of the declaration, when it has the accepted shape.
pub fn extract_named_fields<'a>(input: &'a Decl) -> (r: Result<&'a Vec<Field>, FromFileError>)
    ensures
        match r {
            Ok(fields) => input.body == DeclBody::Named(*fields),
            Err(e) => !(input.body is Named) && e == (FromFileError::NotNamedStruct {
                span: input.span,
            }),
        },
{
    match &input.body {
        DeclBody::Named(fields) => Ok(fields),
        _ => Err(FromFileError::NotNamedStruct { span: input.span }),
    }
}

/// The validated structural form the assembler consumes. The declaration is
/// handed over whole and taken apart; nothing of it is dropped or reordered.
pub fn extract_struct(input: Decl) -> (r: Result<Struct, FromFileError>)
    ensures
        match r {
            Ok(s) => {
                &&& input.body == DeclBody::Named(s.fields)
                &&& s.vis == input.vis
                &&& s.name == input.name
                &&& s.generics == input.generics
                &&& s.where_preds == input.where_preds
                &&& s.span == input.span
            },
            Err(e) => !(input.body is Named) && e == (FromFileError::NotNamedStruct {
                span: input.span,
            }),
        },
{
    match input.body {
        DeclBody::Named(fields) => Ok(
            Struct {
                vis: input.vis,
                name: input.name,
                generics: input.generics,
                where_preds: input.where_preds,
                fields,
                span: input.span,
            },
        ),
        _ => Err(FromFileError::NotNamedStruct { span: input.span }),
    }
}

} // verus!
