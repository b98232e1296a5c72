//! The structural model of an input declaration.
//!
//! The host front end hands the generator a [`Decl`]: the declared name,
//! visibility, generic parameters, an optional where clause, and the body
//! shape. Only a named-field body survives extraction; it is carried as a
//! [`Struct`] through the rest of the pipeline.

use vstd::prelude::*;
use crate::token::Token;

verus! {

/// The exposure of a declaration or of one of its fields.
#[derive(Debug, Clone, PartialEq, Eq)]
pub enum Visibility {
    /// No modifier: visible to the enclosing module only.
    Inherited,
    /// `pub`.
    Public,
    /// A restricted modifier, held as its source text, e.g. `pub (crate)`.
    Restricted(String),
}

/// The rendered prefix a visibility contributes to emitted code.
pub open spec fn vis_text(v: Visibility) -> Seq<char> {
    match v {
        Visibility::Inherited => Seq::<char>::empty(),
        Visibility::Public => "pub "@,
        Visibility::Restricted(s) => s@ + " "@,
    }
}

/// One attribute attached to a field: its path and its raw content tokens.
#[derive(Debug, Clone, PartialEq, Eq)]
pub struct Attribute {
    /// The attribute's name, e.g. `from_file` in `#[from_file(...)]`.
    pub path: String,
    /// The tokens between the attribute's parentheses.
    pub tokens: Vec<Token>,
    /// An opaque source position for diagnostics.
    pub span: usize,
}

/// One named field of a declaration.
#[derive(Debug, Clone, PartialEq, Eq)]
pub struct Field {
    pub attrs: Vec<Attribute>,
    pub vis: Visibility,
    pub name: String,
    /// The declared type, as its source text.
    pub ty: String,
    /// An opaque source position for diagnostics.
    pub span: usize,
}

/// One generic type parameter with its declared bounds.
#[derive(Debug, Clone, PartialEq, Eq)]
pub struct GenericParam {
    pub name: String,
    /// Bound texts, e.g. `Clone`.
    pub bounds: Vec<String>,
}

/// The body shape of an input declaration.
#[derive(Debug, Clone, PartialEq, Eq)]
pub enum DeclBody {
    /// A product type with named fields: the only accepted shape.
    Named(Vec<Field>),
    /// A product type with positional fields, holding the field type texts.
    Positional(Vec<String>),
    /// A type with no fields at all.
    Unit,
    /// A sum type, holding its variant names.
    Sum(Vec<String>),
}

/// An input declaration as the host front end describes it.
#[derive(Debug, Clone, PartialEq, Eq)]
pub struct Decl {
    pub vis: Visibility,
    pub name: String,
    pub generics: Vec<GenericParam>,
    /// The predicates of a declared where clause, if one is present.
    pub where_preds: Option<Vec<String>>,
    pub body: DeclBody,
    /// An opaque source position for diagnostics.
    pub span: usize,
}

/// A validated named-field declaration: what extraction produces.
#[derive(Debug, Clone, PartialEq, Eq)]
pub struct Struct {
    pub vis: Visibility,
    pub name: String,
    pub generics: Vec<GenericParam>,
    pub where_preds: Option<Vec<String>>,
    pub fields: Vec<Field>,
    pub span: usize,
}

} // verus!
