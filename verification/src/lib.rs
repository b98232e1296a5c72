//! A code generator for partially specified configuration structures.
//!
//! Given the structural description of a named-field struct, the library
//! emits a parallel "shadow" declaration whose fields are all optional,
//! together with the reconstruction code that fills every absent field from
//! either an explicit per-field default expression or the type's zero value.
//! The runtime side of that contract is the [`FromFile`] trait: a type built
//! from a shadow value, with resolution semantics pinned down field by field.

mod assemble;
mod ast;
mod checks;
mod classify;
mod codegen;
mod error;
mod expansions;
mod extract;
pub mod laws;
mod parser;
mod shadow;
mod token;

pub use assemble::{
    add_trait_bounds, build_derive_clause, build_where_clause, generate_impl, impl_from_file,
};
pub use ast::{Attribute, Decl, DeclBody, Field, GenericParam, Struct, Visibility};
pub use classify::{classify, is_from_file_struct, Classification};
pub use codegen::{build_file_field, process_fields};
pub use error::FromFileError;
pub use expansions::{
    config_resolves, coordinates_resolves, double_wrapper_resolves, numeric_default_resolves,
    parent_resolves, simple_resolves, wrapper_resolves, Config, ConfigFile, Coordinates,
    CoordinatesFile, DoubleWrapper, DoubleWrapperFile, NumericDefault, NumericDefaultFile,
    Parent, ParentFile, Simple, SimpleFile, Wrapper, WrapperFile,
};
pub use extract::{extract_named_fields, extract_struct};
pub use parser::{parse_default, parse_from_file_default_attr, Directive};
pub use shadow::{FromFile, ZeroValue};
pub use token::{Delim, Spacing, Token};
