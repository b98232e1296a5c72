//! The generator's diagnostics.
//!
//! Every fallible step of the pipeline reports one of these two errors, each
//! carrying an opaque source position so the caller can attribute the
//! diagnostic to the offending declaration.

use vstd::prelude::*;
use vstd::string::*;

verus! {

/// Everything that can go wrong while generating code for one declaration.
#[derive(Debug, Clone, PartialEq, Eq)]
pub enum FromFileError {
    /// The declaration is a sum type, a positional-field type or a unit type.
    NotNamedStruct { span: usize },
    /// A directive attribute is present but malformed: the `default` key is
    /// missing, or its value does not parse as an expression.
    InvalidAttribute { span: usize },
}

impl FromFileError {
    /// The source position the diagnostic is attributed to.
    pub open spec fn span_spec(self) -> usize {
        match self {
            FromFileError::NotNamedStruct { span } => span,
            FromFileError::InvalidAttribute { span } => span,
        }
    }

    pub fn span(&self) -> (s: usize)
        ensures
            s == self.span_spec(),
    {
        match self {
            FromFileError::NotNamedStruct { span } => *span,
            FromFileError::InvalidAttribute { span } => *span,
        }
    }

    /// The human-readable message of the diagnostic.
    pub open spec fn message_spec(self) -> Seq<char> {
        match self {
            FromFileError::NotNamedStruct { .. } => "FromFile only works on structs with named fields"@,
            FromFileError::InvalidAttribute { .. } => "Invalid #[from_file] attribute format"@,
        }
    }

    pub fn message(&self) -> (m: String)
        ensures
            m@ == self.message_spec(),
    {
        match self {
            FromFileError::NotNamedStruct { .. } => String::from_str(
                "FromFile only works on structs with named fields",
            ),
            FromFileError::InvalidAttribute { .. } => String::from_str(
                "Invalid #[from_file] attribute format",
            ),
        }
    }

    /// The text of a `compile_error!` invocation carrying the message, for
    /// splicing into the emitted code in place of the generated items.
    pub open spec fn compile_error_spec(self) -> Seq<char> {
        "compile_error ! (\""@ + self.message_spec() + "\")"@
    }

    pub fn to_compile_error(&self) -> (t: String)
        ensures
            t@ == self.compile_error_spec(),
    {
        let mut out = String::from_str("compile_error ! (\"");
        let m = self.message();
        out.append(m.as_str());
        out.append("\")");
        out
    }
}

} // verus!
