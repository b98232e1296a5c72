//! The runtime side of the generated code.
//!
//! A type processed by the generator carries two capabilities: an
//! associated shadow type whose fields are all optional, and a
//! reconstruction function from an optional shadow value. Leaf types get
//! both through one blanket rule over the zero-value capability: their
//! shadow is the type itself, a present value wins, and an absent one
//! falls back to the zero value.

use vstd::prelude::*;
use vstd::string::*;

verus! {

/// The zero-value construction capability: what a leaf field without an
/// explicit default falls back to.
pub trait ZeroValue: Sized {
    /// Whether the value is the type's zero value.
    spec fn is_zero(v: Self) -> bool;

    /// The type's zero value.
    fn zero() -> (r: Self)
        ensures
            Self::is_zero(r),
    ;
}

/// A type that can be reconstructed from an optional shadow value.
///
/// `resolves(file, r)` pins down, field by field, which results the
/// reconstruction may produce for the given shadow value; `from_file` is
/// proved to produce such a result for every input.
pub trait FromFile: Sized {
    /// The generated all-optional twin of this type.
    type Shadow: ZeroValue;

    /// The resolution relation: what reconstructing `file` must yield.
    spec fn resolves(file: Option<Self::Shadow>, r: Self) -> bool;

    /// Reconstructs a fully-populated value from an optional shadow value.
    fn from_file(file: Option<Self::Shadow>) -> (r: Self)
        ensures
            Self::resolves(file, r),
    ;
}

/// Every type with a zero value is reconstructible from itself: a present
/// value wins, an absent one yields the zero value.
impl<T: ZeroValue> FromFile for T {
    type Shadow = T;

    open spec fn resolves(file: Option<T>, r: T) -> bool {
        match file {
            Some(v) => r == v,
            None => T::is_zero(r),
        }
    }

    fn from_file(file: Option<T>) -> (r: T) {
        match file {
            Some(v) => v,
            None => T::zero(),
        }
    }
}

impl ZeroValue for bool {
    open spec fn is_zero(v: bool) -> bool {
        v == false
    }

    fn zero() -> bool {
        false
    }
}

impl ZeroValue for i32 {
    open spec fn is_zero(v: i32) -> bool {
        v == 0i32
    }

    fn zero() -> i32 {
        0
    }
}

impl ZeroValue for u32 {
    open spec fn is_zero(v: u32) -> bool {
        v == 0u32
    }

    fn zero() -> u32 {
        0
    }
}

impl ZeroValue for u64 {
    open spec fn is_zero(v: u64) -> bool {
        v == 0u64
    }

    fn zero() -> u64 {
        0
    }
}

impl ZeroValue for usize {
    open spec fn is_zero(v: usize) -> bool {
        v == 0usize
    }

    fn zero() -> usize {
        0
    }
}

impl ZeroValue for String {
    open spec fn is_zero(v: String) -> bool {
        v@ == Seq::<char>::empty()
    }

    fn zero() -> String {
        String::new()
    }
}

} // verus!
