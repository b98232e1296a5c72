//! Worked expansions of the generated code.
//!
//! Each pair of types below is one declaration together with the code the
//! generator emits for it, written out and verified: the all-optional
//! shadow twin, its zero value, and the reconstruction that resolves every
//! field by the tie-break table — a present shadow value wins and is
//! resolved recursively; an absent one falls back to the explicit default
//! if the field carries one, and to the type's zero value otherwise.
//! Nesting composes: a structure-typed field delegates to that type's own
//! shadow and reconstruction.

use vstd::prelude::*;
use vstd::string::*;
use crate::shadow::{FromFile, ZeroValue};

verus! {

// A declaration with two leaf fields, one carrying an explicit default:
//
//     struct Simple {
//         x: i32,
//         #[from_file(default = "hello")]
//         y: String,
//     }
#[derive(Debug, Clone, PartialEq)]
pub struct Simple {
    pub x: i32,
    pub y: String,
}

/// The shadow twin of [`Simple`].
#[derive(Debug, Clone, PartialEq)]
pub struct SimpleFile {
    pub x: Option<i32>,
    pub y: Option<String>,
}

impl ZeroValue for SimpleFile {
    open spec fn is_zero(v: SimpleFile) -> bool {
        v == (SimpleFile { x: None, y: None })
    }

    fn zero() -> SimpleFile {
        SimpleFile { x: None, y: None }
    }
}

impl SimpleFile {
    /// Layered merge: keep the present value, fill only what is absent.
    pub fn merge(&mut self, other: SimpleFile)
        ensures
            final(self).x == (if old(self).x is Some {
                old(self).x
            } else {
                other.x
            }),
            final(self).y == (if old(self).y is Some {
                old(self).y
            } else {
                other.y
            }),
    {
        if self.x.is_none() {
            self.x = other.x;
        }
        if self.y.is_none() {
            self.y = other.y;
        }
    }
}

/// What reconstructing a [`Simple`] from the given shadow must yield.
pub open spec fn simple_resolves(file: Option<SimpleFile>, r: Simple) -> bool {
    let f = match file {
        Some(f) => f,
        None => SimpleFile { x: None, y: None },
    };
    &&& r.x == f.x.unwrap_or(0i32)
    &&& (match f.y {
        Some(v) => r.y == v,
        None => r.y@ == "hello"@,
    })
}

impl FromFile for Simple {
    type Shadow = SimpleFile;

    open spec fn resolves(file: Option<SimpleFile>, r: Simple) -> bool {
        simple_resolves(file, r)
    }

    fn from_file(file: Option<SimpleFile>) -> (r: Simple) {
        let file = match file {
            Some(f) => f,
            None => <SimpleFile as ZeroValue>::zero(),
        };
        Simple {
            x: match file.x {
                Some(v) => v,
                None => <i32 as ZeroValue>::zero(),
            },
            y: match file.y {
                Some(inner) => <String as FromFile>::from_file(Some(inner)),
                None => String::from_str("hello"),
            },
        }
    }
}

// A declaration with a numeric explicit default:
//
//     struct NumericDefault {
//         a: i32,
//         #[from_file(default = 42)]
//         b: i32,
//     }
#[derive(Debug, Clone, PartialEq)]
pub struct NumericDefault {
    pub a: i32,
    pub b: i32,
}

/// The shadow twin of [`NumericDefault`].
#[derive(Debug, Clone, PartialEq)]
pub struct NumericDefaultFile {
    pub a: Option<i32>,
    pub b: Option<i32>,
}

impl ZeroValue for NumericDefaultFile {
    open spec fn is_zero(v: NumericDefaultFile) -> bool {
        v == (NumericDefaultFile { a: None, b: None })
    }

    fn zero() -> NumericDefaultFile {
        NumericDefaultFile { a: None, b: None }
    }
}

/// What reconstructing a [`NumericDefault`] from the given shadow must yield.
pub open spec fn numeric_default_resolves(file: Option<NumericDefaultFile>, r: NumericDefault) -> bool {
    let f = match file {
        Some(f) => f,
        None => NumericDefaultFile { a: None, b: None },
    };
    &&& r.a == f.a.unwrap_or(0i32)
    &&& r.b == f.b.unwrap_or(42i32)
}

impl FromFile for NumericDefault {
    type Shadow = NumericDefaultFile;

    open spec fn resolves(file: Option<NumericDefaultFile>, r: NumericDefault) -> bool {
        numeric_default_resolves(file, r)
    }

    fn from_file(file: Option<NumericDefaultFile>) -> (r: NumericDefault) {
        let file = match file {
            Some(f) => f,
            None => <NumericDefaultFile as ZeroValue>::zero(),
        };
        NumericDefault {
            a: match file.a {
                Some(v) => v,
                None => <i32 as ZeroValue>::zero(),
            },
            b: match file.b {
                Some(inner) => <i32 as FromFile>::from_file(Some(inner)),
                None => 42,
            },
        }
    }
}

// A declaration with two plain leaf fields, used nested below:
//
//     struct Coordinates {
//         x: i32,
//         y: i32,
//     }
#[derive(Debug, Clone, PartialEq)]
pub struct Coordinates {
    pub x: i32,
    pub y: i32,
}

/// The shadow twin of [`Coordinates`].
#[derive(Debug, Clone, PartialEq)]
pub struct CoordinatesFile {
    pub x: Option<i32>,
    pub y: Option<i32>,
}

impl Coordinates {
    pub fn new(x: i32, y: i32) -> (r: Coordinates)
        ensures
            r == (Coordinates { x, y }),
    {
        Coordinates { x, y }
    }
}

impl CoordinatesFile {
    pub fn new(x: i32, y: i32) -> (r: CoordinatesFile)
        ensures
            r == (CoordinatesFile { x: Some(x), y: Some(y) }),
    {
        CoordinatesFile { x: Some(x), y: Some(y) }
    }
}

impl ZeroValue for CoordinatesFile {
    open spec fn is_zero(v: CoordinatesFile) -> bool {
        v == (CoordinatesFile { x: None, y: None })
    }

    fn zero() -> CoordinatesFile {
        CoordinatesFile { x: None, y: None }
    }
}

/// What reconstructing a [`Coordinates`] from the given shadow must yield.
pub open spec fn coordinates_resolves(file: Option<CoordinatesFile>, r: Coordinates) -> bool {
    let f = match file {
        Some(f) => f,
        None => CoordinatesFile { x: None, y: None },
    };
    &&& r.x == f.x.unwrap_or(0i32)
    &&& r.y == f.y.unwrap_or(0i32)
}

impl FromFile for Coordinates {
    type Shadow = CoordinatesFile;

    open spec fn resolves(file: Option<CoordinatesFile>, r: Coordinates) -> bool {
        coordinates_resolves(file, r)
    }

    fn from_file(file: Option<CoordinatesFile>) -> (r: Coordinates) {
        let file = match file {
            Some(f) => f,
            None => <CoordinatesFile as ZeroValue>::zero(),
        };
        Coordinates {
            x: match file.x {
                Some(v) => v,
                None => <i32 as ZeroValue>::zero(),
            },
            y: match file.y {
                Some(v) => v,
                None => <i32 as ZeroValue>::zero(),
            },
        }
    }
}

// A declaration mixing an explicit string default with a nested field:
//
//     struct Parent {
//         #[from_file(default = "Foo")]
//         name: String,
//         coordinates: Coordinates,
//     }
#[derive(Debug, Clone, PartialEq)]
pub struct Parent {
    pub name: String,
    pub coordinates: Coordinates,
}

/// The shadow twin of [`Parent`]: the nested field holds the nested
/// type's own shadow, so a partial override can reach any depth.
#[derive(Debug, Clone, PartialEq)]
pub struct ParentFile {
    pub name: Option<String>,
    pub coordinates: Option<CoordinatesFile>,
}

impl ZeroValue for ParentFile {
    open spec fn is_zero(v: ParentFile) -> bool {
        v == (ParentFile { name: None, coordinates: None })
    }

    fn zero() -> ParentFile {
        ParentFile { name: None, coordinates: None }
    }
}

/// What reconstructing a [`Parent`] from the given shadow must yield: the
/// nested field delegates to the nested type's own resolution.
pub open spec fn parent_resolves(file: Option<ParentFile>, r: Parent) -> bool {
    let f = match file {
        Some(f) => f,
        None => ParentFile { name: None, coordinates: None },
    };
    &&& (match f.name {
        Some(v) => r.name == v,
        None => r.name@ == "Foo"@,
    })
    &&& coordinates_resolves(f.coordinates, r.coordinates)
}

impl FromFile for Parent {
    type Shadow = ParentFile;

    open spec fn resolves(file: Option<ParentFile>, r: Parent) -> bool {
        parent_resolves(file, r)
    }

    fn from_file(file: Option<ParentFile>) -> (r: Parent) {
        let file = match file {
            Some(f) => f,
            None => <ParentFile as ZeroValue>::zero(),
        };
        Parent {
            name: match file.name {
                Some(inner) => <String as FromFile>::from_file(Some(inner)),
                None => String::from_str("Foo"),
            },
            coordinates: <Coordinates as FromFile>::from_file(file.coordinates),
        }
    }
}

// One level of nesting around [`Parent`]:
//
//     struct Wrapper {
//         parent: Parent,
//     }
#[derive(Debug, Clone, PartialEq)]
pub struct Wrapper {
    pub parent: Parent,
}

/// The shadow twin of [`Wrapper`].
#[derive(Debug, Clone, PartialEq)]
pub struct WrapperFile {
    pub parent: Option<ParentFile>,
}

impl ZeroValue for WrapperFile {
    open spec fn is_zero(v: WrapperFile) -> bool {
        v == (WrapperFile { parent: None })
    }

    fn zero() -> WrapperFile {
        WrapperFile { parent: None }
    }
}

/// What reconstructing a [`Wrapper`] from the given shadow must yield.
pub open spec fn wrapper_resolves(file: Option<WrapperFile>, r: Wrapper) -> bool {
    let f = match file {
        Some(f) => f,
        None => WrapperFile { parent: None },
    };
    parent_resolves(f.parent, r.parent)
}

impl FromFile for Wrapper {
    type Shadow = WrapperFile;

    open spec fn resolves(file: Option<WrapperFile>, r: Wrapper) -> bool {
        wrapper_resolves(file, r)
    }

    fn from_file(file: Option<WrapperFile>) -> (r: Wrapper) {
        let file = match file {
            Some(f) => f,
            None => <WrapperFile as ZeroValue>::zero(),
        };
        Wrapper { parent: <Parent as FromFile>::from_file(file.parent) }
    }
}

// And one more level:
//
//     struct DoubleWrapper {
//         wrapper: Wrapper,
//     }
#[derive(Debug, Clone, PartialEq)]
pub struct DoubleWrapper {
    pub wrapper: Wrapper,
}

/// The shadow twin of [`DoubleWrapper`].
#[derive(Debug, Clone, PartialEq)]
pub struct DoubleWrapperFile {
    pub wrapper: Option<WrapperFile>,
}

impl ZeroValue for DoubleWrapperFile {
    open spec fn is_zero(v: DoubleWrapperFile) -> bool {
        v == (DoubleWrapperFile { wrapper: None })
    }

    fn zero() -> DoubleWrapperFile {
        DoubleWrapperFile { wrapper: None }
    }
}

/// What reconstructing a [`DoubleWrapper`] from the given shadow must yield.
pub open spec fn double_wrapper_resolves(file: Option<DoubleWrapperFile>, r: DoubleWrapper) -> bool {
    let f = match file {
        Some(f) => f,
        None => DoubleWrapperFile { wrapper: None },
    };
    wrapper_resolves(f.wrapper, r.wrapper)
}

impl FromFile for DoubleWrapper {
    type Shadow = DoubleWrapperFile;

    open spec fn resolves(file: Option<DoubleWrapperFile>, r: DoubleWrapper) -> bool {
        double_wrapper_resolves(file, r)
    }

    fn from_file(file: Option<DoubleWrapperFile>) -> (r: DoubleWrapper) {
        let file = match file {
            Some(f) => f,
            None => <DoubleWrapperFile as ZeroValue>::zero(),
        };
        DoubleWrapper { wrapper: <Wrapper as FromFile>::from_file(file.wrapper) }
    }
}

// The configuration declaration of the end-to-end scenario:
//
//     struct Config {
//         #[from_file(default = "127.0.0.1")]
//         host: String,
//         #[from_file(default = 4)]
//         workers: usize,
//         auto_reload: bool,
//     }
#[derive(Debug, Clone, PartialEq)]
pub struct Config {
    pub host: String,
    pub workers: usize,
    pub auto_reload: bool,
}

/// The shadow twin of [`Config`]: the deserialization target for partial
/// external input.
#[derive(Debug, Clone, PartialEq)]
pub struct ConfigFile {
    pub host: Option<String>,
    pub workers: Option<usize>,
    pub auto_reload: Option<bool>,
}

impl ZeroValue for ConfigFile {
    open spec fn is_zero(v: ConfigFile) -> bool {
        v == (ConfigFile { host: None, workers: None, auto_reload: None })
    }

    fn zero() -> ConfigFile {
        ConfigFile { host: None, workers: None, auto_reload: None }
    }
}

impl ConfigFile {
    /// Layered merge: keep the present value, fill only what is absent.
    pub fn merge(&mut self, other: ConfigFile)
        ensures
            final(self).host == (if old(self).host is Some {
                old(self).host
            } else {
                other.host
            }),
            final(self).workers == (if old(self).workers is Some {
                old(self).workers
            } else {
                other.workers
            }),
            final(self).auto_reload == (if old(self).auto_reload is Some {
                old(self).auto_reload
            } else {
                other.auto_reload
            }),
    {
        if self.host.is_none() {
            self.host = other.host;
        }
        if self.workers.is_none() {
            self.workers = other.workers;
        }
        if self.auto_reload.is_none() {
            self.auto_reload = other.auto_reload;
        }
    }
}

/// What reconstructing a [`Config`] from the given shadow must yield.
pub open spec fn config_resolves(file: Option<ConfigFile>, r: Config) -> bool {
    let f = match file {
        Some(f) => f,
        None => ConfigFile { host: None, workers: None, auto_reload: None },
    };
    &&& (match f.host {
        Some(v) => r.host == v,
        None => r.host@ == "127.0.0.1"@,
    })
    &&& r.workers == f.workers.unwrap_or(4usize)
    &&& r.auto_reload == f.auto_reload.unwrap_or(false)
}

impl FromFile for Config {
    type Shadow = ConfigFile;

    open spec fn resolves(file: Option<ConfigFile>, r: Config) -> bool {
        config_resolves(file, r)
    }

    fn from_file(file: Option<ConfigFile>) -> (r: Config) {
        let file = match file {
            Some(f) => f,
            None => <ConfigFile as ZeroValue>::zero(),
        };
        Config {
            host: match file.host {
                Some(inner) => <String as FromFile>::from_file(Some(inner)),
                None => String::from_str("127.0.0.1"),
            },
            workers: match file.workers {
                Some(inner) => <usize as FromFile>::from_file(Some(inner)),
                None => 4,
            },
            auto_reload: match file.auto_reload {
                Some(v) => v,
                None => <bool as ZeroValue>::zero(),
            },
        }
    }
}

} // verus!
