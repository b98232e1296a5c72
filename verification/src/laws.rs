//! The resolution laws, stated over the worked expansions.
//!
//! Each law quantifies over every value its statement admits; the
//! scenario-sized counterparts live in the test suite.

use vstd::prelude::*;
use crate::expansions::{
    config_resolves, coordinates_resolves, double_wrapper_resolves, numeric_default_resolves,
    parent_resolves, simple_resolves, Config, ConfigFile, Coordinates, CoordinatesFile,
    DoubleWrapper, DoubleWrapperFile, NumericDefault, Parent, ParentFile, Simple, SimpleFile,
    Wrapper, WrapperFile,
};
use crate::shadow::{FromFile, ZeroValue};

verus! {

/// For a declaration with zero directives, reconstructing from an absent
/// shadow yields the structure built from each field's zero value.
pub proof fn from_shadow_absent_yields_zero_values(r: Coordinates)
    requires
        coordinates_resolves(None, r),
    ensures
        r == (Coordinates { x: 0i32, y: 0i32 }),
{
}

/// For every leaf type, reconstructing from an absent shadow yields the
/// type's zero value.
pub proof fn leaf_from_shadow_absent_is_zero<T: ZeroValue>(r: T)
    requires
        <T as FromFile>::resolves(None, r),
    ensures
        T::is_zero(r),
{
}

/// A field with an explicit default resolves, when its shadow is absent,
/// to the override expression's value — not to the type's zero value —
/// while its siblings still fall back to theirs.
pub proof fn explicit_default_beats_zero_value(r: Simple)
    requires
        simple_resolves(None, r),
    ensures
        r.y@ == "hello"@,
        r.x == 0i32,
{
}

/// The numeric counterpart: an absent shadow yields the override value.
pub proof fn numeric_default_applies(r: NumericDefault)
    requires
        numeric_default_resolves(None, r),
    ensures
        r.b == 42i32,
        r.a == 0i32,
{
}

/// When every shadow field is present, reconstruction yields exactly the
/// present values, leaf overrides notwithstanding.
pub proof fn full_shadow_wins_on_leaves(s: SimpleFile, r: Simple)
    requires
        simple_resolves(Some(s), r),
        s.x is Some,
        s.y is Some,
    ensures
        r.x == s.x->Some_0,
        r.y == s.y->Some_0,
{
}

/// When every shadow field is present, reconstruction yields exactly the
/// present values, mapped recursively through the nested field.
pub proof fn full_shadow_overrides_everything(s: ParentFile, r: Parent)
    requires
        parent_resolves(Some(s), r),
        s.name is Some,
        s.coordinates is Some,
        s.coordinates->Some_0.x is Some,
        s.coordinates->Some_0.y is Some,
    ensures
        r.name == s.name->Some_0,
        r.coordinates == (Coordinates {
            x: s.coordinates->Some_0.x->Some_0,
            y: s.coordinates->Some_0.y->Some_0,
        }),
{
}

/// Supplying only a deeply nested leaf resolves every ancestor and
/// sibling from its own default or zero value, never from an unrelated
/// field's default.
pub proof fn deep_partial_override_keeps_sibling_defaults(a: i32, b: i32, r: DoubleWrapper)
    requires
        double_wrapper_resolves(
            Some(
                (DoubleWrapperFile {
                    wrapper: Some(
                        WrapperFile {
                            parent: Some(
                                ParentFile {
                                    name: None,
                                    coordinates: Some(CoordinatesFile { x: Some(a), y: Some(b) }),
                                },
                            ),
                        },
                    ),
                }),
            ),
            r,
        ),
    ensures
        r.wrapper.parent.name@ == "Foo"@,
        r.wrapper.parent.coordinates == (Coordinates { x: a, y: b }),
{
}

/// The shadow a fully-resolved [`Coordinates`] serializes into.
pub open spec fn coordinates_shadow(v: Coordinates) -> CoordinatesFile {
    CoordinatesFile { x: Some(v.x), y: Some(v.y) }
}

/// The shadow a fully-resolved [`Parent`] serializes into.
pub open spec fn parent_shadow(v: Parent) -> ParentFile {
    ParentFile { name: Some(v.name), coordinates: Some(coordinates_shadow(v.coordinates)) }
}

/// The shadow a fully-resolved [`Config`] serializes into.
pub open spec fn config_shadow(v: Config) -> ConfigFile {
    ConfigFile { host: Some(v.host), workers: Some(v.workers), auto_reload: Some(v.auto_reload) }
}

/// Round trip: taking a fully-resolved structure's field values to the
/// shadow form and resolving again yields the same structure.
pub proof fn resolution_round_trip_coordinates(v: Coordinates, w: Coordinates)
    requires
        coordinates_resolves(Some(coordinates_shadow(v)), w),
    ensures
        w == v,
{
}

/// Round trip through a nested field.
pub proof fn resolution_round_trip_parent(v: Parent, w: Parent)
    requires
        parent_resolves(Some(parent_shadow(v)), w),
    ensures
        w == v,
{
}

/// Round trip for the configuration scenario.
pub proof fn resolution_round_trip_config(v: Config, w: Config)
    requires
        config_resolves(Some(config_shadow(v)), w),
    ensures
        w == v,
{
}

/// An empty partial input resolves to the declared defaults.
pub proof fn config_empty_input_defaults(r: Config)
    requires
        config_resolves(None, r),
    ensures
        r.host@ == "127.0.0.1"@,
        r.workers == 4usize,
        r.auto_reload == false,
{
}

} // verus!
