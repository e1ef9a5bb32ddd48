//! Choices made while populating a scene: which kind of material a small
//! sphere gets, drawn with weights 80 (diffuse), 15 (metal) and 5 (glass).

use vstd::prelude::*;
use rand::Rng;

verus! {

/// The kinds of surface material.
#[derive(Clone, Copy, Debug, PartialEq, Eq, Structural)]
pub enum MaterialKind {
    Diffuse,
    Metal,
    Glass,
}

/// The kind chosen by a draw in `0..100`.
pub open spec fn spec_material_kind(draw: nat) -> MaterialKind {
    if draw < 80 {
        MaterialKind::Diffuse
    } else if draw < 95 {
        MaterialKind::Metal
    } else {
        MaterialKind::Glass
    }
}

/// The kind chosen by a uniform draw in `0..100`: 80 of the values give
/// diffuse, 15 metal and 5 glass.
pub fn material_kind(draw: u32) -> (r: MaterialKind)
    ensures
        r == spec_material_kind(draw as nat),
{
    if draw < 80 {
        MaterialKind::Diffuse
    } else if draw < 95 {
        MaterialKind::Metal
    } else {
        MaterialKind::Glass
    }
}

/// Relies on `rand::Rng::gen_range` on the thread-local generator: a value of
/// the half-open range `0..bound`, which must not be empty.
#[verifier::external_body]
fn draw_below(bound: u32) -> (r: u32)
    requires
        bound > 0,
    ensures
        r < bound,
{
    rand::thread_rng().gen_range(0..bound)
}

/// A kind drawn at random with the weights of `material_kind`.
pub fn random_material_kind() -> (r: MaterialKind)
    ensures
        exists|draw: nat| draw < 100 && r == spec_material_kind(draw),
{
    let draw = draw_below(100);
    material_kind(draw)
}

} // verus!
