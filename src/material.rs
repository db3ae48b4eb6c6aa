use vstd::prelude::*;
use crate::scalar::Scalar;

verus! {

/// Order key of `1e-8`, below which a vector component counts as zero.
pub const NEAR_ZERO_KEY: i64 = 0x3E45_798E_E230_8C3A;

/// The ways a surface can scatter light.
#[derive(Clone, Copy, Debug, PartialEq, Eq, Structural)]
pub enum MaterialKind {
    /// Diffuse: the outgoing ray leaves along the normal plus a random unit vector.
    Lambertian,
    /// Specular: the outgoing ray is the mirror reflection, perturbed by the fuzz.
    Metal,
    /// Refractive: the outgoing ray follows Snell's law.
    Dielectric,
}

/// A component whose magnitude is below `1e-8`.
pub open spec fn negligible(c: Scalar) -> bool {
    match c {
        Scalar::Num(k) => -NEAR_ZERO_KEY < k < NEAR_ZERO_KEY,
        Scalar::NaN => false,
    }
}

fn is_negligible(c: Scalar) -> (r: bool)
    ensures
        r == negligible(c),
{
    match c {
        Scalar::Num(k) => -NEAR_ZERO_KEY < k && k < NEAR_ZERO_KEY,
        Scalar::NaN => false,
    }
}

/// Whether a vector with these components is so close to zero in every
/// component that a diffuse direction along it would degenerate.
pub fn near_zero(x: Scalar, y: Scalar, z: Scalar) -> (r: bool)
    ensures
        r == (negligible(x) && negligible(y) && negligible(z)),
{
    is_negligible(x) && is_negligible(y) && is_negligible(z)
}

/// Whether a material of this kind scatters, given the dot product of its
/// outgoing direction with the surface normal; otherwise the ray is absorbed.
pub open spec fn scatters_spec(kind: MaterialKind, direction_dot_normal: Scalar) -> bool {
    match kind {
        MaterialKind::Metal => Scalar::Num(0).lt(direction_dot_normal),
        _ => true,
    }
}

/// Decides between scattering and absorption. Only a metal ever absorbs: it
/// does when its outgoing direction does not point away from the surface.
pub fn scatters(kind: MaterialKind, direction_dot_normal: Scalar) -> (r: bool)
    ensures
        r == scatters_spec(kind, direction_dot_normal),
        kind is Lambertian ==> r,
        kind is Dielectric ==> r,
        kind is Metal && direction_dot_normal.is_number() ==> (!r <==> direction_dot_normal.le(
            Scalar::Num(0),
        )),
{
    match kind {
        MaterialKind::Metal => Scalar::zero().less(&direction_dot_normal),
        _ => true,
    }
}

} // verus!
