use vstd::prelude::*;

verus! {

/// What a ray met when it was sent into the scene.
#[derive(Clone, Copy, Debug, PartialEq, Eq, Structural)]
pub enum Surface {
    /// It hit nothing.
    Miss,
    /// It hit a surface whose material absorbed it.
    Absorbed,
    /// It hit a surface whose material sent it on.
    Scattered,
}

/// What the color of a ray is made of.
#[derive(Clone, Copy, Debug, PartialEq, Eq, Structural)]
pub enum Shading {
    /// Black.
    Black,
    /// The sky gradient along the ray's direction.
    Sky,
    /// The attenuation times the color of the scattered ray, traced with
    /// the given remaining depth.
    Bounce { depth: i64 },
}

/// The bounce budget is spent: the ray is black without looking at the scene.
pub fn exhausted(depth: i64) -> (r: bool)
    ensures
        r == (depth <= 0),
{
    depth <= 0
}

/// The shading of a ray traced with `depth` bounces left that met `surface`.
pub open spec fn shading_of(depth: i64, surface: Surface) -> Shading {
    if depth <= 0 {
        Shading::Black
    } else {
        match surface {
            Surface::Miss => Shading::Sky,
            Surface::Absorbed => Shading::Black,
            Surface::Scattered => Shading::Bounce { depth: (depth - 1) as i64 },
        }
    }
}

/// One step of tracing a ray: stop with black or the sky, or bounce with one
/// level less of depth.
pub fn shade(depth: i64, surface: Surface) -> (r: Shading)
    ensures
        r == shading_of(depth, surface),
        depth <= 0 ==> r == Shading::Black,
        r matches Shading::Bounce { depth: d } ==> 0 <= d && d == depth - 1,
{
    if exhausted(depth) {
        Shading::Black
    } else {
        match surface {
            Surface::Miss => Shading::Sky,
            Surface::Absorbed => Shading::Black,
            Surface::Scattered => Shading::Bounce { depth: depth - 1 },
        }
    }
}

} // verus!
