use vstd::prelude::*;
use crate::scalar::Scalar;

verus! {

/// Which root of a ray-sphere quadratic is taken as the hit.
#[derive(Clone, Copy, Debug, PartialEq, Eq, Structural)]
pub enum Root {
    Near,
    Far,
}

/// `t` lies in `[t_min, t_max]`: it is not ruled out by `t < t_min` or
/// `t_max < t`. Not a number is never ruled out.
pub open spec fn in_interval(t: Scalar, t_min: Scalar, t_max: Scalar) -> bool {
    !(t.lt(t_min) || t_max.lt(t))
}

/// The root that a sphere reports: none on a negative discriminant, else the
/// near root when it lies in the interval, else the far root when it does.
pub open spec fn chosen_root(
    discriminant: Scalar,
    near: Scalar,
    far: Scalar,
    t_min: Scalar,
    t_max: Scalar,
) -> Option<Root> {
    if discriminant.lt(Scalar::Num(0)) {
        None
    } else if in_interval(near, t_min, t_max) {
        Some(Root::Near)
    } else if in_interval(far, t_min, t_max) {
        Some(Root::Far)
    } else {
        None
    }
}

/// The parameter of the root that was chosen, if any.
pub open spec fn root_value(choice: Option<Root>, near: Scalar, far: Scalar) -> Option<Scalar> {
    match choice {
        Some(Root::Near) => Some(near),
        Some(Root::Far) => Some(far),
        None => None,
    }
}

/// A sphere reports the nearest of its roots that lies in the interval. So
/// when it is tested with an upper bound narrowed to `bound`, it reports a
/// hit exactly when its nearest root in the full interval is within `bound`,
/// and then it reports that same root.
pub proof fn lemma_narrowed_bound(
    discriminant: Scalar,
    near: Scalar,
    far: Scalar,
    t_min: Scalar,
    bound: Scalar,
    t_max: Scalar,
)
    requires
        near.is_number(),
        far.is_number(),
        t_min.is_number(),
        near.le(far),
        t_min.le(bound),
        bound.le(t_max),
    ensures
        ({
            let full = root_value(chosen_root(discriminant, near, far, t_min, t_max), near, far);
            let narrowed = root_value(chosen_root(discriminant, near, far, t_min, bound), near, far);
            &&& full is Some ==> full->Some_0.le(t_max) && !full->Some_0.lt(t_min)
            &&& narrowed == if full is Some && full->Some_0.le(bound) {
                full
            } else {
                None
            }
        }),
{
}

fn within(t: &Scalar, t_min: &Scalar, t_max: &Scalar) -> (r: bool)
    ensures
        r == in_interval(*t, *t_min, *t_max),
{
    !(t.less(t_min) || t_max.less(t))
}

/// Picks the root of `a t^2 + 2 half_b t + c = 0` that a ray hits, from the
/// discriminant `half_b^2 - a c` and the near and far roots
/// `(-half_b -+ sqrt(discriminant)) / a`.
pub fn pick_root(discriminant: Scalar, near: Scalar, far: Scalar, t_min: Scalar, t_max: Scalar) -> (r:
    Option<Root>)
    ensures
        r == chosen_root(discriminant, near, far, t_min, t_max),
        discriminant.lt(Scalar::Num(0)) ==> r is None,
{
    if discriminant.less(&Scalar::zero()) {
        None
    } else if within(&near, &t_min, &t_max) {
        Some(Root::Near)
    } else if within(&far, &t_min, &t_max) {
        Some(Root::Far)
    } else {
        None
    }
}

/// A hit is on the front face when the ray's direction and the outward
/// normal point against each other: their dot product is below zero.
pub fn is_front_face(direction_dot_outward: Scalar) -> (r: bool)
    ensures
        r == direction_dot_outward.lt(Scalar::Num(0)),
{
    direction_dot_outward.less(&Scalar::zero())
}

/// The dot product of a ray's direction with the normal that a hit reports:
/// the outward normal on a front face, its negation on a back face.
pub open spec fn reported_dot(direction_dot_outward: Scalar) -> Scalar {
    if direction_dot_outward.lt(Scalar::Num(0)) {
        direction_dot_outward
    } else {
        direction_dot_outward.neg()
    }
}

/// The reported normal always points against the ray: its dot product with
/// the ray's direction is at most zero, on front faces and back faces alike.
pub proof fn lemma_normal_opposes_ray(direction_dot_outward: Scalar)
    requires
        direction_dot_outward.wf(),
        direction_dot_outward.is_number(),
    ensures
        reported_dot(direction_dot_outward).le(Scalar::Num(0)),
        direction_dot_outward.lt(Scalar::Num(0)) ==> reported_dot(direction_dot_outward)
            == direction_dot_outward,
        !direction_dot_outward.lt(Scalar::Num(0)) ==> reported_dot(direction_dot_outward)
            == direction_dot_outward.neg(),
{
}

} // verus!
