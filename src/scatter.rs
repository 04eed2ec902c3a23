use vstd::prelude::*;

verus! {

/// How a glass surface sends a ray on.
#[derive(Clone, Copy, Debug, PartialEq, Eq, Structural)]
pub enum Bounce {
    /// Mirror the ray about the normal.
    Reflect,
    /// Bend the ray through the surface by Snell's law.
    Refract,
}

/// The choice of a dielectric: it reflects when refraction is impossible
/// (the refraction ratio times the sine of the incidence angle exceeds one,
/// total internal reflection) or when the uniform draw falls below the
/// Schlick reflectance; otherwise it refracts.
pub fn dielectric_bounce(cannot_refract: bool, draw_below_reflectance: bool) -> (r: Bounce)
    ensures
        cannot_refract ==> r == Bounce::Reflect,
        r == if cannot_refract || draw_below_reflectance {
            Bounce::Reflect
        } else {
            Bounce::Refract
        },
{
    if cannot_refract || draw_below_reflectance {
        Bounce::Reflect
    } else {
        Bounce::Refract
    }
}

} // verus!
