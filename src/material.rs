//! The decisions that a material takes at a hit, apart from the vector
//! arithmetic that produces the outgoing direction.
use vstd::prelude::*;

verus! {

/// The kind of a material, without its parameters.
#[derive(Clone, Copy, PartialEq, Eq, Structural, Debug)]
pub enum MaterialClass {
    /// Diffuse: scatters around the normal.
    Lambertian,
    /// Mirror-like, with a fuzz around the mirror direction.
    Metal,
    /// Transparent: refracts or reflects.
    Dielectric,
    /// Emits light and scatters none.
    DiffuseLight,
}

/// How a dielectric sends a ray on.
#[derive(Clone, Copy, PartialEq, Eq, Structural, Debug)]
pub enum Bounce {
    Reflect,
    Refract,
}

impl MaterialClass {
    /// Whether a hit on this material sends a ray on. `leaves_surface` says
    /// whether the candidate direction points away from the surface (its dot
    /// product with the normal is positive); only a metal depends on it, as a
    /// fuzzed mirror direction that points into the surface is absorbed.
    pub fn scatters(&self, leaves_surface: bool) -> (r: bool)
        ensures
            *self == MaterialClass::Lambertian ==> r,
            *self == MaterialClass::Dielectric ==> r,
            *self == MaterialClass::Metal ==> r == leaves_surface,
            *self == MaterialClass::DiffuseLight ==> !r,
    {
        match self {
            MaterialClass::Lambertian => true,
            MaterialClass::Metal => leaves_surface,
            MaterialClass::Dielectric => true,
            MaterialClass::DiffuseLight => false,
        }
    }

    /// Whether a hit on this material adds its own colour: only a light does;
    /// every other material emits black.
    pub fn emits(&self) -> (r: bool)
        ensures
            r <==> *self == MaterialClass::DiffuseLight,
    {
        match self {
            MaterialClass::DiffuseLight => true,
            _ => false,
        }
    }
}

/// The choice of a dielectric: it reflects where refraction is impossible
/// (the refraction ratio times the sine of the angle of incidence exceeds 1),
/// or where Schlick's reflectance exceeds the uniform draw; else it refracts.
pub fn dielectric_bounce(cannot_refract: bool, reflectance_exceeds_draw: bool) -> (r: Bounce)
    ensures
        r == Bounce::Reflect <==> (cannot_refract || reflectance_exceeds_draw),
{
    if cannot_refract || reflectance_exceeds_draw {
        Bounce::Reflect
    } else {
        Bounce::Refract
    }
}

} // verus!
