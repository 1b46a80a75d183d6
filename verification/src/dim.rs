//! Named units: SI base units and the derived units built from them.
//!
//! Each function returns the [`Unit`] with the exponents over
//! `[m, kg, s, A, K, mol, cd]` given in its contract; e.g. [`meter`] has
//! exponent +1 on length and zero elsewhere.

use vstd::prelude::*;

use crate::unit::{dims, Unit};

verus! {

/// The unit of metre.
pub fn meter() -> (u: Unit)
    ensures
        u@ == dims(1, 0, 0, 0, 0, 0, 0),
{
    Unit::from_exponents(1, 0, 0, 0, 0, 0, 0)
}

/// The unit of kilogram.
pub fn kilogram() -> (u: Unit)
    ensures
        u@ == dims(0, 1, 0, 0, 0, 0, 0),
{
    Unit::from_exponents(0, 1, 0, 0, 0, 0, 0)
}

/// The unit of second.
pub fn second() -> (u: Unit)
    ensures
        u@ == dims(0, 0, 1, 0, 0, 0, 0),
{
    Unit::from_exponents(0, 0, 1, 0, 0, 0, 0)
}

/// The unit of ampere.
pub fn ampere() -> (u: Unit)
    ensures
        u@ == dims(0, 0, 0, 1, 0, 0, 0),
{
    Unit::from_exponents(0, 0, 0, 1, 0, 0, 0)
}

/// The unit of kelvin.
pub fn kelvin() -> (u: Unit)
    ensures
        u@ == dims(0, 0, 0, 0, 1, 0, 0),
{
    Unit::from_exponents(0, 0, 0, 0, 1, 0, 0)
}

/// The unit of mole.
pub fn mole() -> (u: Unit)
    ensures
        u@ == dims(0, 0, 0, 0, 0, 1, 0),
{
    Unit::from_exponents(0, 0, 0, 0, 0, 1, 0)
}

/// The unit of candela.
pub fn candela() -> (u: Unit)
    ensures
        u@ == dims(0, 0, 0, 0, 0, 0, 1),
{
    Unit::from_exponents(0, 0, 0, 0, 0, 0, 1)
}

/// The unit of pure number.
pub fn dimensionless() -> (u: Unit)
    ensures
        u@ == dims(0, 0, 0, 0, 0, 0, 0),
{
    Unit::from_exponents(0, 0, 0, 0, 0, 0, 0)
}

/// The unit of velocity, m·s⁻¹.
pub fn velocity() -> (u: Unit)
    ensures
        u@ == dims(1, 0, -1, 0, 0, 0, 0),
{
    Unit::from_exponents(1, 0, -1, 0, 0, 0, 0)
}

/// The unit of acceleration, m·s⁻².
pub fn acceleration() -> (u: Unit)
    ensures
        u@ == dims(1, 0, -2, 0, 0, 0, 0),
{
    Unit::from_exponents(1, 0, -2, 0, 0, 0, 0)
}

/// The unit of force (newton), kg·m·s⁻².
pub fn force() -> (u: Unit)
    ensures
        u@ == dims(1, 1, -2, 0, 0, 0, 0),
{
    Unit::from_exponents(1, 1, -2, 0, 0, 0, 0)
}

/// The unit of energy (joule), kg·m²·s⁻².
pub fn energy() -> (u: Unit)
    ensures
        u@ == dims(2, 1, -2, 0, 0, 0, 0),
{
    Unit::from_exponents(2, 1, -2, 0, 0, 0, 0)
}

/// The unit of torque: the same unit as energy.
pub fn torque() -> (u: Unit)
    ensures
        u@ == dims(2, 1, -2, 0, 0, 0, 0),
{
    Unit::from_exponents(2, 1, -2, 0, 0, 0, 0)
}

/// The unit of power (watt), kg·m²·s⁻³.
pub fn power() -> (u: Unit)
    ensures
        u@ == dims(2, 1, -3, 0, 0, 0, 0),
{
    Unit::from_exponents(2, 1, -3, 0, 0, 0, 0)
}

/// The unit of pressure (pascal), kg·m⁻¹·s⁻².
pub fn pressure() -> (u: Unit)
    ensures
        u@ == dims(-1, 1, -2, 0, 0, 0, 0),
{
    Unit::from_exponents(-1, 1, -2, 0, 0, 0, 0)
}

/// The unit of area, m².
pub fn area() -> (u: Unit)
    ensures
        u@ == dims(2, 0, 0, 0, 0, 0, 0),
{
    Unit::from_exponents(2, 0, 0, 0, 0, 0, 0)
}

/// The unit of volume, m³.
pub fn volume() -> (u: Unit)
    ensures
        u@ == dims(3, 0, 0, 0, 0, 0, 0),
{
    Unit::from_exponents(3, 0, 0, 0, 0, 0, 0)
}

/// The unit of density, kg·m⁻³.
pub fn density() -> (u: Unit)
    ensures
        u@ == dims(-3, 1, 0, 0, 0, 0, 0),
{
    Unit::from_exponents(-3, 1, 0, 0, 0, 0, 0)
}

/// The unit of frequency (hertz), s⁻¹.
pub fn frequency() -> (u: Unit)
    ensures
        u@ == dims(0, 0, -1, 0, 0, 0, 0),
{
    Unit::from_exponents(0, 0, -1, 0, 0, 0, 0)
}

/// The unit of angular velocity: the same unit as frequency.
pub fn angular_velocity() -> (u: Unit)
    ensures
        u@ == dims(0, 0, -1, 0, 0, 0, 0),
{
    Unit::from_exponents(0, 0, -1, 0, 0, 0, 0)
}

/// The unit of electric charge (coulomb), A·s.
pub fn charge() -> (u: Unit)
    ensures
        u@ == dims(0, 0, 1, 1, 0, 0, 0),
{
    Unit::from_exponents(0, 0, 1, 1, 0, 0, 0)
}

/// The unit of voltage (volt), kg·m²·s⁻³·A⁻¹.
pub fn voltage() -> (u: Unit)
    ensures
        u@ == dims(2, 1, -3, -1, 0, 0, 0),
{
    Unit::from_exponents(2, 1, -3, -1, 0, 0, 0)
}

/// The unit of resistance (ohm), kg·m²·s⁻³·A⁻².
pub fn resistance() -> (u: Unit)
    ensures
        u@ == dims(2, 1, -3, -2, 0, 0, 0),
{
    Unit::from_exponents(2, 1, -3, -2, 0, 0, 0)
}

/// The unit of capacitance (farad), kg⁻¹·m⁻²·s³·A².
pub fn capacitance() -> (u: Unit)
    ensures
        u@ == dims(-2, -1, 3, 2, 0, 0, 0),
{
    Unit::from_exponents(-2, -1, 3, 2, 0, 0, 0)
}

/// The unit of inductance (henry), kg·m²·s⁻²·A⁻².
pub fn inductance() -> (u: Unit)
    ensures
        u@ == dims(2, 1, -2, -2, 0, 0, 0),
{
    Unit::from_exponents(2, 1, -2, -2, 0, 0, 0)
}

/// The unit of magnetic flux (weber), kg·m²·s⁻²·A⁻¹.
pub fn magnetic_flux() -> (u: Unit)
    ensures
        u@ == dims(2, 1, -2, -1, 0, 0, 0),
{
    Unit::from_exponents(2, 1, -2, -1, 0, 0, 0)
}

/// The unit of magnetic flux density (tesla), kg·s⁻²·A⁻¹.
pub fn magnetic_flux_density() -> (u: Unit)
    ensures
        u@ == dims(0, 1, -2, -1, 0, 0, 0),
{
    Unit::from_exponents(0, 1, -2, -1, 0, 0, 0)
}

/// The unit of gravitational parameter, m³·s⁻².
pub fn gravitational_parameter() -> (u: Unit)
    ensures
        u@ == dims(3, 0, -2, 0, 0, 0, 0),
{
    Unit::from_exponents(3, 0, -2, 0, 0, 0, 0)
}

/// The unit of gravitational constant G, m³·kg⁻¹·s⁻²: a mass times it is a gravitational parameter.
pub fn g_constant() -> (u: Unit)
    ensures
        u@ == dims(3, -1, -2, 0, 0, 0, 0),
{
    Unit::from_exponents(3, -1, -2, 0, 0, 0, 0)
}

/// The unit of moment of inertia, kg·m².
pub fn moment_of_inertia() -> (u: Unit)
    ensures
        u@ == dims(2, 1, 0, 0, 0, 0, 0),
{
    Unit::from_exponents(2, 1, 0, 0, 0, 0, 0)
}

/// The unit of specific energy, m²·s⁻².
pub fn specific_energy() -> (u: Unit)
    ensures
        u@ == dims(2, 0, -2, 0, 0, 0, 0),
{
    Unit::from_exponents(2, 0, -2, 0, 0, 0, 0)
}

/// The unit of spring constant, kg·s⁻².
pub fn spring_constant() -> (u: Unit)
    ensures
        u@ == dims(0, 1, -2, 0, 0, 0, 0),
{
    Unit::from_exponents(0, 1, -2, 0, 0, 0, 0)
}

/// The unit of damping coefficient, kg·s⁻¹.
pub fn damping_coefficient() -> (u: Unit)
    ensures
        u@ == dims(0, 1, -1, 0, 0, 0, 0),
{
    Unit::from_exponents(0, 1, -1, 0, 0, 0, 0)
}

/// The unit of plane angle (radian): a pure number.
pub fn angle() -> (u: Unit)
    ensures
        u@ == dims(0, 0, 0, 0, 0, 0, 0),
{
    Unit::from_exponents(0, 0, 0, 0, 0, 0, 0)
}

/// The unit of solid angle (steradian): a pure number.
pub fn solid_angle() -> (u: Unit)
    ensures
        u@ == dims(0, 0, 0, 0, 0, 0, 0),
{
    Unit::from_exponents(0, 0, 0, 0, 0, 0, 0)
}

/// The unit of angular acceleration, s⁻².
pub fn angular_acceleration() -> (u: Unit)
    ensures
        u@ == dims(0, 0, -2, 0, 0, 0, 0),
{
    Unit::from_exponents(0, 0, -2, 0, 0, 0, 0)
}

/// The unit of mass flow rate, kg·s⁻¹.
pub fn mass_flow_rate() -> (u: Unit)
    ensures
        u@ == dims(0, 1, -1, 0, 0, 0, 0),
{
    Unit::from_exponents(0, 1, -1, 0, 0, 0, 0)
}

/// The unit of specific impulse: the same unit as the second.
pub fn specific_impulse() -> (u: Unit)
    ensures
        u@ == dims(0, 0, 1, 0, 0, 0, 0),
{
    Unit::from_exponents(0, 0, 1, 0, 0, 0, 0)
}

/// The unit of wavenumber, m⁻¹.
pub fn wavenumber() -> (u: Unit)
    ensures
        u@ == dims(-1, 0, 0, 0, 0, 0, 0),
{
    Unit::from_exponents(-1, 0, 0, 0, 0, 0, 0)
}

/// The unit of probability density over a length: the same unit as the wavenumber.
pub fn probability_density() -> (u: Unit)
    ensures
        u@ == dims(-1, 0, 0, 0, 0, 0, 0),
{
    Unit::from_exponents(-1, 0, 0, 0, 0, 0, 0)
}

/// The unit of action (joule-second), kg·m²·s⁻¹.
pub fn action() -> (u: Unit)
    ensures
        u@ == dims(2, 1, -1, 0, 0, 0, 0),
{
    Unit::from_exponents(2, 1, -1, 0, 0, 0, 0)
}

} // verus!
