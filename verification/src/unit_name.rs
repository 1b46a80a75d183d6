//! Display names (SI symbols) of units.

use vstd::prelude::*;

use crate::quantity::Quantity;
use crate::unit::{dims, Dims, Unit};

verus! {

/// The SI symbol of a unit with the exponents `d` (e.g. `"m"`, `"m/s"`, `"N"`),
/// for the units that have one.
pub open spec fn unit_symbol(d: Dims) -> Option<Seq<char>> {
    if d == dims(1, 0, 0, 0, 0, 0, 0) {
        Some("m"@)
    } else if d == dims(0, 1, 0, 0, 0, 0, 0) {
        Some("kg"@)
    } else if d == dims(0, 0, 1, 0, 0, 0, 0) {
        Some("s"@)
    } else if d == dims(0, 0, 0, 1, 0, 0, 0) {
        Some("A"@)
    } else if d == dims(0, 0, 0, 0, 1, 0, 0) {
        Some("K"@)
    } else if d == dims(0, 0, 0, 0, 0, 1, 0) {
        Some("mol"@)
    } else if d == dims(0, 0, 0, 0, 0, 0, 1) {
        Some("cd"@)
    } else if d == dims(0, 0, 0, 0, 0, 0, 0) {
        Some(""@)
    } else if d == dims(1, 0, -1, 0, 0, 0, 0) {
        Some("m/s"@)
    } else if d == dims(1, 0, -2, 0, 0, 0, 0) {
        Some("m/s²"@)
    } else if d == dims(1, 1, -2, 0, 0, 0, 0) {
        Some("N"@)
    } else if d == dims(2, 1, -2, 0, 0, 0, 0) {
        Some("J"@)
    } else if d == dims(2, 1, -3, 0, 0, 0, 0) {
        Some("W"@)
    } else if d == dims(-1, 1, -2, 0, 0, 0, 0) {
        Some("Pa"@)
    } else if d == dims(2, 0, 0, 0, 0, 0, 0) {
        Some("m²"@)
    } else if d == dims(3, 0, 0, 0, 0, 0, 0) {
        Some("m³"@)
    } else if d == dims(-3, 1, 0, 0, 0, 0, 0) {
        Some("kg/m³"@)
    } else if d == dims(0, 0, -1, 0, 0, 0, 0) {
        Some("Hz"@)
    } else if d == dims(0, 0, 1, 1, 0, 0, 0) {
        Some("C"@)
    } else if d == dims(2, 1, -3, -1, 0, 0, 0) {
        Some("V"@)
    } else if d == dims(2, 1, -3, -2, 0, 0, 0) {
        Some("Ω"@)
    } else if d == dims(-2, -1, 3, 2, 0, 0, 0) {
        Some("F"@)
    } else if d == dims(2, 1, -2, -2, 0, 0, 0) {
        Some("H"@)
    } else if d == dims(2, 1, -2, -1, 0, 0, 0) {
        Some("Wb"@)
    } else if d == dims(0, 1, -2, -1, 0, 0, 0) {
        Some("T"@)
    } else if d == dims(3, 0, -2, 0, 0, 0, 0) {
        Some("m³/s²"@)
    } else if d == dims(3, -1, -2, 0, 0, 0, 0) {
        Some("m³/(kg·s²)"@)
    } else if d == dims(2, 1, 0, 0, 0, 0, 0) {
        Some("kg·m²"@)
    } else if d == dims(0, 0, -2, 0, 0, 0, 0) {
        Some("rad/s²"@)
    } else if d == dims(0, 1, -1, 0, 0, 0, 0) {
        Some("kg/s"@)
    } else if d == dims(-1, 0, 0, 0, 0, 0, 0) {
        Some("1/m"@)
    } else {
        None
    }
}

/// No two units share a symbol: a symbol names exactly one unit.
pub proof fn lemma_unit_symbol_injective(a: Dims, b: Dims)
    requires
        unit_symbol(a) is Some,
    ensures
        unit_symbol(a) == unit_symbol(b) <==> a == b,
{
    reveal_strlit("m");
    reveal_strlit("kg");
    reveal_strlit("s");
    reveal_strlit("A");
    reveal_strlit("K");
    reveal_strlit("mol");
    reveal_strlit("cd");
    reveal_strlit("");
    reveal_strlit("m/s");
    reveal_strlit("m/s²");
    reveal_strlit("N");
    reveal_strlit("J");
    reveal_strlit("W");
    reveal_strlit("Pa");
    reveal_strlit("m²");
    reveal_strlit("m³");
    reveal_strlit("kg/m³");
    reveal_strlit("Hz");
    reveal_strlit("C");
    reveal_strlit("V");
    reveal_strlit("Ω");
    reveal_strlit("F");
    reveal_strlit("H");
    reveal_strlit("Wb");
    reveal_strlit("T");
    reveal_strlit("m³/s²");
    reveal_strlit("m³/(kg·s²)");
    reveal_strlit("kg·m²");
    reveal_strlit("rad/s²");
    reveal_strlit("kg/s");
    reveal_strlit("1/m");
    if unit_symbol(a) == unit_symbol(b) {
        let (x, y) = (unit_symbol(a)->0, unit_symbol(b)->0);
        assert(x.len() == y.len());
        assert(x.len() > 0 ==> x[0] == y[0]);
        assert(x.len() > 1 ==> x[1] == y[1]);
        assert(x.len() > 2 ==> x[2] == y[2]);
        assert(x.len() > 3 ==> x[3] == y[3]);
    }
}

/// Associates a display name (the SI symbol, e.g. `"m"`, `"m/s"`, `"N"`) with a unit.
pub trait UnitName {
    /// The SI symbol of the unit, where it has one.
    fn name(&self) -> Option<&'static str>;
}

impl UnitName for Unit {
    fn name(&self) -> (r: Option<&'static str>)
        ensures
            r is Some <==> unit_symbol(self@) is Some,
            r matches Some(s) ==> unit_symbol(self@) == Some(s@),
    {
        match (self.length, self.mass, self.time, self.current, self.temperature, self.amount, self.luminosity) {
            (1, 0, 0, 0, 0, 0, 0) => Some("m"),
            (0, 1, 0, 0, 0, 0, 0) => Some("kg"),
            (0, 0, 1, 0, 0, 0, 0) => Some("s"),
            (0, 0, 0, 1, 0, 0, 0) => Some("A"),
            (0, 0, 0, 0, 1, 0, 0) => Some("K"),
            (0, 0, 0, 0, 0, 1, 0) => Some("mol"),
            (0, 0, 0, 0, 0, 0, 1) => Some("cd"),
            (0, 0, 0, 0, 0, 0, 0) => Some(""),
            (1, 0, -1, 0, 0, 0, 0) => Some("m/s"),
            (1, 0, -2, 0, 0, 0, 0) => Some("m/s²"),
            (1, 1, -2, 0, 0, 0, 0) => Some("N"),
            (2, 1, -2, 0, 0, 0, 0) => Some("J"),
            (2, 1, -3, 0, 0, 0, 0) => Some("W"),
            (-1, 1, -2, 0, 0, 0, 0) => Some("Pa"),
            (2, 0, 0, 0, 0, 0, 0) => Some("m²"),
            (3, 0, 0, 0, 0, 0, 0) => Some("m³"),
            (-3, 1, 0, 0, 0, 0, 0) => Some("kg/m³"),
            (0, 0, -1, 0, 0, 0, 0) => Some("Hz"),
            (0, 0, 1, 1, 0, 0, 0) => Some("C"),
            (2, 1, -3, -1, 0, 0, 0) => Some("V"),
            (2, 1, -3, -2, 0, 0, 0) => Some("Ω"),
            (-2, -1, 3, 2, 0, 0, 0) => Some("F"),
            (2, 1, -2, -2, 0, 0, 0) => Some("H"),
            (2, 1, -2, -1, 0, 0, 0) => Some("Wb"),
            (0, 1, -2, -1, 0, 0, 0) => Some("T"),
            (3, 0, -2, 0, 0, 0, 0) => Some("m³/s²"),
            (3, -1, -2, 0, 0, 0, 0) => Some("m³/(kg·s²)"),
            (2, 1, 0, 0, 0, 0, 0) => Some("kg·m²"),
            (0, 0, -2, 0, 0, 0, 0) => Some("rad/s²"),
            (0, 1, -1, 0, 0, 0, 0) => Some("kg/s"),
            (-1, 0, 0, 0, 0, 0, 0) => Some("1/m"),
            _ => None,
        }
    }
}

impl<T> UnitName for Quantity<T> {
    fn name(&self) -> (r: Option<&'static str>)
        ensures
            r is Some <==> unit_symbol(self.unit@) is Some,
            r matches Some(s) ==> unit_symbol(self.unit@) == Some(s@),
    {
        self.unit.name()
    }
}

} // verus!
