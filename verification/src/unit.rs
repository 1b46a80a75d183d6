//! Units as vectors of integer exponents over the SI base units.
//!
//! A [`Unit`] carries seven signed exponents over `[m, kg, s, A, K, mol, cd]`.
//! Multiplying units adds exponents, dividing subtracts them, raising a unit
//! to an integer power multiplies every exponent, and the square root halves
//! them (only defined when every exponent is even).

use vstd::prelude::*;

verus! {

/// The exponents of a unit over `[m, kg, s, A, K, mol, cd]`, as mathematical integers.
pub struct Dims {
    pub length: int,
    pub mass: int,
    pub time: int,
    pub current: int,
    pub temperature: int,
    pub amount: int,
    pub luminosity: int,
}

/// The exponent vector `(m, kg, s, A, K, mol, cd)`.
pub open spec fn dims(
    length: int,
    mass: int,
    time: int,
    current: int,
    temperature: int,
    amount: int,
    luminosity: int,
) -> Dims {
    Dims { length, mass, time, current, temperature, amount, luminosity }
}

/// The dimensions of a pure number: every exponent zero.
pub open spec fn dims_one() -> Dims {
    dims(0, 0, 0, 0, 0, 0, 0)
}

/// Exponent-wise sum: the dimensions of a product.
pub open spec fn dims_product(a: Dims, b: Dims) -> Dims {
    dims(
        a.length + b.length,
        a.mass + b.mass,
        a.time + b.time,
        a.current + b.current,
        a.temperature + b.temperature,
        a.amount + b.amount,
        a.luminosity + b.luminosity,
    )
}

/// Exponent-wise difference: the dimensions of a quotient.
pub open spec fn dims_quotient(a: Dims, b: Dims) -> Dims {
    dims(
        a.length - b.length,
        a.mass - b.mass,
        a.time - b.time,
        a.current - b.current,
        a.temperature - b.temperature,
        a.amount - b.amount,
        a.luminosity - b.luminosity,
    )
}

/// Every exponent multiplied by `n`: the dimensions of the `n`-th power.
pub open spec fn dims_power(a: Dims, n: int) -> Dims {
    dims(
        a.length * n,
        a.mass * n,
        a.time * n,
        a.current * n,
        a.temperature * n,
        a.amount * n,
        a.luminosity * n,
    )
}

/// Every exponent is even, so the square root has integer exponents.
pub open spec fn dims_all_even(a: Dims) -> bool {
    &&& a.length % 2 == 0
    &&& a.mass % 2 == 0
    &&& a.time % 2 == 0
    &&& a.current % 2 == 0
    &&& a.temperature % 2 == 0
    &&& a.amount % 2 == 0
    &&& a.luminosity % 2 == 0
}

/// Every exponent halved: the dimensions of the square root.
pub open spec fn dims_root(a: Dims) -> Dims {
    dims(
        a.length / 2,
        a.mass / 2,
        a.time / 2,
        a.current / 2,
        a.temperature / 2,
        a.amount / 2,
        a.luminosity / 2,
    )
}

/// Every exponent fits in an `i32`, the width a [`Unit`] stores.
pub open spec fn dims_fit(d: Dims) -> bool {
    &&& i32::MIN <= d.length <= i32::MAX
    &&& i32::MIN <= d.mass <= i32::MAX
    &&& i32::MIN <= d.time <= i32::MAX
    &&& i32::MIN <= d.current <= i32::MAX
    &&& i32::MIN <= d.temperature <= i32::MAX
    &&& i32::MIN <= d.amount <= i32::MAX
    &&& i32::MIN <= d.luminosity <= i32::MAX
}

// --- Laws of unit arithmetic ---

/// Multiplication of units is commutative: `a·b = b·a`.
pub proof fn lemma_product_commutative(a: Dims, b: Dims)
    ensures
        dims_product(a, b) == dims_product(b, a),
{
}

/// Multiplication of units is associative: `(a·b)·c = a·(b·c)`.
pub proof fn lemma_product_associative(a: Dims, b: Dims, c: Dims)
    ensures
        dims_product(dims_product(a, b), c) == dims_product(a, dims_product(b, c)),
{
}

/// The dimensionless unit is the identity of multiplication.
pub proof fn lemma_product_identity(a: Dims)
    ensures
        dims_product(a, dims_one()) == a,
        dims_product(dims_one(), a) == a,
{
}

/// Division undoes multiplication: `(a·b)/b = a`.
pub proof fn lemma_quotient_undoes_product(a: Dims, b: Dims)
    ensures
        dims_quotient(dims_product(a, b), b) == a,
{
}

/// Multiplication undoes division: `(a/b)·b = a`.
pub proof fn lemma_product_undoes_quotient(a: Dims, b: Dims)
    ensures
        dims_product(dims_quotient(a, b), b) == a,
{
}

/// A unit divided by itself is dimensionless: `a/a = 1`.
pub proof fn lemma_quotient_self(a: Dims)
    ensures
        dims_quotient(a, a) == dims_one(),
{
}

/// Dividing by `b` is multiplying by `b⁻¹`: `a/b = a·b⁻¹`.
pub proof fn lemma_quotient_is_product_with_inverse(a: Dims, b: Dims)
    ensures
        dims_quotient(a, b) == dims_product(a, dims_power(b, -1)),
        dims_power(b, -1) == dims_quotient(dims_one(), b),
{
}

/// `a¹ = a` and `a⁰ = 1`.
pub proof fn lemma_power_one_zero(a: Dims)
    ensures
        dims_power(a, 1) == a,
        dims_power(a, 0) == dims_one(),
{
}

/// Powers of one unit multiply by adding exponents: `aᵐ·aⁿ = aᵐ⁺ⁿ`.
pub proof fn lemma_power_sum(a: Dims, m: int, n: int)
    ensures
        dims_product(dims_power(a, m), dims_power(a, n)) == dims_power(a, m + n),
{
    assert forall|x: int| #[trigger] (x * m) + x * n == x * (m + n) by {
        vstd::arithmetic::mul::lemma_mul_is_distributive_add(x, m, n);
    }
}

/// A power of a power multiplies the exponents: `(aᵐ)ⁿ = aᵐⁿ`.
pub proof fn lemma_power_of_power(a: Dims, m: int, n: int)
    ensures
        dims_power(dims_power(a, m), n) == dims_power(a, m * n),
{
    assert forall|x: int| #[trigger] ((x * m) * n) == x * (m * n) by {
        vstd::arithmetic::mul::lemma_mul_is_associative(x, m, n);
    }
}

/// A power distributes over a product: `(a·b)ⁿ = aⁿ·bⁿ`.
pub proof fn lemma_power_of_product(a: Dims, b: Dims, n: int)
    ensures
        dims_power(dims_product(a, b), n) == dims_product(dims_power(a, n), dims_power(b, n)),
{
    assert forall|x: int, y: int| #[trigger] ((x + y) * n) == x * n + y * n by {
        vstd::arithmetic::mul::lemma_mul_is_distributive_add_other_way(n, x, y);
    }
}

/// The square root undoes squaring: `a²` has even exponents and `√(a²) = a`.
pub proof fn lemma_root_of_square(a: Dims)
    ensures
        dims_all_even(dims_power(a, 2)),
        dims_root(dims_power(a, 2)) == a,
{
}

/// Squaring undoes the square root where it is defined: `(√a)² = a`.
pub proof fn lemma_square_of_root(a: Dims)
    requires
        dims_all_even(a),
    ensures
        dims_power(dims_root(a), 2) == a,
{
}

/// A unit: seven signed exponents over the SI base units `[m, kg, s, A, K, mol, cd]`.
///
/// Concrete units are built by the functions of the [`dim`](crate::dim) module,
/// e.g. `dim::meter()` has exponent +1 on length and zero elsewhere.
#[derive(Debug, Clone, Copy, PartialEq, Eq, Hash, Structural)]
pub struct Unit {
    pub length: i32,
    pub mass: i32,
    pub time: i32,
    pub current: i32,
    pub temperature: i32,
    pub amount: i32,
    pub luminosity: i32,
}

impl View for Unit {
    type V = Dims;

    open spec fn view(&self) -> Dims {
        dims(
            self.length as int,
            self.mass as int,
            self.time as int,
            self.current as int,
            self.temperature as int,
            self.amount as int,
            self.luminosity as int,
        )
    }
}

/// The unit whose exponents are `d`, where they fit.
pub open spec fn unit_of(d: Dims) -> Unit {
    Unit {
        length: d.length as i32,
        mass: d.mass as i32,
        time: d.time as i32,
        current: d.current as i32,
        temperature: d.temperature as i32,
        amount: d.amount as i32,
        luminosity: d.luminosity as i32,
    }
}

/// A unit is determined by its exponents.
pub proof fn lemma_unit_view_injective(a: Unit, b: Unit)
    ensures
        (a@ == b@) <==> (a == b),
{
}

/// Every exponent vector that fits is the view of exactly one unit.
pub proof fn lemma_unit_of_view(d: Dims)
    requires
        dims_fit(d),
    ensures
        unit_of(d)@ == d,
{
}

impl Unit {
    /// Builds a unit from its seven exponents `(m, kg, s, A, K, mol, cd)`.
    pub fn from_exponents(
        length: i32,
        mass: i32,
        time: i32,
        current: i32,
        temperature: i32,
        amount: i32,
        luminosity: i32,
    ) -> (u: Unit)
        ensures
            u@ == dims(
                length as int,
                mass as int,
                time as int,
                current as int,
                temperature as int,
                amount as int,
                luminosity as int,
            ),
    {
        Unit { length, mass, time, current, temperature, amount, luminosity }
    }

    /// The exponents `[m, kg, s, A, K, mol, cd]`.
    pub fn exponents(&self) -> (e: [i32; 7])
        ensures
            e@ == seq![
                self.length,
                self.mass,
                self.time,
                self.current,
                self.temperature,
                self.amount,
                self.luminosity,
            ],
    {
        [self.length, self.mass, self.time, self.current, self.temperature, self.amount, self.luminosity]
    }

    /// Raises the unit to the integer power `n`: every exponent is multiplied by `n`.
    pub fn pow(self, n: i32) -> (u: Unit)
        requires
            dims_fit(dims_power(self@, n as int)),
        ensures
            u@ == dims_power(self@, n as int),
    {
        Unit {
            length: self.length * n,
            mass: self.mass * n,
            time: self.time * n,
            current: self.current * n,
            temperature: self.temperature * n,
            amount: self.amount * n,
            luminosity: self.luminosity * n,
        }
    }

    /// Whether every exponent is even, so that [`sqrt`](Self::sqrt) applies.
    pub fn is_halvable(&self) -> (b: bool)
        ensures
            b == dims_all_even(self@),
    {
        self.length % 2 == 0 && self.mass % 2 == 0 && self.time % 2 == 0 && self.current % 2 == 0
            && self.temperature % 2 == 0 && self.amount % 2 == 0 && self.luminosity % 2 == 0
    }

    /// Square root of a unit: every exponent halved (`sqrt(m²) = m`,
    /// `sqrt(m²/s²) = m/s`). Only defined when every exponent is even.
    pub fn sqrt(self) -> (u: Unit)
        requires
            dims_all_even(self@),
        ensures
            u@ == dims_root(self@),
            dims_product(u@, u@) == self@,
    {
        Unit {
            length: self.length / 2,
            mass: self.mass / 2,
            time: self.time / 2,
            current: self.current / 2,
            temperature: self.temperature / 2,
            amount: self.amount / 2,
            luminosity: self.luminosity / 2,
        }
    }
}

/// Whether `x` fits in an `i32`.
fn fits_i32(x: i64) -> (b: bool)
    ensures
        b == (i32::MIN <= x <= i32::MAX),
{
    i32::MIN as i64 <= x && x <= i32::MAX as i64
}

impl Unit {
    /// The product of two units, or `None` where an exponent of the product
    /// does not fit in an `i32`.
    pub fn checked_mul(self, rhs: Unit) -> (r: Option<Unit>)
        ensures
            r is Some <==> dims_fit(dims_product(self@, rhs@)),
            r matches Some(u) ==> u@ == dims_product(self@, rhs@),
    {
        let l = self.length as i64 + rhs.length as i64;
        let m = self.mass as i64 + rhs.mass as i64;
        let t = self.time as i64 + rhs.time as i64;
        let c = self.current as i64 + rhs.current as i64;
        let k = self.temperature as i64 + rhs.temperature as i64;
        let n = self.amount as i64 + rhs.amount as i64;
        let j = self.luminosity as i64 + rhs.luminosity as i64;
        if fits_i32(l) && fits_i32(m) && fits_i32(t) && fits_i32(c) && fits_i32(k) && fits_i32(n)
            && fits_i32(j) {
            Some(self * rhs)
        } else {
            None
        }
    }

    /// The quotient of two units, or `None` where an exponent of the
    /// quotient does not fit in an `i32`.
    pub fn checked_div(self, rhs: Unit) -> (r: Option<Unit>)
        ensures
            r is Some <==> dims_fit(dims_quotient(self@, rhs@)),
            r matches Some(u) ==> u@ == dims_quotient(self@, rhs@),
    {
        let l = self.length as i64 - rhs.length as i64;
        let m = self.mass as i64 - rhs.mass as i64;
        let t = self.time as i64 - rhs.time as i64;
        let c = self.current as i64 - rhs.current as i64;
        let k = self.temperature as i64 - rhs.temperature as i64;
        let n = self.amount as i64 - rhs.amount as i64;
        let j = self.luminosity as i64 - rhs.luminosity as i64;
        if fits_i32(l) && fits_i32(m) && fits_i32(t) && fits_i32(c) && fits_i32(k) && fits_i32(n)
            && fits_i32(j) {
            Some(self / rhs)
        } else {
            None
        }
    }

    /// The unit raised to the power `n`, or `None` where an exponent of the
    /// power does not fit in an `i32`.
    pub fn checked_pow(self, n: i32) -> (r: Option<Unit>)
        ensures
            r is Some <==> dims_fit(dims_power(self@, n as int)),
            r matches Some(u) ==> u@ == dims_power(self@, n as int),
    {
        let l = mul_i32(self.length, n);
        let m = mul_i32(self.mass, n);
        let t = mul_i32(self.time, n);
        let c = mul_i32(self.current, n);
        let k = mul_i32(self.temperature, n);
        let a = mul_i32(self.amount, n);
        let j = mul_i32(self.luminosity, n);
        if fits_i32(l) && fits_i32(m) && fits_i32(t) && fits_i32(c) && fits_i32(k) && fits_i32(a)
            && fits_i32(j) {
            Some(self.pow(n))
        } else {
            None
        }
    }
}

/// The product of two `i32`s, which always fits in an `i64`.
fn mul_i32(x: i32, y: i32) -> (p: i64)
    ensures
        p == x * y,
{
    proof {
        assert(i32::MIN <= x <= i32::MAX && i32::MIN <= y <= i32::MAX ==> i64::MIN <= x * y
            <= i64::MAX) by (nonlinear_arith);
    }
    x as i64 * y as i64
}

impl core::ops::Mul for Unit {
    type Output = Unit;

    /// Product of units: exponents add.
    fn mul(self, rhs: Unit) -> (u: Unit)
        ensures
            u@ == dims_product(self@, rhs@),
    {
        Unit {
            length: self.length + rhs.length,
            mass: self.mass + rhs.mass,
            time: self.time + rhs.time,
            current: self.current + rhs.current,
            temperature: self.temperature + rhs.temperature,
            amount: self.amount + rhs.amount,
            luminosity: self.luminosity + rhs.luminosity,
        }
    }
}

impl vstd::std_specs::ops::MulSpecImpl for Unit {
    open spec fn obeys_mul_spec() -> bool {
        true
    }

    open spec fn mul_req(self, rhs: Unit) -> bool {
        dims_fit(dims_product(self@, rhs@))
    }

    open spec fn mul_spec(self, rhs: Unit) -> Unit {
        unit_of(dims_product(self@, rhs@))
    }
}

impl core::ops::Div for Unit {
    type Output = Unit;

    /// Quotient of units: exponents subtract.
    fn div(self, rhs: Unit) -> (u: Unit)
        ensures
            u@ == dims_quotient(self@, rhs@),
    {
        Unit {
            length: self.length - rhs.length,
            mass: self.mass - rhs.mass,
            time: self.time - rhs.time,
            current: self.current - rhs.current,
            temperature: self.temperature - rhs.temperature,
            amount: self.amount - rhs.amount,
            luminosity: self.luminosity - rhs.luminosity,
        }
    }
}

impl vstd::std_specs::ops::DivSpecImpl for Unit {
    open spec fn obeys_div_spec() -> bool {
        true
    }

    open spec fn div_req(self, rhs: Unit) -> bool {
        dims_fit(dims_quotient(self@, rhs@))
    }

    open spec fn div_spec(self, rhs: Unit) -> Unit {
        unit_of(dims_quotient(self@, rhs@))
    }
}

} // verus!
