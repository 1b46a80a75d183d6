//! Scalar quantity: a value tagged with a unit.
//!
//! Arithmetic enforces dimensional correctness:
//! - `+`/`-` require both operands to have the **same unit**;
//! - `*`/`/` between quantities produce a quantity whose unit is the
//!   product/quotient of the operands' units;
//! - `*`/`/` by a raw scalar `T` keep the unit unchanged.
//!
//! The value arithmetic is `T`'s own; its contract is the one the standard
//! operator traits give `T`.

use vstd::prelude::*;

use crate::prefix::SiPrefix;
use crate::unit::{dims_all_even, dims_one, dims_fit, dims_power, dims_product, dims_quotient, dims_root, unit_of, Unit};

verus! {

/// A scalar value tagged with a unit.
///
/// `T` is the scalar type (`f64`, a complex number, an integer, ...).
#[derive(Debug, Clone, Copy, PartialEq)]
pub struct Quantity<T> {
    /// The raw scalar value in SI base units.
    pub value: T,
    /// The unit of the value.
    pub unit: Unit,
}

/// Whether `n` is an exponent that [`Quantity::pow`] supports: -10 to +10.
pub open spec fn pow_supported(n: int) -> bool {
    -10 <= n <= 10
}

impl<T> Quantity<T> {
    /// Creates a quantity from a raw scalar value and its unit.
    pub fn new(value: T, unit: Unit) -> (q: Self)
        ensures
            q.value == value,
            q.unit == unit,
    {
        Quantity { value, unit }
    }

    /// Borrows the raw scalar value.
    pub fn value(&self) -> (v: &T)
        ensures
            *v == self.value,
    {
        &self.value
    }

    /// The unit of the quantity.
    pub fn unit(&self) -> (u: Unit)
        ensures
            u == self.unit,
    {
        self.unit
    }

    /// Consumes the quantity, returning the raw scalar value.
    pub fn into_value(self) -> (v: T)
        ensures
            v == self.value,
    {
        self.value
    }

    /// Applies a function to the scalar value, preserving the unit.
    pub fn map<F, R>(self, f: F) -> (q: Quantity<R>)
        where
            F: FnOnce(T) -> R,
        requires
            f.requires((self.value,)),
        ensures
            f.ensures((self.value,), q.value),
            q.unit == self.unit,
    {
        Quantity { value: f(self.value), unit: self.unit }
    }

    /// Square root of a scalar quantity: the unit's exponents are halved
    /// (`sqrt(m²) = m`, `sqrt(m²/s²) = m/s`) and the value is `root` applied
    /// to it. Only defined when every exponent of the unit is even.
    ///
    /// The caller supplies `root`; that it computes the square root of the
    /// value is the caller's to keep: the unit is halved whatever it does.
    pub fn sqrt<F>(self, root: F) -> (q: Quantity<T>)
        where
            F: FnOnce(T) -> T,
        requires
            dims_all_even(self.unit@),
            root.requires((self.value,)),
        ensures
            q.unit@ == dims_root(self.unit@),
            root.ensures((self.value,), q.value),
    {
        let unit = self.unit.sqrt();
        Quantity { value: root(self.value), unit }
    }

    /// Raises a quantity to the integer power `n` (-10 to +10): the unit's
    /// exponents are multiplied by `n` and the value is `power` applied to it
    /// (`power` computes the value's `n`-th power).
    ///
    /// The caller supplies `power`; that it computes the `n`-th power (and
    /// not another) is the caller's to keep: the unit is raised to `n`
    /// whatever it does.
    pub fn pow<F>(self, n: i32, power: F) -> (q: Quantity<T>)
        where
            F: FnOnce(T) -> T,
        requires
            pow_supported(n as int),
            dims_fit(dims_power(self.unit@, n as int)),
            power.requires((self.value,)),
        ensures
            q.unit@ == dims_power(self.unit@, n as int),
            power.ensures((self.value,), q.value),
    {
        let unit = self.unit.pow(n);
        Quantity { value: power(self.value), unit }
    }

    /// Returns the same quantity: values are always stored in SI base units,
    /// so a prefix changes only how a value is displayed.
    pub fn convert_to(&self, prefix: SiPrefix) -> (q: Self)
        where
            T: Copy,
        ensures
            q == *self,
    {
        Quantity { value: self.value, unit: self.unit }
    }
}

impl<T: core::ops::Add<Output = T>> Quantity<T> {
    /// `self + r` where the units are equal; `None` where they differ.
    pub fn checked_add(self, r: Quantity<T>) -> (q: Option<Quantity<T>>)
        requires
            vstd::std_specs::ops::AddSpec::add_req(self.value, r.value),
        ensures
            q is Some <==> self.unit == r.unit,
            q matches Some(s) ==> s.unit == self.unit && call_ensures(T::add, (self.value, r.value), s.value),
    {
        if self.unit == r.unit {
            Some(Quantity { value: self.value + r.value, unit: self.unit })
        } else {
            None
        }
    }
}

impl<T: core::ops::Sub<Output = T>> Quantity<T> {
    /// `self - r` where the units are equal; `None` where they differ.
    pub fn checked_sub(self, r: Quantity<T>) -> (q: Option<Quantity<T>>)
        requires
            vstd::std_specs::ops::SubSpec::sub_req(self.value, r.value),
        ensures
            q is Some <==> self.unit == r.unit,
            q matches Some(s) ==> s.unit == self.unit && call_ensures(T::sub, (self.value, r.value), s.value),
    {
        if self.unit == r.unit {
            Some(Quantity { value: self.value - r.value, unit: self.unit })
        } else {
            None
        }
    }
}

impl<T: Copy + core::ops::Add<Output = T>> Quantity<T> {
    /// `self += r`: adds a quantity of the same unit in place.
    pub fn add_assign(&mut self, r: Quantity<T>)
        requires
            old(self).unit == r.unit,
            vstd::std_specs::ops::AddSpec::add_req(old(self).value, r.value),
        ensures
            final(self).unit == old(self).unit,
            call_ensures(T::add, (old(self).value, r.value), final(self).value),
            <T as vstd::std_specs::ops::AddSpec>::obeys_add_spec() ==> final(self).value
                == vstd::std_specs::ops::AddSpec::add_spec(old(self).value, r.value),
    {
        self.value = self.value + r.value;
    }
}

impl<T: Copy + core::ops::Sub<Output = T>> Quantity<T> {
    /// `self -= r`: subtracts a quantity of the same unit in place.
    pub fn sub_assign(&mut self, r: Quantity<T>)
        requires
            old(self).unit == r.unit,
            vstd::std_specs::ops::SubSpec::sub_req(old(self).value, r.value),
        ensures
            final(self).unit == old(self).unit,
            call_ensures(T::sub, (old(self).value, r.value), final(self).value),
            <T as vstd::std_specs::ops::SubSpec>::obeys_sub_spec() ==> final(self).value
                == vstd::std_specs::ops::SubSpec::sub_spec(old(self).value, r.value),
    {
        self.value = self.value - r.value;
    }
}

impl<T: Copy + core::ops::Mul<Output = T>> Quantity<T> {
    /// `self *= r`: scales the value in place by a raw scalar; the unit is unchanged.
    pub fn mul_assign(&mut self, r: T)
        requires
            vstd::std_specs::ops::MulSpec::mul_req(old(self).value, r),
        ensures
            final(self).unit == old(self).unit,
            call_ensures(T::mul, (old(self).value, r), final(self).value),
            <T as vstd::std_specs::ops::MulSpec>::obeys_mul_spec() ==> final(self).value
                == vstd::std_specs::ops::MulSpec::mul_spec(old(self).value, r),
    {
        self.value = self.value * r;
    }
}

impl<T: core::ops::Mul<Output = T>> Quantity<T> {
    /// The product `s * q` of a raw scalar on the left and a quantity: the
    /// unit of `q` is kept.
    pub fn scalar_mul(s: T, q: Quantity<T>) -> (r: Quantity<T>)
        requires
            vstd::std_specs::ops::MulSpec::mul_req(s, q.value),
        ensures
            r.unit == q.unit,
            call_ensures(T::mul, (s, q.value), r.value),
            <T as vstd::std_specs::ops::MulSpec>::obeys_mul_spec() ==> r.value
                == vstd::std_specs::ops::MulSpec::mul_spec(s, q.value),
    {
        Quantity { value: s * q.value, unit: q.unit }
    }
}

impl<T: core::ops::Div<Output = T>> Quantity<T> {
    /// The quotient `s / q` of a raw scalar by a quantity: the unit is the
    /// reciprocal of `q`'s (e.g. `1 / s` is a frequency).
    pub fn scalar_div(s: T, q: Quantity<T>) -> (r: Quantity<T>)
        requires
            dims_fit(dims_quotient(dims_one(), q.unit@)),
            vstd::std_specs::ops::DivSpec::div_req(s, q.value),
        ensures
            r.unit@ == dims_quotient(dims_one(), q.unit@),
            call_ensures(T::div, (s, q.value), r.value),
            <T as vstd::std_specs::ops::DivSpec>::obeys_div_spec() ==> r.value
                == vstd::std_specs::ops::DivSpec::div_spec(s, q.value),
    {
        let unit = Unit::from_exponents(0, 0, 0, 0, 0, 0, 0) / q.unit;
        Quantity { value: s / q.value, unit }
    }
}

impl<T: Default> Quantity<T> {
    /// A quantity of the given unit holding `T`'s default value (zero for
    /// the numeric types).
    pub fn default_in(unit: Unit) -> (q: Quantity<T>)
        ensures
            q.unit == unit,
            call_ensures(T::default, (), q.value),
    {
        Quantity { value: T::default(), unit }
    }
}

impl<T> core::ops::Deref for Quantity<T> {
    type Target = T;

    fn deref(&self) -> (v: &T)
        ensures
            *v == self.value,
    {
        &self.value
    }
}

// --- Add / Sub / Neg: same unit only ---

impl<T: core::ops::Add<Output = T>> core::ops::Add for Quantity<T> {
    type Output = Quantity<T>;

    fn add(self, r: Quantity<T>) -> (q: Quantity<T>)
        ensures
            q.unit == self.unit,
            call_ensures(T::add, (self.value, r.value), q.value),
    {
        Quantity { value: self.value + r.value, unit: self.unit }
    }
}

impl<T: core::ops::Add<Output = T>> vstd::std_specs::ops::AddSpecImpl for Quantity<T> {
    open spec fn obeys_add_spec() -> bool {
        <T as vstd::std_specs::ops::AddSpec>::obeys_add_spec()
    }

    open spec fn add_req(self, r: Quantity<T>) -> bool {
        self.unit == r.unit && vstd::std_specs::ops::AddSpec::add_req(self.value, r.value)
    }

    open spec fn add_spec(self, r: Quantity<T>) -> Quantity<T> {
        Quantity { value: vstd::std_specs::ops::AddSpec::add_spec(self.value, r.value), unit: self.unit }
    }
}

impl<T: core::ops::Sub<Output = T>> core::ops::Sub for Quantity<T> {
    type Output = Quantity<T>;

    fn sub(self, r: Quantity<T>) -> (q: Quantity<T>)
        ensures
            q.unit == self.unit,
            call_ensures(T::sub, (self.value, r.value), q.value),
    {
        Quantity { value: self.value - r.value, unit: self.unit }
    }
}

impl<T: core::ops::Sub<Output = T>> vstd::std_specs::ops::SubSpecImpl for Quantity<T> {
    open spec fn obeys_sub_spec() -> bool {
        <T as vstd::std_specs::ops::SubSpec>::obeys_sub_spec()
    }

    open spec fn sub_req(self, r: Quantity<T>) -> bool {
        self.unit == r.unit && vstd::std_specs::ops::SubSpec::sub_req(self.value, r.value)
    }

    open spec fn sub_spec(self, r: Quantity<T>) -> Quantity<T> {
        Quantity { value: vstd::std_specs::ops::SubSpec::sub_spec(self.value, r.value), unit: self.unit }
    }
}

impl<T: core::ops::Neg<Output = T>> core::ops::Neg for Quantity<T> {
    type Output = Quantity<T>;

    fn neg(self) -> (q: Quantity<T>)
        ensures
            q.unit == self.unit,
            call_ensures(T::neg, (self.value,), q.value),
    {
        Quantity { value: core::ops::Neg::neg(self.value), unit: self.unit }
    }
}

impl<T: core::ops::Neg<Output = T>> vstd::std_specs::ops::NegSpecImpl for Quantity<T> {
    open spec fn obeys_neg_spec() -> bool {
        <T as vstd::std_specs::ops::NegSpec>::obeys_neg_spec()
    }

    open spec fn neg_req(self) -> bool {
        vstd::std_specs::ops::NegSpec::neg_req(self.value)
    }

    open spec fn neg_spec(self) -> Quantity<T> {
        Quantity { value: vstd::std_specs::ops::NegSpec::neg_spec(self.value), unit: self.unit }
    }
}

// --- Mul / Div between quantities: the units multiply / divide ---

impl<T: core::ops::Mul<Output = T>> core::ops::Mul<Quantity<T>> for Quantity<T> {
    type Output = Quantity<T>;

    fn mul(self, r: Quantity<T>) -> (q: Quantity<T>)
        ensures
            q.unit@ == dims_product(self.unit@, r.unit@),
            call_ensures(T::mul, (self.value, r.value), q.value),
    {
        let unit = self.unit * r.unit;
        Quantity { value: self.value * r.value, unit }
    }
}

impl<T: core::ops::Mul<Output = T>> vstd::std_specs::ops::MulSpecImpl<Quantity<T>> for Quantity<T> {
    open spec fn obeys_mul_spec() -> bool {
        <T as vstd::std_specs::ops::MulSpec>::obeys_mul_spec()
    }

    open spec fn mul_req(self, r: Quantity<T>) -> bool {
        dims_fit(dims_product(self.unit@, r.unit@)) && vstd::std_specs::ops::MulSpec::mul_req(self.value, r.value)
    }

    open spec fn mul_spec(self, r: Quantity<T>) -> Quantity<T> {
        Quantity {
            value: vstd::std_specs::ops::MulSpec::mul_spec(self.value, r.value),
            unit: unit_of(dims_product(self.unit@, r.unit@)),
        }
    }
}

impl<T: core::ops::Div<Output = T>> core::ops::Div<Quantity<T>> for Quantity<T> {
    type Output = Quantity<T>;

    fn div(self, r: Quantity<T>) -> (q: Quantity<T>)
        ensures
            q.unit@ == dims_quotient(self.unit@, r.unit@),
            call_ensures(T::div, (self.value, r.value), q.value),
    {
        let unit = self.unit / r.unit;
        Quantity { value: self.value / r.value, unit }
    }
}

impl<T: core::ops::Div<Output = T>> vstd::std_specs::ops::DivSpecImpl<Quantity<T>> for Quantity<T> {
    open spec fn obeys_div_spec() -> bool {
        <T as vstd::std_specs::ops::DivSpec>::obeys_div_spec()
    }

    open spec fn div_req(self, r: Quantity<T>) -> bool {
        dims_fit(dims_quotient(self.unit@, r.unit@)) && vstd::std_specs::ops::DivSpec::div_req(self.value, r.value)
    }

    open spec fn div_spec(self, r: Quantity<T>) -> Quantity<T> {
        Quantity {
            value: vstd::std_specs::ops::DivSpec::div_spec(self.value, r.value),
            unit: unit_of(dims_quotient(self.unit@, r.unit@)),
        }
    }
}

// --- Mul / Div by a raw scalar: the unit is kept ---

impl<T: core::ops::Mul<Output = T>> core::ops::Mul<T> for Quantity<T> {
    type Output = Quantity<T>;

    fn mul(self, r: T) -> (q: Quantity<T>)
        ensures
            q.unit == self.unit,
            call_ensures(T::mul, (self.value, r), q.value),
    {
        Quantity { value: self.value * r, unit: self.unit }
    }
}

impl<T: core::ops::Mul<Output = T>> vstd::std_specs::ops::MulSpecImpl<T> for Quantity<T> {
    open spec fn obeys_mul_spec() -> bool {
        <T as vstd::std_specs::ops::MulSpec>::obeys_mul_spec()
    }

    open spec fn mul_req(self, r: T) -> bool {
        vstd::std_specs::ops::MulSpec::mul_req(self.value, r)
    }

    open spec fn mul_spec(self, r: T) -> Quantity<T> {
        Quantity { value: vstd::std_specs::ops::MulSpec::mul_spec(self.value, r), unit: self.unit }
    }
}

impl<T: core::ops::Div<Output = T>> core::ops::Div<T> for Quantity<T> {
    type Output = Quantity<T>;

    fn div(self, r: T) -> (q: Quantity<T>)
        ensures
            q.unit == self.unit,
            call_ensures(T::div, (self.value, r), q.value),
    {
        Quantity { value: self.value / r, unit: self.unit }
    }
}

impl<T: core::ops::Div<Output = T>> vstd::std_specs::ops::DivSpecImpl<T> for Quantity<T> {
    open spec fn obeys_div_spec() -> bool {
        <T as vstd::std_specs::ops::DivSpec>::obeys_div_spec()
    }

    open spec fn div_req(self, r: T) -> bool {
        vstd::std_specs::ops::DivSpec::div_req(self.value, r)
    }

    open spec fn div_spec(self, r: T) -> Quantity<T> {
        Quantity { value: vstd::std_specs::ops::DivSpec::div_spec(self.value, r), unit: self.unit }
    }
}

// --- Laws of quantity operations ---

/// Mapping the identity gives back the quantity: where `f` returns its
/// argument, the result `r` of `q.map(f)` (as `map`'s contract gives it)
/// is `q`.
pub proof fn lemma_map_identity<T, F: FnOnce(T) -> T>(q: Quantity<T>, f: F, r: Quantity<T>)
    requires
        forall|x: T, y: T| #[trigger] f.ensures((x,), y) ==> y == x,
        f.ensures((q.value,), r.value),
        r.unit == q.unit,
    ensures
        r == q,
{
}

/// Two maps compose into one: where `h` is `g` after `f` and returns one
/// result for each argument, `q.map(f).map(g)` equals `q.map(h)`. Here `r1`,
/// `r2` and `r3` are the results of `q.map(f)`, `r1.map(g)` and `q.map(h)`
/// as `map`'s contract gives them.
pub proof fn lemma_map_compose<T, R, S, F: FnOnce(T) -> R, G: FnOnce(R) -> S, H: FnOnce(T) -> S>(
    q: Quantity<T>,
    f: F,
    g: G,
    h: H,
    r1: Quantity<R>,
    r2: Quantity<S>,
    r3: Quantity<S>,
)
    requires
        forall|x: T, y: R, z: S|
            #[trigger] f.ensures((x,), y) && #[trigger] g.ensures((y,), z) ==> h.ensures((x,), z),
        forall|x: T, z1: S, z2: S|
            #[trigger] h.ensures((x,), z1) && #[trigger] h.ensures((x,), z2) ==> z1 == z2,
        f.ensures((q.value,), r1.value),
        r1.unit == q.unit,
        g.ensures((r1.value,), r2.value),
        r2.unit == r1.unit,
        h.ensures((q.value,), r3.value),
        r3.unit == q.unit,
    ensures
        r2 == r3,
{
    assert(h.ensures((q.value,), r2.value));
}

/// Addition of integer quantities of one unit is commutative, its value is
/// the sum of the values and its unit is kept.
pub proof fn lemma_add_commutative(a: Quantity<i64>, b: Quantity<i64>)
    requires
        a.unit == b.unit,
        i64::MIN <= a.value + b.value <= i64::MAX,
    ensures
        vstd::std_specs::ops::AddSpec::add_req(a, b),
        vstd::std_specs::ops::AddSpec::add_req(b, a),
        vstd::std_specs::ops::AddSpec::add_spec(a, b) == vstd::std_specs::ops::AddSpec::add_spec(b, a),
        vstd::std_specs::ops::AddSpec::add_spec(a, b).value == a.value + b.value,
        vstd::std_specs::ops::AddSpec::add_spec(a, b).unit == a.unit,
{
}

/// Negating an integer quantity twice gives it back, and a quantity plus its
/// negation has value zero and the quantity's unit.
pub proof fn lemma_neg_inverse(q: Quantity<i64>)
    requires
        q.value != i64::MIN,
    ensures
        vstd::std_specs::ops::NegSpec::neg_req(q),
        vstd::std_specs::ops::NegSpec::neg_req(vstd::std_specs::ops::NegSpec::neg_spec(q)),
        vstd::std_specs::ops::NegSpec::neg_spec(vstd::std_specs::ops::NegSpec::neg_spec(q)) == q,
        vstd::std_specs::ops::AddSpec::add_req(q, vstd::std_specs::ops::NegSpec::neg_spec(q)),
        vstd::std_specs::ops::AddSpec::add_spec(q, vstd::std_specs::ops::NegSpec::neg_spec(q)).value == 0,
        vstd::std_specs::ops::AddSpec::add_spec(q, vstd::std_specs::ops::NegSpec::neg_spec(q)).unit == q.unit,
{
}


} // verus!
