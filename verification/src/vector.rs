//! Vector quantity: a vector of components sharing one unit.

use core::marker::PhantomData;

use vstd::prelude::*;

use crate::quantity::Quantity;
use crate::unit::{dims_fit, dims_one, dims_product, unit_of, Unit};

verus! {

/// A vector tagged with a unit shared by all its components.
///
/// `T` is the scalar type of the components and `V` the vector
/// representation (e.g. `nalgebra::SVector<f64, 3>`).
/// Arithmetic follows the same dimensional rules as [`Quantity`]: `+`/`-`
/// require matching units, and `*`/`/` by a scalar keep the unit.
#[derive(Debug, Copy, PartialEq)]
pub struct VectorQuantity<T, V> {
    /// The raw vector, stored in SI base units.
    pub vector: V,
    /// The unit of every component.
    pub unit: Unit,
    /// Marks the scalar type `T` of the components.
    pub scalar: PhantomData<T>,
}

impl<T, V> VectorQuantity<T, V> {
    /// Creates a vector quantity from a raw vector and its unit.
    pub fn new(vector: V, unit: Unit) -> (q: Self)
        ensures
            q.vector == vector,
            q.unit == unit,
    {
        VectorQuantity { vector, unit, scalar: PhantomData }
    }

    /// Borrows the raw vector.
    pub fn vector(&self) -> (v: &V)
        ensures
            *v == self.vector,
    {
        &self.vector
    }

    /// Borrows the raw vector (same as [`vector`](Self::vector)).
    pub fn value(&self) -> (v: &V)
        ensures
            *v == self.vector,
    {
        &self.vector
    }

    /// Borrows the raw vector (same as [`vector`](Self::vector)).
    pub fn raw(&self) -> (v: &V)
        ensures
            *v == self.vector,
    {
        &self.vector
    }

    /// Consumes the vector quantity, returning the raw vector.
    pub fn into_vector(self) -> (v: V)
        ensures
            v == self.vector,
    {
        self.vector
    }
}

impl<T, V> VectorQuantity<T, V> {
    /// Euclidean norm (magnitude): in the vector's unit. `norm` computes the
    /// magnitude of the raw vector; the caller supplies it.
    pub fn norm<R, F>(&self, norm: F) -> (q: Quantity<R>)
        where
            F: FnOnce(&V) -> R,
        requires
            norm.requires((&self.vector,)),
        ensures
            q.unit == self.unit,
            norm.ensures((&self.vector,), q.value),
    {
        Quantity::new(norm(&self.vector), self.unit)
    }

    /// Squared Euclidean norm: in the square of the vector's unit.
    /// `norm_squared` computes it for the raw vector; the caller supplies it.
    pub fn norm_squared<R, F>(&self, norm_squared: F) -> (q: Quantity<R>)
        where
            F: FnOnce(&V) -> R,
        requires
            dims_fit(dims_product(self.unit@, self.unit@)),
            norm_squared.requires((&self.vector,)),
        ensures
            q.unit@ == dims_product(self.unit@, self.unit@),
            norm_squared.ensures((&self.vector,), q.value),
    {
        let unit = self.unit * self.unit;
        Quantity::new(norm_squared(&self.vector), unit)
    }

    /// Unit vector in the same direction: dimensionless. `normalize`
    /// computes it for the raw vector; the caller supplies it.
    pub fn normalize<W, F>(&self, normalize: F) -> (q: VectorQuantity<T, W>)
        where
            F: FnOnce(&V) -> W,
        requires
            normalize.requires((&self.vector,)),
        ensures
            q.unit@ == dims_one(),
            normalize.ensures((&self.vector,), q.vector),
    {
        let unit = Unit::from_exponents(0, 0, 0, 0, 0, 0, 0);
        VectorQuantity::new(normalize(&self.vector), unit)
    }

    /// Dot product: the units multiply. `dot` computes the dot product of
    /// the raw vectors; the caller supplies it.
    pub fn dot<R, F>(&self, other: &VectorQuantity<T, V>, dot: F) -> (q: Quantity<R>)
        where
            F: FnOnce(&V, &V) -> R,
        requires
            dims_fit(dims_product(self.unit@, other.unit@)),
            dot.requires((&self.vector, &other.vector)),
        ensures
            q.unit@ == dims_product(self.unit@, other.unit@),
            dot.ensures((&self.vector, &other.vector), q.value),
    {
        let unit = self.unit * other.unit;
        Quantity::new(dot(&self.vector, &other.vector), unit)
    }

    /// Cross product: the units multiply. `cross` computes the cross product
    /// of the raw vectors; the caller supplies it.
    pub fn cross<F>(&self, other: &VectorQuantity<T, V>, cross: F) -> (q: VectorQuantity<T, V>)
        where
            F: FnOnce(&V, &V) -> V,
        requires
            dims_fit(dims_product(self.unit@, other.unit@)),
            cross.requires((&self.vector, &other.vector)),
        ensures
            q.unit@ == dims_product(self.unit@, other.unit@),
            cross.ensures((&self.vector, &other.vector), q.vector),
    {
        let unit = self.unit * other.unit;
        VectorQuantity::new(cross(&self.vector, &other.vector), unit)
    }
}

impl<T, V: Default> VectorQuantity<T, V> {
    /// A vector quantity of the given unit holding `V`'s default vector
    /// (the zero vector for nalgebra vectors).
    pub fn default_in(unit: Unit) -> (q: Self)
        ensures
            q.unit == unit,
            call_ensures(V::default, (), q.vector),
    {
        VectorQuantity::new(V::default(), unit)
    }
}

impl<T, V: Clone> Clone for VectorQuantity<T, V> {
    fn clone(&self) -> (q: Self)
        ensures
            q.unit == self.unit,
            cloned(self.vector, q.vector),
    {
        VectorQuantity { vector: self.vector.clone(), unit: self.unit, scalar: PhantomData }
    }
}

impl<T, V> core::ops::Deref for VectorQuantity<T, V> {
    type Target = V;

    fn deref(&self) -> (v: &V)
        ensures
            *v == self.vector,
    {
        &self.vector
    }
}

impl<T, V: core::ops::Add<Output = V>> core::ops::Add for VectorQuantity<T, V> {
    type Output = VectorQuantity<T, V>;

    fn add(self, r: VectorQuantity<T, V>) -> (q: VectorQuantity<T, V>)
        ensures
            q.unit == self.unit,
            call_ensures(V::add, (self.vector, r.vector), q.vector),
    {
        VectorQuantity { scalar: PhantomData, vector: self.vector + r.vector, unit: self.unit }
    }
}

impl<T, V: core::ops::Add<Output = V>> vstd::std_specs::ops::AddSpecImpl for VectorQuantity<T, V> {
    open spec fn obeys_add_spec() -> bool {
        <V as vstd::std_specs::ops::AddSpec>::obeys_add_spec()
    }

    open spec fn add_req(self, r: VectorQuantity<T, V>) -> bool {
        self.unit == r.unit && vstd::std_specs::ops::AddSpec::add_req(self.vector, r.vector)
    }

    open spec fn add_spec(self, r: VectorQuantity<T, V>) -> VectorQuantity<T, V> {
        VectorQuantity { scalar: PhantomData, vector: vstd::std_specs::ops::AddSpec::add_spec(self.vector, r.vector), unit: self.unit }
    }
}

impl<T, V: core::ops::Sub<Output = V>> core::ops::Sub for VectorQuantity<T, V> {
    type Output = VectorQuantity<T, V>;

    fn sub(self, r: VectorQuantity<T, V>) -> (q: VectorQuantity<T, V>)
        ensures
            q.unit == self.unit,
            call_ensures(V::sub, (self.vector, r.vector), q.vector),
    {
        VectorQuantity { scalar: PhantomData, vector: self.vector - r.vector, unit: self.unit }
    }
}

impl<T, V: core::ops::Sub<Output = V>> vstd::std_specs::ops::SubSpecImpl for VectorQuantity<T, V> {
    open spec fn obeys_sub_spec() -> bool {
        <V as vstd::std_specs::ops::SubSpec>::obeys_sub_spec()
    }

    open spec fn sub_req(self, r: VectorQuantity<T, V>) -> bool {
        self.unit == r.unit && vstd::std_specs::ops::SubSpec::sub_req(self.vector, r.vector)
    }

    open spec fn sub_spec(self, r: VectorQuantity<T, V>) -> VectorQuantity<T, V> {
        VectorQuantity { scalar: PhantomData, vector: vstd::std_specs::ops::SubSpec::sub_spec(self.vector, r.vector), unit: self.unit }
    }
}

impl<T, V: core::ops::Neg<Output = V>> core::ops::Neg for VectorQuantity<T, V> {
    type Output = VectorQuantity<T, V>;

    fn neg(self) -> (q: VectorQuantity<T, V>)
        ensures
            q.unit == self.unit,
            call_ensures(V::neg, (self.vector,), q.vector),
    {
        VectorQuantity { scalar: PhantomData, vector: core::ops::Neg::neg(self.vector), unit: self.unit }
    }
}

impl<T, V: core::ops::Neg<Output = V>> vstd::std_specs::ops::NegSpecImpl for VectorQuantity<T, V> {
    open spec fn obeys_neg_spec() -> bool {
        <V as vstd::std_specs::ops::NegSpec>::obeys_neg_spec()
    }

    open spec fn neg_req(self) -> bool {
        vstd::std_specs::ops::NegSpec::neg_req(self.vector)
    }

    open spec fn neg_spec(self) -> VectorQuantity<T, V> {
        VectorQuantity { scalar: PhantomData, vector: vstd::std_specs::ops::NegSpec::neg_spec(self.vector), unit: self.unit }
    }
}

impl<T, V: core::ops::Mul<T, Output = V>> core::ops::Mul<T> for VectorQuantity<T, V> {
    type Output = VectorQuantity<T, V>;

    fn mul(self, r: T) -> (q: VectorQuantity<T, V>)
        ensures
            q.unit == self.unit,
            call_ensures(V::mul, (self.vector, r), q.vector),
    {
        VectorQuantity { scalar: PhantomData, vector: self.vector * r, unit: self.unit }
    }
}

impl<T, V: core::ops::Mul<T, Output = V>> vstd::std_specs::ops::MulSpecImpl<T> for VectorQuantity<T, V> {
    open spec fn obeys_mul_spec() -> bool {
        <V as vstd::std_specs::ops::MulSpec<T>>::obeys_mul_spec()
    }

    open spec fn mul_req(self, r: T) -> bool {
        vstd::std_specs::ops::MulSpec::mul_req(self.vector, r)
    }

    open spec fn mul_spec(self, r: T) -> VectorQuantity<T, V> {
        VectorQuantity { scalar: PhantomData, vector: vstd::std_specs::ops::MulSpec::mul_spec(self.vector, r), unit: self.unit }
    }
}

impl<T, V: core::ops::Div<T, Output = V>> core::ops::Div<T> for VectorQuantity<T, V> {
    type Output = VectorQuantity<T, V>;

    fn div(self, r: T) -> (q: VectorQuantity<T, V>)
        ensures
            q.unit == self.unit,
            call_ensures(V::div, (self.vector, r), q.vector),
    {
        VectorQuantity { scalar: PhantomData, vector: self.vector / r, unit: self.unit }
    }
}

impl<T, V: core::ops::Div<T, Output = V>> vstd::std_specs::ops::DivSpecImpl<T> for VectorQuantity<T, V> {
    open spec fn obeys_div_spec() -> bool {
        <V as vstd::std_specs::ops::DivSpec<T>>::obeys_div_spec()
    }

    open spec fn div_req(self, r: T) -> bool {
        vstd::std_specs::ops::DivSpec::div_req(self.vector, r)
    }

    open spec fn div_spec(self, r: T) -> VectorQuantity<T, V> {
        VectorQuantity { scalar: PhantomData, vector: vstd::std_specs::ops::DivSpec::div_spec(self.vector, r), unit: self.unit }
    }
}

// --- A scalar quantity times a vector quantity: the units multiply ---

impl<T, V: core::ops::Mul<T, Output = V>> core::ops::Mul<VectorQuantity<T, V>> for Quantity<T> {
    type Output = VectorQuantity<T, V>;

    fn mul(self, r: VectorQuantity<T, V>) -> (q: VectorQuantity<T, V>)
        ensures
            q.unit@ == dims_product(self.unit@, r.unit@),
            call_ensures(V::mul, (r.vector, self.value), q.vector),
    {
        let unit = self.unit * r.unit;
        VectorQuantity { scalar: PhantomData, vector: r.vector * self.value, unit }
    }
}

impl<T, V: core::ops::Mul<T, Output = V>> vstd::std_specs::ops::MulSpecImpl<VectorQuantity<T, V>> for Quantity<T> {
    open spec fn obeys_mul_spec() -> bool {
        <V as vstd::std_specs::ops::MulSpec<T>>::obeys_mul_spec()
    }

    open spec fn mul_req(self, r: VectorQuantity<T, V>) -> bool {
        dims_fit(dims_product(self.unit@, r.unit@)) && vstd::std_specs::ops::MulSpec::mul_req(r.vector, self.value)
    }

    open spec fn mul_spec(self, r: VectorQuantity<T, V>) -> VectorQuantity<T, V> {
        VectorQuantity {
            scalar: PhantomData,
            vector: vstd::std_specs::ops::MulSpec::mul_spec(r.vector, self.value),
            unit: unit_of(dims_product(self.unit@, r.unit@)),
        }
    }
}

} // verus!
