//! Tensor quantity: a matrix of components sharing one unit.

use core::marker::PhantomData;

use vstd::prelude::*;

use crate::unit::{dims_fit, dims_product, unit_of, Unit};
use crate::unit_name::{unit_symbol, UnitName};
use crate::vector::VectorQuantity;

verus! {

/// A matrix tagged with a unit shared by all its components, used for
/// inertia tensors, stress tensors, transformation matrices, etc.
///
/// `T` is the scalar type of the components and `M` the matrix
/// representation (e.g. `nalgebra::SMatrix<f64, 3, 3>`).
#[derive(Debug, Copy, PartialEq)]
pub struct TensorQuantity<T, M> {
    /// The raw matrix, stored in SI base units.
    pub matrix: M,
    /// The unit of every component.
    pub unit: Unit,
    /// Marks the scalar type `T` of the components.
    pub scalar: PhantomData<T>,
}

impl<T, M> TensorQuantity<T, M> {
    /// Creates a tensor quantity from a raw matrix and its unit.
    pub fn new(matrix: M, unit: Unit) -> (q: Self)
        ensures
            q.matrix == matrix,
            q.unit == unit,
    {
        TensorQuantity { matrix, unit, scalar: PhantomData }
    }

    /// Borrows the raw matrix.
    pub fn matrix(&self) -> (m: &M)
        ensures
            *m == self.matrix,
    {
        &self.matrix
    }

    /// Consumes the tensor quantity, returning the raw matrix.
    pub fn into_matrix(self) -> (m: M)
        ensures
            m == self.matrix,
    {
        self.matrix
    }

    /// The SI symbol of this tensor's unit (e.g. `"kg·m²"`, `"Pa"`), where it has one.
    pub fn unit_name(&self) -> (r: Option<&'static str>)
        ensures
            r is Some <==> unit_symbol(self.unit@) is Some,
            r matches Some(s) ==> unit_symbol(self.unit@) == Some(s@),
    {
        self.unit.name()
    }
}

impl<T, M> TensorQuantity<T, M> {
    /// Transpose: the unit is kept. `transpose` computes the transpose of
    /// the raw matrix; the caller supplies it.
    pub fn transpose<N, F>(&self, transpose: F) -> (q: TensorQuantity<T, N>)
        where
            F: FnOnce(&M) -> N,
        requires
            transpose.requires((&self.matrix,)),
        ensures
            q.unit == self.unit,
            transpose.ensures((&self.matrix,), q.matrix),
    {
        TensorQuantity::new(transpose(&self.matrix), self.unit)
    }
}

impl<T, M: Default> TensorQuantity<T, M> {
    /// A tensor quantity of the given unit holding `M`'s default matrix
    /// (the zero matrix for nalgebra matrices).
    pub fn default_in(unit: Unit) -> (q: Self)
        ensures
            q.unit == unit,
            call_ensures(M::default, (), q.matrix),
    {
        TensorQuantity::new(M::default(), unit)
    }
}

impl<T, M: Clone> Clone for TensorQuantity<T, M> {
    fn clone(&self) -> (q: Self)
        ensures
            q.unit == self.unit,
            cloned(self.matrix, q.matrix),
    {
        TensorQuantity { matrix: self.matrix.clone(), unit: self.unit, scalar: PhantomData }
    }
}

impl<T, M: core::ops::Add<Output = M>> core::ops::Add for TensorQuantity<T, M> {
    type Output = TensorQuantity<T, M>;

    fn add(self, r: TensorQuantity<T, M>) -> (q: TensorQuantity<T, M>)
        ensures
            q.unit == self.unit,
            call_ensures(M::add, (self.matrix, r.matrix), q.matrix),
    {
        TensorQuantity { matrix: self.matrix + r.matrix, unit: self.unit, scalar: PhantomData }
    }
}

impl<T, M: core::ops::Add<Output = M>> vstd::std_specs::ops::AddSpecImpl for TensorQuantity<T, M> {
    open spec fn obeys_add_spec() -> bool {
        <M as vstd::std_specs::ops::AddSpec>::obeys_add_spec()
    }

    open spec fn add_req(self, r: TensorQuantity<T, M>) -> bool {
        self.unit == r.unit && vstd::std_specs::ops::AddSpec::add_req(self.matrix, r.matrix)
    }

    open spec fn add_spec(self, r: TensorQuantity<T, M>) -> TensorQuantity<T, M> {
        TensorQuantity {
            matrix: vstd::std_specs::ops::AddSpec::add_spec(self.matrix, r.matrix),
            unit: self.unit,
            scalar: PhantomData,
        }
    }
}

impl<T, M: core::ops::Sub<Output = M>> core::ops::Sub for TensorQuantity<T, M> {
    type Output = TensorQuantity<T, M>;

    fn sub(self, r: TensorQuantity<T, M>) -> (q: TensorQuantity<T, M>)
        ensures
            q.unit == self.unit,
            call_ensures(M::sub, (self.matrix, r.matrix), q.matrix),
    {
        TensorQuantity { matrix: self.matrix - r.matrix, unit: self.unit, scalar: PhantomData }
    }
}

impl<T, M: core::ops::Sub<Output = M>> vstd::std_specs::ops::SubSpecImpl for TensorQuantity<T, M> {
    open spec fn obeys_sub_spec() -> bool {
        <M as vstd::std_specs::ops::SubSpec>::obeys_sub_spec()
    }

    open spec fn sub_req(self, r: TensorQuantity<T, M>) -> bool {
        self.unit == r.unit && vstd::std_specs::ops::SubSpec::sub_req(self.matrix, r.matrix)
    }

    open spec fn sub_spec(self, r: TensorQuantity<T, M>) -> TensorQuantity<T, M> {
        TensorQuantity {
            matrix: vstd::std_specs::ops::SubSpec::sub_spec(self.matrix, r.matrix),
            unit: self.unit,
            scalar: PhantomData,
        }
    }
}

impl<T, M: core::ops::Neg<Output = M>> core::ops::Neg for TensorQuantity<T, M> {
    type Output = TensorQuantity<T, M>;

    fn neg(self) -> (q: TensorQuantity<T, M>)
        ensures
            q.unit == self.unit,
            call_ensures(M::neg, (self.matrix,), q.matrix),
    {
        TensorQuantity { matrix: core::ops::Neg::neg(self.matrix), unit: self.unit, scalar: PhantomData }
    }
}

impl<T, M: core::ops::Neg<Output = M>> vstd::std_specs::ops::NegSpecImpl for TensorQuantity<T, M> {
    open spec fn obeys_neg_spec() -> bool {
        <M as vstd::std_specs::ops::NegSpec>::obeys_neg_spec()
    }

    open spec fn neg_req(self) -> bool {
        vstd::std_specs::ops::NegSpec::neg_req(self.matrix)
    }

    open spec fn neg_spec(self) -> TensorQuantity<T, M> {
        TensorQuantity {
            matrix: vstd::std_specs::ops::NegSpec::neg_spec(self.matrix),
            unit: self.unit,
            scalar: PhantomData,
        }
    }
}

impl<T, M: core::ops::Mul<T, Output = M>> core::ops::Mul<T> for TensorQuantity<T, M> {
    type Output = TensorQuantity<T, M>;

    /// Scales every component by a raw scalar; the unit is kept.
    fn mul(self, r: T) -> (q: TensorQuantity<T, M>)
        ensures
            q.unit == self.unit,
            call_ensures(M::mul, (self.matrix, r), q.matrix),
    {
        TensorQuantity { matrix: self.matrix * r, unit: self.unit, scalar: PhantomData }
    }
}

impl<T, M: core::ops::Mul<T, Output = M>> vstd::std_specs::ops::MulSpecImpl<T> for TensorQuantity<T, M> {
    open spec fn obeys_mul_spec() -> bool {
        <M as vstd::std_specs::ops::MulSpec<T>>::obeys_mul_spec()
    }

    open spec fn mul_req(self, r: T) -> bool {
        vstd::std_specs::ops::MulSpec::mul_req(self.matrix, r)
    }

    open spec fn mul_spec(self, r: T) -> TensorQuantity<T, M> {
        TensorQuantity {
            matrix: vstd::std_specs::ops::MulSpec::mul_spec(self.matrix, r),
            unit: self.unit,
            scalar: PhantomData,
        }
    }
}

impl<T, A: core::ops::Mul<B, Output = C>, B, C> core::ops::Mul<TensorQuantity<T, B>> for TensorQuantity<T, A> {
    type Output = TensorQuantity<T, C>;

    /// Matrix product: the units multiply.
    fn mul(self, r: TensorQuantity<T, B>) -> (q: TensorQuantity<T, C>)
        ensures
            q.unit@ == dims_product(self.unit@, r.unit@),
            call_ensures(A::mul, (self.matrix, r.matrix), q.matrix),
    {
        let unit = self.unit * r.unit;
        TensorQuantity { matrix: self.matrix * r.matrix, unit, scalar: PhantomData }
    }
}

impl<T, A: core::ops::Mul<B, Output = C>, B, C> vstd::std_specs::ops::MulSpecImpl<TensorQuantity<T, B>> for TensorQuantity<T, A> {
    open spec fn obeys_mul_spec() -> bool {
        <A as vstd::std_specs::ops::MulSpec<B>>::obeys_mul_spec()
    }

    open spec fn mul_req(self, r: TensorQuantity<T, B>) -> bool {
        dims_fit(dims_product(self.unit@, r.unit@)) && vstd::std_specs::ops::MulSpec::mul_req(self.matrix, r.matrix)
    }

    open spec fn mul_spec(self, r: TensorQuantity<T, B>) -> TensorQuantity<T, C> {
        TensorQuantity {
            matrix: vstd::std_specs::ops::MulSpec::mul_spec(self.matrix, r.matrix),
            unit: unit_of(dims_product(self.unit@, r.unit@)),
            scalar: PhantomData,
        }
    }
}

impl<T, A: core::ops::Mul<V, Output = W>, V, W> core::ops::Mul<VectorQuantity<T, V>> for TensorQuantity<T, A> {
    type Output = VectorQuantity<T, W>;

    /// Matrix times vector: the units multiply.
    fn mul(self, r: VectorQuantity<T, V>) -> (q: VectorQuantity<T, W>)
        ensures
            q.unit@ == dims_product(self.unit@, r.unit@),
            call_ensures(A::mul, (self.matrix, r.vector), q.vector),
    {
        let unit = self.unit * r.unit;
        VectorQuantity::new(self.matrix * r.vector, unit)
    }
}

impl<T, A: core::ops::Mul<V, Output = W>, V, W> vstd::std_specs::ops::MulSpecImpl<VectorQuantity<T, V>> for TensorQuantity<T, A> {
    open spec fn obeys_mul_spec() -> bool {
        <A as vstd::std_specs::ops::MulSpec<V>>::obeys_mul_spec()
    }

    open spec fn mul_req(self, r: VectorQuantity<T, V>) -> bool {
        dims_fit(dims_product(self.unit@, r.unit@)) && vstd::std_specs::ops::MulSpec::mul_req(self.matrix, r.vector)
    }

    open spec fn mul_spec(self, r: VectorQuantity<T, V>) -> VectorQuantity<T, W> {
        VectorQuantity {
            vector: vstd::std_specs::ops::MulSpec::mul_spec(self.matrix, r.vector),
            unit: unit_of(dims_product(self.unit@, r.unit@)),
            scalar: PhantomData,
        }
    }
}

} // verus!
