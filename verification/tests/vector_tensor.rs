use metron::dim;
use metron::{Quantity, TensorQuantity, VectorQuantity};
use nalgebra::{Matrix2, Matrix3, SMatrix, Vector3};

type Vec3 = VectorQuantity<f64, Vector3<f64>>;

fn vq(x: f64, y: f64, z: f64, unit: metron::Unit) -> Vec3 {
    VectorQuantity::new(Vector3::new(x, y, z), unit)
}

#[test]
fn vector_add() {
    let v1 = vq(1.0, 0.0, 0.0, dim::meter());
    let v2 = vq(0.0, 1.0, 0.0, dim::meter());
    let c = v1 + v2;
    assert_eq!(c.vector.x, 1.0);
    assert_eq!(c.vector.y, 1.0);
    assert_eq!(c.unit, dim::meter());
}

#[test]
fn scalar_times_vector() {
    let scale = Quantity::new(2.0, dim::meter());
    let dir = vq(1.0, 2.0, 3.0, dim::dimensionless());
    let p = scale * dir;
    assert_eq!(p.vector.x, 2.0);
    assert_eq!(p.unit, dim::meter());
}

#[test]
fn vector_sub() {
    let v1 = vq(5.0, 3.0, 1.0, dim::meter());
    let v2 = vq(2.0, 1.0, 0.0, dim::meter());
    let c = v1 - v2;
    assert_eq!(c.vector.x, 3.0);
    assert_eq!(c.vector.y, 2.0);
    assert_eq!(c.vector.z, 1.0);
}

#[test]
fn vector_neg() {
    let v1 = vq(1.0, -2.0, 3.0, dim::meter());
    let neg = -v1;
    assert_eq!(neg.vector.x, -1.0);
    assert_eq!(neg.vector.y, 2.0);
    assert_eq!(neg.vector.z, -3.0);
    assert_eq!(neg.unit, dim::meter());
}

#[test]
fn vector_div_raw() {
    let v1 = vq(10.0, 20.0, 30.0, dim::meter());
    let result = v1 / 2.0;
    assert_eq!(result.vector.x, 5.0);
    assert_eq!(result.vector.y, 10.0);
    assert_eq!(result.vector.z, 15.0);
    assert_eq!(result.unit, dim::meter());
}

#[test]
fn vector_into_vector() {
    let v = vq(1.0, 2.0, 3.0, dim::meter());
    let raw = v.into_vector();
    assert_eq!(raw.x, 1.0);
}

#[test]
fn vector_accessors() {
    let v = vq(7.0, 8.0, 9.0, dim::meter());
    assert_eq!(v.vector().x, 7.0);
    assert_eq!(v.value().x, 7.0);
    assert_eq!(v.raw().x, 7.0);
}

#[test]
fn vector_scalar_mul_keeps_unit() {
    let v = vq(1.0, 2.0, 3.0, dim::velocity()) * 3.0;
    assert_eq!(v.vector, Vector3::new(3.0, 6.0, 9.0));
    assert_eq!(v.unit, dim::velocity());
}

#[test]
fn tensor_times_vector() {
    let mat: TensorQuantity<f64, Matrix3<f64>> =
        TensorQuantity::new(Matrix3::identity(), dim::dimensionless());
    let v = vq(1.0, 2.0, 3.0, dim::meter());
    let r = mat * v;
    assert_eq!(r.vector.x, 1.0);
    assert_eq!(r.unit, dim::meter());
}

#[test]
fn tensor_sub() {
    let t1: TensorQuantity<f64, Matrix2<f64>> =
        TensorQuantity::new(SMatrix::from_element(5.0), dim::dimensionless());
    let t2: TensorQuantity<f64, Matrix2<f64>> =
        TensorQuantity::new(SMatrix::from_element(3.0), dim::dimensionless());
    let c = t1 - t2;
    assert_eq!(c.matrix[(0, 0)], 2.0);
}

#[test]
fn tensor_neg() {
    let t1: TensorQuantity<f64, Matrix2<f64>> =
        TensorQuantity::new(SMatrix::from_element(5.0), dim::dimensionless());
    let neg = -t1;
    assert_eq!(neg.matrix[(0, 0)], -5.0);
}

#[test]
fn tensor_mul_raw() {
    let t1: TensorQuantity<f64, Matrix2<f64>> =
        TensorQuantity::new(SMatrix::from_element(3.0), dim::dimensionless());
    let c = t1 * 2.0;
    assert_eq!(c.matrix[(0, 0)], 6.0);
}

#[test]
fn tensor_mul_tensor() {
    let t1: TensorQuantity<f64, Matrix2<f64>> =
        TensorQuantity::new(Matrix2::identity(), dim::dimensionless());
    let t2: TensorQuantity<f64, Matrix2<f64>> =
        TensorQuantity::new(SMatrix::from_element(7.0), dim::dimensionless());
    let c = t1 * t2;
    assert_eq!(c.matrix[(0, 0)], 7.0);
}

#[test]
fn tensor_into_matrix() {
    let t: TensorQuantity<f64, Matrix2<f64>> =
        TensorQuantity::new(Matrix2::identity(), dim::dimensionless());
    let raw = t.into_matrix();
    assert_eq!(raw[(0, 0)], 1.0);
}

#[test]
fn tensor_units_multiply() {
    let stress: TensorQuantity<f64, Matrix2<f64>> =
        TensorQuantity::new(SMatrix::from_element(2.0), dim::pressure());
    let area: TensorQuantity<f64, Matrix2<f64>> =
        TensorQuantity::new(Matrix2::identity(), dim::area());
    let f = stress * area;
    assert_eq!(f.unit, dim::force());
    assert_eq!(f.unit_name(), Some("N"));
    assert_eq!(stress.unit_name(), Some("Pa"));
    let sum = stress + stress;
    assert_eq!(sum.matrix[(1, 1)], 4.0);
    assert_eq!(sum.unit, dim::pressure());
}

#[test]
fn vector_norm_keeps_unit() {
    let pos = vq(3.0, 4.0, 0.0, dim::meter());
    let n = pos.norm(|v: &Vector3<f64>| v.norm());
    assert_eq!(n.value, 5.0);
    assert_eq!(n.unit, dim::meter());
    let n2 = pos.norm_squared(|v: &Vector3<f64>| v.norm_squared());
    assert_eq!(n2.value, 25.0);
    assert_eq!(n2.unit, dim::area());
}

#[test]
fn vector_normalize_is_dimensionless() {
    let pos = vq(3.0, 4.0, 0.0, dim::meter());
    let dir = pos.normalize(|v: &Vector3<f64>| v.normalize());
    assert!((dir.vector.x - 0.6).abs() < 1e-12);
    assert!((dir.vector.y - 0.8).abs() < 1e-12);
    assert_eq!(dir.unit, dim::dimensionless());
}

#[test]
fn vector_dot_cross_multiply_units() {
    let pos = vq(1.0, 0.0, 0.0, dim::meter());
    let vel = vq(10.0, 0.0, 0.0, dim::velocity());
    let d = pos.dot(&vel, |a: &Vector3<f64>, b: &Vector3<f64>| a.dot(b));
    assert_eq!(d.value, 10.0);
    assert_eq!(d.unit, dim::area() / dim::second());
    let x = vq(1.0, 0.0, 0.0, dim::meter());
    let y = vq(0.0, 1.0, 0.0, dim::meter());
    let z = x.cross(&y, |a: &Vector3<f64>, b: &Vector3<f64>| a.cross(b));
    assert_eq!(z.vector.z, 1.0);
    assert_eq!(z.unit, dim::area());
}

#[test]
fn vector_and_tensor_defaults_are_zero() {
    let v: Vec3 = VectorQuantity::default_in(dim::meter());
    assert_eq!(v.vector, Vector3::zeros());
    assert_eq!(v.unit, dim::meter());
    let t: TensorQuantity<f64, Matrix2<f64>> = TensorQuantity::default_in(dim::pressure());
    assert_eq!(t.matrix[(0, 0)], 0.0);
    assert_eq!(t.unit, dim::pressure());
}

#[test]
fn tensor_transpose_keeps_unit() {
    let mat = TensorQuantity::<f64, SMatrix<f64, 2, 3>>::new(
        SMatrix::<f64, 2, 3>::new(1.0, 2.0, 3.0, 4.0, 5.0, 6.0),
        dim::force(),
    );
    let t = mat.transpose(|m: &SMatrix<f64, 2, 3>| m.transpose());
    assert_eq!(t.matrix[(2, 0)], 3.0);
    assert_eq!(t.unit, dim::force());
}
