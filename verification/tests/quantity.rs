use metron::dim;
use metron::{Quantity, SiPrefix, Unit, UnitName};

fn meters(v: f64) -> Quantity<f64> {
    Quantity::new(v, dim::meter())
}

fn seconds(v: f64) -> Quantity<f64> {
    Quantity::new(v, dim::second())
}

#[test]
fn scalar_construction() {
    let d = meters(10.0);
    assert_eq!(d.value, 10.0);
    assert_eq!(*d.value(), 10.0);
    assert_eq!(d.into_value(), 10.0);
}

#[test]
fn scalar_add_sub() {
    assert_eq!((meters(3.0) + meters(7.0)).value, 10.0);
    assert_eq!((meters(7.0) - meters(3.0)).value, 4.0);
}

#[test]
fn scalar_mul_div_derives_units() {
    let vel = meters(10.0) / seconds(2.0);
    assert_eq!(vel.value, 5.0);
    assert_eq!(vel.unit, dim::velocity());
    assert_eq!(dim::velocity().name(), Some("m/s"));
}

#[test]
fn scalar_times_raw() {
    let q = meters(3.0) * 2.0;
    assert_eq!(q.value, 6.0);
    assert_eq!(q.unit, dim::meter());
}

#[test]
fn acceleration_chain() {
    let vel = meters(10.0) / seconds(2.0);
    let acc = vel / seconds(5.0);
    assert_eq!(acc.value, 1.0);
    assert_eq!(acc.unit, dim::acceleration());
}

#[test]
fn force_from_mass_x_accel() {
    let mass = Quantity::new(2.0, dim::kilogram());
    let acc = meters(10.0) / (seconds(1.0) * seconds(1.0));
    assert_eq!(acc.unit, dim::acceleration());
    let f = mass * acc;
    assert_eq!(f.value, 20.0);
    assert_eq!(f.unit, dim::force());
    assert_eq!(dim::force().name(), Some("N"));
}

#[test]
fn default_zero() {
    assert!(Quantity::<f64>::default_in(dim::meter()).value == 0.0);
    assert!(Quantity::<f64>::default_in(dim::velocity()).value == 0.0);
    assert_eq!(Quantity::<f64>::default_in(dim::velocity()).unit, dim::velocity());
}

#[test]
fn scalar_neg() {
    let q = -meters(5.0);
    assert_eq!(q.value, -5.0);
    assert_eq!(q.unit, dim::meter());
}

#[test]
fn scalar_sub() {
    assert_eq!((seconds(10.0) - seconds(3.0)).value, 7.0);
}

#[test]
fn scalar_add_assign() {
    let mut val = meters(5.0);
    val.add_assign(meters(3.0));
    assert_eq!(val.value, 8.0);
    assert_eq!(val.unit, dim::meter());
}

#[test]
fn scalar_sub_assign() {
    let mut val = meters(10.0);
    val.sub_assign(meters(4.0));
    assert_eq!(val.value, 6.0);
}

#[test]
fn scalar_div_raw() {
    let q = meters(10.0) / 2.0;
    assert_eq!(q.value, 5.0);
    assert_eq!(q.unit, dim::meter());
}

#[test]
fn scalar_mul_assign_raw() {
    let mut val = meters(3.0);
    val.mul_assign(2.0);
    assert_eq!(val.value, 6.0);
    assert_eq!(val.unit, dim::meter());
}

#[test]
fn scalar_map_preserves_unit() {
    let dist = meters(-5.0);
    let abs_d = dist.map(f64::abs);
    assert_eq!(abs_d.value, 5.0);
    assert_eq!(abs_d.unit, dim::meter());
    assert_eq!(dim::meter().name(), Some("m"));
}

#[test]
fn scalar_deref() {
    let d = meters(10.0);
    assert_eq!(*d, 10.0);
}

#[test]
fn convert_prefix() {
    let meters_q = meters(1000.0);
    assert_eq!(meters_q.value / 10f64.powi(SiPrefix::Kilo.exponent()), 1.0);
    assert_eq!(meters_q.value / 10f64.powi(SiPrefix::NoPrefix.exponent()), 1000.0);
    let same = meters_q.convert_to(SiPrefix::Kilo);
    assert_eq!(same.value, 1000.0);
    assert_eq!(same.unit, dim::meter());
}

#[test]
fn gm_type() {
    let mu = Quantity::new(3.986004415e14, dim::gravitational_parameter());
    assert_eq!(mu.value, 3.986004415e14);
    assert_eq!(dim::gravitational_parameter().name(), Some("m³/s²"));
}

#[test]
fn complex_quantity() {
    let z = Quantity::new(num_complex::Complex::new(3.0, 4.0), dim::meter());
    assert_eq!(z.value.re, 3.0);
    assert_eq!(z.value.im, 4.0);
}

#[test]
fn complex_velocity() {
    let cv = Quantity::new(num_complex::Complex::new(1.0, 2.0), dim::frequency());
    assert_eq!(cv.value.re, 1.0);
    assert_eq!(cv.value.im, 2.0);
}

#[test]
fn prefixed_quantity_types() {
    let km = Quantity::new(1.0, dim::meter());
    let mm = Quantity::new(1.0, dim::meter());
    let ms = Quantity::new(1.0, dim::second());
    let nt = Quantity::new(50.0, dim::magnetic_flux_density());
    let kpa = Quantity::new(101.3, dim::pressure());
    assert_eq!(km.unit, mm.unit);
    assert_eq!(ms.unit, dim::second());
    assert_eq!(nt.value, 50.0);
    assert_eq!(kpa.name(), Some("Pa"));
}

#[test]
fn dimensionless_into_f64() {
    let ratio = Quantity::new(0.5, dim::dimensionless());
    let val: f64 = ratio.into_value();
    assert_eq!(val, 0.5);
}

#[test]
fn dimensionless_ref_into_f64() {
    let ratio = Quantity::new(2.71, dim::dimensionless());
    let val: f64 = *(&ratio).value();
    assert_eq!(val, 2.71);
}

#[test]
fn dimensionless_from_arithmetic() {
    let ratio = meters(10.0) / meters(2.0);
    assert_eq!(ratio.unit, dim::dimensionless());
    let val: f64 = ratio.into_value();
    assert_eq!(val, 5.0);
}

// --- Unit expressions built from one of each base unit ---

fn m() -> Quantity<f64> {
    meters(1.0)
}

fn s() -> Quantity<f64> {
    seconds(1.0)
}

fn kg() -> Quantity<f64> {
    Quantity::new(1.0, dim::kilogram())
}

#[test]
fn si_velocity_from_m_div_s() {
    let vel = Quantity::scalar_mul(5.0, m() / s());
    assert_eq!(vel.value, 5.0);
    assert_eq!(vel.unit, dim::velocity());
}

#[test]
fn si_acceleration() {
    let acc = Quantity::scalar_mul(9.8, m() / s().pow(2, |v: f64| v.powi(2)));
    assert_eq!(acc.value, 9.8);
    assert_eq!(acc.unit, dim::acceleration());
}

#[test]
fn si_area() {
    let area = Quantity::scalar_mul(3.0, m().pow(2, |v: f64| v.powi(2)));
    assert_eq!(area.value, 3.0);
    assert_eq!(area.unit, dim::area());
}

#[test]
fn si_frequency_from_inverse_s() {
    let freq = Quantity::scalar_div(1.0, s());
    assert_eq!(freq.value, 1.0);
    assert_eq!(freq.unit, dim::frequency());
}

#[test]
fn si_force() {
    let f = Quantity::scalar_mul(10.0, kg() * m() / s().pow(2, |v: f64| v.powi(2)));
    assert_eq!(f.value, 10.0);
    assert_eq!(f.unit, dim::force());
}

#[test]
fn si_pressure() {
    let p = Quantity::scalar_mul(101_325.0, kg() / (m() * s().pow(2, |v: f64| v.powi(2))));
    assert_eq!(p.value, 101_325.0);
    assert_eq!(p.unit, dim::pressure());
}

#[test]
fn si_energy() {
    let e = Quantity::scalar_mul(
        4.2,
        kg() * m().pow(2, |v: f64| v.powi(2)) / s().pow(2, |v: f64| v.powi(2)),
    );
    assert_eq!(e.value, 4.2);
    assert_eq!(e.unit, dim::energy());
}

#[test]
fn si_power() {
    let p = Quantity::scalar_mul(
        100.0,
        kg() * m().pow(2, |v: f64| v.powi(2)) / s().pow(3, |v: f64| v.powi(3)),
    );
    assert_eq!(p.value, 100.0);
    assert_eq!(p.unit, dim::power());
}

#[test]
fn si_volume() {
    let vol = Quantity::scalar_mul(2.0, m().pow(3, |v: f64| v.powi(3)));
    assert_eq!(vol.value, 2.0);
    assert_eq!(vol.unit, dim::volume());
}

#[test]
fn si_inverse_meter_wavenumber() {
    let wn = Quantity::scalar_div(1.0, m());
    assert_eq!(wn.value, 1.0);
    assert_eq!(wn.unit, dim::wavenumber());
}

#[test]
fn si_negative_power() {
    let freq = Quantity::scalar_mul(1.0, s().pow(-1, |v: f64| v.powi(-1)));
    assert_eq!(freq.value, 1.0);
    assert_eq!(freq.unit, dim::frequency());
}

// --- Tests of the library's own behaviour ---

#[test]
fn quantity_integer_arithmetic_is_exact() {
    let a = Quantity::new(6i64, dim::meter());
    let b = Quantity::new(3i64, dim::second());
    assert_eq!((a + a).value, 12);
    assert_eq!((a - a).value, 0);
    assert_eq!((a * b).value, 18);
    assert_eq!((a * b).unit, Unit::from_exponents(1, 0, 1, 0, 0, 0, 0));
    assert_eq!((a / b).value, 2);
    assert_eq!((a / b).unit, dim::velocity());
    assert_eq!((a * 5).value, 30);
    assert_eq!((a / 4).value, 1);
    assert_eq!(Quantity::scalar_mul(7, a).value, 42);
    assert_eq!(Quantity::scalar_div(12, a).value, 2);
    assert_eq!(Quantity::scalar_div(12, a).unit, dim::wavenumber());
}

#[test]
fn quantity_sqrt_halves_the_unit() {
    let area = Quantity::new(16.0, dim::area());
    let side = area.sqrt(f64::sqrt);
    assert_eq!(side.value, 4.0);
    assert_eq!(side.unit, dim::meter());
    let v2 = Quantity::new(9.0, dim::velocity().pow(2));
    let v = v2.sqrt(f64::sqrt);
    assert_eq!(v.value, 3.0);
    assert_eq!(v.unit, dim::velocity());
}

#[test]
fn quantity_pow_scales_the_unit() {
    let len = Quantity::new(2.0, dim::meter());
    let vol = len.pow(3, |v: f64| v.powi(3));
    assert_eq!(vol.value, 8.0);
    assert_eq!(vol.unit, dim::volume());
    let one = len.pow(0, |v: f64| v.powi(0));
    assert_eq!(one.value, 1.0);
    assert_eq!(one.unit, dim::dimensionless());
}

#[test]
fn quantity_name_is_unit_name() {
    assert_eq!(Quantity::new(1.0, dim::pressure()).name(), Some("Pa"));
    assert_eq!(Quantity::new(1.0, dim::specific_energy()).name(), None);
}

#[test]
fn checked_add_sub_refuse_unit_mismatch() {
    let a = Quantity::new(5i64, dim::meter());
    let b = Quantity::new(3i64, dim::meter());
    let c = Quantity::new(3i64, dim::second());
    assert_eq!(a.checked_add(b), Some(Quantity::new(8, dim::meter())));
    assert_eq!(a.checked_sub(b), Some(Quantity::new(2, dim::meter())));
    assert_eq!(a.checked_add(c), None);
    assert_eq!(a.checked_sub(c), None);
}

#[test]
fn map_identity_and_composition() {
    let q = Quantity::new(3i64, dim::force());
    assert_eq!(q.map(|x: i64| x), q);
    let f = |x: i64| x + 1;
    let g = |x: i64| x * 10;
    assert_eq!(q.map(f).map(g), q.map(|x: i64| g(f(x))));
}

#[test]
fn add_commutes_and_neg_inverts() {
    let a = Quantity::new(4i64, dim::velocity());
    let b = Quantity::new(-9i64, dim::velocity());
    assert_eq!(a + b, b + a);
    assert_eq!((a + b).value, -5);
    assert_eq!(-(-a), a);
    assert_eq!((a + (-a)).value, 0);
    assert_eq!((a + (-a)).unit, dim::velocity());
}
