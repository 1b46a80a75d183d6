use metron::SiPrefix;

#[test]
fn si_prefix_display() {
    assert_eq!(SiPrefix::Kilo.to_string(), "k");
    assert_eq!(SiPrefix::Milli.to_string(), "m");
    assert_eq!(SiPrefix::NoPrefix.to_string(), "");
    assert_eq!(SiPrefix::Micro.to_string(), "µ");
    assert_eq!(SiPrefix::Mega.to_string(), "M");
}

const ALL: [SiPrefix; 21] = [
    SiPrefix::Yocto,
    SiPrefix::Zepto,
    SiPrefix::Atto,
    SiPrefix::Femto,
    SiPrefix::Pico,
    SiPrefix::Nano,
    SiPrefix::Micro,
    SiPrefix::Milli,
    SiPrefix::Centi,
    SiPrefix::Deci,
    SiPrefix::NoPrefix,
    SiPrefix::Deca,
    SiPrefix::Hecto,
    SiPrefix::Kilo,
    SiPrefix::Mega,
    SiPrefix::Giga,
    SiPrefix::Tera,
    SiPrefix::Peta,
    SiPrefix::Exa,
    SiPrefix::Zetta,
    SiPrefix::Yotta,
];

fn close(a: f64, b: f64) -> bool {
    ((a - b) / b).abs() < 1e-12
}

#[test]
fn si_prefix_scale() {
    assert!(close(10f64.powi(SiPrefix::Kilo.exponent()), 1.0e3));
    assert!(close(10f64.powi(SiPrefix::Milli.exponent()), 1.0e-3));
    assert!(close(10f64.powi(SiPrefix::NoPrefix.exponent()), 1.0));
    assert!(close(10f64.powi(SiPrefix::Yocto.exponent()), 1.0e-24));
    assert!(close(10f64.powi(SiPrefix::Yotta.exponent()), 1.0e24));
}

#[test]
fn si_prefix_exponents() {
    assert_eq!(SiPrefix::Kilo.exponent(), 3);
    assert_eq!(SiPrefix::Milli.exponent(), -3);
    assert_eq!(SiPrefix::NoPrefix.exponent(), 0);
    assert_eq!(SiPrefix::Yocto.exponent(), -24);
    assert_eq!(SiPrefix::Yotta.exponent(), 24);
    assert_eq!(SiPrefix::Centi.exponent(), -2);
    assert_eq!(SiPrefix::Deca.exponent(), 1);
}

#[test]
fn si_prefix_default_is_no_prefix() {
    assert_eq!(SiPrefix::default(), SiPrefix::NoPrefix);
    assert_eq!(SiPrefix::default().exponent(), 0);
}

#[test]
fn si_prefix_order_is_scale_order() {
    for i in 0..ALL.len() {
        for j in 0..ALL.len() {
            assert_eq!(ALL[i] < ALL[j], ALL[i].exponent() < ALL[j].exponent());
        }
    }
}

#[test]
fn si_prefix_symbols_are_distinct() {
    for i in 0..ALL.len() {
        for j in 0..ALL.len() {
            assert_eq!(ALL[i].symbol() == ALL[j].symbol(), i == j);
        }
    }
    assert_eq!(SiPrefix::Deca.symbol(), "da");
    assert_eq!(SiPrefix::Deci.symbol(), "d");
}
