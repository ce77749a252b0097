use max_express_bot::price::{estimate, Measure, Pricing};
use max_express_bot::render::price_message;

fn m(text: &str) -> Measure {
    Measure::parse(text).expect("a measurement")
}

#[test]
fn parses_whole_and_decimal_measurements() {
    assert_eq!(Measure::parse("50"), Some(Measure { milli: 50_000 }));
    assert_eq!(Measure::parse("0.5"), Some(Measure { milli: 500 }));
    assert_eq!(Measure::parse(".25"), Some(Measure { milli: 250 }));
    assert_eq!(Measure::parse("7."), Some(Measure { milli: 7_000 }));
    assert_eq!(Measure::parse("12.345"), Some(Measure { milli: 12_345 }));
    assert_eq!(Measure::parse("0"), Some(Measure { milli: 0 }));
    assert_eq!(Measure::parse("123456789"), Some(Measure { milli: 123_456_789_000 }));
}

#[test]
fn rejects_non_numeric_measurements() {
    for text in ["", ".", "abc", "1.2.3", "-5", "+5", "1,5", "1.2345", "1234567890", " 5", "5 ", "1e3"] {
        assert_eq!(Measure::parse(text), None, "{text:?}");
    }
}

#[test]
fn estimate_dense_box() {
    let e = estimate(m("50"), m("40"), m("30"), m("80"));
    assert_eq!(e.density_tenths, 13_333);
    assert_eq!(e.pricing, Pricing::ByWeight);
    assert_eq!(
        price_message(&e),
        "Плотность составляет: 1333.3 кг/м3.\nЦена товара высчитывается по весу"
    );
}

#[test]
fn estimate_small_heavy_box() {
    let e = estimate(m("10"), m("10"), m("10"), m("0.5"));
    assert_eq!(e.density_tenths, 5_000);
    assert_eq!(e.pricing, Pricing::ByWeight);
}

#[test]
fn estimate_light_bulky_box() {
    let e = estimate(m("100"), m("100"), m("100"), m("50"));
    assert_eq!(e.density_tenths, 500);
    assert_eq!(e.pricing, Pricing::ByDensity);
    assert_eq!(
        price_message(&e),
        "Плотность составляет: 50.0 кг/м3.\nЦена товара высчитывается по плотности"
    );
}

#[test]
fn density_of_exactly_100_is_priced_by_weight() {
    let e = estimate(m("100"), m("100"), m("100"), m("100"));
    assert_eq!(e.density_tenths, 1_000);
    assert_eq!(e.pricing, Pricing::ByWeight);
}

#[test]
fn density_just_below_100_is_priced_by_density() {
    let e = estimate(m("100"), m("100"), m("100"), m("99.999"));
    assert_eq!(e.density_tenths, 999);
    assert_eq!(e.pricing, Pricing::ByDensity);
}

#[test]
fn estimate_largest_box() {
    let big = m("999999999.999");
    let e = estimate(big, big, big, m("0.001"));
    assert_eq!(e.density_tenths, 0);
    assert_eq!(e.pricing, Pricing::ByDensity);
}
