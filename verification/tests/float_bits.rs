use lau_protocol::F64Bits;

fn b(x: f64) -> F64Bits {
    F64Bits(x.to_bits())
}

#[test]
fn float_bits_equality_is_f64_equality() {
    let values = [0.0, -0.0, 1.0, -1.5, f64::INFINITY, f64::NEG_INFINITY, f64::NAN, f64::MIN_POSITIVE, 3.25e300];
    for x in values {
        for y in values {
            assert_eq!(b(x) == b(y), x == y, "{} == {}", x, y);
        }
    }
    // A NaN with another payload is still not equal to itself.
    let odd_nan = F64Bits(0xfff8_0000_0000_0001);
    assert!(odd_nan != odd_nan);
}
