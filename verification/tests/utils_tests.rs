use tracer::Compare;

fn fx(v: f64) -> i128 {
    (v * 268435456.0).round() as i128
}

#[test]
fn float_compare_equal1() {
    let a: i128 = fx(3.3);
    let b: i128 = fx(3.3);
    assert!(a.eq(b));
}

#[test]
fn float_compare_equal2() {
    let a: i128 = fx(0.0);
    let b: i128 = fx(0.000005);
    assert!(a.eq(b));
}

#[test]
fn float_compare_not_equal1() {
    let a: i128 = fx(3.3);
    let b: i128 = fx(3.2);
    assert!(a.neq(b));
}

#[test]
fn float_compare_not_equal2() {
    let a: i128 = fx(3.3);
    let b: i128 = fx(3.2);
    assert!(a.neq(b));
}

#[test]
fn compare_is_symmetric_near_tolerance() {
    let a: i128 = fx(1.0);
    let b: i128 = a + tracer::EPSILON - 1;
    assert!(a.eq(b));
    assert!(b.eq(a));
    let c: i128 = a + tracer::EPSILON;
    assert!(a.neq(c));
}
