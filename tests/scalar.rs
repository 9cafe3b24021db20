use img::ScalarVal;

#[test]
fn mod_test_arithmetic() {
    let a = ScalarVal(1u8);
    let b = ScalarVal(1u8);
    assert_eq!(a.add(b), ScalarVal(2));

    let mut d = a;
    d.add_assign(a);
    assert_eq!(d, ScalarVal(2));

    assert!(a == b);
}

#[test]
fn scalar_operators() {
    let a = ScalarVal(21u8);
    let b = ScalarVal(2u8);
    assert_eq!(a.mul(b), ScalarVal(42));
    assert_eq!(a.div(b), ScalarVal(10));
    assert_eq!(b.sub(a), ScalarVal(237));
    let mut c = ScalarVal(1000u16);
    c.mul_assign(ScalarVal(100));
    assert_eq!(c, ScalarVal(34464));
    c.div_assign(ScalarVal(4));
    assert_eq!(c, ScalarVal(8616));
    c.sub_assign(ScalarVal(8617));
    assert_eq!(c, ScalarVal(65535));
}
