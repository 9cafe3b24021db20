use img::{
    Gray, Gray16U, Gray32U, GrayVal, GrayVal16U, GrayVal32U, Pixel, PixelArithmetic, PixelVal,
    ScalarVal,
};

#[test]
fn test_arithmetic() {
    let pixel_a = GrayVal::new(ScalarVal(1u8));
    let mut pixel_b = pixel_a.add_scalar(ScalarVal(1u8));
    pixel_b.mul_assign_scalar(ScalarVal(1u8));
    pixel_b.add_assign(pixel_a);
    assert_eq!(pixel_b.intensity(), ScalarVal(3));
}

#[test]
fn test_raw_buffer_funcs() {
    let mut buffer = [0u8, 1, 0, 0];
    let mut pixel = GrayVal::<u8>::load_from_raw_buffer(1, 0, 4, &buffer);
    assert_eq!(pixel.intensity(), ScalarVal(1));

    pixel.add_assign_scalar(ScalarVal(1));
    pixel.write_into_raw_buffer(2, 0, 4, &mut buffer);
    assert_eq!(buffer, [0, 1, 2, 0]);
}

#[test]
fn pixel_operators_all_shapes() {
    let a = GrayVal::new(ScalarVal(21u8));
    let b = GrayVal::new(ScalarVal(2u8));
    assert_eq!(a.mul(b).intensity(), ScalarVal(42));
    assert_eq!(a.add(b).intensity(), ScalarVal(23));
    assert_eq!(a.sub(b).intensity(), ScalarVal(19));
    assert_eq!(a.div(b).intensity(), ScalarVal(10));
    assert_eq!(a.div_scalar(ScalarVal(4)).intensity(), ScalarVal(5));
    assert_eq!(a.sub_scalar(ScalarVal(1)).intensity(), ScalarVal(20));
    assert_eq!(PixelVal::scalar_sub(ScalarVal(30u8), a).intensity(), ScalarVal(9));
    assert_eq!(PixelVal::scalar_div(ScalarVal(84u8), a).intensity(), ScalarVal(4));
    assert_eq!(PixelVal::scalar_add(ScalarVal(4u8), a).intensity(), ScalarVal(25));
    assert_eq!(PixelVal::scalar_mul(ScalarVal(3u8), a).intensity(), ScalarVal(63));
}

#[test]
fn pixel_arithmetic_wraps() {
    let a = GrayVal::new(ScalarVal(200u8));
    assert_eq!(a.add_scalar(ScalarVal(100)).intensity(), ScalarVal(44));
    assert_eq!(a.mul_scalar(ScalarVal(2)).intensity(), ScalarVal(144));
    assert_eq!(PixelVal::scalar_sub(ScalarVal(0u8), a).intensity(), ScalarVal(56));
    let c = GrayVal16U::new(ScalarVal(65535));
    assert_eq!(c.add_scalar(ScalarVal(2)).intensity(), ScalarVal(1));
    let d = GrayVal32U::new(ScalarVal(0));
    assert_eq!(d.sub_scalar(ScalarVal(1)).intensity(), ScalarVal(u32::MAX));
}

#[test]
fn pixel_assign_operators() {
    let mut p = GrayVal::new(ScalarVal(12u8));
    p.sub_assign(GrayVal::new(ScalarVal(2u8)));
    assert_eq!(p.intensity(), ScalarVal(10));
    p.div_assign_scalar(ScalarVal(3));
    assert_eq!(p.intensity(), ScalarVal(3));
    p.mul_assign(GrayVal::new(ScalarVal(5u8)));
    assert_eq!(p.intensity(), ScalarVal(15));
    p.set_intensity(ScalarVal(7));
    assert_eq!(p.intensity(), ScalarVal(7));
}

#[test]
fn gray_trait_ops() {
    let a = Gray { intensity: 9u16 };
    assert_eq!(a.sub_sc_px(10).intensity, 1);
    assert_eq!(a.div_px_sc(2).intensity, 4);
    assert_eq!(a.mul_px_px(a).intensity, 81);
}

#[test]
fn multi_byte_samples_are_little_endian() {
    let mut buffer = [0u8; 8];
    GrayVal16U::new(ScalarVal(0x0102)).write_into_raw_buffer(1, 0, 8, &mut buffer);
    assert_eq!(buffer, [0, 0, 2, 1, 0, 0, 0, 0]);
    GrayVal32U::new(ScalarVal(0x0A0B0C0D)).write_into_raw_buffer(1, 0, 8, &mut buffer);
    assert_eq!(buffer, [0, 0, 2, 1, 0x0D, 0x0C, 0x0B, 0x0A]);
    assert_eq!(Gray32U::load_from_raw_buffer(1, 0, 8, &buffer).intensity, 0x0A0B0C0D);
    assert_eq!(Gray16U::load_from_raw_buffer(0, 1, 2, &buffer).intensity, 0x0102);
    assert_eq!(Gray16U::calc_minimum_pitch(10, 1), 20);
    assert_eq!(Gray32U::calc_minimum_pitch(10, 1), 40);
}
