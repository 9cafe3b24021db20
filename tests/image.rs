use img::{
    Gray16U, Gray32U, Gray8U, GrayVal8U, Image, ImageBufferVal, Operand, Pixel, PixelVal, ScalarVal,
};

fn filled_2x2() -> ImageBufferVal<Gray8U> {
    let mut img = ImageBufferVal::<Gray8U>::new_with_size(2, 2);
    for y in 0..2 {
        for x in 0..2 {
            let linear_idx = (y * 2 + x) as u8;
            img.set_pixel(x, y, GrayVal8U::new(ScalarVal(linear_idx)));
        }
    }
    img
}

fn raw(img: &ImageBufferVal<Gray8U>) -> Vec<u8> {
    let mut buffer = vec![0u8; img.get_size_in_bytes()];
    img.write_into_raw_buffer(&mut buffer);
    buffer
}

#[test]
fn test_image_buffer() {
    let mut img = ImageBufferVal::<Gray8U>::new_with_size(2, 2);
    println!("{:?}", img.get_pixel(1, 1));

    assert_eq!(img.get_pixel(1, 1).unwrap(), GrayVal8U::new(ScalarVal(0)));
    for y in 0..2 {
        for x in 0..2 {
            let linear_idx = (y * 2 + x) as u8;
            img.set_pixel(x, y, GrayVal8U::new(ScalarVal(linear_idx)));
        }
    }
    let mut raw_buffer = [0u8; 4];
    img.write_into_raw_buffer(&mut raw_buffer);
    assert_eq!(raw_buffer, [0u8, 1, 2, 3]);
}

#[test]
fn square_of_image_by_itself() {
    let img = filled_2x2();
    let squared = img.mul(&img);
    assert_eq!(raw(&squared), vec![0u8, 1, 4, 9]);
    assert_eq!(squared.get_pixel(1, 1).unwrap(), GrayVal8U::new(ScalarVal(9)));
}

#[test]
fn explicit_pitch_below_minimum_is_rejected() {
    assert_eq!(Gray16U::calc_minimum_pitch(10, 1), 20);
    assert_eq!(PixelVal::<Gray16U>::calc_size_in_bytes(10, 1, 5), None);
    assert_eq!(PixelVal::<Gray16U>::calc_size_in_bytes(10, 1, 19), None);
    assert_eq!(PixelVal::<Gray16U>::calc_size_in_bytes(10, 1, 20), Some(20));
}

#[test]
fn size_at_minimum_pitch_is_pitch_times_height() {
    let m = Gray32U::calc_minimum_pitch(3, 2);
    assert_eq!(m, 12);
    assert_eq!(Gray32U::calc_size_in_bytes(3, 2, m as u32), Some(24));
    assert_eq!(Gray32U::calc_size_in_bytes(3, 2, 16), Some(32));
    assert_eq!(Gray32U::calc_size_in_bytes(3, 2, 11), None);
    assert_eq!(Gray8U::calc_size_in_bytes(0, 0, 0), Some(0));
}

#[test]
fn new_image_has_geometry_and_zero_bytes() {
    let img = ImageBufferVal::<Gray16U>::new_with_size_and_pitch(3, 2, 8);
    assert_eq!(img.width(), 3);
    assert_eq!(img.height(), 2);
    assert_eq!(img.pitch(), 8);
    assert_eq!(img.get_size_in_bytes(), 16);
    let mut buffer = vec![7u8; 16];
    img.write_into_raw_buffer(&mut buffer);
    assert_eq!(buffer, vec![0u8; 16]);
    let tight = ImageBufferVal::<Gray16U>::new_with_size(3, 2);
    assert_eq!(tight.pitch(), 6);
    assert_eq!(tight.get_size_in_bytes(), 12);
}

#[test]
fn out_of_bounds_get_pixel_gives_none() {
    let img = filled_2x2();
    assert_eq!(img.get_pixel(2, 0), None);
    assert_eq!(img.get_pixel(0, 2), None);
    assert_eq!(img.get_pixel(5, 5), None);
    // in bounds on one axis only: both coordinates must be in range
    assert_eq!(img.get_pixel(1, 5), None);
    assert_eq!(img.get_pixel(5, 1), None);
    assert_eq!(img.get_pixel(1, 0).unwrap(), GrayVal8U::new(ScalarVal(1)));
}

#[test]
fn set_then_get_round_trip_keeps_other_pixels() {
    let mut img = ImageBufferVal::<Gray16U>::new_with_size_and_pitch(3, 2, 7);
    img.set_pixel(2, 1, PixelVal::new(ScalarVal(0xBEEFu16)));
    img.set_pixel(0, 1, PixelVal::new(ScalarVal(513u16)));
    assert_eq!(img.get_pixel(2, 1).unwrap(), PixelVal::new(ScalarVal(0xBEEFu16)));
    assert_eq!(img.get_pixel(0, 1).unwrap(), PixelVal::new(ScalarVal(513u16)));
    assert_eq!(img.get_pixel(1, 1).unwrap(), PixelVal::new(ScalarVal(0u16)));
    let mut buffer = vec![0u8; 14];
    img.write_into_raw_buffer(&mut buffer);
    assert_eq!(buffer, vec![0, 0, 0, 0, 0, 0, 0, 1, 2, 0, 0, 0xEF, 0xBE, 0]);
}

#[test]
fn load_then_write_round_trip() {
    let mut img = ImageBufferVal::<Gray8U>::new_with_size_and_pitch(2, 2, 3);
    let b = [9u8, 8, 7, 6, 5, 4];
    img.load_from_raw_buffer(&b);
    let mut b2 = [0u8; 6];
    img.write_into_raw_buffer(&mut b2);
    assert_eq!(b2, b);
    assert_eq!(img.get_pixel(1, 1).unwrap(), GrayVal8U::new(ScalarVal(5)));
    assert_eq!(img.get_pixel(0, 1).unwrap(), GrayVal8U::new(ScalarVal(6)));
}

#[test]
fn image_with_image_each_operator() {
    let a = filled_2x2();
    let mut b = ImageBufferVal::<Gray8U>::new_with_size(2, 2);
    for y in 0..2 {
        for x in 0..2 {
            b.set_pixel(x, y, GrayVal8U::new(ScalarVal(2)));
        }
    }
    assert_eq!(raw(&a.add(&b)), vec![2u8, 3, 4, 5]);
    assert_eq!(raw(&a.sub(&b)), vec![254u8, 255, 0, 1]);
    assert_eq!(raw(&a.mul(&b)), vec![0u8, 2, 4, 6]);
    assert_eq!(raw(&a.div(&b)), vec![0u8, 0, 1, 1]);
}

#[test]
fn image_with_pixel_and_scalar_each_shape() {
    let a = filled_2x2();
    let p = GrayVal8U::new(ScalarVal(10));
    assert_eq!(raw(&a.add_value(Operand::Pixel(p.0))), vec![10u8, 11, 12, 13]);
    assert_eq!(raw(&a.sub_value(Operand::PixelLeft(p.0))), vec![10u8, 9, 8, 7]);
    assert_eq!(raw(&a.mul_value(Operand::Scalar(3))), vec![0u8, 3, 6, 9]);
    let c = a.add_value(Operand::Scalar(1));
    assert_eq!(raw(&c.div_value(Operand::ScalarLeft(12))), vec![12u8, 6, 4, 3]);
    assert_eq!(raw(&c.div_value(Operand::Scalar(2))), vec![0u8, 1, 1, 2]);
}

#[test]
fn compound_assign_matches_allocating_form() {
    let a = filled_2x2();
    let b = a.add_value(Operand::Scalar(5));
    let fresh = a.mul(&b);
    let mut updated = a.clone();
    updated.mul_assign(&b);
    assert_eq!(raw(&updated), raw(&fresh));
    assert_eq!(raw(&updated), vec![0u8, 6, 14, 24]);

    let fresh = a.sub_value(Operand::Scalar(1));
    let mut updated = a.clone();
    updated.sub_assign_value(Operand::Scalar(1));
    assert_eq!(raw(&updated), raw(&fresh));
    assert_eq!(raw(&updated), vec![255u8, 0, 1, 2]);
}

#[test]
fn in_place_keeps_padding_pitch() {
    let mut a = ImageBufferVal::<Gray8U>::new_with_size_and_pitch(2, 1, 4);
    a.load_from_raw_buffer(&[1u8, 2, 3, 4]);
    let mut b = ImageBufferVal::<Gray8U>::new_with_size_and_pitch(2, 1, 2);
    b.load_from_raw_buffer(&[10u8, 20]);
    a.add_assign(&b);
    assert_eq!(a.pitch(), 4);
    assert_eq!(a.get_pixel(0, 0).unwrap(), GrayVal8U::new(ScalarVal(11)));
    assert_eq!(a.get_pixel(1, 0).unwrap(), GrayVal8U::new(ScalarVal(22)));
    let fresh = a.add(&b);
    assert_eq!(fresh.pitch(), 2);
    assert_eq!(raw(&fresh), vec![21u8, 42]);
}

#[test]
fn image_trait_on_buffer() {
    let img = filled_2x2();
    let inner = &img.0;
    assert_eq!(Image::width(inner), 2);
    assert_eq!(Image::get_pixel(inner, 1, 0).map(|p| p.intensity), Some(1u8));
    assert_eq!(Image::get_pixel(inner, 1, 2).map(|p| p.intensity), None);
}
