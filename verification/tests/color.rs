use nidhogg::types::{FillExt, LeftEye, Rgb, RgbU8};

#[test]
fn types_test_color_new() {
    let color = Rgb::new(0.5, 0.5, 0.5);
    assert_eq!(color.red, 0.5);
    assert_eq!(color.green, 0.5);
    assert_eq!(color.blue, 0.5);
}

#[test]
fn mod_test_color_new() {
    let color = Rgb::<f32>::new(0.5, 0.5, 0.5);
    assert_eq!(color.red, 0.5);
    assert_eq!(color.green, 0.5);
    assert_eq!(color.blue, 0.5);
}

#[test]
fn mod_test_color_new_u8() {
    let color = RgbU8::new(255, 255, 255);
    assert_eq!(color.red, 255);
    assert_eq!(color.green, 255);
    assert_eq!(color.blue, 255);
}

#[test]
fn mod_test_color_new_int() {
    let color = RgbU8::from(0xFFFFFF);
    assert_eq!(color.red, 255);
    assert_eq!(color.green, 255);
    assert_eq!(color.blue, 255);
}

#[test]
fn types_test_color_fill() {
    let color = LeftEye::fill(Rgb::new(0.5, 0.5, 0.5));
    assert_eq!(color.color_0_deg.red, 0.5);
    assert_eq!(color.color_0_deg.green, 0.5);
    assert_eq!(color.color_0_deg.blue, 0.5);
}

#[test]
fn mod_test_color_fill() {
    let color = LeftEye::fill(Rgb::<f32>::new(0.5, 0.5, 0.5));
    assert_eq!(color.color_0_deg.red, 0.5);
    assert_eq!(color.color_0_deg.green, 0.5);
    assert_eq!(color.color_0_deg.blue, 0.5);
}
