use ledmatrix::color::Color;
use ledmatrix::number::Number;

#[test]
fn color_add_saturates() {
    let c = Color::new(250, 3, 0).add(Color::new(10, 3, 255));
    assert_eq!(c, Color::new(255, 6, 255));
}

#[test]
fn color_mul_clamps() {
    let c = Color::new(100, 2, 0).mul(3);
    assert_eq!(c, Color::new(255, 6, 0));
    let n = Color::new(100, 2, 7).mul(-1);
    assert_eq!(n, Color::black());
}

#[test]
fn number_as_index() {
    assert_eq!(Number::from_parts(true, 7, 0).as_usize(), Some(7));
    assert_eq!(Number::from_parts(false, 7, 0).as_usize(), None);
    assert_eq!(Number::from_parts(true, 70, -1).as_usize(), None);
    assert_eq!(Number::from_parts(true, 7, 1).as_usize(), None);
}

#[test]
fn number_as_channel() {
    assert_eq!(Number::from_parts(true, 255, 0).as_u8(), Some(255));
    assert_eq!(Number::from_parts(true, 256, 0).as_u8(), None);
}
