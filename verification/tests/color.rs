use actiona::color::{Color, JsColor, JsColorLike};
use actiona::named_colors::named_colors;
use image::Rgba;

fn named(name: &str) -> JsColor {
    let colors = named_colors();
    let (_, color) = colors.iter().find(|(n, _)| n == name).unwrap();
    JsColor::from(*color)
}

#[test]
fn test_color_rust_methods() {
    let mut color = JsColor::new(1, 2, 3, 4);

    assert_eq!(color.get_r(), 1);
    assert_eq!(color.get_g(), 2);
    assert_eq!(color.get_b(), 3);
    assert_eq!(color.get_a(), 4);

    color.set_r(5);
    color.set_g(6);
    color.set_b(7);
    color.set_a(8);

    assert!(color.equals(JsColor::new(5, 6, 7, 8)));
    assert_eq!(color.to_string_js(), "(5, 6, 7, 8)");
    assert_eq!(color.clone_js(), color);
}

#[test]
fn test_color_conversions() {
    let color = Color::new(9, 8, 7, 6);
    let js_color = JsColor::from(color);
    assert_eq!(js_color, JsColor::new(9, 8, 7, 6));
    assert_eq!(Color::from(js_color), color);

    let rgba = Rgba([10, 20, 30, 40]);
    let js_color = JsColor::from(rgba);
    assert_eq!(Rgba::<u8>::from(js_color), rgba);
    assert_eq!(Color::from(js_color), Color::new(10, 20, 30, 40));
}

#[test]
fn color_text_of_extremes() {
    assert_eq!(JsColor::new(0, 0, 0, 0).to_string_js(), "(0, 0, 0, 0)");
    assert_eq!(JsColor::new(255, 10, 11, 12).to_string_js(), "(255, 10, 11, 12)");
    assert!(!JsColor::new(255, 10, 11, 12).equals(JsColor::new(255, 0, 0, 255)));
}

#[test]
fn new_js_takes_color_like() {
    let c = JsColor::new_js(JsColorLike(Color::new(8, 9, 10, 255)));
    assert_eq!(c, JsColor::new(8, 9, 10, 255));
}

#[test]
fn test_color_constants() {
    let color = named("Red");
    assert_eq!(color, JsColor::new(255, 0, 0, 255));

    let color = named("Transparent");
    assert_eq!(color, JsColor::new(0, 0, 0, 0));
}

#[test]
fn test_color_alias_constants() {
    assert!(named("Aqua").equals(named("Cyan")));
    assert!(named("Fuchsia").equals(named("Magenta")));
}

#[test]
fn test_color_js_attributes_and_methods() {
    let mut c = named("Red").clone_js();
    c.set_g(10);
    c.set_b(11);
    c.set_a(12);
    assert_eq!(c.get_r(), 255);
    assert_eq!(c.get_g(), 10);
    assert_eq!(c.get_b(), 11);
    assert_eq!(c.get_a(), 12);
    assert!(!c.equals(named("Red")));
    assert_eq!(c.to_string_js(), "(255, 10, 11, 12)");
    assert!(c.clone_js().equals(c));
}

#[test]
fn channels_default_to_opaque() {
    assert_eq!(JsColorLike::from_channels(1, 2, 3, None).0, Color::new(1, 2, 3, 255));
    assert_eq!(JsColorLike::from_channels(1, 2, 3, Some(4)).0, Color::new(1, 2, 3, 4));
    assert_eq!(JsColorLike::from_js_color(JsColor::new(5, 6, 7, 8)).0, Color::new(5, 6, 7, 8));
}
