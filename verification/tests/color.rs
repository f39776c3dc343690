use vse2d::Color;

#[test]
fn default_is_opaque_white() {
    let c = Color::default();
    assert_eq!((c.r, c.g, c.b, c.a), (255, 255, 255, 255));
}

#[test]
fn rgb_keeps_channels_and_opaque_alpha() {
    let c = Color::rgb(12, 34, 56);
    assert_eq!((c.r, c.g, c.b, c.a), (12, 34, 56, 255));
}

#[test]
fn from_hex_rgb_form() {
    let c = Color::from_hex(0x001111);
    assert_eq!((c.r, c.g, c.b, c.a), (0x00, 0x11, 0x11, 255));
    let red = Color::from_hex(0xff0000);
    assert_eq!((red.r, red.g, red.b, red.a), (255, 0, 0, 255));
}

#[test]
fn from_hex_rgba_form() {
    let c = Color::from_hex(0x11223344);
    assert_eq!((c.r, c.g, c.b, c.a), (0x11, 0x22, 0x33, 0x44));
}

#[test]
fn from_hex_boundary_between_forms() {
    let high_rgb = Color::from_hex(0xffffff);
    assert_eq!((high_rgb.r, high_rgb.g, high_rgb.b, high_rgb.a), (255, 255, 255, 255));
    let low_rgba = Color::from_hex(0x01000000);
    assert_eq!((low_rgba.r, low_rgba.g, low_rgba.b, low_rgba.a), (1, 0, 0, 0));
}

#[test]
fn to_array_orders_channels() {
    let c = Color::rgb(1, 2, 3);
    assert_eq!(c.to_array(), [1, 2, 3, 255]);
}
