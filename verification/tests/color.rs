use pixel_loop::Color;

#[test]
fn from_rgba_stores_components_in_declared_order() {
    let c = Color::from_rgba(1, 2, 3, 4);
    assert_eq!(c.r, 1);
    assert_eq!(c.g, 2);
    assert_eq!(c.b, 3);
    assert_eq!(c.a, 4);
}

#[test]
fn from_rgb_is_fully_opaque() {
    let c = Color::from_rgb(10, 20, 30);
    assert_eq!(c, Color::from_rgba(10, 20, 30, 255));
}

#[test]
fn from_bytes_reads_storage_order() {
    let bytes = [9u8, 8, 7, 6];
    let c = Color::from_bytes(&bytes);
    assert_eq!(c, Color::from_rgba(9, 8, 7, 6));
}

#[test]
fn as_bytes_round_trips() {
    let c = Color::from_rgba(11, 22, 33, 44);
    let bytes = c.as_bytes();
    assert_eq!(bytes, [11, 22, 33, 44]);
    assert_eq!(Color::from_bytes(&bytes), c);
}
