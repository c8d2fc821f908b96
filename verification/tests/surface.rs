use pixel_loop::{BufferSurface, Color, DrawingSurface};

#[test]
fn new_surface_is_transparent_black() {
    let s = BufferSurface::new(4, 4);
    assert_eq!(s.width(), 4);
    assert_eq!(s.height(), 4);
    for y in 0..4 {
        for x in 0..4 {
            assert_eq!(s.get(x, y), Color::from_rgba(0, 0, 0, 0));
        }
    }
}

#[test]
fn clear_screen_sets_every_pixel() {
    let mut s = BufferSurface::new(4, 4);
    let c = Color::from_rgb(10, 20, 30);
    s.clear_screen(&c);
    for y in 0..4 {
        for x in 0..4 {
            assert_eq!(s.get(x, y), c);
        }
    }
}

#[test]
fn filled_rect_changes_exactly_the_rectangle() {
    let mut s = BufferSurface::new(4, 4);
    let base = Color::from_rgb(1, 1, 1);
    s.clear_screen(&base);
    let c = Color::from_rgb(200, 100, 50);
    s.filled_rect(1, 1, 2, 2, &c);
    for y in 0..4u32 {
        for x in 0..4u32 {
            let inside = (1..3).contains(&x) && (1..3).contains(&y);
            if inside {
                assert_eq!(s.get(x, y), c, "pixel ({x},{y}) should be filled");
            } else {
                assert_eq!(s.get(x, y), base, "pixel ({x},{y}) should keep its prior value");
            }
        }
    }
}

#[test]
fn filled_rect_does_not_bleed_into_the_next_row() {
    let mut s = BufferSurface::new(5, 3);
    let base = Color::from_rgb(0, 0, 0);
    s.clear_screen(&base);
    let c = Color::from_rgb(255, 0, 0);
    s.filled_rect(3, 0, 2, 2, &c);
    assert_eq!(s.get(4, 0), c);
    assert_eq!(s.get(0, 1), base, "the write must stop at the row boundary");
    assert_eq!(s.get(2, 1), base);
    assert_eq!(s.get(4, 1), c);
    assert_eq!(s.get(0, 2), base);
}

#[test]
fn in_bounds_maps_inside_and_rejects_outside() {
    let s = BufferSurface::new(4, 4);
    assert_eq!(s.in_bounds(-1, 0), None);
    assert_eq!(s.in_bounds(3, 3), Some((3, 3)));
    assert_eq!(s.in_bounds(4, 0), None);
    assert_eq!(s.in_bounds(0, 4), None);
    assert_eq!(s.in_bounds(0, 0), Some((0, 0)));
    assert_eq!(s.in_bounds(0, -1), None);
}

#[test]
fn set_then_get_round_trips() {
    let mut s = BufferSurface::new(4, 4);
    let c = Color::from_rgba(5, 6, 7, 8);
    s.set(2, 1, &c);
    assert_eq!(s.get(2, 1), c);
    assert_eq!(s.get(1, 2), Color::from_rgba(0, 0, 0, 0));
}

#[test]
fn set_range_writes_the_half_open_linear_range() {
    let mut s = BufferSurface::new(4, 4);
    let c = Color::from_rgb(9, 9, 9);
    s.set_range(4..6, &c);
    // Linear indices 4 and 5 are pixels (0, 1) and (1, 1).
    assert_eq!(s.get(0, 1), c);
    assert_eq!(s.get(1, 1), c);
    assert_eq!(s.get(3, 0), Color::from_rgba(0, 0, 0, 0));
    assert_eq!(s.get(2, 1), Color::from_rgba(0, 0, 0, 0));
}

#[test]
fn blit_succeeds_and_keeps_the_buffer() {
    let mut s = BufferSurface::new(2, 2);
    let c = Color::from_rgb(3, 2, 1);
    s.set(1, 1, &c);
    assert_eq!(s.blit(), Ok(()));
    assert_eq!(s.get(1, 1), c);
}

#[test]
fn frame_bytes_lays_pixels_out_row_major_four_bytes_each() {
    let mut s = BufferSurface::new(3, 2);
    let c = Color::from_rgba(10, 11, 12, 13);
    s.set(1, 1, &c);
    let bytes = s.frame_bytes();
    assert_eq!(bytes.len(), 3 * 2 * 4);
    // Pixel (1, 1) has linear index 1 * 3 + 1 == 4, so byte offset 16.
    assert_eq!(&bytes[16..20], &[10, 11, 12, 13]);
    assert_eq!(&bytes[0..4], &[0, 0, 0, 0]);
}
