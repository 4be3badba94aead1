use skia::Color;

#[test]
fn color_round_trips_boundary_channels() {
    let vals = [0u8, 255u8];
    for &a in vals.iter() {
        for &r in vals.iter() {
            for &g in vals.iter() {
                for &b in vals.iter() {
                    let c = Color::new(a, r, g, b);
                    assert_eq!(c.a(), a);
                    assert_eq!(c.r(), r);
                    assert_eq!(c.g(), g);
                    assert_eq!(c.b(), b);
                }
            }
        }
    }
}

#[test]
fn color_packs_argb() {
    assert_eq!(Color::new(0x12, 0x34, 0x56, 0x78).to_native(), 0x12345678);
    assert_eq!(Color::from_native(0xff00ff00).g(), 0xff);
    assert_eq!(Color::from_native(0xff00ff00).r(), 0);
}

#[test]
fn color_setters_replace_one_channel() {
    let c = Color::new(1, 2, 3, 4);
    assert_eq!(c.set_a(9), Color::new(9, 2, 3, 4));
    assert_eq!(c.set_r(9), Color::new(1, 9, 3, 4));
    assert_eq!(c.set_g(9), Color::new(1, 2, 9, 4));
    assert_eq!(c.set_b(9), Color::new(1, 2, 3, 9));
    assert_eq!(c, Color::new(1, 2, 3, 4));
}
