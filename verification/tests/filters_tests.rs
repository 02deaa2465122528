use ruffle::filters::{
    BlurFilterFlags, Color, DropShadowFilter, DropShadowFilterFlags, Fixed16, Fixed8,
    GlowFilterFlags, Rectangle,
};

fn shadow(bits: u8) -> DropShadowFilter {
    DropShadowFilter {
        color: Color { r: 10, g: 20, b: 30, a: 40 },
        blur_x: Fixed16(0x0004_0000),
        blur_y: Fixed16(0x0002_8000),
        angle: Fixed16(0x0000_c90f),
        distance: Fixed16(0x0004_0000),
        strength: Fixed8(0x0100),
        flags: DropShadowFilterFlags { bits },
    }
}

#[test]
fn flag_queries_read_their_bits() {
    let f = shadow(0xe3);
    assert!(f.is_inner());
    assert!(f.is_knockout());
    assert!(!f.hide_object());
    assert_eq!(f.num_passes(), 3);

    let g = shadow(0x02);
    assert!(!g.is_inner());
    assert!(!g.is_knockout());
    assert!(g.hide_object());
    assert_eq!(g.num_passes(), 2);
}

#[test]
fn inner_blur_filter_moves_passes_to_the_high_bits() {
    let f = shadow(0xe3);
    let blur = f.inner_blur_filter();
    assert_eq!(blur.blur_x, Fixed16(0x0004_0000));
    assert_eq!(blur.blur_y, Fixed16(0x0002_8000));
    assert_eq!(blur.flags, BlurFilterFlags { bits: 24 });
}

#[test]
fn inner_glow_filter_carries_every_flag() {
    let f = shadow(0xa5);
    let glow = f.inner_glow_filter();
    assert_eq!(glow.color, Color { r: 10, g: 20, b: 30, a: 40 });
    assert_eq!(glow.blur_x, f.blur_x);
    assert_eq!(glow.blur_y, f.blur_y);
    assert_eq!(glow.strength, Fixed8(0x0100));
    assert_eq!(glow.flags, GlowFilterFlags { bits: 0xa5 });

    let plain = shadow(0x01).inner_glow_filter();
    assert_eq!(plain.flags, GlowFilterFlags { bits: 0x01 });
}

#[test]
fn from_passes_of_each_flag_kind() {
    assert_eq!(DropShadowFilterFlags::from_passes(5), DropShadowFilterFlags { bits: 5 });
    assert_eq!(GlowFilterFlags::from_passes(5), GlowFilterFlags { bits: 5 });
    assert_eq!(BlurFilterFlags::from_passes(5), BlurFilterFlags { bits: 40 });
    assert_eq!(BlurFilterFlags::from_passes(31), BlurFilterFlags { bits: 248 });
    assert_eq!(DropShadowFilterFlags::from_passes(0), DropShadowFilterFlags { bits: 0 });
}

#[test]
fn glow_flags_set_and_clear() {
    let mut flags = GlowFilterFlags::from_passes(5);
    flags.set(0x80, true);
    assert_eq!(flags.bits, 0x85);
    flags.set(0x40, true);
    assert_eq!(flags.bits, 0xc5);
    flags.set(0x80, false);
    assert_eq!(flags.bits, 0x45);
}

#[test]
fn passes_round_trip_for_every_count() {
    for n in 0u8..=31 {
        let f = DropShadowFilter { flags: DropShadowFilterFlags::from_passes(n), ..shadow(0) };
        assert_eq!(f.num_passes(), n);
        assert_eq!(f.inner_blur_filter().flags.bits >> 3, n);
    }
}

#[test]
fn dest_rect_grows_towards_the_offset() {
    let f = shadow(0);
    let glow = Rectangle { x_min: 0, x_max: 100, y_min: 0, y_max: 50 };
    assert_eq!(
        f.calculate_dest_rect(glow, -3, 4),
        Rectangle { x_min: -3, x_max: 100, y_min: 0, y_max: 54 }
    );
    assert_eq!(
        f.calculate_dest_rect(glow, 5, -2),
        Rectangle { x_min: 0, x_max: 105, y_min: -2, y_max: 50 }
    );
    assert_eq!(f.calculate_dest_rect(glow, 0, 0), glow);
}
