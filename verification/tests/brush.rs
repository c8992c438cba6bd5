use pixel_paint::brush::{brush_radius, opacity, opacity_for, stamp_segment};
use pixel_paint::canvas::RasterCanvas;
use pixel_paint::color::Rgba;
use pixel_paint::geometry::Sample;
use pixel_paint::line::BitmapPoint;

const WHITE: Rgba = Rgba { r: 255, g: 255, b: 255, a: 255 };

fn grey(v: u8) -> Rgba {
    Rgba { r: v, g: v, b: v, a: 255 }
}

fn sample(x: i32, y: i32) -> Sample {
    Sample { exact_x: x as i64 * 256, exact_y: y as i64 * 256, cell: BitmapPoint { x, y } }
}

#[test]
fn opacity_is_full_at_the_centre() {
    for &d in &[1u32, 256, 2560, 25600, u32::MAX] {
        assert_eq!(opacity(0, d), 255);
    }
}

#[test]
fn opacity_is_zero_where_twice_the_squared_distance_is_the_squared_diameter() {
    assert_eq!(opacity(50, 10), 0);
    assert_eq!(opacity(49, 10), 5);
    assert_eq!(opacity(51, 10), 0);
    assert_eq!(opacity(u128::MAX, 10), 0);
    assert_eq!(opacity(2 * 2560 * 2560, 2560), 0);
}

#[test]
fn opacity_at_some_distances() {
    let d = 2560u32;
    let px = 256u128 * 256;
    assert_eq!(opacity(px, d), 249);
    assert_eq!(opacity(25 * px, d), 127);
    assert_eq!(opacity(26 * px, d), 122);
    assert_eq!(opacity(49 * px, d), 5);
    assert_eq!(opacity(64 * px, d), 0);
}

#[test]
fn opacity_never_grows_with_the_distance() {
    let d = 700u32;
    let mut last = 255u8;
    for dist in 0..600u128 {
        let o = opacity(dist * dist, d);
        assert!(o <= last);
        last = o;
    }
    assert_eq!(last, 0);
}

#[test]
fn opacity_for_measures_from_the_exact_position() {
    assert_eq!(opacity_for(130, 128, 130 * 256, 128 * 256, 2560), 255);
    assert_eq!(opacity_for(129, 128, 130 * 256, 128 * 256, 2560), 249);
    assert_eq!(opacity_for(129, 123, 130 * 256, 128 * 256, 2560), 122);
    assert_eq!(opacity_for(130, 128, 130 * 256 + 128, 128 * 256, 2560), 253);
    assert_eq!(opacity_for(0, 0, i64::MAX, i64::MIN, 2560), 0);
    assert_eq!(opacity_for(i64::MIN, i64::MAX, i64::MAX, i64::MIN, u32::MAX), 0);
    assert_eq!(opacity_for(1 << 40, 0, 1 << 48, 0, 1), 255);
    assert_eq!(opacity_for(-3, 4, -3 * 256, 4 * 256, 256), 255);
}

#[test]
fn radius_is_half_the_diameter_rounded() {
    assert_eq!(brush_radius(256), 1);
    assert_eq!(brush_radius(2560), 5);
    assert_eq!(brush_radius(767), 1);
    assert_eq!(brush_radius(768), 2);
    assert_eq!(brush_radius(25600), 50);
    assert_eq!(brush_radius(0), 0);
}

#[test]
fn stamp_of_a_short_horizontal_segment() {
    let mut c = RasterCanvas::new(256, 256);
    stamp_segment(&mut c, BitmapPoint { x: 128, y: 128 }, &sample(130, 128), 2560);
    assert_eq!(c.get_pixel(130, 128), Rgba::black(255));
    assert_eq!(c.get_pixel(129, 128), Rgba::black(255));
    assert_eq!(c.get_pixel(128, 128), Rgba::black(255));
    assert_eq!(c.get_pixel(129, 123), grey(35));
    assert_eq!(c.get_pixel(125, 128), grey(31));
    assert_eq!(c.get_pixel(135, 128), grey(31));
    assert_eq!(c.get_pixel(130, 134), grey(95));
    assert_eq!(c.get_pixel(127, 133), grey(80));
    assert_eq!(c.get_pixel(130, 136), WHITE);
    assert_eq!(c.get_pixel(118, 118), WHITE);
    assert_eq!(c.get_pixel(140, 128), WHITE);
    let mut changed = 0;
    for y in 0..256 {
        for x in 0..256 {
            if c.get_pixel(x, y) != WHITE {
                changed += 1;
            }
        }
    }
    assert_eq!(changed, 149);
}

#[test]
fn stamp_of_a_single_cell_is_one_soft_dot() {
    let mut c = RasterCanvas::new(32, 32);
    stamp_segment(&mut c, BitmapPoint { x: 16, y: 16 }, &sample(16, 16), 2560);
    assert_eq!(c.get_pixel(16, 16), Rgba::black(255));
    assert_eq!(c.get_pixel(17, 16), WHITE.blend(Rgba::black(249)));
    assert_eq!(c.get_pixel(16, 11), WHITE.blend(Rgba::black(127)));
    assert_eq!(c.get_pixel(16, 9), WHITE.blend(Rgba::black(5)));
    assert_eq!(c.get_pixel(16, 8), WHITE);
    assert_eq!(c.get_pixel(23, 23), WHITE);
}

#[test]
fn stamp_near_the_edge_passes_over_what_is_outside() {
    let mut c = RasterCanvas::new(8, 8);
    stamp_segment(&mut c, BitmapPoint { x: 0, y: 0 }, &sample(7, 7), 2560);
    assert_eq!(c.get_pixel(7, 7), Rgba::black(255));
    assert_eq!((c.width(), c.height()), (8, 8));
    let mut d = RasterCanvas::new(8, 8);
    stamp_segment(&mut d, BitmapPoint { x: -40, y: -40 }, &sample(-30, -40), 2560);
    for y in 0..8 {
        for x in 0..8 {
            assert_eq!(d.get_pixel(x, y), WHITE);
        }
    }
}
