use pixel_paint::geometry::{
    bitmap_to_screen, floor_div, screen_to_bitmap, translate_mouse_center, CanvasRect, Sample,
    ScreenPoint, MAX_SCALE, MIN_SCALE, PLANE_LIMIT, UNIT,
};
use pixel_paint::line::BitmapPoint;

fn sp(x: i64, y: i64) -> ScreenPoint {
    ScreenPoint { x, y }
}

fn cell(x: i32, y: i32) -> BitmapPoint {
    BitmapPoint { x, y }
}

fn centred(scale: i64) -> CanvasRect {
    CanvasRect::placed(sp(0, 0), 256, 256, scale)
}

#[test]
fn constants_of_the_fixed_point() {
    assert_eq!(UNIT, 256);
    assert_eq!(MIN_SCALE, UNIT);
    assert_eq!(MAX_SCALE, 100 * UNIT);
    assert_eq!(PLANE_LIMIT, 1 << 40);
}

#[test]
fn floor_div_rounds_toward_minus_infinity() {
    assert_eq!(floor_div(7, 2), 3);
    assert_eq!(floor_div(-7, 2), -4);
    assert_eq!(floor_div(-8, 2), -4);
    assert_eq!(floor_div(-1, 256), -1);
    assert_eq!(floor_div(0, 5), 0);
    assert_eq!(floor_div(i64::MAX, 1), i64::MAX);
    assert_eq!(floor_div(i64::MIN + 1, i64::MAX), -1);
    assert_eq!(floor_div(i64::MIN, i64::MAX), -2);
    assert_eq!(floor_div(i64::MIN, 2), i64::MIN / 2);
}

#[test]
fn placed_rect_has_the_size_of_the_scaled_bitmap() {
    let r = CanvasRect::placed(sp(5, -7), 256, 128, 448);
    assert_eq!(r, CanvasRect { centre: sp(5, -7), width: 256 * 448, height: 128 * 448 });
}

#[test]
fn rect_contains_its_edges() {
    let r = CanvasRect { centre: sp(10, 20), width: 8, height: 4 };
    assert!(r.contains_point(sp(10, 20)));
    assert!(r.contains_point(sp(14, 22)));
    assert!(r.contains_point(sp(6, 18)));
    assert!(!r.contains_point(sp(15, 20)));
    assert!(!r.contains_point(sp(5, 20)));
    assert!(!r.contains_point(sp(10, 23)));
    assert!(!r.contains_point(sp(10, 17)));
    let odd = CanvasRect { centre: sp(0, 0), width: 5, height: 5 };
    assert!(odd.contains_point(sp(2, -2)));
    assert!(!odd.contains_point(sp(3, 0)));
    let inverted = CanvasRect { centre: sp(0, 0), width: -2, height: 4 };
    assert!(!inverted.contains_point(sp(0, 0)));
}

#[test]
fn translate_is_relative_to_the_centre() {
    let r = CanvasRect { centre: sp(10, -20), width: 8, height: 4 };
    assert_eq!(translate_mouse_center(sp(13, 5), r), sp(3, 25));
    assert_eq!(translate_mouse_center(sp(10, -20), r), sp(0, 0));
}

#[test]
fn centre_of_the_rect_is_the_centre_of_the_bitmap() {
    let s = screen_to_bitmap(sp(0, 0), &centred(256), 256, 256, 256);
    assert_eq!(s, Sample { exact_x: 128 * 256, exact_y: 128 * 256, cell: cell(128, 128) });
}

#[test]
fn screen_to_bitmap_divides_by_the_scale() {
    let s = screen_to_bitmap(sp(512, 0), &centred(256), 256, 256, 256);
    assert_eq!(s, Sample { exact_x: 130 * 256, exact_y: 128 * 256, cell: cell(130, 128) });
    let t = screen_to_bitmap(sp(448 * 3, 0), &centred(448), 448, 256, 256);
    assert_eq!(t, Sample { exact_x: 131 * 256, exact_y: 128 * 256, cell: cell(131, 128) });
    let u = screen_to_bitmap(sp(1000, 0), &centred(448), 448, 256, 256);
    assert_eq!(u.exact_x, 571 + 128 * 256);
    assert_eq!(u.cell, cell(130, 128));
}

#[test]
fn screen_to_bitmap_flips_the_vertical_axis() {
    let s = screen_to_bitmap(sp(0, 2560), &centred(256), 256, 256, 256);
    assert_eq!(s, Sample { exact_x: 128 * 256, exact_y: 118 * 256, cell: cell(128, 118) });
    let t = screen_to_bitmap(sp(0, -2560), &centred(256), 256, 256, 256);
    assert_eq!(t.cell, cell(128, 138));
}

#[test]
fn screen_to_bitmap_is_relative_to_the_rect() {
    let r = CanvasRect::placed(sp(1000, -3000), 256, 256, 256);
    let s = screen_to_bitmap(sp(1000 + 256, -3000 - 512), &r, 256, 256, 256);
    assert_eq!(s.cell, cell(129, 130));
}

#[test]
fn screen_to_bitmap_rounds_to_the_nearest_pixel() {
    let r = centred(256);
    assert_eq!(screen_to_bitmap(sp(383, 0), &r, 256, 256, 256).cell.x, 129);
    assert_eq!(screen_to_bitmap(sp(384, 0), &r, 256, 256, 256).cell.x, 130);
    assert_eq!(screen_to_bitmap(sp(-128, 0), &r, 256, 256, 256).cell.x, 128);
    assert_eq!(screen_to_bitmap(sp(-129, 0), &r, 256, 256, 256).cell.x, 127);
    let half = screen_to_bitmap(sp(-1, 0), &centred(512), 512, 256, 256);
    assert_eq!(half.exact_x, 128 * 256 - 1);
    assert_eq!(half.cell.x, 128);
}

#[test]
fn screen_to_bitmap_clamps_the_pixel_and_not_the_exact_position() {
    let r = centred(256);
    let right = screen_to_bitmap(sp(256 * 1000, 0), &r, 256, 256, 256);
    assert_eq!(right.cell, cell(255, 128));
    assert_eq!(right.exact_x, 1128 * 256);
    let left = screen_to_bitmap(sp(-256 * 1000, 0), &r, 256, 256, 256);
    assert_eq!(left.cell, cell(0, 128));
    assert_eq!(left.exact_x, -872 * 256);
    let top = screen_to_bitmap(sp(0, 256 * 1000), &r, 256, 256, 256);
    assert_eq!(top.cell, cell(128, 0));
    let bottom = screen_to_bitmap(sp(0, -256 * 1000), &r, 256, 256, 256);
    assert_eq!(bottom.cell, cell(128, 255));
    let edge = screen_to_bitmap(sp(128 * 256, -128 * 256), &r, 256, 256, 256);
    assert_eq!(edge.cell, cell(255, 255));
    let corner = screen_to_bitmap(sp(PLANE_LIMIT, PLANE_LIMIT), &r, 256, 256, 256);
    assert_eq!(corner.cell, cell(255, 0));
}

#[test]
fn bitmap_to_screen_of_some_pixels() {
    let r = centred(256);
    assert_eq!(bitmap_to_screen(cell(128, 128), &r, 256, 256, 256), sp(0, 0));
    assert_eq!(bitmap_to_screen(cell(130, 128), &r, 256, 256, 256), sp(512, 0));
    assert_eq!(bitmap_to_screen(cell(0, 0), &r, 256, 256, 256), sp(-32768, 32768));
    assert_eq!(bitmap_to_screen(cell(255, 255), &r, 256, 256, 256), sp(32512, -32512));
    let odd = CanvasRect::placed(sp(7, 9), 3, 3, 257);
    assert_eq!(bitmap_to_screen(cell(1, 1), &odd, 257, 3, 3), sp(7 - 129, 9 + 128));
}

#[test]
fn round_trip_stays_within_one_pixel() {
    for &scale in &[256i64, 257, 448, 1000, 2560, 25600] {
        for &(w, h) in &[(1u32, 1u32), (3, 5), (16, 16)] {
            let r = CanvasRect::placed(sp(1234, -987), w, h, scale);
            let (half_w, half_h) = (r.width / 2, r.height / 2);
            let step_x = (r.width / 97).max(1);
            let step_y = (r.height / 89).max(1);
            let mut x = r.centre.x - half_w;
            while x <= r.centre.x + half_w {
                let mut y = r.centre.y - half_h;
                while y <= r.centre.y + half_h {
                    let p = sp(x, y);
                    assert!(r.contains_point(p));
                    let s = screen_to_bitmap(p, &r, scale, w, h);
                    let q = bitmap_to_screen(s.cell, &r, scale, w, h);
                    assert!((q.x - p.x).abs() <= scale, "{:?} {:?} {}", p, q, scale);
                    assert!((q.y - p.y).abs() <= scale, "{:?} {:?} {}", p, q, scale);
                    y += step_y;
                }
                x += step_x;
            }
        }
    }
}

#[test]
fn round_trip_fails_outside_the_rect() {
    let r = centred(256);
    let p = sp(256 * 1000, 0);
    let s = screen_to_bitmap(p, &r, 256, 256, 256);
    let q = bitmap_to_screen(s.cell, &r, 256, 256, 256);
    assert!((q.x - p.x).abs() > 256);
}

#[test]
fn screen_point_in_plane() {
    assert!(sp(PLANE_LIMIT, -PLANE_LIMIT).is_in_plane());
    assert!(!sp(PLANE_LIMIT + 1, 0).is_in_plane());
    assert!(!sp(0, -PLANE_LIMIT - 1).is_in_plane());
}
