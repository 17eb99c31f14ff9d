use std::f32::consts::PI;
use tangent_proj::angle::{
    normalize_azimuth, normalize_declination, texel_col, texel_row, SphereAngles, FULL_TURN,
    HALF_TURN,
};
use tangent_proj::frame::Frame;
use tangent_proj::texture::{pack_rgb, TextureLayout};
use tangent_proj::view::App;

fn to_units(radians: f32, turn: i64) -> i64 {
    ((radians / (2.0 * PI)) as f64 * turn as f64) as i64
}

fn unrotated_point(app: &App, i: u32, j: u32, width: u32, height: u32) -> SphereAngles {
    let (hx, hy) = app.plane_point(i, j, width, height);
    let (x, y) = (hx as f32 / 2.0, hy as f32 / 2.0);
    let scale = 1.01f32.powi(app.zoom);
    let declination = 2.0 * scale.atan2((x * x + y * y).sqrt());
    let azimuth = y.atan2(x);
    SphereAngles {
        declination: to_units(declination, FULL_TURN),
        azimuth: to_units(azimuth, FULL_TURN),
    }
}

fn four_by_two_globe() -> Vec<u8> {
    let mut bytes = Vec::new();
    for k in 0..8u8 {
        bytes.extend_from_slice(&[k, 0x10, 0x20]);
    }
    bytes
}

#[test]
fn texel_stays_inside_texture() {
    let app = App::new("t".to_string(), 0, 7, 5);
    let extremes = [i64::MIN, i64::MIN + 1, -FULL_TURN, -HALF_TURN, -1, 0, 1, HALF_TURN - 1,
        HALF_TURN, FULL_TURN - 1, FULL_TURN, i64::MAX];
    for &d in extremes.iter() {
        for &a in extremes.iter() {
            let (row, col) = app.texel_coords(SphereAngles { declination: d, azimuth: a });
            assert!(row < 5);
            assert!(col < 7);
        }
    }
    assert_eq!(texel_row(HALF_TURN - 1, 5), 4);
    assert_eq!(texel_col(FULL_TURN - 1, 7), 6);
}

#[test]
fn normalization_is_idempotent() {
    for &v in [i64::MIN, -FULL_TURN - 3, -HALF_TURN, -1, 0, 5, HALF_TURN, FULL_TURN + 9, i64::MAX]
        .iter()
    {
        let a = normalize_azimuth(v);
        assert_eq!(normalize_azimuth(a), a);
        assert!(0 <= a && a < FULL_TURN);
        let d = normalize_declination(v);
        assert_eq!(normalize_declination(d), d);
        assert!(0 <= d && d < HALF_TURN);
    }
    assert_eq!(normalize_azimuth(-1), FULL_TURN - 1);
    assert_eq!(normalize_declination(-1), HALF_TURN - 1);
    assert_eq!(normalize_declination(HALF_TURN), 0);
}

#[test]
fn center_pixel_looks_at_the_pole() {
    let app = App::new("t".to_string(), 0, 4, 2);
    assert_eq!(app.plane_point(2, 1, 4, 2), (0, 0));
    let center = unrotated_point(&app, 2, 1, 4, 2);
    assert_eq!(center, SphereAngles { declination: HALF_TURN, azimuth: 0 });
    assert_eq!(app.texel_coords(center), (0, 0));
}

#[test]
fn four_by_two_golden_frame() {
    let globe = four_by_two_globe();
    let app = App::new("t".to_string(), 0, 4, 2);
    let mut frame = Frame::new();
    frame.resize(4, 2);
    let mut points = Vec::new();
    for j in 0..2 {
        for i in 0..4 {
            points.push(unrotated_point(&app, i, j, 4, 2));
        }
    }
    app.render(&globe, &points, &mut frame);
    let texel = |row: u8, col: u8| pack_rgb(row * 4 + col, 0x10, 0x20);
    let expected = vec![
        texel(0, 2), texel(0, 2), texel(1, 3), texel(0, 3),
        texel(0, 2), texel(1, 2), texel(0, 0), texel(1, 0),
    ];
    assert_eq!(frame.pixels, expected);
}

#[test]
fn rotation_moves_the_sampled_texel() {
    let globe = four_by_two_globe();
    let mut app = App::new("t".to_string(), 0, 4, 2);
    let u = SphereAngles { declination: HALF_TURN / 4, azimuth: FULL_TURN / 8 };
    assert_eq!(app.shade(&globe, u), pack_rgb(0, 0x10, 0x20));
    for _ in 0..16 {
        app.press_key(tangent_proj::view::Key::ArrowRight);
    }
    assert_eq!(app.texel_coords(u), (0, 1));
    assert_eq!(app.shade(&globe, u), pack_rgb(1, 0x10, 0x20));
}

#[test]
fn resize_leaves_a_clean_buffer() {
    let globe = four_by_two_globe();
    let app = App::new("t".to_string(), 0, 4, 2);
    let mut frame = Frame::new();
    frame.resize(2, 1);
    let points = vec![SphereAngles { declination: 0, azimuth: FULL_TURN / 2 }; 2];
    app.render(&globe, &points, &mut frame);
    assert!(frame.pixels.iter().all(|&p| p != 0));
    frame.resize(0, 0);
    assert!(frame.pixels.is_empty());
    frame.resize(100, 50);
    assert_eq!(frame.pixels.len(), 100 * 50);
    assert!(frame.pixels.iter().all(|&p| p == 0));
    assert_eq!((frame.width, frame.height), (100, 50));
}

#[test]
fn texel_offset_formula() {
    let layout = TextureLayout { data_offset: 54, width: 4, height: 2 };
    assert_eq!(layout.texel_offset(54 + 24, 1, 3), 54 + 3 * (4 + 3));
    assert_eq!(layout.texel_offset(54 + 24, 0, 0), 54);
    assert!(layout.fits_in(78));
    assert!(!layout.fits_in(77));
    assert!(!TextureLayout { data_offset: 0, width: 0, height: 2 }.fits_in(100));
    assert!(!TextureLayout { data_offset: u32::MAX, width: u32::MAX, height: u32::MAX }
        .fits_in(usize::MAX));
}

#[test]
fn packing_puts_red_lowest() {
    assert_eq!(pack_rgb(0x01, 0x02, 0x03), 0x0003_0201);
    assert_eq!(pack_rgb(0xff, 0, 0), 0xff);
    assert_eq!(pack_rgb(0, 0, 0xff), 0x00ff_0000);
}

#[test]
fn half_pixel_plane_coordinates() {
    let mut app = App::new("t".to_string(), 0, 4, 2);
    assert_eq!(app.plane_point(0, 0, 5, 3), (-5, -3));
    app.pan_by(2, -1);
    assert_eq!(app.plane_point(0, 0, 4, 2), (-8, 0));
}
