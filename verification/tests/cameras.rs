use quadengine::camera::CameraOrthographic;
use quadengine::render_pass::apply_vulkan_correction;

#[test]
fn projection_entries_for_800_by_600() {
    let c = CameraOrthographic::new(800, 600);
    assert_eq!(c.zoom, 1000);
    assert_eq!(c.near, 100);
    assert_eq!(c.far, 10_000);
    let m = c.projection_matrix();
    // x scale 0.75 (the inverse of the 800/600 aspect at unit zoom)
    assert_eq!(m.sx.num, 600_000);
    assert_eq!(m.sx.den, 800_000);
    assert_eq!(m.sx.num * 4, m.sx.den * 3);
    // y scale 1
    assert_eq!(m.sy.num, 1000);
    assert_eq!(m.sy.den, 1000);
    // depth mapping -2/(far-near) and -(far+near)/(far-near)
    assert_eq!(m.sz.num, -2000);
    assert_eq!(m.sz.den, 9900);
    assert_eq!(m.tz.num, -10_100);
    assert_eq!(m.tz.den, 9900);
    // no translation
    assert_eq!(m.tx.num, 0);
    assert_eq!(m.ty.num, 0);
}

#[test]
fn near_plane_maps_to_minus_one() {
    let c = CameraOrthographic::new(800, 600);
    let m = c.projection_matrix();
    // clip z of the world point (0, 0, -near), as an exact rational
    let z0: i128 = -100;
    let z1: i128 = 1000;
    let num = m.sz.num * z0 * m.tz.den + m.tz.num * (m.sz.den * z1);
    let den = (m.sz.den * z1) * m.tz.den;
    assert_eq!(num, -den);
}

#[test]
fn far_plane_maps_to_one() {
    let c = CameraOrthographic::new(800, 600);
    let m = c.projection_matrix();
    let z0: i128 = -10_000;
    let z1: i128 = 1000;
    let num = m.sz.num * z0 * m.tz.den + m.tz.num * (m.sz.den * z1);
    let den = (m.sz.den * z1) * m.tz.den;
    assert_eq!(num, den);
}

#[test]
fn x_and_y_scales_agree_through_the_aspect_ratio() {
    let c = CameraOrthographic::new(800, 600);
    let m = c.projection_matrix();
    // sx * (800/600) == sy, by cross-multiplication
    assert_eq!(m.sx.num * 800 * m.sy.den, m.sy.num * (m.sx.den * 600));
}

#[test]
fn corrected_near_plane_maps_to_zero() {
    let c = CameraOrthographic::new(800, 600);
    let m = apply_vulkan_correction(c.projection_matrix());
    let z0: i128 = -100;
    let z1: i128 = 1000;
    let num = m.sz.num * z0 * m.tz.den + m.tz.num * (m.sz.den * z1);
    assert_eq!(num, 0);
}

#[test]
fn corrected_far_plane_stays_at_one() {
    let c = CameraOrthographic::new(800, 600);
    let m = apply_vulkan_correction(c.projection_matrix());
    let z0: i128 = -10_000;
    let z1: i128 = 1000;
    let num = m.sz.num * z0 * m.tz.den + m.tz.num * (m.sz.den * z1);
    let den = (m.sz.den * z1) * m.tz.den;
    assert_eq!(num, den);
}

#[test]
fn set_zoom_clamps_at_zero() {
    let mut c = CameraOrthographic::new(800, 600);
    c.set_zoom(-2000);
    assert_eq!(c.zoom, 0);
    c.set_zoom(450);
    assert_eq!(c.zoom, 450);
}

#[test]
fn reset_zoom_returns_to_base() {
    let mut c = CameraOrthographic::new(800, 600);
    c.set_zoom(750);
    assert_eq!(c.zoom, 1750);
    c.reset_zoom();
    assert_eq!(c.zoom, 1000);
}

#[test]
fn resize_changes_dimensions() {
    let mut c = CameraOrthographic::new(800, 600);
    c.resize(1024, 768);
    assert_eq!(c.dimensions(), (1024, 768));
    let m = c.projection_matrix();
    assert_eq!(m.sx.num, 768_000);
    assert_eq!(m.sx.den, 1_024_000);
}
