use pathtracer::camera::{half_angle, Camera};
use pathtracer::scalar::Double;
use pathtracer::vec3::Vec3;

fn num(x: f64) -> Double {
    Double::from_bits(x.to_bits())
}

fn float(r: Double) -> f64 {
    f64::from_bits(r.to_bits())
}

fn vec3(x: f64, y: f64, z: f64) -> Vec3 {
    Vec3::new(num(x), num(y), num(z))
}

fn triple(v: Vec3) -> (f64, f64, f64) {
    (float(v.x), float(v.y), float(v.z))
}

fn close(a: (f64, f64, f64), b: (f64, f64, f64)) -> bool {
    (a.0 - b.0).abs() < 1e-12 && (a.1 - b.1).abs() < 1e-12 && (a.2 - b.2).abs() < 1e-12
}

#[test]
fn a_new_camera_looks_down_the_z_axis() {
    let camera = Camera::new();
    assert_eq!(triple(camera.origin()), (0.0, 0.0, 0.0));
    assert_eq!(triple(camera.look_at()), (0.0, 0.0, -1.0));
    assert_eq!(triple(camera.horizontal()), (2.0, 0.0, 0.0));
    assert_eq!(triple(camera.vertical()), (0.0, 2.0, 0.0));
    assert_eq!(triple(camera.lower_left_corner()), (-1.0, -1.0, -1.0));
    let center = camera.get_ray(num(0.5), num(0.5));
    assert_eq!(triple(center.direction), (0.0, 0.0, -1.0));
}

#[test]
fn the_ray_of_a_pixel_passes_inside_the_pixel() {
    let mut camera = Camera::new();
    camera.on_resize(4, 2);
    let ray = camera.get_pixel_ray(4, 2, 3, 1, num(0.5), num(0.25));
    assert_eq!(ray, camera.get_ray(num(3.5 / 4.0), num(1.25 / 2.0)));
    assert_eq!(triple(ray.direction), (-2.0 + 4.0 * 0.875, -1.0 + 2.0 * 0.625, -1.0));
    let first = camera.get_pixel_ray(4, 2, 0, 0, num(0.0), num(0.0));
    assert_eq!(triple(first.direction), (-2.0, -1.0, -1.0));
    let only = camera.get_pixel_ray(1, 1, 0, 0, num(0.5), num(0.5));
    assert_eq!(triple(only.direction), (0.0, 0.0, -1.0));
}

#[test]
fn half_of_the_field_of_view_in_radians() {
    assert_eq!(float(half_angle(num(90.0))), 90.0 * (std::f64::consts::PI / 180.0) / 2.0);
    assert_eq!(float(half_angle(num(20.0))), 20.0 * (std::f64::consts::PI / 180.0) / 2.0);
    assert_eq!(float(half_angle(num(0.0))), 0.0);
}

#[test]
fn a_resize_keeps_where_the_camera_looks() {
    let from = (13.0, 2.0, 3.0);
    let mut camera = Camera::new();
    camera.on_resize(1200, 800);
    camera.setup(
        &vec3(from.0, from.1, from.2),
        &vec3(0.0, 0.0, 0.0),
        &vec3(0.0, 1.0, 0.0),
        num(20.0),
        num(0.1),
        num(10.0),
    );
    let before = (camera.horizontal(), camera.vertical());
    camera.on_resize(1600, 400);
    assert_eq!(triple(camera.origin()), from);
    assert_eq!(triple(camera.look_at()), (0.0, 0.0, 0.0));
    let center = triple(camera.get_ray(num(0.5), num(0.5)).direction);
    let scale = -10.0 / (13.0f64 * 13.0 + 2.0 * 2.0 + 3.0 * 3.0).sqrt();
    assert!(close9(center, (from.0 * scale, from.1 * scale, from.2 * scale)));
    let h = triple(camera.horizontal());
    let v = triple(camera.vertical());
    let dot = |a: (f64, f64, f64), b: (f64, f64, f64)| a.0 * b.0 + a.1 * b.1 + a.2 * b.2;
    assert!(dot(h, center).abs() < 1e-9 && dot(v, center).abs() < 1e-9 && dot(h, v).abs() < 1e-9);
    assert!((dot(h, h).sqrt() / dot(v, v).sqrt() - 4.0).abs() < 1e-9);
    assert_eq!(camera.vertical(), before.1);
    let old_h = triple(before.0);
    assert!((dot(h, h).sqrt() / dot(old_h, old_h).sqrt() - 4.0 / 1.5).abs() < 1e-9);
    camera.on_resize(1200, 800);
    assert!(close9(triple(camera.horizontal()), old_h));
}

fn close9(a: (f64, f64, f64), b: (f64, f64, f64)) -> bool {
    (a.0 - b.0).abs() < 1e-9 && (a.1 - b.1).abs() < 1e-9 && (a.2 - b.2).abs() < 1e-9
}

#[test]
fn resize_fits_the_image_plane() {
    let mut camera = Camera::new();
    camera.on_resize(1200, 800);
    assert_eq!(triple(camera.origin()), (0.0, 0.0, 0.0));
    assert_eq!(triple(camera.horizontal()), (3.0, 0.0, 0.0));
    assert_eq!(triple(camera.vertical()), (0.0, 2.0, 0.0));
    assert_eq!(triple(camera.lower_left_corner()), (-1.5, -1.0, -1.0));
    camera.on_resize(16, 9);
    let w = 16.0 / 9.0 * 2.0;
    assert_eq!(triple(camera.horizontal()), (w, 0.0, 0.0));
    assert_eq!(triple(camera.lower_left_corner()), (0.0 - w / 2.0, -1.0, -1.0));
}

#[test]
fn resize_twice_is_resize_once() {
    let mut once = Camera::new();
    once.on_resize(640, 360);
    let mut twice = Camera::new();
    twice.on_resize(640, 360);
    twice.on_resize(640, 360);
    assert_eq!(once.origin(), twice.origin());
    assert_eq!(once.horizontal(), twice.horizontal());
    assert_eq!(once.vertical(), twice.vertical());
    assert_eq!(once.lower_left_corner(), twice.lower_left_corner());
    assert_eq!(once.get_ray(num(0.3), num(0.8)), twice.get_ray(num(0.3), num(0.8)));
}

#[test]
fn rays_through_the_image_plane() {
    let mut camera = Camera::new();
    camera.on_resize(400, 200);
    let center = camera.get_ray(num(0.5), num(0.5));
    assert_eq!(triple(center.origin), (0.0, 0.0, 0.0));
    assert_eq!(triple(center.direction), (0.0, 0.0, -1.0));
    let corner = camera.get_ray(num(0.0), num(0.0));
    assert_eq!(triple(corner.direction), (-2.0, -1.0, -1.0));
    let top_right = camera.get_ray(num(1.0), num(1.0));
    assert_eq!(triple(top_right.direction), (2.0, 1.0, -1.0));
}

#[test]
fn move_to_shifts_the_frame() {
    let mut camera = Camera::new();
    camera.on_resize(400, 200);
    camera.move_to(num(1.0), num(-2.0));
    assert_eq!(triple(camera.origin()), (1.0, -2.0, 0.0));
    assert_eq!(triple(camera.lower_left_corner()), (-1.0, -3.0, -1.0));
    let center = camera.get_ray(num(0.5), num(0.5));
    assert_eq!(triple(center.origin), (1.0, -2.0, 0.0));
    assert_eq!(triple(center.direction), (0.0, 0.0, -1.0));
}

#[test]
fn aim_derives_the_frame() {
    let mut camera = Camera::new();
    camera.on_resize(400, 200);
    camera.aim(&vec3(0.0, 0.0, 0.0), &vec3(0.0, 0.0, -1.0), &vec3(0.0, 1.0, 0.0), num(1.0), num(1.0));
    assert_eq!(triple(camera.origin()), (0.0, 0.0, 0.0));
    assert_eq!(triple(camera.horizontal()), (4.0, 0.0, 0.0));
    assert_eq!(triple(camera.vertical()), (0.0, 2.0, 0.0));
    assert_eq!(triple(camera.lower_left_corner()), (-2.0, -1.0, -1.0));

    camera.aim(&vec3(0.0, 0.0, 5.0), &vec3(0.0, 0.0, 0.0), &vec3(0.0, 1.0, 0.0), num(0.5), num(10.0));
    assert_eq!(triple(camera.origin()), (0.0, 0.0, 5.0));
    assert_eq!(triple(camera.horizontal()), (20.0, 0.0, 0.0));
    assert_eq!(triple(camera.vertical()), (0.0, 10.0, 0.0));
    assert_eq!(triple(camera.lower_left_corner()), (-10.0, -5.0, -5.0));
    let center = camera.get_ray(num(0.5), num(0.5));
    assert_eq!(triple(center.direction), (0.0, 0.0, -10.0));
}

#[test]
fn setup_takes_the_field_of_view() {
    let mut camera = Camera::new();
    camera.on_resize(400, 200);
    camera.setup(
        &vec3(0.0, 0.0, 0.0),
        &vec3(0.0, 0.0, -1.0),
        &vec3(0.0, 1.0, 0.0),
        num(90.0),
        num(0.1),
        num(1.0),
    );
    assert!(close(triple(camera.horizontal()), (4.0, 0.0, 0.0)));
    assert!(close(triple(camera.vertical()), (0.0, 2.0, 0.0)));
    assert!(close(triple(camera.lower_left_corner()), (-2.0, -1.0, -1.0)));

    let mut aimed = Camera::new();
    aimed.on_resize(1200, 800);
    let h = (20.0f64 * (std::f64::consts::PI / 180.0) / 2.0).tan();
    aimed.aim(&vec3(13.0, 2.0, 3.0), &vec3(0.0, 0.0, 0.0), &vec3(0.0, 1.0, 0.0), num(h), num(10.0));
    let mut set = Camera::new();
    set.on_resize(1200, 800);
    set.setup(
        &vec3(13.0, 2.0, 3.0),
        &vec3(0.0, 0.0, 0.0),
        &vec3(0.0, 1.0, 0.0),
        num(20.0),
        num(0.1),
        num(10.0),
    );
    assert!(close(triple(set.horizontal()), triple(aimed.horizontal())));
    assert!(close(triple(set.vertical()), triple(aimed.vertical())));
    assert!(close(triple(set.lower_left_corner()), triple(aimed.lower_left_corner())));
    assert_eq!(triple(set.origin()), (13.0, 2.0, 3.0));
    let center = set.get_ray(num(0.5), num(0.5));
    let (x, y, z) = triple(center.direction);
    let scale = -10.0 / (13.0f64 * 13.0 + 2.0 * 2.0 + 3.0 * 3.0).sqrt();
    assert!((x - 13.0 * scale).abs() < 1e-9 && (y - 2.0 * scale).abs() < 1e-9 && (z - 3.0 * scale).abs() < 1e-9);
}
