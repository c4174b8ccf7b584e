use tracer::{point, vector, Ray, Shape, Sphere, FX_ONE};

fn fx(v: f64) -> i128 {
    (v * 268435456.0).round() as i128
}

#[test]
fn sphere_ray_intersection1() {
    let r = Ray::new(point(fx(0.0), fx(0.0), fx(-5.0)), vector(fx(0.0), fx(0.0), fx(1.0)));
    let s: Sphere = Default::default();
    let xs = s.local_intersect(r);
    assert_eq!(xs.len(), 2);
    assert_eq!(xs.get(0).t, 4 * FX_ONE);
    assert_eq!(xs.get(1).t, 6 * FX_ONE);
}

#[test]
fn sphere_ray_intersection2() {
    let r = Ray::new(point(fx(0.0), fx(1.0), fx(-5.0)), vector(fx(0.0), fx(0.0), fx(1.0)));
    let s: Sphere = Default::default();
    let xs = s.local_intersect(r);
    assert_eq!(xs.len(), 2);
    assert_eq!(xs.get(0).t, 5 * FX_ONE);
    assert_eq!(xs.get(1).t, 5 * FX_ONE);
}

#[test]
fn sphere_ray_intersection3() {
    let r = Ray::new(point(fx(0.0), fx(2.0), fx(-5.0)), vector(fx(0.0), fx(0.0), fx(1.0)));
    let s: Sphere = Default::default();
    let xs = s.local_intersect(r);
    assert_eq!(xs.len(), 0);
}

#[test]
fn sphere_ray_intersection_ray_origin_inside_sphere() {
    let r = Ray::new(point(fx(0.0), fx(0.0), fx(0.0)), vector(fx(0.0), fx(0.0), fx(1.0)));
    let s: Sphere = Default::default();
    let xs = s.local_intersect(r);
    assert_eq!(xs.len(), 2);
    assert_eq!(xs.get(0).t, -FX_ONE);
    assert_eq!(xs.get(1).t, FX_ONE);
}

#[test]
fn sphere_ray_intersection_before_ray_origin() {
    let r = Ray::new(point(fx(0.0), fx(0.0), fx(5.0)), vector(fx(0.0), fx(0.0), fx(1.0)));
    let s: Sphere = Default::default();
    let xs = s.local_intersect(r);
    assert_eq!(xs.len(), 2);
    assert_eq!(xs.get(0).t, -6 * FX_ONE);
    assert_eq!(xs.get(1).t, -4 * FX_ONE);
}

#[test]
fn sphere_ray_intersection_object_property() {
    let r = Ray::new(point(fx(0.0), fx(0.0), fx(-5.0)), vector(fx(0.0), fx(0.0), fx(1.0)));
    let s: Sphere = Default::default();
    let xs = s.local_intersect(r);
    assert_eq!(xs.len(), 2);
    assert_eq!(xs.get(0).object, Sphere::default());
    assert_eq!(xs.get(1).object, Sphere::default());
}

#[test]
fn sphere_normal_at_x_axis() {
    let s: Sphere = Default::default();
    let n = s.local_normal_at(point(fx(1.0), fx(0.0), fx(0.0)));
    assert_eq!(n, vector(fx(1.0), fx(0.0), fx(0.0)));
}

#[test]
fn sphere_normal_at_y_axis() {
    let s: Sphere = Default::default();
    let n = s.local_normal_at(point(fx(0.0), fx(1.0), fx(0.0)));
    assert_eq!(n, vector(fx(0.0), fx(1.0), fx(0.0)));
}

#[test]
fn sphere_normal_at_z_axis() {
    let s: Sphere = Default::default();
    let n = s.local_normal_at(point(fx(0.0), fx(0.0), fx(1.0)));
    assert_eq!(n, vector(fx(0.0), fx(0.0), fx(1.0)));
}

#[test]
fn sphere_normal_at_non_axial_point() {
    let s: Sphere = Default::default();
    let val: f64 = f64::sqrt(3.0) / 3.0;
    let n = s.local_normal_at(point(fx(val), fx(val), fx(val)));
    assert_eq!(n, vector(fx(val), fx(val), fx(val)));
}

#[test]
fn sphere_normal_is_normalized() {
    let s: Sphere = Default::default();
    let val: f64 = f64::sqrt(3.0) / 3.0;
    let n = s.local_normal_at(point(fx(val), fx(val), fx(val)));
    assert!(n.approx_eq(&n.normalize()));
}
