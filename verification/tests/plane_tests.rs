use tracer::{point, vector, Plane, Ray, Shape, FX_ONE};

fn fx(v: f64) -> i128 {
    (v * 268435456.0).round() as i128
}

#[test]
fn normal_is_constant() {
    let p = Plane::default();
    let n1 = p.local_normal_at(point(fx(0.0), fx(0.0), fx(0.0)));
    let n2 = p.local_normal_at(point(fx(10.0), fx(0.0), fx(-10.0)));
    let n3 = p.local_normal_at(point(fx(-5.0), fx(0.0), fx(150.0)));

    assert_eq!(n1, vector(fx(0.0), fx(1.0), fx(0.0)));
    assert_eq!(n2, vector(fx(0.0), fx(1.0), fx(0.0)));
    assert_eq!(n3, vector(fx(0.0), fx(1.0), fx(0.0)));
}

#[test]
fn intersect_with_parallel_ray() {
    let p = Plane::default();
    let r = Ray::new(point(fx(0.0), fx(10.0), fx(0.0)), vector(fx(0.0), fx(0.0), fx(1.0)));
    let xs = p.local_intersect(r);
    assert!(xs.is_empty())
}

#[test]
fn intersect_with_coplanar_ray() {
    let p = Plane::default();
    let r = Ray::new(point(fx(0.0), fx(0.0), fx(0.0)), vector(fx(0.0), fx(0.0), fx(1.0)));
    let xs = p.local_intersect(r);
    assert!(xs.is_empty())
}

#[test]
fn intersect_from_above() {
    let p = Plane::default();
    let r = Ray::new(point(fx(0.0), fx(1.0), fx(0.0)), vector(fx(0.0), fx(-1.0), fx(0.0)));
    let xs = p.local_intersect(r);
    assert_eq!(xs.len(), 1);
    assert_eq!(xs.get(0).t, FX_ONE);
    assert_eq!(xs.get(0).object, p);
}

#[test]
fn intersect_from_below() {
    let p = Plane::default();
    let r = Ray::new(point(fx(0.0), fx(-1.0), fx(0.0)), vector(fx(0.0), fx(1.0), fx(0.0)));
    let xs = p.local_intersect(r);
    assert_eq!(xs.len(), 1);
    assert_eq!(xs.get(0).t, FX_ONE);
}
