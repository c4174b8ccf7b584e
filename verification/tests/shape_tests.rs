use std::f64::consts::{FRAC_1_SQRT_2, PI};
use tracer::{point, vector, Material, Matrix, Shape, Sphere};

fn fx(v: f64) -> i128 {
    (v * 268435456.0).round() as i128
}

#[test]
fn default_transformation() {
    let s = Sphere::default();
    assert_eq!(s.get_transform(), Matrix::I());
}

#[test]
fn assigning_transformation() {
    let mut s = Sphere::default();
    let m = Matrix::get_translation_matrix(fx(2.0), fx(3.0), fx(4.0));
    s.set_transform(m);
    assert_eq!(s.get_transform(), m);
}

#[test]
fn default_material() {
    let s = Sphere::default();
    let m = s.material;
    assert_eq!(m, Material::default());
}

#[test]
fn assign_material() {
    let mut s = Sphere::default();
    let m = Material { ambient: fx(1.0), ..Default::default() };
    s.material = m;
    assert_eq!(m, s.material);
}

#[test]
fn normal_of_translated_sphere() {
    let mut s = Sphere::default();
    s.set_transform(Matrix::get_translation_matrix(fx(0.0), fx(1.0), fx(0.0)));
    let n = s.normal_at(point(fx(0.0), fx(1.0 + FRAC_1_SQRT_2), fx(-FRAC_1_SQRT_2))).unwrap();
    assert!(n.approx_eq(&vector(fx(0.0), fx(FRAC_1_SQRT_2), fx(-FRAC_1_SQRT_2))));
}

#[test]
fn normal_of_transformed_sphere() {
    let mut s = Sphere::default();
    let rot = Matrix::get_rotation_z_matrix(fx((PI / 5.0).cos()), fx((PI / 5.0).sin()));
    let m = Matrix::get_scaling_matrix(fx(1.0), fx(0.5), fx(1.0)).mul(&rot);
    s.set_transform(m);
    let n = s.normal_at(point(fx(0.0), fx(FRAC_1_SQRT_2), fx(-FRAC_1_SQRT_2))).unwrap();
    assert!(n.approx_eq(&vector(fx(0.0), fx(0.97014), fx(-0.24254))));
}

#[test]
fn intersect_scales_the_ray() {
    let r = tracer::Ray::new(point(fx(0.0), fx(0.0), fx(-5.0)), vector(fx(0.0), fx(0.0), fx(1.0)));
    let mut s = Sphere::default();
    s.set_transform(Matrix::get_scaling_matrix(fx(2.0), fx(2.0), fx(2.0)));
    let xs = s.intersect(r).unwrap();
    assert_eq!(xs.len(), 2);
    assert!(xs.get(0).t.abs_diff(fx(3.0)) < tracer::EPSILON as u128);
    assert!(xs.get(1).t.abs_diff(fx(7.0)) < tracer::EPSILON as u128);
}

#[test]
fn intersect_translated_sphere_misses() {
    let r = tracer::Ray::new(point(fx(0.0), fx(0.0), fx(-5.0)), vector(fx(0.0), fx(0.0), fx(1.0)));
    let mut s = Sphere::default();
    s.set_transform(Matrix::get_translation_matrix(fx(5.0), fx(0.0), fx(0.0)));
    let xs = s.intersect(r).unwrap();
    assert_eq!(xs.len(), 0);
}

#[test]
fn intersect_singular_transform_is_rejected() {
    let r = tracer::Ray::new(point(fx(0.0), fx(0.0), fx(-5.0)), vector(fx(0.0), fx(0.0), fx(1.0)));
    let mut s = Sphere::default();
    s.set_transform(Matrix::get_scaling_matrix(fx(0.0), fx(0.0), fx(0.0)));
    assert!(s.intersect(r).is_none());
    assert!(s.normal_at(point(fx(0.0), fx(0.0), fx(-1.0))).is_none());
}
