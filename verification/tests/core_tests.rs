use std::f64::consts::FRAC_PI_2;
use tracer::{
    point, vector, Color, Environment, Intersection, Intersections, Matrix, Projectile, Ray,
    Shape, Sphere, FX_ONE,
};

fn fx(v: f64) -> i128 {
    (v * 268435456.0).round() as i128
}

fn near(a: i128, b: i128) -> bool {
    (a - b).abs() < tracer::EPSILON
}

#[test]
fn hit_all_positive() {
    let s = Sphere::default();
    let mut xs: Intersections<Sphere> = Intersections::new();
    xs.push(Intersection::new(fx(1.0), s));
    xs.push(Intersection::new(fx(2.0), s));
    let h = xs.hit().unwrap();
    assert_eq!(h.t, fx(1.0));
}

#[test]
fn hit_mixed_signs() {
    let s = Sphere::default();
    let mut xs: Intersections<Sphere> = Intersections::new();
    xs.push(Intersection::new(fx(1.0), s));
    xs.push(Intersection::new(fx(-1.0), s));
    let h = xs.hit().unwrap();
    assert_eq!(h.t, fx(1.0));
}

#[test]
fn hit_all_negative() {
    let s = Sphere::default();
    let mut xs: Intersections<Sphere> = Intersections::new();
    xs.push(Intersection::new(fx(-2.0), s));
    xs.push(Intersection::new(fx(-1.0), s));
    assert!(xs.hit().is_none());
}

#[test]
fn hit_smallest_nonnegative_of_many() {
    let s = Sphere::default();
    let mut xs: Intersections<Sphere> = Intersections::new();
    xs.push(Intersection::new(fx(5.0), s));
    xs.push(Intersection::new(fx(7.0), s));
    xs.push(Intersection::new(fx(-3.0), s));
    xs.push(Intersection::new(fx(2.0), s));
    let h = xs.hit().unwrap();
    assert_eq!(h.t, fx(2.0));
}

#[test]
fn intersections_stay_sorted() {
    let s = Sphere::default();
    let mut xs: Intersections<Sphere> = Intersections::new();
    xs.push(Intersection::new(fx(3.0), s));
    xs.push(Intersection::new(fx(-1.0), s));
    xs.push(Intersection::new(fx(2.0), s));
    assert_eq!(xs.len(), 3);
    assert_eq!(xs.get(0).t, fx(-1.0));
    assert_eq!(xs.get(1).t, fx(2.0));
    assert_eq!(xs.get(2).t, fx(3.0));
}

#[test]
fn whole_pipeline_hit() {
    let s = Sphere::default();
    let r = Ray::new(point(fx(0.0), fx(0.0), fx(-5.0)), vector(fx(0.0), fx(0.0), fx(1.0)));
    let xs = s.intersect(r).unwrap();
    assert_eq!(xs.len(), 2);
    assert_eq!(xs.get(0).t, 4 * FX_ONE);
    assert_eq!(xs.get(1).t, 6 * FX_ONE);
    let h = xs.hit().unwrap();
    assert_eq!(h.t, 4 * FX_ONE);
}

#[test]
fn tuple_arithmetic() {
    let a = vector(fx(1.0), fx(2.0), fx(3.0));
    let b = vector(fx(2.0), fx(3.0), fx(4.0));
    assert_eq!(a.dot(&b), 20 * FX_ONE);
    let c = a.cross(&b);
    assert!(c.approx_eq(&vector(fx(-1.0), fx(2.0), fx(-1.0))));
    let d = a.add(&b);
    assert_eq!(d, vector(fx(3.0), fx(5.0), fx(7.0)));
    let e = b.sub(&a);
    assert_eq!(e, vector(fx(1.0), fx(1.0), fx(1.0)));
    assert_eq!(a.neg(), vector(fx(-1.0), fx(-2.0), fx(-3.0)));
    assert!(a.scale(fx(2.0)).approx_eq(&vector(fx(2.0), fx(4.0), fx(6.0))));
}

#[test]
fn magnitude_and_normalize() {
    let v = vector(fx(1.0), fx(2.0), fx(3.0));
    assert!(near(v.magnitude(), fx(14.0f64.sqrt())));
    let u = vector(fx(4.0), fx(0.0), fx(0.0)).normalize();
    assert!(u.approx_eq(&vector(fx(1.0), fx(0.0), fx(0.0))));
    let n = v.normalize();
    assert!(near(n.magnitude(), FX_ONE));
}

#[test]
fn reflect_flat_and_slanted() {
    let v = vector(fx(1.0), fx(-1.0), fx(0.0));
    let n = vector(fx(0.0), fx(1.0), fx(0.0));
    assert!(v.reflect(&n).approx_eq(&vector(fx(1.0), fx(1.0), fx(0.0))));
    let v2 = vector(fx(0.0), fx(-1.0), fx(0.0));
    let half = std::f64::consts::FRAC_1_SQRT_2;
    let n2 = vector(fx(half), fx(half), fx(0.0));
    assert!(v2.reflect(&n2).approx_eq(&vector(fx(1.0), fx(0.0), fx(0.0))));
}

#[test]
fn transform_constructors() {
    let p = point(fx(-3.0), fx(4.0), fx(5.0));
    let t = Matrix::get_translation_matrix(fx(5.0), fx(-3.0), fx(2.0));
    assert!(t.mul_tuple(&p).approx_eq(&point(fx(2.0), fx(1.0), fx(7.0))));
    let sc = Matrix::get_scaling_matrix(fx(2.0), fx(3.0), fx(4.0));
    assert!(sc.mul_tuple(&point(fx(-4.0), fx(6.0), fx(8.0))).approx_eq(&point(
        fx(-8.0),
        fx(18.0),
        fx(32.0)
    )));
    let rz = Matrix::get_rotation_z_matrix(fx(FRAC_PI_2.cos()), fx(FRAC_PI_2.sin()));
    assert!(rz.mul_tuple(&point(fx(0.0), fx(1.0), fx(0.0))).approx_eq(&point(
        fx(-1.0),
        fx(0.0),
        fx(0.0)
    )));
    let sh = Matrix::get_shearing_matrix(fx(1.0), fx(0.0), fx(0.0), fx(0.0), fx(0.0), fx(0.0));
    assert!(sh.mul_tuple(&point(fx(2.0), fx(3.0), fx(4.0))).approx_eq(&point(
        fx(5.0),
        fx(3.0),
        fx(4.0)
    )));
}

#[test]
fn inverse_undoes_a_transform() {
    let t = Matrix::get_translation_matrix(fx(5.0), fx(-3.0), fx(2.0));
    let inv = t.inverse().unwrap();
    let p = point(fx(2.0), fx(1.0), fx(7.0));
    assert!(inv.mul_tuple(&t.mul_tuple(&p)).approx_eq(&p));
    let sc = Matrix::get_scaling_matrix(fx(2.0), fx(0.5), fx(4.0));
    let inv2 = sc.inverse().unwrap();
    assert!(inv2.mul_tuple(&sc.mul_tuple(&p)).approx_eq(&p));
}

#[test]
fn inverse_undoes_a_composite_transform() {
    let t = Matrix::get_translation_matrix(fx(1.0), fx(2.0), fx(3.0));
    let sh = Matrix::get_shearing_matrix(fx(1.0), fx(0.5), fx(0.0), fx(0.25), fx(0.0), fx(0.1));
    let sc = Matrix::get_scaling_matrix(fx(2.0), fx(0.5), fx(4.0));
    let m = t.mul(&sh).mul(&sc);
    let inv = m.inverse().unwrap();
    let p = point(fx(1.5), fx(-2.0), fx(0.5));
    assert!(inv.mul_tuple(&m.mul_tuple(&p)).approx_eq(&p));
}

#[test]
fn singular_matrix_has_no_inverse() {
    let z = Matrix::get_scaling_matrix(fx(0.0), fx(0.0), fx(0.0));
    assert!(z.inverse().is_none());
}

#[test]
fn determinant_of_identity() {
    assert!(near(Matrix::I().determinant(), FX_ONE));
    let sc = Matrix::get_scaling_matrix(fx(2.0), fx(3.0), fx(4.0));
    assert!(near(sc.determinant(), fx(24.0)));
}

#[test]
fn ray_position_walks_the_ray() {
    let r = Ray::new(point(fx(2.0), fx(3.0), fx(4.0)), vector(fx(1.0), fx(0.0), fx(0.0)));
    assert!(r.position(fx(0.0)).approx_eq(&point(fx(2.0), fx(3.0), fx(4.0))));
    assert!(r.position(fx(1.0)).approx_eq(&point(fx(3.0), fx(3.0), fx(4.0))));
    assert!(r.position(fx(-1.0)).approx_eq(&point(fx(1.0), fx(3.0), fx(4.0))));
    assert!(r.position(fx(2.5)).approx_eq(&point(fx(4.5), fx(3.0), fx(4.0))));
}

#[test]
fn projectile_tick_adds_velocity_and_forces() {
    let mut e = Environment {
        gravity: vector(fx(0.0), fx(-0.1), fx(0.0)),
        wind: vector(fx(-0.01), fx(0.0), fx(0.0)),
        projectile: Projectile {
            position: point(fx(0.0), fx(1.0), fx(0.0)),
            velocity: vector(fx(1.0), fx(1.0), fx(0.0)),
        },
    };
    e.tick();
    assert_eq!(e.projectile.position, point(fx(1.0), fx(2.0), fx(0.0)));
    assert_eq!(
        e.projectile.velocity,
        vector(fx(1.0) + fx(-0.01), fx(1.0) + fx(-0.1), fx(0.0))
    );
}

#[test]
fn color_arithmetic() {
    let c1 = Color::new(fx(1.0), fx(0.2), fx(0.4));
    let c2 = Color::new(fx(0.9), fx(1.0), fx(0.1));
    assert!(c1.mul(&c2).approx_eq(&Color::new(fx(0.9), fx(0.2), fx(0.04))));
    assert!(c1.add(&c2).approx_eq(&Color::new(fx(1.9), fx(1.2), fx(0.5))));
    assert!(c1.scale(fx(2.0)).approx_eq(&Color::new(fx(2.0), fx(0.4), fx(0.8))));
    assert_eq!(Color::black(), Color::new(fx(0.0), fx(0.0), fx(0.0)));
}

#[test]
fn fixed_point_primitives() {
    assert_eq!(tracer::fx_mul(fx(1.5), fx(2.0)), fx(3.0));
    assert_eq!(tracer::fx_div(fx(3.0), fx(2.0)), fx(1.5));
    assert_eq!(tracer::fx_sqrt(4), 2);
    assert_eq!(tracer::fx_pow(FX_ONE, 200), FX_ONE);
    assert_eq!(tracer::fx_pow(fx(0.5), 2), fx(0.25));
    assert_eq!(tracer::fx_pow(fx(0.5), 0), FX_ONE);
}
