use std::f64::consts::FRAC_1_SQRT_2;
use tracer::{point, vector, Color, Light, Material, FX_ONE};

fn fx(v: f64) -> i128 {
    (v * 268435456.0).round() as i128
}

#[test]
fn material_default() {
    let m = Material::default();
    assert_eq!(m.color, Color::new(fx(1.0), fx(1.0), fx(1.0)));
    assert_eq!(m.ambient, fx(0.1));
    assert_eq!(m.diffuse, fx(0.9));
    assert_eq!(m.specular, fx(0.9));
    assert_eq!(m.shininess, 200);
}

#[test]
fn lighting_with_eye_between_light_and_surface() {
    let m = Material::default();
    let position = point(fx(0.0), fx(0.0), fx(0.0));
    let eyev = vector(fx(0.0), fx(0.0), fx(-1.0));
    let normalv = vector(fx(0.0), fx(0.0), fx(-1.0));
    let light = Light::new(point(fx(0.0), fx(0.0), fx(-10.0)), Color::new(fx(1.0), fx(1.0), fx(1.0)));
    let in_shadow = false;
    let result = m.lighting(light, position, eyev, normalv, in_shadow);
    assert!(result.approx_eq(&Color::new(fx(1.9), fx(1.9), fx(1.9))));
}

#[test]
fn lighting_with_eye_between_light_and_surface_eye_45_degrees() {
    let m = Material::default();
    let position = point(fx(0.0), fx(0.0), fx(0.0));
    let eyev = vector(fx(0.0), fx(FRAC_1_SQRT_2), fx(-FRAC_1_SQRT_2));
    let normalv = vector(fx(0.0), fx(0.0), fx(-1.0));
    let light = Light::new(point(fx(0.0), fx(0.0), fx(-10.0)), Color::new(fx(1.0), fx(1.0), fx(1.0)));
    let in_shadow = false;
    let result = m.lighting(light, position, eyev, normalv, in_shadow);
    assert!(result.approx_eq(&Color::new(fx(1.0), fx(1.0), fx(1.0))));
}

#[test]
fn lighting_with_eye_opposite_surface_light_45_degrees() {
    let m = Material::default();
    let position = point(fx(0.0), fx(0.0), fx(0.0));
    let eyev = vector(fx(0.0), fx(0.0), fx(-1.0));
    let normalv = vector(fx(0.0), fx(0.0), fx(-1.0));
    let light = Light::new(point(fx(0.0), fx(10.0), fx(-10.0)), Color::new(fx(1.0), fx(1.0), fx(1.0)));
    let in_shadow = false;
    let result = m.lighting(light, position, eyev, normalv, in_shadow);
    assert!(result.approx_eq(&Color::new(fx(0.7364), fx(0.7364), fx(0.7364))));
}

#[test]
fn lighting_with_eye_in_path_of_reflection_vector() {
    let m = Material::default();
    let position = point(fx(0.0), fx(0.0), fx(0.0));
    let eyev = vector(fx(0.0), fx(-FRAC_1_SQRT_2), fx(-FRAC_1_SQRT_2));
    let normalv = vector(fx(0.0), fx(0.0), fx(-1.0));
    let light = Light::new(point(fx(0.0), fx(10.0), fx(-10.0)), Color::new(fx(1.0), fx(1.0), fx(1.0)));
    let in_shadow = false;
    let result = m.lighting(light, position, eyev, normalv, in_shadow);
    assert!(result.approx_eq(&Color::new(fx(1.636396), fx(1.636396), fx(1.636396))));
}

#[test]
fn lighting_with_light_behind_surface() {
    let m = Material::default();
    let position = point(fx(0.0), fx(0.0), fx(0.0));
    let eyev = vector(fx(0.0), fx(0.0), fx(-1.0));
    let normalv = vector(fx(0.0), fx(0.0), fx(-1.0));
    let light = Light::new(point(fx(0.0), fx(0.0), fx(10.0)), Color::new(fx(1.0), fx(1.0), fx(1.0)));
    let in_shadow = false;
    let result = m.lighting(light, position, eyev, normalv, in_shadow);
    assert!(result.approx_eq(&Color::new(fx(0.1), fx(0.1), fx(0.1))));
}

#[test]
fn lighting_with_surface_in_shadow() {
    let m = Material::default();
    let light = Light::new(point(fx(0.0), fx(0.0), fx(-10.0)), Color::new(fx(1.0), fx(1.0), fx(1.0)));
    let hit_point = point(fx(0.0), fx(0.0), fx(0.0));
    let eyev = vector(fx(0.0), fx(0.0), fx(-1.0));
    let normalv = vector(fx(0.0), fx(0.0), fx(-1.0));
    let in_shadow = true;
    let result = m.lighting(light, hit_point, eyev, normalv, in_shadow);
    assert!(result.approx_eq(&Color::new(fx(0.1), fx(0.1), fx(0.1))));
}

#[test]
fn lighting_new_material_ambient_only() {
    let m = Material::new(Color::new(fx(0.5), fx(0.5), fx(0.5)), fx(1.0), fx(0.0), fx(0.0), 10);
    let light = Light::new(point(fx(0.0), fx(0.0), fx(-10.0)), Color::new(fx(1.0), fx(1.0), fx(1.0)));
    let result = m.lighting(
        light,
        point(fx(0.0), fx(0.0), fx(0.0)),
        vector(fx(0.0), fx(0.0), fx(-1.0)),
        vector(fx(0.0), fx(0.0), fx(-1.0)),
        false,
    );
    assert!(result.approx_eq(&Color::new(fx(0.5), fx(0.5), fx(0.5))));
}
