//! Surface materials and the Phong lighting model.

use crate::color::{color_bounded, Color};
use crate::fixed::{fx_pow, fxd, fxm, fxpow_s, isqrt_s, lemma_fxm_mag, FX_ONE};
use crate::light::Light;
use crate::matrix::RAY_MAX;
use crate::tuple::{dot_s, tup_bounded, Tuple};
use vstd::prelude::*;

verus! {

/// Bound on a color channel accepted by `lighting` (2^34, about 64 in real
/// terms; nominal channels lie in [0, 1]).
pub const CHAN_MAX: i128 = 17179869184;

/// Bound on a unit-length direction handed to `lighting` (twice 1.0).
pub const UNIT_MAX: i128 = 536870912;

const EFF_MAX: i128 = 1099511627776;

const UDOT_TERM: i128 = 2147483648;

const NDOT_MAX: i128 = 8589934592;

const RTERM_MAX: i128 = 34359738368;

/// A surface: a color and the four Phong reflectance parameters.  The
/// shininess is a plain integer exponent (typically 10 to 200).
#[derive(Clone, Copy, Debug, PartialEq, Eq, Structural)]
pub struct Material {
    pub color: Color,
    pub ambient: i128,
    pub diffuse: i128,
    pub specular: i128,
    pub shininess: u64,
}

/// The lighting result, channel by channel, as nested definitions mirroring
/// the Phong model of the design: ambient always; diffuse and specular only
/// when the point is lit and facing the light.
pub open spec fn lighting_s(
    m: Material,
    light: Light,
    hit_point: Tuple,
    eyev: Tuple,
    normalv: Tuple,
    in_shadow: bool,
) -> (int, int, int) {
    let er = fxm(m.color.red as int, light.intensity.red as int);
    let eg = fxm(m.color.green as int, light.intensity.green as int);
    let eb = fxm(m.color.blue as int, light.intensity.blue as int);
    let ar = fxm(er, m.ambient as int);
    let ag = fxm(eg, m.ambient as int);
    let ab = fxm(eb, m.ambient as int);
    if in_shadow {
        (ar, ag, ab)
    } else {
        let dx = light.position.x - hit_point.x;
        let dy = light.position.y - hit_point.y;
        let dz = light.position.z - hit_point.z;
        let dw = light.position.w - hit_point.w;
        let mg = isqrt_s(dx * dx + dy * dy + dz * dz);
        let lx = fxd(dx, mg);
        let ly = fxd(dy, mg);
        let lz = fxd(dz, mg);
        let lw = fxd(dw, mg);
        let ldn = fxm(lx, normalv.x as int) + fxm(ly, normalv.y as int) + fxm(
            lz,
            normalv.z as int,
        ) + fxm(lw, normalv.w as int);
        if ldn < 0 {
            (ar, ag, ab)
        } else {
            let dr = fxm(fxm(er, m.diffuse as int), ldn);
            let dg = fxm(fxm(eg, m.diffuse as int), ldn);
            let db = fxm(fxm(eb, m.diffuse as int), ldn);
            let nd = fxm(-lx, normalv.x as int) + fxm(-ly, normalv.y as int) + fxm(
                -lz,
                normalv.z as int,
            ) + fxm(-lw, normalv.w as int);
            let rx = -lx - fxm(normalv.x as int, 2 * nd);
            let ry = -ly - fxm(normalv.y as int, 2 * nd);
            let rz = -lz - fxm(normalv.z as int, 2 * nd);
            let rw = -lw - fxm(normalv.w as int, 2 * nd);
            let rde = fxm(rx, eyev.x as int) + fxm(ry, eyev.y as int) + fxm(rz, eyev.z as int)
                + fxm(rw, eyev.w as int);
            if rde <= 0 {
                (ar + dr, ag + dg, ab + db)
            } else {
                let base = if rde > FX_ONE { FX_ONE as int } else { rde };
                let f = fxpow_s(base, m.shininess as nat);
                let sr = fxm(fxm(light.intensity.red as int, m.specular as int), f);
                let sg = fxm(fxm(light.intensity.green as int, m.specular as int), f);
                let sb = fxm(fxm(light.intensity.blue as int, m.specular as int), f);
                (ar + dr + sr, ag + dg + sg, ab + db + sb)
            }
        }
    }
}

/// The canonical default material as a value: white, ambient 0.1, diffuse
/// 0.9, specular 0.9, shininess 200.
pub open spec fn default_material_s() -> Material {
    Material {
        color: Color { red: FX_ONE, green: FX_ONE, blue: FX_ONE },
        ambient: 26843546,
        diffuse: 241591910,
        specular: 241591910,
        shininess: 200u64,
    }
}

impl Material {
    pub fn new(color: Color, ambient: i128, diffuse: i128, specular: i128, shininess: u64) -> (r:
        Material)
        ensures
            r == (Material { color, ambient, diffuse, specular, shininess }),
    {
        Material { color, ambient, diffuse, specular, shininess }
    }

    /// Phong shading at a hit point: ambient plus, when the point is lit and
    /// faces the light, diffuse and specular contributions.  The result may
    /// exceed 1.0 per channel; nothing clamps here.
    #[verifier::rlimit(60)]
    pub fn lighting(
        &self,
        light: Light,
        hit_point: Tuple,
        eyev: Tuple,
        normalv: Tuple,
        in_shadow: bool,
    ) -> (r: Color)
        requires
            color_bounded(self.color, CHAN_MAX as int),
            color_bounded(light.intensity, CHAN_MAX as int),
            0 <= self.ambient <= FX_ONE,
            0 <= self.diffuse <= FX_ONE,
            0 <= self.specular <= FX_ONE,
            tup_bounded(hit_point, RAY_MAX as int),
            tup_bounded(light.position, RAY_MAX as int),
            hit_point.w == FX_ONE,
            light.position.w == FX_ONE,
            tup_bounded(eyev, UNIT_MAX as int),
            tup_bounded(normalv, UNIT_MAX as int),
            !in_shadow ==> ({
                let dx = light.position.x - hit_point.x;
                let dy = light.position.y - hit_point.y;
                let dz = light.position.z - hit_point.z;
                dx * dx + dy * dy + dz * dz >= 1
            }),
        ensures
            ({
                let (cr, cg, cb) = lighting_s(*self, light, hit_point, eyev, normalv, in_shadow);
                r.red == cr && r.green == cg && r.blue == cb
            }),
    {
        proof {
            lemma_fxm_mag(self.color.red as int, light.intensity.red as int, CHAN_MAX as int, CHAN_MAX as int, EFF_MAX as int);
            lemma_fxm_mag(self.color.green as int, light.intensity.green as int, CHAN_MAX as int, CHAN_MAX as int, EFF_MAX as int);
            lemma_fxm_mag(self.color.blue as int, light.intensity.blue as int, CHAN_MAX as int, CHAN_MAX as int, EFF_MAX as int);
        }
        let effective_color = self.color.mul(&light.intensity);
        let ambient = effective_color.scale(self.ambient);
        if in_shadow {
            return ambient;
        }
        let lightv = light.position.sub(&hit_point).normalize();
        let light_dot_normal = lightv.dot(&normalv);
        if light_dot_normal < 0 {
            return ambient;
        }
        proof {
            lemma_fxm_mag(effective_color.red as int, self.diffuse as int, EFF_MAX as int, FX_ONE as int, EFF_MAX as int);
            lemma_fxm_mag(effective_color.green as int, self.diffuse as int, EFF_MAX as int, FX_ONE as int, EFF_MAX as int);
            lemma_fxm_mag(effective_color.blue as int, self.diffuse as int, EFF_MAX as int, FX_ONE as int, EFF_MAX as int);
        }
        let diffuse = effective_color.scale(self.diffuse).scale(light_dot_normal);
        let neg_lightv = lightv.neg();
        proof {
            let nd = dot_s(neg_lightv, normalv);
            lemma_fxm_mag(neg_lightv.x as int, normalv.x as int, UNIT_MAX + 1, UNIT_MAX as int, UDOT_TERM as int);
            lemma_fxm_mag(neg_lightv.y as int, normalv.y as int, UNIT_MAX + 1, UNIT_MAX as int, UDOT_TERM as int);
            lemma_fxm_mag(neg_lightv.z as int, normalv.z as int, UNIT_MAX + 1, UNIT_MAX as int, UDOT_TERM as int);
            lemma_fxm_mag(neg_lightv.w as int, normalv.w as int, UNIT_MAX + 1, UNIT_MAX as int, UDOT_TERM as int);
            assert(-NDOT_MAX <= nd <= NDOT_MAX);
            lemma_fxm_mag(normalv.x as int, 2 * nd, UNIT_MAX as int, 2 * NDOT_MAX, RTERM_MAX as int);
            lemma_fxm_mag(normalv.y as int, 2 * nd, UNIT_MAX as int, 2 * NDOT_MAX, RTERM_MAX as int);
            lemma_fxm_mag(normalv.z as int, 2 * nd, UNIT_MAX as int, 2 * NDOT_MAX, RTERM_MAX as int);
            lemma_fxm_mag(normalv.w as int, 2 * nd, UNIT_MAX as int, 2 * NDOT_MAX, RTERM_MAX as int);
        }
        let reflectv = neg_lightv.reflect(&normalv);
        let reflect_dot_eye = reflectv.dot(&eyev);
        if reflect_dot_eye <= 0 {
            return ambient.add(&diffuse);
        }
        let base = if reflect_dot_eye > FX_ONE {
            FX_ONE
        } else {
            reflect_dot_eye
        };
        let factor = fx_pow(base, self.shininess);
        proof {
            lemma_fxm_mag(light.intensity.red as int, self.specular as int, CHAN_MAX as int, FX_ONE as int, CHAN_MAX as int);
            lemma_fxm_mag(light.intensity.green as int, self.specular as int, CHAN_MAX as int, FX_ONE as int, CHAN_MAX as int);
            lemma_fxm_mag(light.intensity.blue as int, self.specular as int, CHAN_MAX as int, FX_ONE as int, CHAN_MAX as int);
        }
        let specular = light.intensity.scale(self.specular).scale(factor);
        ambient.add(&diffuse).add(&specular)
    }
}

impl Default for Material {
    /// The canonical material: white, ambient 0.1, diffuse 0.9, specular 0.9,
    /// shininess 200.
    fn default() -> (r: Material)
        ensures
            r == default_material_s(),
    {
        Material {
            color: Color { red: FX_ONE, green: FX_ONE, blue: FX_ONE },
            ambient: 26843546,
            diffuse: 241591910,
            specular: 241591910,
            shininess: 200,
        }
    }
}

} // verus!
