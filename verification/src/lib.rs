mod color;
mod fixed;
mod intersection;
mod light;
mod material;
mod matrix;
mod plane;
mod projectile;
mod ray;
mod shape;
mod sphere;
mod tuple;
mod utils;

pub use color::Color;
pub use intersection::{Intersection, Intersections};
pub use fixed::{fx_div, fx_mul, fx_pow, fx_sqrt, EPSILON, FX_ONE};
pub use light::Light;
pub use material::Material;
pub use matrix::Matrix;
pub use plane::Plane;
pub use projectile::{Environment, Projectile};
pub use ray::Ray;
pub use shape::Shape;
pub use sphere::Sphere;
pub use tuple::{point, vector, Tuple};
pub use utils::Compare;
