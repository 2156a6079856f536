//! Per-surface shading parameters.

use crate::color::c3;
use crate::color::czero_s;
use crate::color::Color;
use vstd::prelude::*;
use vstd::string::StringExecFns;

verus! {

/// An immutable value type owned (by copy) by each primitive: base
/// color, Phong shininess exponent, the albedo weights
/// `[diffuse, specular, reflective, transmissive]`, the refractive
/// index, and a name tag that selects a procedural texture.
#[derive(Clone, Debug)]
pub struct Material {
    pub color: Color,
    pub shininess: u32,
    pub albedo: [i64; 4],
    pub refractive_index: i64,
    pub name: String,
}

impl Material {
    pub fn new(color: Color, shininess: u32, albedo: [i64; 4], refractive_index: i64, name: &str) -> (m:
        Material)
        ensures
            m.color == color,
            m.shininess == shininess,
            m.albedo == albedo,
            m.refractive_index == refractive_index,
            m.name@ == name@,
    {
        Material { color, shininess, albedo, refractive_index, name: String::from_str(name) }
    }

    /// The zero-contribution sentinel material.
    pub fn black() -> (m: Material)
        ensures
            c3(m.color) == czero_s(),
            m.shininess == 0,
            m.albedo[0] == 0 && m.albedo[1] == 0 && m.albedo[2] == 0 && m.albedo[3] == 0,
            m.refractive_index == 0,
            m.name@ == "black"@,
    {
        Material::new(Color::black(), 0, [0i64, 0i64, 0i64, 0i64], 0, "black")
    }

    /// A field-for-field copy of this material.
    pub fn duplicate(&self) -> (m: Material)
        ensures
            m == *self,
    {
        Material {
            color: self.color,
            shininess: self.shininess,
            albedo: self.albedo,
            refractive_index: self.refractive_index,
            name: self.name.clone(),
        }
    }
}

/// The no-hit sentinel material, field for field: black, matte, with
/// every albedo weight and the refractive index zero, named "default".
pub open spec fn default_material_s(m: Material) -> bool {
    &&& c3(m.color) == czero_s()
    &&& m.shininess == 0
    &&& m.albedo[0] == 0
    &&& m.albedo[1] == 0
    &&& m.albedo[2] == 0
    &&& m.albedo[3] == 0
    &&& m.refractive_index == 0
    &&& m.name@ == "default"@
}

impl Default for Material {
    /// The material of the no-hit record.
    fn default() -> (m: Self)
        ensures
            default_material_s(m),
    {
        Material::new(Color::black(), 0, [0i64, 0i64, 0i64, 0i64], 0, "default")
    }
}

} // verus!
