use vstd::prelude::*;

verus! {

/// A 2D texture object.
#[derive(Debug)]
pub struct Texture2D {
    pub id: u32,
}

/// What binding a texture asks of the driver: make texture unit `unit`
/// active, set nearest filtering, and bind `texture` to its 2D target.
#[derive(Clone, Copy, Debug, PartialEq, Eq, Structural)]
pub struct TextureBinding {
    pub unit: u32,
    pub texture: u32,
}

/// Whether `unit` may be bound: with a limit (the driver's count of texture
/// image units, read where checks are on) it must lie below it; with none,
/// every unit passes.
pub open spec fn unit_allowed(unit: u32, max_texture_image_units: Option<u32>) -> bool {
    match max_texture_image_units {
        Some(m) => unit < m,
        None => true,
    }
}

/// Checks `unit` against the driver's count of texture image units, where
/// one was read; where none was (checks off), every unit passes.
pub fn check_max_texture_image_units(unit: u32, max_texture_image_units: Option<u32>) -> (r: bool)
    ensures
        r == unit_allowed(unit, max_texture_image_units),
{
    match max_texture_image_units {
        Some(m) => unit < m,
        None => true,
    }
}

/// With checks off (no limit read) every unit may be bound; with a limit,
/// a unit at or above it never may, and one below it always may.
pub proof fn lemma_unit_check_only_with_limit(unit: u32, max_texture_image_units: u32)
    ensures
        unit_allowed(unit, None),
        unit >= max_texture_image_units ==> !unit_allowed(unit, Some(max_texture_image_units)),
        unit < max_texture_image_units ==> unit_allowed(unit, Some(max_texture_image_units)),
{
}

impl Texture2D {
    /// Binds this texture to `unit`. Where a limit is given, a unit at or
    /// above it is a caller error; with none the bind goes ahead whatever
    /// the unit.
    pub fn bind(&self, unit: u32, max_texture_image_units: Option<u32>) -> (r: TextureBinding)
        requires
            unit_allowed(unit, max_texture_image_units),
        ensures
            r == (TextureBinding { unit, texture: self.id }),
    {
        TextureBinding { unit, texture: self.id }
    }
}

} // verus!
