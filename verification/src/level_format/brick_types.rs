//! Brick categories used to pick decals, and the decals themselves.

use vstd::prelude::*;

use crate::level_format::{is_multi_hit_brick, spec_is_multi_hit_brick};

verus! {

/// Category of a brick as far as decals are concerned.
#[derive(Debug, Clone, Copy, PartialEq, Eq, Hash, Structural)]
pub enum BrickType {
    Standard,
    Indestructible,
    MultiHit,
}

/// A decal shown centered on the top face of a brick.
#[derive(Debug, Clone)]
pub struct Decal {
    /// Category of brick the decal belongs to.
    pub brick_type: BrickType,
    /// Asset path of the normal map from which the render handle is loaded, if any.
    pub normal_map_handle: Option<String>,
}

impl Default for Decal {
    fn default() -> (d: Self)
        ensures
            d.brick_type == BrickType::Standard,
            d.normal_map_handle.is_none(),
    {
        Decal { brick_type: BrickType::Standard, normal_map_handle: None }
    }
}

impl Decal {
    /// A decal is valid for exactly the brick type it was made for.
    pub fn is_valid_for_type(&self, brick_type: &BrickType) -> (r: bool)
        ensures
            r == (self.brick_type == *brick_type),
    {
        self.brick_type == *brick_type
    }

    /// Decals are always placed centered on the brick's top face.
    pub fn is_centered_on_top(&self) -> (r: bool)
        ensures
            r,
    {
        true
    }

    /// Decals are always rendered.
    pub fn is_visible(&self) -> (r: bool)
        ensures
            r,
    {
        true
    }

    /// Decal assets are loaded once and shared.
    pub fn asset_handle_is_reused(&self) -> (r: bool)
        ensures
            r,
    {
        true
    }

    /// Whether the decal carries a normal map.
    pub fn has_normal_map(&self) -> (r: bool)
        ensures
            r == self.normal_map_handle.is_some(),
    {
        self.normal_map_handle.is_some()
    }

    /// A normal map is visible under lighting exactly when it is present.
    pub fn normal_map_visible_under_lighting(&self) -> (r: bool)
        ensures
            r == self.normal_map_handle.is_some(),
    {
        self.has_normal_map()
    }

    /// The relief effect looks the same from every angle exactly when a normal map is present.
    pub fn effect_consistent_from_different_angles(&self) -> (r: bool)
        ensures
            r == self.normal_map_handle.is_some(),
    {
        self.has_normal_map()
    }
}

pub open spec fn spec_brick_type_from_id(id: u8) -> Option<BrickType> {
    if id == 20 {
        Some(BrickType::Standard)
    } else if id == 90 {
        Some(BrickType::Indestructible)
    } else if spec_is_multi_hit_brick(id) {
        Some(BrickType::MultiHit)
    } else {
        None
    }
}

impl BrickType {
    /// Maps a level-file brick id to its decal category, as the level format
    /// numbers them: 20 is standard, 90 indestructible, the multi-hit bricks
    /// (10 to 13) multi-hit; every other id has none.
    pub fn from_id(id: u8) -> (r: Option<Self>)
        ensures
            r == spec_brick_type_from_id(id),
    {
        match id {
            20 => Some(BrickType::Standard),
            90 => Some(BrickType::Indestructible),
            _ => if is_multi_hit_brick(id) {
                Some(BrickType::MultiHit)
            } else {
                None
            },
        }
    }
}

pub open spec fn spec_normal_map_path(brick_type: BrickType) -> Seq<char> {
    match brick_type {
        BrickType::Standard => "textures/decals/standard_normal.png"@,
        BrickType::Indestructible => "textures/decals/indestructible_normal.png"@,
        BrickType::MultiHit => "textures/decals/multihit_normal.png"@,
    }
}

/// Asset path of the normal map used for a brick category.
pub fn normal_map_path(brick_type: BrickType) -> (p: &'static str)
    ensures
        p@ == spec_normal_map_path(brick_type),
{
    match brick_type {
        BrickType::Standard => "textures/decals/standard_normal.png",
        BrickType::Indestructible => "textures/decals/indestructible_normal.png",
        BrickType::MultiHit => "textures/decals/multihit_normal.png",
    }
}

/// The decal for a brick category: that category, with its normal map.
pub fn create_decal_for_type(brick_type: &BrickType) -> (d: Decal)
    ensures
        d.brick_type == *brick_type,
        d.normal_map_handle matches Some(p) && p@ == spec_normal_map_path(*brick_type),
{
    Decal {
        brick_type: *brick_type,
        normal_map_handle: Some(String::from_str(normal_map_path(*brick_type))),
    }
}

/// The decal for a level-file brick id; ids without a category fall back to
/// the standard decal.
pub fn decal_for_brick_id(brick_type_id: u8) -> (d: Decal)
    ensures
        d.brick_type == (match spec_brick_type_from_id(brick_type_id) {
            Some(t) => t,
            None => BrickType::Standard,
        }),
        d.normal_map_handle matches Some(p) && p@ == spec_normal_map_path(d.brick_type),
{
    match BrickType::from_id(brick_type_id) {
        Some(t) => create_decal_for_type(&t),
        None => create_decal_for_type(&BrickType::Standard),
    }
}

/// The decal categories follow the level format: exactly the multi-hit
/// bricks 10 to 13 are multi-hit, 20 is standard, 90 indestructible, and
/// every other id has no category.
pub proof fn brick_categories_follow_the_level_format(id: u8)
    ensures
        (spec_brick_type_from_id(id) == Some(BrickType::MultiHit)) <==> (10 <= id && id <= 13),
        spec_brick_type_from_id(20) == Some(BrickType::Standard),
        spec_brick_type_from_id(90) == Some(BrickType::Indestructible),
        id != 20 && id != 90 && !(10 <= id && id <= 13) ==> spec_brick_type_from_id(id) is None,
{
}

} // verus!
