//! Level overrides of the ground, background and side-wall materials: the
//! presentation of the current level names the profiles that replace the
//! canonical ones.

use vstd::prelude::*;
use vstd::string::*;
use std::collections::HashMap;

use crate::systems::textures::loader::{copy_opt_string, opt_view, LevelTextureSet};
use crate::systems::textures::materials::{BaselineMaterialKind, CanonicalMaterialIds};
use crate::text::{decimal, push_decimal};

verus! {

/// The override profiles of the current level, as plain values.
pub struct PresentationView {
    pub level_number: u32,
    pub ground_profile: Option<Seq<char>>,
    pub background_profile: Option<Seq<char>>,
    pub sidewall_profile: Option<Seq<char>>,
}

/// The override profiles of the current level (level 0: none loaded).
#[derive(Debug, Clone)]
pub struct LevelPresentation {
    level_number: u32,
    ground_profile: Option<String>,
    background_profile: Option<String>,
    sidewall_profile: Option<String>,
}

impl View for LevelPresentation {
    type V = PresentationView;

    closed spec fn view(&self) -> PresentationView {
        PresentationView {
            level_number: self.level_number,
            ground_profile: opt_view(self.ground_profile),
            background_profile: opt_view(self.background_profile),
            sidewall_profile: opt_view(self.sidewall_profile),
        }
    }
}

/// The presentation of `level_number` given the manifest's overrides.
pub open spec fn spec_for_level(level_number: u32, overrides: Map<u32, LevelTextureSet>) -> PresentationView {
    if overrides.contains_key(level_number) {
        let set = overrides[level_number];
        PresentationView {
            level_number,
            ground_profile: opt_view(set.ground_profile),
            background_profile: opt_view(set.background_profile),
            sidewall_profile: opt_view(set.sidewall_profile),
        }
    } else {
        PresentationView {
            level_number,
            ground_profile: None,
            background_profile: None,
            sidewall_profile: None,
        }
    }
}

/// The override profile of a kind: only the ground, background and side
/// walls have one.
pub open spec fn spec_override_profile(p: PresentationView, kind: BaselineMaterialKind) -> Option<
    Seq<char>,
> {
    match kind {
        BaselineMaterialKind::Ground => p.ground_profile,
        BaselineMaterialKind::Background => p.background_profile,
        BaselineMaterialKind::Sidewall => p.sidewall_profile,
        _ => None,
    }
}

/// The override of each kind is the profile of that same kind in the level's
/// texture set: the ground, background and side-wall profiles of the set of
/// `level_number`, none for every other kind, and none at all for a level
/// without a texture set.
pub proof fn overrides_come_from_the_level_set(
    level_number: u32,
    overrides: Map<u32, LevelTextureSet>,
    kind: BaselineMaterialKind,
)
    ensures
        ({
            let p = spec_for_level(level_number, overrides);
            &&& overrides.contains_key(level_number) ==> {
                let set = overrides[level_number];
                &&& spec_override_profile(p, BaselineMaterialKind::Ground) == opt_view(
                    set.ground_profile,
                )
                &&& spec_override_profile(p, BaselineMaterialKind::Background) == opt_view(
                    set.background_profile,
                )
                &&& spec_override_profile(p, BaselineMaterialKind::Sidewall) == opt_view(
                    set.sidewall_profile,
                )
            }
            &&& !overrides.contains_key(level_number) ==> spec_override_profile(p, kind) is None
            &&& kind != BaselineMaterialKind::Ground && kind != BaselineMaterialKind::Background
                && kind != BaselineMaterialKind::Sidewall ==> spec_override_profile(p, kind) is None
        }),
{
}

pub open spec fn opt_ref_view(s: Option<&String>) -> Option<Seq<char>> {
    match s {
        Some(x) => Some(x@),
        None => None,
    }
}

impl Default for LevelPresentation {
    fn default() -> (p: Self)
        ensures
            p@ == (PresentationView {
                level_number: 0,
                ground_profile: None,
                background_profile: None,
                sidewall_profile: None,
            }),
    {
        LevelPresentation {
            level_number: 0,
            ground_profile: None,
            background_profile: None,
            sidewall_profile: None,
        }
    }
}

impl LevelPresentation {
    /// The presentation of `level_number`: the override set of that level,
    /// or no override.
    pub fn for_level(level_number: u32, overrides: &HashMap<u32, LevelTextureSet>) -> (p: Self)
        ensures
            p@ == spec_for_level(level_number, overrides@),
    {
        match overrides.get(&level_number) {
            Some(set) => LevelPresentation {
                level_number,
                ground_profile: copy_opt_string(&set.ground_profile),
                background_profile: copy_opt_string(&set.background_profile),
                sidewall_profile: copy_opt_string(&set.sidewall_profile),
            },
            None => LevelPresentation {
                level_number,
                ground_profile: None,
                background_profile: None,
                sidewall_profile: None,
            },
        }
    }

    pub fn level_number(&self) -> (n: u32)
        ensures
            n == self@.level_number,
    {
        self.level_number
    }

    pub fn ground_profile(&self) -> (r: Option<&String>)
        ensures
            opt_ref_view(r) == self@.ground_profile,
    {
        self.ground_profile.as_ref()
    }

    pub fn background_profile(&self) -> (r: Option<&String>)
        ensures
            opt_ref_view(r) == self@.background_profile,
    {
        self.background_profile.as_ref()
    }

    pub fn sidewall_profile(&self) -> (r: Option<&String>)
        ensures
            opt_ref_view(r) == self@.sidewall_profile,
    {
        self.sidewall_profile.as_ref()
    }

    /// Forgets the level: level 0, no override.
    pub fn reset(&mut self)
        ensures
            final(self)@ == (PresentationView {
                level_number: 0,
                ground_profile: None,
                background_profile: None,
                sidewall_profile: None,
            }),
    {
        self.level_number = 0;
        self.ground_profile = None;
        self.background_profile = None;
        self.sidewall_profile = None;
    }

    /// Becomes the presentation of `level_number`.
    pub fn update_from(&mut self, level_number: u32, overrides: &HashMap<u32, LevelTextureSet>)
        ensures
            final(self)@ == spec_for_level(level_number, overrides@),
    {
        *self = Self::for_level(level_number, overrides);
    }

    /// The profile that replaces the canonical material of `kind`, if any.
    pub fn override_profile_for(&self, kind: BaselineMaterialKind) -> (r: Option<&String>)
        ensures
            opt_ref_view(r) == spec_override_profile(self@, kind),
    {
        match kind {
            BaselineMaterialKind::Ground => self.ground_profile.as_ref(),
            BaselineMaterialKind::Background => self.background_profile.as_ref(),
            BaselineMaterialKind::Sidewall => self.sidewall_profile.as_ref(),
            _ => None,
        }
    }
}

/// The name of a kind in messages.
pub open spec fn spec_kind_name(kind: BaselineMaterialKind) -> Seq<char> {
    match kind {
        BaselineMaterialKind::Ball => "Ball"@,
        BaselineMaterialKind::Paddle => "Paddle"@,
        BaselineMaterialKind::Brick => "Brick"@,
        BaselineMaterialKind::Sidewall => "Sidewall"@,
        BaselineMaterialKind::Ground => "Ground"@,
        BaselineMaterialKind::Background => "Background"@,
        BaselineMaterialKind::Merkaba => "Merkaba"@,
    }
}

fn kind_name(kind: BaselineMaterialKind) -> (s: &'static str)
    ensures
        s@ == spec_kind_name(kind),
{
    match kind {
        BaselineMaterialKind::Ball => "Ball",
        BaselineMaterialKind::Paddle => "Paddle",
        BaselineMaterialKind::Brick => "Brick",
        BaselineMaterialKind::Sidewall => "Sidewall",
        BaselineMaterialKind::Ground => "Ground",
        BaselineMaterialKind::Background => "Background",
        BaselineMaterialKind::Merkaba => "Merkaba",
    }
}

/// `level <n>: override profile '<id>' not found for <kind>`.
pub open spec fn missing_override_warning(level: u32, id: Seq<char>, kind: BaselineMaterialKind) -> Seq<char> {
    "level "@ + decimal(level as nat) + ": override profile '"@ + id + "' not found for "@
        + spec_kind_name(kind)
}

/// Where the material of a kind comes from for the current level.
#[derive(Debug, Clone, Copy, PartialEq, Eq, Structural)]
pub enum MaterialSource {
    /// This material.
    Material(u64),
    /// The canonical materials have none for the kind.
    NoMaterial,
    /// The fallback material of the kind.
    Fallback,
}

/// The material source of a kind, and the warning to log once first, if any.
#[derive(Debug, Clone)]
pub struct OverrideChoice {
    pub warning: Option<String>,
    pub source: MaterialSource,
}

/// What a level's own override gives for a kind: the override profile's
/// material, or none, with the warning to log once when a profile was named
/// but is not baked.
#[derive(Debug, Clone)]
pub struct OverrideLookup {
    pub material: Option<u64>,
    pub warning: Option<String>,
}

impl LevelPresentation {
    /// Looks up the override of `kind` for this level. `override_material`
    /// is the baked material of the override profile, if it is baked. With no
    /// override profile the result is empty; with one that is not baked it
    /// holds no material and the warning naming the level, profile and kind.
    pub fn resolve_material(&self, kind: BaselineMaterialKind, override_material: Option<u64>) -> (r:
        OverrideLookup)
        ensures
            ({
                let profile = spec_override_profile(self@, kind);
                &&& profile is Some && override_material is Some ==> r.material
                    == override_material && r.warning is None
                &&& !(profile is Some && override_material is Some) ==> r.material is None
                &&& profile is None ==> r.warning is None
                &&& profile is Some && override_material is None ==> (r.warning matches Some(w)
                    && w@ == missing_override_warning(self@.level_number, profile->0, kind))
            }),
    {
        match self.override_profile_for(kind) {
            Some(id) => match override_material {
                Some(h) => OverrideLookup { material: Some(h), warning: None },
                None => {
                    let mut w = String::from_str("level ");
                    push_decimal(&mut w, self.level_number());
                    w.append(": override profile '");
                    w.append(id.as_str());
                    w.append("' not found for ");
                    w.append(kind_name(kind));
                    OverrideLookup { material: None, warning: Some(w) }
                },
            },
            None => OverrideLookup { material: None, warning: None },
        }
    }
}

/// Resolves a kind's material: its override profile's material when the
/// profile is baked (`override_material` is the baked material of the
/// override profile, if any); else, with a warning when an override profile
/// was named but is not baked, the canonical material, or the fallback when
/// there are no canonical materials.
pub fn resolve_override_or_canonical(
    presentation: &LevelPresentation,
    kind: BaselineMaterialKind,
    override_material: Option<u64>,
    canonical: Option<&CanonicalMaterialIds>,
) -> (c: OverrideChoice)
    ensures
        ({
            let profile = spec_override_profile(presentation@, kind);
            &&& profile is Some && override_material is Some ==> c.source == MaterialSource::Material(
                override_material->0,
            ) && c.warning is None
            &&& !(profile is Some && override_material is Some) ==> {
                &&& c.source == match canonical {
                    Some(ids) => match ids.spec_get(kind) {
                        Some(h) => MaterialSource::Material(h),
                        None => MaterialSource::NoMaterial,
                    },
                    None => MaterialSource::Fallback,
                }
                &&& match profile {
                    Some(id) => c.warning matches Some(w) && w@ == missing_override_warning(
                        presentation@.level_number,
                        id,
                        kind,
                    ),
                    None => c.warning is None,
                }
            }
        }),
{
    let lookup = presentation.resolve_material(kind, override_material);
    match lookup.material {
        Some(h) => OverrideChoice { warning: None, source: MaterialSource::Material(h) },
        None => {
            let source = match canonical {
                Some(ids) => match ids.get(kind) {
                    Some(h) => MaterialSource::Material(h),
                    None => MaterialSource::NoMaterial,
                },
                None => MaterialSource::Fallback,
            };
            OverrideChoice { warning: lookup.warning, source }
        },
    }
}

/// After the manifest or the baked profiles changed, the presentation of a
/// loaded level (not level 0) is rebuilt from the manifest, when there is one.
pub fn refresh_presentation_on_manifest_change(
    presentation: &mut LevelPresentation,
    manifest_changed: bool,
    bank_changed: bool,
    overrides: Option<&HashMap<u32, LevelTextureSet>>,
)
    ensures
        (manifest_changed || bank_changed) && old(presentation)@.level_number != 0
            && overrides is Some ==> final(presentation)@ == spec_for_level(
            old(presentation)@.level_number,
            overrides->0@,
        ),
        !((manifest_changed || bank_changed) && old(presentation)@.level_number != 0
            && overrides is Some) ==> final(presentation)@ == old(presentation)@,
{
    if !manifest_changed && !bank_changed {
        return;
    }
    let level_number = presentation.level_number();
    if level_number == 0 {
        return;
    }
    match overrides {
        Some(m) => presentation.update_from(level_number, m),
        None => {},
    }
}

/// When the current level changed: the presentation becomes that level's,
/// or, with no manifest loaded yet, is reset.
pub fn sync_level_presentation(
    presentation: &mut LevelPresentation,
    level_changed: bool,
    level_number: u32,
    overrides: Option<&HashMap<u32, LevelTextureSet>>,
)
    ensures
        !level_changed ==> final(presentation)@ == old(presentation)@,
        level_changed ==> final(presentation)@ == match overrides {
            Some(m) => spec_for_level(level_number, m@),
            None => PresentationView {
                level_number: 0,
                ground_profile: None,
                background_profile: None,
                sidewall_profile: None,
            },
        },
{
    if !level_changed {
        return;
    }
    match overrides {
        Some(m) => presentation.update_from(level_number, m),
        None => presentation.reset(),
    }
}

} // verus!
