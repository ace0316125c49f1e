//! Material selection: the canonical profile of each baseline kind, the
//! fallback materials used when a profile is missing (with each warning
//! logged once), and the materials given to paddles, balls and bricks once
//! the canonical materials are ready.

use vstd::prelude::*;
use vstd::string::*;

use std::collections::HashMap;

use crate::systems::textures::loader::ObjectClass;
use crate::text::{decimal, push_decimal, spec_starts_with, starts_with};

verus! {

/// The objects with a canonical baseline material.
#[derive(Debug, Clone, Copy, PartialEq, Eq, Hash, Structural)]
pub enum BaselineMaterialKind {
    Ball,
    Paddle,
    Brick,
    Sidewall,
    Ground,
    Background,
    Merkaba,
}

/// The fallback material buckets.
#[derive(Debug, Clone, Copy, PartialEq, Eq, Hash, Structural)]
pub enum FallbackMaterial {
    Ball,
    Paddle,
    Brick,
    Merkaba,
    Sidewall,
    Ground,
    Background,
}

pub open spec fn spec_fallback_for(value: BaselineMaterialKind) -> FallbackMaterial {
    match value {
        BaselineMaterialKind::Ball => FallbackMaterial::Ball,
        BaselineMaterialKind::Paddle => FallbackMaterial::Paddle,
        BaselineMaterialKind::Brick => FallbackMaterial::Brick,
        BaselineMaterialKind::Sidewall => FallbackMaterial::Sidewall,
        BaselineMaterialKind::Ground => FallbackMaterial::Ground,
        BaselineMaterialKind::Background => FallbackMaterial::Background,
        BaselineMaterialKind::Merkaba => FallbackMaterial::Merkaba,
    }
}

impl From<BaselineMaterialKind> for FallbackMaterial {
    fn from(value: BaselineMaterialKind) -> (r: Self) {
        match value {
            BaselineMaterialKind::Ball => FallbackMaterial::Ball,
            BaselineMaterialKind::Paddle => FallbackMaterial::Paddle,
            BaselineMaterialKind::Brick => FallbackMaterial::Brick,
            BaselineMaterialKind::Sidewall => FallbackMaterial::Sidewall,
            BaselineMaterialKind::Ground => FallbackMaterial::Ground,
            BaselineMaterialKind::Background => FallbackMaterial::Background,
            BaselineMaterialKind::Merkaba => FallbackMaterial::Merkaba,
        }
    }
}

impl vstd::std_specs::convert::FromSpecImpl<BaselineMaterialKind> for FallbackMaterial {
    open spec fn obeys_from_spec() -> bool {
        true
    }

    open spec fn from_spec(v: BaselineMaterialKind) -> FallbackMaterial {
        spec_fallback_for(v)
    }
}

/// The canonical profile of each baseline kind.
pub open spec fn spec_profile_id(kind: BaselineMaterialKind) -> Seq<char> {
    match kind {
        BaselineMaterialKind::Ball => "ball/default"@,
        BaselineMaterialKind::Paddle => "paddle/default"@,
        BaselineMaterialKind::Brick => "brick/default"@,
        BaselineMaterialKind::Sidewall => "sidewall/default"@,
        BaselineMaterialKind::Ground => "ground/default"@,
        BaselineMaterialKind::Background => "background/default"@,
        BaselineMaterialKind::Merkaba => "merkaba/default"@,
    }
}

impl BaselineMaterialKind {
    /// The id of the kind's canonical profile.
    pub fn profile_id(self) -> (s: &'static str)
        ensures
            s@ == spec_profile_id(self),
    {
        match self {
            BaselineMaterialKind::Ball => "ball/default",
            BaselineMaterialKind::Paddle => "paddle/default",
            BaselineMaterialKind::Brick => "brick/default",
            BaselineMaterialKind::Sidewall => "sidewall/default",
            BaselineMaterialKind::Ground => "ground/default",
            BaselineMaterialKind::Background => "background/default",
            BaselineMaterialKind::Merkaba => "merkaba/default",
        }
    }
}

/// The position of a kind in the list of baseline profiles.
pub open spec fn kind_index(kind: BaselineMaterialKind) -> int {
    match kind {
        BaselineMaterialKind::Ball => 0,
        BaselineMaterialKind::Paddle => 1,
        BaselineMaterialKind::Brick => 2,
        BaselineMaterialKind::Sidewall => 3,
        BaselineMaterialKind::Ground => 4,
        BaselineMaterialKind::Background => 5,
        BaselineMaterialKind::Merkaba => 6,
    }
}

/// The baseline kinds, in the order of their profiles.
pub open spec fn baseline_kinds_spec() -> Seq<BaselineMaterialKind> {
    seq![
        BaselineMaterialKind::Ball,
        BaselineMaterialKind::Paddle,
        BaselineMaterialKind::Brick,
        BaselineMaterialKind::Sidewall,
        BaselineMaterialKind::Ground,
        BaselineMaterialKind::Background,
        BaselineMaterialKind::Merkaba,
    ]
}

pub fn baseline_kinds() -> (v: Vec<BaselineMaterialKind>)
    ensures
        v@ == baseline_kinds_spec(),
        forall|i: int| 0 <= i < 7 ==> kind_index(#[trigger] v@[i]) == i,
{
    let v = vec![
        BaselineMaterialKind::Ball,
        BaselineMaterialKind::Paddle,
        BaselineMaterialKind::Brick,
        BaselineMaterialKind::Sidewall,
        BaselineMaterialKind::Ground,
        BaselineMaterialKind::Background,
        BaselineMaterialKind::Merkaba,
    ];
    assert(v@ =~= baseline_kinds_spec());
    v
}

fn kind_slot(kind: BaselineMaterialKind) -> (i: usize)
    ensures
        i == kind_index(kind),
        i < 7,
{
    match kind {
        BaselineMaterialKind::Ball => 0,
        BaselineMaterialKind::Paddle => 1,
        BaselineMaterialKind::Brick => 2,
        BaselineMaterialKind::Sidewall => 3,
        BaselineMaterialKind::Ground => 4,
        BaselineMaterialKind::Background => 5,
        BaselineMaterialKind::Merkaba => 6,
    }
}

/// The asset path of a manifest texture: paths are taken relative to the
/// `textures/` directory unless they already start there.
pub open spec fn spec_manifest_asset_path(relative: Seq<char>) -> Seq<char> {
    if spec_starts_with(relative, "textures/"@) {
        relative
    } else {
        "textures/"@ + relative
    }
}

pub fn manifest_asset_path(relative: &str) -> (p: String)
    ensures
        p@ == spec_manifest_asset_path(relative@),
{
    if starts_with(relative, "textures/") {
        String::from_str(relative)
    } else {
        let mut p = String::from_str("textures/");
        p.append(relative);
        p
    }
}

pub open spec fn views(v: Seq<String>) -> Seq<Seq<char>> {
    v.map_values(|s: String| s@)
}

/// The fallback material of each bucket.
#[derive(Debug, Clone, Copy, PartialEq, Eq, Structural)]
pub struct FallbackHandles {
    pub ball: u64,
    pub paddle: u64,
    pub brick: u64,
    pub sidewall: u64,
    pub ground: u64,
    pub background: u64,
    pub merkaba: u64,
}

pub open spec fn spec_fallback_handle(h: FallbackHandles, kind: FallbackMaterial) -> u64 {
    match kind {
        FallbackMaterial::Ball => h.ball,
        FallbackMaterial::Paddle => h.paddle,
        FallbackMaterial::Brick => h.brick,
        FallbackMaterial::Sidewall => h.sidewall,
        FallbackMaterial::Ground => h.ground,
        FallbackMaterial::Background => h.background,
        FallbackMaterial::Merkaba => h.merkaba,
    }
}

/// The fallback materials, and the warnings already logged.
#[derive(Debug)]
pub struct FallbackRegistry {
    handles: FallbackHandles,
    warned: Vec<String>,
}

impl FallbackRegistry {
    /// A registry with the given materials and no warning logged yet.
    pub fn new(handles: FallbackHandles) -> (r: Self)
        ensures
            r.spec_handles() == handles,
            r.logged() == Set::<Seq<char>>::empty(),
    {
        let r = FallbackRegistry { handles, warned: Vec::new() };
        assert(views(r.warned@).to_set() =~= Set::<Seq<char>>::empty());
        r
    }

    /// The fallback materials.
    pub closed spec fn spec_handles(self) -> FallbackHandles {
        self.handles
    }

    /// The warnings logged so far.
    pub closed spec fn logged(self) -> Set<Seq<char>> {
        views(self.warned@).to_set()
    }

    /// The fallback material of a bucket.
    pub fn handle(&self, kind: FallbackMaterial) -> (h: u64)
        ensures
            h == spec_fallback_handle(self.spec_handles(), kind),
    {
        match kind {
            FallbackMaterial::Ball => self.handles.ball,
            FallbackMaterial::Paddle => self.handles.paddle,
            FallbackMaterial::Brick => self.handles.brick,
            FallbackMaterial::Sidewall => self.handles.sidewall,
            FallbackMaterial::Ground => self.handles.ground,
            FallbackMaterial::Background => self.handles.background,
            FallbackMaterial::Merkaba => self.handles.merkaba,
        }
    }

    /// Records the warning `id`; true the first time it is seen (the caller
    /// then logs it), false afterwards.
    pub fn log_once(&mut self, id: String) -> (first: bool)
        ensures
            first == !old(self).logged().contains(id@),
            final(self).logged() == old(self).logged().insert(id@),
            final(self).spec_handles() == old(self).spec_handles(),
    {
        let ghost before = views(self.warned@);
        let mut i: usize = 0;
        while i < self.warned.len()
            invariant
                i <= self.warned@.len(),
                before == views(self.warned@),
                forall|k: int| 0 <= k < i ==> before[k] != id@,
            decreases self.warned@.len() - i,
        {
            if self.warned[i] == id {
                assert(before[i as int] == id@);
                assert(before.to_set().contains(id@));
                assert(before.to_set().insert(id@) =~= before.to_set());
                return false;
            }
            i += 1;
        }
        assert(!before.contains(id@));
        self.warned.push(id);
        proof {
            let after = views(self.warned@);
            assert(after =~= before.push(id@));
            assert(after.to_set() =~= before.to_set().insert(id@)) by {
                assert forall|x: Seq<char>| after.to_set().contains(x) <==> before.to_set().insert(
                    id@,
                ).contains(x) by {
                    if after.contains(x) {
                        let k = choose|k: int| 0 <= k < after.len() && after[k] == x;
                        if k < before.len() {
                            assert(before[k] == x);
                        }
                    }
                    if before.contains(x) {
                        let k = choose|k: int| 0 <= k < before.len() && before[k] == x;
                        assert(after[k] == x);
                    }
                    if x == id@ {
                        assert(after[before.len() as int] == x);
                    }
                }
            }
        }
        true
    }
}

/// The canonical material of each baseline kind, once the profiles are baked.
#[derive(Debug)]
pub struct CanonicalMaterialIds {
    handles: Vec<Option<u64>>,
    ready: bool,
}

impl CanonicalMaterialIds {
    /// No material yet, not ready.
    pub fn new() -> (c: Self)
        ensures
            !c.spec_ready(),
            forall|k: BaselineMaterialKind| #[trigger] c.spec_get(k) is None,
    {
        CanonicalMaterialIds { handles: vec![None, None, None, None, None, None, None], ready: false }
    }

    pub closed spec fn wf(self) -> bool {
        self.handles@.len() == 7
    }

    /// The material of `kind`, if known.
    pub closed spec fn spec_get(self, kind: BaselineMaterialKind) -> Option<u64> {
        if self.handles@.len() == 7 {
            self.handles@[kind_index(kind)]
        } else {
            None
        }
    }

    pub closed spec fn spec_ready(self) -> bool {
        self.ready
    }

    pub fn get(&self, kind: BaselineMaterialKind) -> (h: Option<u64>)
        ensures
            h == self.spec_get(kind),
    {
        if self.handles.len() == 7 {
            self.handles[kind_slot(kind)]
        } else {
            None
        }
    }

    pub fn is_ready(&self) -> (r: bool)
        ensures
            r == self.spec_ready(),
    {
        self.ready
    }

    /// Takes each kind's material from the baked profiles (`baked`, in the
    /// order of the baseline kinds), or the fallback material when its
    /// profile is missing, logging `missing profile <id>; using fallback`;
    /// then marks the materials ready.
    pub fn sync(&mut self, baked: &Vec<Option<u64>>, fallback: &mut FallbackRegistry)
        requires
            baked@.len() == 7,
        ensures
            final(self).spec_ready(),
            forall|k: BaselineMaterialKind| #[trigger] final(self).spec_get(k) == Some(
                match baked@[kind_index(k)] {
                    Some(h) => h,
                    None => spec_fallback_handle(old(fallback).spec_handles(), spec_fallback_for(k)),
                },
            ),
            final(fallback).logged() == old(fallback).logged().union(
                missing_profile_warnings(baked@),
            ),
            final(fallback).spec_handles() == old(fallback).spec_handles(),
    {
        let kinds = baseline_kinds();
        let mut handles: Vec<Option<u64>> = Vec::new();
        let mut i: usize = 0;
        let ghost fb0 = *fallback;
        assert(warnings_upto(baked@, 0) =~= Set::<Seq<char>>::empty());
        assert(fb0.logged().union(warnings_upto(baked@, 0)) =~= fb0.logged());
        while i < 7
            invariant
                i <= 7,
                kinds@ == baseline_kinds_spec(),
                forall|j: int| 0 <= j < 7 ==> kind_index(#[trigger] kinds@[j]) == j,
                baked@.len() == 7,
                handles@.len() == i,
                forall|j: int|
                    0 <= j < i ==> #[trigger] handles@[j] == Some(
                        match baked@[j] {
                            Some(h) => h,
                            None => spec_fallback_handle(fb0.spec_handles(), spec_fallback_for(kinds@[j])),
                        },
                    ),
                fallback.logged() == fb0.logged().union(warnings_upto(baked@, i as int)),
                fallback.spec_handles() == fb0.spec_handles(),
            decreases 7 - i,
        {
            let kind = kinds[i];
            let h = match baked[i] {
                Some(h) => h,
                None => {
                    let msg = missing_profile_message(kind);
                    let _ = fallback.log_once(msg);
                    fallback.handle(FallbackMaterial::from(kind))
                },
            };
            proof {
                lemma_warnings_step(baked@, i as int);
            }
            handles.push(Some(h));
            i += 1;
        }
        self.handles = handles;
        self.ready = true;
        proof {
            assert forall|k: BaselineMaterialKind| #[trigger] self.spec_get(k) == Some(
                match baked@[kind_index(k)] {
                    Some(h) => h,
                    None => spec_fallback_handle(fb0.spec_handles(), spec_fallback_for(k)),
                },
            ) by {
                let j = kind_index(k);
                assert(kinds@[j] == k) by {
                    assert(kind_index(kinds@[j]) == j);
                }
            }
            lemma_warnings_all(baked@);
        }
    }
}

/// The warnings for the baseline kinds among the first `i` whose profile was
/// not baked.
pub open spec fn warnings_upto(baked: Seq<Option<u64>>, i: int) -> Set<Seq<char>> {
    Set::new(
        |m: Seq<char>|
            exists|j: int|
                0 <= j < i && baked[j] is None && m == missing_profile_warning(
                    #[trigger] baseline_kinds_spec()[j],
                ),
    )
}

/// The warnings for the baseline kinds whose profile was not baked.
pub open spec fn missing_profile_warnings(baked: Seq<Option<u64>>) -> Set<Seq<char>> {
    Set::new(
        |m: Seq<char>|
            exists|k: BaselineMaterialKind|
                baked[kind_index(k)] is None && m == #[trigger] missing_profile_warning(k),
    )
}

proof fn lemma_kinds_indexed()
    ensures
        forall|j: int| 0 <= j < 7 ==> kind_index(#[trigger] baseline_kinds_spec()[j]) == j,
        forall|k: BaselineMaterialKind| #[trigger] baseline_kinds_spec()[kind_index(k)] == k,
{
}

proof fn lemma_warnings_step(baked: Seq<Option<u64>>, i: int)
    requires
        0 <= i < 7,
        baked.len() == 7,
    ensures
        warnings_upto(baked, i + 1) == if baked[i] is None {
            warnings_upto(baked, i).insert(missing_profile_warning(baseline_kinds_spec()[i]))
        } else {
            warnings_upto(baked, i)
        },
{
    let next = warnings_upto(baked, i + 1);
    let expected = if baked[i] is None {
        warnings_upto(baked, i).insert(missing_profile_warning(baseline_kinds_spec()[i]))
    } else {
        warnings_upto(baked, i)
    };
    assert forall|m: Seq<char>| next.contains(m) <==> expected.contains(m) by {
        if next.contains(m) {
            let j = choose|j: int|
                0 <= j < i + 1 && baked[j] is None && m == missing_profile_warning(
                    #[trigger] baseline_kinds_spec()[j],
                );
            if j < i {
                assert(warnings_upto(baked, i).contains(m));
            }
        }
        if warnings_upto(baked, i).contains(m) {
            let j = choose|j: int|
                0 <= j < i && baked[j] is None && m == missing_profile_warning(
                    #[trigger] baseline_kinds_spec()[j],
                );
            assert(0 <= j < i + 1);
        }
        if baked[i] is None && m == missing_profile_warning(baseline_kinds_spec()[i]) {
            assert(next.contains(m));
        }
    }
    assert(next =~= expected);
}

proof fn lemma_warnings_all(baked: Seq<Option<u64>>)
    requires
        baked.len() == 7,
    ensures
        warnings_upto(baked, 7) == missing_profile_warnings(baked),
{
    lemma_kinds_indexed();
    let a = warnings_upto(baked, 7);
    let b = missing_profile_warnings(baked);
    assert forall|m: Seq<char>| a.contains(m) <==> b.contains(m) by {
        if a.contains(m) {
            let j = choose|j: int|
                0 <= j < 7 && baked[j] is None && m == missing_profile_warning(
                    #[trigger] baseline_kinds_spec()[j],
                );
            let k = baseline_kinds_spec()[j];
            assert(kind_index(k) == j);
            assert(b.contains(m));
        }
        if b.contains(m) {
            let k = choose|k: BaselineMaterialKind|
                baked[kind_index(k)] is None && m == #[trigger] missing_profile_warning(k);
            let j = kind_index(k);
            assert(baseline_kinds_spec()[j] == k);
            assert(a.contains(m));
        }
    }
    assert(a =~= b);
}

/// `missing profile <id>; using fallback`.
pub open spec fn missing_profile_warning(kind: BaselineMaterialKind) -> Seq<char> {
    "missing profile "@ + spec_profile_id(kind) + "; using fallback"@
}

fn missing_profile_message(kind: BaselineMaterialKind) -> (s: String)
    ensures
        s@ == missing_profile_warning(kind),
{
    let mut s = String::from_str("missing profile ");
    s.append(kind.profile_id());
    s.append("; using fallback");
    s
}

/// Where a material comes from.
#[derive(Debug, Clone, PartialEq, Eq)]
pub enum MaterialChoice {
    /// A known material.
    Material(u64),
    /// The fallback material of the kind, logging this warning first (once).
    Fallback(Option<String>),
}

pub open spec fn choice_matches(c: MaterialChoice, material: Option<u64>, warning: Option<Seq<char>>) -> bool {
    match c {
        MaterialChoice::Material(h) => material == Some(h) && warning is None,
        MaterialChoice::Fallback(w) => material is None && match w {
            Some(s) => warning == Some(s@),
            None => warning is None,
        },
    }
}

/// `<context>: missing canonical profile '<id>'`.
pub open spec fn missing_canonical_warning(ctx: Seq<char>, kind: BaselineMaterialKind) -> Seq<char> {
    ctx + ": missing canonical profile '"@ + spec_profile_id(kind) + "'"@
}

/// `<context>: canonical handles unavailable; defaulting to '<id>'`.
pub open spec fn canonical_unavailable_warning(ctx: Seq<char>, kind: BaselineMaterialKind) -> Seq<
    char,
> {
    ctx + ": canonical handles unavailable; defaulting to '"@ + spec_profile_id(kind) + "'"@
}

/// The canonical material of `kind` when there is one. Otherwise the
/// fallback: silently while the canonical materials are not ready, with a
/// warning once they are (the profile is missing) or when they do not exist.
pub fn baseline_material_handle(
    canonical: Option<&CanonicalMaterialIds>,
    kind: BaselineMaterialKind,
    warn_context: &str,
) -> (c: MaterialChoice)
    ensures
        match canonical {
            Some(ids) => match ids.spec_get(kind) {
                Some(h) => choice_matches(c, Some(h), None),
                None => if !ids.spec_ready() {
                    choice_matches(c, None, None)
                } else {
                    choice_matches(c, None, Some(missing_canonical_warning(warn_context@, kind)))
                },
            },
            None => choice_matches(
                c,
                None,
                Some(canonical_unavailable_warning(warn_context@, kind)),
            ),
        },
{
    match canonical {
        Some(ids) => {
            match ids.get(kind) {
                Some(h) => MaterialChoice::Material(h),
                None => {
                    if !ids.is_ready() {
                        MaterialChoice::Fallback(None)
                    } else {
                        let mut w = String::from_str(warn_context);
                        w.append(": missing canonical profile '");
                        w.append(kind.profile_id());
                        w.append("'");
                        MaterialChoice::Fallback(Some(w))
                    }
                },
            }
        },
        None => {
            let mut w = String::from_str(warn_context);
            w.append(": canonical handles unavailable; defaulting to '");
            w.append(kind.profile_id());
            w.append("'");
            MaterialChoice::Fallback(Some(w))
        },
    }
}

/// `<context>: no type variant for brick type <n>`.
pub open spec fn missing_variant_warning(ctx: Seq<char>, brick_type: u8) -> Seq<char> {
    ctx + ": no type variant for brick type "@ + decimal(brick_type as nat)
}

/// A brick's type-variant material when the registry has one, else the
/// fallback brick material with a warning.
pub fn brick_type_material_handle(variant: Option<u64>, brick_type: u8, warn_context: &str) -> (c:
    MaterialChoice)
    ensures
        match variant {
            Some(h) => choice_matches(c, Some(h), None),
            None => choice_matches(c, None, Some(missing_variant_warning(warn_context@, brick_type))),
        },
{
    match variant {
        Some(h) => MaterialChoice::Material(h),
        None => {
            let mut w = String::from_str(warn_context);
            w.append(": no type variant for brick type ");
            push_decimal(&mut w, brick_type as u32);
            MaterialChoice::Fallback(Some(w))
        },
    }
}

/// Takes the fallback material of `kind`, logging `warning` first when one
/// is given (a warning is logged once only).
pub fn use_fallback(fallback: &mut FallbackRegistry, kind: FallbackMaterial, warning: Option<String>) -> (h: u64)
    ensures
        h == spec_fallback_handle(old(fallback).spec_handles(), kind),
        final(fallback).spec_handles() == old(fallback).spec_handles(),
        final(fallback).logged() == match warning {
            Some(w) => old(fallback).logged().insert(w@),
            None => old(fallback).logged(),
        },
{
    match warning {
        Some(w) => {
            let _ = fallback.log_once(w);
        },
        None => {},
    }
    fallback.handle(kind)
}

/// The material of one paddle, ball or brick, and whether it was just added.
#[derive(Debug, Clone, Copy, PartialEq, Eq, Structural)]
pub struct MaterialSlot {
    pub material: u64,
    /// The type-variant material of the object's type, when the registry
    /// has one (always none for paddles).
    pub variant: Option<u64>,
    pub newly_added: bool,
}

/// The slot after the pass: a selected slot takes the target material.
pub open spec fn slot_after(s: MaterialSlot, target: Option<u64>, force: bool) -> MaterialSlot {
    if (force || s.newly_added) && target is Some {
        MaterialSlot { material: target->0, ..s }
    } else {
        s
    }
}

/// Whether the pass changes the slot's material.
pub open spec fn slot_changes(s: MaterialSlot, target: Option<u64>, force: bool) -> bool {
    (force || s.newly_added) && target is Some && target->0 != s.material
}

pub open spec fn count_changes(ss: Seq<MaterialSlot>, canonical: Option<u64>, use_variant: bool, force: bool) -> nat
    decreases ss.len(),
{
    if ss.len() == 0 {
        0
    } else {
        count_changes(ss.drop_last(), canonical, use_variant, force) + if slot_changes(
            ss.last(),
            target_for(ss.last(), canonical, use_variant),
            force,
        ) {
            1nat
        } else {
            0nat
        }
    }
}

/// The target material of a slot: its type variant when variants apply and
/// it has one, else the canonical material.
pub open spec fn target_for(s: MaterialSlot, canonical: Option<u64>, use_variant: bool) -> Option<u64> {
    if use_variant && s.variant is Some {
        s.variant
    } else {
        canonical
    }
}

proof fn lemma_count_changes_bound(ss: Seq<MaterialSlot>, canonical: Option<u64>, use_variant: bool, force: bool)
    ensures
        count_changes(ss, canonical, use_variant, force) <= ss.len(),
    decreases ss.len(),
{
    if ss.len() > 0 {
        lemma_count_changes_bound(ss.drop_last(), canonical, use_variant, force);
    }
}

fn apply_to_slots(slots: &mut Vec<MaterialSlot>, canonical: Option<u64>, use_variant: bool, force: bool) -> (n: usize)
    ensures
        final(slots)@.len() == old(slots)@.len(),
        forall|i: int|
            0 <= i < old(slots)@.len() ==> #[trigger] final(slots)@[i] == slot_after(
                old(slots)@[i],
                target_for(old(slots)@[i], canonical, use_variant),
                force,
            ),
        n == count_changes(old(slots)@, canonical, use_variant, force),
{
    let ghost orig = slots@;
    let mut n: usize = 0;
    let mut i: usize = 0;
    assert(orig.take(0) =~= Seq::<MaterialSlot>::empty());
    while i < slots.len()
        invariant
            slots@.len() == orig.len(),
            i <= orig.len(),
            forall|k: int|
                0 <= k < i ==> #[trigger] slots@[k] == slot_after(
                    orig[k],
                    target_for(orig[k], canonical, use_variant),
                    force,
                ),
            forall|k: int| i <= k < orig.len() ==> #[trigger] slots@[k] == orig[k],
            n == count_changes(orig.take(i as int), canonical, use_variant, force),
            n <= i,
        decreases orig.len() - i,
    {
        let s = slots[i];
        let target = if use_variant && s.variant.is_some() {
            s.variant
        } else {
            canonical
        };
        assert(orig.take(i + 1).drop_last() =~= orig.take(i as int));
        assert(orig.take(i + 1).last() == s);
        if force || s.newly_added {
            match target {
                Some(t) => {
                    if t != s.material {
                        slots.set(i, MaterialSlot { material: t, ..s });
                        n += 1;
                    }
                },
                None => {},
            }
        }
        i += 1;
    }
    assert(orig.take(i as int) =~= orig);
    n
}

/// How many materials each pass changed.
#[derive(Debug, Clone, Copy, PartialEq, Eq, Structural)]
pub struct MaterialUpdates {
    pub paddles: usize,
    pub balls: usize,
    pub bricks: usize,
}

/// Whether the pass runs at all: the canonical materials exist and are
/// ready, and either they (or the variant registry) changed or some object
/// was just added.
pub open spec fn pass_runs(
    canonical: Option<&CanonicalMaterialIds>,
    force_update: bool,
    paddles: Seq<MaterialSlot>,
    balls: Seq<MaterialSlot>,
    bricks: Seq<MaterialSlot>,
) -> bool {
    &&& canonical matches Some(c) && c.spec_ready()
    &&& force_update || (exists|i: int| 0 <= i < paddles.len() && paddles[i].newly_added) || (exists|i: int|
        0 <= i < balls.len() && balls[i].newly_added) || (exists|i: int|
        0 <= i < bricks.len() && bricks[i].newly_added)
}

fn any_added(slots: &Vec<MaterialSlot>) -> (r: bool)
    ensures
        r == exists|i: int| 0 <= i < slots@.len() && slots@[i].newly_added,
{
    let mut i: usize = 0;
    while i < slots.len()
        invariant
            i <= slots@.len(),
            forall|k: int| 0 <= k < i ==> !slots@[k].newly_added,
        decreases slots@.len() - i,
    {
        if slots[i].newly_added {
            return true;
        }
        i += 1;
    }
    false
}

/// Gives the canonical materials to paddles, balls and bricks once they are
/// ready: every object when the materials (or the variant registry) changed
/// (`force_update`), else only the objects just added. Paddles take the
/// canonical paddle material; balls and bricks their type variant when the
/// registry has one, else the canonical ball or brick material. Returns the
/// number of materials changed.
pub fn apply_canonical_materials_to_existing_entities(
    canonical: Option<&CanonicalMaterialIds>,
    force_update: bool,
    paddles: &mut Vec<MaterialSlot>,
    balls: &mut Vec<MaterialSlot>,
    bricks: &mut Vec<MaterialSlot>,
) -> (u: MaterialUpdates)
    ensures
        !pass_runs(canonical, force_update, old(paddles)@, old(balls)@, old(bricks)@) ==> {
            &&& final(paddles)@ == old(paddles)@
            &&& final(balls)@ == old(balls)@
            &&& final(bricks)@ == old(bricks)@
            &&& u == (MaterialUpdates { paddles: 0, balls: 0, bricks: 0 })
        },
        pass_runs(canonical, force_update, old(paddles)@, old(balls)@, old(bricks)@) ==> ({
            let c = canonical->0;
            &&& final(paddles)@.len() == old(paddles)@.len()
            &&& forall|i: int|
                0 <= i < old(paddles)@.len() ==> #[trigger] final(paddles)@[i] == slot_after(
                    old(paddles)@[i],
                    c.spec_get(BaselineMaterialKind::Paddle),
                    force_update,
                )
            &&& final(balls)@.len() == old(balls)@.len()
            &&& forall|i: int|
                0 <= i < old(balls)@.len() ==> #[trigger] final(balls)@[i] == slot_after(
                    old(balls)@[i],
                    target_for(old(balls)@[i], c.spec_get(BaselineMaterialKind::Ball), true),
                    force_update,
                )
            &&& final(bricks)@.len() == old(bricks)@.len()
            &&& forall|i: int|
                0 <= i < old(bricks)@.len() ==> #[trigger] final(bricks)@[i] == slot_after(
                    old(bricks)@[i],
                    target_for(old(bricks)@[i], c.spec_get(BaselineMaterialKind::Brick), true),
                    force_update,
                )
            &&& u.paddles == count_changes(
                old(paddles)@,
                c.spec_get(BaselineMaterialKind::Paddle),
                false,
                force_update,
            )
            &&& u.balls == count_changes(
                old(balls)@,
                c.spec_get(BaselineMaterialKind::Ball),
                true,
                force_update,
            )
            &&& u.bricks == count_changes(
                old(bricks)@,
                c.spec_get(BaselineMaterialKind::Brick),
                true,
                force_update,
            )
        }),
{
    let none = MaterialUpdates { paddles: 0, balls: 0, bricks: 0 };
    let c = match canonical {
        Some(c) => c,
        None => {
            return none;
        },
    };
    if !c.is_ready() {
        return none;
    }
    if !force_update && !any_added(paddles) && !any_added(balls) && !any_added(bricks) {
        return none;
    }
    let paddle_material = c.get(BaselineMaterialKind::Paddle);
    let p = match paddle_material {
        Some(_) => apply_to_slots(paddles, paddle_material, false, force_update),
        None => {
            proof {
                assert(paddles@ =~= old(paddles)@);
                lemma_count_none(old(paddles)@, force_update);
            }
            0
        },
    };
    let b = apply_to_slots(balls, c.get(BaselineMaterialKind::Ball), true, force_update);
    let k = apply_to_slots(bricks, c.get(BaselineMaterialKind::Brick), true, force_update);
    MaterialUpdates { paddles: p, balls: b, bricks: k }
}

proof fn lemma_count_none(ss: Seq<MaterialSlot>, force: bool)
    ensures
        count_changes(ss, None, false, force) == 0,
    decreases ss.len(),
{
    if ss.len() > 0 {
        lemma_count_none(ss.drop_last(), force);
    }
}

/// The colour palette of the debug texture: eight RGBA colours.
pub open spec fn debug_palette() -> Seq<u8> {
    seq![
        255u8, 102, 159, 255, 255, 159, 102, 255, 236, 255, 102, 255, 121, 255, 102, 255, 102, 255,
        198, 255, 102, 198, 255, 255, 121, 102, 255, 255, 236, 102, 255, 255,
    ]
}

/// The pixels of the 8 by 8 debug texture (RGBA, row by row): each row is
/// the palette turned one colour further to the right than the row above.
pub fn uv_debug_texture_data() -> (data: Vec<u8>)
    ensures
        data@.len() == 256,
        forall|y: int, x: int|
            0 <= y < 8 && 0 <= x < 32 ==> #[trigger] data@[y * 32 + x] == debug_palette()[(x + 32
                - (4 * y) % 32) % 32],
{
    let palette: Vec<u8> = vec![
        255u8, 102, 159, 255, 255, 159, 102, 255, 236, 255, 102, 255, 121, 255, 102, 255, 102, 255,
        198, 255, 102, 198, 255, 255, 121, 102, 255, 255, 236, 102, 255, 255,
    ];
    assert(palette@ =~= debug_palette());
    let mut data: Vec<u8> = Vec::new();
    let mut y: usize = 0;
    while y < 8
        invariant
            y <= 8,
            palette@ == debug_palette(),
            data@.len() == y * 32,
            forall|yy: int, x: int|
                0 <= yy < y && 0 <= x < 32 ==> #[trigger] data@[yy * 32 + x] == debug_palette()[(x
                    + 32 - (4 * yy) % 32) % 32],
        decreases 8 - y,
    {
        let shift: usize = (4 * y) % 32;
        let mut x: usize = 0;
        while x < 32
            invariant
                y < 8,
                x <= 32,
                shift == (4 * y) % 32,
                palette@ == debug_palette(),
                data@.len() == y * 32 + x,
                forall|yy: int, xx: int|
                    0 <= yy < y && 0 <= xx < 32 ==> #[trigger] data@[yy * 32 + xx]
                        == debug_palette()[(xx + 32 - (4 * yy) % 32) % 32],
                forall|xx: int|
                    0 <= xx < x ==> #[trigger] data@[y * 32 + xx] == debug_palette()[(xx + 32
                        - shift) % 32],
            decreases 32 - x,
        {
            let ghost before = data@;
            data.push(palette[(x + 32 - shift) % 32]);
            proof {
                assert forall|yy: int, xx: int|
                    0 <= yy < y && 0 <= xx < 32 implies #[trigger] data@[yy * 32 + xx]
                        == debug_palette()[(xx + 32 - (4 * yy) % 32) % 32] by {
                    assert(yy * 32 + xx < y * 32) by (nonlinear_arith)
                        requires
                            0 <= yy < y,
                            0 <= xx < 32,
                    ;
                    assert(data@[yy * 32 + xx] == before[yy * 32 + xx]);
                }
                assert forall|xx: int| 0 <= xx < x + 1 implies #[trigger] data@[y * 32 + xx]
                    == debug_palette()[(xx + 32 - shift) % 32] by {
                    if xx < x {
                        assert(data@[y * 32 + xx] == before[y * 32 + xx]);
                    }
                }
            }
            x += 1;
        }
        y += 1;
    }
    data
}

/// The fallback bucket of an object class.
pub open spec fn spec_class_fallback(class: ObjectClass) -> FallbackMaterial {
    match class {
        ObjectClass::Ball => FallbackMaterial::Ball,
        ObjectClass::Brick => FallbackMaterial::Brick,
        ObjectClass::Merkaba => FallbackMaterial::Merkaba,
    }
}

fn class_fallback(class: ObjectClass) -> (f: FallbackMaterial)
    ensures
        f == spec_class_fallback(class),
{
    match class {
        ObjectClass::Ball => FallbackMaterial::Ball,
        ObjectClass::Brick => FallbackMaterial::Brick,
        ObjectClass::Merkaba => FallbackMaterial::Merkaba,
    }
}

/// The registry key of an object class and type: one key per pair.
pub open spec fn variant_key(class: ObjectClass, type_id: u8) -> u16 {
    let c: int = match class {
        ObjectClass::Ball => 0,
        ObjectClass::Brick => 1,
        ObjectClass::Merkaba => 2,
    };
    (c * 256 + type_id) as u16
}

fn variant_key_of(class: ObjectClass, type_id: u8) -> (k: u16)
    ensures
        k == variant_key(class, type_id),
{
    let c: u16 = match class {
        ObjectClass::Ball => 0,
        ObjectClass::Brick => 1,
        ObjectClass::Merkaba => 2,
    };
    c * 256 + type_id as u16
}

/// Distinct pairs get distinct keys.
pub proof fn variant_keys_distinct(c1: ObjectClass, t1: u8, c2: ObjectClass, t2: u8)
    ensures
        variant_key(c1, t1) == variant_key(c2, t2) <==> (c1 == c2 && t1 == t2),
{
}

/// A type variant of the manifest, with the materials it can take.
#[derive(Debug, Clone, Copy, PartialEq, Eq, Structural)]
pub struct VariantMaterial {
    pub object_class: ObjectClass,
    pub type_id: u8,
    /// The material made for the variant (its profile tinted by its
    /// emissive colour), when the profile and the asset stores are at hand.
    pub variant_material: Option<u64>,
    /// The baked material of the variant's profile, if any.
    pub profile_material: Option<u64>,
}

/// The material a variant gets: its own, else its profile's, else the
/// fallback material of its class.
pub open spec fn spec_variant_material(v: VariantMaterial, fb: FallbackHandles) -> u64 {
    match v.variant_material {
        Some(h) => h,
        None => match v.profile_material {
            Some(h) => h,
            None => spec_fallback_handle(fb, spec_class_fallback(v.object_class)),
        },
    }
}

/// The registry built from the variants in order: a later variant for the
/// same class and type replaces an earlier one.
pub open spec fn spec_registry(variants: Seq<VariantMaterial>, fb: FallbackHandles) -> Map<u16, u64>
    decreases variants.len(),
{
    if variants.len() == 0 {
        Map::empty()
    } else {
        let v = variants.last();
        spec_registry(variants.drop_last(), fb).insert(
            variant_key(v.object_class, v.type_id),
            spec_variant_material(v, fb),
        )
    }
}

/// The material of each (object class, type) that has a type variant.
#[derive(Debug)]
pub struct TypeVariantRegistry {
    map: HashMap<u16, u64>,
}

impl TypeVariantRegistry {
    /// The registry's entries, by key.
    pub closed spec fn entries(self) -> Map<u16, u64> {
        self.map@
    }

    /// The material of `class` and `type_id`, if registered.
    pub open spec fn spec_get(self, class: ObjectClass, type_id: u8) -> Option<u64> {
        if self.entries().contains_key(variant_key(class, type_id)) {
            Some(self.entries()[variant_key(class, type_id)])
        } else {
            None
        }
    }

    /// An empty registry.
    pub fn new() -> (r: Self)
        ensures
            r.entries() == Map::<u16, u64>::empty(),
    {
        TypeVariantRegistry { map: HashMap::new() }
    }

    pub fn get(&self, class: ObjectClass, type_id: u8) -> (h: Option<u64>)
        ensures
            h == self.spec_get(class, type_id),
    {
        match self.map.get(&variant_key_of(class, type_id)) {
            Some(h) => Some(*h),
            None => None,
        }
    }

    /// Registers `handle` for `class` and `type_id`.
    pub fn insert_for_tests(&mut self, class: ObjectClass, type_id: u8, handle: u64)
        ensures
            final(self).entries() == old(self).entries().insert(variant_key(class, type_id), handle),
    {
        self.map.insert(variant_key_of(class, type_id), handle);
    }

    /// Rebuilds the registry from the manifest's type variants.
    pub fn rebuild(&mut self, variants: &Vec<VariantMaterial>, fallback: &FallbackRegistry)
        ensures
            final(self).entries() == spec_registry(variants@, fallback.spec_handles()),
    {
        let ghost fb = fallback.spec_handles();
        self.map = HashMap::new();
        let mut i: usize = 0;
        assert(variants@.take(0) =~= Seq::<VariantMaterial>::empty());
        assert(self.map@ =~= Map::<u16, u64>::empty());
        while i < variants.len()
            invariant
                i <= variants@.len(),
                fb == fallback.spec_handles(),
                self.map@ == spec_registry(variants@.take(i as int), fb),
            decreases variants@.len() - i,
        {
            let v = variants[i];
            assert(variants@.take(i + 1).drop_last() =~= variants@.take(i as int));
            assert(variants@.take(i + 1).last() == v);
            let handle = match v.variant_material {
                Some(h) => h,
                None => match v.profile_material {
                    Some(h) => h,
                    None => fallback.handle(class_fallback(v.object_class)),
                },
            };
            self.map.insert(variant_key_of(v.object_class, v.type_id), handle);
            i += 1;
        }
        assert(variants@.take(i as int) =~= variants@);
    }
}

} // verus!
