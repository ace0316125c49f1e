//! Sound bookkeeping: which sound a game event plays, whether a sound may
//! start (mute, volume, at most four at once of each type, asset present),
//! and the count of sounds of each type that are playing.

use vstd::prelude::*;
use std::collections::HashMap;

use crate::level_format::{is_multi_hit_brick, spec_is_multi_hit_brick};

verus! {

/// At most this many sounds of one type play at the same time.
pub const MAX_CONCURRENT_SOUNDS: u8 = 4;

/// The sound effects of the game.
#[derive(Debug, Clone, Copy, PartialEq, Eq, Hash, Structural)]
pub enum SoundType {
    /// A brick was destroyed.
    BrickDestroy,
    /// A multi-hit brick took a hit.
    MultiHitImpact,
    /// The ball bounced off a wall.
    WallBounce,
    /// The ball bounced off the paddle.
    PaddleHit,
    /// The paddle hit a wall.
    PaddleWallHit,
    /// The paddle hit a brick.
    PaddleBrickHit,
    /// A level began.
    LevelStart,
    /// A level was completed.
    LevelComplete,
    /// Short soft beep of the interface.
    UiBeep,
}

/// The number of sound types.
pub const SOUND_TYPE_COUNT: usize = 9;

pub open spec fn sound_index(t: SoundType) -> int {
    match t {
        SoundType::BrickDestroy => 0,
        SoundType::MultiHitImpact => 1,
        SoundType::WallBounce => 2,
        SoundType::PaddleHit => 3,
        SoundType::PaddleWallHit => 4,
        SoundType::PaddleBrickHit => 5,
        SoundType::LevelStart => 6,
        SoundType::LevelComplete => 7,
        SoundType::UiBeep => 8,
    }
}

fn sound_slot(t: SoundType) -> (i: usize)
    ensures
        i == sound_index(t),
        i < SOUND_TYPE_COUNT,
{
    match t {
        SoundType::BrickDestroy => 0,
        SoundType::MultiHitImpact => 1,
        SoundType::WallBounce => 2,
        SoundType::PaddleHit => 3,
        SoundType::PaddleWallHit => 4,
        SoundType::PaddleBrickHit => 5,
        SoundType::LevelStart => 6,
        SoundType::LevelComplete => 7,
        SoundType::UiBeep => 8,
    }
}

proof fn lemma_sound_index_injective(a: SoundType, b: SoundType)
    ensures
        sound_index(a) == sound_index(b) <==> a == b,
{
}

/// How many sounds of each type are playing.
#[derive(Debug)]
pub struct ActiveSounds {
    counts: Vec<u8>,
}

impl ActiveSounds {
    #[verifier::type_invariant]
    closed spec fn inv(self) -> bool {
        &&& self.counts@.len() == SOUND_TYPE_COUNT
        &&& forall|i: int| 0 <= i < SOUND_TYPE_COUNT ==> #[trigger] self.counts@[i] <= MAX_CONCURRENT_SOUNDS
    }

    /// The number of playing sounds of type `t`.
    pub closed spec fn count_of(self, t: SoundType) -> u8 {
        self.counts@[sound_index(t)]
    }

    /// Increments the count of `t` if it is under the limit; returns whether
    /// it was.
    pub fn try_increment(&mut self, sound_type: SoundType) -> (r: bool)
        ensures
            r == (old(self).count_of(sound_type) < MAX_CONCURRENT_SOUNDS),
            final(self).count_of(sound_type) == if r {
                (old(self).count_of(sound_type) + 1) as u8
            } else {
                old(self).count_of(sound_type)
            },
            forall|u: SoundType|
                u != sound_type ==> #[trigger] final(self).count_of(u) == old(self).count_of(u),
            final(self).count_of(sound_type) <= MAX_CONCURRENT_SOUNDS,
    {
        proof {
            use_type_invariant(&*self);
        }
        let i = sound_slot(sound_type);
        let c = self.counts[i];
        if c < MAX_CONCURRENT_SOUNDS {
            let mut counts = self.counts.clone();
            counts.set(i, c + 1);
            self.counts = counts;
            proof {
                assert forall|u: SoundType| u != sound_type implies #[trigger] self.count_of(u)
                    == old(self).count_of(u) by {
                    lemma_sound_index_injective(u, sound_type);
                }
            }
            true
        } else {
            false
        }
    }

    /// Decrements the count of `t`, stopping at zero.
    pub fn decrement(&mut self, sound_type: SoundType)
        ensures
            final(self).count_of(sound_type) == if old(self).count_of(sound_type) > 0 {
                (old(self).count_of(sound_type) - 1) as u8
            } else {
                0u8
            },
            forall|u: SoundType|
                u != sound_type ==> #[trigger] final(self).count_of(u) == old(self).count_of(u),
    {
        proof {
            use_type_invariant(&*self);
        }
        let i = sound_slot(sound_type);
        let c = self.counts[i];
        if c > 0 {
            let mut counts = self.counts.clone();
            counts.set(i, c - 1);
            self.counts = counts;
            proof {
                assert forall|u: SoundType| u != sound_type implies #[trigger] self.count_of(u)
                    == old(self).count_of(u) by {
                    lemma_sound_index_injective(u, sound_type);
                }
            }
        }
    }

    /// The number of playing sounds of type `t`; never more than four.
    pub fn count(&self, sound_type: SoundType) -> (r: u8)
        ensures
            r == self.count_of(sound_type),
            r <= MAX_CONCURRENT_SOUNDS,
    {
        proof {
            use_type_invariant(self);
        }
        self.counts[sound_slot(sound_type)]
    }
}

impl Default for ActiveSounds {
    fn default() -> (s: Self)
        ensures
            forall|t: SoundType| #[trigger] s.count_of(t) == 0,
    {
        let counts: Vec<u8> = vec![0u8, 0u8, 0u8, 0u8, 0u8, 0u8, 0u8, 0u8, 0u8];
        ActiveSounds { counts }
    }
}

/// The sounds playing right now, by the bits of their audio entity, so the
/// count can be lowered when one ends.
#[derive(Debug)]
pub struct ActiveAudioInstances {
    pub instances: HashMap<u64, SoundType>,
}

impl Default for ActiveAudioInstances {
    fn default() -> (s: Self)
        ensures
            s.instances@ == Map::<u64, SoundType>::empty(),
    {
        ActiveAudioInstances { instances: HashMap::new() }
    }
}

impl ActiveAudioInstances {
    /// Records that `entity` plays a sound of type `t`.
    pub fn register(&mut self, entity: u64, sound_type: SoundType)
        ensures
            final(self).instances@ == old(self).instances@.insert(entity, sound_type),
    {
        self.instances.insert(entity, sound_type);
    }
}

/// An audio entity was removed (its sound ended): forget it and lower the
/// count of its sound type. Returns the type, if the entity was a sound.
pub fn finish_sound(
    instances: &mut ActiveAudioInstances,
    active: &mut ActiveSounds,
    entity: u64,
) -> (r: Option<SoundType>)
    ensures
        final(instances).instances@ == old(instances).instances@.remove(entity),
        r == (if old(instances).instances@.contains_key(entity) {
            Some(old(instances).instances@[entity])
        } else {
            None
        }),
        match r {
            Some(t) => {
                &&& final(active).count_of(t) == if old(active).count_of(t) > 0 {
                    (old(active).count_of(t) - 1) as u8
                } else {
                    0u8
                }
                &&& forall|u: SoundType|
                    u != t ==> #[trigger] final(active).count_of(u) == old(active).count_of(u)
            },
            None => *final(active) == *old(active),
        },
{
    match instances.instances.remove(&entity) {
        Some(t) => {
            active.decrement(t);
            Some(t)
        },
        None => None,
    }
}

/// What happened to a request to play a sound.
#[derive(Debug, Clone, Copy, PartialEq, Eq, Structural)]
pub enum PlaybackDecision {
    /// Audio is muted.
    Muted,
    /// The master volume is zero.
    Silent,
    /// Four sounds of this type are already playing.
    LimitReached,
    /// The sound has no loaded asset.
    AssetMissing,
    /// The sound starts; its count was incremented.
    Play,
}

pub open spec fn spec_playback(
    muted: bool,
    audible: bool,
    count: u8,
    asset_available: bool,
) -> PlaybackDecision {
    if muted {
        PlaybackDecision::Muted
    } else if !audible {
        PlaybackDecision::Silent
    } else if count >= MAX_CONCURRENT_SOUNDS {
        PlaybackDecision::LimitReached
    } else if !asset_available {
        PlaybackDecision::AssetMissing
    } else {
        PlaybackDecision::Play
    }
}

/// Decides whether a sound of type `t` starts: not when muted, not when the
/// master volume is zero (`audible` is false), not when four of its type
/// already play, not when its asset is missing. Only a sound that starts
/// raises the count.
pub fn play_sound(
    sound_type: SoundType,
    muted: bool,
    audible: bool,
    asset_available: bool,
    active: &mut ActiveSounds,
) -> (d: PlaybackDecision)
    ensures
        d == spec_playback(muted, audible, old(active).count_of(sound_type), asset_available),
        d == PlaybackDecision::Play ==> final(active).count_of(sound_type) == old(active).count_of(
            sound_type,
        ) + 1,
        d != PlaybackDecision::Play ==> final(active).count_of(sound_type) == old(active).count_of(
            sound_type,
        ),
        forall|u: SoundType|
            u != sound_type ==> #[trigger] final(active).count_of(u) == old(active).count_of(u),
{
    if muted {
        return PlaybackDecision::Muted;
    }
    if !audible {
        return PlaybackDecision::Silent;
    }
    if !active.try_increment(sound_type) {
        return PlaybackDecision::LimitReached;
    }
    if !asset_available {
        active.decrement(sound_type);
        return PlaybackDecision::AssetMissing;
    }
    PlaybackDecision::Play
}

/// A destructible brick was removed. Entities are identified by their bits.
#[derive(Debug, Clone, Copy, PartialEq, Eq, Structural)]
pub struct BrickDestroyed {
    pub entity: u64,
    pub brick_type: u8,
}

/// A level finished loading and is ready for play.
#[derive(Debug, Clone, Copy, PartialEq, Eq, Structural)]
pub struct LevelStarted {
    pub level_index: u32,
}

/// A level was completed.
#[derive(Debug, Clone, Copy, PartialEq, Eq, Structural)]
pub struct LevelCompleted {
    pub level_index: u32,
}

/// A request for the interface beep.
#[derive(Debug, Clone, Copy, PartialEq, Eq, Structural)]
pub struct UiBeepEvent;

/// The sound of a destroyed brick: none for a multi-hit brick, whose hits
/// play the impact sound instead.
pub fn brick_destroyed_sound(event: &BrickDestroyed) -> (r: Option<SoundType>)
    ensures
        r == (if spec_is_multi_hit_brick(event.brick_type) {
            None
        } else {
            Some(SoundType::BrickDestroy)
        }),
{
    if is_multi_hit_brick(event.brick_type) {
        None
    } else {
        Some(SoundType::BrickDestroy)
    }
}

/// Whatever is asked, no sound type ever has more than four sounds playing,
/// and a request for one type leaves the others' counts alone.
pub proof fn playback_respects_limit(
    muted: bool,
    audible: bool,
    count: u8,
    asset_available: bool,
)
    ensures
        spec_playback(muted, audible, count, asset_available) == PlaybackDecision::Play ==> count
            < MAX_CONCURRENT_SOUNDS,
        count >= MAX_CONCURRENT_SOUNDS && !muted && audible ==> spec_playback(
            muted,
            audible,
            count,
            asset_available,
        ) == PlaybackDecision::LimitReached,
{
}

/// A sound starts exactly when the game is not muted, the volume is not
/// zero, fewer than four sounds of its type play and its asset is loaded;
/// muting silences everything.
pub proof fn sound_plays_exactly_when_allowed(
    muted: bool,
    audible: bool,
    count: u8,
    asset_available: bool,
)
    ensures
        (spec_playback(muted, audible, count, asset_available) == PlaybackDecision::Play) <==> (
        !muted && audible && count < 4 && asset_available),
        muted ==> spec_playback(muted, audible, count, asset_available) == PlaybackDecision::Muted,
{
}

} // verus!
