//! The fixed track-assignment plans: which named animation each scene puts
//! on which numbered track slot of its skeleton, once the asset has finished
//! loading. A slot whose timeline is scrubbed from the cursor instead of
//! advancing on its own is marked frozen.

use crate::scene::AppState;
use vstd::prelude::*;

verus! {

/// The owl's idle animation track slot.
pub const OWL_IDLE: usize = 0;

/// The owl's blink animation track slot.
pub const OWL_BLINK: usize = 1;

/// The owl's look-up animation track slot.
pub const OWL_UP: usize = 2;

/// The owl's look-down animation track slot.
pub const OWL_DOWN: usize = 3;

/// The owl's look-left animation track slot.
pub const OWL_LEFT: usize = 4;

/// The owl's look-right animation track slot.
pub const OWL_RIGHT: usize = 5;

/// The track slot on which the mix-and-match scene plays its one-shot
/// dress-up animation when the outfit changes.
pub const DRESS_UP_TRACK: usize = 1;

/// One track assignment: a named animation put on a numbered track slot.
/// A frozen track has its playback speed held at zero, so its timeline
/// position only moves when it is set directly.
pub struct TrackEntry {
    pub track: usize,
    pub animation: &'static str,
    pub looping: bool,
    pub frozen: bool,
}

impl TrackEntry {
    /// The assignment puts the given animation on the given slot, looping,
    /// with its timeline advancing on its own.
    pub open spec fn is_running(self, track: int, animation: Seq<char>) -> bool {
        &&& self.track == track
        &&& self.animation@ == animation
        &&& self.looping
        &&& !self.frozen
    }
}

/// The coin's track plan: its single animation loops on the first slot with
/// playback frozen, so the cursor alone scrubs the timeline.
pub open spec fn coin_plan(v: Seq<TrackEntry>) -> bool {
    &&& v.len() == 1
    &&& v[0].track == 0
    &&& v[0].animation@ == "animation"@
    &&& v[0].looping
    &&& v[0].frozen
}

/// The owl's track plan: idle and blink loop underneath, and one looping
/// directional animation per side is blended in from the cursor.
pub open spec fn owl_plan(v: Seq<TrackEntry>) -> bool {
    &&& v.len() == 6
    &&& forall|i: int| 0 <= i < 6 ==> (#[trigger] v[i]).track == i
    &&& v[OWL_IDLE as int].is_running(OWL_IDLE as int, "idle"@)
    &&& v[OWL_BLINK as int].is_running(OWL_BLINK as int, "blink"@)
    &&& v[OWL_UP as int].is_running(OWL_UP as int, "up"@)
    &&& v[OWL_DOWN as int].is_running(OWL_DOWN as int, "down"@)
    &&& v[OWL_LEFT as int].is_running(OWL_LEFT as int, "left"@)
    &&& v[OWL_RIGHT as int].is_running(OWL_RIGHT as int, "right"@)
}

/// The mix-and-match character's track plan: a single looping idle.
pub open spec fn mix_and_match_plan(v: Seq<TrackEntry>) -> bool {
    &&& v.len() == 1
    &&& v[0].is_running(0, "idle"@)
}

/// Build the coin's track plan.
pub fn coin_tracks() -> (v: Vec<TrackEntry>)
    ensures
        coin_plan(v@),
{
    let mut v: Vec<TrackEntry> = Vec::new();
    v.push(TrackEntry { track: 0, animation: "animation", looping: true, frozen: true });
    v
}

/// Build the owl's track plan.
pub fn owl_tracks() -> (v: Vec<TrackEntry>)
    ensures
        owl_plan(v@),
{
    let mut v: Vec<TrackEntry> = Vec::new();
    v.push(TrackEntry { track: OWL_IDLE, animation: "idle", looping: true, frozen: false });
    v.push(TrackEntry { track: OWL_BLINK, animation: "blink", looping: true, frozen: false });
    v.push(TrackEntry { track: OWL_UP, animation: "up", looping: true, frozen: false });
    v.push(TrackEntry { track: OWL_DOWN, animation: "down", looping: true, frozen: false });
    v.push(TrackEntry { track: OWL_LEFT, animation: "left", looping: true, frozen: false });
    v.push(TrackEntry { track: OWL_RIGHT, animation: "right", looping: true, frozen: false });
    v
}

/// Build the mix-and-match character's track plan.
pub fn mix_and_match_tracks() -> (v: Vec<TrackEntry>)
    ensures
        mix_and_match_plan(v@),
{
    let mut v: Vec<TrackEntry> = Vec::new();
    v.push(TrackEntry { track: 0, animation: "idle", looping: true, frozen: false });
    v
}

/// The track plan that the active scene seeds once its skeleton asset
/// reports ready. Seeding must wait for that report: the tracks of an
/// unready skeleton may not be touched.
pub fn tracks_on_ready(s: AppState) -> (v: Vec<TrackEntry>)
    ensures
        s is MixAndMatch ==> mix_and_match_plan(v@),
        s is Owl ==> owl_plan(v@),
        s is Coin ==> coin_plan(v@),
{
    match s {
        AppState::MixAndMatch => mix_and_match_tracks(),
        AppState::Owl => owl_tracks(),
        AppState::Coin => coin_tracks(),
    }
}

/// Whether a fresh dress-up animation should start when the outfit is
/// re-randomized. `progress` reports the dress-up track slot: nothing when
/// no animation occupies it, otherwise whether the animation there has
/// reached its end. A new one starts only when the slot is free or the old
/// one has finished, so re-clicking never cuts the animation short.
pub fn dress_up_should_restart(progress: Option<bool>) -> (r: bool)
    ensures
        r == (progress matches Some(finished) ==> finished),
{
    match progress {
        None => true,
        Some(finished) => finished,
    }
}

} // verus!
