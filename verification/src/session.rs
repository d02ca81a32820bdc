//! The demo lifecycle as one event-driven state machine: which scene is
//! active, whether its skeleton has reported ready, and what the dress-up
//! track slot holds. The host loop delivers an event per input and performs
//! the action handed back; every decision is made here.

use crate::outfit::{dress_up, DressUp, OUTFIT_SKIN_COUNT};
use crate::scene::AppState;
use crate::tracks::{coin_plan, mix_and_match_plan, owl_plan, tracks_on_ready, TrackEntry};
use vstd::prelude::*;

verus! {

/// An input that the host loop delivers to the demo.
#[derive(Clone, Copy, PartialEq, Eq, Structural, Debug)]
pub enum DemoEvent {
    /// The switch key was pressed.
    SpacePressed,
    /// The active scene's skeleton asset finished loading.
    SceneReady,
    /// The left mouse button was pressed.
    LeftClick,
    /// The one-shot dress-up animation reached its end.
    DressUpFinished,
}

/// What the host must do after an event is handled.
pub enum DemoAction {
    /// Despawn the old scene's non-persistent entities, load the new
    /// scene's skeleton asset, and show its instruction line.
    EnterScene,
    /// Seed the given track plan on the now-ready skeleton; for the
    /// mix-and-match scene a first outfit comes along with it.
    SeedTracks { tracks: Vec<TrackEntry>, first_outfit: Option<DressUp> },
    /// Install the freshly drawn outfit, and start the one-shot dress-up
    /// animation when its flag says so.
    Randomize { dress: DressUp },
    /// Nothing to do.
    Nothing,
}

/// The drawn outfit is well formed and its skin list is the one the outfit
/// composes.
pub open spec fn dress_ok(d: DressUp) -> bool {
    &&& d.outfit.wf()
    &&& d.skins@.len() == OUTFIT_SKIN_COUNT
    &&& forall|i: int| 0 <= i < OUTFIT_SKIN_COUNT ==> (#[trigger] d.skins@[i])@
        == d.outfit.skins_spec()[i]
}

/// The full effect of one randomize trigger: the drawn outfit is well
/// formed, the one-shot dress-up animation restarts exactly when its slot
/// was free or its previous run had finished, and the slot records the
/// restart.
pub open spec fn dress_outcome(
    slot_before: Option<bool>,
    slot_after: Option<bool>,
    d: DressUp,
) -> bool {
    &&& dress_ok(d)
    &&& d.play_dress_up == (slot_before matches Some(finished) ==> finished)
    &&& (d.play_dress_up ==> slot_after == Some::<bool>(false))
    &&& (!d.play_dress_up ==> slot_after == slot_before)
}

/// A ready report came with a first outfit that behaved as one randomize
/// trigger.
pub open spec fn first_dress_outcome(
    slot_before: Option<bool>,
    slot_after: Option<bool>,
    first_outfit: Option<DressUp>,
) -> bool {
    &&& first_outfit matches Some(d)
    &&& dress_outcome(slot_before, slot_after, d)
}

/// A left click produced a randomize action that behaved as one randomize
/// trigger.
pub open spec fn randomize_outcome(
    slot_before: Option<bool>,
    slot_after: Option<bool>,
    action: DemoAction,
) -> bool {
    &&& action matches DemoAction::Randomize { dress }
    &&& dress_outcome(slot_before, slot_after, dress)
}

/// The track plan seeded on a ready report is the active scene's own.
pub open spec fn seeded_plan_ok(scene: AppState, tracks: Seq<TrackEntry>) -> bool {
    match scene {
        AppState::MixAndMatch => mix_and_match_plan(tracks),
        AppState::Owl => owl_plan(tracks),
        AppState::Coin => coin_plan(tracks),
    }
}

/// The demo's state between events.
pub struct Demo {
    /// The active scene.
    pub scene: AppState,
    /// Whether the active scene's skeleton has reported ready. Track and
    /// skin commands are issued only afterwards.
    pub ready: bool,
    /// The dress-up track slot: nothing while it is free, otherwise
    /// whether the one-shot animation on it has reached its end.
    pub dress_up_finished: Option<bool>,
}

impl Demo {
    /// The dress-up slot is occupied only while the mix-and-match scene is
    /// active and ready: only its randomizer ever starts the one-shot.
    pub open spec fn wf(self) -> bool {
        self.dress_up_finished is Some ==> (self.scene is MixAndMatch && self.ready)
    }

    /// The demo as it starts: the first scene loading, nothing ready yet.
    pub fn new() -> (d: Demo)
        ensures
            d.scene == AppState::MixAndMatch,
            !d.ready,
            d.dress_up_finished is None,
            d.wf(),
    {
        Demo { scene: AppState::MixAndMatch, ready: false, dress_up_finished: None }
    }

    /// Handle one event: advance the state and decide the host's action.
    ///
    /// The switch key always advances to the next scene in cyclic order and
    /// voids readiness. A ready report seeds the active scene's track plan,
    /// with a first outfit exactly when the mix-and-match scene is active.
    /// A left click re-randomizes the outfit exactly when the mix-and-match
    /// scene is active and ready; in every other case it does nothing.
    pub fn handle_event(&mut self, event: DemoEvent) -> (action: DemoAction)
        requires
            old(self).wf(),
        ensures
            final(self).wf(),
            event == DemoEvent::SpacePressed ==> {
                &&& final(self).scene == old(self).scene.next_spec()
                &&& !final(self).ready
                &&& final(self).dress_up_finished is None
                &&& action is EnterScene
            },
            event == DemoEvent::SceneReady ==> {
                &&& final(self).scene == old(self).scene
                &&& final(self).ready
                &&& action matches DemoAction::SeedTracks { tracks, first_outfit }
                &&& seeded_plan_ok(final(self).scene, tracks@)
                &&& (final(self).scene is MixAndMatch ==> first_dress_outcome(
                    old(self).dress_up_finished,
                    final(self).dress_up_finished,
                    first_outfit,
                ))
                &&& (!(final(self).scene is MixAndMatch) ==> first_outfit is None
                    && final(self).dress_up_finished is None)
            },
            event == DemoEvent::LeftClick ==> {
                &&& final(self).scene == old(self).scene
                &&& final(self).ready == old(self).ready
                &&& (old(self).scene is MixAndMatch && old(self).ready ==> randomize_outcome(
                    old(self).dress_up_finished,
                    final(self).dress_up_finished,
                    action,
                ))
                &&& (!(old(self).scene is MixAndMatch && old(self).ready) ==> (
                    action is Nothing && final(self).dress_up_finished == old(self).dress_up_finished))
            },
            event == DemoEvent::DressUpFinished ==> {
                &&& final(self).scene == old(self).scene
                &&& final(self).ready == old(self).ready
                &&& action is Nothing
                &&& (old(self).dress_up_finished is Some ==> final(self).dress_up_finished
                    == Some::<bool>(true))
                &&& (old(self).dress_up_finished is None ==> final(self).dress_up_finished is None)
            },
    {
        match event {
            DemoEvent::SpacePressed => {
                self.scene = self.scene.next();
                self.ready = false;
                self.dress_up_finished = None;
                DemoAction::EnterScene
            },
            DemoEvent::SceneReady => {
                self.ready = true;
                let tracks = tracks_on_ready(self.scene);
                let first_outfit = if self.scene == AppState::MixAndMatch {
                    Some(self.randomize())
                } else {
                    None
                };
                DemoAction::SeedTracks { tracks, first_outfit }
            },
            DemoEvent::LeftClick => {
                if self.scene == AppState::MixAndMatch && self.ready {
                    let dress = self.randomize();
                    DemoAction::Randomize { dress }
                } else {
                    DemoAction::Nothing
                }
            },
            DemoEvent::DressUpFinished => {
                if self.dress_up_finished.is_some() {
                    self.dress_up_finished = Some(true);
                }
                DemoAction::Nothing
            },
        }
    }

    /// Draw a fresh outfit and book the dress-up slot when the one-shot
    /// animation starts over it.
    fn randomize(&mut self) -> (d: DressUp)
        requires
            old(self).scene is MixAndMatch,
            old(self).ready,
        ensures
            final(self).scene == old(self).scene,
            final(self).ready == old(self).ready,
            dress_outcome(old(self).dress_up_finished, final(self).dress_up_finished, d),
            final(self).wf(),
    {
        let d = dress_up(self.dress_up_finished);
        if d.play_dress_up {
            self.dress_up_finished = Some(false);
        }
        d
    }
}

} // verus!
