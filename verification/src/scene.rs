//! The demo switcher: which of the three scenes is active, the instruction
//! line each scene shows, and the skeleton assets each scene loads.

use vstd::prelude::*;

verus! {

/// Which of the three demo scenes is active. Exactly one is active at a
/// time; a switch request always advances to the next scene in the fixed
/// cyclic order mix-and-match, owl, coin, and back.
#[derive(Clone, Copy, PartialEq, Eq, Structural, Debug)]
pub enum AppState {
    MixAndMatch,
    Owl,
    Coin,
}

impl AppState {
    /// The scene that a switch request moves to from this one.
    pub open spec fn next_spec(self) -> AppState {
        match self {
            AppState::MixAndMatch => AppState::Owl,
            AppState::Owl => AppState::Coin,
            AppState::Coin => AppState::MixAndMatch,
        }
    }

    /// Advance to the next scene in cyclic order.
    pub fn next(self) -> (r: AppState)
        ensures
            r == self.next_spec(),
    {
        match self {
            AppState::MixAndMatch => AppState::Owl,
            AppState::Owl => AppState::Coin,
            AppState::Coin => AppState::MixAndMatch,
        }
    }
}

impl Default for AppState {
    /// The scene shown when the demo starts.
    fn default() -> (r: AppState)
        ensures
            r == AppState::MixAndMatch,
    {
        AppState::MixAndMatch
    }
}

/// Advancing three times returns to the starting scene, whichever it was:
/// the switcher is a three-element round robin.
pub proof fn lemma_next_cycles(s: AppState)
    ensures
        s.next_spec().next_spec().next_spec() == s,
{
}

/// The switcher cycles through all three scenes: from any starting scene
/// the first two advances reach the two other scenes, so every scene is
/// visited once per round.
pub proof fn lemma_cycle_visits_every_scene(s: AppState)
    ensures
        s.next_spec() != s,
        s.next_spec().next_spec() != s,
        s.next_spec().next_spec() != s.next_spec(),
{
}

/// The instruction line that a scene shows while it is active.
pub open spec fn instruction_spec(s: AppState) -> Seq<char> {
    match s {
        AppState::MixAndMatch => "left click to randomize outfit"@,
        AppState::Owl => "move the mouse and owl will follow your cursor"@,
        AppState::Coin => "move mouse to spin coin"@,
    }
}

/// The instruction line shown when the given scene is entered.
pub fn instruction_text(s: AppState) -> (r: &'static str)
    ensures
        r@ == instruction_spec(s),
{
    match s {
        AppState::MixAndMatch => "left click to randomize outfit",
        AppState::Owl => "move the mouse and owl will follow your cursor",
        AppState::Coin => "move mouse to spin coin",
    }
}

/// The persistent footer line that tells the user how to switch scenes.
pub fn footer_text() -> (r: &'static str)
    ensures
        r@ == "press space for next demo"@,
{
    "press space for next demo"
}

/// The skeleton-description asset that a scene loads.
pub open spec fn skeleton_json_spec(s: AppState) -> Seq<char> {
    match s {
        AppState::MixAndMatch => "mix-and-match/export/mix-and-match-pro.json"@,
        AppState::Owl => "owl/export/owl-pro.json"@,
        AppState::Coin => "coin/export/coin-pro.json"@,
    }
}

/// The texture-atlas asset that a scene loads.
pub open spec fn atlas_spec(s: AppState) -> Seq<char> {
    match s {
        AppState::MixAndMatch => "mix-and-match/export/mix-and-match.atlas"@,
        AppState::Owl => "owl/export/owl.atlas"@,
        AppState::Coin => "coin/export/coin.atlas"@,
    }
}

/// The path of the skeleton-description asset that the given scene loads.
pub fn skeleton_json_path(s: AppState) -> (r: &'static str)
    ensures
        r@ == skeleton_json_spec(s),
{
    match s {
        AppState::MixAndMatch => "mix-and-match/export/mix-and-match-pro.json",
        AppState::Owl => "owl/export/owl-pro.json",
        AppState::Coin => "coin/export/coin-pro.json",
    }
}

/// The path of the texture-atlas asset that the given scene loads.
pub fn atlas_path(s: AppState) -> (r: &'static str)
    ensures
        r@ == atlas_spec(s),
{
    match s {
        AppState::MixAndMatch => "mix-and-match/export/mix-and-match.atlas",
        AppState::Owl => "owl/export/owl.atlas",
        AppState::Coin => "coin/export/coin.atlas",
    }
}

} // verus!
