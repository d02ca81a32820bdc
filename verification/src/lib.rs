//! Decision logic for a set of small interactive skeletal-animation demo
//! scenes: which scene is active, what each scene shows on its animation
//! tracks, and how a character's outfit is assembled at random.
//!
//! The host engine (windowing, rendering, asset loading, per-frame
//! scheduling) lives outside this crate; this library holds the parts that
//! can be stated and proved: the cyclic scene switcher, the fixed
//! track-assignment plans, the instruction text of each scene, and the
//! outfit randomizer with its category lists.

pub mod outfit;
pub mod scene;
pub mod session;
pub mod tracks;

pub use outfit::Outfit;
pub use scene::AppState;
pub use session::Demo;
pub use tracks::TrackEntry;
