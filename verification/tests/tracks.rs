use spine_demos::tracks::{
    coin_tracks, dress_up_should_restart, mix_and_match_tracks, owl_tracks, tracks_on_ready,
    DRESS_UP_TRACK, OWL_BLINK, OWL_DOWN, OWL_IDLE, OWL_LEFT, OWL_RIGHT, OWL_UP,
};
use spine_demos::AppState;

#[test]
fn coin_scrubs_one_frozen_looping_track() {
    let v = coin_tracks();
    assert_eq!(v.len(), 1);
    assert_eq!(v[0].track, 0);
    assert_eq!(v[0].animation, "animation");
    assert!(v[0].looping);
    assert!(v[0].frozen);
}

#[test]
fn owl_runs_six_looping_tracks_on_distinct_slots() {
    let v = owl_tracks();
    assert_eq!(v.len(), 6);
    let expected = [
        (OWL_IDLE, "idle"),
        (OWL_BLINK, "blink"),
        (OWL_UP, "up"),
        (OWL_DOWN, "down"),
        (OWL_LEFT, "left"),
        (OWL_RIGHT, "right"),
    ];
    for (i, (slot, name)) in expected.iter().enumerate() {
        assert_eq!(v[i].track, *slot);
        assert_eq!(v[i].track, i);
        assert_eq!(v[i].animation, *name);
        assert!(v[i].looping);
        assert!(!v[i].frozen);
    }
}

#[test]
fn mix_and_match_idles_on_the_first_slot() {
    let v = mix_and_match_tracks();
    assert_eq!(v.len(), 1);
    assert_eq!(v[0].track, 0);
    assert_eq!(v[0].animation, "idle");
    assert!(v[0].looping);
    assert!(!v[0].frozen);
}

#[test]
fn ready_dispatch_seeds_the_active_scene_plan() {
    let coin = tracks_on_ready(AppState::Coin);
    assert_eq!(coin.len(), 1);
    assert_eq!(coin[0].animation, "animation");

    let owl = tracks_on_ready(AppState::Owl);
    assert_eq!(owl.len(), 6);
    assert_eq!(owl[0].animation, "idle");

    let mix = tracks_on_ready(AppState::MixAndMatch);
    assert_eq!(mix.len(), 1);
    assert_eq!(mix[0].animation, "idle");
}

#[test]
fn dress_up_restarts_only_on_free_or_finished_slot() {
    assert!(dress_up_should_restart(None));
    assert!(dress_up_should_restart(Some(true)));
    assert!(!dress_up_should_restart(Some(false)));
}

#[test]
fn dress_up_track_is_distinct_from_idle() {
    let mix = mix_and_match_tracks();
    assert_ne!(mix[0].track, DRESS_UP_TRACK);
}
