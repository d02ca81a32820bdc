use spine_demos::outfit::{
    composed_skin_name, dress_up, ACCESSORY_COUNT, CLOTHING_COUNT, EYELID_COUNT, EYE_COUNT,
    HAIR_COUNT, LEG_COUNT, NOSE_COUNT, OUTFIT_SKIN_COUNT,
};
use spine_demos::Outfit;

const ACCESSORIES: [&str; 6] = [
    "accessories/backpack",
    "accessories/bag",
    "accessories/cape-blue",
    "accessories/cape-red",
    "accessories/hat-pointy-blue-yellow",
    "accessories/hat-red-yellow",
];
const CLOTHES: [&str; 4] = [
    "clothes/dress-blue",
    "clothes/dress-green",
    "clothes/hoodie-blue-and-scarf",
    "clothes/hoodie-orange",
];
const EYELIDS: [&str; 2] = ["eyelids/girly", "eyelids/semiclosed"];
const EYES: [&str; 4] = ["eyes/eyes-blue", "eyes/green", "eyes/violet", "eyes/yellow"];
const HAIR: [&str; 4] = ["hair/blue", "hair/brown", "hair/pink", "hair/short-red"];
const LEGS: [&str; 4] = [
    "legs/boots-pink",
    "legs/boots-red",
    "legs/pants-green",
    "legs/pants-jeans",
];
const NOSES: [&str; 2] = ["nose/long", "nose/short"];

#[test]
fn category_sizes_match_the_lists() {
    assert_eq!(ACCESSORY_COUNT, ACCESSORIES.len());
    assert_eq!(CLOTHING_COUNT, CLOTHES.len());
    assert_eq!(EYELID_COUNT, EYELIDS.len());
    assert_eq!(EYE_COUNT, EYES.len());
    assert_eq!(HAIR_COUNT, HAIR.len());
    assert_eq!(LEG_COUNT, LEGS.len());
    assert_eq!(NOSE_COUNT, NOSES.len());
}

#[test]
fn randomize_stays_inside_every_category() {
    for _ in 0..200 {
        let o = Outfit::randomize();
        assert!(o.accessory < ACCESSORY_COUNT);
        assert!(o.clothing < CLOTHING_COUNT);
        assert!(o.eyelids < EYELID_COUNT);
        assert!(o.eyes < EYE_COUNT);
        assert!(o.hair < HAIR_COUNT);
        assert!(o.legs < LEG_COUNT);
        assert!(o.nose < NOSE_COUNT);
    }
}

#[test]
fn skins_compose_base_then_one_per_category() {
    let o = Outfit {
        accessory: 1,
        clothing: 2,
        eyelids: 0,
        eyes: 3,
        hair: 2,
        legs: 0,
        nose: 1,
    };
    let skins = o.skins();
    assert_eq!(
        skins,
        vec![
            "skin-base",
            "accessories/bag",
            "clothes/hoodie-blue-and-scarf",
            "eyelids/girly",
            "eyes/yellow",
            "hair/pink",
            "legs/boots-pink",
            "nose/short",
        ]
    );
}

#[test]
fn every_randomized_skin_comes_from_its_category() {
    for _ in 0..100 {
        let o = Outfit::randomize();
        let skins = o.skins();
        assert_eq!(skins.len(), OUTFIT_SKIN_COUNT);
        assert_eq!(skins[0], "skin-base");
        assert!(ACCESSORIES.contains(&skins[1]));
        assert!(CLOTHES.contains(&skins[2]));
        assert!(EYELIDS.contains(&skins[3]));
        assert!(EYES.contains(&skins[4]));
        assert!(HAIR.contains(&skins[5]));
        assert!(LEGS.contains(&skins[6]));
        assert!(NOSES.contains(&skins[7]));
    }
}

#[test]
fn randomize_eventually_varies() {
    let first = Outfit::randomize();
    let mut saw_other = false;
    for _ in 0..500 {
        let o = Outfit::randomize();
        if (
            o.accessory, o.clothing, o.eyelids, o.eyes, o.hair, o.legs, o.nose,
        ) != (
            first.accessory,
            first.clothing,
            first.eyelids,
            first.eyes,
            first.hair,
            first.legs,
            first.nose,
        ) {
            saw_other = true;
            break;
        }
    }
    assert!(saw_other);
}

#[test]
fn composed_set_is_installed_as_combined() {
    assert_eq!(composed_skin_name(), "combined");
}

#[test]
fn dress_up_draws_valid_outfit_and_restart_flag() {
    let free = dress_up(None);
    assert!(free.play_dress_up);
    assert_eq!(free.skins.len(), OUTFIT_SKIN_COUNT);
    assert_eq!(free.skins[0], "skin-base");
    assert!(free.outfit.accessory < ACCESSORY_COUNT);

    let finished = dress_up(Some(true));
    assert!(finished.play_dress_up);

    let mid_flight = dress_up(Some(false));
    assert!(!mid_flight.play_dress_up);
}
