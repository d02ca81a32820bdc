//! The mix-and-match outfit: a mandatory base layer plus one skin chosen
//! uniformly at random from each of seven fixed category lists. The chosen
//! combination is handed to the skeleton as a list of skin names composed
//! under one name.

use vstd::prelude::*;

verus! {

/// How many skins the accessory category offers.
pub const ACCESSORY_COUNT: usize = 6;

/// How many skins the clothing category offers.
pub const CLOTHING_COUNT: usize = 4;

/// How many skins the eyelid category offers.
pub const EYELID_COUNT: usize = 2;

/// How many skins the eye category offers.
pub const EYE_COUNT: usize = 4;

/// How many skins the hair category offers.
pub const HAIR_COUNT: usize = 4;

/// How many skins the leg category offers.
pub const LEG_COUNT: usize = 4;

/// How many skins the nose category offers.
pub const NOSE_COUNT: usize = 2;

/// How many skin names a composed outfit holds: the base layer plus one
/// choice from each category.
pub const OUTFIT_SKIN_COUNT: usize = 8;

/// The skin name at a given position of the accessory category list.
pub open spec fn accessory_spec(i: int) -> Seq<char> {
    if i == 0 {
        "accessories/backpack"@
    } else if i == 1 {
        "accessories/bag"@
    } else if i == 2 {
        "accessories/cape-blue"@
    } else if i == 3 {
        "accessories/cape-red"@
    } else if i == 4 {
        "accessories/hat-pointy-blue-yellow"@
    } else {
        "accessories/hat-red-yellow"@
    }
}

/// The skin name at a given position of the clothing category list.
pub open spec fn clothing_spec(i: int) -> Seq<char> {
    if i == 0 {
        "clothes/dress-blue"@
    } else if i == 1 {
        "clothes/dress-green"@
    } else if i == 2 {
        "clothes/hoodie-blue-and-scarf"@
    } else {
        "clothes/hoodie-orange"@
    }
}

/// The skin name at a given position of the eyelid category list.
pub open spec fn eyelid_spec(i: int) -> Seq<char> {
    if i == 0 {
        "eyelids/girly"@
    } else {
        "eyelids/semiclosed"@
    }
}

/// The skin name at a given position of the eye category list.
pub open spec fn eye_spec(i: int) -> Seq<char> {
    if i == 0 {
        "eyes/eyes-blue"@
    } else if i == 1 {
        "eyes/green"@
    } else if i == 2 {
        "eyes/violet"@
    } else {
        "eyes/yellow"@
    }
}

/// The skin name at a given position of the hair category list.
pub open spec fn hair_spec(i: int) -> Seq<char> {
    if i == 0 {
        "hair/blue"@
    } else if i == 1 {
        "hair/brown"@
    } else if i == 2 {
        "hair/pink"@
    } else {
        "hair/short-red"@
    }
}

/// The skin name at a given position of the leg category list.
pub open spec fn leg_spec(i: int) -> Seq<char> {
    if i == 0 {
        "legs/boots-pink"@
    } else if i == 1 {
        "legs/boots-red"@
    } else if i == 2 {
        "legs/pants-green"@
    } else {
        "legs/pants-jeans"@
    }
}

/// The skin name at a given position of the nose category list.
pub open spec fn nose_spec(i: int) -> Seq<char> {
    if i == 0 {
        "nose/long"@
    } else {
        "nose/short"@
    }
}

/// The accessory skin name at a given position.
pub fn accessory_name(i: usize) -> (r: &'static str)
    requires
        i < ACCESSORY_COUNT,
    ensures
        r@ == accessory_spec(i as int),
{
    if i == 0 {
        "accessories/backpack"
    } else if i == 1 {
        "accessories/bag"
    } else if i == 2 {
        "accessories/cape-blue"
    } else if i == 3 {
        "accessories/cape-red"
    } else if i == 4 {
        "accessories/hat-pointy-blue-yellow"
    } else {
        "accessories/hat-red-yellow"
    }
}

/// The clothing skin name at a given position.
pub fn clothing_name(i: usize) -> (r: &'static str)
    requires
        i < CLOTHING_COUNT,
    ensures
        r@ == clothing_spec(i as int),
{
    if i == 0 {
        "clothes/dress-blue"
    } else if i == 1 {
        "clothes/dress-green"
    } else if i == 2 {
        "clothes/hoodie-blue-and-scarf"
    } else {
        "clothes/hoodie-orange"
    }
}

/// The eyelid skin name at a given position.
pub fn eyelid_name(i: usize) -> (r: &'static str)
    requires
        i < EYELID_COUNT,
    ensures
        r@ == eyelid_spec(i as int),
{
    if i == 0 {
        "eyelids/girly"
    } else {
        "eyelids/semiclosed"
    }
}

/// The eye skin name at a given position.
pub fn eye_name(i: usize) -> (r: &'static str)
    requires
        i < EYE_COUNT,
    ensures
        r@ == eye_spec(i as int),
{
    if i == 0 {
        "eyes/eyes-blue"
    } else if i == 1 {
        "eyes/green"
    } else if i == 2 {
        "eyes/violet"
    } else {
        "eyes/yellow"
    }
}

/// The hair skin name at a given position.
pub fn hair_name(i: usize) -> (r: &'static str)
    requires
        i < HAIR_COUNT,
    ensures
        r@ == hair_spec(i as int),
{
    if i == 0 {
        "hair/blue"
    } else if i == 1 {
        "hair/brown"
    } else if i == 2 {
        "hair/pink"
    } else {
        "hair/short-red"
    }
}

/// The leg skin name at a given position.
pub fn leg_name(i: usize) -> (r: &'static str)
    requires
        i < LEG_COUNT,
    ensures
        r@ == leg_spec(i as int),
{
    if i == 0 {
        "legs/boots-pink"
    } else if i == 1 {
        "legs/boots-red"
    } else if i == 2 {
        "legs/pants-green"
    } else {
        "legs/pants-jeans"
    }
}

/// The nose skin name at a given position.
pub fn nose_name(i: usize) -> (r: &'static str)
    requires
        i < NOSE_COUNT,
    ensures
        r@ == nose_spec(i as int),
{
    if i == 0 {
        "nose/long"
    } else {
        "nose/short"
    }
}

/// Relies on rand::Rng::gen_range over `0..n`: for a non-empty range it
/// returns a uniformly distributed value of the range. An empty range makes
/// it panic, so `n` must be positive.
#[verifier::external_body]
fn draw_index(n: usize) -> (r: usize)
    requires
        n > 0,
    ensures
        r < n,
{
    rand::Rng::gen_range(&mut rand::thread_rng(), 0..n)
}

/// One composed outfit: the position chosen in each category list.
pub struct Outfit {
    pub accessory: usize,
    pub clothing: usize,
    pub eyelids: usize,
    pub eyes: usize,
    pub hair: usize,
    pub legs: usize,
    pub nose: usize,
}

impl Outfit {
    /// Every chosen position lies inside its category list.
    pub open spec fn wf(self) -> bool {
        &&& self.accessory < ACCESSORY_COUNT
        &&& self.clothing < CLOTHING_COUNT
        &&& self.eyelids < EYELID_COUNT
        &&& self.eyes < EYE_COUNT
        &&& self.hair < HAIR_COUNT
        &&& self.legs < LEG_COUNT
        &&& self.nose < NOSE_COUNT
    }

    /// Draw a fresh outfit: one position chosen independently and uniformly
    /// from each category list.
    pub fn randomize() -> (o: Outfit)
        ensures
            o.wf(),
    {
        Outfit {
            accessory: draw_index(ACCESSORY_COUNT),
            clothing: draw_index(CLOTHING_COUNT),
            eyelids: draw_index(EYELID_COUNT),
            eyes: draw_index(EYE_COUNT),
            hair: draw_index(HAIR_COUNT),
            legs: draw_index(LEG_COUNT),
            nose: draw_index(NOSE_COUNT),
        }
    }

    /// The list of skin names that this outfit composes: the mandatory base
    /// layer first, then the chosen skin of each category in fixed order.
    pub open spec fn skins_spec(self) -> Seq<Seq<char>> {
        seq![
            "skin-base"@,
            accessory_spec(self.accessory as int),
            clothing_spec(self.clothing as int),
            eyelid_spec(self.eyelids as int),
            eye_spec(self.eyes as int),
            hair_spec(self.hair as int),
            leg_spec(self.legs as int),
            nose_spec(self.nose as int),
        ]
    }

    /// Build the skin-name list that is applied to the skeleton.
    pub fn skins(&self) -> (v: Vec<&'static str>)
        requires
            self.wf(),
        ensures
            v@.len() == OUTFIT_SKIN_COUNT,
            forall|i: int| 0 <= i < OUTFIT_SKIN_COUNT ==> (#[trigger] v@[i])@ == self.skins_spec()[i],
    {
        let mut v: Vec<&'static str> = Vec::new();
        v.push("skin-base");
        v.push(accessory_name(self.accessory));
        v.push(clothing_name(self.clothing));
        v.push(eyelid_name(self.eyelids));
        v.push(eye_name(self.eyes));
        v.push(hair_name(self.hair));
        v.push(leg_name(self.legs));
        v.push(nose_name(self.nose));
        v
    }
}

/// The name is one of the accessory category's entries.
pub open spec fn is_accessory(s: Seq<char>) -> bool {
    exists|i: int| 0 <= i < ACCESSORY_COUNT && s == accessory_spec(i)
}

/// The name is one of the clothing category's entries.
pub open spec fn is_clothing(s: Seq<char>) -> bool {
    exists|i: int| 0 <= i < CLOTHING_COUNT && s == clothing_spec(i)
}

/// The name is one of the eyelid category's entries.
pub open spec fn is_eyelid(s: Seq<char>) -> bool {
    exists|i: int| 0 <= i < EYELID_COUNT && s == eyelid_spec(i)
}

/// The name is one of the eye category's entries.
pub open spec fn is_eye(s: Seq<char>) -> bool {
    exists|i: int| 0 <= i < EYE_COUNT && s == eye_spec(i)
}

/// The name is one of the hair category's entries.
pub open spec fn is_hair(s: Seq<char>) -> bool {
    exists|i: int| 0 <= i < HAIR_COUNT && s == hair_spec(i)
}

/// The name is one of the leg category's entries.
pub open spec fn is_leg(s: Seq<char>) -> bool {
    exists|i: int| 0 <= i < LEG_COUNT && s == leg_spec(i)
}

/// The name is one of the nose category's entries.
pub open spec fn is_nose(s: Seq<char>) -> bool {
    exists|i: int| 0 <= i < NOSE_COUNT && s == nose_spec(i)
}

/// On every randomize trigger the composed list selects exactly one entry
/// from each fixed category list: it is the mandatory base layer followed
/// by one accessory, one clothing, one eyelid, one eye, one hair, one leg
/// and one nose skin, in that order.
pub proof fn lemma_one_skin_per_category(o: Outfit)
    requires
        o.wf(),
    ensures
        o.skins_spec().len() == OUTFIT_SKIN_COUNT,
        o.skins_spec()[0] == "skin-base"@,
        is_accessory(o.skins_spec()[1]),
        is_clothing(o.skins_spec()[2]),
        is_eyelid(o.skins_spec()[3]),
        is_eye(o.skins_spec()[4]),
        is_hair(o.skins_spec()[5]),
        is_leg(o.skins_spec()[6]),
        is_nose(o.skins_spec()[7]),
{
    assert(o.skins_spec()[1] == accessory_spec(o.accessory as int));
    assert(o.skins_spec()[2] == clothing_spec(o.clothing as int));
    assert(o.skins_spec()[3] == eyelid_spec(o.eyelids as int));
    assert(o.skins_spec()[4] == eye_spec(o.eyes as int));
    assert(o.skins_spec()[5] == hair_spec(o.hair as int));
    assert(o.skins_spec()[6] == leg_spec(o.legs as int));
    assert(o.skins_spec()[7] == nose_spec(o.nose as int));
}

/// The name under which the composed skin set is installed on the skeleton.
pub fn composed_skin_name() -> (r: &'static str)
    ensures
        r@ == "combined"@,
{
    "combined"
}

/// Everything one randomize trigger decides for the mix-and-match
/// character: the freshly drawn outfit, the skin-name list to install, and
/// whether the one-shot dress-up animation restarts.
pub struct DressUp {
    pub outfit: Outfit,
    pub skins: Vec<&'static str>,
    pub play_dress_up: bool,
}

/// Handle one randomize trigger (the skeleton reporting ready, or a left
/// click): draw a fresh outfit, compose its skin list, and restart the
/// dress-up animation unless one is still mid-flight. `progress` reports
/// the dress-up track slot as in [`crate::tracks::dress_up_should_restart`].
pub fn dress_up(progress: Option<bool>) -> (d: DressUp)
    ensures
        d.outfit.wf(),
        d.skins@.len() == OUTFIT_SKIN_COUNT,
        forall|i: int| 0 <= i < OUTFIT_SKIN_COUNT ==> (#[trigger] d.skins@[i])@
            == d.outfit.skins_spec()[i],
        d.play_dress_up == (progress matches Some(finished) ==> finished),
{
    let outfit = Outfit::randomize();
    let skins = outfit.skins();
    let play_dress_up = crate::tracks::dress_up_should_restart(progress);
    DressUp { outfit, skins, play_dress_up }
}

} // verus!
