use vstd::prelude::*;

use crate::text::same_text;

verus! {

/// The object classes of an annotation. The set is closed: a name outside
/// the alias table is an error, never a value.
#[derive(Clone, Copy, Debug, PartialEq, Eq, Hash, Structural)]
pub enum Category {
    Plane,
    Ship,
    StorageTank,
    BaseballDiamond,
    TennisCourt,
    BasketballCourt,
    GroundTrackField,
    Harbor,
    Bridge,
    LargeVehicle,
    SmallVehicle,
    Helicopter,
    Roundabout,
    SoccerBallField,
    SwimmingPool,
    ContainerCrane,
    Airport,
    Helipad,
}

/// The canonical text of each category: lower case, words joined by hyphens.
pub open spec fn alias_of(c: Category) -> Seq<char> {
    match c {
        Category::Plane => "plane"@,
        Category::Ship => "ship"@,
        Category::StorageTank => "storage-tank"@,
        Category::BaseballDiamond => "baseball-diamond"@,
        Category::TennisCourt => "tennis-court"@,
        Category::BasketballCourt => "basketball-court"@,
        Category::GroundTrackField => "ground-track-field"@,
        Category::Harbor => "harbor"@,
        Category::Bridge => "bridge"@,
        Category::LargeVehicle => "large-vehicle"@,
        Category::SmallVehicle => "small-vehicle"@,
        Category::Helicopter => "helicopter"@,
        Category::Roundabout => "roundabout"@,
        Category::SoccerBallField => "soccer-ball-field"@,
        Category::SwimmingPool => "swimming-pool"@,
        Category::ContainerCrane => "container-crane"@,
        Category::Airport => "airport"@,
        Category::Helipad => "helipad"@,
    }
}

/// The category that a text names, if any.
pub open spec fn category_of(s: Seq<char>) -> Option<Category> {
    if s == alias_of(Category::Plane) {
        Some(Category::Plane)
    } else if s == alias_of(Category::Ship) {
        Some(Category::Ship)
    } else if s == alias_of(Category::StorageTank) {
        Some(Category::StorageTank)
    } else if s == alias_of(Category::BaseballDiamond) {
        Some(Category::BaseballDiamond)
    } else if s == alias_of(Category::TennisCourt) {
        Some(Category::TennisCourt)
    } else if s == alias_of(Category::BasketballCourt) {
        Some(Category::BasketballCourt)
    } else if s == alias_of(Category::GroundTrackField) {
        Some(Category::GroundTrackField)
    } else if s == alias_of(Category::Harbor) {
        Some(Category::Harbor)
    } else if s == alias_of(Category::Bridge) {
        Some(Category::Bridge)
    } else if s == alias_of(Category::LargeVehicle) {
        Some(Category::LargeVehicle)
    } else if s == alias_of(Category::SmallVehicle) {
        Some(Category::SmallVehicle)
    } else if s == alias_of(Category::Helicopter) {
        Some(Category::Helicopter)
    } else if s == alias_of(Category::Roundabout) {
        Some(Category::Roundabout)
    } else if s == alias_of(Category::SoccerBallField) {
        Some(Category::SoccerBallField)
    } else if s == alias_of(Category::SwimmingPool) {
        Some(Category::SwimmingPool)
    } else if s == alias_of(Category::ContainerCrane) {
        Some(Category::ContainerCrane)
    } else if s == alias_of(Category::Airport) {
        Some(Category::Airport)
    } else if s == alias_of(Category::Helipad) {
        Some(Category::Helipad)
    } else {
        None
    }
}

/// The length, first and last character of each alias: no two categories
/// agree on all three.
spec fn alias_shape(c: Category) -> (nat, char, char) {
    match c {
        Category::Plane => (5, 'p', 'e'),
        Category::Ship => (4, 's', 'p'),
        Category::StorageTank => (12, 's', 'k'),
        Category::BaseballDiamond => (16, 'b', 'd'),
        Category::TennisCourt => (12, 't', 't'),
        Category::BasketballCourt => (16, 'b', 't'),
        Category::GroundTrackField => (18, 'g', 'd'),
        Category::Harbor => (6, 'h', 'r'),
        Category::Bridge => (6, 'b', 'e'),
        Category::LargeVehicle => (13, 'l', 'e'),
        Category::SmallVehicle => (13, 's', 'e'),
        Category::Helicopter => (10, 'h', 'r'),
        Category::Roundabout => (10, 'r', 't'),
        Category::SoccerBallField => (17, 's', 'd'),
        Category::SwimmingPool => (13, 's', 'l'),
        Category::ContainerCrane => (15, 'c', 'e'),
        Category::Airport => (7, 'a', 't'),
        Category::Helipad => (7, 'h', 'd'),
    }
}

proof fn lemma_alias_shape(c: Category)
    ensures
        alias_of(c).len() == alias_shape(c).0,
        alias_of(c)[0] == alias_shape(c).1,
        alias_of(c).last() == alias_shape(c).2,
{
    match c {
        Category::Plane => reveal_strlit("plane"),
        Category::Ship => reveal_strlit("ship"),
        Category::StorageTank => reveal_strlit("storage-tank"),
        Category::BaseballDiamond => reveal_strlit("baseball-diamond"),
        Category::TennisCourt => reveal_strlit("tennis-court"),
        Category::BasketballCourt => reveal_strlit("basketball-court"),
        Category::GroundTrackField => reveal_strlit("ground-track-field"),
        Category::Harbor => reveal_strlit("harbor"),
        Category::Bridge => reveal_strlit("bridge"),
        Category::LargeVehicle => reveal_strlit("large-vehicle"),
        Category::SmallVehicle => reveal_strlit("small-vehicle"),
        Category::Helicopter => reveal_strlit("helicopter"),
        Category::Roundabout => reveal_strlit("roundabout"),
        Category::SoccerBallField => reveal_strlit("soccer-ball-field"),
        Category::SwimmingPool => reveal_strlit("swimming-pool"),
        Category::ContainerCrane => reveal_strlit("container-crane"),
        Category::Airport => reveal_strlit("airport"),
        Category::Helipad => reveal_strlit("helipad"),
    }
}

/// No two categories share an alias.
pub proof fn lemma_alias_injective(c: Category, d: Category)
    requires
        alias_of(c) == alias_of(d),
    ensures
        c == d,
{
    lemma_alias_shape(c);
    lemma_alias_shape(d);
}

/// Decoding the alias of a category gives that category back.
pub proof fn lemma_decode_encode(c: Category)
    ensures
        category_of(alias_of(c)) == Some(c),
{
    assert forall|d: Category| alias_of(d) == alias_of(c) implies d == c by {
        lemma_alias_injective(d, c);
    }
}

/// Every text that names a category is that category's alias.
pub proof fn lemma_encode_decode(s: Seq<char>)
    requires
        category_of(s) is Some,
    ensures
        alias_of(category_of(s)->0) == s,
{
}

impl Category {
    /// The canonical text of this category, as it stands in annotation files.
    pub fn alias(self) -> (r: &'static str)
        ensures
            r@ == alias_of(self),
    {
        match self {
            Category::Plane => "plane",
            Category::Ship => "ship",
            Category::StorageTank => "storage-tank",
            Category::BaseballDiamond => "baseball-diamond",
            Category::TennisCourt => "tennis-court",
            Category::BasketballCourt => "basketball-court",
            Category::GroundTrackField => "ground-track-field",
            Category::Harbor => "harbor",
            Category::Bridge => "bridge",
            Category::LargeVehicle => "large-vehicle",
            Category::SmallVehicle => "small-vehicle",
            Category::Helicopter => "helicopter",
            Category::Roundabout => "roundabout",
            Category::SoccerBallField => "soccer-ball-field",
            Category::SwimmingPool => "swimming-pool",
            Category::ContainerCrane => "container-crane",
            Category::Airport => "airport",
            Category::Helipad => "helipad",
        }
    }

    /// The category whose alias is `s`; `None` when `s` is no alias.
    pub fn from_alias(s: &str) -> (r: Option<Category>)
        ensures
            r == category_of(s@),
    {
        if same_text(s, Category::Plane.alias()) {
            Some(Category::Plane)
        } else if same_text(s, Category::Ship.alias()) {
            Some(Category::Ship)
        } else if same_text(s, Category::StorageTank.alias()) {
            Some(Category::StorageTank)
        } else if same_text(s, Category::BaseballDiamond.alias()) {
            Some(Category::BaseballDiamond)
        } else if same_text(s, Category::TennisCourt.alias()) {
            Some(Category::TennisCourt)
        } else if same_text(s, Category::BasketballCourt.alias()) {
            Some(Category::BasketballCourt)
        } else if same_text(s, Category::GroundTrackField.alias()) {
            Some(Category::GroundTrackField)
        } else if same_text(s, Category::Harbor.alias()) {
            Some(Category::Harbor)
        } else if same_text(s, Category::Bridge.alias()) {
            Some(Category::Bridge)
        } else if same_text(s, Category::LargeVehicle.alias()) {
            Some(Category::LargeVehicle)
        } else if same_text(s, Category::SmallVehicle.alias()) {
            Some(Category::SmallVehicle)
        } else if same_text(s, Category::Helicopter.alias()) {
            Some(Category::Helicopter)
        } else if same_text(s, Category::Roundabout.alias()) {
            Some(Category::Roundabout)
        } else if same_text(s, Category::SoccerBallField.alias()) {
            Some(Category::SoccerBallField)
        } else if same_text(s, Category::SwimmingPool.alias()) {
            Some(Category::SwimmingPool)
        } else if same_text(s, Category::ContainerCrane.alias()) {
            Some(Category::ContainerCrane)
        } else if same_text(s, Category::Airport.alias()) {
            Some(Category::Airport)
        } else if same_text(s, Category::Helipad.alias()) {
            Some(Category::Helipad)
        } else {
            None
        }
    }
}

} // verus!
