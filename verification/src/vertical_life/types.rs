//! What the vendor sends about gyms, sectors, walls and climbs.

use vstd::prelude::*;

verus! {

/// The wall category of boulder walls.
pub const BOULDERING: &'static str = "gym_bouldering";

/// The wall category of rope walls.
pub const SPORT_CLIMBING: &'static str = "gym_sportclimbing";

/// A sector as a gym lists it.
#[derive(Debug, Clone, PartialEq, Eq)]
pub struct GymSector {
    pub id: u32,
    pub gym_id: u32,
    pub name: String,
    pub category: String,
    pub cover: Option<String>,
    /// The id of the overview image.
    pub overview: String,
    pub route_count: u32,
}

/// A sector with its walls.
#[derive(Debug, Clone, PartialEq, Eq)]
pub struct GymSectorFull {
    pub id: u32,
    pub gym_id: u32,
    pub name: String,
    pub category: String,
    pub cover: Option<String>,
    pub overview: String,
    pub route_count: u32,
    pub walls: Vec<Wall>,
}

/// A wall with the climbs on it. Either list may be absent, which means the
/// same as empty.
#[derive(Debug, Clone, PartialEq, Eq)]
pub struct Wall {
    pub id: u32,
    pub gym_sector_id: u32,
    pub height: u32,
    pub name: String,
    /// One of [`BOULDERING`] and [`SPORT_CLIMBING`].
    pub category: String,
    pub gym_boulders: Option<Vec<Climb>>,
    pub gym_routes: Option<Vec<Climb>>,
}

/// A gym with its sectors.
#[derive(Debug, Clone, PartialEq, Eq)]
pub struct Gym {
    pub id: u32,
    pub name: String,
    pub boulder_count: u32,
    pub route_count: u32,
    pub gym_sectors: Vec<GymSector>,
}

/// A boulder or a route.
#[derive(Debug, Clone, PartialEq, Eq)]
pub struct Climb {
    pub id: u32,
    pub difficulty: String,
    /// When the climb was set, in seconds after the Unix epoch, UTC.
    pub set_at: i64,
    /// The color of the holds, as `#` and six hexadecimal digits.
    pub color: String,
    pub sector_name: String,
    pub parent_name: String,
    pub route_card_label: String,
    pub route_setter: String,
    /// One of `gym_boulder` and `gym_route`.
    pub item_type: String,
    /// Where the climb can be looked at.
    pub share_url: String,
}

/// All climbs of a gym, by kind.
#[derive(Debug, Clone, PartialEq, Eq)]
pub struct ZlagsResponse {
    pub gym_boulders: Vec<Climb>,
    pub gym_routes: Vec<Climb>,
}

/// The climbs of an optional list: none where the list is absent.
pub open spec fn listed(climbs: Option<Vec<Climb>>) -> Seq<Climb> {
    match climbs {
        Some(list) => list@,
        None => Seq::empty(),
    }
}

impl Wall {
    /// The climbs of the wall: the boulders, then the routes, each list in
    /// the order in which the vendor sent it.
    pub open spec fn climbs_spec(&self) -> Seq<Climb> {
        listed(self.gym_boulders) + listed(self.gym_routes)
    }

    /// The climbs of the wall, boulders first.
    pub fn climbs(&self) -> (all: Vec<&Climb>)
        ensures
            all@.len() == self.climbs_spec().len(),
            forall|i: int| 0 <= i < all@.len() ==> *all@[i] == self.climbs_spec()[i],
    {
        let mut all: Vec<&Climb> = Vec::new();
        if let Some(boulders) = &self.gym_boulders {
            let mut i: usize = 0;
            while i < boulders.len()
                invariant
                    i <= boulders.len(),
                    self.gym_boulders == Some(*boulders),
                    all@.len() == i,
                    forall|j: int| 0 <= j < i ==> *all@[j] == boulders@[j],
                decreases boulders.len() - i,
            {
                all.push(&boulders[i]);
                i += 1;
            }
        }
        let ghost first = listed(self.gym_boulders);
        assert(all@.len() == first.len());
        if let Some(routes) = &self.gym_routes {
            let mut i: usize = 0;
            while i < routes.len()
                invariant
                    i <= routes.len(),
                    self.gym_routes == Some(*routes),
                    first == listed(self.gym_boulders),
                    all@.len() == first.len() + i,
                    forall|j: int| 0 <= j < first.len() ==> *all@[j] == first[j],
                    forall|j: int| 0 <= j < i ==> *all@[first.len() + j] == routes@[j],
                decreases routes.len() - i,
            {
                all.push(&routes[i]);
                i += 1;
            }
        }
        all
    }
}

} // verus!
