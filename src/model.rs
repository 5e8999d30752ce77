//! The country and world data that the statistics are derived from.

use vstd::prelude::*;
use crate::calendar::GameDate;
use crate::province::Province;

verus! {

/// Largest magnitude of a fractional game quantity, in thousandths.
pub const MILLI_BOUND: i64 = 0x100_0000_0000;

/// Largest number of entries in any list of a country's data.
pub const LIST_BOUND: usize = 0x100_0000;

/// Why the statistics of a country could not be derived.
#[derive(Clone, Copy, Debug, PartialEq, Eq, Structural)]
pub enum StatsError {
    /// A date names a day that the calendar does not have.
    InvalidDate,
    /// The averaging window does not end after it starts.
    EmptyWindow,
    /// The reign history is not in date order, or runs past the current date.
    UnorderedHistory,
    /// A ruler skill lies outside 0 to 6.
    SkillOutOfRange,
    /// The country has no ruler record.
    NoRuler,
    /// A province holds a building that has no value in the building table.
    UnknownBuilding,
}

/// The accession of a ruler: date, skills and personality traits.
#[derive(Clone, Debug)]
pub struct Reign {
    pub date: GameDate,
    pub adm: u16,
    pub dip: u16,
    pub mil: u16,
    pub personalities: Vec<String>,
}

/// Morale values of the units of one army or one navy, in thousandths.
pub type Roster = Vec<i64>;

/// The data of one country that the statistics read. Fractional game
/// quantities are in thousandths.
#[derive(Clone, Debug)]
pub struct CountryData {
    pub tag: String,
    pub raw_development: i64,
    pub development: i64,
    pub great_power_score: i64,
    /// Unspent administrative, diplomatic and military power.
    pub powers: [i32; 3],
    /// Administrative power spent, as (category code, amount) pairs.
    pub adm_spent: Vec<(i32, i32)>,
    pub dip_spent: Vec<(i32, i32)>,
    pub mil_spent: Vec<(i32, i32)>,
    /// Administrative, diplomatic and military technology levels.
    pub technology: [u8; 3],
    /// Active idea groups with the number of ideas taken in each.
    pub ideas: Vec<(String, u8)>,
    /// Identifiers of the active policies.
    pub policies: Vec<String>,
    /// Accessions of the country's rulers, in date order.
    pub reigns: Vec<Reign>,
    /// Manpower in thousands of men, in thousandths.
    pub manpower: i64,
    pub max_manpower: i64,
    pub num_of_cities: i32,
    pub innovativeness: i64,
    pub absolutism: i64,
    pub army_tradition: i64,
    /// Army professionalism as a fraction of one, in thousandths.
    pub army_professionalism: i64,
    pub current_power_projection: i64,
    pub navy_tradition: i64,
    /// Regiment morale, army by army.
    pub armies: Vec<Roster>,
    /// Ship morale, navy by navy.
    pub navies: Vec<Roster>,
}

/// The holder of a hegemony title and its progress, in thousandths of a percent.
#[derive(Clone, Debug)]
pub struct Hegemony {
    pub country: String,
    pub progress: i64,
}

/// The state of the world that the statistics of every country share.
#[derive(Clone, Debug)]
pub struct WorldData {
    pub date: GameDate,
    pub provinces: Vec<Province>,
    pub military_hegemon: Option<Hegemony>,
    pub economic_hegemon: Option<Hegemony>,
}

/// A fractional game quantity lies within `MILLI_BOUND`.
pub open spec fn milli_fits(x: i64) -> bool {
    -MILLI_BOUND <= x <= MILLI_BOUND
}

/// Every unit morale of every roster is a game quantity, and no roster list
/// is longer than `LIST_BOUND`.
pub open spec fn rosters_fit(rs: Seq<Roster>) -> bool {
    &&& rs.len() <= LIST_BOUND
    &&& forall|j: int|
        0 <= j < rs.len() ==> (#[trigger] rs[j])@.len() <= LIST_BOUND && forall|k: int|
            0 <= k < rs[j]@.len() ==> milli_fits(#[trigger] rs[j]@[k])
}

impl Hegemony {
    pub open spec fn wf(self) -> bool {
        milli_fits(self.progress)
    }
}

impl WorldData {
    pub open spec fn wf(self) -> bool {
        &&& crate::province::buildings_fit(self.provinces@)
        &&& crate::province::buildings_distinct(self.provinces@)
        &&& self.military_hegemon matches Some(h) ==> h.wf()
        &&& self.economic_hegemon matches Some(h) ==> h.wf()
    }
}

impl CountryData {
    /// Quantities lie within the range of game values and lists within `LIST_BOUND`.
    pub open spec fn wf(self) -> bool {
        &&& milli_fits(self.raw_development)
        &&& milli_fits(self.development)
        &&& milli_fits(self.great_power_score)
        &&& milli_fits(self.manpower)
        &&& milli_fits(self.max_manpower)
        &&& milli_fits(self.innovativeness)
        &&& milli_fits(self.absolutism)
        &&& milli_fits(self.army_tradition)
        &&& milli_fits(self.army_professionalism)
        &&& milli_fits(self.current_power_projection)
        &&& milli_fits(self.navy_tradition)
        &&& self.adm_spent@.len() <= LIST_BOUND
        &&& self.dip_spent@.len() <= LIST_BOUND
        &&& self.mil_spent@.len() <= LIST_BOUND
        &&& self.ideas@.len() <= LIST_BOUND
        &&& self.policies@.len() <= LIST_BOUND
        &&& self.reigns@.len() <= LIST_BOUND
        &&& forall|j: int|
            0 <= j < self.reigns@.len() ==> (#[trigger] self.reigns@[j]).personalities@.len()
                <= LIST_BOUND
        &&& rosters_fit(self.armies@)
        &&& rosters_fit(self.navies@)
    }
}

fn milli_in_range(x: i64) -> (r: bool)
    ensures
        r == milli_fits(x),
{
    -MILLI_BOUND <= x && x <= MILLI_BOUND
}

fn roster_in_range(v: &Roster) -> (r: bool)
    ensures
        r == (v@.len() <= LIST_BOUND && forall|k: int|
            0 <= k < v@.len() ==> milli_fits(#[trigger] v@[k])),
{
    if v.len() > LIST_BOUND {
        return false;
    }
    let mut i: usize = 0;
    while i < v.len()
        invariant
            i <= v@.len(),
            forall|k: int| 0 <= k < i ==> milli_fits(#[trigger] v@[k]),
        decreases v@.len() - i,
    {
        if !milli_in_range(v[i]) {
            return false;
        }
        i += 1;
    }
    true
}

/// Whether the rosters are within the ranges that the statistics handle.
pub fn rosters_in_range(rs: &Vec<Roster>) -> (r: bool)
    ensures
        r == rosters_fit(rs@),
{
    if rs.len() > LIST_BOUND {
        return false;
    }
    let mut i: usize = 0;
    while i < rs.len()
        invariant
            i <= rs@.len() <= LIST_BOUND,
            forall|j: int|
                0 <= j < i ==> (#[trigger] rs@[j])@.len() <= LIST_BOUND && forall|k: int|
                    0 <= k < rs@[j]@.len() ==> milli_fits(#[trigger] rs@[j]@[k]),
        decreases rs@.len() - i,
    {
        if !roster_in_range(&rs[i]) {
            return false;
        }
        i += 1;
    }
    true
}

impl CountryData {
    /// Whether the country is within the ranges that the statistics handle.
    pub fn fits(&self) -> (r: bool)
        ensures
            r == self.wf(),
    {
        if !(milli_in_range(self.raw_development) && milli_in_range(self.development)
            && milli_in_range(self.great_power_score) && milli_in_range(self.manpower)
            && milli_in_range(self.max_manpower) && milli_in_range(self.innovativeness)
            && milli_in_range(self.absolutism) && milli_in_range(self.army_tradition)
            && milli_in_range(self.army_professionalism) && milli_in_range(
            self.current_power_projection,
        ) && milli_in_range(self.navy_tradition)) {
            return false;
        }
        if self.adm_spent.len() > LIST_BOUND || self.dip_spent.len() > LIST_BOUND
            || self.mil_spent.len() > LIST_BOUND || self.ideas.len() > LIST_BOUND
            || self.policies.len() > LIST_BOUND || self.reigns.len() > LIST_BOUND {
            return false;
        }
        let mut i: usize = 0;
        while i < self.reigns.len()
            invariant
                i <= self.reigns@.len(),
                forall|j: int|
                    0 <= j < i ==> (#[trigger] self.reigns@[j]).personalities@.len()
                        <= LIST_BOUND,
            decreases self.reigns@.len() - i,
        {
            if self.reigns[i].personalities.len() > LIST_BOUND {
                return false;
            }
            i += 1;
        }
        rosters_in_range(&self.armies) && rosters_in_range(&self.navies)
    }
}

impl WorldData {
    /// Whether the world is within the ranges that the statistics handle.
    pub fn fits(&self) -> (r: bool)
        ensures
            r == self.wf(),
    {
        let military = match &self.military_hegemon {
            Some(h) => milli_in_range(h.progress),
            None => true,
        };
        let economic = match &self.economic_hegemon {
            Some(h) => milli_in_range(h.progress),
            None => true,
        };
        military && economic && crate::province::provinces_fit(&self.provinces)
            && crate::province::provinces_distinct(&self.provinces)
    }
}

} // verus!
