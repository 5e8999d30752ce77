//! The military record of a country.

use vstd::prelude::*;
use crate::fixed::{round2, round_div, round_hundredths};
use crate::model::{CountryData, Roster, WorldData, StatsError, LIST_BOUND, MILLI_BOUND, milli_fits};
use crate::scoring::{
    artillery_spec, cavalry_spec, discipline_numer, fort_numer, get_artillery_ca, get_cavalry_ca,
    get_discipline, get_fort_defense, get_infantry_ca, get_leader_fire, get_leader_maneuver,
    get_leader_shock, get_leader_siege, get_merc_discipline, get_siege_ability, ideas_matching,
    infantry_spec, merc_numer, names_matching, siege_numer,
};

verus! {

/// Highest morale among the first `n` units, or zero if none is higher.
pub open spec fn unit_max(v: Seq<i64>, n: nat) -> int
    decreases n,
{
    if n == 0 || n > v.len() {
        0
    } else {
        let m = unit_max(v, (n - 1) as nat);
        if v[n - 1] > m {
            v[n - 1] as int
        } else {
            m
        }
    }
}

/// Highest unit morale in the first `n` rosters, or zero if none is higher.
pub open spec fn roster_max(rs: Seq<Roster>, n: nat) -> int
    decreases n,
{
    if n == 0 || n > rs.len() {
        0
    } else {
        let m = roster_max(rs, (n - 1) as nat);
        let x = unit_max(rs[n - 1]@, rs[n - 1]@.len());
        if x > m {
            x
        } else {
            m
        }
    }
}

/// Number of units in the first `n` rosters.
pub open spec fn roster_units(rs: Seq<Roster>, n: nat) -> int
    decreases n,
{
    if n == 0 || n > rs.len() {
        0
    } else {
        roster_units(rs, (n - 1) as nat) + rs[n - 1]@.len()
    }
}

fn max_unit(v: &Roster) -> (r: i64)
    requires
        forall|k: int| 0 <= k < v@.len() ==> milli_fits(#[trigger] v@[k]),
    ensures
        r == unit_max(v@, v@.len()),
        0 <= r <= MILLI_BOUND,
{
    let mut m: i64 = 0;
    let mut i: usize = 0;
    while i < v.len()
        invariant
            i <= v@.len(),
            forall|k: int| 0 <= k < v@.len() ==> milli_fits(#[trigger] v@[k]),
            m == unit_max(v@, i as nat),
            0 <= m <= MILLI_BOUND,
        decreases v@.len() - i,
    {
        assert(milli_fits(v@[i as int]));
        if v[i] > m {
            m = v[i];
        }
        i += 1;
    }
    m
}

/// Highest unit morale over all the rosters, or zero.
pub fn max_morale(rosters: &Vec<Roster>) -> (r: i64)
    requires
        crate::model::rosters_fit(rosters@),
    ensures
        r == roster_max(rosters@, rosters@.len()),
        0 <= r <= MILLI_BOUND,
{
    let mut m: i64 = 0;
    let mut i: usize = 0;
    while i < rosters.len()
        invariant
            i <= rosters@.len(),
            crate::model::rosters_fit(rosters@),
            m == roster_max(rosters@, i as nat),
            0 <= m <= MILLI_BOUND,
        decreases rosters@.len() - i,
    {
        assert(rosters@[i as int]@.len() <= LIST_BOUND);
        let x = max_unit(&rosters[i]);
        if x > m {
            m = x;
        }
        i += 1;
    }
    m
}

/// Number of units over all the rosters.
pub fn unit_count(rosters: &Vec<Roster>) -> (r: i64)
    requires
        crate::model::rosters_fit(rosters@),
    ensures
        r == roster_units(rosters@, rosters@.len()),
{
    let mut n: i64 = 0;
    let mut i: usize = 0;
    while i < rosters.len()
        invariant
            i <= rosters@.len() <= LIST_BOUND,
            crate::model::rosters_fit(rosters@),
            n == roster_units(rosters@, i as nat),
            0 <= n <= i * LIST_BOUND,
        decreases rosters@.len() - i,
    {
        assert(rosters@[i as int]@.len() <= LIST_BOUND);
        n = n + rosters[i].len() as i64;
        i += 1;
    }
    n
}

/// Highest regiment morale of the country's armies, in thousandths.
pub fn get_army_morale(country: &CountryData) -> (r: i64)
    requires
        country.wf(),
    ensures
        r == roster_max(country.armies@, country.armies@.len()),
        0 <= r <= MILLI_BOUND,
{
    max_morale(&country.armies)
}

/// Number of regiments in the country's armies.
pub fn get_force_limit(country: &CountryData) -> (r: i64)
    requires
        country.wf(),
    ensures
        r == roster_units(country.armies@, country.armies@.len()),
{
    unit_count(&country.armies)
}

/// Highest ship morale of the country's navies, in thousandths.
pub fn get_navy_morale(country: &CountryData) -> (r: i64)
    requires
        country.wf(),
    ensures
        r == roster_max(country.navies@, country.navies@.len()),
        0 <= r <= MILLI_BOUND,
{
    max_morale(&country.navies)
}

/// Number of ships in the country's navies.
pub fn get_navy_force_limit(country: &CountryData) -> (r: i64)
    requires
        country.wf(),
    ensures
        r == roster_units(country.navies@, country.navies@.len()),
{
    unit_count(&country.navies)
}

/// Military capabilities of a country. Values with fractions are in
/// thousandths, rounded to two decimals.
#[derive(Clone, Debug)]
pub struct CountryMilitary {
    pub army_tradition: i64,
    pub army_morale: i64,
    pub army_discipline: i64,
    pub army_force_limit: i64,
    /// Army professionalism in percent.
    pub army_professionalism: i64,
    pub siege_ability: i64,
    pub fort_defense: i64,
    pub infantry_ability: i64,
    pub cavalry_ability: i64,
    pub artillery_ability: i64,
    pub fire_dealt: i64,
    pub fire_received: i64,
    pub shock_dealt: i64,
    pub shock_received: i64,
    pub leader_fire: i64,
    pub leader_shock: i64,
    pub leader_maneuver: i64,
    pub leader_siege: i64,
    pub mercenary_discipline: i64,
    pub naval_tradition: i64,
    pub naval_morale: i64,
    pub naval_force_limit: i64,
}

/// The military record holds, field by field, what is derived from the
/// country and the world.
pub open spec fn military_matches(m: CountryMilitary, w: WorldData, c: CountryData) -> bool {
        &&& m.army_tradition == round_hundredths(c.army_tradition as int, 1)
        &&& m.army_morale == round_hundredths(
            roster_max(c.armies@, c.armies@.len()),
            1,
        )
        &&& m.army_discipline == round_hundredths(discipline_numer(c), 20)
        &&& m.army_force_limit == roster_units(c.armies@, c.armies@.len())
        &&& m.army_professionalism == round_hundredths(
            100 * c.army_professionalism,
            1,
        )
        &&& m.siege_ability == round_hundredths(siege_numer(c, w), 20)
        &&& m.fort_defense == round_hundredths(fort_numer(c), 10)
        &&& m.infantry_ability == infantry_spec(c)
        &&& m.cavalry_ability == cavalry_spec(c)
        &&& m.artillery_ability == artillery_spec(c)
        &&& m.fire_dealt == round_hundredths(10 * c.army_professionalism, 1)
        &&& m.fire_received == 0
        &&& m.shock_dealt == round_hundredths(10 * c.army_professionalism, 1)
        &&& m.shock_received == 0
        &&& m.leader_fire == ideas_matching(c.ideas@, seq!["offensive"], 3)
            + names_matching(c.policies@, seq!["mining_act"])
        &&& m.leader_shock == ideas_matching(c.ideas@, seq!["offensive"], 1)
            + names_matching(c.policies@, seq!["inspirational_leaders"])
        &&& m.leader_maneuver == ideas_matching(c.ideas@, seq!["defensive"], 3)
            + names_matching(c.policies@, seq!["hired_adventurers"])
        &&& m.leader_siege == ideas_matching(c.ideas@, seq!["aristocratic"], 7)
            + names_matching(c.policies@, seq!["modern_siege"])
        &&& m.mercenary_discipline == round_div(merc_numer(c, w), 10)
        &&& m.naval_tradition == round_hundredths(c.navy_tradition as int, 1)
        &&& m.naval_morale == round_hundredths(
            roster_max(c.navies@, c.navies@.len()),
            1,
        )
        &&& m.naval_force_limit == roster_units(c.navies@, c.navies@.len())
}

/// Derives the military record of a country. Fails for a country with no
/// ruler, or with an accession date that the calendar does not have.
pub fn generate_military_stats(world: &WorldData, country: &CountryData) -> (r: Result<
    CountryMilitary,
    StatsError,
>)
    requires
        country.wf(),
        world.wf(),
    ensures
        r == Err::<CountryMilitary, StatsError>(StatsError::NoRuler) <==> country.reigns@.len()
            == 0,
        r is Err <==> country.reigns@.len() == 0 || !crate::reign::dates_valid(country.reigns@),
        r matches Err(e) ==> e == StatsError::NoRuler || e == StatsError::InvalidDate,
        r matches Ok(m) ==> military_matches(m, *world, *country),
{
    let discipline = match get_discipline(country) {
        Ok(d) => d,
        Err(e) => {
            return Err(e);
        },
    };
    let fire = round2(10 * country.army_professionalism);
    Ok(
        CountryMilitary {
            army_tradition: round2(country.army_tradition),
            army_morale: round2(get_army_morale(country)),
            army_discipline: discipline,
            army_force_limit: get_force_limit(country),
            army_professionalism: round2(100 * country.army_professionalism),
            siege_ability: get_siege_ability(country, world),
            fort_defense: get_fort_defense(country),
            infantry_ability: get_infantry_ca(country),
            cavalry_ability: get_cavalry_ca(country),
            artillery_ability: get_artillery_ca(country),
            fire_dealt: fire,
            fire_received: 0,
            shock_dealt: fire,
            shock_received: 0,
            leader_fire: get_leader_fire(country),
            leader_shock: get_leader_shock(country),
            leader_maneuver: get_leader_maneuver(country),
            leader_siege: get_leader_siege(country),
            mercenary_discipline: get_merc_discipline(country, world),
            naval_tradition: round2(country.navy_tradition),
            naval_morale: round2(get_navy_morale(country)),
            naval_force_limit: get_navy_force_limit(country),
        },
    )
}

} // verus!
