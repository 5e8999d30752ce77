//! The statistics record of a country and its assembly.

use vstd::prelude::*;
use crate::calendar::campaign_start;
use crate::fixed::{round2, round2_ratio, round_div, round_hundredths};
use crate::ledger::{IncomeLedger, get_income};
use crate::mana::{CountryMana, generate_mana, mana_matches, total_spent};
use crate::military::{CountryMilitary, generate_military_stats, military_matches};
use crate::model::{CountryData, WorldData, StatsError, LIST_BOUND, MILLI_BOUND};
use crate::province::{
    building_count,
    building_total,
    buildings_known,
    get_buildings_value,
    get_num_buildings,
};
use crate::reign::{get_avg_monarch, average_skill, dates_valid, history_ordered, skills_valid};

verus! {

/// Development, economy and government of a country. Values with fractions
/// are in thousandths, rounded to two decimals.
#[derive(Clone, Debug)]
pub struct CondensedCountry {
    pub total_development: i64,
    pub real_development: i64,
    pub gp_score: i64,
    pub powers_earned: [i64; 3],
    pub technology: [i32; 3],
    pub ideas: Vec<(String, u8)>,
    pub total_ideas: i64,
    /// Manpower in men, to the nearest thousand.
    pub current_manpower: i64,
    pub max_manpower: i64,
    pub average_monarch: [i64; 3],
    pub income: i64,
    pub number_provinces: i32,
    pub number_buildings: i64,
    pub buildings_value: i64,
    /// `None` for a country without cities.
    pub buildings_per_province: Option<i64>,
    pub innovativeness: i64,
    pub absolutism: i64,
    pub average_development: Option<i64>,
    pub average_development_real: Option<i64>,
}

/// `num / cities` thousandths rounded to two decimals, or `None` without cities.
pub open spec fn per_city(num: int, cities: int) -> Option<int> {
    if cities == 0 {
        None
    } else if cities > 0 {
        Some(round_hundredths(num, cities))
    } else {
        Some(round_hundredths(-num, -cities))
    }
}

/// An optional value seen as an integer.
pub open spec fn opt_int(o: Option<i64>) -> Option<int> {
    match o {
        Some(v) => Some(v as int),
        None => None,
    }
}

/// Sum of the first `n` idea group levels.
pub open spec fn idea_levels(ideas: Seq<(String, u8)>, n: nat) -> int
    decreases n,
{
    if n == 0 || n > ideas.len() {
        0
    } else {
        idea_levels(ideas, (n - 1) as nat) + ideas[n - 1].1
    }
}

/// Power of one kind earned: what is unspent plus what was spent.
pub open spec fn earned(unspent: i32, spent: Seq<(i32, i32)>) -> int {
    unspent + total_spent(spent)
}

/// The averaging of ruler skills from the campaign start to the world's date succeeds.
pub open spec fn monarchs_ok(w: WorldData, c: CountryData) -> bool {
    let s = campaign_start_spec();
    &&& c.reigns@.len() > 0
    &&& s.valid() && w.date.valid() && dates_valid(c.reigns@)
    &&& w.date.day_number() > s.day_number()
    &&& history_ordered(c.reigns@, w.date.day_number())
    &&& skills_valid(c.reigns@)
}

/// The first day of the campaign.
pub open spec fn campaign_start_spec() -> crate::calendar::GameDate {
    crate::calendar::GameDate { year: 1444, month: 11, day: 11 }
}

/// The country record holds, field by field, what is derived from the
/// country, its income ledger and the world.
pub open spec fn condensed_matches(
    r: CondensedCountry,
    w: WorldData,
    c: CountryData,
    ledger: IncomeLedger,
) -> bool {
    let tags = set![c.tag@];
    let start = campaign_start_spec().day_number();
    let end = w.date.day_number();
    &&& r.total_development == round_hundredths(c.raw_development as int, 1)
    &&& r.real_development == round_hundredths(c.development as int, 1)
    &&& r.gp_score == round_div(c.great_power_score as int, 1000)
    &&& r.powers_earned[0] == earned(c.powers[0], c.adm_spent@)
    &&& r.powers_earned[1] == earned(c.powers[1], c.dip_spent@)
    &&& r.powers_earned[2] == earned(c.powers[2], c.mil_spent@)
    &&& r.technology[0] == c.technology[0] as i32
    &&& r.technology[1] == c.technology[1] as i32
    &&& r.technology[2] == c.technology[2] as i32
    &&& r.ideas@.len() == c.ideas@.len()
    &&& forall|j: int|
        0 <= j < c.ideas@.len() ==> (#[trigger] r.ideas@[j]).0@ == c.ideas@[j].0@
            && r.ideas@[j].1 == c.ideas@[j].1
    &&& r.total_ideas == idea_levels(c.ideas@, c.ideas@.len())
    &&& r.current_manpower == 1000 * round_div(c.manpower as int, 1000)
    &&& r.max_manpower == 1000 * round_div(c.max_manpower as int, 1000)
    &&& r.average_monarch[0] == average_skill(c.reigns@, start, end, 0)
    &&& r.average_monarch[1] == average_skill(c.reigns@, start, end, 1)
    &&& r.average_monarch[2] == average_skill(c.reigns@, start, end, 2)
    &&& r.income == round_hundredths(ledger.total(), 1)
    &&& r.number_provinces == c.num_of_cities
    &&& r.number_buildings == building_count(w.provinces@, tags, w.provinces@.len())
    &&& r.buildings_value == building_total(w.provinces@, tags, w.provinces@.len())
    &&& opt_int(r.buildings_per_province) == per_city(1000 * r.number_buildings, c.num_of_cities as int)
    &&& r.innovativeness == round_hundredths(c.innovativeness as int, 1)
    &&& r.absolutism == round_hundredths(c.absolutism as int, 1)
    &&& opt_int(r.average_development) == per_city(c.raw_development as int, c.num_of_cities as int)
    &&& opt_int(r.average_development_real) == per_city(c.development as int, c.num_of_cities as int)
}

fn per_city_value(num: i64, cities: i32) -> (r: Option<i64>)
    requires
        -0x4_0000_0000_0000 <= num <= 0x4_0000_0000_0000,
    ensures
        opt_int(r) == per_city(num as int, cities as int),
{
    if cities == 0 {
        None
    } else if cities > 0 {
        Some(round2_ratio(num, cities as i64))
    } else {
        Some(round2_ratio(-num, -(cities as i64)))
    }
}

fn whole_thousands(x: i64) -> (r: i64)
    requires
        -MILLI_BOUND <= x <= MILLI_BOUND,
    ensures
        r == 1000 * round_div(x as int, 1000),
{
    1000 * (round2_ratio(x, 100) / 10)
}

fn copy_ideas(ideas: &Vec<(String, u8)>) -> (r: Vec<(String, u8)>)
    ensures
        r@.len() == ideas@.len(),
        forall|j: int|
            0 <= j < ideas@.len() ==> (#[trigger] r@[j]).0@ == ideas@[j].0@ && r@[j].1
                == ideas@[j].1,
{
    let mut r: Vec<(String, u8)> = Vec::new();
    let mut i: usize = 0;
    while i < ideas.len()
        invariant
            i <= ideas@.len(),
            r@.len() == i,
            forall|j: int|
                0 <= j < i ==> (#[trigger] r@[j]).0@ == ideas@[j].0@ && r@[j].1 == ideas@[j].1,
        decreases ideas@.len() - i,
    {
        r.push((ideas[i].0.clone(), ideas[i].1));
        i += 1;
    }
    r
}

fn sum_levels(ideas: &Vec<(String, u8)>) -> (r: i64)
    requires
        ideas@.len() <= LIST_BOUND,
    ensures
        r == idea_levels(ideas@, ideas@.len()),
{
    let mut s: i64 = 0;
    let mut i: usize = 0;
    while i < ideas.len()
        invariant
            i <= ideas@.len() <= LIST_BOUND,
            s == idea_levels(ideas@, i as nat),
            0 <= s <= 255 * i,
        decreases ideas@.len() - i,
    {
        s = s + ideas[i].1 as i64;
        i += 1;
    }
    s
}

/// Derives the country record. Fails where the ruler history is missing or
/// cannot be averaged, and otherwise where an owned province holds a building that the
/// building table does not know.
pub fn generate_country_stats(world: &WorldData, country: &CountryData, ledger: &IncomeLedger) -> (r:
    Result<CondensedCountry, StatsError>)
    requires
        world.wf(),
        country.wf(),
        ledger.wf(),
    ensures
        r is Ok <==> monarchs_ok(*world, *country) && buildings_known(
            world.provinces@,
            set![country.tag@],
        ),
        r matches Err(e) ==> (e == StatsError::UnknownBuilding <==> monarchs_ok(
            *world,
            *country,
        )),
        r matches Ok(cc) ==> condensed_matches(cc, *world, *country, *ledger),
{
    let start = campaign_start();
    let average = match get_avg_monarch(&country.reigns, &start, &world.date) {
        Ok(a) => a,
        Err(e) => {
            return Err(e);
        },
    };
    let num_buildings = get_num_buildings(&world.provinces, &country.tag);
    let buildings_value = match get_buildings_value(&world.provinces, &country.tag) {
        Ok(v) => v,
        Err(e) => {
            return Err(e);
        },
    };
    let cities = country.num_of_cities;
    Ok(
        CondensedCountry {
            total_development: round2(country.raw_development),
            real_development: round2(country.development),
            gp_score: round2_ratio(country.great_power_score, 100) / 10,
            powers_earned: [
                country.powers[0] as i64 + crate::mana::sum_spent(&country.adm_spent),
                country.powers[1] as i64 + crate::mana::sum_spent(&country.dip_spent),
                country.powers[2] as i64 + crate::mana::sum_spent(&country.mil_spent),
            ],
            technology: [
                country.technology[0] as i32,
                country.technology[1] as i32,
                country.technology[2] as i32,
            ],
            ideas: copy_ideas(&country.ideas),
            total_ideas: sum_levels(&country.ideas),
            current_manpower: whole_thousands(country.manpower),
            max_manpower: whole_thousands(country.max_manpower),
            average_monarch: average,
            income: round2(get_income(ledger)),
            number_provinces: cities,
            number_buildings: num_buildings,
            buildings_value,
            buildings_per_province: per_city_value(1000 * num_buildings, cities),
            innovativeness: round2(country.innovativeness),
            absolutism: round2(country.absolutism),
            average_development: per_city_value(country.raw_development, cities),
            average_development_real: per_city_value(country.development, cities),
        },
    )
}

/// The statistics of one country.
#[derive(Clone, Debug)]
pub struct CountryStats {
    pub tag: String,
    pub name: String,
    /// Name of the player controlling the country, if any.
    pub player: Option<String>,
    pub country: CondensedCountry,
    pub military: CountryMilitary,
    pub mana: CountryMana,
}

/// The statistics of all the countries with development.
#[derive(Clone, Debug)]
pub struct Eu4Stats {
    pub countries: Vec<CountryStats>,
}

/// A country together with its income ledger.
#[derive(Clone, Debug)]
pub struct CountryEntry {
    pub data: CountryData,
    pub income: IncomeLedger,
}

/// The value of the last pair whose key is `key`.
pub open spec fn lookup(pairs: Seq<(String, String)>, key: Seq<char>) -> Option<Seq<char>>
    decreases pairs.len(),
{
    if pairs.len() == 0 {
        None
    } else if pairs.last().0@ == key {
        Some(pairs.last().1@)
    } else {
        lookup(pairs.drop_last(), key)
    }
}

/// An optional string seen as its characters.
pub open spec fn opt_text(o: Option<String>) -> Option<Seq<char>> {
    match o {
        Some(v) => Some(v@),
        None => None,
    }
}

/// The countries that appear in the statistics: those with raw development.
pub open spec fn qualifying(es: Seq<CountryEntry>) -> Seq<CountryEntry>
    decreases es.len(),
{
    if es.len() == 0 {
        es
    } else if es.last().data.raw_development > 0 {
        qualifying(es.drop_last()).push(es.last())
    } else {
        qualifying(es.drop_last())
    }
}

/// The statistics of a country can be derived.
pub open spec fn derivable(w: WorldData, c: CountryData) -> bool {
    &&& monarchs_ok(w, c)
    &&& buildings_known(w.provinces@, set![c.tag@])
    &&& c.reigns@.len() > 0
}

/// A country's statistics hold what is derived from the country, its ledger,
/// the world and the name tables.
pub open spec fn stats_matches(
    s: CountryStats,
    w: WorldData,
    e: CountryEntry,
    names: Seq<(String, String)>,
    players: Seq<(String, String)>,
) -> bool {
    let tag = e.data.tag@;
    &&& s.tag@ == tag
    &&& s.name@ == match lookup(names, tag) {
        Some(n) => n,
        None => tag,
    }
    &&& opt_text(s.player) == lookup(players, tag)
    &&& condensed_matches(s.country, w, e.data, e.income)
    &&& military_matches(s.military, w, e.data)
    &&& mana_matches(s.mana, e.data)
}

/// The outcome for one country: its statistics where they can be derived,
/// an error where they cannot.
pub open spec fn outcome_matches(
    r: Result<CountryStats, StatsError>,
    w: WorldData,
    e: CountryEntry,
    names: Seq<(String, String)>,
    players: Seq<(String, String)>,
) -> bool {
    match r {
        Ok(s) => derivable(w, e.data) && stats_matches(s, w, e, names, players),
        Err(_) => !derivable(w, e.data),
    }
}

/// Every entry is within the ranges that the statistics handle.
pub open spec fn entries_wf(es: Seq<CountryEntry>) -> bool {
    forall|j: int| 0 <= j < es.len() ==> (#[trigger] es[j]).data.wf() && es[j].income.wf()
}

/// The value of the last pair whose key is `key`.
pub fn find_text(pairs: &Vec<(String, String)>, key: &String) -> (r: Option<String>)
    ensures
        opt_text(r) == lookup(pairs@, key@),
{
    let mut i: usize = pairs.len();
    assert(pairs@.take(i as int) =~= pairs@);
    while i > 0
        invariant
            i <= pairs@.len(),
            lookup(pairs@, key@) == lookup(pairs@.take(i as int), key@),
        decreases i,
    {
        let ghost prefix = pairs@.take(i as int);
        assert(prefix.last() == pairs@[i - 1]);
        if pairs[i - 1].0 == *key {
            return Some(pairs[i - 1].1.clone());
        }
        assert(prefix.drop_last() =~= pairs@.take(i - 1));
        i -= 1;
    }
    assert(pairs@.take(0).len() == 0);
    None
}

/// Derives the statistics of one country, named through the localisation
/// table and, where one controls it, its player.
pub fn generate_country(
    world: &WorldData,
    entry: &CountryEntry,
    names: &Vec<(String, String)>,
    players: &Vec<(String, String)>,
) -> (r: Result<CountryStats, StatsError>)
    requires
        world.wf(),
        entry.data.wf(),
        entry.income.wf(),
    ensures
        outcome_matches(r, *world, *entry, names@, players@),
{
    let country = &entry.data;
    let condensed = match generate_country_stats(world, country, &entry.income) {
        Ok(c) => c,
        Err(e) => {
            return Err(e);
        },
    };
    let military = match generate_military_stats(world, country) {
        Ok(m) => m,
        Err(e) => {
            return Err(e);
        },
    };
    let name = match find_text(names, &country.tag) {
        Some(n) => n,
        None => country.tag.clone(),
    };
    Ok(
        CountryStats {
            tag: country.tag.clone(),
            name,
            player: find_text(players, &country.tag),
            country: condensed,
            military,
            mana: generate_mana(country),
        },
    )
}

/// Derives the statistics of every country with raw development, in the
/// order given; each country succeeds or fails on its own.
pub fn generate_stats(
    world: &WorldData,
    entries: &Vec<CountryEntry>,
    names: &Vec<(String, String)>,
    players: &Vec<(String, String)>,
) -> (r: Vec<Result<CountryStats, StatsError>>)
    requires
        world.wf(),
        entries_wf(entries@),
    ensures
        r@.len() == qualifying(entries@).len(),
        forall|j: int|
            0 <= j < r@.len() ==> outcome_matches(
                #[trigger] r@[j],
                *world,
                qualifying(entries@)[j],
                names@,
                players@,
            ),
{
    let mut out: Vec<Result<CountryStats, StatsError>> = Vec::new();
    let mut i: usize = 0;
    while i < entries.len()
        invariant
            i <= entries@.len(),
            world.wf(),
            entries_wf(entries@),
            out@.len() == qualifying(entries@.take(i as int)).len(),
            forall|j: int|
                0 <= j < out@.len() ==> outcome_matches(
                    #[trigger] out@[j],
                    *world,
                    qualifying(entries@.take(i as int))[j],
                    names@,
                    players@,
                ),
        decreases entries@.len() - i,
    {
        let ghost prev = entries@.take(i as int);
        let ghost next = entries@.take(i as int + 1);
        assert(next.drop_last() =~= prev);
        assert(next.last() == entries@[i as int]);
        let entry = &entries[i];
        assert(entry.data.wf() && entry.income.wf());
        if entry.data.raw_development > 0 {
            let outcome = generate_country(world, entry, names, players);
            out.push(outcome);
        }
        i += 1;
    }
    assert(entries@.take(entries@.len() as int) =~= entries@);
    out
}

} // verus!
