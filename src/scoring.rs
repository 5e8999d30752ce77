//! Capability scores composed from idea groups, policies, ruler traits,
//! continuous country values and hegemony titles.
//!
//! Every rule adds a fixed bonus once for each idea group, policy or trait
//! that satisfies it; rules are independent and their bonuses add up.

use vstd::prelude::*;
use crate::text::{contains_text, has_substring};
use crate::model::{CountryData, Hegemony, WorldData, StatsError, LIST_BOUND};
use crate::reign::{all_dates_valid, dates_valid, latest_reign, latest_reign_index};
use crate::fixed::{round2_ratio, round_div, round_hundredths, round_ratio};

verus! {

/// `name` contains one of the keywords.
pub open spec fn matches_any(name: Seq<char>, kws: Seq<&str>) -> bool {
    exists|k: int| 0 <= k < kws.len() && has_substring(name, #[trigger] kws[k]@)
}

/// Number of the first `n` idea groups whose name contains one of the
/// keywords and that have at least `min_level` ideas taken.
pub open spec fn idea_hits(ideas: Seq<(String, u8)>, kws: Seq<&str>, min_level: u8, n: nat) -> nat
    decreases n,
{
    if n == 0 || n > ideas.len() {
        0
    } else {
        idea_hits(ideas, kws, min_level, (n - 1) as nat) + if matches_any(ideas[n - 1].0@, kws)
            && ideas[n - 1].1 >= min_level {
            1nat
        } else {
            0nat
        }
    }
}

/// Number of the first `n` names that contain one of the keywords.
pub open spec fn name_hits(names: Seq<String>, kws: Seq<&str>, n: nat) -> nat
    decreases n,
{
    if n == 0 || n > names.len() {
        0
    } else {
        name_hits(names, kws, (n - 1) as nat) + if matches_any(names[n - 1]@, kws) {
            1nat
        } else {
            0nat
        }
    }
}

/// Number of idea groups that satisfy an idea rule.
pub open spec fn ideas_matching(ideas: Seq<(String, u8)>, kws: Seq<&str>, min_level: u8) -> int {
    idea_hits(ideas, kws, min_level, ideas.len()) as int
}

/// Number of names that satisfy a keyword rule.
pub open spec fn names_matching(names: Seq<String>, kws: Seq<&str>) -> int {
    name_hits(names, kws, names.len()) as int
}

fn matches_keyword(name: &str, kws: &Vec<&str>) -> (r: bool)
    ensures
        r == matches_any(name@, kws@),
{
    let mut k: usize = 0;
    while k < kws.len()
        invariant
            k <= kws@.len(),
            forall|j: int| 0 <= j < k ==> !has_substring(name@, #[trigger] kws@[j]@),
        decreases kws@.len() - k,
    {
        if contains_text(name, kws[k]) {
            return true;
        }
        k += 1;
    }
    false
}

proof fn lemma_idea_hits_bounded(ideas: Seq<(String, u8)>, kws: Seq<&str>, min_level: u8, n: nat)
    ensures
        idea_hits(ideas, kws, min_level, n) <= n,
    decreases n,
{
    if n > 0 {
        lemma_idea_hits_bounded(ideas, kws, min_level, (n - 1) as nat);
    }
}

proof fn lemma_name_hits_bounded(names: Seq<String>, kws: Seq<&str>, n: nat)
    ensures
        name_hits(names, kws, n) <= n,
    decreases n,
{
    if n > 0 {
        lemma_name_hits_bounded(names, kws, (n - 1) as nat);
    }
}

/// Counts the idea groups that satisfy an idea rule.
pub fn count_ideas(ideas: &Vec<(String, u8)>, kws: &Vec<&str>, min_level: u8) -> (r: i64)
    requires
        ideas@.len() <= LIST_BOUND,
    ensures
        r == ideas_matching(ideas@, kws@, min_level),
        0 <= r <= ideas@.len(),
{
    let mut n: i64 = 0;
    let mut i: usize = 0;
    while i < ideas.len()
        invariant
            i <= ideas@.len() <= LIST_BOUND,
            n == idea_hits(ideas@, kws@, min_level, i as nat),
            0 <= n <= i,
        decreases ideas@.len() - i,
    {
        if ideas[i].1 >= min_level && matches_keyword(ideas[i].0.as_str(), kws) {
            n = n + 1;
        }
        i += 1;
    }
    n
}

/// Counts the names that contain one of the keywords.
pub fn count_names(names: &Vec<String>, kws: &Vec<&str>) -> (r: i64)
    requires
        names@.len() <= LIST_BOUND,
    ensures
        r == names_matching(names@, kws@),
        0 <= r <= names@.len(),
{
    let mut n: i64 = 0;
    let mut i: usize = 0;
    while i < names.len()
        invariant
            i <= names@.len() <= LIST_BOUND,
            n == name_hits(names@, kws@, i as nat),
            0 <= n <= i,
        decreases names@.len() - i,
    {
        if matches_keyword(names[i].as_str(), kws) {
            n = n + 1;
        }
        i += 1;
    }
    n
}

/// Absolutism beyond which discipline gains nothing more, in thousandths.
pub const ABSOLUTISM_CAP: i64 = 100_000;

/// Hegemony progress at which a title is complete, in thousandths of a percent.
pub const HEGEMONY_FULL: i64 = 100_000;

/// `x`, or `cap` where `x` exceeds it.
pub open spec fn capped(x: int, cap: int) -> int {
    if x > cap {
        cap
    } else {
        x
    }
}

/// The hegemony is held by `tag`.
pub open spec fn holds(h: Option<Hegemony>, tag: Seq<char>) -> bool {
    h matches Some(x) && x.country@ == tag
}

/// Army discipline before rounding, in twentieths of a thousandth: 100, plus
/// 5 for each offensive or quality idea group complete, 5 for each weapon
/// quality policy, 2.5 for each "on our terms" policy, 5 for each strict trait
/// of the most recent ruler by date, and a twentieth of absolutism up to 100.
pub open spec fn discipline_numer(c: CountryData) -> int {
    let last = latest_reign(c.reigns@);
    20 * (100_000 + 5_000 * ideas_matching(c.ideas@, seq!["offensive", "quality"], 7)
        + 5_000 * names_matching(c.policies@, seq!["weapon_quality"]) + 2_500 * names_matching(
        c.policies@,
        seq!["on_our_terms"],
    ) + 5_000 * names_matching(last.personalities@, seq!["strict"])) + capped(
        c.absolutism as int,
        ABSOLUTISM_CAP as int,
    )
}

/// Siege ability before rounding, in twentieths of a thousandth: 20 for each
/// offensive idea group with five ideas, 10 for each espionage group with
/// three, 10 for each siege policy, a twentieth of army tradition, twenty
/// times army professionalism, and 20 for a complete military hegemony.
pub open spec fn siege_numer(c: CountryData, w: WorldData) -> int {
    20 * (20_000 * ideas_matching(c.ideas@, seq!["offensive"], 5) + 10_000 * ideas_matching(
        c.ideas@,
        seq!["espionage"],
        3,
    ) + 10_000 * names_matching(
        c.policies@,
        seq!["word_is_my_bond", "fear_tactics", "siege_weapons", "military_zeal"],
    ) + if holds(w.military_hegemon, c.tag@) && w.military_hegemon.unwrap().progress
        >= HEGEMONY_FULL {
        20_000int
    } else {
        0int
    }) + c.army_tradition + 400 * c.army_professionalism
}

/// Fort defense before rounding, in tenths of a thousandth.
pub open spec fn fort_numer(c: CountryData) -> int {
    10 * (25_000 * ideas_matching(c.ideas@, seq!["defensive"], 5) + 25_000 * names_matching(
        c.policies@,
        seq!["for the people"],
    ) + 15_000 * names_matching(c.policies@, seq!["privy_council", "loyal_conduct"])
        + 10_000 * names_matching(c.policies@, seq!["superior_fortifications"]))
        + c.current_power_projection
}

/// Mercenary discipline in tenths of a thousandth: 100, plus
/// 5 for each complete mercenary idea group, 5 for each mercenary tactics
/// policy, and a tenth of the economic hegemony's progress for its holder.
pub open spec fn merc_numer(c: CountryData, w: WorldData) -> int {
    10 * (100_000 + 5_000 * ideas_matching(c.ideas@, seq!["mercenary"], 7) + 5_000
        * names_matching(c.policies@, seq!["mercenary_tactical"])) + if holds(
        w.economic_hegemon,
        c.tag@,
    ) {
        w.economic_hegemon.unwrap().progress as int
    } else {
        0int
    }
}

/// Infantry combat ability, in thousandths.
pub open spec fn infantry_spec(c: CountryData) -> int {
    10_000 * ideas_matching(c.ideas@, seq!["mercenary"], 6) + 10_000 * ideas_matching(
        c.ideas@,
        seq!["quality"],
        1,
    ) + 15_000 * names_matching(c.policies@, seq!["modern_firearm"])
}

/// Cavalry combat ability, in thousandths.
pub open spec fn cavalry_spec(c: CountryData) -> int {
    25_000 * ideas_matching(c.ideas@, seq!["horde"], 7) + 15_000 * ideas_matching(
        c.ideas@,
        seq!["aristocratic"],
        1,
    ) + 10_000 * ideas_matching(c.ideas@, seq!["quality"], 3) + 10_000 * names_matching(
        c.policies@,
        seq!["noble_loyalty", "psychological"],
    )
}

/// Artillery combat ability, in thousandths.
pub open spec fn artillery_spec(c: CountryData) -> int {
    10_000 * ideas_matching(c.ideas@, seq!["quality"], 7) + 10_000 * names_matching(
        c.policies@,
        seq!["horse_artillery"],
    )
}

fn keywords1(a: &'static str) -> (r: Vec<&'static str>)
    ensures
        r@ == seq![a],
{
    let r = vec![a];
    assert(r@ =~= seq![a]);
    r
}

fn keywords2(a: &'static str, b: &'static str) -> (r: Vec<&'static str>)
    ensures
        r@ == seq![a, b],
{
    let r = vec![a, b];
    assert(r@ =~= seq![a, b]);
    r
}

fn keywords4(a: &'static str, b: &'static str, c: &'static str, d: &'static str) -> (r: Vec<
    &'static str,
>)
    ensures
        r@ == seq![a, b, c, d],
{
    let r = vec![a, b, c, d];
    assert(r@ =~= seq![a, b, c, d]);
    r
}

/// Army discipline, rounded to two decimals. Fails for a country with no
/// ruler, or with an accession date that the calendar does not have.
pub fn get_discipline(country: &CountryData) -> (r: Result<i64, StatsError>)
    requires
        country.wf(),
    ensures
        r == Err::<i64, StatsError>(StatsError::NoRuler) <==> country.reigns@.len() == 0,
        r == Err::<i64, StatsError>(StatsError::InvalidDate) <==> (country.reigns@.len() > 0
            && !dates_valid(country.reigns@)),
        r is Ok <==> country.reigns@.len() > 0 && dates_valid(country.reigns@),
        r matches Ok(v) ==> v == round_hundredths(discipline_numer(*country), 20),
{
    let n = country.reigns.len();
    if n == 0 {
        return Err(StatsError::NoRuler);
    }
    if !all_dates_valid(&country.reigns) {
        return Err(StatsError::InvalidDate);
    }
    let latest = latest_reign_index(&country.reigns);
    let last = &country.reigns[latest];
    assert(latest_reign(country.reigns@).personalities@.len() <= LIST_BOUND);
    let a = count_ideas(&country.ideas, &keywords2("offensive", "quality"), 7);
    let b = count_names(&country.policies, &keywords1("weapon_quality"));
    let c = count_names(&country.policies, &keywords1("on_our_terms"));
    let d = count_names(&last.personalities, &keywords1("strict"));
    let abs = if country.absolutism > ABSOLUTISM_CAP {
        ABSOLUTISM_CAP
    } else {
        country.absolutism
    };
    let numer = 20 * (100_000 + 5_000 * a + 5_000 * b + 2_500 * c + 5_000 * d) + abs;
    Ok(round2_ratio(numer, 20))
}

/// Siege ability, rounded to two decimals.
pub fn get_siege_ability(country: &CountryData, world: &WorldData) -> (r: i64)
    requires
        country.wf(),
    ensures
        r == round_hundredths(siege_numer(*country, *world), 20),
{
    let a = count_ideas(&country.ideas, &keywords1("offensive"), 5);
    let b = count_ideas(&country.ideas, &keywords1("espionage"), 3);
    let c = count_names(
        &country.policies,
        &keywords4("word_is_my_bond", "fear_tactics", "siege_weapons", "military_zeal"),
    );
    let hegemon: i64 = match &world.military_hegemon {
        Some(h) => if h.country == country.tag && h.progress >= HEGEMONY_FULL {
            20_000
        } else {
            0
        },
        None => 0,
    };
    let numer = 20 * (20_000 * a + 10_000 * b + 10_000 * c + hegemon) + country.army_tradition
        + 400 * country.army_professionalism;
    round2_ratio(numer, 20)
}

/// Fort defense, rounded to two decimals.
pub fn get_fort_defense(country: &CountryData) -> (r: i64)
    requires
        country.wf(),
    ensures
        r == round_hundredths(fort_numer(*country), 10),
{
    let a = count_ideas(&country.ideas, &keywords1("defensive"), 5);
    let b = count_names(&country.policies, &keywords1("for the people"));
    let c = count_names(&country.policies, &keywords2("privy_council", "loyal_conduct"));
    let d = count_names(&country.policies, &keywords1("superior_fortifications"));
    let numer = 10 * (25_000 * a + 25_000 * b + 15_000 * c + 10_000 * d)
        + country.current_power_projection;
    round2_ratio(numer, 10)
}

/// Mercenary discipline in thousandths, not rounded to two decimals; a
/// hegemony progress finer than a hundredth of a percent goes to the nearest
/// thousandth.
pub fn get_merc_discipline(country: &CountryData, world: &WorldData) -> (r: i64)
    requires
        country.wf(),
        world.wf(),
    ensures
        r == round_div(merc_numer(*country, *world), 10),
{
    let a = count_ideas(&country.ideas, &keywords1("mercenary"), 7);
    let b = count_names(&country.policies, &keywords1("mercenary_tactical"));
    let hegemon: i64 = match &world.economic_hegemon {
        Some(h) => if h.country == country.tag {
            h.progress
        } else {
            0
        },
        None => 0,
    };
    let numer = 10 * (100_000 + 5_000 * a + 5_000 * b) + hegemon;
    round_ratio(numer, 10)
}

/// Infantry combat ability, in thousandths.
pub fn get_infantry_ca(country: &CountryData) -> (r: i64)
    requires
        country.wf(),
    ensures
        r == infantry_spec(*country),
{
    10_000 * count_ideas(&country.ideas, &keywords1("mercenary"), 6) + 10_000 * count_ideas(
        &country.ideas,
        &keywords1("quality"),
        1,
    ) + 15_000 * count_names(&country.policies, &keywords1("modern_firearm"))
}

/// Cavalry combat ability, in thousandths.
pub fn get_cavalry_ca(country: &CountryData) -> (r: i64)
    requires
        country.wf(),
    ensures
        r == cavalry_spec(*country),
{
    25_000 * count_ideas(&country.ideas, &keywords1("horde"), 7) + 15_000 * count_ideas(
        &country.ideas,
        &keywords1("aristocratic"),
        1,
    ) + 10_000 * count_ideas(&country.ideas, &keywords1("quality"), 3) + 10_000 * count_names(
        &country.policies,
        &keywords2("noble_loyalty", "psychological"),
    )
}

/// Artillery combat ability, in thousandths.
pub fn get_artillery_ca(country: &CountryData) -> (r: i64)
    requires
        country.wf(),
    ensures
        r == artillery_spec(*country),
{
    10_000 * count_ideas(&country.ideas, &keywords1("quality"), 7) + 10_000 * count_names(
        &country.policies,
        &keywords1("horse_artillery"),
    )
}

/// Leader fire pips: one for each offensive idea group with three ideas and
/// one for each mining act policy.
pub fn get_leader_fire(country: &CountryData) -> (r: i64)
    requires
        country.wf(),
    ensures
        r == ideas_matching(country.ideas@, seq!["offensive"], 3) + names_matching(
            country.policies@,
            seq!["mining_act"],
        ),
{
    count_ideas(&country.ideas, &keywords1("offensive"), 3) + count_names(
        &country.policies,
        &keywords1("mining_act"),
    )
}

/// Leader shock pips: one for each offensive idea group with an idea taken
/// and one for each inspirational leaders policy.
pub fn get_leader_shock(country: &CountryData) -> (r: i64)
    requires
        country.wf(),
    ensures
        r == ideas_matching(country.ideas@, seq!["offensive"], 1) + names_matching(
            country.policies@,
            seq!["inspirational_leaders"],
        ),
{
    count_ideas(&country.ideas, &keywords1("offensive"), 1) + count_names(
        &country.policies,
        &keywords1("inspirational_leaders"),
    )
}

/// Leader maneuver pips: one for each defensive idea group with three ideas
/// and one for each hired adventurers policy.
pub fn get_leader_maneuver(country: &CountryData) -> (r: i64)
    requires
        country.wf(),
    ensures
        r == ideas_matching(country.ideas@, seq!["defensive"], 3) + names_matching(
            country.policies@,
            seq!["hired_adventurers"],
        ),
{
    count_ideas(&country.ideas, &keywords1("defensive"), 3) + count_names(
        &country.policies,
        &keywords1("hired_adventurers"),
    )
}

/// Leader siege pips: one for each complete aristocratic idea group and one
/// for each modern siege policy.
pub fn get_leader_siege(country: &CountryData) -> (r: i64)
    requires
        country.wf(),
    ensures
        r == ideas_matching(country.ideas@, seq!["aristocratic"], 7) + names_matching(
            country.policies@,
            seq!["modern_siege"],
        ),
{
    count_ideas(&country.ideas, &keywords1("aristocratic"), 7) + count_names(
        &country.policies,
        &keywords1("modern_siege"),
    )
}

} // verus!
