use eu4_stats::calendar::GameDate;
use eu4_stats::ledger::IncomeLedger;
use eu4_stats::mana::generate_mana;
use eu4_stats::military::{
    generate_military_stats, get_army_morale, get_force_limit, get_navy_force_limit,
    get_navy_morale,
};
use eu4_stats::model::{CountryData, Hegemony, Reign, StatsError, WorldData};
use eu4_stats::province::Province;
use eu4_stats::scoring::{
    count_ideas, get_artillery_ca, get_cavalry_ca, get_discipline, get_fort_defense,
    get_infantry_ca, get_leader_fire, get_leader_maneuver, get_leader_shock, get_leader_siege,
    get_merc_discipline, get_siege_ability,
};
use eu4_stats::stats::{
    find_text, generate_country, generate_country_stats, generate_stats, CountryEntry,
};

fn date(year: i16, month: u8, day: u8) -> GameDate {
    GameDate { year, month, day }
}

fn country(tag: &str) -> CountryData {
    CountryData {
        tag: tag.to_string(),
        raw_development: 30_000,
        development: 25_500,
        great_power_score: 120_500,
        powers: [100, 50, 25],
        adm_spent: Vec::new(),
        dip_spent: Vec::new(),
        mil_spent: Vec::new(),
        technology: [3, 4, 5],
        ideas: Vec::new(),
        policies: Vec::new(),
        reigns: vec![Reign {
            date: date(1440, 1, 1),
            adm: 3,
            dip: 3,
            mil: 3,
            personalities: Vec::new(),
        }],
        manpower: 12_499,
        max_manpower: 20_500,
        num_of_cities: 3,
        innovativeness: 12_345,
        absolutism: 0,
        army_tradition: 0,
        army_professionalism: 0,
        current_power_projection: 0,
        navy_tradition: 0,
        armies: Vec::new(),
        navies: Vec::new(),
    }
}

fn world(provinces: Vec<Province>) -> WorldData {
    WorldData {
        date: date(1500, 1, 1),
        provinces,
        military_hegemon: None,
        economic_hegemon: None,
    }
}

fn ledger(taxation: i64) -> IncomeLedger {
    IncomeLedger {
        taxation,
        production: 0,
        trade: 0,
        gold: 0,
        tariffs: 0,
        vassals: 0,
        harbor_fees: 0,
        subsidies: 0,
        war_reparations: 0,
        interest: 0,
        spoils_of_war: 0,
        siphoning_income: 0,
        condottieri: 0,
        knowledge_sharing: 0,
        blockading_foreign_ports: 0,
        looting_foreign_cities: 0,
        other: 0,
    }
}

fn ideas(list: &[(&str, u8)]) -> Vec<(String, u8)> {
    list.iter().map(|(n, l)| (n.to_string(), *l)).collect()
}

fn names(list: &[&str]) -> Vec<String> {
    list.iter().map(|n| n.to_string()).collect()
}

#[test]
fn discipline_of_complete_offensive_ideas() {
    let mut c = country("AAA");
    c.ideas = ideas(&[("offensive_ideas", 7)]);
    assert!(c.fits());
    assert_eq!(get_discipline(&c), Ok(105_000));
    c.absolutism = 60_000;
    assert_eq!(get_discipline(&c), Ok(108_000));
}

#[test]
fn discipline_ignores_a_group_without_the_keyword() {
    let mut c = country("AAA");
    c.ideas = ideas(&[("offense_ideas", 7)]);
    c.absolutism = 50_000;
    assert_eq!(get_discipline(&c), Ok(102_500));
}

#[test]
fn discipline_adds_every_source() {
    let mut c = country("AAA");
    c.ideas = ideas(&[("quality_ideas", 7), ("offensive_ideas", 6)]);
    c.policies = names(&["weapon_quality_act", "on_our_terms_policy"]);
    c.reigns[0].personalities = names(&["strict_personality"]);
    c.absolutism = 150_000;
    // 100 + 5 + 5 + 2.5 + 5 + 100 / 20
    assert_eq!(get_discipline(&c), Ok(122_500));
}

#[test]
fn discipline_without_ruler_is_an_error() {
    let mut c = country("AAA");
    c.reigns = Vec::new();
    assert_eq!(get_discipline(&c), Err(StatsError::NoRuler));
    assert!(generate_military_stats(&world(Vec::new()), &c).is_err());
}

#[test]
fn idea_levels_gate_rules() {
    let c = ideas(&[("offensive_ideas", 4), ("espionage_ideas", 3)]);
    assert_eq!(count_ideas(&c, &vec!["offensive"], 5), 0);
    assert_eq!(count_ideas(&c, &vec!["offensive"], 3), 1);
    assert_eq!(count_ideas(&c, &vec!["offensive", "espionage"], 3), 2);
}

#[test]
fn siege_ability_sources() {
    let mut c = country("AAA");
    c.ideas = ideas(&[("offensive_ideas", 5), ("espionage_ideas", 3)]);
    c.policies = names(&["the_military_zeal_act"]);
    c.army_tradition = 50_000;
    c.army_professionalism = 100;
    let mut w = world(Vec::new());
    w.military_hegemon = Some(Hegemony { country: "AAA".to_string(), progress: 100_000 });
    // 20 + 10 + 10 + 50 / 20 + 0.1 / 0.05 + 20
    assert_eq!(get_siege_ability(&c, &w), 64_500);
    w.military_hegemon = Some(Hegemony { country: "AAA".to_string(), progress: 99_000 });
    assert_eq!(get_siege_ability(&c, &w), 44_500);
}

#[test]
fn fort_defense_sources() {
    let mut c = country("AAA");
    c.ideas = ideas(&[("defensive_ideas", 5)]);
    c.policies = names(&["for the people", "privy_council_act", "superior_fortifications"]);
    c.current_power_projection = 33_333;
    // 25 + 25 + 15 + 10 + 3.3333
    assert_eq!(get_fort_defense(&c), 78_330);
}

#[test]
fn combat_abilities() {
    let mut c = country("AAA");
    c.ideas = ideas(&[("quality_ideas", 7), ("mercenary_ideas", 6), ("aristocratic_ideas", 1)]);
    c.policies = names(&["modern_firearm_act", "horse_artillery_act", "psychological_warfare"]);
    assert_eq!(get_infantry_ca(&c), 35_000);
    assert_eq!(get_cavalry_ca(&c), 35_000);
    assert_eq!(get_artillery_ca(&c), 20_000);
}

#[test]
fn leader_pips() {
    let mut c = country("AAA");
    c.ideas = ideas(&[("offensive_ideas", 3), ("aristocratic_ideas", 7), ("defensive_ideas", 2)]);
    c.policies = names(&["mining_act", "inspirational_leaders_act", "modern_siege_act"]);
    assert_eq!(get_leader_fire(&c), 2);
    assert_eq!(get_leader_shock(&c), 2);
    assert_eq!(get_leader_maneuver(&c), 0);
    assert_eq!(get_leader_siege(&c), 2);
}

#[test]
fn mercenary_discipline_with_economic_hegemony() {
    let mut c = country("AAA");
    c.ideas = ideas(&[("mercenary_ideas", 7)]);
    c.policies = names(&["mercenary_tactical_act"]);
    let mut w = world(Vec::new());
    assert_eq!(get_merc_discipline(&c, &w), 110_000);
    w.economic_hegemon = Some(Hegemony { country: "AAA".to_string(), progress: 55_000 });
    assert_eq!(get_merc_discipline(&c, &w), 115_500);
    w.economic_hegemon = Some(Hegemony { country: "BBB".to_string(), progress: 55_000 });
    assert_eq!(get_merc_discipline(&c, &w), 110_000);
}

#[test]
fn mercenary_discipline_is_not_rounded_to_two_decimals() {
    let c = country("AAA");
    let mut w = world(Vec::new());
    // a hundredth of a percent of progress adds a thousandth
    w.economic_hegemon = Some(Hegemony { country: "AAA".to_string(), progress: 10 });
    assert_eq!(get_merc_discipline(&c, &w), 100_001);
    w.economic_hegemon = Some(Hegemony { country: "AAA".to_string(), progress: 12_340 });
    assert_eq!(get_merc_discipline(&c, &w), 101_234);
    let m = generate_military_stats(&w, &c).unwrap();
    assert_eq!(m.mercenary_discipline, 101_234);
}

#[test]
fn discipline_reads_the_most_recent_ruler_by_date() {
    let mut c = country("AAA");
    c.reigns = vec![
        Reign { date: date(1460, 1, 1), adm: 1, dip: 1, mil: 1, personalities: names(&["strict"]) },
        Reign { date: date(1450, 1, 1), adm: 1, dip: 1, mil: 1, personalities: Vec::new() },
    ];
    assert_eq!(get_discipline(&c), Ok(105_000));
    c.reigns[1].date = date(1470, 1, 1);
    assert_eq!(get_discipline(&c), Ok(100_000));
}

#[test]
fn discipline_with_invalid_accession_date_is_an_error() {
    let mut c = country("AAA");
    c.reigns[0].date = date(1450, 13, 1);
    assert_eq!(get_discipline(&c), Err(StatsError::InvalidDate));
}

#[test]
fn country_without_ruler_gets_no_record() {
    let mut c = country("AAA");
    c.reigns = Vec::new();
    let r = generate_country_stats(&world(Vec::new()), &c, &ledger(0));
    assert_eq!(r.err(), Some(StatsError::NoRuler));
}

#[test]
fn repeated_building_identifier_is_rejected() {
    let p = Province {
        owner: Some("AAA".to_string()),
        buildings: vec![("temple".to_string(), true), ("temple".to_string(), true)],
    };
    assert!(!world(vec![p]).fits());
}

#[test]
fn morale_and_unit_counts() {
    let mut c = country("AAA");
    c.armies = vec![vec![2_500, 3_100], vec![2_900]];
    c.navies = vec![vec![1_500]];
    assert!(c.fits());
    assert_eq!(get_army_morale(&c), 3_100);
    assert_eq!(get_force_limit(&c), 3);
    assert_eq!(get_navy_morale(&c), 1_500);
    assert_eq!(get_navy_force_limit(&c), 1);
}

#[test]
fn military_record() {
    let mut c = country("AAA");
    c.army_professionalism = 123;
    c.army_tradition = 40_004;
    let m = generate_military_stats(&world(Vec::new()), &c).unwrap();
    assert_eq!(m.army_professionalism, 12_300);
    assert_eq!(m.fire_dealt, 1_230);
    assert_eq!(m.shock_dealt, 1_230);
    assert_eq!(m.fire_received, 0);
    assert_eq!(m.army_tradition, 40_000);
    assert_eq!(m.army_discipline, 100_000);
    assert_eq!(m.mercenary_discipline, 100_000);
}

#[test]
fn mana_totals_by_category() {
    let mut c = country("AAA");
    c.adm_spent = vec![(1, 100), (7, 50), (17, 30), (15, 20), (0, 400)];
    c.dip_spent = vec![(1, 100), (7, 50), (33, 10), (47, 5), (14, 8), (0, 400)];
    c.mil_spent = vec![(1, 100), (7, 100), (8, 3), (3, 40), (5, 60), (0, 400)];
    let m = generate_mana(&c);
    assert_eq!(m.mana_spent, [600, 573, 703]);
    assert_eq!(m.spent_developing, [50, 50, 100]);
    assert_eq!(m.developing_ratio, "25/25/50");
    assert_eq!(m.spent_tech, 300);
    assert_eq!(m.spent_culture, 15);
    assert_eq!(m.spent_coring, 30);
    assert_eq!(m.spent_inflation, 20);
    assert_eq!(m.spent_ideas, 1200);
    assert_eq!(m.spent_force_march, 3);
    assert_eq!(m.spent_generals, 100);
    assert_eq!(m.spent_unjustified, 8);
}

#[test]
fn country_record() {
    let mut c = country("AAA");
    c.adm_spent = vec![(1, 100)];
    c.ideas = ideas(&[("quality_ideas", 3), ("trade_ideas", 2)]);
    let w = world(vec![Province {
        owner: Some("AAA".to_string()),
        buildings: vec![("courthouse".to_string(), true), ("temple".to_string(), true)],
    }]);
    let cc = generate_country_stats(&w, &c, &ledger(12_345)).unwrap();
    assert_eq!(cc.total_development, 30_000);
    assert_eq!(cc.real_development, 25_500);
    assert_eq!(cc.gp_score, 121);
    assert_eq!(cc.powers_earned, [200, 50, 25]);
    assert_eq!(cc.technology, [3, 4, 5]);
    assert_eq!(cc.ideas, ideas(&[("quality_ideas", 3), ("trade_ideas", 2)]));
    assert_eq!(cc.total_ideas, 5);
    assert_eq!(cc.current_manpower, 12_000);
    assert_eq!(cc.max_manpower, 21_000);
    assert_eq!(cc.average_monarch, [3_000, 3_000, 3_000]);
    assert_eq!(cc.income, 12_350);
    assert_eq!(cc.number_provinces, 3);
    assert_eq!(cc.number_buildings, 2);
    assert_eq!(cc.buildings_value, 200);
    assert_eq!(cc.buildings_per_province, Some(670));
    assert_eq!(cc.innovativeness, 12_350);
    assert_eq!(cc.average_development, Some(10_000));
    assert_eq!(cc.average_development_real, Some(8_500));
}

#[test]
fn country_without_cities_has_no_ratios() {
    let mut c = country("AAA");
    c.num_of_cities = 0;
    let cc = generate_country_stats(&world(Vec::new()), &c, &ledger(0)).unwrap();
    assert_eq!(cc.number_buildings, 0);
    assert_eq!(cc.buildings_value, 0);
    assert_eq!(cc.buildings_per_province, None);
    assert_eq!(cc.average_development, None);
}

#[test]
fn name_lookup_takes_the_last_entry() {
    let pairs = vec![
        ("AAA".to_string(), "Old".to_string()),
        ("BBB".to_string(), "Other".to_string()),
        ("AAA".to_string(), "New".to_string()),
    ];
    assert_eq!(find_text(&pairs, &"AAA".to_string()), Some("New".to_string()));
    assert_eq!(find_text(&pairs, &"CCC".to_string()), None);
}

#[test]
fn stats_skip_countries_without_development() {
    let mut empty = country("BBB");
    empty.raw_development = 0;
    let mut broken = country("CCC");
    broken.reigns = Vec::new();
    let entries = vec![
        CountryEntry { data: country("AAA"), income: ledger(0) },
        CountryEntry { data: empty, income: ledger(0) },
        CountryEntry { data: broken, income: ledger(0) },
    ];
    let loc = vec![("AAA".to_string(), "Alpha".to_string())];
    let players = vec![("AAA".to_string(), "someone".to_string())];
    let w = world(Vec::new());
    assert!(w.fits());
    let out = generate_stats(&w, &entries, &loc, &players);
    assert_eq!(out.len(), 2);
    let first = out[0].as_ref().unwrap();
    assert_eq!(first.tag, "AAA");
    assert_eq!(first.name, "Alpha");
    assert_eq!(first.player, Some("someone".to_string()));
    assert_eq!(out[1].as_ref().err(), Some(&StatsError::NoRuler));
    let alone = generate_country(&w, &entries[2], &loc, &players);
    assert!(alone.is_err());
}

#[test]
fn unnamed_country_keeps_its_tag() {
    let entry = CountryEntry { data: country("DDD"), income: ledger(0) };
    let s = generate_country(&world(Vec::new()), &entry, &Vec::new(), &Vec::new()).unwrap();
    assert_eq!(s.name, "DDD");
    assert_eq!(s.player, None);
}
