use eu4_stats::ledger::{get_income, ledger_fits, IncomeLedger};
use eu4_stats::mana::{dev_ratio, get_dev_ratio};
use eu4_stats::model::StatsError;
use eu4_stats::province::{
    building_value, get_buildings_value, get_num_buildings, provinces_fit, Province,
};

fn province(owner: Option<&str>, buildings: &[(&str, bool)]) -> Province {
    Province {
        owner: owner.map(|o| o.to_string()),
        buildings: buildings.iter().map(|(n, b)| (n.to_string(), *b)).collect(),
    }
}

fn uniform_ledger(v: i64) -> IncomeLedger {
    IncomeLedger {
        taxation: v,
        production: v,
        trade: v,
        gold: v,
        tariffs: v,
        vassals: v,
        harbor_fees: v,
        subsidies: v,
        war_reparations: v,
        interest: v,
        spoils_of_war: v,
        siphoning_income: v,
        condottieri: v,
        knowledge_sharing: v,
        blockading_foreign_ports: v,
        looting_foreign_cities: v,
        other: v,
    }
}

fn sample_provinces() -> Vec<Province> {
    vec![
        province(Some("AAA"), &[("courthouse", true), ("fort_18th", true), ("temple", false)]),
        province(Some("BBB"), &[("university", true), ("native_longhouse", true)]),
        province(None, &[("cathedral", true)]),
        province(Some("AAA"), &[("marketplace", true), ("mage_tower", true)]),
    ]
}

#[test]
fn building_table_values() {
    assert_eq!(building_value("courthouse"), Some(100));
    assert_eq!(building_value("fort_18th"), Some(800));
    assert_eq!(building_value("native_three_sisters_field"), Some(100));
    assert_eq!(building_value("stock_exchange"), Some(400));
    assert_eq!(building_value("moon_base"), None);
}

#[test]
fn buildings_are_counted_for_the_owner_only() {
    let ps = sample_provinces();
    assert_eq!(get_num_buildings(&ps, &"AAA".to_string()), 4);
    assert_eq!(get_num_buildings(&ps, &"BBB".to_string()), 2);
    assert_eq!(get_num_buildings(&ps, &"CCC".to_string()), 0);
}

#[test]
fn buildings_are_valued_for_the_owner_only() {
    let ps = sample_provinces();
    assert_eq!(get_buildings_value(&ps, &"AAA".to_string()), Ok(100 + 800 + 100 + 500));
    assert_eq!(get_buildings_value(&ps, &"BBB".to_string()), Ok(300 + 100));
}

#[test]
fn building_value_adds_over_owners() {
    let ps = sample_provinces();
    let a = get_buildings_value(&ps, &"AAA".to_string()).unwrap();
    let b = get_buildings_value(&ps, &"BBB".to_string()).unwrap();
    let mut merged = ps.clone();
    for p in merged.iter_mut() {
        if p.owner.as_deref() == Some("BBB") {
            p.owner = Some("AAA".to_string());
        }
    }
    assert_eq!(get_buildings_value(&merged, &"AAA".to_string()), Ok(a + b));
}

#[test]
fn country_without_provinces_has_no_buildings() {
    let ps: Vec<Province> = Vec::new();
    assert_eq!(get_num_buildings(&ps, &"AAA".to_string()), 0);
    assert_eq!(get_buildings_value(&ps, &"AAA".to_string()), Ok(0));
    let others = sample_provinces();
    assert_eq!(get_num_buildings(&others, &"ZZZ".to_string()), 0);
    assert_eq!(get_buildings_value(&others, &"ZZZ".to_string()), Ok(0));
}

#[test]
fn unknown_building_is_an_error() {
    let ps = vec![province(Some("AAA"), &[("courthouse", true), ("moon_base", true)])];
    assert_eq!(get_buildings_value(&ps, &"AAA".to_string()), Err(StatsError::UnknownBuilding));
}

#[test]
fn absent_unknown_building_is_ignored() {
    let ps = vec![
        province(Some("AAA"), &[("courthouse", true), ("moon_base", false)]),
        province(Some("BBB"), &[("moon_base", true)]),
    ];
    assert_eq!(get_buildings_value(&ps, &"AAA".to_string()), Ok(100));
}

#[test]
fn sample_provinces_fit() {
    assert!(provinces_fit(&sample_provinces()));
}

#[test]
fn income_sums_every_category() {
    assert_eq!(get_income(&uniform_ledger(1000)), 17_000);
    let mut l = uniform_ledger(0);
    l.taxation = 1_500;
    l.other = 250;
    l.looting_foreign_cities = -50;
    assert_eq!(get_income(&l), 1_700);
    assert!(ledger_fits(&l));
}

#[test]
fn dev_ratio_of_nothing_spent() {
    assert_eq!(get_dev_ratio([0, 0, 0]), "0/0/0");
}

#[test]
fn dev_ratio_of_equal_spend() {
    assert_eq!(get_dev_ratio([10, 10, 10]), "33/33/33");
}

#[test]
fn dev_ratio_of_uneven_spend() {
    assert_eq!(get_dev_ratio([1, 2, 7]), "10/20/70");
    assert_eq!(get_dev_ratio([50, 0, 150]), "25/0/75");
    assert_eq!(dev_ratio([3_000_000_000, 1_000_000_000, 0]), "75/25/0");
}

#[test]
fn dev_ratio_with_refund_truncates_toward_zero() {
    assert_eq!(get_dev_ratio([-1, 2, 2]), "-33/66/66");
}
