use eu4_stats::calendar::{campaign_start, GameDate};
use eu4_stats::fixed::{round2, round2_ratio};
use eu4_stats::model::{Reign, StatsError};
use eu4_stats::reign::get_avg_monarch;

fn date(year: i16, month: u8, day: u8) -> GameDate {
    GameDate { year, month, day }
}

fn reign(d: GameDate, adm: u16, dip: u16, mil: u16) -> Reign {
    Reign { date: d, adm, dip, mil, personalities: Vec::new() }
}

#[test]
fn round2_rounds_half_away_from_zero() {
    assert_eq!(round2(12345), 12350);
    assert_eq!(round2(12344), 12340);
    assert_eq!(round2(-12345), -12350);
    assert_eq!(round2(-12344), -12340);
    assert_eq!(round2(0), 0);
}

#[test]
fn round2_is_idempotent_on_samples() {
    for x in [-100_005i64, -7, -5, 0, 4, 5, 999, 1_234_567, 6_005] {
        assert_eq!(round2(round2(x)), round2(x));
    }
}

#[test]
fn round2_ratio_divides_then_rounds() {
    // 100 / 3 is 33.333.., which rounds to 33.33
    assert_eq!(round2_ratio(100_000, 3), 33_330);
    assert_eq!(round2_ratio(2_000, 20), 100);
    assert_eq!(round2_ratio(-1_005, 1), -1_010);
}

#[test]
fn campaign_start_is_1444_11_11() {
    assert_eq!(campaign_start(), date(1444, 11, 11));
}

#[test]
fn single_reign_before_start_averages_its_own_skills() {
    let reigns = vec![reign(date(1430, 3, 1), 3, 4, 5)];
    let r = get_avg_monarch(&reigns, &campaign_start(), &date(1600, 1, 1));
    assert_eq!(r, Ok([3000, 4000, 5000]));
}

#[test]
fn reign_on_start_day_governs_from_start() {
    let reigns = vec![reign(date(1400, 1, 1), 6, 6, 6), reign(date(1444, 11, 11), 2, 1, 0)];
    let r = get_avg_monarch(&reigns, &campaign_start(), &date(1500, 1, 1));
    assert_eq!(r, Ok([2000, 1000, 0]));
}

#[test]
fn two_reigns_are_weighted_by_days() {
    let reigns = vec![reign(date(1440, 1, 1), 6, 0, 2), reign(date(1445, 11, 11), 0, 6, 4)];
    // 365 days of the first ruler, then 365 of the second
    let r = get_avg_monarch(&reigns, &campaign_start(), &date(1446, 11, 11));
    assert_eq!(r, Ok([3000, 3000, 3000]));
}

#[test]
fn later_ruler_weighs_a_third() {
    let reigns = vec![reign(date(1444, 11, 11), 1, 0, 0), reign(date(1446, 11, 11), 0, 0, 0)];
    // one ruler with skill 1 for 730 of 1095 days: 0.666.. rounds to 0.67
    let r = get_avg_monarch(&reigns, &campaign_start(), &date(1447, 11, 11));
    assert_eq!(r, Ok([670, 0, 0]));
}

#[test]
fn no_reign_is_an_error() {
    let r = get_avg_monarch(&Vec::new(), &campaign_start(), &date(1450, 1, 1));
    assert_eq!(r, Err(StatsError::NoRuler));
}

#[test]
fn averages_stay_within_skill_range() {
    let reigns = vec![
        reign(date(1444, 1, 1), 6, 6, 6),
        reign(date(1460, 5, 17), 0, 3, 6),
        reign(date(1501, 12, 31), 5, 1, 2),
        reign(date(1502, 1, 1), 6, 0, 0),
    ];
    let r = get_avg_monarch(&reigns, &campaign_start(), &date(1700, 7, 7)).unwrap();
    for v in r {
        assert!((0..=6000).contains(&v));
        assert_eq!(v % 10, 0);
    }
}

#[test]
fn empty_window_is_an_error() {
    let reigns = vec![reign(date(1430, 3, 1), 3, 4, 5)];
    let r = get_avg_monarch(&reigns, &campaign_start(), &campaign_start());
    assert_eq!(r, Err(StatsError::EmptyWindow));
}

#[test]
fn invalid_date_is_an_error() {
    let reigns = vec![reign(date(1445, 2, 30), 3, 4, 5)];
    let r = get_avg_monarch(&reigns, &campaign_start(), &date(1500, 1, 1));
    assert_eq!(r, Err(StatsError::InvalidDate));
}

#[test]
fn unordered_history_is_an_error() {
    let reigns = vec![reign(date(1450, 1, 1), 3, 4, 5), reign(date(1449, 1, 1), 1, 1, 1)];
    let r = get_avg_monarch(&reigns, &campaign_start(), &date(1500, 1, 1));
    assert_eq!(r, Err(StatsError::UnorderedHistory));
}

#[test]
fn reign_after_current_date_is_an_error() {
    let reigns = vec![reign(date(1550, 1, 1), 3, 4, 5)];
    let r = get_avg_monarch(&reigns, &campaign_start(), &date(1500, 1, 1));
    assert_eq!(r, Err(StatsError::UnorderedHistory));
}

#[test]
fn skill_above_six_is_an_error() {
    let reigns = vec![reign(date(1440, 1, 1), 7, 4, 5)];
    let r = get_avg_monarch(&reigns, &campaign_start(), &date(1500, 1, 1));
    assert_eq!(r, Err(StatsError::SkillOutOfRange));
}
