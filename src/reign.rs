//! Time-weighted averages of ruler skills over the campaign.

use vstd::prelude::*;
use crate::calendar::{GameDate, days_between};
use crate::fixed::{round2_ratio, round_hundredths, lemma_round_exact, lemma_round_monotone};
use crate::model::{Reign, StatsError};

verus! {

/// Highest skill a ruler can have.
pub const MAX_SKILL: u16 = 6;

/// `x`, or `start` where `x` lies before it.
pub open spec fn clip(x: int, start: int) -> int {
    if x < start {
        start
    } else {
        x
    }
}

/// Skill `dim` of a ruler: 0 administrative, 1 diplomatic, 2 military.
pub open spec fn skill(r: Reign, dim: int) -> int {
    if dim == 0 {
        r.adm as int
    } else if dim == 1 {
        r.dip as int
    } else {
        r.mil as int
    }
}

/// Day on which reign `j` ends: the next accession, or `end` for the last.
pub open spec fn reign_end(rs: Seq<Reign>, j: int, end: int) -> int {
    if j + 1 < rs.len() {
        rs[j + 1].date.day_number()
    } else {
        end
    }
}

/// Sum over the first `n` reigns of skill `dim` times the days of that reign
/// that fall on or after `start`.
pub open spec fn skill_days(rs: Seq<Reign>, n: nat, start: int, end: int, dim: int) -> int
    decreases n,
{
    if n == 0 || n > rs.len() {
        0
    } else {
        let j = n - 1;
        skill_days(rs, (n - 1) as nat, start, end, dim) + skill(rs[j], dim) * (clip(
            reign_end(rs, j, end),
            start,
        ) - clip(rs[j].date.day_number(), start))
    }
}

/// Every accession date exists in the calendar.
pub open spec fn dates_valid(rs: Seq<Reign>) -> bool {
    forall|j: int| 0 <= j < rs.len() ==> #[trigger] rs[j].date.valid()
}

/// Accessions come in date order and none lies after `end`.
pub open spec fn history_ordered(rs: Seq<Reign>, end: int) -> bool {
    &&& forall|j: int|
        0 <= j < rs.len() - 1 ==> #[trigger] rs[j].date.day_number() <= rs[j
            + 1].date.day_number()
    &&& forall|j: int| 0 <= j < rs.len() ==> #[trigger] rs[j].date.day_number() <= end
}

/// Every skill of every ruler lies in 0 to 6.
pub open spec fn skills_valid(rs: Seq<Reign>) -> bool {
    forall|j: int|
        0 <= j < rs.len() ==> #[trigger] rs[j].adm <= MAX_SKILL && rs[j].dip <= MAX_SKILL
            && rs[j].mil <= MAX_SKILL
}

/// The time-weighted average of skill `dim` over `start` to `end`, in
/// thousandths rounded to two decimals.
pub open spec fn average_skill(rs: Seq<Reign>, start: int, end: int, dim: int) -> int {
    round_hundredths(1000 * skill_days(rs, rs.len(), start, end, dim), end - start)
}

/// Whether every accession date exists in the calendar.
pub fn all_dates_valid(reigns: &Vec<Reign>) -> (r: bool)
    ensures
        r == dates_valid(reigns@),
{
    let mut i: usize = 0;
    while i < reigns.len()
        invariant
            i <= reigns.len(),
            dates_valid(reigns@.take(i as int)),
        decreases reigns.len() - i,
    {
        if !reigns[i].date.is_real() {
            assert(!reigns@[i as int].date.valid());
            return false;
        }
        assert(reigns@.take(i as int + 1)[i as int] == reigns@[i as int]);
        assert forall|j: int| 0 <= j < i + 1 implies #[trigger] reigns@.take(i as int + 1)[j].date.valid() by {
            if j < i {
                assert(reigns@.take(i as int + 1)[j] == reigns@.take(i as int)[j]);
            }
        }
        i += 1;
    }
    assert(reigns@.take(i as int) == reigns@);
    true
}

fn all_in_order(reigns: &Vec<Reign>, current: &GameDate) -> (r: bool)
    requires
        dates_valid(reigns@),
        current.valid(),
    ensures
        r == history_ordered(reigns@, current.day_number()),
{
    let mut i: usize = 0;
    while i < reigns.len()
        invariant
            i <= reigns.len(),
            dates_valid(reigns@),
            current.valid(),
            forall|j: int|
                0 <= j < i - 1 ==> #[trigger] reigns@[j].date.day_number() <= reigns@[j
                    + 1].date.day_number(),
            forall|j: int| 0 <= j < i ==> #[trigger] reigns@[j].date.day_number() <= current.day_number(),
        decreases reigns.len() - i,
    {
        assert(reigns@[i as int].date.valid());
        if days_between(&reigns[i].date, current) < 0 {
            return false;
        }
        if i > 0 {
            assert(reigns@[i - 1].date.valid());
            if days_between(&reigns[i - 1].date, &reigns[i].date) < 0 {
                assert(!(reigns@[i - 1].date.day_number() <= reigns@[i - 1 + 1].date.day_number()));
                return false;
            }
        }
        i += 1;
    }
    true
}

fn all_skills_valid(reigns: &Vec<Reign>) -> (r: bool)
    ensures
        r == skills_valid(reigns@),
{
    let mut i: usize = 0;
    while i < reigns.len()
        invariant
            i <= reigns.len(),
            forall|j: int|
                0 <= j < i ==> #[trigger] reigns@[j].adm <= MAX_SKILL && reigns@[j].dip
                    <= MAX_SKILL && reigns@[j].mil <= MAX_SKILL,
        decreases reigns.len() - i,
    {
        if reigns[i].adm > MAX_SKILL || reigns[i].dip > MAX_SKILL || reigns[i].mil > MAX_SKILL {
            return false;
        }
        i += 1;
    }
    true
}

/// Adds the term of reign `j` to `skill_days`, and keeps the running total
/// within six times the days elapsed since `start`.
proof fn lemma_skill_days_step(rs: Seq<Reign>, j: int, start: int, end: int, dim: int)
    requires
        0 <= j < rs.len(),
        0 <= skill(rs[j], dim) <= 6,
        clip(rs[j].date.day_number(), start) <= clip(reign_end(rs, j, end), start),
    ensures
        skill_days(rs, (j + 1) as nat, start, end, dim) == skill_days(rs, j as nat, start, end, dim)
            + skill(rs[j], dim) * (clip(reign_end(rs, j, end), start) - clip(
            rs[j].date.day_number(),
            start,
        )),
        0 <= skill(rs[j], dim) * (clip(reign_end(rs, j, end), start) - clip(
            rs[j].date.day_number(),
            start,
        )) <= 6 * (clip(reign_end(rs, j, end), start) - clip(rs[j].date.day_number(), start)),
{
    let x = clip(reign_end(rs, j, end), start) - clip(rs[j].date.day_number(), start);
    let k = skill(rs[j], dim);
    assert(0 <= k * x <= 6 * x) by (nonlinear_arith)
        requires
            0 <= k <= 6,
            x >= 0,
    ;
}

fn weighted_averages(reigns: &Vec<Reign>, start: &GameDate, current: &GameDate, total: i32) -> (r:
    [i64; 3])
    requires
        start.valid(),
        current.valid(),
        dates_valid(reigns@),
        total as int == current.day_number() - start.day_number(),
        total > 0,
        history_ordered(reigns@, current.day_number()),
        skills_valid(reigns@),
    ensures
        forall|dim: int|
            0 <= dim < 3 ==> #[trigger] r[dim] == average_skill(
                reigns@,
                start.day_number(),
                current.day_number(),
                dim,
            ) && 0 <= r[dim] <= 6000,
{
    let ghost rs = reigns@;
    let ghost s = start.day_number();
    let ghost e = current.day_number();
    let mut acc_adm: i64 = 0;
    let mut acc_dip: i64 = 0;
    let mut acc_mil: i64 = 0;
    let mut ruler_adm: i64 = 0;
    let mut ruler_dip: i64 = 0;
    let mut ruler_mil: i64 = 0;
    // days from `start` to the later of `start` and the last accession seen
    let mut last_off: i64 = 0;
    let mut i: usize = 0;
    while i < reigns.len()
        invariant
            rs == reigns@,
            s == start.day_number(),
            e == current.day_number(),
            total as int == e - s,
            total > 0,
            dates_valid(rs),
            history_ordered(rs, e),
            skills_valid(rs),
            start.valid(),
            i <= rs.len(),
            0 <= last_off <= total,
            i == 0 ==> acc_adm == 0 && acc_dip == 0 && acc_mil == 0 && ruler_adm == 0
                && ruler_dip == 0 && ruler_mil == 0 && last_off == 0,
            i > 0 ==> {
                &&& acc_adm == skill_days(rs, (i - 1) as nat, s, e, 0)
                &&& acc_dip == skill_days(rs, (i - 1) as nat, s, e, 1)
                &&& acc_mil == skill_days(rs, (i - 1) as nat, s, e, 2)
                &&& ruler_adm == skill(rs[i - 1], 0)
                &&& ruler_dip == skill(rs[i - 1], 1)
                &&& ruler_mil == skill(rs[i - 1], 2)
                &&& last_off == clip(rs[i - 1].date.day_number(), s) - s
            },
            0 <= acc_adm <= 6 * last_off,
            0 <= acc_dip <= 6 * last_off,
            0 <= acc_mil <= 6 * last_off,
        decreases rs.len() - i,
    {
        assert(rs[i as int].date.valid());
        let off = days_between(start, &reigns[i].date);
        let clipped: i64 = if off < 0 {
            0
        } else {
            off as i64
        };
        let elapsed: i64 = clipped - last_off;
        proof {
            if i > 0 {
                let j = i - 1;
                assert(rs[j].date.day_number() <= rs[j + 1].date.day_number());
                assert(reign_end(rs, j as int, e) == rs[i as int].date.day_number());
                lemma_skill_days_step(rs, j as int, s, e, 0);
                lemma_skill_days_step(rs, j as int, s, e, 1);
                lemma_skill_days_step(rs, j as int, s, e, 2);
            }
            assert(rs[i as int].date.day_number() <= e);
        }
        acc_adm = acc_adm + ruler_adm * elapsed;
        acc_dip = acc_dip + ruler_dip * elapsed;
        acc_mil = acc_mil + ruler_mil * elapsed;
        ruler_adm = reigns[i].adm as i64;
        ruler_dip = reigns[i].dip as i64;
        ruler_mil = reigns[i].mil as i64;
        last_off = clipped;
        i += 1;
    }
    let rest: i64 = total as i64 - last_off;
    proof {
        if rs.len() > 0 {
            let j = rs.len() - 1;
            assert(reign_end(rs, j as int, e) == e);
            assert(clip(e, s) == e);
            lemma_skill_days_step(rs, j as int, s, e, 0);
            lemma_skill_days_step(rs, j as int, s, e, 1);
            lemma_skill_days_step(rs, j as int, s, e, 2);
        }
    }
    acc_adm = acc_adm + ruler_adm * rest;
    acc_dip = acc_dip + ruler_dip * rest;
    acc_mil = acc_mil + ruler_mil * rest;
    let ghost t = total as int;
    proof {
        assert(acc_adm == skill_days(rs, rs.len(), s, e, 0));
        assert(acc_dip == skill_days(rs, rs.len(), s, e, 1));
        assert(acc_mil == skill_days(rs, rs.len(), s, e, 2));
        lemma_round_exact(600, t);
        lemma_round_exact(0, t);
        lemma_round_monotone(1000 * acc_adm, 10 * 600 * t, t);
        lemma_round_monotone(1000 * acc_dip, 10 * 600 * t, t);
        lemma_round_monotone(1000 * acc_mil, 10 * 600 * t, t);
        lemma_round_monotone(0, 1000 * acc_adm, t);
        lemma_round_monotone(0, 1000 * acc_dip, t);
        lemma_round_monotone(0, 1000 * acc_mil, t);
    }
    let avg = [
        round2_ratio(1000 * acc_adm, total as i64),
        round2_ratio(1000 * acc_dip, total as i64),
        round2_ratio(1000 * acc_mil, total as i64),
    ];
    avg
}

/// Averages each ruler skill over the days from `start` to `current`,
/// weighting every ruler by the days of their reign inside that window.
/// A ruler who acceded before `start` governs from `start` on. Fails for a
/// country without any ruler record.
pub fn get_avg_monarch(reigns: &Vec<Reign>, start: &GameDate, current: &GameDate) -> (r: Result<
    [i64; 3],
    StatsError,
>)
    ensures
        r == Err::<[i64; 3], StatsError>(StatsError::NoRuler) <==> reigns@.len() == 0,
        r == Err::<[i64; 3], StatsError>(StatsError::InvalidDate) <==> (reigns@.len() > 0 && !(
        start.valid() && current.valid() && dates_valid(reigns@))),
        r == Err::<[i64; 3], StatsError>(StatsError::EmptyWindow) <==> (reigns@.len() > 0
            && start.valid() && current.valid() && dates_valid(reigns@) && current.day_number()
            <= start.day_number()),
        r == Err::<[i64; 3], StatsError>(StatsError::UnorderedHistory) <==> (reigns@.len() > 0
            && start.valid() && current.valid() && dates_valid(reigns@) && current.day_number()
            > start.day_number() && !history_ordered(reigns@, current.day_number())),
        r == Err::<[i64; 3], StatsError>(StatsError::SkillOutOfRange) <==> (reigns@.len() > 0
            && start.valid() && current.valid() && dates_valid(reigns@) && current.day_number()
            > start.day_number() && history_ordered(reigns@, current.day_number())
            && !skills_valid(reigns@)),
        r is Ok <==> (reigns@.len() > 0 && start.valid() && current.valid() && dates_valid(
            reigns@,
        ) && current.day_number() > start.day_number() && history_ordered(
            reigns@,
            current.day_number(),
        ) && skills_valid(reigns@)),
        r matches Ok(a) ==> forall|dim: int|
            0 <= dim < 3 ==> #[trigger] a[dim] == average_skill(
                reigns@,
                start.day_number(),
                current.day_number(),
                dim,
            ) && 0 <= a[dim] <= 6000,
{
    if reigns.len() == 0 {
        return Err(StatsError::NoRuler);
    }
    if !start.is_real() || !current.is_real() || !all_dates_valid(reigns) {
        return Err(StatsError::InvalidDate);
    }
    let total = days_between(start, current);
    if total <= 0 {
        return Err(StatsError::EmptyWindow);
    }
    if !all_in_order(reigns, current) {
        return Err(StatsError::UnorderedHistory);
    }
    if !all_skills_valid(reigns) {
        return Err(StatsError::SkillOutOfRange);
    }
    Ok(weighted_averages(reigns, start, current, total))
}

proof fn lemma_skill_days_bounded(rs: Seq<Reign>, n: nat, start: int, end: int, dim: int)
    requires
        1 <= n <= rs.len(),
        history_ordered(rs, end),
        skills_valid(rs),
    ensures
        0 <= skill_days(rs, n, start, end, dim) <= 6 * (clip(reign_end(rs, n - 1, end), start)
            - start),
    decreases n,
{
    let j = n - 1;
    assert(rs[j].adm <= MAX_SKILL && rs[j].dip <= MAX_SKILL && rs[j].mil <= MAX_SKILL);
    assert(rs[j].date.day_number() <= end);
    if j + 1 < rs.len() {
        assert(rs[j].date.day_number() <= rs[j + 1].date.day_number());
    }
    lemma_skill_days_step(rs, j, start, end, dim);
    if n > 1 {
        lemma_skill_days_bounded(rs, (n - 1) as nat, start, end, dim);
        assert(reign_end(rs, n - 2, end) == rs[j].date.day_number());
    }
}

/// For every history in date order whose skills lie in 0 to 6, each
/// time-weighted average lies in 0 to 6 (0 to 6000 thousandths).
pub proof fn lemma_average_in_skill_range(rs: Seq<Reign>, start: int, end: int, dim: int)
    requires
        history_ordered(rs, end),
        skills_valid(rs),
        start < end,
    ensures
        0 <= average_skill(rs, start, end, dim) <= 6000,
{
    let t = end - start;
    let sd = skill_days(rs, rs.len(), start, end, dim);
    if rs.len() == 0 {
        assert(sd == 0);
    } else {
        lemma_skill_days_bounded(rs, rs.len(), start, end, dim);
        assert(reign_end(rs, rs.len() - 1, end) == end);
    }
    assert(0 <= sd <= 6 * t);
    lemma_round_exact(600, t);
    lemma_round_exact(0, t);
    lemma_round_monotone(1000 * sd, 10 * 600 * t, t);
    lemma_round_monotone(0, 1000 * sd, t);
}

/// A ruler who acceded on or before `start` and reigns to `end` averages
/// exactly their own skills.
pub proof fn lemma_single_reign_average(rs: Seq<Reign>, start: int, end: int, dim: int)
    requires
        rs.len() == 1,
        rs[0].date.day_number() <= start,
        start < end,
    ensures
        average_skill(rs, start, end, dim) == 1000 * skill(rs[0], dim),
{
    let k = skill(rs[0], dim);
    assert(skill_days(rs, 0, start, end, dim) == 0);
    assert(skill_days(rs, 1, start, end, dim) == k * (end - start));
    assert(1000 * (k * (end - start)) == 10 * (100 * k) * (end - start)) by (nonlinear_arith);
    lemma_round_exact(100 * k, end - start);
}

/// Index of the latest of the first `n` accessions by date; of several on
/// the same day, the one that comes last.
pub open spec fn latest_index(rs: Seq<Reign>, n: nat) -> int
    decreases n,
{
    if n <= 1 {
        0
    } else {
        let j = latest_index(rs, (n - 1) as nat);
        if rs[n - 1].date.day_number() >= rs[j].date.day_number() {
            n - 1
        } else {
            j
        }
    }
}

/// The most recent ruler by accession date.
pub open spec fn latest_reign(rs: Seq<Reign>) -> Reign {
    rs[latest_index(rs, rs.len())]
}

proof fn lemma_latest_in_range(rs: Seq<Reign>, n: nat)
    requires
        1 <= n,
    ensures
        0 <= latest_index(rs, n) < n,
    decreases n,
{
    if n > 1 {
        lemma_latest_in_range(rs, (n - 1) as nat);
    }
}

/// Finds the most recent ruler by accession date.
pub fn latest_reign_index(reigns: &Vec<Reign>) -> (r: usize)
    requires
        reigns@.len() > 0,
        dates_valid(reigns@),
    ensures
        r == latest_index(reigns@, reigns@.len()),
        r < reigns@.len(),
{
    let mut j: usize = 0;
    let mut i: usize = 1;
    while i < reigns.len()
        invariant
            1 <= i <= reigns@.len(),
            dates_valid(reigns@),
            j == latest_index(reigns@, i as nat),
            j < i,
        decreases reigns@.len() - i,
    {
        assert(reigns@[i as int].date.valid() && reigns@[j as int].date.valid());
        if days_between(&reigns[j].date, &reigns[i].date) >= 0 {
            j = i;
        }
        i += 1;
    }
    j
}

} // verus!
