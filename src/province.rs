//! Building counts and values over the provinces that a country owns.

use vstd::prelude::*;
use crate::text::same_text;
use crate::model::StatsError;

verus! {

/// A province: its owner's tag, if any, and a presence flag per building,
/// each building identifier listed once.
#[derive(Clone, Debug)]
pub struct Province {
    pub owner: Option<String>,
    pub buildings: Vec<(String, bool)>,
}

/// Value of a building in ducats, by building identifier; `None` for an
/// identifier that the table does not know.
pub open spec fn building_worth(name: Seq<char>) -> Option<int> {
    if name == "courthouse"@ {
        Some(100)
    } else if name == "town_hall"@ {
        Some(200)
    } else if name == "university"@ {
        Some(300)
    } else if name == "workshop"@ {
        Some(100)
    } else if name == "counting_house"@ {
        Some(400)
    } else if name == "temple"@ {
        Some(100)
    } else if name == "cathedral"@ {
        Some(300)
    } else if name == "shipyard"@ {
        Some(100)
    } else if name == "grand_shipyard"@ {
        Some(300)
    } else if name == "dock"@ {
        Some(100)
    } else if name == "drydock"@ {
        Some(300)
    } else if name == "marketplace"@ {
        Some(100)
    } else if name == "trade_depot"@ {
        Some(300)
    } else if name == "stock_exchange"@ {
        Some(400)
    } else if name == "coastal_defense"@ {
        Some(100)
    } else if name == "naval_battery"@ {
        Some(200)
    } else if name == "barracks"@ {
        Some(100)
    } else if name == "training_fields"@ {
        Some(300)
    } else if name == "regimental_camp"@ {
        Some(200)
    } else if name == "conscription_center"@ {
        Some(400)
    } else if name == "fort_15th"@ {
        Some(200)
    } else if name == "fort_16th"@ {
        Some(400)
    } else if name == "fort_17th"@ {
        Some(600)
    } else if name == "fort_18th"@ {
        Some(800)
    } else if name == "farm_estate"@ {
        Some(500)
    } else if name == "ramparts"@ {
        Some(500)
    } else if name == "impressment_offices"@ {
        Some(500)
    } else if name == "wharf"@ {
        Some(500)
    } else if name == "textile"@ {
        Some(500)
    } else if name == "weapons"@ {
        Some(500)
    } else if name == "state_house"@ {
        Some(500)
    } else if name == "plantations"@ {
        Some(500)
    } else if name == "tradecompany"@ {
        Some(500)
    } else if name == "soldier_households"@ {
        Some(500)
    } else if name == "mills"@ {
        Some(500)
    } else if name == "furnace"@ {
        Some(500)
    } else if name == "mage_tower"@ {
        Some(500)
    } else if name == "fort_magic"@ {
        Some(500)
    } else if name == "native_earthwork"@ {
        Some(100)
    } else if name == "native_fortified_house"@ {
        Some(200)
    } else if name == "native_storehouse"@ {
        Some(100)
    } else if name == "native_longhouse"@ {
        Some(100)
    } else if name == "native_great_trail"@ {
        Some(100)
    } else if name == "native_three_sisters_field"@ {
        Some(100)
    } else {
        None
    }
}

/// Looks a building up in the value table.
pub fn building_value(name: &str) -> (r: Option<i64>)
    ensures
        r matches Some(v) ==> building_worth(name@) == Some(v as int),
        r is None <==> building_worth(name@) is None,
{
    if same_text(name, "courthouse") {
        Some(100)
    } else if same_text(name, "town_hall") {
        Some(200)
    } else if same_text(name, "university") {
        Some(300)
    } else if same_text(name, "workshop") {
        Some(100)
    } else if same_text(name, "counting_house") {
        Some(400)
    } else if same_text(name, "temple") {
        Some(100)
    } else if same_text(name, "cathedral") {
        Some(300)
    } else if same_text(name, "shipyard") {
        Some(100)
    } else if same_text(name, "grand_shipyard") {
        Some(300)
    } else if same_text(name, "dock") {
        Some(100)
    } else if same_text(name, "drydock") {
        Some(300)
    } else if same_text(name, "marketplace") {
        Some(100)
    } else if same_text(name, "trade_depot") {
        Some(300)
    } else if same_text(name, "stock_exchange") {
        Some(400)
    } else if same_text(name, "coastal_defense") {
        Some(100)
    } else if same_text(name, "naval_battery") {
        Some(200)
    } else if same_text(name, "barracks") {
        Some(100)
    } else if same_text(name, "training_fields") {
        Some(300)
    } else if same_text(name, "regimental_camp") {
        Some(200)
    } else if same_text(name, "conscription_center") {
        Some(400)
    } else if same_text(name, "fort_15th") {
        Some(200)
    } else if same_text(name, "fort_16th") {
        Some(400)
    } else if same_text(name, "fort_17th") {
        Some(600)
    } else if same_text(name, "fort_18th") {
        Some(800)
    } else if same_text(name, "farm_estate") {
        Some(500)
    } else if same_text(name, "ramparts") {
        Some(500)
    } else if same_text(name, "impressment_offices") {
        Some(500)
    } else if same_text(name, "wharf") {
        Some(500)
    } else if same_text(name, "textile") {
        Some(500)
    } else if same_text(name, "weapons") {
        Some(500)
    } else if same_text(name, "state_house") {
        Some(500)
    } else if same_text(name, "plantations") {
        Some(500)
    } else if same_text(name, "tradecompany") {
        Some(500)
    } else if same_text(name, "soldier_households") {
        Some(500)
    } else if same_text(name, "mills") {
        Some(500)
    } else if same_text(name, "furnace") {
        Some(500)
    } else if same_text(name, "mage_tower") {
        Some(500)
    } else if same_text(name, "fort_magic") {
        Some(500)
    } else if same_text(name, "native_earthwork") {
        Some(100)
    } else if same_text(name, "native_fortified_house") {
        Some(200)
    } else if same_text(name, "native_storehouse") {
        Some(100)
    } else if same_text(name, "native_longhouse") {
        Some(100)
    } else if same_text(name, "native_great_trail") {
        Some(100)
    } else if same_text(name, "native_three_sisters_field") {
        Some(100)
    } else {
        None
    }
}

/// Largest building count that the statistics record can hold.
pub const COUNT_BOUND: i64 = 0x7fff_ffff;

/// Highest value that a single building has in the table.
pub const MAX_WORTH: i64 = 800;

/// Value of a building, or nothing for one the table does not know.
pub open spec fn worth_or_zero(name: Seq<char>) -> int {
    match building_worth(name) {
        Some(v) => v,
        None => 0,
    }
}

/// The province's owner is one of `owners`.
pub open spec fn owned_by(p: Province, owners: Set<Seq<char>>) -> bool {
    match p.owner {
        Some(o) => owners.contains(o@),
        None => false,
    }
}

/// Number of buildings present among the first `n` entries.
pub open spec fn present_count(bs: Seq<(String, bool)>, n: nat) -> nat
    decreases n,
{
    if n == 0 || n > bs.len() {
        0
    } else {
        present_count(bs, (n - 1) as nat) + if bs[n - 1].1 {
            1nat
        } else {
            0nat
        }
    }
}

/// Total value of the buildings present among the first `n` entries.
pub open spec fn present_worth(bs: Seq<(String, bool)>, n: nat) -> int
    decreases n,
{
    if n == 0 || n > bs.len() {
        0
    } else {
        present_worth(bs, (n - 1) as nat) + if bs[n - 1].1 {
            worth_or_zero(bs[n - 1].0@)
        } else {
            0
        }
    }
}

/// Every building present among the first `n` entries has a value.
pub open spec fn present_known(bs: Seq<(String, bool)>, n: nat) -> bool {
    forall|j: int| 0 <= j < n && j < bs.len() && (#[trigger] bs[j]).1 ==> building_worth(bs[j].0@) is Some
}

/// Number of buildings present in the first `n` provinces owned by one of `owners`.
pub open spec fn building_count(ps: Seq<Province>, owners: Set<Seq<char>>, n: nat) -> nat
    decreases n,
{
    if n == 0 || n > ps.len() {
        0
    } else {
        building_count(ps, owners, (n - 1) as nat) + if owned_by(ps[n - 1], owners) {
            present_count(ps[n - 1].buildings@, ps[n - 1].buildings@.len())
        } else {
            0nat
        }
    }
}

/// Value of the buildings present in the first `n` provinces owned by one of `owners`.
pub open spec fn building_total(ps: Seq<Province>, owners: Set<Seq<char>>, n: nat) -> int
    decreases n,
{
    if n == 0 || n > ps.len() {
        0
    } else {
        building_total(ps, owners, (n - 1) as nat) + if owned_by(ps[n - 1], owners) {
            present_worth(ps[n - 1].buildings@, ps[n - 1].buildings@.len())
        } else {
            0
        }
    }
}

/// Number of buildings present in the first `n` provinces, whoever owns them.
pub open spec fn total_present(ps: Seq<Province>, n: nat) -> nat
    decreases n,
{
    if n == 0 || n > ps.len() {
        0
    } else {
        total_present(ps, (n - 1) as nat) + present_count(
            ps[n - 1].buildings@,
            ps[n - 1].buildings@.len(),
        )
    }
}

/// The buildings present in all the provinces fit the statistics record.
pub open spec fn buildings_fit(ps: Seq<Province>) -> bool {
    total_present(ps, ps.len()) <= COUNT_BOUND
}

proof fn lemma_owned_within_total(ps: Seq<Province>, owners: Set<Seq<char>>, n: nat)
    ensures
        building_count(ps, owners, n) <= total_present(ps, n),
    decreases n,
{
    if n > 0 {
        lemma_owned_within_total(ps, owners, (n - 1) as nat);
    }
}

/// Every building present in a province owned by one of `owners` has a value.
pub open spec fn buildings_known(ps: Seq<Province>, owners: Set<Seq<char>>) -> bool {
    forall|j: int|
        0 <= j < ps.len() && owned_by(#[trigger] ps[j], owners) ==> present_known(
            ps[j].buildings@,
            ps[j].buildings@.len(),
        )
}

proof fn lemma_present_count_mono(bs: Seq<(String, bool)>, i: nat, n: nat)
    requires
        i <= n <= bs.len(),
    ensures
        present_count(bs, i) <= present_count(bs, n),
    decreases n,
{
    if i < n {
        lemma_present_count_mono(bs, i, (n - 1) as nat);
    }
}

proof fn lemma_building_count_mono(ps: Seq<Province>, owners: Set<Seq<char>>, i: nat, n: nat)
    requires
        i <= n <= ps.len(),
    ensures
        building_count(ps, owners, i) <= building_count(ps, owners, n),
    decreases n,
{
    if i < n {
        lemma_building_count_mono(ps, owners, i, (n - 1) as nat);
    }
}

proof fn lemma_worth_bounded(name: Seq<char>)
    ensures
        0 <= worth_or_zero(name) <= MAX_WORTH,
{
}

fn count_present(bs: &Vec<(String, bool)>) -> (r: i64)
    requires
        present_count(bs@, bs@.len()) <= COUNT_BOUND,
    ensures
        r == present_count(bs@, bs@.len()),
{
    let mut n: i64 = 0;
    let mut i: usize = 0;
    while i < bs.len()
        invariant
            i <= bs@.len(),
            n == present_count(bs@, i as nat),
            present_count(bs@, bs@.len()) <= COUNT_BOUND,
        decreases bs@.len() - i,
    {
        proof {
            lemma_present_count_mono(bs@, (i + 1) as nat, bs@.len());
        }
        if bs[i].1 {
            n = n + 1;
        }
        i += 1;
    }
    n
}

fn worth_present(bs: &Vec<(String, bool)>) -> (r: Option<i64>)
    requires
        present_count(bs@, bs@.len()) <= COUNT_BOUND,
    ensures
        r is Some <==> present_known(bs@, bs@.len()),
        r matches Some(v) ==> v == present_worth(bs@, bs@.len()) && 0 <= v <= MAX_WORTH
            * present_count(bs@, bs@.len()),
{
    let mut total: i64 = 0;
    let mut i: usize = 0;
    while i < bs.len()
        invariant
            i <= bs@.len(),
            total == present_worth(bs@, i as nat),
            0 <= total <= MAX_WORTH * present_count(bs@, i as nat),
            present_known(bs@, i as nat),
            present_count(bs@, bs@.len()) <= COUNT_BOUND,
        decreases bs@.len() - i,
    {
        proof {
            lemma_present_count_mono(bs@, (i + 1) as nat, bs@.len());
            lemma_worth_bounded(bs@[i as int].0@);
        }
        if bs[i].1 {
            match building_value(bs[i].0.as_str()) {
                Some(v) => {
                    total = total + v;
                },
                None => {
                    assert(!present_known(bs@, bs@.len()));
                    return None;
                },
            }
        }
        i += 1;
    }
    Some(total)
}

/// Number of buildings present in the provinces that `tag` owns.
pub fn get_num_buildings(provinces: &Vec<Province>, tag: &String) -> (r: i64)
    requires
        buildings_fit(provinces@),
    ensures
        r == building_count(provinces@, set![tag@], provinces@.len()),
        0 <= r <= COUNT_BOUND,
{
    let ghost owners = set![tag@];
    proof {
        lemma_owned_within_total(provinces@, owners, provinces@.len());
    }
    let mut n: i64 = 0;
    let mut i: usize = 0;
    while i < provinces.len()
        invariant
            owners == set![tag@],
            i <= provinces@.len(),
            n == building_count(provinces@, owners, i as nat),
            building_count(provinces@, owners, provinces@.len()) <= COUNT_BOUND,
        decreases provinces@.len() - i,
    {
        proof {
            lemma_building_count_mono(provinces@, owners, (i + 1) as nat, provinces@.len());
        }
        let p = &provinces[i];
        let owned = match &p.owner {
            Some(o) => *o == *tag,
            None => false,
        };
        if owned {
            n = n + count_present(&p.buildings);
        }
        i += 1;
    }
    n
}

/// Total value of the buildings present in the provinces that `tag` owns.
/// Fails where such a building has no value in the table.
pub fn get_buildings_value(provinces: &Vec<Province>, tag: &String) -> (r: Result<i64, StatsError>)
    requires
        buildings_fit(provinces@),
    ensures
        r is Ok <==> buildings_known(provinces@, set![tag@]),
        r matches Ok(v) ==> v == building_total(provinces@, set![tag@], provinces@.len()),
        r matches Err(e) ==> e == StatsError::UnknownBuilding,
{
    let ghost owners = set![tag@];
    proof {
        lemma_owned_within_total(provinces@, owners, provinces@.len());
    }
    let ghost ps = provinces@;
    let mut total: i64 = 0;
    let mut i: usize = 0;
    while i < provinces.len()
        invariant
            owners == set![tag@],
            ps == provinces@,
            i <= ps.len(),
            total == building_total(ps, owners, i as nat),
            0 <= total <= MAX_WORTH * building_count(ps, owners, i as nat),
            forall|j: int|
                0 <= j < i && owned_by(#[trigger] ps[j], owners) ==> present_known(
                    ps[j].buildings@,
                    ps[j].buildings@.len(),
                ),
            building_count(ps, owners, ps.len()) <= COUNT_BOUND,
        decreases ps.len() - i,
    {
        proof {
            lemma_building_count_mono(ps, owners, (i + 1) as nat, ps.len());
        }
        let p = &provinces[i];
        let owned = match &p.owner {
            Some(o) => *o == *tag,
            None => false,
        };
        if owned {
            match worth_present(&p.buildings) {
                Some(v) => {
                    total = total + v;
                },
                None => {
                    return Err(StatsError::UnknownBuilding);
                },
            }
        }
        i += 1;
    }
    Ok(total)
}

/// Building value is additive over disjoint sets of owners: the provinces of
/// two owner sets with no tag in common are worth what each set is worth.
pub proof fn lemma_building_total_additive(
    ps: Seq<Province>,
    a: Set<Seq<char>>,
    b: Set<Seq<char>>,
    n: nat,
)
    requires
        a.disjoint(b),
        n <= ps.len(),
    ensures
        building_total(ps, a.union(b), n) == building_total(ps, a, n) + building_total(ps, b, n),
    decreases n,
{
    if n > 0 {
        lemma_building_total_additive(ps, a, b, (n - 1) as nat);
        let p = ps[n - 1];
        match p.owner {
            Some(o) => {
                if a.contains(o@) {
                    assert(!b.contains(o@));
                }
            },
            None => {},
        }
    }
}

/// Whether the buildings present in all the provinces fit the statistics record.
pub fn provinces_fit(provinces: &Vec<Province>) -> (r: bool)
    ensures
        r == buildings_fit(provinces@),
{
    let ghost ps = provinces@;
    let mut total: i64 = 0;
    let mut i: usize = 0;
    while i < provinces.len()
        invariant
            ps == provinces@,
            i <= ps.len(),
            total == total_present(ps, i as nat),
            0 <= total <= COUNT_BOUND,
        decreases ps.len() - i,
    {
        let bs = &provinces[i].buildings;
        let mut j: usize = 0;
        let mut n: i64 = 0;
        while j < bs.len()
            invariant
                ps == provinces@,
                i < ps.len(),
                bs@ == ps[i as int].buildings@,
                j <= bs@.len(),
                n == present_count(bs@, j as nat),
                0 <= total,
                0 <= n,
                total + n <= COUNT_BOUND,
                total == total_present(ps, i as nat),
            decreases bs@.len() - j,
        {
            if bs[j].1 {
                n = n + 1;
            }
            if total + n > COUNT_BOUND {
                proof {
                    lemma_present_count_mono(bs@, (j + 1) as nat, bs@.len());
                    lemma_total_present_mono(ps, (i + 1) as nat, ps.len());
                }
                return false;
            }
            j += 1;
        }
        total = total + n;
        i += 1;
    }
    true
}

proof fn lemma_total_present_mono(ps: Seq<Province>, i: nat, n: nat)
    requires
        i <= n <= ps.len(),
    ensures
        total_present(ps, i) <= total_present(ps, n),
    decreases n,
{
    if i < n {
        lemma_total_present_mono(ps, i, (n - 1) as nat);
    }
}

/// No building identifier appears twice in a province.
pub open spec fn names_distinct(bs: Seq<(String, bool)>) -> bool {
    forall|a: int, b: int| 0 <= a < b < bs.len() ==> (#[trigger] bs[a]).0@ != (#[trigger] bs[b]).0@
}

/// Every province lists each building once, as a map from identifier to flag would.
pub open spec fn buildings_distinct(ps: Seq<Province>) -> bool {
    forall|j: int| 0 <= j < ps.len() ==> names_distinct(#[trigger] ps[j].buildings@)
}

fn distinct_names(bs: &Vec<(String, bool)>) -> (r: bool)
    ensures
        r == names_distinct(bs@),
{
    let mut b: usize = 0;
    while b < bs.len()
        invariant
            b <= bs@.len(),
            forall|x: int, y: int| 0 <= x < y < b ==> (#[trigger] bs@[x]).0@ != (#[trigger] bs@[y]).0@,
        decreases bs@.len() - b,
    {
        let mut a: usize = 0;
        while a < b
            invariant
                a <= b < bs@.len(),
                forall|x: int, y: int|
                    0 <= x < y < b ==> (#[trigger] bs@[x]).0@ != (#[trigger] bs@[y]).0@,
                forall|x: int| 0 <= x < a ==> (#[trigger] bs@[x]).0@ != bs@[b as int].0@,
            decreases b - a,
        {
            if bs[a].0 == bs[b].0 {
                assert(!names_distinct(bs@)) by {
                    assert(bs@[a as int].0@ == bs@[b as int].0@);
                }
                return false;
            }
            a += 1;
        }
        b += 1;
    }
    true
}

/// Whether every province lists each building once.
pub fn provinces_distinct(provinces: &Vec<Province>) -> (r: bool)
    ensures
        r == buildings_distinct(provinces@),
{
    let mut i: usize = 0;
    while i < provinces.len()
        invariant
            i <= provinces@.len(),
            forall|j: int| 0 <= j < i ==> names_distinct(#[trigger] provinces@[j].buildings@),
        decreases provinces@.len() - i,
    {
        if !distinct_names(&provinces[i].buildings) {
            assert(!names_distinct(provinces@[i as int].buildings@));
            return false;
        }
        i += 1;
    }
    true
}

} // verus!
