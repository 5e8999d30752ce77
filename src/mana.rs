//! Power spending: totals by spending category and the development ratio.

use vstd::prelude::*;
use crate::model::{CountryData, LIST_BOUND};

verus! {

/// Category code of power spent on technology.
pub const CODE_TECH: i32 = 1;
/// Category code of power spent on developing provinces.
pub const CODE_DEVELOP: i32 = 7;
/// Category code of power spent on coring provinces.
pub const CODE_CORING: i32 = 17;
/// Category code of power spent on reducing inflation.
pub const CODE_INFLATION: i32 = 15;
/// Category code of power spent on ideas.
pub const CODE_IDEAS: i32 = 0;
/// Category code of power spent on forced marches.
pub const CODE_FORCE_MARCH: i32 = 8;
/// Category code of power spent on unjustified demands.
pub const CODE_UNJUSTIFIED: i32 = 14;

/// Category codes of power spent on converting culture.
pub open spec fn culture_codes() -> Seq<i32> {
    seq![20i32, 33, 34, 35, 47]
}

/// Category codes of power spent on hiring generals and admirals.
pub open spec fn general_codes() -> Seq<i32> {
    seq![3i32, 5]
}

/// Sum of the amounts of the first `n` spending records.
pub open spec fn spent_sum(v: Seq<(i32, i32)>, n: nat) -> int
    decreases n,
{
    if n == 0 || n > v.len() {
        0
    } else {
        spent_sum(v, (n - 1) as nat) + v[n - 1].1
    }
}

/// Sum of the amounts of the first `n` spending records whose code is in `codes`.
pub open spec fn spent_on(v: Seq<(i32, i32)>, codes: Seq<i32>, n: nat) -> int
    decreases n,
{
    if n == 0 || n > v.len() {
        0
    } else {
        spent_on(v, codes, (n - 1) as nat) + if codes.contains(v[n - 1].0) {
            v[n - 1].1 as int
        } else {
            0
        }
    }
}

/// Total amount of a list of spending records.
pub open spec fn total_spent(v: Seq<(i32, i32)>) -> int {
    spent_sum(v, v.len())
}

/// Amount of the spending records of a list whose code is in `codes`.
pub open spec fn total_spent_on(v: Seq<(i32, i32)>, codes: Seq<i32>) -> int {
    spent_on(v, codes, v.len())
}

/// Largest magnitude of a spending amount.
pub const AMOUNT_BOUND: i64 = 0x8000_0000;

fn has_code(codes: &Vec<i32>, c: i32) -> (r: bool)
    ensures
        r == codes@.contains(c),
{
    let mut i: usize = 0;
    while i < codes.len()
        invariant
            i <= codes@.len(),
            forall|j: int| 0 <= j < i ==> codes@[j] != c,
        decreases codes@.len() - i,
    {
        if codes[i] == c {
            return true;
        }
        i += 1;
    }
    false
}

pub(crate) fn sum_spent(v: &Vec<(i32, i32)>) -> (r: i64)
    requires
        v@.len() <= LIST_BOUND,
    ensures
        r == total_spent(v@),
        -(v@.len() as int) * AMOUNT_BOUND <= r <= v@.len() as int * AMOUNT_BOUND,
{
    let mut s: i64 = 0;
    let mut i: usize = 0;
    while i < v.len()
        invariant
            i <= v@.len() <= LIST_BOUND,
            s == spent_sum(v@, i as nat),
            -(i as int) * AMOUNT_BOUND <= s <= i as int * AMOUNT_BOUND,
        decreases v@.len() - i,
    {
        s = s + v[i].1 as i64;
        i += 1;
    }
    s
}

fn sum_spent_on(v: &Vec<(i32, i32)>, codes: &Vec<i32>) -> (r: i64)
    requires
        v@.len() <= LIST_BOUND,
    ensures
        r == total_spent_on(v@, codes@),
        -(v@.len() as int) * AMOUNT_BOUND <= r <= v@.len() as int * AMOUNT_BOUND,
{
    let mut s: i64 = 0;
    let mut i: usize = 0;
    while i < v.len()
        invariant
            i <= v@.len() <= LIST_BOUND,
            s == spent_on(v@, codes@, i as nat),
            -(i as int) * AMOUNT_BOUND <= s <= i as int * AMOUNT_BOUND,
        decreases v@.len() - i,
    {
        if has_code(codes, v[i].0) {
            s = s + v[i].1 as i64;
        }
        i += 1;
    }
    s
}

/// The character of a decimal digit.
pub open spec fn digit_char(d: int) -> char {
    if d == 0 {
        '0'
    } else if d == 1 {
        '1'
    } else if d == 2 {
        '2'
    } else if d == 3 {
        '3'
    } else if d == 4 {
        '4'
    } else if d == 5 {
        '5'
    } else if d == 6 {
        '6'
    } else if d == 7 {
        '7'
    } else if d == 8 {
        '8'
    } else {
        '9'
    }
}

/// Decimal digits of a natural number, most significant first.
pub open spec fn decimal_digits(n: nat) -> Seq<char>
    decreases n,
{
    if n < 10 {
        seq![digit_char(n as int)]
    } else {
        decimal_digits(n / 10).push(digit_char((n % 10) as int))
    }
}

/// Decimal text of an integer, with a leading `-` when negative.
pub open spec fn decimal(n: int) -> Seq<char> {
    if n < 0 {
        seq!['-'] + decimal_digits((-n) as nat)
    } else {
        decimal_digits(n as nat)
    }
}

/// Three integers in decimal, separated by `/`.
pub open spec fn ratio_seq(a: int, b: int, c: int) -> Seq<char> {
    decimal(a) + seq!['/'] + decimal(b) + seq!['/'] + decimal(c)
}

/// Relies on `format!` with `{}` on `i128`: each number in decimal digits,
/// led by `-` when negative.
#[verifier::external_body]
fn ratio_text(a: i128, b: i128, c: i128) -> (r: String)
    ensures
        r@ == ratio_seq(a as int, b as int, c as int),
{
    format!("{}/{}/{}", a, b, c)
}

/// `a / b` rounded toward zero.
pub open spec fn trunc_div(a: int, b: int) -> int
    recommends
        b != 0,
{
    let q = (if a < 0 { -a } else { a }) / (if b < 0 { -b } else { b });
    if (a < 0) == (b < 0) {
        q
    } else {
        -q
    }
}

/// Whole percent of `sum` that `x` is, rounded toward zero; zero when `sum` is zero.
pub open spec fn percent_of(x: int, sum: int) -> int {
    if sum == 0 {
        0
    } else {
        trunc_div(100 * x, sum)
    }
}

/// The development ratio of three spending totals: each one's whole percent
/// of their sum, or `0/0/0` when the sum is zero.
pub open spec fn dev_ratio_text(a: int, b: int, c: int) -> Seq<char> {
    let sum = a + b + c;
    ratio_seq(percent_of(a, sum), percent_of(b, sum), percent_of(c, sum))
}

fn percent(x: i128, sum: i128) -> (r: i128)
    requires
        -0x1_0000_0000_0000_0000_0000 <= x <= 0x1_0000_0000_0000_0000_0000,
        -0x1_0000_0000_0000_0000_0000 <= sum <= 0x1_0000_0000_0000_0000_0000,
    ensures
        r == percent_of(x as int, sum as int),
{
    if sum == 0 {
        return 0;
    }
    let a: i128 = if x < 0 { (0 - x) * 100 } else { x * 100 };
    let b: i128 = if sum < 0 { -sum } else { sum };
    let q: i128 = a / b;
    proof {
        let (ai, bi) = (a as int, b as int);
        assert(0 <= ai / bi <= ai) by (nonlinear_arith)
            requires
                ai >= 0,
                bi >= 1,
        ;
    }
    if (x < 0) == (sum < 0) || x == 0 {
        q
    } else {
        -q
    }
}

/// The development ratio of three spending totals, as text.
pub fn dev_ratio(spent: [i64; 3]) -> (r: String)
    ensures
        r@ == dev_ratio_text(spent[0] as int, spent[1] as int, spent[2] as int),
{
    let a = spent[0] as i128;
    let b = spent[1] as i128;
    let c = spent[2] as i128;
    let sum = a + b + c;
    ratio_text(percent(a, sum), percent(b, sum), percent(c, sum))
}

/// The development ratio of three spending amounts, as text: each one's
/// whole percent of their sum, or `0/0/0` when the sum is zero.
pub fn get_dev_ratio(mana_spent: [i32; 3]) -> (r: String)
    ensures
        r@ == dev_ratio_text(mana_spent[0] as int, mana_spent[1] as int, mana_spent[2] as int),
{
    dev_ratio([mana_spent[0] as i64, mana_spent[1] as i64, mana_spent[2] as i64])
}

/// Power spending of a country by category.
#[derive(Clone, Debug)]
pub struct CountryMana {
    /// All administrative, diplomatic and military power spent.
    pub mana_spent: [i64; 3],
    /// Power of each kind spent on developing provinces.
    pub spent_developing: [i64; 3],
    /// Each kind's whole percent of the power spent on development.
    pub developing_ratio: String,
    pub spent_tech: i64,
    pub spent_culture: i64,
    pub spent_coring: i64,
    pub spent_inflation: i64,
    pub spent_ideas: i64,
    pub spent_force_march: i64,
    pub spent_generals: i64,
    pub spent_unjustified: i64,
}

/// Power of all three kinds spent in the categories `codes`.
pub open spec fn spent_all_kinds(c: CountryData, codes: Seq<i32>) -> int {
    total_spent_on(c.adm_spent@, codes) + total_spent_on(c.dip_spent@, codes) + total_spent_on(
        c.mil_spent@,
        codes,
    )
}

/// The spending record holds, field by field, the country's totals.
pub open spec fn mana_matches(m: CountryMana, c: CountryData) -> bool {
    &&& m.mana_spent[0] == total_spent(c.adm_spent@)
    &&& m.mana_spent[1] == total_spent(c.dip_spent@)
    &&& m.mana_spent[2] == total_spent(c.mil_spent@)
    &&& m.spent_developing[0] == total_spent_on(c.adm_spent@, seq![CODE_DEVELOP])
    &&& m.spent_developing[1] == total_spent_on(c.dip_spent@, seq![CODE_DEVELOP])
    &&& m.spent_developing[2] == total_spent_on(c.mil_spent@, seq![CODE_DEVELOP])
    &&& m.developing_ratio@ == dev_ratio_text(
        m.spent_developing[0] as int,
        m.spent_developing[1] as int,
        m.spent_developing[2] as int,
    )
    &&& m.spent_tech == spent_all_kinds(c, seq![CODE_TECH])
    &&& m.spent_culture == total_spent_on(c.dip_spent@, culture_codes())
    &&& m.spent_coring == total_spent_on(c.adm_spent@, seq![CODE_CORING])
    &&& m.spent_inflation == total_spent_on(c.adm_spent@, seq![CODE_INFLATION])
    &&& m.spent_ideas == spent_all_kinds(c, seq![CODE_IDEAS])
    &&& m.spent_force_march == total_spent_on(c.mil_spent@, seq![CODE_FORCE_MARCH])
    &&& m.spent_generals == total_spent_on(c.mil_spent@, general_codes())
    &&& m.spent_unjustified == total_spent_on(c.dip_spent@, seq![CODE_UNJUSTIFIED])
}

/// Sorts a country's power spending into totals by category.
pub fn generate_mana(country: &CountryData) -> (r: CountryMana)
    requires
        country.wf(),
    ensures
        mana_matches(r, *country),
{
    let develop = vec![CODE_DEVELOP];
    let tech = vec![CODE_TECH];
    let ideas = vec![CODE_IDEAS];
    let culture = vec![20i32, 33, 34, 35, 47];
    let generals = vec![3i32, 5];
    let coring = vec![CODE_CORING];
    let inflation = vec![CODE_INFLATION];
    let force_march = vec![CODE_FORCE_MARCH];
    let unjustified = vec![CODE_UNJUSTIFIED];
    assert(develop@ =~= seq![CODE_DEVELOP]);
    assert(tech@ =~= seq![CODE_TECH]);
    assert(ideas@ =~= seq![CODE_IDEAS]);
    assert(coring@ =~= seq![CODE_CORING]);
    assert(inflation@ =~= seq![CODE_INFLATION]);
    assert(force_march@ =~= seq![CODE_FORCE_MARCH]);
    assert(unjustified@ =~= seq![CODE_UNJUSTIFIED]);
    assert(culture@ == culture_codes());
    assert(generals@ == general_codes());
    let spent_dev: [i64; 3] = [
        sum_spent_on(&country.adm_spent, &develop),
        sum_spent_on(&country.dip_spent, &develop),
        sum_spent_on(&country.mil_spent, &develop),
    ];
    let spent_tech = sum_spent_on(&country.adm_spent, &tech) + sum_spent_on(&country.dip_spent, &tech)
        + sum_spent_on(&country.mil_spent, &tech);
    let spent_ideas = sum_spent_on(&country.adm_spent, &ideas) + sum_spent_on(
        &country.dip_spent,
        &ideas,
    ) + sum_spent_on(&country.mil_spent, &ideas);
    CountryMana {
        mana_spent: [
            sum_spent(&country.adm_spent),
            sum_spent(&country.dip_spent),
            sum_spent(&country.mil_spent),
        ],
        spent_developing: spent_dev,
        developing_ratio: dev_ratio(spent_dev),
        spent_tech,
        spent_culture: sum_spent_on(&country.dip_spent, &culture),
        spent_coring: sum_spent_on(&country.adm_spent, &coring),
        spent_inflation: sum_spent_on(&country.adm_spent, &inflation),
        spent_ideas,
        spent_force_march: sum_spent_on(&country.mil_spent, &force_march),
        spent_generals: sum_spent_on(&country.mil_spent, &generals),
        spent_unjustified: sum_spent_on(&country.dip_spent, &unjustified),
    }
}

} // verus!
