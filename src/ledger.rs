//! Income ledgers: the sum of a country's named income categories.

use vstd::prelude::*;
use crate::model::MILLI_BOUND;

verus! {

/// A country's income for one period, by category, in thousandths of a ducat.
#[derive(Clone, Copy, Debug, PartialEq, Eq, Structural)]
pub struct IncomeLedger {
    pub taxation: i64,
    pub production: i64,
    pub trade: i64,
    pub gold: i64,
    pub tariffs: i64,
    pub vassals: i64,
    pub harbor_fees: i64,
    pub subsidies: i64,
    pub war_reparations: i64,
    pub interest: i64,
    pub spoils_of_war: i64,
    pub siphoning_income: i64,
    pub condottieri: i64,
    pub knowledge_sharing: i64,
    pub blockading_foreign_ports: i64,
    pub looting_foreign_cities: i64,
    pub other: i64,
}

impl IncomeLedger {
    /// Every category lies within the range of a game quantity.
    pub open spec fn wf(self) -> bool {
        &&& -MILLI_BOUND <= self.taxation <= MILLI_BOUND
        &&& -MILLI_BOUND <= self.production <= MILLI_BOUND
        &&& -MILLI_BOUND <= self.trade <= MILLI_BOUND
        &&& -MILLI_BOUND <= self.gold <= MILLI_BOUND
        &&& -MILLI_BOUND <= self.tariffs <= MILLI_BOUND
        &&& -MILLI_BOUND <= self.vassals <= MILLI_BOUND
        &&& -MILLI_BOUND <= self.harbor_fees <= MILLI_BOUND
        &&& -MILLI_BOUND <= self.subsidies <= MILLI_BOUND
        &&& -MILLI_BOUND <= self.war_reparations <= MILLI_BOUND
        &&& -MILLI_BOUND <= self.interest <= MILLI_BOUND
        &&& -MILLI_BOUND <= self.spoils_of_war <= MILLI_BOUND
        &&& -MILLI_BOUND <= self.siphoning_income <= MILLI_BOUND
        &&& -MILLI_BOUND <= self.condottieri <= MILLI_BOUND
        &&& -MILLI_BOUND <= self.knowledge_sharing <= MILLI_BOUND
        &&& -MILLI_BOUND <= self.blockading_foreign_ports <= MILLI_BOUND
        &&& -MILLI_BOUND <= self.looting_foreign_cities <= MILLI_BOUND
        &&& -MILLI_BOUND <= self.other <= MILLI_BOUND
    }

    /// Sum of all the named categories.
    pub open spec fn total(self) -> int {
        self.taxation + self.production + self.trade + self.gold + self.tariffs + self.vassals + self.harbor_fees + self.subsidies + self.war_reparations + self.interest + self.spoils_of_war + self.siphoning_income + self.condottieri + self.knowledge_sharing + self.blockading_foreign_ports + self.looting_foreign_cities + self.other
    }
}

/// Sums every named income category of the ledger, none left out.
pub fn get_income(ledger: &IncomeLedger) -> (r: i64)
    requires
        ledger.wf(),
    ensures
        r == ledger.total(),
        -32 * MILLI_BOUND <= r <= 32 * MILLI_BOUND,
{
    ledger.taxation
        + ledger.production
        + ledger.trade
        + ledger.gold
        + ledger.tariffs
        + ledger.vassals
        + ledger.harbor_fees
        + ledger.subsidies
        + ledger.war_reparations
        + ledger.interest
        + ledger.spoils_of_war
        + ledger.siphoning_income
        + ledger.condottieri
        + ledger.knowledge_sharing
        + ledger.blockading_foreign_ports
        + ledger.looting_foreign_cities
        + ledger.other
}

fn in_range(x: i64) -> (r: bool)
    ensures
        r == (-MILLI_BOUND <= x <= MILLI_BOUND),
{
    -MILLI_BOUND <= x && x <= MILLI_BOUND
}

/// Whether every category of the ledger lies within the range of a game quantity.
pub fn ledger_fits(ledger: &IncomeLedger) -> (r: bool)
    ensures
        r == ledger.wf(),
{
    in_range(ledger.taxation) && in_range(ledger.production) && in_range(ledger.trade) && in_range(ledger.gold) && in_range(ledger.tariffs) && in_range(ledger.vassals) && in_range(ledger.harbor_fees) && in_range(ledger.subsidies) && in_range(ledger.war_reparations) && in_range(ledger.interest) && in_range(ledger.spoils_of_war) && in_range(ledger.siphoning_income) && in_range(ledger.condottieri) && in_range(ledger.knowledge_sharing) && in_range(ledger.blockading_foreign_ports) && in_range(ledger.looting_foreign_cities) && in_range(ledger.other)
}

} // verus!
