//! Performance conditions judged by oracle readings: cliffs that open when
//! targets are met, and vesting multipliers.
use vstd::prelude::*;
use crate::account::AccountId;

verus! {

/// What an oracle measures.
#[derive(Clone, Copy, Debug, PartialEq, Eq, Structural)]
pub enum OracleType {
    /// Total value locked.
    TVL,
    /// A token price target.
    Price,
    /// A custom measure, named by the condition's parameter.
    Custom,
}

/// How a reading is compared with its target.
#[derive(Clone, Copy, Debug, PartialEq, Eq, Structural)]
pub enum ComparisonOperator {
    GreaterThan,
    LessThan,
    GreaterThanOrEqual,
    LessThanOrEqual,
    Equal,
}

/// One condition: an oracle, what it measures, and the target it must meet.
#[derive(Debug)]
pub struct OracleCondition {
    pub oracle_address: AccountId,
    pub oracle_type: OracleType,
    pub target_value: i128,
    pub operator: ComparisonOperator,
    /// Extra symbol for custom oracles (a token symbol for price oracles).
    pub parameter: Option<String>,
}

/// A cliff that opens when its conditions hold, or at `fallback_time` when
/// no condition can be judged.
#[derive(Debug)]
pub struct PerformanceCliff {
    pub conditions: Vec<OracleCondition>,
    /// `true` asks for every condition, `false` for at least one.
    pub require_all: bool,
    pub fallback_time: u64,
}

/// A multiplier on vested amounts, in basis points (10000 is 1.0x).
#[derive(Debug)]
pub struct PerformanceMultiplier {
    pub condition: OracleCondition,
    pub multiplier_bps: u32,
    pub fallback_multiplier_bps: u32,
}

/// A source of readings, for oracle contracts to implement (the host
/// supplies the environment).
pub trait OracleInterface {
    /// The current reading of `oracle_type`, for the `parameter` that a price
    /// or custom oracle is asked about.
    fn query_value(oracle_type: OracleType, parameter: Option<String>) -> i128;
}

/// A batch of conditions to judge for one vault.
pub struct OracleQuery {
    pub vault_id: u64,
    pub conditions: Vec<OracleCondition>,
    pub require_all: bool,
}

/// Whether `current` meets `target` under `op`.
pub open spec fn comparison_holds(current: i128, target: i128, op: ComparisonOperator) -> bool {
    match op {
        ComparisonOperator::GreaterThan => current > target,
        ComparisonOperator::LessThan => current < target,
        ComparisonOperator::GreaterThanOrEqual => current >= target,
        ComparisonOperator::LessThanOrEqual => current <= target,
        ComparisonOperator::Equal => current == target,
    }
}

/// The reading taken for a condition. No oracle contract is consulted: every
/// reading is zero.
pub open spec fn oracle_reading(c: OracleCondition) -> i128 {
    0
}

/// Whether a condition is met by its reading.
pub open spec fn condition_met(c: OracleCondition) -> bool {
    comparison_holds(oracle_reading(c), c.target_value, c.operator)
}

/// The verdict on a list of conditions: none for an empty list, otherwise
/// whether all (or, without `require_all`, any) of them are met.
pub open spec fn conditions_verdict(cs: Seq<OracleCondition>, require_all: bool) -> Option<bool> {
    if cs.len() == 0 {
        None
    } else if require_all {
        Some(forall|i: int| 0 <= i < cs.len() ==> #[trigger] condition_met(cs[i]))
    } else {
        Some(exists|i: int| 0 <= i < cs.len() && #[trigger] condition_met(cs[i]))
    }
}

/// Whether a cliff has opened at time `now`.
pub open spec fn cliff_passed(cliff: PerformanceCliff, now: u64) -> bool {
    match conditions_verdict(cliff.conditions@, cliff.require_all) {
        Some(result) => result,
        None => now >= cliff.fallback_time,
    }
}

/// The multiplier that applies: the boosted one when the condition is met,
/// the fallback otherwise.
pub open spec fn multiplier_in_force(m: PerformanceMultiplier) -> u32 {
    if condition_met(m.condition) {
        m.multiplier_bps
    } else {
        m.fallback_multiplier_bps
    }
}

/// Judges performance conditions.
pub struct OracleClient;

impl OracleClient {
    pub fn new() -> (r: Self) {
        OracleClient
    }

    /// Whether the cliff has opened at time `now`: by its conditions when there
    /// are any, else by its fallback time.
    pub fn is_cliff_passed(cliff: &PerformanceCliff, vault_id: u64, now: u64) -> (r: bool)
        ensures
            r == cliff_passed(*cliff, now),
    {
        if let Some(result) = Self::evaluate_oracle_conditions(&cliff.conditions, cliff.require_all) {
            return result;
        }
        now >= cliff.fallback_time
    }

    /// Judges a list of conditions with AND (`require_all`) or OR logic; `None`
    /// when the list is empty.
    pub fn evaluate_oracle_conditions(conditions: &Vec<OracleCondition>, require_all: bool) -> (r:
        Option<bool>)
        ensures
            r == conditions_verdict(conditions@, require_all),
            conditions@.len() == 0 <==> r is None,
            require_all ==> (r == Some(true) <==> conditions@.len() > 0 && forall|k: int|
                0 <= k < conditions@.len() ==> #[trigger] condition_met(conditions@[k])),
            !require_all ==> (r == Some(true) <==> exists|k: int|
                0 <= k < conditions@.len() && #[trigger] condition_met(conditions@[k])),
    {
        if conditions.len() == 0 {
            return None;
        }
        let mut all_met = true;
        let mut i: usize = 0;
        while i < conditions.len()
            invariant
                0 <= i <= conditions@.len(),
                all_met == (forall|j: int| 0 <= j < i ==> #[trigger] condition_met(conditions@[j])),
                !require_all ==> forall|j: int| 0 <= j < i ==> !#[trigger] condition_met(conditions@[j]),
            decreases conditions@.len() - i,
        {
            let condition = &conditions[i];
            let current_value = Self::query_oracle(condition);
            let met = Self::compare_values(current_value, condition.target_value, &condition.operator);
            if !require_all && met {
                assert(condition_met(conditions@[i as int]));
                return Some(true);
            }
            assert(met == condition_met(conditions@[i as int]));
            all_met = all_met && met;
            i = i + 1;
        }
        if require_all {
            Some(all_met)
        } else {
            assert(!(exists|j: int| 0 <= j < conditions@.len() && #[trigger] condition_met(conditions@[j])));
            Some(false)
        }
    }

    /// The oracle's reading for a condition.
    fn query_oracle(condition: &OracleCondition) -> (r: i128)
        ensures
            r == oracle_reading(*condition),
    {
        0
    }

    /// Whether `current` meets `target` under `operator`.
    pub fn compare_values(current: i128, target: i128, operator: &ComparisonOperator) -> (r: bool)
        ensures
            r == comparison_holds(current, target, *operator),
    {
        match operator {
            ComparisonOperator::GreaterThan => current > target,
            ComparisonOperator::LessThan => current < target,
            ComparisonOperator::GreaterThanOrEqual => current >= target,
            ComparisonOperator::LessThanOrEqual => current <= target,
            ComparisonOperator::Equal => current == target,
        }
    }

    /// A total-value-locked condition.
    pub fn create_tvl_condition(oracle_address: AccountId, target_tvl: i128, operator: ComparisonOperator) -> (r: OracleCondition)
        ensures
            r.oracle_address == oracle_address,
            r.oracle_type == OracleType::TVL,
            r.target_value == target_tvl,
            r.operator == operator,
            r.parameter is None,
    {
        OracleCondition {
            oracle_address,
            oracle_type: OracleType::TVL,
            target_value: target_tvl,
            operator,
            parameter: None,
        }
    }

    /// A price condition, optionally naming the token.
    pub fn create_price_condition(
        oracle_address: AccountId,
        target_price: i128,
        operator: ComparisonOperator,
        token_symbol: Option<String>,
    ) -> (r: OracleCondition)
        ensures
            r.oracle_address == oracle_address,
            r.oracle_type == OracleType::Price,
            r.target_value == target_price,
            r.operator == operator,
            r.parameter == token_symbol,
    {
        OracleCondition {
            oracle_address,
            oracle_type: OracleType::Price,
            target_value: target_price,
            operator,
            parameter: token_symbol,
        }
    }

    /// A custom condition with its parameter.
    pub fn create_custom_condition(
        oracle_address: AccountId,
        target_value: i128,
        operator: ComparisonOperator,
        parameter: String,
    ) -> (r: OracleCondition)
        ensures
            r.oracle_address == oracle_address,
            r.oracle_type == OracleType::Custom,
            r.target_value == target_value,
            r.operator == operator,
            r.parameter == Some(parameter),
    {
        OracleCondition {
            oracle_address,
            oracle_type: OracleType::Custom,
            target_value,
            operator,
            parameter: Some(parameter),
        }
    }

    /// The multiplier in force for `multiplier`'s condition.
    pub fn get_multiplier(multiplier: &PerformanceMultiplier) -> (r: u32)
        ensures
            r == multiplier_in_force(*multiplier),
            r == multiplier.multiplier_bps || r == multiplier.fallback_multiplier_bps,
    {
        let current_value = Self::query_oracle(&multiplier.condition);
        let condition_met = Self::compare_values(current_value, multiplier.condition.target_value, &multiplier.condition.operator);
        if condition_met {
            multiplier.multiplier_bps
        } else {
            multiplier.fallback_multiplier_bps
        }
    }
}

} // verus!
