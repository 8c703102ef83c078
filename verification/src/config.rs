//! Configuration data: named strategies, each a speed curve with timing
//! parameters, plus the default and on-discharging strategy names.
//!
//! Strategies are kept as a sequence of name/strategy entries; a name is
//! looked up by scanning for its first occurrence.

use vstd::prelude::*;
use vstd::string::StringExecFns;

use crate::error::Error;
use crate::text::str_eq;

verus! {

/// One control point of a speed curve: at `temp` degrees Celsius the fan
/// runs at `speed` percent.
#[derive(Debug, Clone, Copy, PartialEq, Eq, Structural)]
pub struct CurvePoint {
    pub temp: u32,
    pub speed: u32,
}

/// A named bundle of control parameters: how often the duty cycle is
/// recomputed, how many samples the moving average uses, and the curve.
#[derive(Debug, Clone)]
pub struct Strategy {
    pub fan_speed_update_frequency: u32,
    pub moving_average_interval: u32,
    pub speed_curve: Vec<CurvePoint>,
}

/// A strategy under its configured name.
#[derive(Debug, Clone)]
pub struct StrategyEntry {
    pub name: String,
    pub strategy: Strategy,
}

/// The controller's configuration, immutable once loaded.
#[derive(Debug, Clone)]
pub struct Config {
    pub default_strategy: String,
    pub strategy_on_discharging: String,
    pub strategies: Vec<StrategyEntry>,
}

/// First strategy under `name` in `entries`, if any.
pub open spec fn lookup_entries(entries: Seq<StrategyEntry>, name: Seq<char>) -> Option<Strategy>
    decreases entries.len(),
{
    if entries.len() == 0 {
        None
    } else if entries[0].name@ == name {
        Some(entries[0].strategy)
    } else {
        lookup_entries(entries.drop_first(), name)
    }
}

impl Config {
    /// The strategy configured under `name`, if any.
    pub open spec fn spec_lookup(&self, name: Seq<char>) -> Option<Strategy> {
        lookup_entries(self.strategies@, name)
    }

    /// Whether some strategy is configured under `name`.
    pub open spec fn spec_contains(&self, name: Seq<char>) -> bool {
        self.spec_lookup(name) is Some
    }

    /// The name the discharging strategy resolves to: the configured one,
    /// or the default when none is configured.
    pub open spec fn spec_discharging_name(&self) -> Seq<char> {
        if self.strategy_on_discharging@.len() == 0 {
            self.default_strategy@
        } else {
            self.strategy_on_discharging@
        }
    }

    /// The validation rules: the default strategy exists, the discharging
    /// strategy (when named) exists, and no speed curve is empty.
    pub open spec fn spec_valid(&self) -> bool {
        &&& self.spec_contains(self.default_strategy@)
        &&& (self.strategy_on_discharging@.len() == 0 || self.spec_contains(
            self.strategy_on_discharging@,
        ))
        &&& forall|i: int|
            0 <= i < self.strategies@.len()
                ==> #[trigger] self.strategies@[i].strategy.speed_curve@.len() > 0
    }

    /// Beyond the validation rules, the data-model invariant the control
    /// step relies on: every update frequency is positive.
    pub open spec fn spec_wf(&self) -> bool {
        &&& self.spec_valid()
        &&& forall|i: int|
            0 <= i < self.strategies@.len()
                ==> #[trigger] self.strategies@[i].strategy.fan_speed_update_frequency > 0
    }
}

proof fn lemma_lookup_step(entries: Seq<StrategyEntry>, name: Seq<char>, i: int)
    requires
        0 <= i < entries.len(),
        entries[i].name@ != name,
    ensures
        lookup_entries(entries.skip(i), name) == lookup_entries(entries.skip(i + 1), name),
{
    assert(entries.skip(i).drop_first() =~= entries.skip(i + 1));
}

impl Config {
    /// Looks `name` up among the configured strategies.
    pub fn get_strategy(&self, name: &str) -> (r: Option<&Strategy>)
        ensures
            match r {
                Some(s) => self.spec_lookup(name@) == Some(*s),
                None => self.spec_lookup(name@) is None,
            },
    {
        let n = self.strategies.len();
        let mut i: usize = 0;
        proof {
            assert(self.strategies@.skip(0) =~= self.strategies@);
        }
        while i < n
            invariant
                0 <= i <= n,
                n == self.strategies@.len(),
                lookup_entries(self.strategies@, name@) == lookup_entries(
                    self.strategies@.skip(i as int),
                    name@,
                ),
            decreases n - i,
        {
            proof {
                assert(self.strategies@.skip(i as int)[0] == self.strategies@[i as int]);
            }
            if str_eq(self.strategies[i].name.as_str(), name) {
                return Some(&self.strategies[i].strategy);
            }
            proof {
                lemma_lookup_step(self.strategies@, name@, i as int);
            }
            i = i + 1;
        }
        None
    }

    /// The strategy under the configured default name.
    pub fn get_default_strategy(&self) -> (r: &Strategy)
        requires
            self.spec_contains(self.default_strategy@),
        ensures
            self.spec_lookup(self.default_strategy@) == Some(*r),
    {
        let found = self.get_strategy(self.default_strategy.as_str());
        match found {
            Some(s) => s,
            None => unreached(),
        }
    }

    /// The strategy in force while discharging: the configured discharging
    /// strategy, or the default when none is configured.
    pub fn get_discharging_strategy(&self) -> (r: &Strategy)
        requires
            self.spec_contains(self.spec_discharging_name()),
        ensures
            self.spec_lookup(self.spec_discharging_name()) == Some(*r),
    {
        let name: &String = if self.strategy_on_discharging.as_str().is_empty() {
            &self.default_strategy
        } else {
            &self.strategy_on_discharging
        };
        let found = self.get_strategy(name.as_str());
        match found {
            Some(s) => s,
            None => unreached(),
        }
    }

    /// The configured strategy names, in configuration order.
    pub fn strategy_names(&self) -> (r: Vec<String>)
        ensures
            r@.len() == self.strategies@.len(),
            forall|i: int| 0 <= i < r@.len() ==> r@[i]@ == #[trigger] self.strategies@[i].name@,
    {
        let n = self.strategies.len();
        let mut r: Vec<String> = Vec::new();
        let mut i: usize = 0;
        while i < n
            invariant
                0 <= i <= n,
                n == self.strategies@.len(),
                r@.len() == i,
                forall|j: int| 0 <= j < i ==> r@[j]@ == #[trigger] self.strategies@[j].name@,
            decreases n - i,
        {
            r.push(self.strategies[i].name.clone());
            i = i + 1;
        }
        r
    }

    /// Checks the validation rules, reporting the first broken one.
    pub fn validate(&self) -> (r: Result<(), Error>)
        ensures
            r is Ok <==> self.spec_valid(),
            !self.spec_contains(self.default_strategy@) ==> (r matches Err(Error::Config(m))
                && m@ == missing_default_message(self.default_strategy@)),
            self.spec_contains(self.default_strategy@) && self.strategy_on_discharging@.len() > 0
                && !self.spec_contains(self.strategy_on_discharging@) ==> (r matches Err(
                Error::Config(m),
            ) && m@ == missing_discharging_message(self.strategy_on_discharging@)),
            r is Err ==> (r matches Err(Error::Config(m)) && (m@ == missing_default_message(
                self.default_strategy@,
            ) || m@ == missing_discharging_message(self.strategy_on_discharging@) || exists|i: int|
                0 <= i < self.strategies@.len() && (#[trigger] self.strategies@[i]).strategy.speed_curve@.len()
                    == 0 && m@ == empty_curve_message(self.strategies@[i].name@))),
    {
        if self.get_strategy(self.default_strategy.as_str()).is_none() {
            let mut m = String::from_str("Default strategy '");
            m.append(self.default_strategy.as_str());
            m.append("' is not a valid strategy");
            proof {
                assert(m@ =~= missing_default_message(self.default_strategy@));
            }
            return Err(Error::Config(m));
        }

        if !self.strategy_on_discharging.as_str().is_empty() && self.get_strategy(
            self.strategy_on_discharging.as_str(),
        ).is_none() {
            let mut m = String::from_str("Discharging strategy '");
            m.append(self.strategy_on_discharging.as_str());
            m.append("' is not a valid strategy");
            return Err(Error::Config(m));
        }

        let n = self.strategies.len();
        let mut i: usize = 0;
        while i < n
            invariant
                0 <= i <= n,
                n == self.strategies@.len(),
                self.spec_contains(self.default_strategy@),
                self.strategy_on_discharging@.len() == 0 || self.spec_contains(
                    self.strategy_on_discharging@,
                ),
                forall|j: int|
                    0 <= j < i ==> #[trigger] self.strategies@[j].strategy.speed_curve@.len() > 0,
            decreases n - i,
        {
            if self.strategies[i].strategy.speed_curve.len() == 0 {
                let mut m = String::from_str("Strategy '");
                m.append(self.strategies[i].name.as_str());
                m.append("' has an empty speed curve");
                proof {
                    assert(m@ =~= empty_curve_message(self.strategies@[i as int].name@));
                }
                return Err(Error::Config(m));
            }
            i = i + 1;
        }

        Ok(())
    }
}

/// The message `validate` reports when the default strategy is unknown.
pub open spec fn missing_default_message(name: Seq<char>) -> Seq<char> {
    "Default strategy '"@ + name + "' is not a valid strategy"@
}

/// The message `validate` reports when a named discharging strategy is
/// unknown.
pub open spec fn missing_discharging_message(name: Seq<char>) -> Seq<char> {
    "Discharging strategy '"@ + name + "' is not a valid strategy"@
}

/// The message `validate` reports for a strategy whose speed curve is
/// empty.
pub open spec fn empty_curve_message(name: Seq<char>) -> Seq<char> {
    "Strategy '"@ + name + "' has an empty speed curve"@
}

} // verus!
