//! The control engine: strategy selection with a manual override, the
//! bounded temperature history, and the periodic control step.
//!
//! The controller holds no hardware handle. The surrounding process reads
//! the sensors and the power source, hands the readings in as plain
//! values, and applies the duty cycle a step returns; every decision in
//! between is made, and verified, here.

use vstd::prelude::*;
use vstd::string::StringExecFns;

use crate::config::{lookup_entries, Config, Strategy, StrategyEntry};
use crate::curve::{interpolate, interpolate_spec};
use crate::error::Error;
use crate::smoothing::{effective_spec, effective_temperature, moving_average, moving_average_spec};

verus! {

/// The history keeps this many samples; the oldest leaves first.
pub const TEMP_HISTORY_MAX_LEN: usize = 100;

/// The name view of an optional override.
pub open spec fn ov_view(ov: Option<String>) -> Option<Seq<char>> {
    match ov {
        Some(n) => Some(n@),
        None => None,
    }
}

/// The strategy name in force when no override applies: the default on
/// AC power, the discharging strategy (itself defaulting) otherwise.
pub open spec fn non_override_name(c: Config, on_ac: bool) -> Seq<char> {
    if on_ac {
        c.default_strategy@
    } else {
        c.spec_discharging_name()
    }
}

/// The strategy name in force: a still-valid override wins; otherwise
/// the AC/battery logic decides. Evaluated fresh on every query.
pub open spec fn resolved_strategy_name(c: Config, ov: Option<Seq<char>>, on_ac: bool) -> Seq<
    char,
> {
    match ov {
        Some(name) => if c.spec_contains(name) {
            name
        } else {
            non_override_name(c, on_ac)
        },
        None => non_override_name(c, on_ac),
    }
}

/// The strategy a `Some` lookup carries.
pub open spec fn unwrap_strategy(o: Option<Strategy>) -> Strategy {
    match o {
        Some(s) => s,
        None => arbitrary(),
    }
}

/// The fan-curve input for an effective temperature in hundredths of a
/// degree: whole degrees, truncated, saturating at the ends of `u32`.
pub open spec fn curve_input(e: int) -> u32 {
    if e <= 0 {
        0u32
    } else if e / 100 > u32::MAX {
        u32::MAX
    } else {
        (e / 100) as u32
    }
}

/// Converts an effective temperature to the whole-degree curve input.
pub fn centi_to_curve_input(e: i64) -> (r: u32)
    ensures
        r == curve_input(e as int),
{
    if e <= 0 {
        0
    } else {
        let d = (e as u64) / 100;
        if d > u32::MAX as u64 {
            u32::MAX
        } else {
            d as u32
        }
    }
}

/// The duty cycle a control step computes: the resolved strategy's curve,
/// read at the effective temperature of the history and the new sample.
pub open spec fn spec_target_speed(
    c: Config,
    ov: Option<Seq<char>>,
    history: Seq<i64>,
    sample: i64,
    on_ac: bool,
) -> int {
    let strat = unwrap_strategy(c.spec_lookup(resolved_strategy_name(c, ov, on_ac)));
    interpolate_spec(
        strat.speed_curve@,
        curve_input(effective_spec(history, sample, strat.moving_average_interval)),
    )
}

/// A history bounded to the last `TEMP_HISTORY_MAX_LEN` entries after a
/// new sample is appended.
pub open spec fn push_history(h: Seq<i64>, sample: i64) -> Seq<i64> {
    let p = h.push(sample);
    if p.len() > 100 {
        p.skip(p.len() - 100)
    } else {
        p
    }
}

/// The initial override: the requested strategy name, with an empty
/// request meaning none.
pub open spec fn initial_override(requested: Option<String>) -> Option<String> {
    match requested {
        Some(s) => if s@.len() == 0 {
            None
        } else {
            Some(s)
        },
        None => None,
    }
}

/// The override left standing by a configuration reload: the old one
/// when the new configuration still knows it, none otherwise.
pub open spec fn reload_override(ov: Option<String>, c: Config) -> Option<String> {
    match ov {
        Some(n) => if c.spec_contains(n@) {
            Some(n)
        } else {
            None
        },
        None => None,
    }
}

/// The mutable runtime state of the control loop: the configuration, the
/// manual override, the rolling sample history (hundredths of a degree),
/// the last applied duty cycle, the paused/active flag, and the tick
/// counter since the last recomputation or override change.
#[derive(Debug)]
pub struct FanController {
    pub config: Config,
    pub overwritten_strategy: Option<String>,
    pub temp_history: Vec<i64>,
    pub current_speed: u32,
    pub active: bool,
    pub timecount: u32,
}

impl FanController {
    /// Well-formedness: the configuration passes validation with positive
    /// update frequencies, any override names a configured strategy, and
    /// the history is within its bound.
    pub open spec fn wf(&self) -> bool {
        &&& self.config.spec_wf()
        &&& match self.overwritten_strategy {
            Some(ref n) => self.config.spec_contains(n@),
            None => true,
        }
        &&& self.temp_history@.len() <= 100
    }

    /// The strategy name currently in force.
    pub open spec fn resolved_name(&self, on_ac: bool) -> Seq<char> {
        resolved_strategy_name(self.config, ov_view(self.overwritten_strategy), on_ac)
    }

    /// The strategy currently in force.
    pub open spec fn resolved_lookup(&self, on_ac: bool) -> Option<Strategy> {
        self.config.spec_lookup(self.resolved_name(on_ac))
    }

    /// Creates the controller; an empty requested strategy means no
    /// override, as on startup without one.
    pub fn new(config: Config, initial_strategy: Option<String>) -> (r: FanController)
        requires
            config.spec_wf(),
            match initial_strategy {
                Some(ref s) => s@.len() == 0 || config.spec_contains(s@),
                None => true,
            },
        ensures
            r.config == config,
            r.overwritten_strategy == initial_override(initial_strategy),
            r.temp_history@.len() == 0,
            r.current_speed == 0,
            r.active,
            r.timecount == 0,
            r.wf(),
    {
        let overwritten_strategy = match initial_strategy {
            Some(s) => if s.as_str().is_empty() {
                None
            } else {
                Some(s)
            },
            None => None,
        };
        FanController {
            config,
            overwritten_strategy,
            temp_history: Vec::new(),
            current_speed: 0,
            active: true,
            timecount: 0,
        }
    }

    /// The strategy in force, resolved fresh from the override and the
    /// power source.
    pub fn get_current_strategy(&self, on_ac: bool) -> (r: &Strategy)
        requires
            self.wf(),
        ensures
            self.resolved_lookup(on_ac) == Some(*r),
    {
        if let Some(ref name) = self.overwritten_strategy {
            match self.config.get_strategy(name.as_str()) {
                Some(s) => s,
                None => unreached(),
            }
        } else if on_ac {
            self.config.get_default_strategy()
        } else {
            self.config.get_discharging_strategy()
        }
    }

    /// The name of the strategy in force.
    pub fn get_current_strategy_name(&self, on_ac: bool) -> (r: String)
        requires
            self.wf(),
        ensures
            r@ == self.resolved_name(on_ac),
    {
        if let Some(ref name) = self.overwritten_strategy {
            return name.clone();
        }

        if on_ac {
            return self.config.default_strategy.clone();
        }

        if self.config.strategy_on_discharging.as_str().is_empty() {
            return self.config.default_strategy.clone();
        }

        self.config.strategy_on_discharging.clone()
    }

    /// Whether a manual override is in force.
    pub fn is_overwritten(&self) -> (r: bool)
        ensures
            r == (self.overwritten_strategy is Some),
    {
        self.overwritten_strategy.is_some()
    }

    /// Pins `name` as the strategy in force and restarts the update
    /// cadence; unknown names are rejected and change nothing.
    pub fn overwrite_strategy(&mut self, name: &str) -> (r: Result<(), Error>)
        requires
            old(self).wf(),
        ensures
            final(self).wf(),
            old(self).config.spec_contains(name@) ==> {
                &&& r is Ok
                &&& ov_view(final(self).overwritten_strategy) == Some(name@)
                &&& final(self).timecount == 0
            },
            !old(self).config.spec_contains(name@) ==> {
                &&& (r matches Err(Error::Strategy(m)) && m@ == "Unknown strategy: "@ + name@)
                &&& *final(self) == *old(self)
            },
            final(self).config == old(self).config,
            final(self).temp_history == old(self).temp_history,
            final(self).current_speed == old(self).current_speed,
            final(self).active == old(self).active,
    {
        if self.config.get_strategy(name).is_none() {
            let mut m = String::from_str("Unknown strategy: ");
            m.append(name);
            return Err(Error::Strategy(m));
        }
        self.overwritten_strategy = Some(String::from_str(name));
        self.timecount = 0;
        Ok(())
    }

    /// Drops any override and restarts the update cadence.
    pub fn clear_overwritten_strategy(&mut self)
        ensures
            final(self).overwritten_strategy is None,
            final(self).timecount == 0,
            final(self).config == old(self).config,
            final(self).temp_history == old(self).temp_history,
            final(self).current_speed == old(self).current_speed,
            final(self).active == old(self).active,
            old(self).wf() ==> final(self).wf(),
    {
        self.overwritten_strategy = None;
        self.timecount = 0;
    }

    /// The moving average of the stored history; `fallback` stands in
    /// when the history holds no positive sample.
    pub fn get_moving_average_temperature(&self, interval: u32, fallback: i64) -> (r: i64)
        requires
            self.wf(),
        ensures
            r == moving_average_spec(self.temp_history@, interval, fallback),
    {
        moving_average(&self.temp_history, interval, fallback)
    }

    /// The effective temperature for `current_temp` against the stored
    /// history.
    pub fn get_effective_temperature(&self, current_temp: i64, interval: u32) -> (r: i64)
        requires
            self.wf(),
        ensures
            r == effective_spec(self.temp_history@, current_temp, interval),
    {
        effective_temperature(&self.temp_history, current_temp, interval)
    }

    /// Computes the duty cycle for the new sample and records it while
    /// the controller is active. The returned duty cycle, when any, is
    /// for the caller to write to the hardware.
    pub fn adapt_speed(&mut self, current_temp: i64, on_ac: bool) -> (duty: Option<u32>)
        requires
            old(self).wf(),
        ensures
            final(self).wf(),
            final(self).config == old(self).config,
            final(self).overwritten_strategy == old(self).overwritten_strategy,
            final(self).temp_history == old(self).temp_history,
            final(self).active == old(self).active,
            final(self).timecount == old(self).timecount,
            ({
                let target = spec_target_speed(
                    old(self).config,
                    ov_view(old(self).overwritten_strategy),
                    old(self).temp_history@,
                    current_temp,
                    on_ac,
                );
                if old(self).active {
                    duty == Some(target as u32) && target == final(self).current_speed
                } else {
                    duty is None && final(self).current_speed == old(self).current_speed
                }
            }),
    {
        let interval = self.get_current_strategy(on_ac).moving_average_interval;
        let effective_temp = self.get_effective_temperature(current_temp, interval);
        let input = centi_to_curve_input(effective_temp);
        let strategy = self.get_current_strategy(on_ac);
        let new_speed = interpolate(strategy.speed_curve.as_slice(), input);

        if self.active {
            self.current_speed = new_speed;
            Some(new_speed)
        } else {
            None
        }
    }

    /// Records a duty cycle the caller has applied directly.
    pub fn set_speed(&mut self, speed: u32)
        ensures
            final(self).current_speed == speed,
            final(self).config == old(self).config,
            final(self).overwritten_strategy == old(self).overwritten_strategy,
            final(self).temp_history == old(self).temp_history,
            final(self).active == old(self).active,
            final(self).timecount == old(self).timecount,
            old(self).wf() ==> final(self).wf(),
    {
        self.current_speed = speed;
    }

    /// Stops the loop from driving the fan; the caller hands the fan back
    /// to its autonomous mode.
    pub fn pause(&mut self)
        ensures
            !final(self).active,
            final(self).config == old(self).config,
            final(self).overwritten_strategy == old(self).overwritten_strategy,
            final(self).temp_history == old(self).temp_history,
            final(self).current_speed == old(self).current_speed,
            final(self).timecount == old(self).timecount,
            old(self).wf() ==> final(self).wf(),
    {
        self.active = false;
    }

    /// Lets the loop drive the fan again from the next due step on.
    pub fn resume(&mut self)
        ensures
            final(self).active,
            final(self).config == old(self).config,
            final(self).overwritten_strategy == old(self).overwritten_strategy,
            final(self).temp_history == old(self).temp_history,
            final(self).current_speed == old(self).current_speed,
            final(self).timecount == old(self).timecount,
            old(self).wf() ==> final(self).wf(),
    {
        self.active = true;
    }

    /// Whether the loop is driving the fan.
    pub fn is_active(&self) -> (r: bool)
        ensures
            r == self.active,
    {
        self.active
    }

    /// The last duty cycle recorded.
    pub fn get_current_speed(&self) -> (r: u32)
        ensures
            r == self.current_speed,
    {
        self.current_speed
    }

    /// The configuration in force.
    pub fn get_config(&self) -> (r: &Config)
        ensures
            *r == self.config,
    {
        &self.config
    }

    /// One control step for a fresh sample: when the cadence is due,
    /// computes the duty cycle (recording and returning it while active)
    /// and restarts the counter; always appends the sample to the bounded
    /// history and advances the counter. A failed hardware write by the
    /// caller does not undo the restart: the next recomputation waits a
    /// full cadence.
    pub fn step(&mut self, sample: i64, on_ac: bool) -> (duty: Option<u32>)
        requires
            old(self).wf(),
            old(self).timecount < u32::MAX,
        ensures
            final(self).wf(),
            final(self).config == old(self).config,
            final(self).overwritten_strategy == old(self).overwritten_strategy,
            final(self).active == old(self).active,
            final(self).temp_history@ == push_history(old(self).temp_history@, sample),
            ({
                let strat = unwrap_strategy(old(self).resolved_lookup(on_ac));
                let due = old(self).timecount % strat.fan_speed_update_frequency == 0;
                let target = spec_target_speed(
                    old(self).config,
                    ov_view(old(self).overwritten_strategy),
                    old(self).temp_history@,
                    sample,
                    on_ac,
                );
                &&& final(self).timecount == if due {
                    1int
                } else {
                    old(self).timecount + 1
                }
                &&& if due && old(self).active {
                    duty == Some(target as u32) && target == final(self).current_speed
                } else {
                    duty is None && final(self).current_speed == old(self).current_speed
                }
            }),
    {
        let frequency = self.get_current_strategy(on_ac).fan_speed_update_frequency;
        proof {
            lemma_lookup_frequency_positive(self.config, self.resolved_name(on_ac));
        }
        let duty = if self.timecount % frequency == 0 {
            let d = self.adapt_speed(sample, on_ac);
            self.timecount = 0;
            d
        } else {
            None
        };

        self.temp_history.push(sample);
        if self.temp_history.len() > TEMP_HISTORY_MAX_LEN {
            self.temp_history.remove(0);
        }
        self.timecount = self.timecount + 1;

        duty
    }

    /// Replaces the configuration; an override the new configuration no
    /// longer knows is cleared silently.
    pub fn reload_config(&mut self, config: Config)
        requires
            old(self).wf(),
            config.spec_wf(),
        ensures
            final(self).wf(),
            final(self).config == config,
            final(self).overwritten_strategy == reload_override(
                old(self).overwritten_strategy,
                config,
            ),
            final(self).temp_history == old(self).temp_history,
            final(self).current_speed == old(self).current_speed,
            final(self).active == old(self).active,
            final(self).timecount == old(self).timecount,
    {
        self.config = config;
        let stale = match self.overwritten_strategy {
            Some(ref name) => self.config.get_strategy(name.as_str()).is_none(),
            None => false,
        };
        if stale {
            self.overwritten_strategy = None;
        }
    }
}

/// Every strategy a well-formed configuration can look up carries a
/// positive update frequency.
proof fn lemma_lookup_entry_wf(entries: Seq<StrategyEntry>, name: Seq<char>)
    ensures
        lookup_entries(entries, name) matches Some(s) ==> exists|i: int|
            0 <= i < entries.len() && #[trigger] entries[i].strategy == s,
    decreases entries.len(),
{
    if entries.len() > 0 && entries[0].name@ != name {
        lemma_lookup_entry_wf(entries.drop_first(), name);
        let r = lookup_entries(entries, name);
        if r is Some {
            let s = unwrap_strategy(r);
            let i = choose|i: int|
                0 <= i < entries.drop_first().len() && #[trigger] entries.drop_first()[i].strategy
                    == s;
            assert(entries[i + 1].strategy == s);
        }
    }
}

proof fn lemma_lookup_frequency_positive(c: Config, name: Seq<char>)
    requires
        c.spec_wf(),
    ensures
        c.spec_lookup(name) matches Some(s) ==> s.fan_speed_update_frequency > 0,
{
    lemma_lookup_entry_wf(c.strategies@, name);
}

/// Under a well-formed state the resolved name always denotes a
/// configured strategy, whatever the power source reports: resolution
/// can never land outside the configuration.
pub proof fn lemma_resolution_names_configured_strategy(s: FanController, on_ac: bool)
    requires
        s.wf(),
    ensures
        s.resolved_lookup(on_ac) is Some,
{
}

/// Resolution never follows a stale override: an override name the
/// configuration does not know resolves exactly as no override would.
pub proof fn lemma_no_stale_resolution(c: Config, ov: Option<Seq<char>>, on_ac: bool)
    ensures
        match ov {
            Some(name) => !c.spec_contains(name) ==> resolved_strategy_name(c, ov, on_ac)
                == non_override_name(c, on_ac),
            None => resolved_strategy_name(c, ov, on_ac) == non_override_name(c, on_ac),
        },
{
}

/// A reload that drops the override (because the new configuration does
/// not know its name) leaves resolution exactly as if no override had
/// ever been set.
pub proof fn lemma_reload_resolution(ov: Option<String>, config: Config, on_ac: bool)
    ensures
        (match ov {
            Some(ref n) => !config.spec_contains(n@),
            None => true,
        }) ==> resolved_strategy_name(config, ov_view(reload_override(ov, config)), on_ac)
            == non_override_name(config, on_ac),
{
}

/// Overriding and then clearing the override resolves exactly as never
/// having overridden. `overwrite_strategy` leaves the override at the
/// pinned name and `clear_overwritten_strategy` leaves it at `None`, so
/// after the pair the resolution is the override-free one, with no trace
/// of the name pinned in between.
pub proof fn lemma_override_then_reset(c: Config, pinned: Seq<char>, on_ac: bool)
    ensures
        resolved_strategy_name(c, Some(pinned), on_ac) == if c.spec_contains(pinned) {
            pinned
        } else {
            non_override_name(c, on_ac)
        },
        resolved_strategy_name(c, Option::<Seq<char>>::None, on_ac) == non_override_name(
            c,
            on_ac,
        ),
{
}

/// Running the control step over a sequence of samples, as far as the
/// history is concerned.
pub open spec fn history_after(h: Seq<i64>, samples: Seq<i64>) -> Seq<i64>
    decreases samples.len(),
{
    if samples.len() == 0 {
        h
    } else {
        history_after(push_history(h, samples.first()), samples.drop_first())
    }
}

/// A history trimmed to its last hundred entries.
pub open spec fn bounded_suffix(s: Seq<i64>) -> Seq<i64> {
    if s.len() <= 100 {
        s
    } else {
        s.skip(s.len() - 100)
    }
}

proof fn lemma_bounded_suffix_absorbs(x: Seq<i64>, y: Seq<i64>)
    ensures
        bounded_suffix(bounded_suffix(x) + y) =~= bounded_suffix(x + y),
{
}

proof fn lemma_history_after_full(h: Seq<i64>, samples: Seq<i64>)
    requires
        h.len() <= 100,
    ensures
        history_after(h, samples) =~= bounded_suffix(h + samples),
    decreases samples.len(),
{
    if samples.len() == 0 {
        assert(h + samples =~= h);
    } else {
        let h1 = push_history(h, samples.first());
        assert(h1 =~= bounded_suffix(h.push(samples.first())));
        lemma_history_after_full(h1, samples.drop_first());
        lemma_bounded_suffix_absorbs(h.push(samples.first()), samples.drop_first());
        assert(h.push(samples.first()) + samples.drop_first() =~= h + samples);
    }
}

/// The history bound: after at least a hundred steps, the history holds
/// exactly the hundred most recent samples, in arrival order.
pub proof fn lemma_history_bound(h: Seq<i64>, samples: Seq<i64>)
    requires
        h.len() <= 100,
        samples.len() >= 100,
    ensures
        history_after(h, samples).len() == 100,
        history_after(h, samples) =~= samples.skip(samples.len() - 100),
{
    lemma_history_after_full(h, samples);
    assert(bounded_suffix(h + samples) =~= samples.skip(samples.len() - 100));
}

} // verus!
