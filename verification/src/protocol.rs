//! The command protocol: parsing a request line into a command, and
//! rendering the structured JSON responses the server answers with.
//!
//! A request is a whitespace-tokenized text line; tokens that begin with
//! `--` are stripped before parsing, so a client may pass its own flags
//! through. Every answer is a JSON envelope with a `status` field.

use vstd::prelude::*;
use vstd::string::StringExecFns;
use vstd::string::StrSliceExecFns;

use crate::config::{Config, Strategy, StrategyEntry};
use crate::controller::{
    non_override_name, ov_view, reload_override, unwrap_strategy, FanController,
};
use crate::error::{error_payload, error_prefix, Error};
use crate::smoothing::{effective_spec, moving_average_spec};
use crate::text::{centi_str, centi_to_string, dec_str, str_eq, u64_to_string};

verus! {

/// The whitespace that separates request tokens.
pub open spec fn is_space(c: char) -> bool {
    c == ' ' || c == '\t' || c == '\n' || c == '\r'
}

/// Tokenization with an explicit partial token `cur`: the list of
/// maximal non-space runs of `cur + s`.
pub open spec fn tok_acc(s: Seq<char>, cur: Seq<char>) -> Seq<Seq<char>>
    decreases s.len(),
{
    if s.len() == 0 {
        if cur.len() == 0 {
            Seq::empty()
        } else {
            seq![cur]
        }
    } else if is_space(s.first()) {
        if cur.len() == 0 {
            tok_acc(s.drop_first(), Seq::empty())
        } else {
            seq![cur] + tok_acc(s.drop_first(), Seq::empty())
        }
    } else {
        tok_acc(s.drop_first(), cur.push(s.first()))
    }
}

/// The whitespace-separated tokens of a request line.
pub open spec fn tokens_of(s: Seq<char>) -> Seq<Seq<char>> {
    tok_acc(s, Seq::empty())
}

/// A token carrying a pass-through client flag.
pub open spec fn is_flag_token(t: Seq<char>) -> bool {
    t.len() >= 2 && t[0] == '-' && t[1] == '-'
}

/// The tokens with client flags stripped.
pub open spec fn drop_flags(toks: Seq<Seq<char>>) -> Seq<Seq<char>>
    decreases toks.len(),
{
    if toks.len() == 0 {
        Seq::empty()
    } else if is_flag_token(toks.last()) {
        drop_flags(toks.drop_last())
    } else {
        drop_flags(toks.drop_last()).push(toks.last())
    }
}

/// The tokens a command is parsed from.
pub open spec fn command_tokens(line: Seq<char>) -> Seq<Seq<char>> {
    drop_flags(tokens_of(line))
}

/// The views of a vector of owned tokens.
pub open spec fn token_views(toks: Seq<String>) -> Seq<Seq<char>> {
    toks.map_values(|t: String| t@)
}

/// Splits a request line into its whitespace-separated tokens.
fn tokenize(line: &str) -> (toks: Vec<String>)
    ensures
        token_views(toks@) == tokens_of(line@),
{
    let n = line.unicode_len();
    let mut toks: Vec<String> = Vec::new();
    let mut start: usize = 0;
    let mut i: usize = 0;
    proof {
        assert(line@.skip(0) =~= line@);
        assert(line@.subrange(0, 0) =~= Seq::<char>::empty());
    }
    while i < n
        invariant
            start <= i <= n,
            n == line@.len(),
            tokens_of(line@) == token_views(toks@) + tok_acc(
                line@.skip(i as int),
                line@.subrange(start as int, i as int),
            ),
        decreases n - i,
    {
        let c = line.get_char(i);
        proof {
            assert(line@.skip(i as int).first() == line@[i as int]);
            assert(line@.skip(i as int).drop_first() =~= line@.skip(i + 1));
        }
        if c == ' ' || c == '\t' || c == '\n' || c == '\r' {
            if start < i {
                let token = String::from_str(line.substring_char(start, i));
                toks.push(token);
                proof {
                    assert(token_views(toks@) =~= token_views(toks@.drop_last()) + seq![
                        line@.subrange(start as int, i as int),
                    ]);
                }
            }
            proof {
                assert(line@.subrange(i + 1, i + 1) =~= Seq::<char>::empty());
            }
            start = i + 1;
        } else {
            proof {
                assert(line@.subrange(start as int, i + 1) =~= line@.subrange(
                    start as int,
                    i as int,
                ).push(line@[i as int]));
            }
        }
        i = i + 1;
    }
    proof {
        assert(line@.skip(n as int) =~= Seq::<char>::empty());
    }
    if start < n {
        let token = String::from_str(line.substring_char(start, n));
        toks.push(token);
        proof {
            assert(token_views(toks@) =~= token_views(toks@.drop_last()) + seq![
                line@.subrange(start as int, n as int),
            ]);
        }
    }
    proof {
        assert(token_views(toks@) =~= tokens_of(line@));
    }
    toks
}

/// Drops the pass-through flag tokens.
fn strip_flags(toks: Vec<String>) -> (kept: Vec<String>)
    ensures
        token_views(kept@) == drop_flags(token_views(toks@)),
{
    let n = toks.len();
    let mut kept: Vec<String> = Vec::new();
    let mut i: usize = 0;
    proof {
        assert(token_views(toks@).take(0) =~= Seq::<Seq<char>>::empty());
        assert(token_views(kept@) =~= drop_flags(token_views(toks@).take(0)));
    }
    while i < n
        invariant
            i <= n,
            n == toks@.len(),
            token_views(kept@) == drop_flags(token_views(toks@).take(i as int)),
        decreases n - i,
    {
        proof {
            assert(token_views(toks@).take(i + 1).drop_last() =~= token_views(toks@).take(
                i as int,
            ));
            assert(token_views(toks@).take(i + 1).last() == toks@[i as int]@);
        }
        let t = &toks[i];
        let flagged = t.as_str().unicode_len() >= 2 && t.as_str().get_char(0) == '-'
            && t.as_str().get_char(1) == '-';
        if !flagged {
            kept.push(t.clone());
            proof {
                assert(token_views(kept@) =~= token_views(kept@.drop_last()).push(t@));
            }
        }
        i = i + 1;
    }
    proof {
        assert(token_views(toks@).take(n as int) =~= token_views(toks@));
    }
    kept
}

/// What a `print` command reports.
#[derive(Debug, Clone, PartialEq, Eq, Structural)]
pub enum Selector {
    All,
    Active,
    Current,
    List,
    Speed,
}

/// A request, parsed once from the request line and dispatched on
/// exhaustively.
#[derive(Debug, Clone)]
pub enum Command {
    Use(String),
    Reset,
    Reload,
    Pause,
    Resume,
    Print(Selector),
}

/// What `parse_command` returns for a request line: the command named by
/// the stripped tokens, or the command error the line earns.
pub open spec fn parse_post(line: Seq<char>, r: Result<Command, Error>) -> bool {
    let toks = command_tokens(line);
    if toks.len() == 0 {
        r matches Err(Error::Command(m)) && m@ == "Empty command"@
    } else if toks[0] == "use"@ {
        if toks.len() >= 2 {
            r matches Ok(Command::Use(s)) && s@ == toks[1]
        } else {
            r matches Err(Error::Command(m)) && m@ == "Usage: use <strategy>"@
        }
    } else if toks[0] == "reset"@ {
        r matches Ok(c) && c is Reset
    } else if toks[0] == "reload"@ {
        r matches Ok(c) && c is Reload
    } else if toks[0] == "pause"@ {
        r matches Ok(c) && c is Pause
    } else if toks[0] == "resume"@ {
        r matches Ok(c) && c is Resume
    } else if toks[0] == "print"@ {
        if toks.len() < 2 {
            r matches Ok(c) && c == Command::Print(Selector::All)
        } else if toks[1] == "all"@ {
            r matches Ok(c) && c == Command::Print(Selector::All)
        } else if toks[1] == "active"@ {
            r matches Ok(c) && c == Command::Print(Selector::Active)
        } else if toks[1] == "current"@ {
            r matches Ok(c) && c == Command::Print(Selector::Current)
        } else if toks[1] == "list"@ {
            r matches Ok(c) && c == Command::Print(Selector::List)
        } else if toks[1] == "speed"@ {
            r matches Ok(c) && c == Command::Print(Selector::Speed)
        } else {
            r matches Err(Error::Command(m)) && m@ == "Unknown print selection: "@ + toks[1]
        }
    } else {
        r matches Err(Error::Command(m)) && m@ == "Unknown command: "@ + toks[0]
    }
}

/// Parses a request line: whitespace tokenization, flag stripping, then
/// the verb and its argument.
pub fn parse_command(line: &str) -> (r: Result<Command, Error>)
    ensures
        parse_post(line@, r),
{
    let toks = strip_flags(tokenize(line));
    let ghost tv = command_tokens(line@);
    proof {
        assert(token_views(toks@) == tv);
    }
    if toks.len() == 0 {
        return Err(Error::Command(String::from_str("Empty command")));
    }
    proof {
        assert(toks@[0]@ == tv[0]);
    }
    let verb = toks[0].as_str();
    if str_eq(verb, "use") {
        if toks.len() < 2 {
            Err(Error::Command(String::from_str("Usage: use <strategy>")))
        } else {
            proof {
                assert(toks@[1]@ == tv[1]);
            }
            Ok(Command::Use(toks[1].clone()))
        }
    } else if str_eq(verb, "reset") {
        Ok(Command::Reset)
    } else if str_eq(verb, "reload") {
        Ok(Command::Reload)
    } else if str_eq(verb, "pause") {
        Ok(Command::Pause)
    } else if str_eq(verb, "resume") {
        Ok(Command::Resume)
    } else if str_eq(verb, "print") {
        if toks.len() < 2 {
            return Ok(Command::Print(Selector::All));
        }
        proof {
            assert(toks@[1]@ == tv[1]);
        }
        let sel = toks[1].as_str();
        if str_eq(sel, "all") {
            Ok(Command::Print(Selector::All))
        } else if str_eq(sel, "active") {
            Ok(Command::Print(Selector::Active))
        } else if str_eq(sel, "current") {
            Ok(Command::Print(Selector::Current))
        } else if str_eq(sel, "list") {
            Ok(Command::Print(Selector::List))
        } else if str_eq(sel, "speed") {
            Ok(Command::Print(Selector::Speed))
        } else {
            let mut m = String::from_str("Unknown print selection: ");
            m.append(sel);
            Err(Error::Command(m))
        }
    } else {
        let mut m = String::from_str("Unknown command: ");
        m.append(verb);
        Err(Error::Command(m))
    }
}

/// A JSON boolean.
pub open spec fn bool_seq(b: bool) -> Seq<char> {
    if b {
        "true"@
    } else {
        "false"@
    }
}

fn bool_str(b: bool) -> (r: &'static str)
    ensures
        r@ == bool_seq(b),
{
    if b {
        "true"
    } else {
        "false"
    }
}

/// The response to `use` and `reset`: success and the resolved strategy.
pub open spec fn strategy_success_json(name: Seq<char>) -> Seq<char> {
    "{\"status\": \"success\", \"strategy\": \""@ + name + "\"}"@
}

fn render_strategy_success(name: &str) -> (r: String)
    ensures
        r@ == strategy_success_json(name@),
{
    let mut r = String::from_str("{\"status\": \"success\", \"strategy\": \"");
    r.append(name);
    r.append("\"}");
    r
}

/// The bare success envelope of `reload`, `pause` and `resume`.
pub open spec fn plain_success_json() -> Seq<char> {
    "{\"status\": \"success\"}"@
}

/// The failure envelope: a failed command still gets a structured
/// answer naming its reason.
pub open spec fn failure_json(reason: Seq<char>) -> Seq<char> {
    "{\"status\":\"failure\",\"reason\":\""@ + reason + "\"}"@
}

/// Renders the structured failure response for an error.
pub fn render_failure(e: &Error) -> (r: String)
    ensures
        r@ == failure_json(error_prefix(*e) + error_payload(*e)),
{
    let mut r = String::from_str("{\"status\":\"failure\",\"reason\":\"");
    let m = e.message();
    r.append(m.as_str());
    r.append("\"}");
    r
}

/// The `print current` response.
pub open spec fn current_json(name: Seq<char>, is_default: bool) -> Seq<char> {
    "{\"status\":\"success\",\"strategy\":\""@ + name + "\",\"default\":"@ + bool_seq(is_default)
        + "}"@
}

fn render_current(name: &str, is_default: bool) -> (r: String)
    ensures
        r@ == current_json(name@, is_default),
{
    let mut r = String::from_str("{\"status\":\"success\",\"strategy\":\"");
    r.append(name);
    r.append("\",\"default\":");
    r.append(bool_str(is_default));
    r.append("}");
    r
}

/// The `print active` response.
pub open spec fn active_json(active: bool) -> Seq<char> {
    "{\"status\":\"success\",\"active\":"@ + bool_seq(active) + "}"@
}

/// The `print speed` response; the duty cycle is quoted, as the server
/// always rendered it.
pub open spec fn speed_json(speed: u32) -> Seq<char> {
    "{\"status\":\"success\",\"speed\":\""@ + dec_str(speed as nat) + "\"}"@
}

fn render_speed(speed: u32) -> (r: String)
    ensures
        r@ == speed_json(speed),
{
    let mut r = String::from_str("{\"status\":\"success\",\"speed\":\"");
    let n = u64_to_string(speed as u64);
    r.append(n.as_str());
    r.append("\"}");
    r
}

/// A comma-separated run of quoted names.
pub open spec fn quoted_names(names: Seq<Seq<char>>) -> Seq<char>
    decreases names.len(),
{
    if names.len() == 0 {
        Seq::empty()
    } else if names.len() == 1 {
        "\""@ + names.last() + "\""@
    } else {
        quoted_names(names.drop_last()) + ","@ + "\""@ + names.last() + "\""@
    }
}

/// The configured strategy names, in configuration order.
pub open spec fn names_of(c: Config) -> Seq<Seq<char>> {
    c.strategies@.map_values(|e: StrategyEntry| e.name@)
}

/// The `print list` response.
pub open spec fn list_json(c: Config) -> Seq<char> {
    "{\"status\":\"success\",\"strategies\":["@ + quoted_names(names_of(c)) + "]}"@
}

fn render_list(c: &Config) -> (r: String)
    ensures
        r@ == list_json(*c),
{
    let mut r = String::from_str("{\"status\":\"success\",\"strategies\":[");
    let n = c.strategies.len();
    let mut i: usize = 0;
    proof {
        assert(names_of(*c).take(0) =~= Seq::<Seq<char>>::empty());
        assert(r@ =~= "{\"status\":\"success\",\"strategies\":["@ + quoted_names(
            names_of(*c).take(0),
        ));
    }
    while i < n
        invariant
            i <= n,
            n == c.strategies@.len(),
            r@ == "{\"status\":\"success\",\"strategies\":["@ + quoted_names(
                names_of(*c).take(i as int),
            ),
        decreases n - i,
    {
        proof {
            assert(names_of(*c).take(i + 1).drop_last() =~= names_of(*c).take(i as int));
            assert(names_of(*c).take(i + 1).last() == c.strategies@[i as int].name@);
        }
        if i > 0 {
            r.append(",");
        }
        r.append("\"");
        r.append(c.strategies[i].name.as_str());
        r.append("\"");
        proof {
            assert(r@ =~= "{\"status\":\"success\",\"strategies\":["@ + quoted_names(
                names_of(*c).take(i + 1),
            ));
        }
        i = i + 1;
    }
    proof {
        assert(names_of(*c).take(n as int) =~= names_of(*c));
    }
    r.append("]}");
    r
}

/// One curve point as JSON.
pub open spec fn point_json(p: crate::config::CurvePoint) -> Seq<char> {
    "{\"temp\":"@ + dec_str(p.temp as nat) + ",\"speed\":"@ + dec_str(p.speed as nat) + "}"@
}

/// A comma-separated run of curve points.
pub open spec fn points_json(pts: Seq<crate::config::CurvePoint>) -> Seq<char>
    decreases pts.len(),
{
    if pts.len() == 0 {
        Seq::empty()
    } else if pts.len() == 1 {
        point_json(pts.last())
    } else {
        points_json(pts.drop_last()) + ","@ + point_json(pts.last())
    }
}

/// One strategy as JSON, under the configuration's key names.
pub open spec fn strategy_json(s: Strategy) -> Seq<char> {
    "{\"fanSpeedUpdateFrequency\":"@ + dec_str(s.fan_speed_update_frequency as nat)
        + ",\"movingAverageInterval\":"@ + dec_str(s.moving_average_interval as nat)
        + ",\"speedCurve\":["@ + points_json(s.speed_curve@) + "]}"@
}

fn render_strategy(s: &Strategy) -> (r: String)
    ensures
        r@ == strategy_json(*s),
{
    let mut r = String::from_str("{\"fanSpeedUpdateFrequency\":");
    let f = u64_to_string(s.fan_speed_update_frequency as u64);
    r.append(f.as_str());
    r.append(",\"movingAverageInterval\":");
    let m = u64_to_string(s.moving_average_interval as u64);
    r.append(m.as_str());
    r.append(",\"speedCurve\":[");
    let n = s.speed_curve.len();
    let mut i: usize = 0;
    let ghost prefix = r@;
    proof {
        assert(s.speed_curve@.take(0) =~= Seq::<crate::config::CurvePoint>::empty());
        assert(r@ =~= prefix + points_json(s.speed_curve@.take(0)));
    }
    while i < n
        invariant
            i <= n,
            n == s.speed_curve@.len(),
            r@ == prefix + points_json(s.speed_curve@.take(i as int)),
        decreases n - i,
    {
        proof {
            assert(s.speed_curve@.take(i + 1).drop_last() =~= s.speed_curve@.take(i as int));
            assert(s.speed_curve@.take(i + 1).last() == s.speed_curve@[i as int]);
        }
        if i > 0 {
            r.append(",");
        }
        r.append("{\"temp\":");
        let t = u64_to_string(s.speed_curve[i].temp as u64);
        r.append(t.as_str());
        r.append(",\"speed\":");
        let v = u64_to_string(s.speed_curve[i].speed as u64);
        r.append(v.as_str());
        r.append("}");
        proof {
            assert(r@ =~= prefix + points_json(s.speed_curve@.take(i + 1)));
        }
        i = i + 1;
    }
    proof {
        assert(s.speed_curve@.take(n as int) =~= s.speed_curve@);
    }
    r.append("]}");
    r
}

/// A comma-separated run of named strategies.
pub open spec fn entries_json(es: Seq<StrategyEntry>) -> Seq<char>
    decreases es.len(),
{
    if es.len() == 0 {
        Seq::empty()
    } else if es.len() == 1 {
        "\""@ + es.last().name@ + "\":"@ + strategy_json(es.last().strategy)
    } else {
        entries_json(es.drop_last()) + ","@ + "\""@ + es.last().name@ + "\":"@ + strategy_json(
            es.last().strategy,
        )
    }
}

/// The whole configuration as JSON, in its wire spelling.
pub open spec fn config_json(c: Config) -> Seq<char> {
    "{\"defaultStrategy\":\""@ + c.default_strategy@ + "\",\"strategyOnDischarging\":\""@
        + c.strategy_on_discharging@ + "\",\"strategies\":{"@ + entries_json(c.strategies@)
        + "}}"@
}

fn render_config(c: &Config) -> (r: String)
    ensures
        r@ == config_json(*c),
{
    let mut r = String::from_str("{\"defaultStrategy\":\"");
    r.append(c.default_strategy.as_str());
    r.append("\",\"strategyOnDischarging\":\"");
    r.append(c.strategy_on_discharging.as_str());
    r.append("\",\"strategies\":{");
    let n = c.strategies.len();
    let mut i: usize = 0;
    let ghost prefix = r@;
    proof {
        assert(c.strategies@.take(0) =~= Seq::<StrategyEntry>::empty());
        assert(r@ =~= prefix + entries_json(c.strategies@.take(0)));
    }
    while i < n
        invariant
            i <= n,
            n == c.strategies@.len(),
            r@ == prefix + entries_json(c.strategies@.take(i as int)),
        decreases n - i,
    {
        proof {
            assert(c.strategies@.take(i + 1).drop_last() =~= c.strategies@.take(i as int));
            assert(c.strategies@.take(i + 1).last() == c.strategies@[i as int]);
        }
        if i > 0 {
            r.append(",");
        }
        r.append("\"");
        r.append(c.strategies[i].name.as_str());
        r.append("\":");
        let s = render_strategy(&c.strategies[i].strategy);
        r.append(s.as_str());
        proof {
            assert(r@ =~= prefix + entries_json(c.strategies@.take(i + 1)));
        }
        i = i + 1;
    }
    proof {
        assert(c.strategies@.take(n as int) =~= c.strategies@);
    }
    r.append("}}");
    r
}

/// The `print all` response: the full status snapshot.
pub open spec fn all_json(s: FanController, sample: i64, on_ac: bool) -> Seq<char> {
    let name = s.resolved_name(on_ac);
    let strat = unwrap_strategy(s.resolved_lookup(on_ac));
    let avg = moving_average_spec(s.temp_history@, strat.moving_average_interval, sample);
    let eff = effective_spec(s.temp_history@, sample, strat.moving_average_interval);
    "{\"status\":\"success\",\"strategy\":\""@ + name + "\",\"default\":"@ + bool_seq(
        s.overwritten_strategy is None,
    ) + ",\"speed\":\""@ + dec_str(s.current_speed as nat) + "\",\"temperature\":\""@ + centi_str(
        sample as int,
    ) + "\",\"movingAverageTemperature\":\""@ + centi_str(avg) + "\",\"effectiveTemperature\":\""@
        + centi_str(eff) + "\",\"active\":"@ + bool_seq(s.active) + ",\"configuration\":"@
        + config_json(s.config) + "}"@
}

fn render_all(ctrl: &FanController, sample: i64, on_ac: bool) -> (r: String)
    requires
        ctrl.wf(),
    ensures
        r@ == all_json(*ctrl, sample, on_ac),
{
    let interval = ctrl.get_current_strategy(on_ac).moving_average_interval;
    let avg = ctrl.get_moving_average_temperature(interval, sample);
    let eff = ctrl.get_effective_temperature(sample, interval);
    let name = ctrl.get_current_strategy_name(on_ac);

    let mut r = String::from_str("{\"status\":\"success\",\"strategy\":\"");
    r.append(name.as_str());
    r.append("\",\"default\":");
    r.append(bool_str(!ctrl.is_overwritten()));
    r.append(",\"speed\":\"");
    let speed = u64_to_string(ctrl.get_current_speed() as u64);
    r.append(speed.as_str());
    r.append("\",\"temperature\":\"");
    let t = centi_to_string(sample);
    r.append(t.as_str());
    r.append("\",\"movingAverageTemperature\":\"");
    let a = centi_to_string(avg);
    r.append(a.as_str());
    r.append("\",\"effectiveTemperature\":\"");
    let e = centi_to_string(eff);
    r.append(e.as_str());
    r.append("\",\"active\":");
    r.append(bool_str(ctrl.is_active()));
    r.append(",\"configuration\":");
    let cfg = render_config(ctrl.get_config());
    r.append(cfg.as_str());
    r.append("}");
    r
}

/// The readings a command may need, gathered by the caller before the
/// command takes the controller: the power source, a fresh temperature
/// sample (hundredths of a degree), and, for `reload`, the freshly
/// loaded and validated configuration.
pub struct CommandEnv {
    pub on_ac: bool,
    pub sample: i64,
    pub new_config: Option<Config>,
}

/// The configuration a `Some` carries.
pub open spec fn unwrap_config(o: Option<Config>) -> Config {
    match o {
        Some(c) => c,
        None => arbitrary(),
    }
}

/// Everything `process_command` does: how the controller state moves
/// and what answer the request line earns, by command.
pub open spec fn process_post(
    s0: FanController,
    s1: FanController,
    line: Seq<char>,
    env: CommandEnv,
    r: Result<String, Error>,
) -> bool {
    let toks = command_tokens(line);
    if toks.len() == 0 {
        s1 == s0 && (r matches Err(Error::Command(m)) && m@ == "Empty command"@)
    } else if toks[0] == "use"@ {
        if toks.len() < 2 {
            s1 == s0 && (r matches Err(Error::Command(m)) && m@ == "Usage: use <strategy>"@)
        } else if s0.config.spec_contains(toks[1]) {
            &&& s1.config == s0.config
            &&& ov_view(s1.overwritten_strategy) == Some(toks[1])
            &&& s1.timecount == 0
            &&& s1.temp_history == s0.temp_history
            &&& s1.current_speed == s0.current_speed
            &&& s1.active == s0.active
            &&& r matches Ok(resp) && resp@ == strategy_success_json(toks[1])
        } else {
            s1 == s0 && (r matches Err(Error::Strategy(m)) && m@ == "Unknown strategy: "@
                + toks[1])
        }
    } else if toks[0] == "reset"@ {
        &&& s1.config == s0.config
        &&& s1.overwritten_strategy is None
        &&& s1.timecount == 0
        &&& s1.temp_history == s0.temp_history
        &&& s1.current_speed == s0.current_speed
        &&& s1.active == s0.active
        &&& r matches Ok(resp) && resp@ == strategy_success_json(
            non_override_name(s0.config, env.on_ac),
        )
    } else if toks[0] == "reload"@ {
        &&& s1.config == unwrap_config(env.new_config)
        &&& s1.overwritten_strategy == reload_override(
            s0.overwritten_strategy,
            unwrap_config(env.new_config),
        )
        &&& s1.timecount == s0.timecount
        &&& s1.temp_history == s0.temp_history
        &&& s1.current_speed == s0.current_speed
        &&& s1.active == s0.active
        &&& r matches Ok(resp) && resp@ == plain_success_json()
    } else if toks[0] == "pause"@ {
        &&& !s1.active
        &&& s1.config == s0.config
        &&& s1.overwritten_strategy == s0.overwritten_strategy
        &&& s1.timecount == s0.timecount
        &&& s1.temp_history == s0.temp_history
        &&& s1.current_speed == s0.current_speed
        &&& r matches Ok(resp) && resp@ == plain_success_json()
    } else if toks[0] == "resume"@ {
        &&& s1.active
        &&& s1.config == s0.config
        &&& s1.overwritten_strategy == s0.overwritten_strategy
        &&& s1.timecount == s0.timecount
        &&& s1.temp_history == s0.temp_history
        &&& s1.current_speed == s0.current_speed
        &&& r matches Ok(resp) && resp@ == plain_success_json()
    } else if toks[0] == "print"@ {
        s1 == s0 && if toks.len() < 2 || toks[1] == "all"@ {
            r matches Ok(resp) && resp@ == all_json(s0, env.sample, env.on_ac)
        } else if toks[1] == "active"@ {
            r matches Ok(resp) && resp@ == active_json(s0.active)
        } else if toks[1] == "current"@ {
            r matches Ok(resp) && resp@ == current_json(
                s0.resolved_name(env.on_ac),
                s0.overwritten_strategy is None,
            )
        } else if toks[1] == "list"@ {
            r matches Ok(resp) && resp@ == list_json(s0.config)
        } else if toks[1] == "speed"@ {
            r matches Ok(resp) && resp@ == speed_json(s0.current_speed)
        } else {
            r matches Err(Error::Command(m)) && m@ == "Unknown print selection: "@ + toks[1]
        }
    } else {
        s1 == s0 && (r matches Err(Error::Command(m)) && m@ == "Unknown command: "@ + toks[0])
    }
}

/// Whether a request line names the `reload` command, whose execution
/// needs a freshly loaded configuration.
pub open spec fn wants_reload(line: Seq<char>) -> bool {
    let toks = command_tokens(line);
    toks.len() > 0 && toks[0] == "reload"@
}

/// Executes one request line against the controller: parses it, applies
/// the command, and returns the response to send, or the error whose
/// failure envelope the caller renders. The caller holds the controller
/// exclusively for the whole call.
pub fn process_command(controller: &mut FanController, command: &str, env: CommandEnv) -> (r:
    Result<String, Error>)
    requires
        old(controller).wf(),
        wants_reload(command@) ==> env.new_config is Some,
        env.new_config matches Some(c) ==> c.spec_wf(),
    ensures
        final(controller).wf(),
        process_post(*old(controller), *final(controller), command@, env, r),
{
    let parsed = parse_command(command);
    let cmd = match parsed {
        Ok(c) => c,
        Err(e) => {
            return Err(e);
        },
    };
    match cmd {
        Command::Use(name) => {
            match controller.overwrite_strategy(name.as_str()) {
                Ok(_) => Ok(render_strategy_success(name.as_str())),
                Err(e) => Err(e),
            }
        },
        Command::Reset => {
            controller.clear_overwritten_strategy();
            let name = controller.get_current_strategy_name(env.on_ac);
            Ok(render_strategy_success(name.as_str()))
        },
        Command::Reload => {
            let config = match env.new_config {
                Some(c) => c,
                None => unreached(),
            };
            controller.reload_config(config);
            Ok(String::from_str("{\"status\": \"success\"}"))
        },
        Command::Pause => {
            controller.pause();
            Ok(String::from_str("{\"status\": \"success\"}"))
        },
        Command::Resume => {
            controller.resume();
            Ok(String::from_str("{\"status\": \"success\"}"))
        },
        Command::Print(sel) => match sel {
            Selector::All => Ok(render_all(controller, env.sample, env.on_ac)),
            Selector::Active => {
                let mut r = String::from_str("{\"status\":\"success\",\"active\":");
                r.append(bool_str(controller.is_active()));
                r.append("}");
                Ok(r)
            },
            Selector::Current => {
                let name = controller.get_current_strategy_name(env.on_ac);
                Ok(render_current(name.as_str(), !controller.is_overwritten()))
            },
            Selector::List => Ok(render_list(controller.get_config())),
            Selector::Speed => Ok(render_speed(controller.get_current_speed())),
        },
    }
}

} // verus!
