use fw_fanctrl::config::{Config, CurvePoint, Strategy, StrategyEntry};
use fw_fanctrl::controller::FanController;

fn entry(name: &str, frequency: u32, interval: u32, curve: Vec<CurvePoint>) -> StrategyEntry {
    StrategyEntry {
        name: name.to_string(),
        strategy: Strategy {
            fan_speed_update_frequency: frequency,
            moving_average_interval: interval,
            speed_curve: curve,
        },
    }
}

fn test_config() -> Config {
    Config {
        default_strategy: "performance".to_string(),
        strategy_on_discharging: "balanced".to_string(),
        strategies: vec![
            entry(
                "performance",
                1,
                0,
                vec![
                    CurvePoint {
                        temp: 50,
                        speed: 15,
                    },
                    CurvePoint {
                        temp: 70,
                        speed: 100,
                    },
                ],
            ),
            entry(
                "balanced",
                2,
                0,
                vec![CurvePoint {
                    temp: 0,
                    speed: 20,
                }],
            ),
        ],
    }
}

#[test]
fn test_strategy_resolution_by_power_source() {
    let ctrl = FanController::new(test_config(), None);
    assert_eq!(ctrl.get_current_strategy_name(true), "performance");
    assert_eq!(ctrl.get_current_strategy_name(false), "balanced");
    assert!(!ctrl.is_overwritten());
}

#[test]
fn test_discharging_resolution_falls_back_to_default() {
    let mut config = test_config();
    config.strategy_on_discharging = "".to_string();
    let ctrl = FanController::new(config, None);
    assert_eq!(ctrl.get_current_strategy_name(false), "performance");
}

#[test]
fn test_override_wins_over_power_source() {
    let mut ctrl = FanController::new(test_config(), None);
    ctrl.overwrite_strategy("balanced").unwrap();
    assert!(ctrl.is_overwritten());
    assert_eq!(ctrl.get_current_strategy_name(true), "balanced");
    assert_eq!(ctrl.get_current_strategy_name(false), "balanced");
}

#[test]
fn test_overwrite_unknown_strategy_is_rejected() {
    let mut ctrl = FanController::new(test_config(), None);
    let result = ctrl.overwrite_strategy("quiet");
    assert!(result.is_err());
    assert_eq!(
        result.unwrap_err().message(),
        "Strategy error: Unknown strategy: quiet"
    );
    assert!(!ctrl.is_overwritten());
}

#[test]
fn test_override_then_reset_matches_never_overridden() {
    let fresh = FanController::new(test_config(), None);
    let mut ctrl = FanController::new(test_config(), None);
    ctrl.overwrite_strategy("balanced").unwrap();
    ctrl.clear_overwritten_strategy();
    for on_ac in [true, false] {
        assert_eq!(
            ctrl.get_current_strategy_name(on_ac),
            fresh.get_current_strategy_name(on_ac)
        );
    }
    assert_eq!(ctrl.is_overwritten(), fresh.is_overwritten());
}

#[test]
fn test_initial_strategy_empty_means_none() {
    let ctrl = FanController::new(test_config(), Some("".to_string()));
    assert!(!ctrl.is_overwritten());
    let ctrl2 = FanController::new(test_config(), Some("balanced".to_string()));
    assert!(ctrl2.is_overwritten());
    assert_eq!(ctrl2.get_current_strategy_name(true), "balanced");
}

#[test]
fn test_reload_clears_stale_override() {
    let mut ctrl = FanController::new(test_config(), None);
    ctrl.overwrite_strategy("balanced").unwrap();

    let mut new_config = test_config();
    new_config.strategy_on_discharging = "".to_string();
    new_config.strategies.remove(1);
    ctrl.reload_config(new_config);

    assert!(!ctrl.is_overwritten());
    assert_eq!(ctrl.get_current_strategy_name(true), "performance");
    assert_eq!(ctrl.get_current_strategy_name(false), "performance");
}

#[test]
fn test_reload_keeps_valid_override() {
    let mut ctrl = FanController::new(test_config(), None);
    ctrl.overwrite_strategy("balanced").unwrap();
    ctrl.reload_config(test_config());
    assert!(ctrl.is_overwritten());
    assert_eq!(ctrl.get_current_strategy_name(true), "balanced");
}

#[test]
fn test_step_computes_and_records_duty() {
    let mut ctrl = FanController::new(test_config(), None);
    // Effective temperature of an empty history is the sample: 60
    // degrees interpolates to 15 + 10 * 4 = 55 on the performance curve.
    let duty = ctrl.step(6000, true);
    assert_eq!(duty, Some(55));
    assert_eq!(ctrl.get_current_speed(), 55);
    assert_eq!(ctrl.temp_history, vec![6000]);
}

#[test]
fn test_step_respects_update_frequency() {
    let mut ctrl = FanController::new(test_config(), None);
    // The balanced strategy recomputes every second tick.
    ctrl.overwrite_strategy("balanced").unwrap();
    let first = ctrl.step(6000, true);
    assert_eq!(first, Some(20));
    let second = ctrl.step(6000, true);
    assert_eq!(second, None);
    let third = ctrl.step(6000, true);
    assert_eq!(third, Some(20));
}

#[test]
fn test_step_when_paused_writes_nothing() {
    let mut ctrl = FanController::new(test_config(), None);
    ctrl.pause();
    assert!(!ctrl.is_active());
    let duty = ctrl.step(6000, true);
    assert_eq!(duty, None);
    assert_eq!(ctrl.get_current_speed(), 0);
    // The sample is still recorded.
    assert_eq!(ctrl.temp_history, vec![6000]);
    ctrl.resume();
    assert!(ctrl.is_active());
    let duty = ctrl.step(6000, true);
    assert_eq!(duty, Some(55));
}

#[test]
fn test_history_bound_keeps_last_hundred_samples() {
    let mut ctrl = FanController::new(test_config(), None);
    for i in 0..150i64 {
        ctrl.step(1000 + i, true);
        assert!(ctrl.temp_history.len() <= 100);
    }
    assert_eq!(ctrl.temp_history.len(), 100);
    let expected: Vec<i64> = (50..150).map(|i| 1000 + i).collect();
    assert_eq!(ctrl.temp_history, expected);
}

#[test]
fn test_set_speed_records_duty() {
    let mut ctrl = FanController::new(test_config(), None);
    ctrl.set_speed(42);
    assert_eq!(ctrl.get_current_speed(), 42);
}

#[test]
fn test_moving_average_accessors() {
    let mut ctrl = FanController::new(test_config(), None);
    for _ in 0..4 {
        ctrl.step(4000, true);
    }
    assert_eq!(ctrl.get_moving_average_temperature(0, 0), 4000);
    assert_eq!(ctrl.get_effective_temperature(7000, 0), 5000);
}
