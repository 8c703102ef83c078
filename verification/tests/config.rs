use fw_fanctrl::config::{Config, CurvePoint, Strategy, StrategyEntry};

fn create_valid_config() -> Config {
    Config {
        default_strategy: "performance".to_string(),
        strategy_on_discharging: "balanced".to_string(),
        strategies: vec![
            StrategyEntry {
                name: "performance".to_string(),
                strategy: Strategy {
                    fan_speed_update_frequency: 2,
                    moving_average_interval: 30,
                    speed_curve: vec![
                        CurvePoint { temp: 0, speed: 0 },
                        CurvePoint {
                            temp: 50,
                            speed: 30,
                        },
                        CurvePoint {
                            temp: 70,
                            speed: 60,
                        },
                        CurvePoint {
                            temp: 90,
                            speed: 100,
                        },
                    ],
                },
            },
            StrategyEntry {
                name: "balanced".to_string(),
                strategy: Strategy {
                    fan_speed_update_frequency: 5,
                    moving_average_interval: 60,
                    speed_curve: vec![
                        CurvePoint { temp: 0, speed: 0 },
                        CurvePoint {
                            temp: 60,
                            speed: 0,
                        },
                        CurvePoint {
                            temp: 80,
                            speed: 50,
                        },
                        CurvePoint {
                            temp: 95,
                            speed: 100,
                        },
                    ],
                },
            },
        ],
    }
}

#[test]
fn test_config_missing_default_strategy() {
    let config = Config {
        default_strategy: "missing".to_string(),
        strategy_on_discharging: "".to_string(),
        strategies: vec![StrategyEntry {
            name: "performance".to_string(),
            strategy: Strategy {
                fan_speed_update_frequency: 2,
                moving_average_interval: 30,
                speed_curve: vec![CurvePoint { temp: 0, speed: 0 }],
            },
        }],
    };
    let result = config.validate();
    assert!(result.is_err());
    assert!(result
        .unwrap_err()
        .message()
        .contains("not a valid strategy"));
}

#[test]
fn test_config_empty_speed_curve() {
    let config = Config {
        default_strategy: "empty".to_string(),
        strategy_on_discharging: "".to_string(),
        strategies: vec![StrategyEntry {
            name: "empty".to_string(),
            strategy: Strategy {
                fan_speed_update_frequency: 2,
                moving_average_interval: 30,
                speed_curve: vec![],
            },
        }],
    };
    let result = config.validate();
    assert!(result.is_err());
    assert!(result
        .unwrap_err()
        .message()
        .contains("has an empty speed curve"));
}

#[test]
fn test_config_unknown_discharging_strategy() {
    let config = Config {
        default_strategy: "performance".to_string(),
        strategy_on_discharging: "missing".to_string(),
        strategies: vec![StrategyEntry {
            name: "performance".to_string(),
            strategy: Strategy {
                fan_speed_update_frequency: 2,
                moving_average_interval: 30,
                speed_curve: vec![CurvePoint { temp: 0, speed: 0 }],
            },
        }],
    };
    let result = config.validate();
    assert!(result.is_err());
    let message = result.unwrap_err().message();
    assert!(message.contains("Discharging strategy"));
    assert!(message.contains("not a valid strategy"));
}

#[test]
fn test_validate_accepts_valid_config() {
    let config = create_valid_config();
    assert!(config.validate().is_ok());
}

#[test]
fn test_strategy_names() {
    let config = create_valid_config();
    let names = config.strategy_names();
    assert!(names.contains(&"performance".to_string()));
    assert!(names.contains(&"balanced".to_string()));
    assert_eq!(names.len(), 2);
}

#[test]
fn test_get_strategy() {
    let config = create_valid_config();
    let strategy = config.get_strategy("performance");
    assert!(strategy.is_some());
    assert_eq!(strategy.unwrap().fan_speed_update_frequency, 2);
}

#[test]
fn test_get_default_strategy() {
    let config = create_valid_config();
    let strategy = config.get_default_strategy();
    assert_eq!(strategy.fan_speed_update_frequency, 2);
}

#[test]
fn test_get_discharging_strategy() {
    let config = create_valid_config();
    let strategy = config.get_discharging_strategy();
    assert_eq!(strategy.fan_speed_update_frequency, 5);
}

#[test]
fn test_discharging_fallback_to_default() {
    let config = Config {
        default_strategy: "performance".to_string(),
        strategy_on_discharging: "".to_string(),
        strategies: vec![StrategyEntry {
            name: "performance".to_string(),
            strategy: Strategy {
                fan_speed_update_frequency: 2,
                moving_average_interval: 30,
                speed_curve: vec![CurvePoint { temp: 0, speed: 0 }],
            },
        }],
    };
    let strategy = config.get_discharging_strategy();
    assert_eq!(strategy.fan_speed_update_frequency, 2);
}

#[test]
fn test_get_strategy_unknown_name() {
    let config = create_valid_config();
    assert!(config.get_strategy("quiet").is_none());
}
