use fw_fanctrl::config::{Config, CurvePoint, Strategy, StrategyEntry};
use fw_fanctrl::controller::FanController;
use fw_fanctrl::error::Error;
use fw_fanctrl::protocol::{process_command, render_failure, CommandEnv};

fn entry(name: &str, frequency: u32, interval: u32, curve: Vec<CurvePoint>) -> StrategyEntry {
    StrategyEntry {
        name: name.to_string(),
        strategy: Strategy {
            fan_speed_update_frequency: frequency,
            moving_average_interval: interval,
            speed_curve: curve,
        },
    }
}

fn test_config() -> Config {
    Config {
        default_strategy: "performance".to_string(),
        strategy_on_discharging: "".to_string(),
        strategies: vec![
            entry(
                "performance",
                1,
                0,
                vec![
                    CurvePoint {
                        temp: 50,
                        speed: 15,
                    },
                    CurvePoint {
                        temp: 70,
                        speed: 100,
                    },
                ],
            ),
            entry(
                "balanced",
                2,
                5,
                vec![CurvePoint {
                    temp: 0,
                    speed: 20,
                }],
            ),
        ],
    }
}

fn env() -> CommandEnv {
    CommandEnv {
        on_ac: true,
        sample: 4500,
        new_config: None,
    }
}

fn controller() -> FanController {
    FanController::new(test_config(), None)
}

#[test]
fn test_parse_accepts_any_whitespace() {
    let mut ctrl = controller();
    let response = process_command(&mut ctrl, "\tuse\n balanced \r\n", env()).unwrap();
    assert_eq!(
        response,
        "{\"status\": \"success\", \"strategy\": \"balanced\"}"
    );
}

#[test]
fn test_parse_strips_client_flags() {
    let mut ctrl = controller();
    let response = process_command(&mut ctrl, "--output-format=json print speed", env()).unwrap();
    assert_eq!(response, "{\"status\":\"success\",\"speed\":\"0\"}");
}

#[test]
fn test_empty_command_is_rejected() {
    let mut ctrl = controller();
    let result = process_command(&mut ctrl, "", env());
    assert_eq!(
        result.unwrap_err().message(),
        "Invalid command: Empty command"
    );
    let result = process_command(&mut ctrl, "   \t  ", env());
    assert_eq!(
        result.unwrap_err().message(),
        "Invalid command: Empty command"
    );
}

#[test]
fn test_unknown_command_is_rejected() {
    let mut ctrl = controller();
    let result = process_command(&mut ctrl, "launch", env());
    assert_eq!(
        result.unwrap_err().message(),
        "Invalid command: Unknown command: launch"
    );
}

#[test]
fn test_use_requires_argument() {
    let mut ctrl = controller();
    let result = process_command(&mut ctrl, "use", env());
    assert_eq!(
        result.unwrap_err().message(),
        "Invalid command: Usage: use <strategy>"
    );
}

#[test]
fn test_use_unknown_strategy_fails() {
    let mut ctrl = controller();
    let result = process_command(&mut ctrl, "use quiet", env());
    assert_eq!(
        result.unwrap_err().message(),
        "Strategy error: Unknown strategy: quiet"
    );
    assert!(!ctrl.is_overwritten());
}

#[test]
fn test_use_then_print_current() {
    let mut ctrl = controller();
    let response = process_command(&mut ctrl, "use balanced", env()).unwrap();
    assert_eq!(
        response,
        "{\"status\": \"success\", \"strategy\": \"balanced\"}"
    );
    let response = process_command(&mut ctrl, "print current", env()).unwrap();
    assert_eq!(
        response,
        "{\"status\":\"success\",\"strategy\":\"balanced\",\"default\":false}"
    );
}

#[test]
fn test_reset_then_print_current_is_default() {
    let mut ctrl = controller();
    process_command(&mut ctrl, "use balanced", env()).unwrap();
    let response = process_command(&mut ctrl, "reset", env()).unwrap();
    assert_eq!(
        response,
        "{\"status\": \"success\", \"strategy\": \"performance\"}"
    );
    let response = process_command(&mut ctrl, "print current", env()).unwrap();
    assert_eq!(
        response,
        "{\"status\":\"success\",\"strategy\":\"performance\",\"default\":true}"
    );
}

#[test]
fn test_pause_and_resume() {
    let mut ctrl = controller();
    let response = process_command(&mut ctrl, "pause", env()).unwrap();
    assert_eq!(response, "{\"status\": \"success\"}");
    assert!(!ctrl.is_active());
    let response = process_command(&mut ctrl, "print active", env()).unwrap();
    assert_eq!(response, "{\"status\":\"success\",\"active\":false}");
    let response = process_command(&mut ctrl, "resume", env()).unwrap();
    assert_eq!(response, "{\"status\": \"success\"}");
    assert!(ctrl.is_active());
}

#[test]
fn test_print_list() {
    let mut ctrl = controller();
    let response = process_command(&mut ctrl, "print list", env()).unwrap();
    assert_eq!(
        response,
        "{\"status\":\"success\",\"strategies\":[\"performance\",\"balanced\"]}"
    );
}

#[test]
fn test_print_unknown_selector() {
    let mut ctrl = controller();
    let result = process_command(&mut ctrl, "print everything", env());
    assert_eq!(
        result.unwrap_err().message(),
        "Invalid command: Unknown print selection: everything"
    );
}

#[test]
fn test_print_speed_reflects_applied_duty() {
    let mut ctrl = controller();
    ctrl.step(6000, true);
    let response = process_command(&mut ctrl, "print speed", env()).unwrap();
    assert_eq!(response, "{\"status\":\"success\",\"speed\":\"55\"}");
}

#[test]
fn test_print_defaults_to_all() {
    let mut ctrl = controller();
    let with_selector = process_command(&mut ctrl, "print all", env()).unwrap();
    let without_selector = process_command(&mut ctrl, "print", env()).unwrap();
    assert_eq!(with_selector, without_selector);
}

#[test]
fn test_print_all_snapshot() {
    let mut ctrl = FanController::new(
        Config {
            default_strategy: "fixed".to_string(),
            strategy_on_discharging: "".to_string(),
            strategies: vec![entry(
                "fixed",
                1,
                0,
                vec![CurvePoint {
                    temp: 0,
                    speed: 40,
                }],
            )],
        },
        None,
    );
    ctrl.step(4000, true);
    let response = process_command(
        &mut ctrl,
        "print all",
        CommandEnv {
            on_ac: true,
            sample: 4300,
            new_config: None,
        },
    )
    .unwrap();
    // Moving average 40, sample 43: effective (2 * 40 + 43) / 3 = 41.
    let expected = "{\"status\":\"success\",\"strategy\":\"fixed\",\"default\":true,\"speed\":\"40\",\"temperature\":\"43\",\"movingAverageTemperature\":\"40\",\"effectiveTemperature\":\"41\",\"active\":true,\"configuration\":{\"defaultStrategy\":\"fixed\",\"strategyOnDischarging\":\"\",\"strategies\":{\"fixed\":{\"fanSpeedUpdateFrequency\":1,\"movingAverageInterval\":0,\"speedCurve\":[{\"temp\":0,\"speed\":40}]}}}}";
    assert_eq!(response, expected);
}

#[test]
fn test_reload_applies_new_config() {
    let mut ctrl = controller();
    process_command(&mut ctrl, "use balanced", env()).unwrap();

    let new_config = Config {
        default_strategy: "performance".to_string(),
        strategy_on_discharging: "".to_string(),
        strategies: vec![entry(
            "performance",
            1,
            0,
            vec![CurvePoint { temp: 0, speed: 0 }],
        )],
    };
    let response = process_command(
        &mut ctrl,
        "reload",
        CommandEnv {
            on_ac: true,
            sample: 4500,
            new_config: Some(new_config),
        },
    )
    .unwrap();
    assert_eq!(response, "{\"status\": \"success\"}");
    // The override named a strategy the new configuration lacks: cleared.
    assert!(!ctrl.is_overwritten());
    let response = process_command(&mut ctrl, "print current", env()).unwrap();
    assert_eq!(
        response,
        "{\"status\":\"success\",\"strategy\":\"performance\",\"default\":true}"
    );
}

#[test]
fn test_render_failure_envelope() {
    let e = Error::Strategy("Unknown strategy: quiet".to_string());
    assert_eq!(
        render_failure(&e),
        "{\"status\":\"failure\",\"reason\":\"Strategy error: Unknown strategy: quiet\"}"
    );
}

#[test]
fn test_extra_tokens_are_ignored() {
    // Only the verb (and its one argument) matter; trailing tokens do
    // not change the command.
    let mut ctrl = controller();
    let response = process_command(&mut ctrl, "reset now please", env()).unwrap();
    assert_eq!(
        response,
        "{\"status\": \"success\", \"strategy\": \"performance\"}"
    );
    let response = process_command(&mut ctrl, "use balanced tomorrow", env()).unwrap();
    assert_eq!(
        response,
        "{\"status\": \"success\", \"strategy\": \"balanced\"}"
    );
}
