use hyprlux::activation::{
    choice_hash, choice_render, select_shader, Action, ActivationController, Choice,
};
use hyprlux::config::{
    load_config_and_shaders, Config, ConfigData, ConfigError, NightLightConfig, VibranceConfig,
};
use hyprlux::reload::{accept_reload, ConfigReloader};
use hyprlux::shaders::night_light;
use hyprlux::shaders::vibrance;
use hyprlux::utils::TimeOfDay;

fn t(s: &str) -> TimeOfDay {
    TimeOfDay::parse(s).unwrap()
}

fn night_config(start: &str, end: &str, temperature: i32) -> NightLightConfig {
    NightLightConfig {
        enabled: true,
        start_time: Some(start.to_string()),
        end_time: Some(end.to_string()),
        temperature,
    }
}

fn vib(class: &str, title: &str, strength: i32) -> VibranceConfig {
    VibranceConfig {
        window_class: class.to_string(),
        window_title: title.to_string(),
        strength,
    }
}

fn night_only() -> ConfigData {
    let cfg = Config {
        night_light: night_config("22:00", "03:00", 3500),
        vibrance_configs: Vec::new(),
        hot_reload: None,
    };
    load_config_and_shaders(Some(cfg)).unwrap()
}

fn complete() -> ConfigData {
    let cfg = Config {
        night_light: night_config("22:00", "03:00", 3500),
        vibrance_configs: vec![vib("^steam_app_.*$", "", 100)],
        hot_reload: Some(true),
    };
    load_config_and_shaders(Some(cfg)).unwrap()
}

#[test]
fn defaults() {
    let c = Config::default();
    assert!(!c.night_light.enabled);
    assert_eq!(c.night_light.temperature, 3500);
    assert!(c.night_light.start_time.is_none());
    assert!(c.vibrance_configs.is_empty());
    let v = VibranceConfig::default();
    assert_eq!(v.window_class, "");
    assert_eq!(v.window_title, "");
    assert_eq!(v.strength, 0);
}

#[test]
fn absent_config_gives_no_rules() {
    let d = load_config_and_shaders(None).unwrap();
    assert!(d.night_light_shader.is_none());
    assert!(d.vibrance_shaders.is_empty());
    assert!(!d.hot_reload);
}

#[test]
fn config_builds_rules() {
    let d = complete();
    let n = d.night_light_shader.unwrap();
    assert_eq!(n.start_time, t("22:00"));
    assert_eq!(n.end_time, t("03:00"));
    assert_eq!(n.temperature, 3500);
    assert_eq!(d.vibrance_shaders.len(), 1);
    assert_eq!(d.vibrance_shaders[0].strength, 100);
    assert!(d.hot_reload);
}

#[test]
fn config_without_times_has_no_night_light() {
    let mut cfg = Config::default();
    cfg.night_light.start_time = Some("22:00".to_string());
    let d = load_config_and_shaders(Some(cfg)).unwrap();
    assert!(d.night_light_shader.is_none());
}

#[test]
fn config_error_invalid_time() {
    let cfg = Config {
        night_light: night_config("22:00", "3 am", 3500),
        vibrance_configs: Vec::new(),
        hot_reload: None,
    };
    assert_eq!(load_config_and_shaders(Some(cfg)).unwrap_err(), ConfigError::InvalidTime);
}

#[test]
fn config_error_empty_window() {
    let cfg = Config {
        night_light: night_config("22:00", "22:00", 3500),
        vibrance_configs: Vec::new(),
        hot_reload: None,
    };
    assert_eq!(load_config_and_shaders(Some(cfg)).unwrap_err(), ConfigError::EmptyWindow);
}

#[test]
fn config_error_invalid_pattern() {
    let cfg = Config {
        night_light: NightLightConfig::default(),
        vibrance_configs: vec![vib("firefox", "", 100), vib("", "([", 100)],
        hot_reload: None,
    };
    assert_eq!(load_config_and_shaders(Some(cfg)).unwrap_err(), ConfigError::InvalidPattern);
}

#[test]
fn night_light_scenario() {
    let d = night_only();
    let class = "kitty".to_string();
    let title = "shell".to_string();
    let mut ctl = ActivationController::new(None);

    let a = ctl.decide(&d, &class, &title, t("23:00"));
    assert_eq!(a, Action::Apply(Choice::NightLight));
    assert_eq!(choice_hash(&d, Choice::NightLight), "night_3500");
    assert!(choice_render(&d, Choice::NightLight)
        .unwrap()
        .contains("const float temperature = 3500.0;"));
    ctl.record_success(&d, a);
    assert_eq!(ctl.active, Some("night_3500".to_string()));

    let a = ctl.decide(&d, &class, &title, t("12:00"));
    assert_eq!(a, Action::Remove);
    ctl.record_success(&d, a);
    assert_eq!(ctl.active, None);

    assert_eq!(ctl.decide(&d, &class, &title, t("12:00")), Action::Keep);
}

#[test]
fn vibrance_scenario() {
    let cfg = Config {
        night_light: NightLightConfig::default(),
        vibrance_configs: vec![vib("^steam_app_.*$", "", 100)],
        hot_reload: None,
    };
    let d = load_config_and_shaders(Some(cfg)).unwrap();
    let class = "steam_app_123".to_string();
    let title = "Some Game".to_string();
    let c = select_shader(&d, &class, &title, t("12:00"));
    assert_eq!(c, Some(Choice::Vibrance(0)));
    assert_eq!(choice_hash(&d, Choice::Vibrance(0)), "vibrance_100");
    let ctl = ActivationController::new(None);
    assert_eq!(
        ctl.decide(&d, &class, &title, t("12:00")),
        Action::Apply(Choice::Vibrance(0))
    );
}

#[test]
fn night_light_has_priority_over_vibrance() {
    let d = complete();
    let class = "steam_app_1".to_string();
    let title = "Game".to_string();
    assert_eq!(select_shader(&d, &class, &title, t("23:00")), Some(Choice::NightLight));
    assert_eq!(select_shader(&d, &class, &title, t("12:00")), Some(Choice::Vibrance(0)));
}

#[test]
fn first_matching_vibrance_rule_wins() {
    let cfg = Config {
        night_light: NightLightConfig::default(),
        vibrance_configs: vec![vib("kitty", "", 10), vib("firefox", "", 20), vib("fire", "", 30)],
        hot_reload: None,
    };
    let d = load_config_and_shaders(Some(cfg)).unwrap();
    let c = select_shader(&d, &"firefox".to_string(), &"page".to_string(), t("12:00"));
    assert_eq!(c, Some(Choice::Vibrance(1)));
    assert_eq!(
        select_shader(&d, &"mpv".to_string(), &"video".to_string(), t("12:00")),
        None
    );
}

#[test]
fn repeated_event_writes_once() {
    let d = complete();
    let class = "steam_app_9".to_string();
    let title = "Game".to_string();
    let mut ctl = ActivationController::new(None);
    let mut writes = 0;
    for _ in 0..2 {
        let a = ctl.decide(&d, &class, &title, t("12:00"));
        if a != Action::Keep {
            writes += 1;
        }
        ctl.record_success(&d, a);
    }
    assert_eq!(writes, 1);
    assert_eq!(ctl.active, Some("vibrance_100".to_string()));
}

#[test]
fn same_identity_from_other_rule_is_kept() {
    let d = complete();
    let ctl = ActivationController::new(Some("vibrance_100".to_string()));
    assert_eq!(
        ctl.decide(&d, &"steam_app_2".to_string(), &"x".to_string(), t("12:00")),
        Action::Keep
    );
}

#[test]
fn failed_action_keeps_state() {
    let d = complete();
    let ctl = ActivationController::new(Some("night_3500".to_string()));
    let a = ctl.decide(&d, &"steam_app_2".to_string(), &"x".to_string(), t("12:00"));
    assert_eq!(a, Action::Apply(Choice::Vibrance(0)));
    // the write failed: nothing is recorded, so the next event tries again
    assert_eq!(
        ctl.decide(&d, &"steam_app_2".to_string(), &"x".to_string(), t("12:00")),
        a
    );
}

#[test]
fn debounce_collapses_burst() {
    let mut r = ConfigReloader::new(0);
    assert!(!r.should_reload(1500));
    assert!(r.should_reload(2000));
    let current = night_only();
    let out = r.on_candidate::<ConfigError>(&current, Ok(complete()), 2500);
    assert!(out.is_some());
    assert_eq!(r.last_accepted_ms, 2500);
    assert!(!r.should_reload(2600));
    assert!(!r.should_reload(4499));
    assert!(r.should_reload(4500));
}

#[test]
fn empty_reload_is_rejected() {
    let current = complete();
    let mut r = ConfigReloader::new(0);
    let empty = load_config_and_shaders(None).unwrap();
    assert!(!accept_reload(&current, &empty));
    assert!(r.on_candidate::<ConfigError>(&current, Ok(empty), 5000).is_none());
    assert_eq!(r.last_accepted_ms, 0);
}

#[test]
fn unchanged_reload_is_rejected() {
    let current = complete();
    assert!(!accept_reload(&current, &complete()));
    assert!(current.same_as(&complete()));
}

#[test]
fn failed_reload_is_rejected() {
    let current = night_only();
    let mut r = ConfigReloader::new(0);
    assert!(r.on_candidate(&current, Err(ConfigError::InvalidTime), 5000).is_none());
}

#[test]
fn changed_reload_is_accepted() {
    let current = load_config_and_shaders(None).unwrap();
    assert!(accept_reload(&current, &night_only()));
    let mut other = complete();
    other.vibrance_shaders.push(vibrance::new("mpv".to_string(), String::new(), 40));
    assert!(accept_reload(&complete(), &other));
    let mut moved = complete();
    moved.night_light_shader = Some(night_light::new(true, t("21:00"), t("03:00"), 3500, None));
    assert!(accept_reload(&complete(), &moved));
}
