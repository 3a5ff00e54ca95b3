use hyprlux::shaders::shader::Shader;
use hyprlux::shaders::vibrance::{combine_pattern_results, new};

#[test]
fn vibrance_test_should_apply() {
    // A rule with both patterns needs both to match; a missing value reads as
    // the empty string, which a configured pattern such as "firefox" does not
    // match. Hence the two cases with one value missing do not match.
    let shaders = [
        (
            "No match",
            new("firefox".to_string(), "firefox".to_string(), 100),
            (Some("class".to_string()), Some("title".to_string())),
            false,
        ),
        (
            "Class matches",
            new("firefox".to_string(), "firefox".to_string(), 100),
            (Some("firefox".to_string()), None),
            false,
        ),
        (
            "Title matches",
            new("firefox".to_string(), "firefox".to_string(), 100),
            (None, Some("firefox".to_string())),
            false,
        ),
        (
            "Regex class matches",
            new("^(steam_app_)(.*)$".to_string(), "".to_string(), 100),
            (
                Some("steam_app_123".to_string()),
                Some("Some Epic Game".to_string()),
            ),
            true,
        ),
        (
            "Regex class doesn't match",
            new("^(steam_app_)(.*)$".to_string(), "".to_string(), 100),
            (Some("firefox".to_string()), Some("firefox".to_string())),
            false,
        ),
        (
            "Regex title matches",
            new("".to_string(), "^(Some Epic)(.*)$".to_string(), 100),
            (
                Some("steam_app_123".to_string()),
                Some("Some Epic Game".to_string()),
            ),
            true,
        ),
        (
            "Regex class doesn't match",
            new("".to_string(), "^(Some Epic)(.*)$".to_string(), 100),
            (None, Some("Other Game".to_string())),
            false,
        ),
    ];
    for (name, shader, (class, title), expected) in shaders {
        let res = shader.should_apply(class.clone(), title.clone());
        assert!(
            res == expected,
            "{} - {} - {} - {}",
            name,
            class.unwrap_or("".to_string()),
            title.unwrap_or("".to_string()),
            expected,
        )
    }
}

#[test]
fn vibrance_test_get() {
    let string = "".to_string();
    let shaders = [
        (new(string.clone(), string.clone(), 100), "1.00".to_string()),
        (new(string.clone(), string.clone(), 90), "0.90".to_string()),
        (
            new(string.clone(), string.clone(), 10000),
            "10.00".to_string(),
        ),
        (new(string.clone(), string.clone(), 0), "0.01".to_string()),
        (new(string.clone(), string.clone(), -10), "0.01".to_string()),
        (new(string.clone(), string.clone(), 55), "0.55".to_string()),
    ];
    for (shader, expected) in shaders {
        assert!(
            shader
                .get()
                .unwrap()
                .contains(&format!("const float VIB_VIBRANCE = {};", expected)),
            "{}",
            expected,
        )
    }
}

#[test]
fn vibrance_test_hash() {
    let shaders = [
        (
            new("class".to_string(), "title".to_string(), 100),
            "vibrance_100".to_string(),
        ),
        (
            new("firefox".to_string(), "".to_string(), 10),
            "vibrance_10".to_string(),
        ),
        (
            new("firefox".to_string(), "firefox".to_string(), 15),
            "vibrance_15".to_string(),
        ),
    ];
    for (shader, expected) in shaders {
        assert_eq!(shader.hash(), expected)
    }
}

#[test]
fn vibrance_strength_clamp() {
    assert_eq!(new(String::new(), String::new(), 0).strength, 1);
    assert_eq!(new(String::new(), String::new(), -5).strength, 1);
    assert_eq!(new(String::new(), String::new(), 1000).strength, 1000);
    assert_eq!(new(String::new(), String::new(), 5000).strength, 1000);
    assert_eq!(new(String::new(), String::new(), 55).strength, 55);
}

#[test]
fn vibrance_class_only_ignores_title() {
    let s = new("firefox".to_string(), String::new(), 100);
    assert!(s.should_apply(Some("firefox".to_string()), Some("anything".to_string())));
    assert!(s.should_apply(Some("firefox".to_string()), None));
    assert!(!s.should_apply(Some("kitty".to_string()), Some("firefox".to_string())));
}

#[test]
fn vibrance_title_only_ignores_class() {
    let s = new(String::new(), "firefox".to_string(), 100);
    assert!(s.should_apply(Some("anything".to_string()), Some("firefox".to_string())));
    assert!(s.should_apply(None, Some("firefox".to_string())));
    assert!(!s.should_apply(Some("firefox".to_string()), Some("kitty".to_string())));
}

#[test]
fn vibrance_both_patterns_need_both() {
    let s = new("^kitty$".to_string(), "vim".to_string(), 100);
    assert!(s.should_apply(Some("kitty".to_string()), Some("nvim - file".to_string())));
    assert!(!s.should_apply(Some("kitty".to_string()), Some("bash".to_string())));
    assert!(!s.should_apply(Some("alacritty".to_string()), Some("vim".to_string())));
}

#[test]
fn vibrance_no_patterns_never_match() {
    let s = new(String::new(), String::new(), 100);
    assert!(!s.should_apply(Some("firefox".to_string()), Some("firefox".to_string())));
    assert!(!s.should_apply(None, None));
}

#[test]
fn vibrance_malformed_pattern_never_matches() {
    let s = new("(".to_string(), String::new(), 100);
    assert!(!s.should_apply(Some("(".to_string()), None));
}

#[test]
fn vibrance_equal_strength_equal_identity() {
    let a = new("firefox".to_string(), String::new(), 2000);
    let b = new(String::new(), "mpv".to_string(), 1000);
    assert_eq!(a.hash(), b.hash());
    assert_eq!(a.hash(), "vibrance_1000");
}

#[test]
fn combine_pattern_results_table() {
    assert!(combine_pattern_results(true, true, true, true));
    assert!(!combine_pattern_results(true, true, true, false));
    assert!(!combine_pattern_results(true, true, false, true));
    assert!(combine_pattern_results(true, false, true, false));
    assert!(!combine_pattern_results(true, false, false, true));
    assert!(combine_pattern_results(false, true, false, true));
    assert!(!combine_pattern_results(false, true, true, false));
    assert!(!combine_pattern_results(false, false, true, true));
}
