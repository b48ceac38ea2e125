use webp_batch::config::{AlphaMode, Config, FitMode};

fn path(parts: &[&str]) -> Vec<String> {
    parts.iter().map(|p| p.to_string()).collect()
}

#[test]
fn config_keeps_what_it_is_given() {
    let config = Config::new(path(&["in"]), path(&["out"]), 430, 600, false, false).unwrap();
    assert_eq!(config.input_root, path(&["in"]));
    assert_eq!(config.output_root, path(&["out"]));
    assert_eq!(config.width, 430);
    assert_eq!(config.height, 600);
    assert_eq!(config.fit, FitMode::Exact);
    assert_eq!(config.alpha, AlphaMode::Flatten);
    assert!(config.is_valid());
}

#[test]
fn flags_select_the_other_modes() {
    let config = Config::new(path(&["in"]), path(&["out"]), 1, 1, true, true).unwrap();
    assert_eq!(config.fit, FitMode::Contain);
    assert_eq!(config.alpha, AlphaMode::Preserve);
    let mixed = Config::new(path(&["in"]), path(&["out"]), 1, 1, true, false).unwrap();
    assert_eq!(mixed.fit, FitMode::Contain);
    assert_eq!(mixed.alpha, AlphaMode::Flatten);
}

#[test]
fn config_refuses_a_target_without_width_or_height() {
    assert!(Config::new(path(&["in"]), path(&["out"]), 0, 600, false, false).is_none());
    assert!(Config::new(path(&["in"]), path(&["out"]), 430, 0, false, false).is_none());
    assert!(Config::new(path(&["in"]), path(&["out"]), 0, 0, true, true).is_none());
}

#[test]
fn config_built_by_hand_is_checked() {
    let config = Config {
        input_root: path(&["in"]),
        output_root: path(&["out"]),
        width: 0,
        height: 5,
        fit: FitMode::Exact,
        alpha: AlphaMode::Flatten,
    };
    assert!(!config.is_valid());
}
