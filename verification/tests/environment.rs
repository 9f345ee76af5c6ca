use bookmanager::env::{which, Environment};

#[test]
fn the_setting_names_the_environment() {
    assert_eq!(which(Some("production"), true), Environment::Production);
    assert_eq!(which(Some("production"), false), Environment::Production);
    assert_eq!(which(Some("development"), true), Environment::Development);
    assert_eq!(which(Some("development"), false), Environment::Development);
}

#[test]
fn without_a_setting_the_build_decides() {
    assert_eq!(which(None, true), Environment::Development);
    assert_eq!(which(None, false), Environment::Production);
}

#[test]
fn an_unknown_setting_counts_as_none() {
    assert_eq!(which(Some("staging"), true), Environment::Development);
    assert_eq!(which(Some("staging"), false), Environment::Production);
    assert_eq!(which(Some("Production"), true), Environment::Development);
    assert_eq!(which(Some(""), false), Environment::Production);
}

#[test]
fn names_are_read_in_lower_case_only() {
    assert_eq!(Environment::from_str("development"), Some(Environment::Development));
    assert_eq!(Environment::from_str("production"), Some(Environment::Production));
    assert_eq!(Environment::from_str("PRODUCTION"), None);
    assert_eq!(Environment::from_str(" production"), None);
    assert_eq!(Environment::default(), Environment::Development);
}
