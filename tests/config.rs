use neoghq::config::{Config, Env, DEFAULT_NEOGHQ_ROOT};
use neoghq::error::RepoError;

#[test]
fn config_uses_configured_root() {
    let env = Env { neoghq_root: Some("/srv/repos".to_string()), home: None };
    assert_eq!(Config::load(env).unwrap().root, "/srv/repos");
}

#[test]
fn config_default_root_under_home() {
    assert_eq!(DEFAULT_NEOGHQ_ROOT, "~/src/repos");
    let env = Env { neoghq_root: None, home: Some("/home/me".to_string()) };
    assert_eq!(Config::load(env).unwrap().root, "/home/me/src/repos");
}

#[test]
fn config_expands_tilde() {
    let env = Env { neoghq_root: Some("~/neoghq".to_string()), home: Some("/home/me/".to_string()) };
    assert_eq!(Config::load(env).unwrap().root, "/home/me/neoghq");
    let env = Env { neoghq_root: Some("~".to_string()), home: Some("/home/me".to_string()) };
    assert_eq!(Config::load(env).unwrap().root, "/home/me/");
}

#[test]
fn config_tilde_without_home() {
    let env = Env { neoghq_root: None, home: None };
    assert_eq!(Config::load(env).err(), Some(RepoError::HomeNotSet));
}

#[test]
fn config_tilde_prefix_only_as_component() {
    let env = Env { neoghq_root: Some("~other/x".to_string()), home: None };
    assert_eq!(Config::load(env).unwrap().root, "~other/x");
}
