use ctrl_panel::app_config::{
    default_update_auth_mode, get_config_path, github_of, load_config, with_github_token, AppConfig, Error,
    GithubConfig, LegacyGithubConfig, UpdateServerConfig,
};

#[test]
fn default_auth_mode_is_user_pass() {
    assert_eq!(default_update_auth_mode(), "user-pass");
    let u = UpdateServerConfig::default();
    assert_eq!(u.auth_mode, "user-pass");
    assert!(!u.insecure);
    assert_eq!(u.reference, "");
    let g = GithubConfig::default();
    assert_eq!(g.token, "");
}

#[test]
fn config_path_order() {
    assert_eq!(get_config_path(Some("/a.toml".into()), Some("/b.toml".into()), Some("/home/u".into())), "/a.toml");
    assert_eq!(get_config_path(None, Some("/b.toml".into()), Some("/home/u".into())), "/b.toml");
    assert_eq!(get_config_path(None, None, Some("/home/u".into())), "/home/u/.config/ctrl-panel/config.toml");
    assert_eq!(get_config_path(None, None, Some("/home/u/".into())), "/home/u/.config/ctrl-panel/config.toml");
    assert_eq!(get_config_path(None, None, None), "/home/ghaf/.config/ctrl-panel/config.toml");
    assert_eq!(get_config_path(None, None, Some(String::new())), ".config/ctrl-panel/config.toml");
}

#[test]
fn current_format_wins() {
    let mut c = AppConfig::default();
    c.github.owner = "tiiuae".into();
    let legacy = LegacyGithubConfig { token: "t".into(), owner: "o".into(), repo: "r".into() };
    let r = load_config(Ok(c), Some(legacy)).ok().unwrap();
    assert_eq!(r.github.owner, "tiiuae");
}

#[test]
fn legacy_format_read() {
    let legacy = LegacyGithubConfig { token: "t".into(), owner: "o".into(), repo: "r".into() };
    let r = load_config(Err(Error::TomlDe("bad".into())), Some(legacy)).ok().unwrap();
    assert_eq!(r.github.token, "t");
    assert_eq!(r.github.repo, "r");
    assert_eq!(r.update.auth_mode, "user-pass");
}

#[test]
fn neither_format_gives_current_error() {
    match load_config(Err(Error::TomlDe("bad".into())), None) {
        Err(Error::TomlDe(m)) => assert_eq!(m, "bad"),
        _ => panic!("expected the parse error"),
    }
    match github_of(Err(Error::Io("missing".into()))) {
        Err(Error::Io(m)) => assert_eq!(m, "missing"),
        _ => panic!("expected the read error"),
    }
}

#[test]
fn sign_in_keeps_update_settings() {
    let mut loaded = AppConfig::default();
    loaded.update.reference = "reg".into();
    let gh = GithubConfig { token: "old".into(), owner: "o".into(), repo: "r".into() };
    let c = with_github_token(Ok(loaded), gh, "new".into());
    assert_eq!(c.github.token, "new");
    assert_eq!(c.github.owner, "o");
    assert_eq!(c.update.reference, "reg");
    let gh = GithubConfig { token: "old".into(), owner: "o".into(), repo: "r".into() };
    let c = with_github_token(Err(Error::Io("x".into())), gh, "new".into());
    assert_eq!(c.update.auth_mode, "user-pass");
}
