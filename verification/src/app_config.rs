//! The panel's configuration file: its place, its content, and how an older file that
//! only held the GitHub settings is still read.
use vstd::prelude::*;
use crate::text::{concat, owned};

verus! {

/// Why the configuration could not be read or written; each carries the message of the
/// failure.
pub enum Error {
    Io(String),
    TomlDe(String),
    TomlSer(String),
}

/// The GitHub settings for bug reports.
pub struct GithubConfig {
    pub token: String,
    pub owner: String,
    pub repo: String,
}

/// The GitHub settings as a mathematical value.
pub struct GithubConfigV {
    pub token: Seq<char>,
    pub owner: Seq<char>,
    pub repo: Seq<char>,
}

impl View for GithubConfig {
    type V = GithubConfigV;

    open spec fn view(&self) -> GithubConfigV {
        GithubConfigV { token: self.token@, owner: self.owner@, repo: self.repo@ }
    }
}

/// The update server settings.
pub struct UpdateServerConfig {
    pub auth_mode: String,
    pub reference: String,
    pub insecure: bool,
    pub username: String,
    pub password: String,
    pub oauth_token: String,
}

/// The update server settings as a mathematical value.
pub struct UpdateServerConfigV {
    pub auth_mode: Seq<char>,
    pub reference: Seq<char>,
    pub insecure: bool,
    pub username: Seq<char>,
    pub password: Seq<char>,
    pub oauth_token: Seq<char>,
}

impl View for UpdateServerConfig {
    type V = UpdateServerConfigV;

    open spec fn view(&self) -> UpdateServerConfigV {
        UpdateServerConfigV {
            auth_mode: self.auth_mode@,
            reference: self.reference@,
            insecure: self.insecure,
            username: self.username@,
            password: self.password@,
            oauth_token: self.oauth_token@,
        }
    }
}

/// The whole configuration.
pub struct AppConfig {
    pub github: GithubConfig,
    pub update: UpdateServerConfig,
}

/// The configuration as a mathematical value.
pub struct AppConfigV {
    pub github: GithubConfigV,
    pub update: UpdateServerConfigV,
}

impl View for AppConfig {
    type V = AppConfigV;

    open spec fn view(&self) -> AppConfigV {
        AppConfigV { github: self.github@, update: self.update@ }
    }
}

/// A file in the older format, which held the GitHub settings alone.
pub struct LegacyGithubConfig {
    pub token: String,
    pub owner: String,
    pub repo: String,
}

/// The sign-in mode of the update server when none is set.
pub open spec fn default_auth_mode() -> Seq<char> {
    "user-pass"@
}

/// The update server settings when none are set.
pub open spec fn default_update_v() -> UpdateServerConfigV {
    UpdateServerConfigV {
        auth_mode: default_auth_mode(),
        reference: Seq::empty(),
        insecure: false,
        username: Seq::empty(),
        password: Seq::empty(),
        oauth_token: Seq::empty(),
    }
}

/// The GitHub settings when none are set.
pub open spec fn default_github_v() -> GithubConfigV {
    GithubConfigV { token: Seq::empty(), owner: Seq::empty(), repo: Seq::empty() }
}

/// The sign-in mode of the update server when none is set.
pub fn default_update_auth_mode() -> (r: String)
    ensures
        r@ == default_auth_mode(),
{
    owned("user-pass")
}

impl Default for GithubConfig {
    fn default() -> (r: Self)
        ensures
            r@ == default_github_v(),
    {
        GithubConfig { token: String::new(), owner: String::new(), repo: String::new() }
    }
}

impl Default for UpdateServerConfig {
    fn default() -> (r: Self)
        ensures
            r@ == default_update_v(),
    {
        UpdateServerConfig {
            auth_mode: default_update_auth_mode(),
            reference: String::new(),
            insecure: false,
            username: String::new(),
            password: String::new(),
            oauth_token: String::new(),
        }
    }
}

impl Default for AppConfig {
    fn default() -> (r: Self)
        ensures
            r@ == (AppConfigV { github: default_github_v(), update: default_update_v() }),
    {
        AppConfig { github: GithubConfig::default(), update: UpdateServerConfig::default() }
    }
}

/// `rel` appended to the directory `base`, with one separator between them.
pub open spec fn join_dir(base: Seq<char>, rel: Seq<char>) -> Seq<char> {
    if base.len() == 0 {
        rel
    } else if base.last() == '/' {
        base + rel
    } else {
        base + "/"@ + rel
    }
}

/// The place of the configuration file: `CTRL_PANEL_CONFIG`, else `GITHUB_CONFIG`, else
/// `.config/ctrl-panel/config.toml` in the home directory (`/home/ghaf` when `HOME` is unset).
pub open spec fn config_path_spec(
    ctrl_panel_config: Option<Seq<char>>,
    github_config: Option<Seq<char>>,
    home: Option<Seq<char>>,
) -> Seq<char> {
    match ctrl_panel_config {
        Some(p) => p,
        None => match github_config {
            Some(p) => p,
            None => join_dir(
                match home {
                    Some(h) => h,
                    None => "/home/ghaf"@,
                },
                ".config/ctrl-panel/config.toml"@,
            ),
        },
    }
}

/// The view of an optional string.
pub open spec fn opt_seq(s: Option<String>) -> Option<Seq<char>> {
    match s {
        Some(x) => Some(x@),
        None => None,
    }
}

/// The place of the configuration file, from the values of the environment variables
/// `CTRL_PANEL_CONFIG`, `GITHUB_CONFIG` and `HOME`.
pub fn get_config_path(
    ctrl_panel_config: Option<String>,
    github_config: Option<String>,
    home: Option<String>,
) -> (r: String)
    ensures
        r@ == config_path_spec(opt_seq(ctrl_panel_config), opt_seq(github_config), opt_seq(home)),
{
    if let Some(p) = ctrl_panel_config {
        return p;
    }
    if let Some(p) = github_config {
        return p;
    }
    let h = match home {
        Some(h) => h,
        None => owned("/home/ghaf"),
    };
    let rel = ".config/ctrl-panel/config.toml";
    if h.as_str().is_empty() {
        owned(rel)
    } else {
        let n = h.as_str().unicode_len();
        let last = h.as_str().get_char(n - 1);
        if last == '/' {
            concat(h.as_str(), rel)
        } else {
            let d = concat(h.as_str(), "/");
            concat(d.as_str(), rel)
        }
    }
}

/// The configuration from what the file held: its content in the current format, or, when
/// that could not be read, in the older format with default update server settings; when
/// neither could be read, the error of the current format.
pub fn load_config(
    current: Result<AppConfig, Error>,
    legacy: Option<LegacyGithubConfig>,
) -> (r: Result<AppConfig, Error>)
    ensures
        match current {
            Ok(c) => r matches Ok(x) && x@ == c@,
            Err(e) => match legacy {
                Some(l) => r matches Ok(x) && x@ == (AppConfigV {
                    github: GithubConfigV { token: l.token@, owner: l.owner@, repo: l.repo@ },
                    update: default_update_v(),
                }),
                None => r == Err::<AppConfig, Error>(e),
            },
        },
{
    match current {
        Ok(c) => Ok(c),
        Err(e) => match legacy {
            Some(l) => Ok(
                AppConfig {
                    github: GithubConfig { token: l.token, owner: l.owner, repo: l.repo },
                    update: UpdateServerConfig::default(),
                },
            ),
            None => Err(e),
        },
    }
}

/// The GitHub settings of a configuration that could be loaded.
pub fn github_of(config: Result<AppConfig, Error>) -> (r: Result<GithubConfig, Error>)
    ensures
        match config {
            Ok(c) => r matches Ok(g) && g@ == c.github@,
            Err(e) => r == Err::<GithubConfig, Error>(e),
        },
{
    match config {
        Ok(c) => Ok(c.github),
        Err(e) => Err(e),
    }
}

/// The configuration after a sign-in to GitHub: the loaded one (or the default when it
/// could not be loaded) with the GitHub settings replaced by `github` holding the new token.
pub fn with_github_token(
    loaded: Result<AppConfig, Error>,
    github: GithubConfig,
    token: String,
) -> (r: AppConfig)
    ensures
        r.github@ == (GithubConfigV { token: token@, owner: github.owner@, repo: github.repo@ }),
        r.update@ == match loaded {
            Ok(c) => c.update@,
            Err(_) => default_update_v(),
        },
{
    let base = match loaded {
        Ok(c) => c,
        Err(_) => AppConfig::default(),
    };
    AppConfig { github: GithubConfig { token, owner: github.owner, repo: github.repo }, update: base.update }
}

} // verus!
