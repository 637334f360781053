//! Where the settings and the logs live: the XDG base directories, with
//! `$HOME/.config` and `$HOME/.local/share` when the XDG variables are unset
//! or not absolute. The environment is read by the caller and handed in.

use vstd::prelude::*;

use super::APP_NAME;
use crate::text::opt_string_view;

verus! {

/// The environment variables that the directories are derived from.
pub struct PathEnv {
    /// `$HOME`
    pub home: Option<String>,
    /// `$XDG_CONFIG_HOME`
    pub xdg_config_home: Option<String>,
    /// `$XDG_DATA_HOME`
    pub xdg_data_home: Option<String>,
}

/// A Unix path is absolute when it starts at the root.
pub open spec fn is_absolute_spec(p: Seq<char>) -> bool {
    p.len() > 0 && p[0] == '/'
}

/// `base` joined with the relative path `part`, with one separator between
/// them unless `base` is empty or already ends with one (`Path::join`).
pub open spec fn join_spec(base: Seq<char>, part: Seq<char>) -> Seq<char> {
    if base.len() == 0 || base.last() == '/' {
        base + part
    } else {
        base + seq!['/'] + part
    }
}

/// The base directory given by an XDG variable, or `home` joined with
/// `fallback` when that variable is unset or not absolute.
pub open spec fn base_dir_spec(xdg: Option<Seq<char>>, home: Option<Seq<char>>, fallback: Seq<char>) -> Seq<char> {
    match xdg {
        Some(x) if is_absolute_spec(x) => x,
        _ => join_spec(home.unwrap(), fallback),
    }
}

/// Whether a base directory can be found: the XDG variable is absolute or
/// `$HOME` is set. Otherwise the program stops with "HOME not set".
pub open spec fn resolvable(xdg: Option<Seq<char>>, home: Option<Seq<char>>) -> bool {
    match xdg {
        Some(x) if is_absolute_spec(x) => true,
        _ => home is Some,
    }
}

impl PathEnv {
    pub open spec fn config_resolvable(&self) -> bool {
        resolvable(opt_string_view(self.xdg_config_home), opt_string_view(self.home))
    }

    pub open spec fn data_resolvable(&self) -> bool {
        resolvable(opt_string_view(self.xdg_data_home), opt_string_view(self.home))
    }

    pub open spec fn config_dir_spec(&self) -> Seq<char> {
        base_dir_spec(opt_string_view(self.xdg_config_home), opt_string_view(self.home), ".config"@)
    }

    pub open spec fn data_dir_spec(&self) -> Seq<char> {
        base_dir_spec(opt_string_view(self.xdg_data_home), opt_string_view(self.home), ".local/share"@)
    }
}

fn can_resolve(xdg: &Option<String>, home: &Option<String>) -> (r: bool)
    ensures
        r == resolvable(opt_string_view(*xdg), opt_string_view(*home)),
{
    match xdg {
        Some(x) => {
            if is_absolute(x.as_str()) {
                return true;
            }
        },
        None => {},
    }
    home.is_some()
}

impl PathEnv {
    /// Whether the settings directory can be found (see `resolvable`).
    pub fn has_config_dir(&self) -> (r: bool)
        ensures
            r == self.config_resolvable(),
    {
        can_resolve(&self.xdg_config_home, &self.home)
    }

    /// Whether the data directory can be found (see `resolvable`).
    pub fn has_data_dir(&self) -> (r: bool)
        ensures
            r == self.data_resolvable(),
    {
        can_resolve(&self.xdg_data_home, &self.home)
    }
}

pub fn is_absolute(p: &str) -> (r: bool)
    ensures
        r == is_absolute_spec(p@),
{
    p.unicode_len() > 0 && p.get_char(0) == '/'
}

/// Joins a relative path onto `base`.
pub fn join_path(base: &str, part: &str) -> (r: String)
    ensures
        r@ == join_spec(base@, part@),
{
    let n = base.unicode_len();
    let mut r = String::from_str(base);
    if n > 0 && base.get_char(n - 1) != '/' {
        r.append("/");
        proof {
            reveal_strlit("/");
        }
    }
    r.append(part);
    r
}

fn base_dir(xdg: &Option<String>, home: &Option<String>, fallback: &str) -> (r: String)
    requires
        resolvable(opt_string_view(*xdg), opt_string_view(*home)),
    ensures
        r@ == base_dir_spec(opt_string_view(*xdg), opt_string_view(*home), fallback@),
{
    match xdg {
        Some(x) => {
            if is_absolute(x.as_str()) {
                return x.clone();
            }
        },
        None => {},
    }
    match home {
        Some(h) => join_path(h.as_str(), fallback),
        None => {
            assert(false);
            String::new()
        },
    }
}

fn config_dir(env: &PathEnv) -> (r: String)
    requires
        env.config_resolvable(),
    ensures
        r@ == env.config_dir_spec(),
{
    base_dir(&env.xdg_config_home, &env.home, ".config")
}

fn data_dir(env: &PathEnv) -> (r: String)
    requires
        env.data_resolvable(),
    ensures
        r@ == env.data_dir_spec(),
{
    base_dir(&env.xdg_data_home, &env.home, ".local/share")
}

/// The directory of this program's settings: `mimi-ime` in the config base directory.
pub fn app_config_dir(env: &PathEnv) -> (r: String)
    requires
        env.config_resolvable(),
    ensures
        r@ == join_spec(env.config_dir_spec(), APP_NAME@),
{
    join_path(config_dir(env).as_str(), APP_NAME)
}

/// The directory of this program's data: `mimi-ime` in the data base directory.
pub fn app_data_dir(env: &PathEnv) -> (r: String)
    requires
        env.data_resolvable(),
    ensures
        r@ == join_spec(env.data_dir_spec(), APP_NAME@),
{
    join_path(data_dir(env).as_str(), APP_NAME)
}

/// The directory of the log files: `logs` in the data directory.
pub fn log_dir(env: &PathEnv) -> (r: String)
    requires
        env.data_resolvable(),
    ensures
        r@ == join_spec(join_spec(env.data_dir_spec(), APP_NAME@), "logs"@),
{
    let d = app_data_dir(env);
    join_path(d.as_str(), "logs")
}

/// The settings file: `config.toml` in the settings directory.
pub fn config_path(env: &PathEnv) -> (r: String)
    requires
        env.config_resolvable(),
    ensures
        r@ == join_spec(join_spec(env.config_dir_spec(), APP_NAME@), "config.toml"@),
{
    let d = app_config_dir(env);
    join_path(d.as_str(), "config.toml")
}

/// Joining a relative, non-empty part onto any base ends the path with that
/// part, keeps the base as its beginning, and gives an absolute path when the
/// base is absolute.
pub proof fn lemma_join_keeps_base_and_part(base: Seq<char>, part: Seq<char>)
    requires
        part.len() > 0,
        part[0] != '/',
    ensures
        ({
            let j = join_spec(base, part);
            &&& j.subrange(0, base.len() as int) == base
            &&& j.subrange(j.len() - part.len(), j.len() as int) == part
            &&& is_absolute_spec(base) ==> is_absolute_spec(j)
        }),
{
    let j = join_spec(base, part);
    assert(j.subrange(0, base.len() as int) =~= base);
    assert(j.subrange(j.len() - part.len(), j.len() as int) =~= part);
}

/// An absolute XDG variable is used as it is; a relative one is ignored in
/// favour of the directory under `$HOME`.
pub proof fn lemma_relative_xdg_is_ignored(x: Seq<char>, home: Seq<char>, fallback: Seq<char>)
    ensures
        is_absolute_spec(x) ==> base_dir_spec(Some(x), Some(home), fallback) == x,
        !is_absolute_spec(x) ==> base_dir_spec(Some(x), Some(home), fallback)
            == base_dir_spec(None, Some(home), fallback),
{
}

} // verus!
