//! Configuration of the single-file layout (`~/.config/tg-cli/config.toml`)
//! used by `tg-daemon` and its one-shot CLI, with XDG paths. The caller
//! reads the environment and the home directory and hands them in.

use vstd::prelude::*;
use crate::paths::{join, path_join};
use crate::text::owned;

verus! {

#[derive(Debug, PartialEq)]
pub struct TgConfig {
    /// Telegram API ID (from https://my.telegram.org)
    pub api_id: i32,
    /// Telegram API hash
    pub api_hash: String,
    /// Phone number for authentication (optional, prompted at login)
    pub phone: String,
    /// Path to Unix socket
    pub socket_path: String,
    /// TDLib database directory
    pub database_dir: String,
    /// Log verbosity (0 = errors only, 1 = warnings, 2 = info, 3+ = debug)
    pub verbosity: i32,
    /// Use test Telegram server
    pub test: bool,
}

pub open spec fn opt_view(o: Option<&str>) -> Option<Seq<char>> {
    match o {
        Some(s) => Some(s@),
        None => None,
    }
}

/// The runtime directory: `$XDG_RUNTIME_DIR`, else `/tmp`.
pub open spec fn runtime_dir_spec(xdg_runtime_dir: Option<Seq<char>>) -> Seq<char> {
    match xdg_runtime_dir {
        Some(d) => d,
        None => "/tmp"@,
    }
}

/// The data directory: `$XDG_DATA_HOME`, else `<home>/.local/share`, else none.
pub open spec fn data_dir_spec(xdg_data_home: Option<Seq<char>>, home: Option<Seq<char>>) -> Option<Seq<char>> {
    match xdg_data_home {
        Some(d) => Some(d),
        None => match home {
            Some(h) => Some(join(join(h, ".local"@), "share"@)),
            None => None,
        },
    }
}

/// The runtime directory, given `$XDG_RUNTIME_DIR` where it is set (always found).
pub fn dirs_runtime(xdg_runtime_dir: Option<&str>) -> (r: Option<String>)
    ensures
        r matches Some(d) && d@ == runtime_dir_spec(opt_view(xdg_runtime_dir)),
{
    match xdg_runtime_dir {
        Some(d) => Some(owned(d)),
        None => Some(owned("/tmp")),
    }
}

/// The data directory, given `$XDG_DATA_HOME` and the home directory where known.
pub fn dirs_data(xdg_data_home: Option<&str>, home: Option<&str>) -> (r: Option<String>)
    ensures
        match r {
            Some(d) => Some(d@),
            None => None,
        } == data_dir_spec(opt_view(xdg_data_home), opt_view(home)),
{
    match xdg_data_home {
        Some(d) => Some(owned(d)),
        None => match home {
            Some(h) => {
                let l = path_join(h, ".local");
                Some(path_join(l.as_str(), "share"))
            },
            None => None,
        },
    }
}

/// Default socket path: `<runtime dir>/tg-cli.sock`.
pub fn default_socket_path(xdg_runtime_dir: Option<&str>) -> (r: String)
    ensures
        r@ == join(runtime_dir_spec(opt_view(xdg_runtime_dir)), "tg-cli.sock"@),
{
    let run = match dirs_runtime(xdg_runtime_dir) {
        Some(d) => d,
        None => owned("/tmp"),
    };
    path_join(run.as_str(), "tg-cli.sock")
}

/// Default TDLib database directory: `<data dir or .>/tg-cli`.
pub fn default_database_dir(xdg_data_home: Option<&str>, home: Option<&str>) -> (r: String)
    ensures
        r@ == join(
            match data_dir_spec(opt_view(xdg_data_home), opt_view(home)) {
                Some(d) => d,
                None => "."@,
            },
            "tg-cli"@,
        ),
{
    let data = match dirs_data(xdg_data_home, home) {
        Some(d) => d,
        None => owned("."),
    };
    path_join(data.as_str(), "tg-cli")
}

impl TgConfig {
    /// `$TG_CONFIG` where set, else `<config dir or .>/tg-cli/config.toml`.
    pub fn config_path(tg_config: Option<&str>, config_dir: Option<&str>) -> (r: String)
        ensures
            tg_config matches Some(p) ==> r@ == p@,
            tg_config is None ==> r@ == join(
                join(
                    match config_dir {
                        Some(d) => d@,
                        None => "."@,
                    },
                    "tg-cli"@,
                ),
                "config.toml"@,
            ),
    {
        match tg_config {
            Some(p) => owned(p),
            None => {
                let base = match config_dir {
                    Some(d) => owned(d),
                    None => owned("."),
                };
                let cfg = path_join(base.as_str(), "tg-cli");
                path_join(cfg.as_str(), "config.toml")
            },
        }
    }
}

} // verus!
