//! The fixed layout of the application's state under its configuration
//! directory.
use vstd::prelude::*;
use crate::platform::{Os, join, path_join};

verus! {

pub open spec fn app_dir_name() -> Seq<char> {
    "remote-clauding"@
}

/// The configuration directory for `os`, given the values read from the
/// environment: `appdata` (`APPDATA`), `xdg` (`XDG_CONFIG_HOME`) and the
/// user's home directory. Falls back to a relative directory.
pub open spec fn config_dir_spec(
    os: Os,
    appdata: Option<Seq<char>>,
    xdg: Option<Seq<char>>,
    home: Option<Seq<char>>,
) -> Seq<char> {
    match os {
        Os::Windows => match appdata {
            Some(a) => join(os, a, app_dir_name()),
            None => app_dir_name(),
        },
        Os::MacOs => match home {
            Some(h) => join(os, h, "Library/Application Support/remote-clauding"@),
            None => app_dir_name(),
        },
        Os::Linux => match xdg {
            Some(x) => join(os, x, app_dir_name()),
            None => match home {
                Some(h) => join(os, h, ".config/remote-clauding"@),
                None => app_dir_name(),
            },
        },
        Os::Other => app_dir_name(),
    }
}

pub open spec fn opt_view(o: Option<String>) -> Option<Seq<char>> {
    match o {
        Some(s) => Some(s@),
        None => None,
    }
}

/// Resolves the configuration directory from the environment values the
/// caller read.
pub fn get_config_dir(
    os: Os,
    appdata: Option<String>,
    xdg: Option<String>,
    home: Option<String>,
) -> (r: String)
    ensures
        r@ == config_dir_spec(os, opt_view(appdata), opt_view(xdg), opt_view(home)),
{
    proof {
        reveal_strlit("remote-clauding");
    }
    match os {
        Os::Windows => {
            if let Some(a) = appdata {
                return path_join(os, a.as_str(), "remote-clauding");
            }
        },
        Os::MacOs => {
            if let Some(h) = home {
                return path_join(os, h.as_str(), "Library/Application Support/remote-clauding");
            }
        },
        Os::Linux => {
            if let Some(x) = xdg {
                return path_join(os, x.as_str(), "remote-clauding");
            }
            if let Some(h) = home {
                return path_join(os, h.as_str(), ".config/remote-clauding");
            }
        },
        Os::Other => {},
    }
    String::from_str("remote-clauding")
}

/// The directory holding the portable runtime.
pub open spec fn portable_node_dir(os: Os, config_dir: Seq<char>) -> Seq<char> {
    join(os, config_dir, "node"@)
}

pub fn get_portable_node_dir(os: Os, config_dir: &str) -> (r: String)
    ensures
        r@ == portable_node_dir(os, config_dir@),
{
    path_join(os, config_dir, "node")
}

/// The presence-only file remembering a confirmed install.
pub fn marker_path(os: Os, config_dir: &str) -> (r: String)
    ensures
        r@ == join(os, config_dir@, "installed.marker"@),
{
    path_join(os, config_dir, "installed.marker")
}

/// The file holding the running agent's process id.
pub fn pid_path(os: Os, config_dir: &str) -> (r: String)
    ensures
        r@ == join(os, config_dir@, "agent.pid"@),
{
    path_join(os, config_dir, "agent.pid")
}

/// The file holding the runtime configuration.
pub fn node_config_path(os: Os, config_dir: &str) -> (r: String)
    ensures
        r@ == join(os, config_dir@, "node-config.json"@),
{
    path_join(os, config_dir, "node-config.json")
}

/// The file holding the account configuration.
pub fn app_config_path(os: Os, config_dir: &str) -> (r: String)
    ensures
        r@ == join(os, config_dir@, "config.json"@),
{
    path_join(os, config_dir, "config.json")
}

} // verus!
