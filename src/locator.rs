//! Where the runtime, its package manager and the agent command are found.
use vstd::prelude::*;
use crate::platform::{Os, join, path_join};
use crate::layout::{portable_node_dir, get_portable_node_dir};

verus! {

/// The runtime interpreter: on the search path, or inside the portable
/// runtime (`node.exe` at its root on Windows, `bin/node` elsewhere).
pub open spec fn node_binary(os: Os, config_dir: Seq<char>, portable: bool) -> Seq<char> {
    if !portable {
        "node"@
    } else if os == Os::Windows {
        join(os, portable_node_dir(os, config_dir), "node.exe"@)
    } else {
        join(os, join(os, portable_node_dir(os, config_dir), "bin"@), "node"@)
    }
}

/// The package manager's command and the arguments that precede its own.
pub open spec fn npm_binary(os: Os, config_dir: Seq<char>, portable: bool) -> (Seq<char>, Seq<Seq<char>>) {
    if portable {
        if os == Os::Windows {
            (join(os, portable_node_dir(os, config_dir), "npm.cmd"@), seq![])
        } else {
            (join(os, join(os, portable_node_dir(os, config_dir), "bin"@), "npm"@), seq![])
        }
    } else if os == Os::Windows {
        ("cmd.exe"@, seq!["/C"@, "npm"@])
    } else {
        ("npm"@, seq![])
    }
}

/// The wrapper script that a portable install on Windows puts at the root
/// of the runtime directory.
pub open spec fn windows_cli_wrapper(os: Os, config_dir: Seq<char>) -> Seq<char> {
    portable_node_dir(os, config_dir) + "\\remote-clauding.cmd"@
}

/// The agent's command and the arguments that precede its own. On Windows
/// with a portable runtime, the direct wrapper is used when it exists
/// (`wrapper_exists`), else the agent is run through `npx.cmd`.
pub open spec fn cli_binary(os: Os, config_dir: Seq<char>, portable: bool, wrapper_exists: bool) -> (Seq<char>, Seq<Seq<char>>) {
    if portable {
        if os == Os::Windows {
            if wrapper_exists {
                (windows_cli_wrapper(os, config_dir), seq![])
            } else {
                (join(os, portable_node_dir(os, config_dir), "npx.cmd"@), seq!["remote-clauding"@])
            }
        } else {
            (join(os, join(os, portable_node_dir(os, config_dir), "bin"@), "remote-clauding"@), seq![])
        }
    } else if os == Os::Windows {
        ("cmd.exe"@, seq!["/C"@, "remote-clauding"@])
    } else {
        ("remote-clauding"@, seq![])
    }
}

/// The view of a list of strings.
pub open spec fn strs_view(v: Vec<String>) -> Seq<Seq<char>> {
    v@.map_values(|s: String| s@)
}

pub fn get_node_binary(os: Os, config_dir: &str, portable: bool) -> (r: String)
    ensures
        r@ == node_binary(os, config_dir@, portable),
{
    if portable {
        let dir = get_portable_node_dir(os, config_dir);
        if os == Os::Windows {
            path_join(os, dir.as_str(), "node.exe")
        } else {
            let bin = path_join(os, dir.as_str(), "bin");
            path_join(os, bin.as_str(), "node")
        }
    } else {
        String::from_str("node")
    }
}

pub fn get_npm_binary(os: Os, config_dir: &str, portable: bool) -> (r: (String, Vec<String>))
    ensures
        (r.0@, strs_view(r.1)) == npm_binary(os, config_dir@, portable),
{
    let r = if portable {
        let dir = get_portable_node_dir(os, config_dir);
        if os == Os::Windows {
            (path_join(os, dir.as_str(), "npm.cmd"), Vec::new())
        } else {
            let bin = path_join(os, dir.as_str(), "bin");
            (path_join(os, bin.as_str(), "npm"), Vec::new())
        }
    } else if os == Os::Windows {
        (String::from_str("cmd.exe"), vec![String::from_str("/C"), String::from_str("npm")])
    } else {
        (String::from_str("npm"), Vec::new())
    };
    assert(strs_view(r.1) =~= npm_binary(os, config_dir@, portable).1);
    r
}

/// The path of the Windows wrapper script whose existence `get_cli_binary`
/// asks about.
pub fn get_windows_cli_wrapper(os: Os, config_dir: &str) -> (r: String)
    ensures
        r@ == windows_cli_wrapper(os, config_dir@),
{
    let mut r = get_portable_node_dir(os, config_dir);
    r.append("\\remote-clauding.cmd");
    r
}

pub fn get_cli_binary(os: Os, config_dir: &str, portable: bool, wrapper_exists: bool) -> (r: (String, Vec<String>))
    ensures
        (r.0@, strs_view(r.1)) == cli_binary(os, config_dir@, portable, wrapper_exists),
{
    let r = if portable {
        let dir = get_portable_node_dir(os, config_dir);
        if os == Os::Windows {
            if wrapper_exists {
                (get_windows_cli_wrapper(os, config_dir), Vec::new())
            } else {
                (path_join(os, dir.as_str(), "npx.cmd"), vec![String::from_str("remote-clauding")])
            }
        } else {
            let bin = path_join(os, dir.as_str(), "bin");
            (path_join(os, bin.as_str(), "remote-clauding"), Vec::new())
        }
    } else if os == Os::Windows {
        (String::from_str("cmd.exe"), vec![String::from_str("/C"), String::from_str("remote-clauding")])
    } else {
        (String::from_str("remote-clauding"), Vec::new())
    };
    assert(strs_view(r.1) =~= cli_binary(os, config_dir@, portable, wrapper_exists).1);
    r
}

} // verus!
