//! The package manager's global install of the agent, and the agent's setup
//! run.
use vstd::prelude::*;
use crate::platform::Os;
use crate::layout::{portable_node_dir, get_portable_node_dir};
use crate::locator::{npm_binary, get_npm_binary, strs_view};

verus! {

/// The arguments that follow the package manager's leading ones: a global
/// install of `source`, into the private runtime when it is in use.
pub open spec fn install_args(os: Os, config_dir: Seq<char>, portable: bool, source: Seq<char>) -> Seq<Seq<char>> {
    let base = seq!["install"@, "-g"@, source];
    if portable {
        base.push("--prefix="@ + portable_node_dir(os, config_dir))
    } else {
        base
    }
}

/// The command line of the agent's global install from `source`.
pub fn npm_install_command(os: Os, config_dir: &str, portable: bool, source: &str) -> (r: (String, Vec<String>))
    ensures
        r.0@ == npm_binary(os, config_dir@, portable).0,
        strs_view(r.1) == npm_binary(os, config_dir@, portable).1 + install_args(os, config_dir@, portable, source@),
{
    let (npm, mut args) = get_npm_binary(os, config_dir, portable);
    let ghost lead = strs_view(args);
    args.push(String::from_str("install"));
    args.push(String::from_str("-g"));
    args.push(String::from_str(source));
    if portable {
        let mut prefix = String::from_str("--prefix=");
        let dir = get_portable_node_dir(os, config_dir);
        prefix.append(dir.as_str());
        args.push(prefix);
    }
    assert(strs_view(args) =~= lead + install_args(os, config_dir@, portable, source@));
    (npm, args)
}

/// Where the agent's package is installed from: the bundled package
/// directory when it exists, else the development checkout's root when one
/// is known, else the bundled path all the same.
pub fn install_source(package_dir: &str, package_dir_exists: bool, dev_root: Option<&str>) -> (r: String)
    ensures
        r@ == (if package_dir_exists {
            package_dir@
        } else {
            match dev_root {
                Some(d) => d@,
                None => package_dir@,
            }
        }),
{
    if package_dir_exists {
        return String::from_str(package_dir);
    }
    match dev_root {
        Some(d) => String::from_str(d),
        None => String::from_str(package_dir),
    }
}

/// The outcome of the install run: its output on success, else an error
/// carrying its error output and its output.
pub fn install_result(success: bool, stdout: String, stderr: &str) -> (r: Result<String, String>)
    ensures
        match r {
            Ok(out) => success && out@ == stdout@,
            Err(e) => !success && e@ == "npm install failed: "@ + stderr@ + "\n"@ + stdout@,
        },
{
    if success {
        Ok(stdout)
    } else {
        let mut e = String::from_str("npm install failed: ");
        e.append(stderr);
        e.append("\n");
        e.append(stdout.as_str());
        Err(e)
    }
}

/// The outcome of the agent's setup run: its output on success, else an
/// error carrying its error output and its output.
pub fn setup_result(success: bool, stdout: String, stderr: &str) -> (r: Result<String, String>)
    ensures
        match r {
            Ok(out) => success && out@ == stdout@,
            Err(e) => !success && e@ == stderr@ + "\n"@ + stdout@,
        },
{
    if success {
        Ok(stdout)
    } else {
        let mut e = String::from_str(stderr);
        e.append("\n");
        e.append(stdout.as_str());
        Err(e)
    }
}

} // verus!
