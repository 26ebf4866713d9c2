//! Where the portable runtime is downloaded from, and download progress.
use vstd::prelude::*;
use crate::platform::{Os, Arch};

verus! {

/// The runtime version that is provisioned.
pub open spec fn node_version() -> Seq<char> {
    "v22.14.0"@
}

/// The platform token of the download: `win`, `darwin`, or `linux` for
/// every other system.
pub open spec fn os_token(os: Os) -> Seq<char> {
    match os {
        Os::Windows => "win"@,
        Os::MacOs => "darwin"@,
        _ => "linux"@,
    }
}

/// The archive extension: zip on Windows, gzip-compressed tar elsewhere.
pub open spec fn ext_token(os: Os) -> Seq<char> {
    if os == Os::Windows { "zip"@ } else { "tar.gz"@ }
}

/// The architecture token: `arm64`, or `x64` for every other CPU.
pub open spec fn arch_token(arch: Arch) -> Seq<char> {
    if arch == Arch::Arm64 { "arm64"@ } else { "x64"@ }
}

/// `node-<version>-<os>-<arch>.<ext>`
pub open spec fn archive_name(version: Seq<char>, os: Os, arch: Arch) -> Seq<char> {
    "node-"@ + version + "-"@ + os_token(os) + "-"@ + arch_token(arch) + "."@ + ext_token(os)
}

/// `https://nodejs.org/dist/<version>/<archive name>`
pub open spec fn archive_url(version: Seq<char>, os: Os, arch: Arch) -> Seq<char> {
    "https://nodejs.org/dist/"@ + version + "/"@ + archive_name(version, os, arch)
}

fn os_name(os: Os) -> (r: &'static str)
    ensures
        r@ == os_token(os),
{
    match os {
        Os::Windows => "win",
        Os::MacOs => "darwin",
        _ => "linux",
    }
}

fn ext_name(os: Os) -> (r: &'static str)
    ensures
        r@ == ext_token(os),
{
    if os == Os::Windows { "zip" } else { "tar.gz" }
}

fn arch_name(arch: Arch) -> (r: &'static str)
    ensures
        r@ == arch_token(arch),
{
    if arch == Arch::Arm64 { "arm64" } else { "x64" }
}

/// The download URL and archive file name of runtime `version` for the
/// given platform.
pub fn download_target(version: &str, os: Os, arch: Arch) -> (r: (String, String))
    ensures
        r.0@ == archive_url(version@, os, arch),
        r.1@ == archive_name(version@, os, arch),
{
    let mut name = String::from_str("node-");
    name.append(version);
    name.append("-");
    name.append(os_name(os));
    name.append("-");
    name.append(arch_name(arch));
    name.append(".");
    name.append(ext_name(os));
    let mut url = String::from_str("https://nodejs.org/dist/");
    url.append(version);
    url.append("/");
    url.append(name.as_str());
    assert(url@ =~= archive_url(version@, os, arch));
    (url, name)
}

/// The download URL and archive file name of the provisioned runtime.
pub fn get_node_download_url(os: Os, arch: Arch) -> (r: (String, String))
    ensures
        r.0@ == archive_url(node_version(), os, arch),
        r.1@ == archive_name(node_version(), os, arch),
{
    download_target("v22.14.0", os, arch)
}

/// The percentage of a download that is done, when the total size is known
/// (non-zero): `downloaded * 100 / total`, rounded down, saturating at
/// `u32::MAX`.
pub open spec fn percent_spec(downloaded: u64, total: u64) -> Option<u32> {
    if total == 0 {
        None
    } else {
        let p = downloaded as int * 100 / total as int;
        Some(if p > u32::MAX as int { u32::MAX } else { p as u32 })
    }
}

pub fn download_percent(downloaded: u64, total: u64) -> (r: Option<u32>)
    ensures
        r == percent_spec(downloaded, total),
{
    if total == 0 {
        return None;
    }
    let p: u128 = (downloaded as u128) * 100 / (total as u128);
    if p > u32::MAX as u128 {
        Some(u32::MAX)
    } else {
        Some(p as u32)
    }
}

/// Every supported platform downloads from the documented address, and an
/// unrecognised CPU gets the `x64` build.
pub proof fn lemma_download_url_table(os: Os, arch: Arch)
    ensures
        os == Os::Windows && arch == Arch::X64 ==> archive_url(node_version(), os, arch)
            == "https://nodejs.org/dist/v22.14.0/node-v22.14.0-win-x64.zip"@,
        os == Os::Windows && arch == Arch::Arm64 ==> archive_url(node_version(), os, arch)
            == "https://nodejs.org/dist/v22.14.0/node-v22.14.0-win-arm64.zip"@,
        os == Os::MacOs && arch == Arch::X64 ==> archive_url(node_version(), os, arch)
            == "https://nodejs.org/dist/v22.14.0/node-v22.14.0-darwin-x64.tar.gz"@,
        os == Os::MacOs && arch == Arch::Arm64 ==> archive_url(node_version(), os, arch)
            == "https://nodejs.org/dist/v22.14.0/node-v22.14.0-darwin-arm64.tar.gz"@,
        os == Os::Linux && arch == Arch::X64 ==> archive_url(node_version(), os, arch)
            == "https://nodejs.org/dist/v22.14.0/node-v22.14.0-linux-x64.tar.gz"@,
        os == Os::Linux && arch == Arch::Arm64 ==> archive_url(node_version(), os, arch)
            == "https://nodejs.org/dist/v22.14.0/node-v22.14.0-linux-arm64.tar.gz"@,
        arch == Arch::Other ==> archive_url(node_version(), os, arch)
            == archive_url(node_version(), os, Arch::X64),
{
    reveal_strlit("v22.14.0");
    reveal_strlit("https://nodejs.org/dist/");
    reveal_strlit("/");
    reveal_strlit("node-");
    reveal_strlit("-");
    reveal_strlit(".");
    reveal_strlit("win");
    reveal_strlit("darwin");
    reveal_strlit("linux");
    reveal_strlit("x64");
    reveal_strlit("arm64");
    reveal_strlit("zip");
    reveal_strlit("tar.gz");
    reveal_strlit("https://nodejs.org/dist/v22.14.0/node-v22.14.0-win-x64.zip");
    reveal_strlit("https://nodejs.org/dist/v22.14.0/node-v22.14.0-win-arm64.zip");
    reveal_strlit("https://nodejs.org/dist/v22.14.0/node-v22.14.0-darwin-x64.tar.gz");
    reveal_strlit("https://nodejs.org/dist/v22.14.0/node-v22.14.0-darwin-arm64.tar.gz");
    reveal_strlit("https://nodejs.org/dist/v22.14.0/node-v22.14.0-linux-x64.tar.gz");
    reveal_strlit("https://nodejs.org/dist/v22.14.0/node-v22.14.0-linux-arm64.tar.gz");
    let u = archive_url(node_version(), os, arch);
    if os == Os::Windows && arch == Arch::X64 {
        assert(u =~= "https://nodejs.org/dist/v22.14.0/node-v22.14.0-win-x64.zip"@);
    }
    if os == Os::Windows && arch == Arch::Arm64 {
        assert(u =~= "https://nodejs.org/dist/v22.14.0/node-v22.14.0-win-arm64.zip"@);
    }
    if os == Os::MacOs && arch == Arch::X64 {
        assert(u =~= "https://nodejs.org/dist/v22.14.0/node-v22.14.0-darwin-x64.tar.gz"@);
    }
    if os == Os::MacOs && arch == Arch::Arm64 {
        assert(u =~= "https://nodejs.org/dist/v22.14.0/node-v22.14.0-darwin-arm64.tar.gz"@);
    }
    if os == Os::Linux && arch == Arch::X64 {
        assert(u =~= "https://nodejs.org/dist/v22.14.0/node-v22.14.0-linux-x64.tar.gz"@);
    }
    if os == Os::Linux && arch == Arch::Arm64 {
        assert(u =~= "https://nodejs.org/dist/v22.14.0/node-v22.14.0-linux-arm64.tar.gz"@);
    }
}

} // verus!
