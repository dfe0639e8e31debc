//! Assembly of the sandbox runner's argument vector.

use vstd::prelude::*;
use crate::profile::Profile;
use crate::profile::lines_view;
use crate::profile::url_view;

verus! {

use vstd::string::StringExecFns;

/// The exact argument vector owed to the sandbox runner: the fixed prefix
/// naming the runner, the release channel, the CPU architecture, the browser
/// binary, file forwarding and the application identifier; then the profile
/// flag carrying the profile's directory name; then, only when a URL was
/// supplied, that URL verbatim as the final token.
pub open spec fn command_tokens(profile: Profile, url: Option<Seq<char>>) -> Seq<Seq<char>> {
    let base: Seq<Seq<char>> = seq![
        "/usr/bin/flatpak"@,
        "run"@,
        "--branch=stable"@,
        "--arch=x86_64"@,
        "--command=/app/bin/chrome"@,
        "--file-forwarding"@,
        "com.google.Chrome"@,
        "--profile-directory="@ + profile.spec_dir_name(),
    ];
    match url {
        Some(u) => base.push(u),
        None => base,
    }
}

/// Builds the launch command for the given profile and optional URL.
pub fn build_command(profile: Profile, url: &Option<String>) -> (cmd: Vec<String>)
    ensures
        lines_view(cmd@) == command_tokens(profile, url_view(*url)),
{
    let mut cmd: Vec<String> = Vec::new();
    cmd.push(String::from_str("/usr/bin/flatpak"));
    cmd.push(String::from_str("run"));
    cmd.push(String::from_str("--branch=stable"));
    cmd.push(String::from_str("--arch=x86_64"));
    cmd.push(String::from_str("--command=/app/bin/chrome"));
    cmd.push(String::from_str("--file-forwarding"));
    cmd.push(String::from_str("com.google.Chrome"));
    let mut flag = String::from_str("--profile-directory=");
    let name = profile.dir_name();
    flag.append(name.as_str());
    cmd.push(flag);
    match url {
        Some(u) => {
            cmd.push(u.clone());
        },
        None => {},
    }
    proof {
        assert(lines_view(cmd@) =~= command_tokens(profile, url_view(*url)));
    }
    cmd
}

} // verus!
