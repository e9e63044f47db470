//! Names of channels, platforms and architectures, and whether apt is in charge.

use vstd::prelude::*;

use crate::failure::{outcome, ErrorView, Failure, UpdateError};

verus! {

/// The file that names the Debian release.
pub const DEBIAN_VERSION_FILE: &'static str = "/etc/debian_version";

/// The directory of apt's configuration.
pub const APT_CONFIG_DIR: &'static str = "/etc/apt";

/// The apt command line program.
pub const APT_GET: &'static str = "/usr/bin/apt-get";

/// Where `pkexec` is looked for first.
pub const USR_BIN_PKEXEC: &'static str = "/usr/bin/pkexec";

/// Where `pkexec` is looked for next.
pub const BIN_PKEXEC: &'static str = "/bin/pkexec";

/// What a look at the system found.
#[derive(Debug, Clone, Copy, PartialEq, Eq)]
pub struct SystemProbe {
    /// The program was built for Linux.
    pub linux: bool,
    /// `DEBIAN_VERSION_FILE` exists.
    pub debian_version: bool,
    /// `APT_CONFIG_DIR` is a directory.
    pub apt_config: bool,
    /// `APT_GET` exists.
    pub apt_get: bool,
    /// `USR_BIN_PKEXEC` exists.
    pub usr_bin_pkexec: bool,
    /// `BIN_PKEXEC` exists.
    pub bin_pkexec: bool,
}

/// The system is Debian or a derivative and can ask for privileges.
pub open spec fn apt_linux(probe: SystemProbe) -> bool {
    &&& probe.linux
    &&& probe.debian_version || probe.apt_config || probe.apt_get
    &&& probe.usr_bin_pkexec || probe.bin_pkexec
}

/// Whether this system updates through apt (Debian and its derivatives) and has
/// `pkexec` for a single privileged prompt.
pub fn is_apt_linux(probe: &SystemProbe) -> (res: bool)
    ensures
        res == apt_linux(*probe),
{
    let debian_like = probe.debian_version || probe.apt_config || probe.apt_get;
    let has_pkexec = probe.usr_bin_pkexec || probe.bin_pkexec;
    probe.linux && debian_like && has_pkexec
}

/// The name that Debian gives to an architecture.
pub open spec fn deb_arch(arch: Seq<char>) -> Result<Seq<char>, ErrorView> {
    if arch == "x86_64"@ {
        Ok("amd64"@)
    } else if arch == "aarch64"@ {
        Ok("arm64"@)
    } else {
        Err(Failure::UnsupportedAptArchitecture { arch })
    }
}

/// The name that Debian gives to an architecture of the program.
pub fn apt_deb_arch(arch: &str) -> (res: Result<&'static str, UpdateError>)
    ensures
        outcome(res) == deb_arch(arch@),
{
    if *arch == *"x86_64" {
        Ok("amd64")
    } else if *arch == *"aarch64" {
        Ok("arm64")
    } else {
        Err(Failure::UnsupportedAptArchitecture { arch: arch.to_owned() })
    }
}

/// The channels that updates are published on.
pub open spec fn known_channel(channel: Seq<char>) -> Result<Seq<char>, ErrorView> {
    if channel == "release"@ || channel == "beta"@ {
        Ok(channel)
    } else {
        Err(Failure::UnknownChannel { channel })
    }
}

/// The channel itself, where updates are published on it.
pub fn update_channel(channel: &str) -> (res: Result<&str, UpdateError>)
    ensures
        outcome(res) == known_channel(channel@),
{
    if *channel == *"release" || *channel == *"beta" {
        Ok(channel)
    } else {
        Err(Failure::UnknownChannel { channel: channel.to_owned() })
    }
}

/// The name of a platform on the update server.
pub open spec fn platform_name(os: Seq<char>, arch: Seq<char>) -> Result<Seq<char>, ErrorView> {
    if os == "windows"@ && arch == "x86_64"@ {
        Ok("windows-x86_64"@)
    } else if os == "linux"@ && arch == "x86_64"@ {
        Ok("linux-x86_64"@)
    } else if os == "linux"@ && arch == "aarch64"@ {
        Ok("linux-aarch64"@)
    } else if os == "macos"@ && arch == "x86_64"@ {
        Ok("darwin-x86_64"@)
    } else if os == "macos"@ && arch == "aarch64"@ {
        Ok("darwin-aarch64"@)
    } else {
        Err(Failure::UnsupportedPlatform { os, arch })
    }
}

/// The name that the update server gives to an operating system and architecture.
pub fn update_platform(os: &str, arch: &str) -> (res: Result<&'static str, UpdateError>)
    ensures
        outcome(res) == platform_name(os@, arch@),
{
    let x86_64 = *arch == *"x86_64";
    let aarch64 = *arch == *"aarch64";
    if *os == *"windows" && x86_64 {
        Ok("windows-x86_64")
    } else if *os == *"linux" && x86_64 {
        Ok("linux-x86_64")
    } else if *os == *"linux" && aarch64 {
        Ok("linux-aarch64")
    } else if *os == *"macos" && x86_64 {
        Ok("darwin-x86_64")
    } else if *os == *"macos" && aarch64 {
        Ok("darwin-aarch64")
    } else {
        Err(Failure::UnsupportedPlatform { os: os.to_owned(), arch: arch.to_owned() })
    }
}

/// On Linux the updater knows a platform exactly where apt knows an architecture.
pub proof fn law_linux_platforms_have_debs(arch: Seq<char>)
    ensures
        platform_name("linux"@, arch) is Ok <==> deb_arch(arch) is Ok,
{
    reveal_strlit("linux");
    reveal_strlit("windows");
    reveal_strlit("macos");
    assert("linux"@[0] != "windows"@[0]);
    assert("linux"@[0] != "macos"@[0]);
}

/// Two supported platforms never share a name on the update server.
pub proof fn law_platform_names_differ(
    os1: Seq<char>,
    arch1: Seq<char>,
    os2: Seq<char>,
    arch2: Seq<char>,
)
    requires
        platform_name(os1, arch1) is Ok,
        platform_name(os1, arch1) == platform_name(os2, arch2),
    ensures
        os1 == os2 && arch1 == arch2,
{
    reveal_strlit("windows-x86_64");
    reveal_strlit("linux-x86_64");
    reveal_strlit("linux-aarch64");
    reveal_strlit("darwin-x86_64");
    reveal_strlit("darwin-aarch64");
    let names = seq![
        "windows-x86_64"@,
        "linux-x86_64"@,
        "linux-aarch64"@,
        "darwin-x86_64"@,
        "darwin-aarch64"@,
    ];
    assert(names[0][0] == 'w' && names[1][0] == 'l' && names[3][0] == 'd');
    assert(names[0].len() == 14 && names[1].len() == 12 && names[2].len() == 13);
    assert(names[2][0] == 'l' && names[4][0] == 'd');
    assert(names[3].len() == 13 && names[4].len() == 14);
}

/// A system updates through apt exactly where it is a Linux, shows one of the three
/// marks of apt, and has `pkexec` in one of the two places.
pub proof fn law_apt_linux(probe: SystemProbe)
    ensures
        apt_linux(probe) ==> probe.linux,
        apt_linux(probe) ==> probe.debian_version || probe.apt_config || probe.apt_get,
        apt_linux(probe) ==> probe.usr_bin_pkexec || probe.bin_pkexec,
        probe.linux && (probe.debian_version || probe.apt_config || probe.apt_get) && (
        probe.usr_bin_pkexec || probe.bin_pkexec) ==> apt_linux(probe),
{
}

/// A channel is granted as it stands, and exactly where it is one of the two;
/// another is quoted in the refusal.
pub proof fn law_channel(channel: Seq<char>)
    ensures
        known_channel(channel) matches Ok(granted) ==> granted == channel,
        known_channel(channel) is Ok <==> channel == "release"@ || channel == "beta"@,
        known_channel(channel) matches Err(error) ==> error == (Failure::UnknownChannel {
            channel,
        }),
{
}

/// A platform's name on the server is the operating system, called `darwin` where
/// it is `macos`, a hyphen and the architecture. Updates exist for the two
/// architectures on the three systems, but not for Windows on `aarch64`; the refusal
/// quotes both parts.
pub proof fn law_platform_name(os: Seq<char>, arch: Seq<char>)
    ensures
        platform_name(os, arch) matches Ok(name) ==> name == (if os == "macos"@ {
            "darwin"@
        } else {
            os
        }) + "-"@ + arch,
        platform_name(os, arch) is Ok <==> {
            &&& os == "windows"@ || os == "linux"@ || os == "macos"@
            &&& arch == "x86_64"@ || arch == "aarch64"@
            &&& !(os == "windows"@ && arch == "aarch64"@)
        },
        platform_name(os, arch) matches Err(error) ==> error == (Failure::UnsupportedPlatform {
            os,
            arch,
        }),
{
    reveal_strlit("windows");
    reveal_strlit("linux");
    reveal_strlit("macos");
    reveal_strlit("darwin");
    reveal_strlit("-");
    reveal_strlit("x86_64");
    reveal_strlit("aarch64");
    reveal_strlit("windows-x86_64");
    reveal_strlit("linux-x86_64");
    reveal_strlit("linux-aarch64");
    reveal_strlit("darwin-x86_64");
    reveal_strlit("darwin-aarch64");
    assert("windows"@[0] == 'w' && "linux"@[0] == 'l' && "macos"@[0] == 'm');
    assert("x86_64"@[0] == 'x' && "aarch64"@[0] == 'a');
    assert("windows-x86_64"@ =~= "windows"@ + "-"@ + "x86_64"@);
    assert("linux-x86_64"@ =~= "linux"@ + "-"@ + "x86_64"@);
    assert("linux-aarch64"@ =~= "linux"@ + "-"@ + "aarch64"@);
    assert("darwin-x86_64"@ =~= "darwin"@ + "-"@ + "x86_64"@);
    assert("darwin-aarch64"@ =~= "darwin"@ + "-"@ + "aarch64"@);
}

/// Debian has a name for exactly two architectures, a different one for each; any
/// other architecture is quoted in the refusal.
pub proof fn law_deb_arch(arch: Seq<char>)
    ensures
        deb_arch(arch) is Ok <==> arch == "x86_64"@ || arch == "aarch64"@,
        deb_arch(arch) matches Ok(name) ==> (name == "amd64"@ <==> arch == "x86_64"@) && (name
            == "arm64"@ <==> arch == "aarch64"@),
        deb_arch(arch) matches Err(error) ==> error == (Failure::UnsupportedAptArchitecture {
            arch,
        }),
{
    reveal_strlit("x86_64");
    reveal_strlit("aarch64");
    reveal_strlit("amd64");
    reveal_strlit("arm64");
    assert("x86_64"@[0] != "aarch64"@[0]);
    assert("amd64"@[1] == 'm' && "arm64"@[1] == 'r');
}

/// Both places where `pkexec` is looked for hold a program of that name, the first
/// below `/usr`, where `apt-get` is looked for too; the other two marks of apt lie
/// below `/etc`.
pub proof fn law_probed_places()
    ensures
        USR_BIN_PKEXEC@ == "/usr"@ + BIN_PKEXEC@,
        BIN_PKEXEC@ == "/bin/"@ + "pkexec"@,
        APT_GET@ == "/usr"@ + "/bin/"@ + "apt-get"@,
        DEBIAN_VERSION_FILE@ == "/etc/"@ + "debian_version"@,
        APT_CONFIG_DIR@ == "/etc/"@ + "apt"@,
{
    reveal_strlit("/usr");
    reveal_strlit("/bin/");
    reveal_strlit("/etc/");
    reveal_strlit("pkexec");
    reveal_strlit("apt-get");
    reveal_strlit("debian_version");
    reveal_strlit("apt");
    reveal_strlit("/usr/bin/pkexec");
    reveal_strlit("/bin/pkexec");
    reveal_strlit("/usr/bin/apt-get");
    reveal_strlit("/etc/debian_version");
    reveal_strlit("/etc/apt");
}

} // verus!
