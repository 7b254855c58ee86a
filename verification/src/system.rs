//! What is known of the machine, and the checks made before an
//! installation begins.
//!
//! Nothing here looks at the machine. Whoever calls reads the environment
//! and runs the probing commands, and hands in what came back; what is
//! made of it is decided here.

use vstd::prelude::*;
use vstd::string::*;
use crate::executor::{Outcome, Report};
use crate::text::{
    decimal, has_prefix, lines, lines_of, opt_text, parse_u64, parsed_u64, str_eq, stripped,
    strip_prefix,
    texts, trim, trim_matches, trimmed, unsigned_text, words, words_of,
};

verus! {

broadcast use vstd::string::group_string_axioms;

/// The operating system of the machine.
#[derive(Debug, Clone, Copy, PartialEq, Eq, Structural)]
pub enum Os {
    MacOS,
    Linux,
}

impl Os {
    pub open spec fn spec_name(&self) -> Seq<char> {
        match self {
            Os::MacOS => "macOS"@,
            Os::Linux => "Linux"@,
        }
    }

    pub fn name(&self) -> (r: &'static str)
        ensures
            r@ == self.spec_name(),
    {
        match self {
            Os::MacOS => "macOS",
            Os::Linux => "Linux",
        }
    }
}

/// The processor architecture of the machine.
#[derive(Debug, Clone, Copy, PartialEq, Eq, Structural)]
pub enum Arch {
    Aarch64,
    X86_64,
}

impl Arch {
    pub open spec fn spec_name(&self) -> Seq<char> {
        match self {
            Arch::Aarch64 => "arm64"@,
            Arch::X86_64 => "x86_64"@,
        }
    }

    pub fn name(&self) -> (r: &'static str)
        ensures
            r@ == self.spec_name(),
    {
        match self {
            Arch::Aarch64 => "arm64",
            Arch::X86_64 => "x86_64",
        }
    }
}

/// Where each package manager was found, if it was.
#[derive(Debug, Clone)]
pub struct PackageManagers {
    pub homebrew: Option<String>,
    pub cargo: Option<String>,
    pub npm: Option<String>,
    pub pip: Option<String>,
    pub apt: Option<String>,
}

/// The Linux distribution, where the machine runs one.
#[derive(Debug, Clone)]
pub struct LinuxDistro {
    pub id: String,
    pub name: String,
}

/// All that is known of the machine.
#[derive(Debug, Clone)]
pub struct SystemInfo {
    pub os: Os,
    pub arch: Arch,
    pub hostname: String,
    pub shell: String,
    pub home_dir: String,
    pub config_dir: String,
    pub package_managers: PackageManagers,
    pub linux_distro: Option<LinuxDistro>,
}

/// What was read from the machine, for `SystemInfo::detect` to go by.
#[derive(Debug, Clone)]
pub struct Readings {
    /// The name of the operating system, as the compiler knows it
    pub os: String,
    /// The name of the architecture, as the compiler knows it
    pub arch: String,
    /// The host name, if it could be had
    pub hostname: Option<String>,
    /// The user's shell, if the environment names one
    pub shell: Option<String>,
    /// The user's home directory, if the environment names one
    pub home: Option<String>,
    /// The directory for configuration files, if the environment names one
    pub xdg_config_home: Option<String>,
    pub package_managers: PackageManagers,
    /// What the file that describes the distribution holds, if it could be
    /// read
    pub os_release: Option<String>,
}

/// Why a machine cannot be set up.
#[derive(Debug, Clone, PartialEq, Eq)]
pub enum DetectError {
    UnsupportedOs(String),
    UnsupportedArch(String),
}

impl DetectError {
    pub open spec fn spec_message(&self) -> Seq<char> {
        match self {
            DetectError::UnsupportedOs(name) => "Unsupported operating system: "@ + name@,
            DetectError::UnsupportedArch(name) => "Unsupported architecture: "@ + name@,
        }
    }

    /// The error in words.
    pub fn message(&self) -> (r: String)
        ensures
            r@ == self.spec_message(),
    {
        match self {
            DetectError::UnsupportedOs(name) => String::from_str(
                "Unsupported operating system: ",
            ).concat(name.as_str()),
            DetectError::UnsupportedArch(name) => String::from_str(
                "Unsupported architecture: ",
            ).concat(name.as_str()),
        }
    }
}

/// The operating system that goes by the given name.
pub open spec fn os_named(name: Seq<char>) -> Option<Os> {
    if name == "macos"@ {
        Some(Os::MacOS)
    } else if name == "linux"@ {
        Some(Os::Linux)
    } else {
        None
    }
}

/// The architecture that goes by the given name.
pub open spec fn arch_named(name: Seq<char>) -> Option<Arch> {
    if name == "aarch64"@ {
        Some(Arch::Aarch64)
    } else if name == "x86_64"@ {
        Some(Arch::X86_64)
    } else {
        None
    }
}

/// The operating system of the given name, which must be one of the two
/// that are supported.
pub fn detect_os(name: &str) -> (r: Result<Os, DetectError>)
    ensures
        match r {
            Ok(os) => os_named(name@) == Some(os),
            Err(DetectError::UnsupportedOs(n)) => os_named(name@) is None && n@ == name@,
            Err(DetectError::UnsupportedArch(_)) => false,
        },
{
    if str_eq(name, "macos") {
        Ok(Os::MacOS)
    } else if str_eq(name, "linux") {
        Ok(Os::Linux)
    } else {
        Err(DetectError::UnsupportedOs(String::from_str(name)))
    }
}

/// The architecture of the given name, which must be one of the two that
/// are supported.
pub fn detect_arch(name: &str) -> (r: Result<Arch, DetectError>)
    ensures
        match r {
            Ok(arch) => arch_named(name@) == Some(arch),
            Err(DetectError::UnsupportedArch(n)) => arch_named(name@) is None && n@ == name@,
            Err(DetectError::UnsupportedOs(_)) => false,
        },
{
    if str_eq(name, "aarch64") {
        Ok(Arch::Aarch64)
    } else if str_eq(name, "x86_64") {
        Ok(Arch::X86_64)
    } else {
        Err(DetectError::UnsupportedArch(String::from_str(name)))
    }
}

/// The path that a lookup of a command gave: what it wrote, without the
/// white space around it, if the lookup succeeded and wrote anything.
pub open spec fn located(report: Report) -> Option<Seq<char>> {
    match report {
        Report::Exited { code, stdout, stderr } => if code == 0 && trimmed(stdout).len() > 0 {
            Some(trimmed(stdout))
        } else {
            None
        },
        Report::NotStarted { .. } => None,
    }
}

/// Reads the outcome of looking a command up: where the command is, if it
/// was found.
pub fn which(lookup: &Outcome) -> (r: Option<String>)
    ensures
        opt_text(r) == located(lookup@),
{
    match lookup {
        Outcome::NotStarted { .. } => None,
        Outcome::Exited { code, stdout, stderr } => {
            if *code == 0 {
                let path = trim(stdout.as_str());
                if path.as_str().unicode_len() == 0 {
                    None
                } else {
                    Some(path)
                }
            } else {
                None
            }
        },
    }
}

/// Reads the outcomes of looking up each package manager. For `pip`, the
/// lookup of `pip3` counts first and that of `pip` second.
pub fn detect_package_managers(
    brew: &Outcome,
    cargo: &Outcome,
    npm: &Outcome,
    pip3: &Outcome,
    pip: &Outcome,
    apt: &Outcome,
) -> (r: PackageManagers)
    ensures
        opt_text(r.homebrew) == located(brew@),
        opt_text(r.cargo) == located(cargo@),
        opt_text(r.npm) == located(npm@),
        opt_text(r.pip) == if located(pip3@) is Some {
            located(pip3@)
        } else {
            located(pip@)
        },
        opt_text(r.apt) == located(apt@),
{
    let first = which(pip3);
    let pip_path = match first {
        Some(path) => Some(path),
        None => which(pip),
    };
    PackageManagers {
        homebrew: which(brew),
        cargo: which(cargo),
        npm: which(npm),
        pip: pip_path,
        apt: which(apt),
    }
}

/// The value that a list of lines gives to a key: what follows the key on
/// the last line that begins with it, without the quotation marks around
/// it. Where no line begins with the key, the value is empty.
pub open spec fn field_value(lines: Seq<Seq<char>>, key: Seq<char>) -> Seq<char>
    decreases lines.len(),
{
    if lines.len() == 0 {
        Seq::empty()
    } else if has_prefix(lines.last(), key) {
        stripped(lines.last().skip(key.len() as int), Some('"'))
    } else {
        field_value(lines.drop_last(), key)
    }
}

/// Reads the file that describes a Linux distribution: its identifier and
/// its name. Without an identifier there is no description.
pub fn parse_os_release(content: &str) -> (r: Option<LinuxDistro>)
    ensures
        match r {
            Some(distro) => distro.id@ == field_value(lines_of(content@), "ID="@) && distro.name@
                == field_value(lines_of(content@), "NAME="@) && distro.id@.len() > 0,
            None => field_value(lines_of(content@), "ID="@).len() == 0,
        },
{
    let all = lines(content);
    let ghost ls = texts(all@);
    let mut id = String::new();
    let mut name = String::new();
    let mut i: usize = 0;
    assert(ls.take(0) =~= Seq::<Seq<char>>::empty());
    while i < all.len()
        invariant
            i <= all.len(),
            ls == texts(all@),
            id@ == field_value(ls.take(i as int), "ID="@),
            name@ == field_value(ls.take(i as int), "NAME="@),
        decreases all.len() - i,
    {
        proof {
            assert(ls.take(i as int + 1).drop_last() =~= ls.take(i as int));
            assert(ls.take(i as int + 1).last() == all@[i as int]@);
            reveal_strlit("ID=");
            reveal_strlit("NAME=");
            if has_prefix(all@[i as int]@, "ID="@) && has_prefix(all@[i as int]@, "NAME="@) {
                assert(all@[i as int]@.subrange(0, 3)[0] == 'I');
                assert(all@[i as int]@.subrange(0, 5)[0] == 'N');
            }
        }
        if let Some(val) = strip_prefix(all[i].as_str(), "ID=") {
            id = trim_matches(val.as_str(), '"');
        } else if let Some(val) = strip_prefix(all[i].as_str(), "NAME=") {
            name = trim_matches(val.as_str(), '"');
        }
        i += 1;
    }
    assert(ls.take(all.len() as int) =~= ls);
    if id.as_str().unicode_len() == 0 {
        None
    } else {
        Some(LinuxDistro { id, name })
    }
}

/// A directory and a name below it as one path.
pub open spec fn joined_path(dir: Seq<char>, name: Seq<char>) -> Seq<char> {
    if dir.len() == 0 {
        name
    } else if dir.last() == '/' {
        dir + name
    } else {
        dir + "/"@ + name
    }
}

/// A directory and a name below it as one path.
pub fn join_path(dir: &str, name: &str) -> (r: String)
    ensures
        r@ == joined_path(dir@, name@),
{
    let n = dir.unicode_len();
    if n == 0 {
        String::from_str(name)
    } else if dir.get_char(n - 1) == '/' {
        String::from_str(dir).concat(name)
    } else {
        String::from_str(dir).concat("/").concat(name)
    }
}

fn or_text(value: &Option<String>, fallback: &str) -> (r: String)
    ensures
        r@ == match *value {
            Some(t) => t@,
            None => fallback@,
        },
{
    match value {
        Some(t) => t.clone(),
        None => String::from_str(fallback),
    }
}

impl SystemInfo {
    /// Makes out the machine from what was read of it. The operating
    /// system and the architecture must be among those supported; what
    /// else could not be read gets its usual value.
    pub fn detect(readings: &Readings) -> (r: Result<SystemInfo, DetectError>)
        ensures
            match r {
                Ok(info) => {
                    &&& os_named(readings.os@) == Some(info.os)
                    &&& arch_named(readings.arch@) == Some(info.arch)
                    &&& info.hostname@ == match readings.hostname {
                        Some(h) => h@,
                        None => "unknown"@,
                    }
                    &&& info.shell@ == match readings.shell {
                        Some(s) => s@,
                        None => "/bin/zsh"@,
                    }
                    &&& info.home_dir@ == match readings.home {
                        Some(h) => h@,
                        None => "/tmp"@,
                    }
                    &&& info.config_dir@ == match readings.xdg_config_home {
                        Some(c) => c@,
                        None => joined_path(info.home_dir@, ".config"@),
                    }
                    &&& opt_text(info.package_managers.homebrew) == opt_text(
                        readings.package_managers.homebrew,
                    )
                    &&& opt_text(info.package_managers.cargo) == opt_text(
                        readings.package_managers.cargo,
                    )
                    &&& opt_text(info.package_managers.npm) == opt_text(
                        readings.package_managers.npm,
                    )
                    &&& opt_text(info.package_managers.pip) == opt_text(
                        readings.package_managers.pip,
                    )
                    &&& opt_text(info.package_managers.apt) == opt_text(
                        readings.package_managers.apt,
                    )
                    &&& match info.linux_distro {
                        Some(distro) => info.os == Os::Linux && (readings.os_release matches Some(
                            content,
                        ) && distro.id@ == field_value(lines_of(content@), "ID="@) && distro.name@
                            == field_value(lines_of(content@), "NAME="@) && distro.id@.len() > 0),
                        None => info.os != Os::Linux || (readings.os_release matches Some(content)
                            ==> field_value(lines_of(content@), "ID="@).len() == 0),
                    }
                },
                Err(DetectError::UnsupportedOs(name)) => os_named(readings.os@) is None && name@
                    == readings.os@,
                Err(DetectError::UnsupportedArch(name)) => os_named(readings.os@) is Some
                    && arch_named(readings.arch@) is None && name@ == readings.arch@,
            },
    {
        let os = match detect_os(readings.os.as_str()) {
            Ok(os) => os,
            Err(e) => {
                return Err(e);
            },
        };
        let arch = match detect_arch(readings.arch.as_str()) {
            Ok(arch) => arch,
            Err(e) => {
                return Err(e);
            },
        };
        let hostname = or_text(&readings.hostname, "unknown");
        let shell = or_text(&readings.shell, "/bin/zsh");
        let home_dir = or_text(&readings.home, "/tmp");
        let config_dir = match &readings.xdg_config_home {
            Some(dir) => dir.clone(),
            None => join_path(home_dir.as_str(), ".config"),
        };
        let linux_distro = if os == Os::Linux {
            match &readings.os_release {
                Some(content) => parse_os_release(content.as_str()),
                None => None,
            }
        } else {
            None
        };
        let package_managers = PackageManagers {
            homebrew: readings.package_managers.homebrew.clone(),
            cargo: readings.package_managers.cargo.clone(),
            npm: readings.package_managers.npm.clone(),
            pip: readings.package_managers.pip.clone(),
            apt: readings.package_managers.apt.clone(),
        };
        Ok(
            SystemInfo {
                os,
                arch,
                hostname,
                shell,
                home_dir,
                config_dir,
                package_managers,
                linux_distro,
            },
        )
    }

    pub open spec fn spec_brew_prefix(&self) -> Seq<char> {
        match (self.os, self.arch) {
            (Os::MacOS, Arch::Aarch64) => "/opt/homebrew"@,
            (Os::MacOS, Arch::X86_64) => "/usr/local"@,
            (Os::Linux, _) => "/home/linuxbrew/.linuxbrew"@,
        }
    }

    /// Where the package manager installs to, which differs with the
    /// system and, on macOS, with the architecture.
    pub fn brew_prefix(&self) -> (r: &'static str)
        ensures
            r@ == self.spec_brew_prefix(),
    {
        match (self.os, self.arch) {
            (Os::MacOS, Arch::Aarch64) => "/opt/homebrew",
            (Os::MacOS, Arch::X86_64) => "/usr/local",
            (Os::Linux, _) => "/home/linuxbrew/.linuxbrew",
        }
    }

    /// Whether the package manager was found.
    pub fn has_homebrew(&self) -> (r: bool)
        ensures
            r == self.package_managers.homebrew.is_some(),
    {
        self.package_managers.homebrew.is_some()
    }

    /// Whether the machine is a Mac with an Apple processor.
    pub fn is_apple_silicon(&self) -> (r: bool)
        ensures
            r == (self.os == Os::MacOS && self.arch == Arch::Aarch64),
    {
        self.os == Os::MacOS && self.arch == Arch::Aarch64
    }
}

/// How a check before the installation came out.
#[derive(Debug, Clone, Copy, PartialEq, Eq, Structural)]
pub enum CheckStatus {
    Pass,
    Warn,
    Fail,
}

/// One check made before the installation.
#[derive(Debug, Clone)]
pub struct PreflightCheck {
    pub name: String,
    pub status: CheckStatus,
    pub detail: String,
}

/// The checks made before the installation.
#[derive(Debug, Clone)]
pub struct PreflightResult {
    pub checks: Vec<PreflightCheck>,
}

/// What the probes of the machine gave, for the checks to go by.
#[derive(Debug, Clone)]
pub struct Probes {
    /// How one ping of the code host ended
    pub ping: Outcome,
    /// How the listing of free disk space, in gigabytes, ended
    pub disk: Outcome,
    /// How the question after the compiler tools ended
    pub xcode: Outcome,
    /// Why a file could not be written to the home directory, if it
    /// could not
    pub home_write_error: Option<String>,
    /// Where `git` was found, if it was
    pub git_path: Option<String>,
    /// How asking `git` for its version ended
    pub git_version: Outcome,
}

/// A check as a value of the specification.
pub struct CheckView {
    pub name: Seq<char>,
    pub status: CheckStatus,
    pub detail: Seq<char>,
}

impl View for PreflightCheck {
    type V = CheckView;

    open spec fn view(&self) -> CheckView {
        CheckView { name: self.name@, status: self.status, detail: self.detail@ }
    }
}

fn check(name: &str, status: CheckStatus, detail: String) -> (r: PreflightCheck)
    ensures
        r@ == (CheckView { name: name@, status, detail: detail@ }),
{
    PreflightCheck { name: String::from_str(name), status, detail }
}

/// The check of the connection, from one ping.
pub open spec fn internet_checked(ping: Report) -> CheckView {
    if ping.succeeded() {
        CheckView { name: "Internet connectivity"@, status: CheckStatus::Pass, detail: "Connected"@ }
    } else {
        CheckView {
            name: "Internet connectivity"@,
            status: CheckStatus::Fail,
            detail: "Cannot reach github.com - check your connection"@,
        }
    }
}

pub fn check_internet(ping: &Outcome) -> (r: PreflightCheck)
    ensures
        r@ == internet_checked(ping@),
{
    if ping.success() {
        check("Internet connectivity", CheckStatus::Pass, String::from_str("Connected"))
    } else {
        check(
            "Internet connectivity",
            CheckStatus::Fail,
            String::from_str("Cannot reach github.com - check your connection"),
        )
    }
}

/// The check of the package manager: it is no failure if it is missing,
/// for the installation brings it.
pub open spec fn homebrew_checked(found: Option<Seq<char>>) -> CheckView {
    match found {
        Some(path) => CheckView {
            name: "Homebrew"@,
            status: CheckStatus::Pass,
            detail: "Found at "@ + path,
        },
        None => CheckView {
            name: "Homebrew"@,
            status: CheckStatus::Warn,
            detail: "Not installed - will be installed during setup"@,
        },
    }
}

pub fn check_homebrew(system: &SystemInfo) -> (r: PreflightCheck)
    ensures
        r@ == homebrew_checked(opt_text(system.package_managers.homebrew)),
{
    match &system.package_managers.homebrew {
        Some(path) => check(
            "Homebrew",
            CheckStatus::Pass,
            String::from_str("Found at ").concat(path.as_str()),
        ),
        None => check(
            "Homebrew",
            CheckStatus::Warn,
            String::from_str("Not installed - will be installed during setup"),
        ),
    }
}

/// The gigabytes that a listing of free disk space shows: the fourth word
/// of its second line, read as a number, and zero where there is no such
/// word or it is no number.
pub open spec fn free_gigabytes(listing: Seq<char>) -> u64 {
    let rows = lines_of(listing);
    if rows.len() < 2 {
        0
    } else {
        let columns = words_of(rows[1]);
        if columns.len() < 4 {
            0
        } else {
            match parsed_u64(columns[3]) {
                Some(n) => n,
                None => 0,
            }
        }
    }
}

/// The gigabytes that a listing of free disk space shows.
pub fn available_gigabytes(listing: &str) -> (r: u64)
    ensures
        r == free_gigabytes(listing@),
{
    let rows = lines(listing);
    if rows.len() < 2 {
        return 0;
    }
    assert(texts(rows@)[1] == rows@[1]@);
    let columns = words(rows[1].as_str());
    if columns.len() < 4 {
        return 0;
    }
    assert(texts(columns@)[3] == columns@[3]@);
    match parse_u64(columns[3].as_str()) {
        Some(n) => n,
        None => 0,
    }
}

/// The check of the disk: ten gigabytes and more are enough, five and
/// more are tight, fewer are too few. Where the listing could not be had,
/// nothing is known, which is no failure.
pub open spec fn disk_checked(disk: Report) -> CheckView {
    match disk {
        Report::Exited { code, stdout, stderr } => if code == 0 {
            let free = free_gigabytes(stdout);
            if free >= 10 {
                CheckView {
                    name: "Disk space"@,
                    status: CheckStatus::Pass,
                    detail: decimal(free as int) + "GB available"@,
                }
            } else if free >= 5 {
                CheckView {
                    name: "Disk space"@,
                    status: CheckStatus::Warn,
                    detail: "Only "@ + decimal(free as int) + "GB available - may be tight"@,
                }
            } else {
                CheckView {
                    name: "Disk space"@,
                    status: CheckStatus::Fail,
                    detail: "Only "@ + decimal(free as int) + "GB available - need at least 5GB"@,
                }
            }
        } else {
            CheckView {
                name: "Disk space"@,
                status: CheckStatus::Warn,
                detail: "Could not determine available disk space"@,
            }
        },
        Report::NotStarted { .. } => CheckView {
            name: "Disk space"@,
            status: CheckStatus::Warn,
            detail: "Could not determine available disk space"@,
        },
    }
}

pub fn check_disk_space(disk: &Outcome) -> (r: PreflightCheck)
    ensures
        r@ == disk_checked(disk@),
{
    match disk {
        Outcome::Exited { code, stdout, stderr } => {
            if *code == 0 {
                let free = available_gigabytes(stdout.as_str());
                let amount = unsigned_text(free);
                if free >= 10 {
                    check("Disk space", CheckStatus::Pass, amount.concat("GB available"))
                } else if free >= 5 {
                    check(
                        "Disk space",
                        CheckStatus::Warn,
                        String::from_str("Only ").concat(amount.as_str()).concat(
                            "GB available - may be tight",
                        ),
                    )
                } else {
                    check(
                        "Disk space",
                        CheckStatus::Fail,
                        String::from_str("Only ").concat(amount.as_str()).concat(
                            "GB available - need at least 5GB",
                        ),
                    )
                }
            } else {
                check(
                    "Disk space",
                    CheckStatus::Warn,
                    String::from_str("Could not determine available disk space"),
                )
            }
        },
        Outcome::NotStarted { .. } => check(
            "Disk space",
            CheckStatus::Warn,
            String::from_str("Could not determine available disk space"),
        ),
    }
}

/// The check of the compiler tools: it is no failure if they are missing.
pub open spec fn xcode_checked(xcode: Report) -> CheckView {
    if xcode.succeeded() {
        CheckView { name: "Xcode CLT"@, status: CheckStatus::Pass, detail: "Installed"@ }
    } else {
        CheckView {
            name: "Xcode CLT"@,
            status: CheckStatus::Warn,
            detail: "Not installed - will prompt during Homebrew install"@,
        }
    }
}

pub fn check_xcode_clt(xcode: &Outcome) -> (r: PreflightCheck)
    ensures
        r@ == xcode_checked(xcode@),
{
    if xcode.success() {
        check("Xcode CLT", CheckStatus::Pass, String::from_str("Installed"))
    } else {
        check(
            "Xcode CLT",
            CheckStatus::Warn,
            String::from_str("Not installed - will prompt during Homebrew install"),
        )
    }
}

/// The check of the home directory, from the attempt to write to it.
pub open spec fn home_checked(home: Seq<char>, write_error: Option<Seq<char>>) -> CheckView {
    match write_error {
        None => CheckView {
            name: "Home directory"@,
            status: CheckStatus::Pass,
            detail: home + " is writable"@,
        },
        Some(e) => CheckView {
            name: "Home directory"@,
            status: CheckStatus::Fail,
            detail: home + " is not writable: "@ + e,
        },
    }
}

pub fn check_home_writable(system: &SystemInfo, write_error: &Option<String>) -> (r:
    PreflightCheck)
    ensures
        r@ == home_checked(system.home_dir@, opt_text(*write_error)),
{
    match write_error {
        None => check(
            "Home directory",
            CheckStatus::Pass,
            system.home_dir.clone().concat(" is writable"),
        ),
        Some(e) => check(
            "Home directory",
            CheckStatus::Fail,
            system.home_dir.clone().concat(" is not writable: ").concat(e.as_str()),
        ),
    }
}

/// The version that `git` gave of itself: what it wrote, without the
/// white space around it, if it could be started at all.
pub open spec fn git_version_text(version: Report) -> Seq<char> {
    match version {
        Report::Exited { code, stdout, stderr } => trimmed(stdout),
        Report::NotStarted { .. } => "unknown version"@,
    }
}

/// The check of `git`: it is no failure if it is missing, for the
/// installation brings it.
pub open spec fn git_checked(path: Option<Seq<char>>, version: Report) -> CheckView {
    match path {
        Some(p) => CheckView {
            name: "Git"@,
            status: CheckStatus::Pass,
            detail: git_version_text(version) + " ("@ + p + ")"@,
        },
        None => CheckView {
            name: "Git"@,
            status: CheckStatus::Warn,
            detail: "Not installed - will be installed via Homebrew"@,
        },
    }
}

pub fn check_git(path: &Option<String>, version: &Outcome) -> (r: PreflightCheck)
    ensures
        r@ == git_checked(opt_text(*path), version@),
{
    match path {
        Some(p) => {
            let said = match version {
                Outcome::Exited { code, stdout, stderr } => trim(stdout.as_str()),
                Outcome::NotStarted { .. } => String::from_str("unknown version"),
            };
            check("Git", CheckStatus::Pass, said.concat(" (").concat(p.as_str()).concat(")"))
        },
        None => check(
            "Git",
            CheckStatus::Warn,
            String::from_str("Not installed - will be installed via Homebrew"),
        ),
    }
}

/// The checks as values of the specification.
pub open spec fn check_views(checks: Seq<PreflightCheck>) -> Seq<CheckView> {
    checks.map_values(|c: PreflightCheck| c@)
}

/// The checks that are made of a machine, in their order: the connection,
/// the package manager, the disk, on macOS the compiler tools, the home
/// directory, and `git`.
pub open spec fn preflight_checks(
    os: Os,
    homebrew: Option<Seq<char>>,
    home: Seq<char>,
    ping: Report,
    disk: Report,
    xcode: Report,
    home_write_error: Option<Seq<char>>,
    git_path: Option<Seq<char>>,
    git_version: Report,
) -> Seq<CheckView> {
    seq![internet_checked(ping), homebrew_checked(homebrew), disk_checked(disk)] + (if os
        == Os::MacOS {
        seq![xcode_checked(xcode)]
    } else {
        Seq::empty()
    }) + seq![home_checked(home, home_write_error), git_checked(git_path, git_version)]
}

fn add_check(checks: &mut Vec<PreflightCheck>, check: PreflightCheck)
    ensures
        check_views(final(checks)@) == check_views(old(checks)@).push(check@),
{
    assert(check_views(checks@.push(check)) =~= check_views(checks@).push(check@));
    checks.push(check);
}

impl PreflightResult {
    /// Makes all checks of the machine from what the probes gave.
    pub fn run(system: &SystemInfo, probes: &Probes) -> (r: Self)
        ensures
            check_views(r.checks@) == preflight_checks(
                system.os,
                opt_text(system.package_managers.homebrew),
                system.home_dir@,
                probes.ping@,
                probes.disk@,
                probes.xcode@,
                opt_text(probes.home_write_error),
                opt_text(probes.git_path),
                probes.git_version@,
            ),
    {
        let mut checks: Vec<PreflightCheck> = Vec::new();
        assert(check_views(checks@) =~= Seq::<CheckView>::empty());
        add_check(&mut checks, check_internet(&probes.ping));
        add_check(&mut checks, check_homebrew(system));
        add_check(&mut checks, check_disk_space(&probes.disk));
        if system.os == Os::MacOS {
            add_check(&mut checks, check_xcode_clt(&probes.xcode));
        }
        add_check(&mut checks, check_home_writable(system, &probes.home_write_error));
        add_check(&mut checks, check_git(&probes.git_path, &probes.git_version));
        assert(check_views(checks@) =~= preflight_checks(
            system.os,
            opt_text(system.package_managers.homebrew),
            system.home_dir@,
            probes.ping@,
            probes.disk@,
            probes.xcode@,
            opt_text(probes.home_write_error),
            opt_text(probes.git_path),
            probes.git_version@,
        ));
        Self { checks }
    }

    /// The checks that came out with the given status.
    pub open spec fn with_status(&self, status: CheckStatus) -> Seq<PreflightCheck> {
        self.checks@.filter(|c: PreflightCheck| c.status == status)
    }

    fn count(&self, status: CheckStatus) -> (n: usize)
        ensures
            n == self.with_status(status).len(),
    {
        let ghost pred = |c: PreflightCheck| c.status == status;
        let mut n: usize = 0;
        let mut i: usize = 0;
        assert(self.checks@.take(0).filter(pred) =~= Seq::<PreflightCheck>::empty());
        while i < self.checks.len()
            invariant
                i <= self.checks.len(),
                pred == |c: PreflightCheck| c.status == status,
                n == self.checks@.take(i as int).filter(pred).len(),
                n <= i,
            decreases self.checks.len() - i,
        {
            proof {
                assert(self.checks@.take(i as int + 1) =~= self.checks@.take(i as int).push(
                    self.checks@[i as int],
                ));
                self.checks@.take(i as int).lemma_filter_push(self.checks@[i as int], pred);
            }
            if self.checks[i].status == status {
                n += 1;
            }
            i += 1;
        }
        assert(self.checks@.take(self.checks.len() as int) =~= self.checks@);
        n
    }

    /// Whether no check failed.
    pub fn all_passed(&self) -> (r: bool)
        ensures
            r == (self.with_status(CheckStatus::Fail).len() == 0),
    {
        self.count(CheckStatus::Fail) == 0
    }

    /// How many checks failed.
    pub fn fail_count(&self) -> (n: usize)
        ensures
            n == self.with_status(CheckStatus::Fail).len(),
    {
        self.count(CheckStatus::Fail)
    }

    /// How many checks gave a warning.
    pub fn warn_count(&self) -> (n: usize)
        ensures
            n == self.with_status(CheckStatus::Warn).len(),
    {
        self.count(CheckStatus::Warn)
    }
}

} // verus!
