use installer::executor::Outcome;
use installer::system::{
    available_gigabytes, check_disk_space, check_git, check_home_writable, check_homebrew,
    check_internet, check_xcode_clt, detect_arch, detect_os, detect_package_managers, join_path,
    parse_os_release, which, Arch, CheckStatus, DetectError, Os, PackageManagers, PreflightResult,
    Probes, Readings, SystemInfo,
};

fn exited(code: i32, stdout: &str) -> Outcome {
    Outcome::Exited { code, stdout: stdout.to_string(), stderr: String::new() }
}

fn missing() -> Outcome {
    Outcome::NotStarted { reason: "No such file or directory".to_string() }
}

fn no_managers() -> PackageManagers {
    PackageManagers { homebrew: None, cargo: None, npm: None, pip: None, apt: None }
}

fn readings(os: &str, arch: &str) -> Readings {
    Readings {
        os: os.to_string(),
        arch: arch.to_string(),
        hostname: None,
        shell: None,
        home: None,
        xdg_config_home: None,
        package_managers: no_managers(),
        os_release: None,
    }
}

#[test]
fn detect_system_info() {
    let info = SystemInfo::detect(&readings("linux", "x86_64"));
    assert!(info.is_ok(), "SystemInfo::detect() should succeed");

    let info = info.unwrap();
    assert!(!info.hostname.is_empty());
    assert!(!info.shell.is_empty());
    assert!(std::path::Path::new(&info.home_dir).exists());
}

#[test]
fn detect_os_is_known() {
    let os = detect_os("linux");
    assert!(os.is_ok());
    let os = os.unwrap();
    assert!(os == Os::MacOS || os == Os::Linux);
    assert!(!os.name().is_empty());
}

#[test]
fn detect_arch_is_known() {
    let arch = detect_arch("aarch64");
    assert!(arch.is_ok());
    let arch = arch.unwrap();
    assert!(arch == Arch::Aarch64 || arch == Arch::X86_64);
    assert!(!arch.name().is_empty());
}

#[test]
fn brew_prefix_varies_by_platform() {
    let mut info = SystemInfo::detect(&readings("linux", "x86_64")).unwrap();

    info.os = Os::MacOS;
    info.arch = Arch::Aarch64;
    assert_eq!(info.brew_prefix(), "/opt/homebrew");

    info.os = Os::MacOS;
    info.arch = Arch::X86_64;
    assert_eq!(info.brew_prefix(), "/usr/local");

    info.os = Os::Linux;
    assert_eq!(info.brew_prefix(), "/home/linuxbrew/.linuxbrew");
}

#[test]
fn which_finds_common_commands() {
    assert!(which(&exited(0, "/bin/sh\n")).is_some(), "sh should be findable");
    assert!(
        which(&exited(1, "")).is_none(),
        "Nonexistent command should not be found"
    );
}

#[test]
fn package_manager_detection_doesnt_panic() {
    let pm = detect_package_managers(
        &exited(0, "/opt/homebrew/bin/brew\n"),
        &missing(),
        &exited(1, ""),
        &exited(1, ""),
        &exited(0, " /usr/bin/pip \n"),
        &exited(0, "\n"),
    );
    // Just verify it doesn't panic — presence depends on the machine
    let _ = pm.homebrew;
    let _ = pm.cargo;
    let _ = pm.npm;
}

#[test]
fn package_managers_from_lookups() {
    let pm = detect_package_managers(
        &exited(0, "/opt/homebrew/bin/brew\n"),
        &missing(),
        &exited(1, "/x"),
        &exited(1, ""),
        &exited(0, " /usr/bin/pip \n"),
        &exited(0, "\n"),
    );
    assert_eq!(pm.homebrew, Some("/opt/homebrew/bin/brew".to_string()));
    assert_eq!(pm.cargo, None);
    assert_eq!(pm.npm, None);
    assert_eq!(pm.pip, Some("/usr/bin/pip".to_string()));
    assert_eq!(pm.apt, None);
    let both = detect_package_managers(
        &missing(),
        &missing(),
        &missing(),
        &exited(0, "/usr/bin/pip3"),
        &exited(0, "/usr/bin/pip"),
        &missing(),
    );
    assert_eq!(both.pip, Some("/usr/bin/pip3".to_string()));
}

#[test]
fn names_of_systems() {
    assert_eq!(Os::MacOS.name(), "macOS");
    assert_eq!(Os::Linux.name(), "Linux");
    assert_eq!(Arch::Aarch64.name(), "arm64");
    assert_eq!(Arch::X86_64.name(), "x86_64");
    assert_eq!(detect_os("macos"), Ok(Os::MacOS));
    assert_eq!(detect_arch("x86_64"), Ok(Arch::X86_64));
    let e = detect_os("windows").unwrap_err();
    assert_eq!(e, DetectError::UnsupportedOs("windows".to_string()));
    assert_eq!(e.message(), "Unsupported operating system: windows");
    let e = detect_arch("riscv64").unwrap_err();
    assert_eq!(e, DetectError::UnsupportedArch("riscv64".to_string()));
    assert_eq!(e.message(), "Unsupported architecture: riscv64");
}

#[test]
fn detection_with_defaults_and_without() {
    let info = SystemInfo::detect(&readings("macos", "aarch64")).unwrap();
    assert_eq!(info.os, Os::MacOS);
    assert_eq!(info.arch, Arch::Aarch64);
    assert_eq!(info.hostname, "unknown");
    assert_eq!(info.shell, "/bin/zsh");
    assert_eq!(info.home_dir, "/tmp");
    assert_eq!(info.config_dir, "/tmp/.config");
    assert!(info.linux_distro.is_none());
    assert!(!info.has_homebrew());
    assert!(info.is_apple_silicon());

    let mut r = readings("linux", "x86_64");
    r.hostname = Some("box".to_string());
    r.shell = Some("/bin/fish".to_string());
    r.home = Some("/home/u/".to_string());
    r.os_release = Some("NAME=\"Ubuntu\"\nVERSION_ID=\"22.04\"\nID=ubuntu\n".to_string());
    r.package_managers.homebrew = Some("/x/brew".to_string());
    let info = SystemInfo::detect(&r).unwrap();
    assert_eq!(info.hostname, "box");
    assert_eq!(info.shell, "/bin/fish");
    assert_eq!(info.config_dir, "/home/u/.config");
    let distro = info.linux_distro.clone().unwrap();
    assert_eq!(distro.id, "ubuntu");
    assert_eq!(distro.name, "Ubuntu");
    assert!(info.has_homebrew());
    assert!(!info.is_apple_silicon());
    r.xdg_config_home = Some("/cfg".to_string());
    assert_eq!(SystemInfo::detect(&r).unwrap().config_dir, "/cfg");

    let mut mac = readings("macos", "x86_64");
    mac.os_release = Some("ID=ubuntu\n".to_string());
    assert!(SystemInfo::detect(&mac).unwrap().linux_distro.is_none());

    assert_eq!(
        SystemInfo::detect(&readings("plan9", "mips")).unwrap_err(),
        DetectError::UnsupportedOs("plan9".to_string())
    );
    assert_eq!(
        SystemInfo::detect(&readings("linux", "mips")).unwrap_err(),
        DetectError::UnsupportedArch("mips".to_string())
    );
}

#[test]
fn distribution_descriptions() {
    assert!(parse_os_release("").is_none());
    assert!(parse_os_release("NAME=Arch\n").is_none());
    assert!(parse_os_release("ID=\"\"\n").is_none());
    let d = parse_os_release("ID=one\nID=\"two\"\nNAME=x\n").unwrap();
    assert_eq!(d.id, "two");
    assert_eq!(d.name, "x");
    let d = parse_os_release("ID=arch").unwrap();
    assert_eq!(d.id, "arch");
    assert_eq!(d.name, "");
}

#[test]
fn paths_are_joined_with_one_slash() {
    assert_eq!(join_path("/home/u", ".ssh"), "/home/u/.ssh");
    assert_eq!(join_path("/home/u/", ".ssh"), "/home/u/.ssh");
    assert_eq!(join_path("", ".ssh"), ".ssh");
    assert_eq!(join_path("/", "x"), "/x");
}

#[test]
fn free_disk_space_is_read_from_the_listing() {
    let listing = "Filesystem 1G-blocks Used Available Capacity\n/dev/disk1 466 10 359 3% /\n";
    assert_eq!(available_gigabytes(listing), 359);
    assert_eq!(available_gigabytes("only one line"), 0);
    assert_eq!(available_gigabytes("h\na b c"), 0);
    assert_eq!(available_gigabytes("h\na b c 12Gi"), 0);
    assert_eq!(available_gigabytes(""), 0);
}

#[test]
fn checks_before_the_installation() {
    let c = check_internet(&exited(0, ""));
    assert_eq!((c.name.as_str(), c.status, c.detail.as_str()), ("Internet connectivity", CheckStatus::Pass, "Connected"));
    let c = check_internet(&missing());
    assert_eq!(c.status, CheckStatus::Fail);
    assert_eq!(c.detail, "Cannot reach github.com - check your connection");

    let mut info = SystemInfo::detect(&readings("macos", "aarch64")).unwrap();
    let c = check_homebrew(&info);
    assert_eq!(c.status, CheckStatus::Warn);
    assert_eq!(c.detail, "Not installed - will be installed during setup");
    info.package_managers.homebrew = Some("/opt/homebrew/bin/brew".to_string());
    let c = check_homebrew(&info);
    assert_eq!((c.name.as_str(), c.status), ("Homebrew", CheckStatus::Pass));
    assert_eq!(c.detail, "Found at /opt/homebrew/bin/brew");

    let df = |n: &str| exited(0, &format!("h\n/dev 1 2 {} 3% /\n", n));
    let c = check_disk_space(&df("10"));
    assert_eq!((c.status, c.detail.as_str()), (CheckStatus::Pass, "10GB available"));
    let c = check_disk_space(&df("9"));
    assert_eq!((c.status, c.detail.as_str()), (CheckStatus::Warn, "Only 9GB available - may be tight"));
    let c = check_disk_space(&df("5"));
    assert_eq!(c.status, CheckStatus::Warn);
    let c = check_disk_space(&df("4"));
    assert_eq!((c.status, c.detail.as_str()), (CheckStatus::Fail, "Only 4GB available - need at least 5GB"));
    let c = check_disk_space(&exited(1, "h\n/dev 1 2 100 3% /\n"));
    assert_eq!((c.status, c.detail.as_str()), (CheckStatus::Warn, "Could not determine available disk space"));
    assert_eq!(check_disk_space(&missing()).status, CheckStatus::Warn);

    assert_eq!(check_xcode_clt(&exited(0, "")).detail, "Installed");
    let c = check_xcode_clt(&exited(2, ""));
    assert_eq!((c.status, c.detail.as_str()), (CheckStatus::Warn, "Not installed - will prompt during Homebrew install"));

    let c = check_home_writable(&info, &None);
    assert_eq!((c.status, c.detail.as_str()), (CheckStatus::Pass, "/tmp is writable"));
    let c = check_home_writable(&info, &Some("denied".to_string()));
    assert_eq!((c.status, c.detail.as_str()), (CheckStatus::Fail, "/tmp is not writable: denied"));

    let c = check_git(&Some("/usr/bin/git".to_string()), &exited(0, "git version 2.44\n"));
    assert_eq!((c.status, c.detail.as_str()), (CheckStatus::Pass, "git version 2.44 (/usr/bin/git)"));
    let c = check_git(&Some("/usr/bin/git".to_string()), &missing());
    assert_eq!(c.detail, "unknown version (/usr/bin/git)");
    let c = check_git(&None, &exited(0, "git version 2.44\n"));
    assert_eq!((c.status, c.detail.as_str()), (CheckStatus::Warn, "Not installed - will be installed via Homebrew"));
}

#[test]
fn all_checks_together() {
    let probes = Probes {
        ping: missing(),
        disk: exited(0, "h\n/dev 1 2 7 3% /\n"),
        xcode: exited(0, ""),
        home_write_error: None,
        git_path: None,
        git_version: missing(),
    };
    let mac = SystemInfo::detect(&readings("macos", "aarch64")).unwrap();
    let result = PreflightResult::run(&mac, &probes);
    let names: Vec<&str> = result.checks.iter().map(|c| c.name.as_str()).collect();
    assert_eq!(
        names,
        vec!["Internet connectivity", "Homebrew", "Disk space", "Xcode CLT", "Home directory", "Git"]
    );
    assert!(!result.all_passed());
    assert_eq!(result.fail_count(), 1);
    assert_eq!(result.warn_count(), 3);
    let linux = SystemInfo::detect(&readings("linux", "x86_64")).unwrap();
    let mut fine = probes.clone();
    fine.ping = exited(0, "");
    let result = PreflightResult::run(&linux, &fine);
    assert_eq!(result.checks.len(), 5);
    assert!(result.all_passed());
    assert_eq!(result.fail_count(), 0);
    assert_eq!(result.warn_count(), 3);
}
