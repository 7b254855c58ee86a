use installer::catalog::{App, Category, InstallMethod};
use installer::executor::{
    announce, check_command, classify, classify_bootstrap, install_command, prepare_command,
    Command, InstallMessage, InstallSummary, Outcome,
};
use installer::run::{batch, order, run_install, title, Batch, InstallRun, Step};
use installer::system::{Arch, Os, PackageManagers, SystemInfo};

fn tool(name: &'static str, method: InstallMethod) -> App {
    App {
        id: name,
        name,
        description: "",
        category: Category::System,
        install_method: method,
        config_files: &[],
        dependencies: &[],
        tags: &[],
        url: "",
    }
}

fn exited(code: i32, stdout: &str, stderr: &str) -> Outcome {
    Outcome::Exited { code, stdout: stdout.to_string(), stderr: stderr.to_string() }
}

fn ok() -> Outcome {
    exited(0, "", "")
}

fn command(program: &str, args: &[&str]) -> Command {
    Command {
        program: program.to_string(),
        args: args.iter().map(|a| a.to_string()).collect(),
    }
}

fn log(line: &str) -> InstallMessage {
    InstallMessage::Log(line.to_string())
}

fn phase(name: &str) -> InstallMessage {
    InstallMessage::PhaseStart { phase: name.to_string() }
}

fn started(name: &str, method: &str) -> InstallMessage {
    InstallMessage::PackageStart { name: name.to_string(), method: method.to_string() }
}

fn without_logs(messages: &[InstallMessage]) -> Vec<InstallMessage> {
    messages.iter().filter(|m| !matches!(m, InstallMessage::Log(_))).cloned().collect()
}

/// Drives a run to its end, answering each command by `answer`, with the
/// clock going on by `tick` milliseconds at every step.
fn drive(
    has_homebrew: bool,
    apps: &Vec<App>,
    answer: &dyn Fn(&Command) -> Outcome,
    tick: u64,
) -> (Vec<InstallMessage>, Vec<Command>, InstallSummary) {
    let (mut run, first): (InstallRun, Step) = InstallRun::start(has_homebrew, apps);
    let mut messages: Vec<InstallMessage> = first.messages;
    let mut asked: Vec<Command> = Vec::new();
    let mut request: Option<Command> = first.request;
    let mut now: u64 = 0;
    while let Some(cmd) = request {
        let outcome: Outcome = answer(&cmd);
        asked.push(cmd);
        now += tick;
        let step: Step = run.advance(&outcome, now);
        messages.extend(step.messages);
        request = step.request;
    }
    assert!(run.is_finished());
    (messages, asked, run.into_summary())
}

#[test]
fn scenario_of_three_tools() {
    let apps: Vec<App> = vec![
        tool("A", InstallMethod::Brew("a")),
        tool("B", InstallMethod::Brew("b")),
        tool("C", InstallMethod::Cargo("c")),
    ];
    let answer = |cmd: &Command| -> Outcome {
        let line: String = cmd.render();
        if line == "brew update" {
            ok()
        } else if line == "brew list --formula a" {
            exited(1, "", "Error: No such keg")
        } else if line == "brew install a" {
            ok()
        } else if line == "brew list --formula b" {
            ok()
        } else if line == "cargo install c" {
            exited(1, "", "permission denied")
        } else {
            panic!("unexpected command: {}", line)
        }
    };
    let (messages, asked, summary) = drive(true, &apps, &answer, 50);
    let shown: Vec<InstallMessage> = without_logs(&messages);
    let expected: Vec<InstallMessage> = vec![
        phase("Homebrew Bootstrap"),
        phase("Homebrew Formulae"),
        started("A", "brew install a"),
        InstallMessage::PackageSuccess { name: "A".to_string(), duration_ms: 100 },
        InstallMessage::Progress { completed: 1, total: 3 },
        started("B", "brew install b"),
        InstallMessage::PackageSkipped {
            name: "B".to_string(),
            reason: "Already installed".to_string(),
        },
        InstallMessage::Progress { completed: 2, total: 3 },
        phase("Additional Tools"),
        started("C", "cargo install c"),
        InstallMessage::PackageFailed {
            name: "C".to_string(),
            error: "permission denied".to_string(),
        },
        InstallMessage::Progress { completed: 3, total: 3 },
        InstallMessage::Done { succeeded: 1, failed: 1, skipped: 1 },
    ];
    assert_eq!(shown, expected);
    assert_eq!(
        asked,
        vec![
            command("brew", &["update"]),
            command("brew", &["list", "--formula", "a"]),
            command("brew", &["install", "a"]),
            command("brew", &["list", "--formula", "b"]),
            command("cargo", &["install", "c"]),
        ]
    );
    assert_eq!(summary.succeeded, vec!["A".to_string()]);
    assert_eq!(summary.failed, vec![("C".to_string(), "permission denied".to_string())]);
    assert_eq!(summary.skipped, vec![("B".to_string(), "Already installed".to_string())]);
}

#[test]
fn full_transcript_with_logs() {
    let apps: Vec<App> = vec![tool("A", InstallMethod::Brew("a"))];
    let answer = |cmd: &Command| -> Outcome {
        let line: String = cmd.render();
        if line == "brew update" {
            exited(0, "Already up-to-date.\n", "")
        } else if line == "brew list --formula a" {
            exited(1, "", "")
        } else {
            exited(0, "Pouring a\n\nDone\n", "warning: x\r\n")
        }
    };
    let (messages, _asked, _summary) = drive(true, &apps, &answer, 7);
    let expected: Vec<InstallMessage> = vec![
        phase("Homebrew Bootstrap"),
        log("[BREW] Homebrew found — updating..."),
        log("[RUN] brew update"),
        log("  Already up-to-date."),
        phase("Homebrew Formulae"),
        started("A", "brew install a"),
        log("[RUN] brew install a"),
        log("  Pouring a"),
        log("  Done"),
        log("  warning: x"),
        InstallMessage::PackageSuccess { name: "A".to_string(), duration_ms: 14 },
        InstallMessage::Progress { completed: 1, total: 1 },
        InstallMessage::Done { succeeded: 1, failed: 0, skipped: 0 },
    ];
    assert_eq!(messages, expected);
}

#[test]
fn empty_list_still_opens_and_closes() {
    let apps: Vec<App> = Vec::new();
    let (messages, asked, summary) = drive(true, &apps, &|_c: &Command| ok(), 1);
    assert_eq!(
        without_logs(&messages),
        vec![
            phase("Homebrew Bootstrap"),
            InstallMessage::Done { succeeded: 0, failed: 0, skipped: 0 },
        ]
    );
    assert_eq!(asked.len(), 1);
    assert!(summary.succeeded.is_empty() && summary.failed.is_empty() && summary.skipped.is_empty());
}

#[test]
fn fatal_bootstrap_failure() {
    let apps: Vec<App> = vec![
        tool("A", InstallMethod::Brew("a")),
        tool("C", InstallMethod::Cargo("c")),
    ];
    let answer = |_cmd: &Command| -> Outcome { exited(1, "", "  curl: (6) no host \n") };
    let (messages, asked, summary) = drive(false, &apps, &answer, 1);
    let expected: Vec<InstallMessage> = vec![
        phase("Homebrew Bootstrap"),
        log("[BREW] Homebrew not found — installing..."),
        log("[BREW] Downloading Homebrew installer..."),
        InstallMessage::FatalError(
            "Failed to install Homebrew: Homebrew install failed: curl: (6) no host".to_string(),
        ),
    ];
    assert_eq!(messages, expected);
    let fatal: usize =
        messages.iter().filter(|m| matches!(m, InstallMessage::FatalError(_))).count();
    assert_eq!(fatal, 1);
    assert_eq!(asked.len(), 1);
    assert_eq!(asked[0].program, "/bin/bash");
    assert!(summary.succeeded.is_empty());
    assert!(summary.failed.is_empty());
    assert!(summary.skipped.is_empty());
}

#[test]
fn bootstrap_that_cannot_be_started_is_fatal() {
    let apps: Vec<App> = vec![tool("A", InstallMethod::Brew("a"))];
    let answer =
        |_cmd: &Command| -> Outcome { Outcome::NotStarted { reason: "No such file".to_string() } };
    let (messages, _asked, _summary) = drive(false, &apps, &answer, 1);
    assert_eq!(
        messages.last(),
        Some(&InstallMessage::FatalError(
            "Failed to install Homebrew: Failed to run installer: No such file".to_string()
        ))
    );
}

#[test]
fn bootstrap_success_goes_on_to_the_tools() {
    let apps: Vec<App> = vec![tool("A", InstallMethod::BrewCask("a"))];
    let answer = |cmd: &Command| -> Outcome {
        if cmd.program == "brew" && cmd.args[0] == "list" {
            exited(1, "", "")
        } else {
            ok()
        }
    };
    let (messages, asked, summary) = drive(false, &apps, &answer, 1);
    assert_eq!(messages[3], log("[BREW] Homebrew installed successfully"));
    assert_eq!(messages[4], phase("Homebrew Casks"));
    assert_eq!(asked[1], command("brew", &["list", "--cask", "a"]));
    assert_eq!(asked[2], command("brew", &["install", "--cask", "a"]));
    assert_eq!(summary.succeeded, vec!["A".to_string()]);
}

#[test]
fn tools_run_group_by_group_in_the_order_given() {
    let apps: Vec<App> = vec![
        tool("n1", InstallMethod::Npm("n1")),
        tool("c1", InstallMethod::BrewCask("c1")),
        tool("b1", InstallMethod::Brew("b1")),
        tool("s1", InstallMethod::Script("https://x.sh")),
        tool("b2", InstallMethod::Brew("b2")),
        tool("c2", InstallMethod::BrewCask("c2")),
    ];
    let plan: Vec<App> = order(&apps);
    let names: Vec<&str> = plan.iter().map(|a| a.name).collect();
    assert_eq!(names, vec!["b1", "b2", "c1", "c2", "n1", "s1"]);
    let answer = |cmd: &Command| -> Outcome {
        if cmd.program == "brew" && cmd.args[0] == "list" {
            exited(1, "", "")
        } else {
            ok()
        }
    };
    let (messages, _asked, summary) = drive(true, &apps, &answer, 1);
    let phases: Vec<InstallMessage> = messages
        .iter()
        .filter(|m| matches!(m, InstallMessage::PhaseStart { .. }))
        .cloned()
        .collect();
    assert_eq!(
        phases,
        vec![
            phase("Homebrew Bootstrap"),
            phase("Homebrew Formulae"),
            phase("Homebrew Casks"),
            phase("Additional Tools"),
        ]
    );
    assert_eq!(summary.succeeded, vec!["b1", "b2", "c1", "c2", "n1", "s1"]);
}

#[test]
fn final_progress_counts_every_tool() {
    let apps: Vec<App> = vec![
        tool("a", InstallMethod::Go("a")),
        tool("b", InstallMethod::Pip("b")),
        tool("c", InstallMethod::Apt("c")),
        tool("d", InstallMethod::Manual("make d")),
    ];
    let answer = |cmd: &Command| -> Outcome {
        if cmd.program == "go" || cmd.program == "sudo" {
            exited(2, "", "")
        } else {
            ok()
        }
    };
    let (messages, _asked, summary) = drive(true, &apps, &answer, 1);
    let n: usize = messages.len();
    assert_eq!(messages[n - 1], InstallMessage::Done { succeeded: 2, failed: 2, skipped: 0 });
    assert_eq!(messages[n - 2], InstallMessage::Progress { completed: 4, total: 4 });
    assert_eq!(summary.succeeded.len() + summary.failed.len() + summary.skipped.len(), 4);
    assert_eq!(summary.failed[0], ("a".to_string(), "exited with code 2".to_string()));
}

#[test]
fn every_tool_is_begun_before_it_is_concluded() {
    let apps: Vec<App> = vec![
        tool("a", InstallMethod::Brew("a")),
        tool("b", InstallMethod::BrewCask("b")),
        tool("c", InstallMethod::Npm("c")),
    ];
    let answer = |cmd: &Command| -> Outcome {
        if cmd.args.contains(&"a".to_string()) && cmd.args[0] == "list" {
            ok()
        } else if cmd.args[0] == "list" {
            exited(1, "", "")
        } else if cmd.program == "npm" {
            exited(1, "", "boom\n")
        } else {
            ok()
        }
    };
    let (messages, _asked, _summary) = drive(true, &apps, &answer, 1);
    let done: usize =
        messages.iter().position(|m| matches!(m, InstallMessage::Done { .. })).unwrap();
    assert_eq!(done, messages.len() - 1);
    for name in ["a", "b", "c"] {
        let begun: usize = messages
            .iter()
            .position(|m| matches!(m, InstallMessage::PackageStart { name: n, .. } if n == name))
            .unwrap();
        let ended: usize = messages
            .iter()
            .position(|m| match m {
                InstallMessage::PackageSuccess { name: n, .. }
                | InstallMessage::PackageSkipped { name: n, .. }
                | InstallMessage::PackageFailed { name: n, .. } => n == name,
                _ => false,
            })
            .unwrap();
        assert!(begun < ended);
        assert!(ended < done);
        assert!(matches!(messages[ended + 1], InstallMessage::Progress { .. }));
    }
}

#[test]
fn a_tool_found_installed_is_never_installed() {
    let apps: Vec<App> = vec![tool("a", InstallMethod::Brew("a"))];
    let (messages, asked, summary) = drive(true, &apps, &|_c: &Command| ok(), 1);
    assert_eq!(
        asked,
        vec![command("brew", &["update"]), command("brew", &["list", "--formula", "a"])]
    );
    assert!(!messages.iter().any(|m| matches!(
        m,
        InstallMessage::PackageSuccess { .. } | InstallMessage::PackageFailed { .. }
    )));
    assert_eq!(summary.skipped.len(), 1);
}

#[test]
fn advance_after_the_end_changes_nothing() {
    let apps: Vec<App> = Vec::new();
    let (mut run, _first): (InstallRun, Step) = InstallRun::start(true, &apps);
    let last: Step = run.advance(&ok(), 1);
    assert!(last.request.is_none());
    assert!(run.is_finished());
    let again: Step = run.advance(&ok(), 2);
    assert!(again.messages.is_empty());
    assert!(again.request.is_none());
    assert!(run.is_finished());
}

#[test]
fn duration_is_zero_when_the_clock_goes_back() {
    let apps: Vec<App> = vec![tool("a", InstallMethod::Cargo("a"))];
    let (mut run, _first): (InstallRun, Step) = InstallRun::start(true, &apps);
    let _ = run.advance(&ok(), 1000);
    let step: Step = run.advance(&ok(), 900);
    assert_eq!(
        step.messages[0],
        InstallMessage::PackageSuccess { name: "a".to_string(), duration_ms: 0 }
    );
}

#[test]
fn run_install_goes_by_the_machine() {
    let mut system = SystemInfo {
        os: Os::Linux,
        arch: Arch::X86_64,
        hostname: "h".to_string(),
        shell: "/bin/sh".to_string(),
        home_dir: "/home/u".to_string(),
        config_dir: "/home/u/.config".to_string(),
        package_managers: PackageManagers {
            homebrew: None,
            cargo: None,
            npm: None,
            pip: None,
            apt: None,
        },
        linux_distro: None,
    };
    let apps: Vec<App> = Vec::new();
    let (_run, step) = run_install(&system, &apps);
    assert_eq!(step.messages[1], log("[BREW] Homebrew not found — installing..."));
    assert_eq!(step.request.unwrap().program, "/bin/bash");
    system.package_managers.homebrew = Some("/opt/homebrew/bin/brew".to_string());
    let (_run, step) = run_install(&system, &apps);
    assert_eq!(step.messages[1], log("[BREW] Homebrew found — updating..."));
    assert_eq!(step.request, Some(command("brew", &["update"])));
}

#[test]
fn commands_of_each_method() {
    assert_eq!(install_command(&InstallMethod::Brew("x")), command("brew", &["install", "x"]));
    assert_eq!(
        install_command(&InstallMethod::BrewCask("x")),
        command("brew", &["install", "--cask", "x"])
    );
    assert_eq!(install_command(&InstallMethod::Cargo("x")), command("cargo", &["install", "x"]));
    assert_eq!(install_command(&InstallMethod::Npm("x")), command("npm", &["install", "-g", "x"]));
    assert_eq!(install_command(&InstallMethod::Pip("x")), command("pip3", &["install", "x"]));
    assert_eq!(install_command(&InstallMethod::Go("x")), command("go", &["install", "x"]));
    assert_eq!(
        install_command(&InstallMethod::Script("https://x")),
        command("/bin/bash", &["-c", "curl -fsSL https://x | sh"])
    );
    assert_eq!(
        install_command(&InstallMethod::Manual("make x")),
        command("/bin/bash", &["-c", "make x"])
    );
    assert_eq!(
        install_command(&InstallMethod::Apt("x")),
        command("sudo", &["apt", "install", "-y", "x"])
    );
    assert_eq!(
        check_command(&InstallMethod::Brew("x")),
        Some(command("brew", &["list", "--formula", "x"]))
    );
    assert_eq!(
        check_command(&InstallMethod::BrewCask("x")),
        Some(command("brew", &["list", "--cask", "x"]))
    );
    assert_eq!(check_command(&InstallMethod::Cargo("x")), None);
    assert_eq!(prepare_command(true), command("brew", &["update"]));
    assert_eq!(prepare_command(false).program, "/bin/bash");
    assert_eq!(prepare_command(false).args[0], "-c");
    assert!(prepare_command(false).args[1].starts_with("NONINTERACTIVE=1 /bin/bash -c \"$(curl"));
}

#[test]
fn announcements_of_each_method() {
    assert_eq!(announce(&InstallMethod::Brew("x")), "[RUN] brew install x");
    assert_eq!(announce(&InstallMethod::Script("https://x")), "[SCRIPT] Downloading https://x");
    assert_eq!(announce(&InstallMethod::Manual("make x")), "[CMD] make x");
    assert_eq!(announce(&InstallMethod::Apt("x")), "[RUN] sudo apt install -y x");
}

#[test]
fn classification_of_outcomes() {
    let m = InstallMethod::Brew("x");
    assert_eq!(classify(&m, &ok()), Ok(()));
    assert_eq!(classify(&m, &exited(0, "", "noise\n")), Ok(()));
    assert_eq!(
        classify(&m, &exited(1, "", "first\nlast line\n\n")),
        Err("last line".to_string())
    );
    assert_eq!(classify(&m, &exited(1, "out", "")), Err("exited with code 1".to_string()));
    assert_eq!(classify(&m, &exited(-1, "", "\n\n")), Err("exited with code -1".to_string()));
    assert_eq!(classify(&m, &exited(127, "", "")), Err("exited with code 127".to_string()));
    assert_eq!(
        classify(&m, &Outcome::NotStarted { reason: "not found".to_string() }),
        Err("Failed to run 'brew install x': not found".to_string())
    );
    assert_eq!(
        classify(
            &InstallMethod::Script("u"),
            &Outcome::NotStarted { reason: "not found".to_string() }
        ),
        Err("Failed to run script: not found".to_string())
    );
    assert_eq!(
        classify(
            &InstallMethod::Manual("c"),
            &Outcome::NotStarted { reason: "not found".to_string() }
        ),
        Err("Failed to run command: not found".to_string())
    );
    assert_eq!(classify_bootstrap(&ok()), Ok(()));
    assert_eq!(
        classify_bootstrap(&exited(1, "", " bad \n")),
        Err("Homebrew install failed: bad".to_string())
    );
}

#[test]
fn groups_and_titles() {
    assert_eq!(batch(&InstallMethod::Brew("x")), Batch::Formulae);
    assert_eq!(batch(&InstallMethod::BrewCask("x")), Batch::Casks);
    assert_eq!(batch(&InstallMethod::Go("x")), Batch::Others);
    assert_eq!(title(Batch::Formulae), "Homebrew Formulae");
    assert_eq!(title(Batch::Casks), "Homebrew Casks");
    assert_eq!(title(Batch::Others), "Additional Tools");
}

#[test]
fn summary_begins_empty() {
    let summary = InstallSummary::default();
    assert!(summary.succeeded.is_empty());
    assert!(summary.failed.is_empty());
    assert!(summary.skipped.is_empty());
    let (run, _step) = InstallRun::start(true, &Vec::new());
    assert!(run.summary().succeeded.is_empty());
}
