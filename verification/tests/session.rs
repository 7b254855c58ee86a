use installer::catalog;
use installer::catalog::{Category, InstallMethod};
use installer::executor::{Command, InstallMessage, Outcome};
use installer::run::InstallRun;
use installer::session::{App, BootSequence, Effect, Key};
use installer::system::{Arch, Os, PackageManagers, SystemInfo};
use installer::wizard::{
    MultiplexerChoice, PromptChoice, SetupType, ShellChoice, TerminalChoice, WizardPhase,
};

fn system() -> SystemInfo {
    SystemInfo {
        os: Os::Linux,
        arch: Arch::X86_64,
        hostname: "box".to_string(),
        shell: "/bin/zsh".to_string(),
        home_dir: "/home/u".to_string(),
        config_dir: "/home/u/.config".to_string(),
        package_managers: PackageManagers {
            homebrew: None,
            cargo: None,
            npm: None,
            pip: None,
            apt: None,
        },
        linux_distro: None,
    }
}

fn session_at(phase: WizardPhase) -> App {
    let mut app = App::new(system());
    app.wizard.phase = phase;
    app
}

fn installing() -> App {
    let mut app = session_at(WizardPhase::Review);
    assert_eq!(app.handle_key(Key::Enter, false), Effect::StartInstall);
    app
}

#[test]
fn a_new_session() {
    let app = App::new(system());
    assert_eq!(app.wizard.phase, WizardPhase::Boot);
    assert!(!app.should_quit);
    assert!(!app.is_installing);
    assert!(app.install_log.is_empty());
    assert_eq!(app.spinner.current(), "⣾");
    assert_eq!(app.boot_sequence.stage, 0);
    assert_eq!(app.boot_sequence.messages.len(), 6);
    assert_eq!(app.boot_sequence.messages[0], ("BIOS CHECK... ", false));
    assert_eq!(app.boot_sequence.messages[5], ("READY.", false));
}

#[test]
fn any_key_ends_the_intro_and_the_next_tick_moves_on() {
    let mut app = App::new(system());
    assert_eq!(app.handle_key(Key::Other, false), Effect::Nothing);
    assert!(app.boot_sequence.complete);
    assert_eq!(app.boot_sequence.stage, 6);
    assert!(app.boot_sequence.messages.iter().all(|m| m.1));
    assert!(app.boot_sequence.current_typewriter.is_none());
    assert_eq!(app.wizard.phase, WizardPhase::Boot);
    app.tick();
    assert_eq!(app.wizard.phase, WizardPhase::Identity);
    assert_eq!(app.spinner.current(), "⣽");
}

#[test]
fn the_intro_types_itself_out() {
    let mut boot = BootSequence::new();
    let first: usize = "BIOS CHECK... ".len();
    let mut n: usize = 0;
    while n < first {
        boot.tick();
        assert_eq!(boot.stage, 0);
        n += 1;
    }
    assert_eq!(boot.current_typewriter.as_ref().unwrap().visible_text(), "BIOS CHECK... ");
    boot.tick();
    assert_eq!(boot.stage, 1);
    assert!(boot.messages[0].1);
    assert!(!boot.messages[1].1);
    assert_eq!(boot.current_typewriter.as_ref().unwrap().full_text, "NEURAL INTERFACE ONLINE... ");
    let mut ticks: usize = 0;
    while !boot.complete {
        boot.tick();
        ticks += 1;
        assert!(ticks < 1000);
    }
    assert_eq!(boot.stage, 6);
    assert!(boot.current_typewriter.is_none());
    boot.tick();
    assert_eq!(boot.stage, 6);
    let mut app = App::new(system());
    let mut ticks: usize = 0;
    while app.wizard.phase == WizardPhase::Boot {
        app.tick();
        ticks += 1;
        assert!(ticks < 1000);
    }
    assert_eq!(app.wizard.phase, WizardPhase::Identity);
    assert_eq!(ticks, 14 + 27 + 27 + 31 + 30 + 6 + 6);
}

#[test]
fn the_identity_form() {
    let mut app = session_at(WizardPhase::Identity);
    app.wizard.identity.name = String::new();
    for c in "Ada".chars() {
        app.handle_key(Key::Char(c), false);
    }
    assert_eq!(app.wizard.identity.name, "Ada");
    app.handle_key(Key::Backspace, false);
    assert_eq!(app.wizard.identity.name, "Ad");
    app.handle_key(Key::Tab, false);
    assert_eq!(app.wizard.input_field, 1);
    app.handle_key(Key::Char('a'), false);
    app.handle_key(Key::Char('@'), false);
    assert_eq!(app.wizard.identity.email, "a@");
    app.handle_key(Key::Enter, false);
    assert_eq!(app.wizard.input_field, 2);
    app.handle_key(Key::Backspace, false);
    assert_eq!(app.wizard.identity.github_username, "");
    app.handle_key(Key::Char('x'), false);
    assert_eq!(app.wizard.identity.github_username, "x");
    app.handle_key(Key::Down, false);
    assert_eq!(app.wizard.input_field, 3);
    app.handle_key(Key::Char('z'), false);
    assert_eq!(app.wizard.identity.github_username, "x");
    assert_eq!(app.wizard.identity.setup_type, SetupType::Personal);
    app.handle_key(Key::Left, false);
    assert_eq!(app.wizard.identity.setup_type, SetupType::Full);
    app.handle_key(Key::Right, false);
    app.handle_key(Key::Right, false);
    assert_eq!(app.wizard.identity.setup_type, SetupType::Work);
    app.handle_key(Key::Tab, false);
    assert_eq!(app.wizard.input_field, 0);
    app.handle_key(Key::Left, false);
    assert_eq!(app.wizard.identity.setup_type, SetupType::Work);
    app.handle_key(Key::BackTab, false);
    assert_eq!(app.wizard.input_field, 3);
    app.handle_key(Key::Up, false);
    assert_eq!(app.wizard.input_field, 2);
    app.wizard.input_field = 3;
    app.handle_key(Key::Enter, false);
    assert_eq!(app.wizard.phase, WizardPhase::Shell);
    app.handle_key(Key::Esc, false);
    assert_eq!(app.wizard.phase, WizardPhase::Identity);
    app.handle_key(Key::Esc, false);
    assert_eq!(app.wizard.phase, WizardPhase::Boot);
}

#[test]
fn the_shell_form() {
    let mut app = session_at(WizardPhase::Shell);
    assert_eq!(app.wizard.cursor_position, 0);
    app.handle_key(Key::Left, false);
    assert_eq!(app.wizard.shell_config.shell, ShellChoice::Nushell);
    app.handle_key(Key::Char('l'), false);
    assert_eq!(app.wizard.shell_config.shell, ShellChoice::Zsh);
    app.handle_key(Key::Right, false);
    assert_eq!(app.wizard.shell_config.shell, ShellChoice::Bash);
    app.handle_key(Key::Down, false);
    app.handle_key(Key::Char('h'), false);
    assert_eq!(app.wizard.shell_config.prompt, PromptChoice::SystemDefault);
    app.handle_key(Key::Char('j'), false);
    app.handle_key(Key::Right, false);
    assert_eq!(app.wizard.shell_config.terminal, TerminalChoice::WezTerm);
    app.handle_key(Key::Down, false);
    assert_eq!(app.wizard.cursor_position, 3);
    assert_eq!(app.wizard.shell_config.multiplexer, Some(MultiplexerChoice::Tmux));
    app.handle_key(Key::Right, false);
    assert_eq!(app.wizard.shell_config.multiplexer, Some(MultiplexerChoice::Zellij));
    app.handle_key(Key::Right, false);
    assert_eq!(app.wizard.shell_config.multiplexer, None);
    app.handle_key(Key::Right, false);
    assert_eq!(app.wizard.shell_config.multiplexer, Some(MultiplexerChoice::Tmux));
    app.handle_key(Key::Left, false);
    assert_eq!(app.wizard.shell_config.multiplexer, None);
    app.handle_key(Key::Char('k'), false);
    assert_eq!(app.wizard.cursor_position, 2);
    app.handle_key(Key::Enter, false);
    assert_eq!(app.wizard.phase, WizardPhase::DevTools);
    assert_eq!(app.wizard.cursor_position, 0);
}

#[test]
fn the_cursor_of_the_shell_form_goes_round() {
    let mut app = session_at(WizardPhase::Shell);
    let before = app.wizard.shell_config;
    app.wizard.cursor_position = 3;
    assert_eq!(app.handle_key(Key::Down, false), Effect::Nothing);
    assert_eq!(app.wizard.cursor_position, 0);
    app.handle_key(Key::Up, false);
    assert_eq!(app.wizard.cursor_position, 3);
    app.handle_key(Key::Char('j'), false);
    assert_eq!(app.wizard.cursor_position, 0);
    app.handle_key(Key::Char('k'), false);
    assert_eq!(app.wizard.cursor_position, 3);
    let mut seen: Vec<usize> = Vec::new();
    let mut n: usize = 0;
    while n < 9 {
        app.handle_key(Key::Down, false);
        seen.push(app.wizard.cursor_position);
        n += 1;
    }
    assert_eq!(seen, vec![0, 1, 2, 3, 0, 1, 2, 3, 0]);
    let mut n: usize = 0;
    while n < 5 {
        app.handle_key(Key::Up, false);
        n += 1;
    }
    assert_eq!(app.wizard.cursor_position, 3);
    assert_eq!(app.wizard.phase, WizardPhase::Shell);
    assert_eq!(app.wizard.shell_config.shell, before.shell);
    assert_eq!(app.wizard.shell_config.prompt, before.prompt);
    assert_eq!(app.wizard.shell_config.terminal, before.terminal);
    assert_eq!(app.wizard.shell_config.multiplexer, before.multiplexer);
    // a cursor that stands outside the form comes back into it
    app.wizard.cursor_position = 10;
    app.handle_key(Key::Down, false);
    assert_eq!(app.wizard.cursor_position, 3);
    app.wizard.cursor_position = usize::MAX;
    app.handle_key(Key::Down, false);
    assert!(app.wizard.cursor_position < 4);
}

#[test]
fn the_tool_lists() {
    let mut app = session_at(WizardPhase::DevTools);
    app.wizard.selected_apps.clear();
    // languages come first: mise, rustup, go, python, uv, deno, bun
    app.handle_key(Key::Char(' '), false);
    assert!(app.wizard.is_app_selected("mise"));
    app.handle_key(Key::Char(' '), false);
    assert!(!app.wizard.is_app_selected("mise"));
    let mut n: usize = 0;
    while n < 10 {
        app.handle_key(Key::Down, false);
        n += 1;
    }
    assert_eq!(app.wizard.cursor_position, 6);
    app.handle_key(Key::Char(' '), false);
    assert!(app.wizard.is_app_selected("bun"));
    app.handle_key(Key::Char('a'), false);
    assert_eq!(app.wizard.selected_app_count(), 7);
    app.handle_key(Key::Tab, false);
    assert_eq!(app.wizard.scroll_offset, 1);
    assert_eq!(app.wizard.cursor_position, 0);
    app.handle_key(Key::Char('a'), false);
    assert!(app.wizard.is_app_selected("neovim"));
    assert_eq!(app.wizard.selected_app_count(), 11);
    app.handle_key(Key::Char('n'), false);
    assert_eq!(app.wizard.selected_app_count(), 7);
    let mut n: usize = 0;
    while n < 4 {
        app.handle_key(Key::Tab, false);
        n += 1;
    }
    assert_eq!(app.wizard.scroll_offset, 0);
    app.handle_key(Key::Char('n'), false);
    assert_eq!(app.wizard.selected_app_count(), 0);
    app.handle_key(Key::Enter, false);
    assert_eq!(app.wizard.phase, WizardPhase::Apps);
    app.handle_key(Key::BackTab, false);
    assert_eq!(app.wizard.scroll_offset, 15);
    app.handle_key(Key::Char('j'), false);
    app.handle_key(Key::Char(' '), false);
    assert!(app.wizard.is_app_selected("aichat"));
    app.handle_key(Key::Tab, false);
    assert_eq!(app.wizard.scroll_offset, 0);
    assert!(app.wizard.show_details);
    app.handle_key(Key::Char('d'), false);
    assert!(!app.wizard.show_details);
    app.wizard.cursor_position = 99;
    app.handle_key(Key::Char(' '), false);
    assert_eq!(app.wizard.selected_app_count(), 1);
    app.handle_key(Key::Esc, false);
    assert_eq!(app.wizard.phase, WizardPhase::DevTools);
}

#[test]
fn the_review_begins_the_installation() {
    let mut app = session_at(WizardPhase::Review);
    app.wizard.selected_apps.clear();
    app.wizard.selected_apps.insert("git".to_string());
    app.wizard.selected_apps.insert("not in the catalog".to_string());
    app.install_log.push("old".to_string());
    app.install_completed = 9;
    app.handle_key(Key::Down, false);
    app.handle_key(Key::Char('j'), false);
    assert_eq!(app.wizard.scroll_offset, 2);
    app.handle_key(Key::Up, false);
    assert_eq!(app.wizard.scroll_offset, 1);
    assert_eq!(app.handle_key(Key::Char('y'), false), Effect::StartInstall);
    assert!(app.is_installing);
    assert_eq!(app.wizard.phase, WizardPhase::Install);
    assert_eq!(app.install_log, vec!["[INIT] Starting installation sequence..."]);
    assert_eq!(app.install_total, 1);
    assert_eq!(app.install_completed, 0);
    assert_eq!(app.wizard.scroll_offset, 0);
    let mut back = session_at(WizardPhase::Review);
    assert_eq!(back.handle_key(Key::Char('n'), false), Effect::Nothing);
    assert_eq!(back.wizard.phase, WizardPhase::Apps);
}

#[test]
fn events_are_taken_in() {
    let mut app = installing();
    let name = || "Git".to_string();
    app.apply_message(&InstallMessage::PhaseStart { phase: "Homebrew Formulae".to_string() }, "");
    app.apply_message(
        &InstallMessage::PackageStart { name: name(), method: "brew install git".to_string() },
        "",
    );
    assert_eq!(app.current_package, Some(name()));
    app.apply_message(&InstallMessage::Log("  pouring".to_string()), "");
    app.apply_message(&InstallMessage::PackageSuccess { name: name(), duration_ms: 1250 }, "1.2");
    assert_eq!(app.current_package, None);
    assert_eq!((app.install_completed, app.install_succeeded), (1, 1));
    app.apply_message(&InstallMessage::Progress { completed: 1, total: 3 }, "");
    assert_eq!((app.install_completed, app.install_total), (1, 3));
    app.apply_message(
        &InstallMessage::PackageSkipped { name: name(), reason: "Already installed".to_string() },
        "",
    );
    app.apply_message(
        &InstallMessage::PackageFailed { name: name(), error: "permission denied".to_string() },
        "",
    );
    assert_eq!(
        (app.install_completed, app.install_succeeded, app.install_skipped, app.install_failed),
        (3, 1, 1, 1)
    );
    app.apply_message(&InstallMessage::Done { succeeded: 1, failed: 1, skipped: 10 }, "");
    app.apply_message(&InstallMessage::FatalError("no brew".to_string()), "");
    assert_eq!(app.error_message, Some("no brew".to_string()));
    assert_eq!(
        app.install_log,
        vec![
            "[INIT] Starting installation sequence...",
            "[PHASE] ═══ Homebrew Formulae ═══",
            "[INSTALL] Git (brew install git)",
            "  pouring",
            "[OK] Git (1.2s)",
            "[SKIP] Git — Already installed",
            "[FAIL] Git — permission denied",
            "[DONE] 1 succeeded, 1 failed, 10 skipped",
            "[FATAL] no brew",
        ]
    );
}

#[test]
fn counts_stop_at_the_largest_number() {
    let mut app = installing();
    app.install_completed = usize::MAX;
    app.install_failed = usize::MAX - 1;
    app.apply_message(
        &InstallMessage::PackageFailed { name: "x".to_string(), error: "e".to_string() },
        "",
    );
    assert_eq!(app.install_completed, usize::MAX);
    assert_eq!(app.install_failed, usize::MAX);
    let mut review = session_at(WizardPhase::Review);
    review.wizard.scroll_offset = usize::MAX;
    review.handle_key(Key::Down, false);
    assert_eq!(review.wizard.scroll_offset, usize::MAX);
}

#[test]
fn events_outside_an_installation_change_nothing() {
    let mut app = session_at(WizardPhase::Apps);
    app.apply_message(&InstallMessage::Log("x".to_string()), "");
    assert!(app.install_log.is_empty());
    app.is_installing = true;
    app.apply_message(&InstallMessage::Progress { completed: 1, total: 2 }, "");
    assert_eq!(app.install_total, 0);
}

#[test]
fn the_worker_ends_the_installation_once() {
    let mut app = installing();
    assert!(app.finish_install());
    assert!(!app.is_installing);
    assert_eq!(app.wizard.phase, WizardPhase::Complete);
    assert_eq!(app.install_log.last().unwrap(), "[COMPLETE] Installation finished!");
    let lines: usize = app.install_log.len();
    assert!(!app.finish_install());
    assert_eq!(app.wizard.phase, WizardPhase::Complete);
    assert_eq!(app.install_log.len(), lines);
}

#[test]
fn abort_during_an_installation() {
    let mut app = installing();
    assert_eq!(app.handle_key(Key::Char('x'), false), Effect::Nothing);
    assert_eq!(app.wizard.phase, WizardPhase::Install);
    assert_eq!(app.handle_key(Key::Char('c'), true), Effect::DetachWorker);
    assert!(!app.is_installing);
    assert!(!app.should_quit);
    assert_eq!(app.wizard.phase, WizardPhase::Complete);
    assert_eq!(
        app.install_log,
        vec![
            "[INIT] Starting installation sequence...",
            "[ABORT] Installation interrupted by user",
        ]
    );
    // the worker ends later, and messages still come: nothing moves
    assert!(!app.finish_install());
    app.apply_message(&InstallMessage::Log("late".to_string()), "");
    assert_eq!(app.wizard.phase, WizardPhase::Complete);
    assert_eq!(app.install_log.len(), 2);
    assert_eq!(app.handle_key(Key::Char('c'), true), Effect::Nothing);
    assert!(app.should_quit);
}

#[test]
fn quitting() {
    let mut app = session_at(WizardPhase::Apps);
    assert_eq!(app.handle_key(Key::Char('c'), true), Effect::Nothing);
    assert!(app.should_quit);
    let mut app = session_at(WizardPhase::Apps);
    app.handle_key(Key::Char('c'), false);
    assert!(!app.should_quit);
    let mut done = session_at(WizardPhase::Complete);
    done.handle_key(Key::Other, false);
    assert!(!done.should_quit);
    done.handle_key(Key::Char('q'), false);
    assert!(done.should_quit);
    let mut done = session_at(WizardPhase::Complete);
    done.handle_key(Key::Enter, false);
    assert!(done.should_quit);
    // interrupt while installing is flagged but the wizard is elsewhere: quits
    let mut odd = session_at(WizardPhase::Shell);
    odd.is_installing = true;
    assert_eq!(odd.handle_key(Key::Char('c'), true), Effect::Nothing);
    assert!(odd.should_quit);
}

#[test]
fn the_counts_follow_a_run() {
    let tool = |name: &'static str, method: InstallMethod| catalog::App {
        id: name,
        name,
        description: "",
        category: Category::System,
        install_method: method,
        config_files: &[],
        dependencies: &[],
        tags: &[],
        url: "",
    };
    let tools: Vec<catalog::App> = vec![
        tool("a", InstallMethod::Brew("a")),
        tool("b", InstallMethod::Cargo("b")),
        tool("c", InstallMethod::BrewCask("c")),
        tool("d", InstallMethod::Npm("d")),
    ];
    let answer = |cmd: &Command| -> Outcome {
        let code: i32 = if cmd.args.contains(&"a".to_string()) && cmd.args[0] == "list" {
            0
        } else if cmd.args[0] == "list" || cmd.program == "npm" {
            1
        } else {
            0
        };
        Outcome::Exited { code, stdout: "out\n".to_string(), stderr: "err\n".to_string() }
    };
    let mut app = installing();
    let (mut run, first) = InstallRun::start(true, &tools);
    let mut messages = first.messages;
    let mut request = first.request;
    let mut now: u64 = 0;
    while let Some(cmd) = request {
        now += 10;
        let step = run.advance(&answer(&cmd), now);
        messages.extend(step.messages);
        request = step.request;
    }
    for m in &messages {
        app.apply_message(m, "0.0");
    }
    let summary = run.into_summary();
    assert_eq!(app.install_completed, 4);
    assert_eq!(app.install_total, 4);
    assert_eq!(app.install_succeeded, summary.succeeded.len());
    assert_eq!(app.install_failed, summary.failed.len());
    assert_eq!(app.install_skipped, summary.skipped.len());
    assert_eq!((app.install_succeeded, app.install_failed, app.install_skipped), (2, 1, 1));
    assert_eq!(app.current_package, None);
    assert!(app.is_installing);
    assert_eq!(app.install_log.last().unwrap(), "[DONE] 2 succeeded, 1 failed, 1 skipped");
    assert_eq!(app.install_log.len(), messages.len() + 1 - 4);
}
