use installer::executor::{Command, InstallMessage, Outcome};
use installer::github::{
    extract_gpg_key_id, git_identity_settings, key_already_uploaded, key_fingerprint,
    public_key_line, setup_github, ssh_config_addition, GitSetup, GitStep, Task,
};
use installer::system::{Arch, Os, PackageManagers, SystemInfo};
use installer::wizard::WizardState;

#[test]
fn extract_gpg_key_id_ed25519() {
    let output = r#"sec   ed25519/ABCDEF1234567890 2024-01-01 [SC]
      AABBCCDD11223344AABBCCDD11223344ABCDEF1234567890
uid           [ultimate] Test User <test@example.com>
ssb   cv25519/1234567890ABCDEF 2024-01-01 [E]"#;

    let key_id = extract_gpg_key_id(output);
    assert_eq!(key_id, Some("ABCDEF1234567890".to_string()));
}

#[test]
fn extract_gpg_key_id_rsa() {
    let output = r#"sec   rsa4096/DEADBEEF12345678 2023-06-15 [SC] [expires: 2025-06-15]
      AABBCCDDAABBCCDDAABBCCDDAABBCCDDDEADBEEF12345678
uid           [ultimate] Another User <user@example.com>
ssb   rsa4096/FEDCBA9876543210 2023-06-15 [E] [expires: 2025-06-15]"#;

    let key_id = extract_gpg_key_id(output);
    assert_eq!(key_id, Some("DEADBEEF12345678".to_string()));
}

#[test]
fn extract_gpg_key_id_empty_output() {
    assert_eq!(extract_gpg_key_id(""), None);
    assert_eq!(extract_gpg_key_id("no keys here"), None);
}

#[test]
fn extract_gpg_key_id_edge_cases() {
    assert_eq!(extract_gpg_key_id("sec   rsa4096 no slash"), None);
    assert_eq!(extract_gpg_key_id("sec   rsa4096/"), None);
    assert_eq!(extract_gpg_key_id("sec   rsa4096/   \nsec x/KEY2 rest"), Some("KEY2".to_string()));
    assert_eq!(extract_gpg_key_id("ssb a/B\n  sec a/KEY b"), Some("KEY".to_string()));
    assert_eq!(extract_gpg_key_id("sec/K1/K2 x"), Some("K1/K2".to_string()));
}

#[test]
fn public_keys_are_shown_shortened() {
    assert_eq!(public_key_line(" ssh-ed25519 AAAA me@x \n"), "  Public key: ssh-ed25519 AAAA me@x");
    let sixty: String = "a".repeat(60);
    assert_eq!(public_key_line(&sixty), format!("  Public key: {}", sixty));
    let long: String = format!("{}{}{}", "a".repeat(30), "b".repeat(11), "c".repeat(20));
    assert_eq!(
        public_key_line(&long),
        format!("  Public key: {}...{}", "a".repeat(30), "c".repeat(20))
    );
}

#[test]
fn fingerprints() {
    assert_eq!(key_fingerprint("ssh-ed25519 AAAAC3 me@host\n"), "AAAAC3");
    assert_eq!(key_fingerprint("ssh-ed25519"), "");
    assert_eq!(key_fingerprint(""), "");
    assert!(key_already_uploaded("title ssh-ed25519 AAAAC3 2024", "ssh-ed25519 AAAAC3 me"));
    assert!(!key_already_uploaded("title ssh-ed25519 BBBB 2024", "ssh-ed25519 AAAAC3 me"));
    assert!(!key_already_uploaded("anything", ""));
}

#[test]
fn ssh_config_block() {
    assert_eq!(
        ssh_config_addition("/home/u/.ssh/id_ed25519"),
        "\n# Added by LOAD\"*\",8,1\nHost github.com\n    AddKeysToAgent yes\n    UseKeychain yes\n    IdentityFile /home/u/.ssh/id_ed25519\n\nHost *\n    AddKeysToAgent yes\n    UseKeychain yes\n"
    );
}

fn system(os: Os) -> SystemInfo {
    SystemInfo {
        os,
        arch: Arch::Aarch64,
        hostname: "box".to_string(),
        shell: "/bin/zsh".to_string(),
        home_dir: "/home/u".to_string(),
        config_dir: "/home/u/.config".to_string(),
        package_managers: PackageManagers {
            homebrew: None,
            cargo: None,
            npm: None,
            pip: None,
            apt: None,
        },
        linux_distro: None,
    }
}

fn wizard(name: &str, email: &str, tools: &[&str], signing: bool) -> WizardState {
    let mut w = WizardState::new();
    w.identity.name = name.to_string();
    w.identity.email = email.to_string();
    w.selected_apps.clear();
    for t in tools {
        w.selected_apps.insert(t.to_string());
    }
    w.setup_git_signing = signing;
    w
}

fn pair(k: &str, v: &str) -> (String, String) {
    (k.to_string(), v.to_string())
}

#[test]
fn settings_of_git() {
    let plain = git_identity_settings(&wizard("", "", &[], false));
    assert_eq!(
        plain,
        vec![
            pair("init.defaultBranch", "main"),
            pair("push.autoSetupRemote", "true"),
            pair("pull.rebase", "true"),
            pair("fetch.prune", "true"),
            pair("rebase.autoStash", "true"),
            pair("url.git@github.com:.insteadOf", "https://github.com/"),
        ]
    );
    let full = git_identity_settings(&wizard("Ada", "ada@x.org", &["delta"], false));
    assert_eq!(full.len(), 12);
    assert_eq!(full[0], pair("user.name", "Ada"));
    assert_eq!(full[1], pair("user.email", "ada@x.org"));
    assert_eq!(full[7], pair("core.pager", "delta"));
    assert_eq!(full[8], pair("interactive.diffFilter", "delta --color-only"));
    assert_eq!(full[9], pair("delta.navigate", "true"));
    assert_eq!(full[10], pair("delta.line-numbers", "true"));
    assert_eq!(full[11], pair("url.git@github.com:.insteadOf", "https://github.com/"));
}

fn exited(code: i32, stdout: &str, stderr: &str) -> Outcome {
    Outcome::Exited { code, stdout: stdout.to_string(), stderr: stderr.to_string() }
}

fn failed(reason: &str) -> Outcome {
    Outcome::NotStarted { reason: reason.to_string() }
}

fn run(program: &str, args: &[&str]) -> Task {
    Task::Run(Command {
        program: program.to_string(),
        args: args.iter().map(|a| a.to_string()).collect(),
    })
}

fn logs(messages: &[InstallMessage]) -> Vec<String> {
    messages
        .iter()
        .map(|m| match m {
            InstallMessage::Log(l) => l.clone(),
            InstallMessage::PhaseStart { phase } => format!("<{}>", phase),
            other => panic!("unexpected message {:?}", other),
        })
        .collect()
}

/// Drives a set-up to its end, answering each task by `answer`.
fn drive(
    w: &WizardState,
    s: &SystemInfo,
    user: &str,
    host: Option<&str>,
    answer: &dyn Fn(&Task) -> Outcome,
) -> (Vec<String>, Vec<Task>) {
    let (mut setup, first): (GitSetup, GitStep) =
        GitSetup::start_with(w, s, user.to_string(), host.map(|h| h.to_string()));
    let mut said: Vec<String> = logs(&first.messages);
    let mut tasks: Vec<Task> = Vec::new();
    let mut request: Option<Task> = first.request;
    let mut steps: usize = 0;
    while let Some(task) = request {
        let outcome: Outcome = answer(&task);
        tasks.push(task);
        let step: GitStep = setup.advance(&outcome);
        said.extend(logs(&step.messages));
        request = step.request;
        steps += 1;
        assert!(steps < 100);
    }
    assert!(setup.is_finished());
    let after: GitStep = setup.advance(&exited(0, "", ""));
    assert!(after.messages.is_empty() && after.request.is_none());
    (said, tasks)
}

#[test]
fn set_up_with_an_existing_key_on_linux() {
    let w = wizard("", "", &[], false);
    let answer = |task: &Task| -> Outcome {
        match task {
            Task::Exists(p) if p == "/home/u/.ssh/id_ed25519" => exited(0, "", ""),
            Task::Read(p) if p == "/home/u/.ssh/id_ed25519.pub" => {
                exited(0, "ssh-ed25519 AAAA u@box\n", "")
            }
            Task::Run(c) if c.program == "ssh-add" => exited(1, "", "no agent\n"),
            Task::Run(c) if c.program == "git" && c.args[2] == "pull.rebase" => failed("gone"),
            Task::Run(c) if c.program == "git" && c.args[2] == "fetch.prune" => {
                exited(1, "", " locked \n")
            }
            _ => exited(0, "", ""),
        }
    };
    let (said, tasks) = drive(&w, &system(Os::Linux), "u", Some("box"), &answer);
    assert_eq!(
        said,
        vec![
            "<Git & GitHub Setup>",
            "[GIT] Configuring git identity...",
            "  git config --global init.defaultBranch = main",
            "  git config --global push.autoSetupRemote = true",
            "  [WARN] git config fetch.prune failed: locked",
            "  git config --global rebase.autoStash = true",
            "  git config --global url.git@github.com:.insteadOf = https://github.com/",
            "[GIT] Git identity configured",
            "[SSH] Existing SSH key found — skipping generation",
            "  Public key: ssh-ed25519 AAAA u@box",
            "[SSH] Adding key to ssh-agent...",
            "  [WARN] ssh-add: no agent",
            "[GIT] Git & GitHub setup complete",
        ]
    );
    assert_eq!(tasks.len(), 10);
    assert_eq!(tasks[0], run("git", &["config", "--global", "init.defaultBranch", "main"]));
    assert_eq!(tasks[6], Task::Exists("/home/u/.ssh/id_ed25519".to_string()));
    assert_eq!(tasks[7], Task::Read("/home/u/.ssh/id_ed25519.pub".to_string()));
    assert_eq!(tasks[8], run("ssh-agent", &["-s"]));
    assert_eq!(tasks[9], run("ssh-add", &["/home/u/.ssh/id_ed25519"]));
}

#[test]
fn set_up_that_generates_a_key_on_macos_with_everything() {
    let w = wizard("Ada", "", &["gh"], true);
    let answer = |task: &Task| -> Outcome {
        match task {
            Task::Exists(p) if p.ends_with("id_ed25519") || p.ends_with("id_rsa") => {
                exited(1, "", "")
            }
            Task::Read(p) if p.ends_with("config") => failed("missing"),
            Task::Read(p) if p.ends_with(".pub") => exited(0, "ssh-ed25519 KEYKEY ada\n", ""),
            Task::Run(c) if c.program == "gh" && c.args[0] == "ssh-key" && c.args[1] == "list" => {
                exited(0, "other ssh-ed25519 ZZZ\n", "")
            }
            Task::Run(c) if c.program == "gpg" && c.args[0] == "--list-secret-keys" => {
                exited(0, "sec   ed25519/ABCD 2024 [SC]\n", "")
            }
            _ => exited(0, "", ""),
        }
    };
    let (said, tasks) = drive(&w, &system(Os::MacOS), "ada", None, &answer);
    let expected_tail: Vec<&str> = vec![
        "[GIT] Git identity configured",
        "[SSH] Generating ed25519 SSH key...",
        "[SSH] SSH key generated successfully",
        "  Public key: ssh-ed25519 KEYKEY ada",
        "[SSH] Adding key to ssh-agent...",
        "  Wrote ~/.ssh/config (Keychain integration)",
        "  Key added to ssh-agent",
        "[GH] Already authenticated with GitHub CLI",
        "[GH] Uploading SSH key to GitHub...",
        "  SSH key uploaded as 'LOAD*,8,1 (c64)'",
        "  Set gh as git credential helper",
        "[GPG] Checking for existing GPG keys...",
        "  Existing GPG key found — configuring git to use it",
        "  git config --global user.signingkey = ABCD",
        "  git config --global commit.gpgsign = true",
        "  git config --global tag.gpgsign = true",
        "  Git configured to sign with key ABCD",
        "[GIT] Git & GitHub setup complete",
    ];
    let from: usize = said.len() - expected_tail.len();
    assert_eq!(said[from..].to_vec(), expected_tail);
    let key: &str = "/home/u/.ssh/id_ed25519";
    assert!(tasks.contains(&Task::MakeDir("/home/u/.ssh".to_string())));
    assert!(tasks.contains(&Task::SetMode("/home/u/.ssh".to_string(), 0o700)));
    assert!(tasks.contains(&Task::SetMode(key.to_string(), 0o600)));
    assert!(tasks.contains(&Task::SetMode("/home/u/.ssh/config".to_string(), 0o644)));
    assert!(tasks.contains(&run(
        "ssh-keygen",
        &["-t", "ed25519", "-C", "ada@loadstar", "-f", key, "-N", ""]
    )));
    assert!(tasks.contains(&run("ssh-add", &["--apple-use-keychain", key])));
    assert!(tasks.contains(&run(
        "gh",
        &["ssh-key", "add", "/home/u/.ssh/id_ed25519.pub", "--title", "LOAD*,8,1 (c64)"]
    )));
    assert!(tasks.contains(&run("gpg", &["--list-secret-keys", "--keyid-format=long", ""])));
    let appended: Vec<&Task> =
        tasks.iter().filter(|t| matches!(t, Task::Append(_, _))).collect();
    assert_eq!(
        appended,
        vec![&Task::Append("/home/u/.ssh/config".to_string(), ssh_config_addition(key))]
    );
}

#[test]
fn set_up_where_everything_fails_still_ends() {
    let w = wizard("Ada", "ada@x.org", &["gh", "delta"], true);
    let (said, tasks) =
        drive(&w, &system(Os::MacOS), "ada", Some("h"), &|_t: &Task| failed("broken"));
    assert_eq!(said.last().unwrap(), "[GIT] Git & GitHub setup complete");
    assert!(said.contains(&"  [ERROR] Failed to create ~/.ssh: broken".to_string()));
    assert!(said.contains(&"[GH] GitHub CLI not found — skipping auth setup".to_string()));
    assert!(said.contains(&"[GPG] GnuPG not found — skipping signing setup".to_string()));
    assert!(said.contains(&"  Install gnupg and re-run, or set up manually".to_string()));
    assert_eq!(tasks.len(), 12 + 3 + 2);
}

#[test]
fn set_up_with_an_rsa_key_already_uploaded_and_no_gpg_key() {
    let w = wizard("", "ada@x.org", &["gh"], true);
    let answer = |task: &Task| -> Outcome {
        match task {
            Task::Exists(p) if p.ends_with("id_ed25519") => exited(1, "", ""),
            Task::Read(p) if p.ends_with("id_rsa.pub") => exited(0, "ssh-rsa RRR ada\n", ""),
            Task::Run(c) if c.program == "gh" && c.args.len() > 1 && c.args[1] == "list" => {
                exited(0, "k RRR\n", "")
            }
            Task::Run(c) if c.program == "gpg" && c.args[0] == "--list-secret-keys" => {
                exited(2, " \n", "gpg: error")
            }
            Task::Run(c) if c.program == "ssh-add" => failed("no ssh-add"),
            _ => exited(0, "", ""),
        }
    };
    let (said, tasks) = drive(&w, &system(Os::Linux), "ada", Some("h"), &answer);
    assert!(said.contains(
        &"[SSH] Existing RSA key found at ~/.ssh/id_rsa — skipping generation".to_string()
    ));
    assert!(said.contains(&"  [WARN] Could not run ssh-add: no ssh-add".to_string()));
    assert!(said.contains(&"  SSH key already on GitHub — skipping upload".to_string()));
    let tail: Vec<&str> = vec![
        "[GPG] Checking for existing GPG keys...",
        "[GPG] No GPG key found for this email",
        "  Run after install: gpg --full-generate-key",
        "  Then: git config --global user.signingkey <KEY_ID>",
        "  Then: git config --global commit.gpgsign true",
        "[GIT] Git & GitHub setup complete",
    ];
    assert_eq!(said[said.len() - tail.len()..].to_vec(), tail);
    assert!(!tasks.iter().any(|t| matches!(t, Task::Run(c) if c.args.contains(&"add".to_string()) && c.program == "gh")));
    assert!(tasks.contains(&run("gpg", &["--list-secret-keys", "--keyid-format=long", "ada@x.org"])));
}

#[test]
fn gh_not_logged_in() {
    let w = wizard("", "", &["gh"], false);
    let answer = |task: &Task| -> Outcome {
        match task {
            Task::Exists(_) => exited(1, "", ""),
            Task::Run(c) if c.program == "ssh-keygen" => exited(1, "", " nope \n"),
            Task::Run(c) if c.program == "gh" && c.args[0] == "auth" => exited(1, "", ""),
            _ => exited(0, "", ""),
        }
    };
    let (said, _tasks) = drive(&w, &system(Os::Linux), "u", Some("h"), &answer);
    let tail: Vec<&str> = vec![
        "[SSH] Generating ed25519 SSH key...",
        "  [ERROR] ssh-keygen failed: nope",
        "[GH] GitHub CLI auth requires interactive login",
        "  Run after install: gh auth login --protocol ssh --web",
        "[GIT] Git & GitHub setup complete",
    ];
    assert_eq!(said[said.len() - tail.len()..].to_vec(), tail);
}

#[test]
fn setup_github_begins_with_the_settings() {
    let w = wizard("", "", &[], false);
    let (setup, first) = setup_github(&w, &system(Os::Linux));
    assert!(!setup.is_finished());
    assert_eq!(logs(&first.messages), vec!["<Git & GitHub Setup>", "[GIT] Configuring git identity..."]);
    assert_eq!(
        first.request,
        Some(run("git", &["config", "--global", "init.defaultBranch", "main"]))
    );
    assert_eq!(setup.pending_task(), first.request);
}
