//! Setting up git and the code host once the tools are installed: the
//! identity that git commits under, an SSH key, the command-line client
//! of the code host, and the signing of commits.
//!
//! All of this is advice to the machine, not part of the installation
//! proper: whatever fails is noted in the log and the next step is
//! taken. As with an install run, nothing is done here. The set-up is a
//! state machine that names the next task and is told how it ended.

use vstd::prelude::*;
use vstd::string::*;
use crate::executor::{
    events, text_pairs, Command, CommandLine, Event, InstallMessage, Outcome, Report,
};
use crate::system::{join_path, joined_path, Os, SystemInfo};
use crate::text::{
    chars_of, contains, find_char, has_part, has_prefix, lines, lines_of, position_of,
    strip_prefix, substring, texts, trim, trimmed, words, words_of,
};
use crate::wizard::WizardState;

verus! {

broadcast use vstd::string::group_string_axioms;

/// The key that a line of a listing of secret keys names: on a line that
/// begins with `sec`, white space aside, the word that follows the first
/// slash.
pub open spec fn key_in_line(line: Seq<char>) -> Option<Seq<char>> {
    let t = trimmed(line);
    let slash = position_of(t, '/', 0);
    if has_prefix(t, "sec"@) && slash < t.len() && words_of(t.skip(slash + 1)).len() > 0 {
        Some(words_of(t.skip(slash + 1))[0])
    } else {
        None
    }
}

/// The first key that the lines from position `i` on name.
pub open spec fn first_key(lines: Seq<Seq<char>>, i: int) -> Option<Seq<char>>
    decreases lines.len() - i,
{
    if i < 0 || i >= lines.len() {
        None
    } else {
        match key_in_line(lines[i]) {
            Some(key) => Some(key),
            None => first_key(lines, i + 1),
        }
    }
}

/// The key that a listing of secret keys names first.
pub open spec fn gpg_key_id(listing: Seq<char>) -> Option<Seq<char>> {
    first_key(lines_of(listing), 0)
}

fn key_of_line(line: &str) -> (r: Option<String>)
    ensures
        match r {
            Some(key) => key_in_line(line@) == Some(key@),
            None => key_in_line(line@) is None,
        },
{
    let t = trim(line);
    if strip_prefix(t.as_str(), "sec").is_none() {
        return None;
    }
    let v = chars_of(t.as_str());
    match find_char(&v, '/') {
        None => None,
        Some(slash) => {
            let after = substring(&v, slash + 1, v.len());
            assert(after@ =~= t@.skip(slash + 1));
            let found = words(after.as_str());
            if found.len() > 0 {
                assert(texts(found@)[0] == found@[0]@);
                Some(found[0].clone())
            } else {
                None
            }
        },
    }
}

/// Reads the identifier of the first secret key out of a listing of
/// secret keys.
pub fn extract_gpg_key_id(output: &str) -> (r: Option<String>)
    ensures
        match r {
            Some(key) => gpg_key_id(output@) == Some(key@),
            None => gpg_key_id(output@) is None,
        },
{
    let all = lines(output);
    let ghost ls = texts(all@);
    let mut i: usize = 0;
    while i < all.len()
        invariant
            i <= all.len(),
            ls == texts(all@),
            ls == lines_of(output@),
            first_key(ls, i as int) == first_key(ls, 0),
        decreases all.len() - i,
    {
        assert(ls[i as int] == all@[i as int]@);
        match key_of_line(all[i].as_str()) {
            Some(key) => {
                return Some(key);
            },
            None => {},
        }
        i += 1;
    }
    None
}

/// The line that shows a public key in the log: the key without the white
/// space around it, and of a key of more than sixty characters only the
/// first thirty and the last twenty.
pub open spec fn public_key_shown(public_key: Seq<char>) -> Seq<char> {
    let t = trimmed(public_key);
    if t.len() > 60 {
        "  Public key: "@ + t.take(30) + "..."@ + t.skip(t.len() - 20)
    } else {
        "  Public key: "@ + t
    }
}

/// The line that shows a public key in the log.
pub fn public_key_line(public_key: &str) -> (r: String)
    ensures
        r@ == public_key_shown(public_key@),
{
    let t = trim(public_key);
    let v = chars_of(t.as_str());
    if v.len() > 60 {
        let head = substring(&v, 0, 30);
        let tail = substring(&v, v.len() - 20, v.len());
        assert(head@ =~= t@.take(30));
        assert(tail@ =~= t@.skip(t@.len() - 20));
        String::from_str("  Public key: ").concat(head.as_str()).concat("...").concat(
            tail.as_str(),
        )
    } else {
        String::from_str("  Public key: ").concat(t.as_str())
    }
}

/// The part of a public key that tells it from all others: its second
/// word, and nothing where it has none.
pub open spec fn fingerprint_of(public_key: Seq<char>) -> Seq<char> {
    if words_of(public_key).len() > 1 {
        words_of(public_key)[1]
    } else {
        Seq::empty()
    }
}

/// The part of a public key that tells it from all others.
pub fn key_fingerprint(public_key: &str) -> (r: String)
    ensures
        r@ == fingerprint_of(public_key@),
{
    let found = words(public_key);
    if found.len() > 1 {
        assert(texts(found@)[1] == found@[1]@);
        found[1].clone()
    } else {
        String::new()
    }
}

/// Whether a listing of the keys that the code host knows holds the given
/// public key.
pub open spec fn key_is_listed(listing: Seq<char>, public_key: Seq<char>) -> bool {
    fingerprint_of(public_key).len() > 0 && has_part(listing, fingerprint_of(public_key))
}

/// Whether a listing of the keys that the code host knows holds the given
/// public key.
pub fn key_already_uploaded(listing: &str, public_key: &str) -> (r: bool)
    ensures
        r == key_is_listed(listing@, public_key@),
{
    let fingerprint = key_fingerprint(public_key);
    fingerprint.as_str().unicode_len() > 0 && contains(listing, fingerprint.as_str())
}

/// What is added to the SSH configuration so that keys are kept in the
/// keychain.
pub open spec fn ssh_config_block(key_path: Seq<char>) -> Seq<char> {
    "\n# Added by LOAD\"*\",8,1\nHost github.com\n    AddKeysToAgent yes\n    UseKeychain yes\n    IdentityFile "@
        + key_path + "\n\nHost *\n    AddKeysToAgent yes\n    UseKeychain yes\n"@
}

/// What is added to the SSH configuration so that keys are kept in the
/// keychain.
pub fn ssh_config_addition(key_path: &str) -> (r: String)
    ensures
        r@ == ssh_config_block(key_path@),
{
    String::from_str(
        "\n# Added by LOAD\"*\",8,1\nHost github.com\n    AddKeysToAgent yes\n    UseKeychain yes\n    IdentityFile ",
    ).concat(key_path).concat("\n\nHost *\n    AddKeysToAgent yes\n    UseKeychain yes\n")
}

/// The settings that git is given, each with its value and in this order:
/// the name and the email where they are known, the usual defaults, the
/// pager where it is among the selected tools, and SSH for the code host.
pub open spec fn git_settings(name: Seq<char>, email: Seq<char>, delta: bool) -> Seq<
    (Seq<char>, Seq<char>),
> {
    (if name.len() > 0 {
        seq![("user.name"@, name)]
    } else {
        Seq::empty()
    }) + (if email.len() > 0 {
        seq![("user.email"@, email)]
    } else {
        Seq::empty()
    }) + seq![
        ("init.defaultBranch"@, "main"@),
        ("push.autoSetupRemote"@, "true"@),
        ("pull.rebase"@, "true"@),
        ("fetch.prune"@, "true"@),
        ("rebase.autoStash"@, "true"@),
    ] + (if delta {
        seq![
            ("core.pager"@, "delta"@),
            ("interactive.diffFilter"@, "delta --color-only"@),
            ("delta.navigate"@, "true"@),
            ("delta.line-numbers"@, "true"@),
        ]
    } else {
        Seq::empty()
    }) + seq![("url.git@github.com:.insteadOf"@, "https://github.com/"@)]
}

fn set(settings: &mut Vec<(String, String)>, key: &str, value: &str)
    ensures
        text_pairs(final(settings)@) == text_pairs(old(settings)@).push((key@, value@)),
{
    let pair = (String::from_str(key), String::from_str(value));
    assert(text_pairs(settings@.push(pair)) =~= text_pairs(settings@).push((key@, value@)));
    settings.push(pair);
}

/// The settings that git is given for the choices of a session.
pub fn git_identity_settings(wizard: &WizardState) -> (r: Vec<(String, String)>)
    ensures
        text_pairs(r@) == git_settings(
            wizard.identity.name@,
            wizard.identity.email@,
            wizard.selected_apps@.contains("delta"@),
        ),
        r@.len() >= 6,
{
    let mut r: Vec<(String, String)> = Vec::new();
    assert(text_pairs(r@) =~= Seq::<(Seq<char>, Seq<char>)>::empty());
    if wizard.identity.name.as_str().unicode_len() > 0 {
        set(&mut r, "user.name", wizard.identity.name.as_str());
    }
    if wizard.identity.email.as_str().unicode_len() > 0 {
        set(&mut r, "user.email", wizard.identity.email.as_str());
    }
    set(&mut r, "init.defaultBranch", "main");
    set(&mut r, "push.autoSetupRemote", "true");
    set(&mut r, "pull.rebase", "true");
    set(&mut r, "fetch.prune", "true");
    set(&mut r, "rebase.autoStash", "true");
    if wizard.selected_apps.contains("delta") {
        set(&mut r, "core.pager", "delta");
        set(&mut r, "interactive.diffFilter", "delta --color-only");
        set(&mut r, "delta.navigate", "true");
        set(&mut r, "delta.line-numbers", "true");
    }
    set(&mut r, "url.git@github.com:.insteadOf", "https://github.com/");
    assert(text_pairs(r@) =~= git_settings(
        wizard.identity.name@,
        wizard.identity.email@,
        wizard.selected_apps@.contains("delta"@),
    ));
    assert(text_pairs(r@).len() == r@.len());
    r
}

/// The log line for one setting of git: that it was made, or why it
/// could not be. Where git could not even be started, nothing is logged.
pub open spec fn git_config_logged(key: Seq<char>, value: Seq<char>, report: Report) -> Seq<Event> {
    match report {
        Report::NotStarted { .. } => Seq::empty(),
        Report::Exited { code, stdout, stderr } => if code == 0 {
            seq![Event::Log("  git config --global "@ + key + " = "@ + value)]
        } else {
            seq![Event::Log("  [WARN] git config "@ + key + " failed: "@ + trimmed(stderr))]
        },
    }
}

/// A task for whoever drives the set-up. How it ended is told as the
/// outcome of a command is. For a command, it is that outcome. For the
/// question whether a path exists, exit code zero says that it does.
/// To read a file ends with exit code zero and the content as standard
/// output. Every other task ends with exit code zero when it is done.
/// A task that could not be done ends as a command that could not be
/// started, with the reason.
#[derive(Debug, Clone, PartialEq, Eq)]
pub enum Task {
    /// Run the command.
    Run(Command),
    /// Say whether the path exists.
    Exists(String),
    /// Create the directory, and those above it that are missing.
    MakeDir(String),
    /// Set the permission bits of the path.
    SetMode(String, u32),
    /// Read the file as text.
    Read(String),
    /// Add the text at the end of the file, which is created if it is
    /// missing.
    Append(String, String),
}

/// A task as a value of the specification.
pub enum TaskView {
    Run(CommandLine),
    Exists(Seq<char>),
    MakeDir(Seq<char>),
    SetMode(Seq<char>, u32),
    Read(Seq<char>),
    Append(Seq<char>, Seq<char>),
}

impl View for Task {
    type V = TaskView;

    open spec fn view(&self) -> TaskView {
        match self {
            Task::Run(command) => TaskView::Run(command@),
            Task::Exists(path) => TaskView::Exists(path@),
            Task::MakeDir(path) => TaskView::MakeDir(path@),
            Task::SetMode(path, mode) => TaskView::SetMode(path@, *mode),
            Task::Read(path) => TaskView::Read(path@),
            Task::Append(path, content) => TaskView::Append(path@, content@),
        }
    }
}

/// The task of a request as a value of the specification.
pub open spec fn task_view(task: Option<Task>) -> Option<TaskView> {
    match task {
        Some(t) => Some(t@),
        None => None,
    }
}

/// Where the set-up stands: which task is out.
#[derive(Debug, Clone, Copy, PartialEq, Eq, Structural)]
pub enum GitStage {
    /// The setting of git at this position is being made.
    Config(usize),
    /// Is there an ed25519 key?
    KeyExists,
    /// Is there an RSA key?
    RsaExists,
    /// The directory for keys is being created.
    MakeDir,
    /// The directory for keys is being closed to others.
    DirMode,
    /// The key is being generated.
    Keygen,
    /// The key is being closed to others.
    KeyMode,
    /// The public key is being read, to be shown.
    ShowKey,
    /// The SSH agent is being started.
    AgentStart,
    /// The SSH configuration is being read.
    ConfigRead,
    /// The SSH configuration is being added to.
    ConfigAppend,
    /// The SSH configuration is being opened to reading.
    ConfigMode,
    /// The key is being handed to the SSH agent.
    SshAdd,
    /// Is the client of the code host there?
    GhVersion,
    /// Is the client logged in?
    GhAuth,
    /// Is there a public key to upload?
    PubExists,
    /// The keys that the code host knows are being listed.
    GhKeyList,
    /// The public key is being read, to be uploaded.
    ReadPub,
    /// The public key is being uploaded.
    GhKeyAdd,
    /// The client is being made the credential helper of git.
    GhSetupGit,
    /// Is the signing tool there?
    GpgVersion,
    /// The secret keys are being listed.
    GpgList,
    /// The setting for signing at this position is being made.
    SignConfig(usize),
    /// Nothing is out and nothing will be.
    Finished,
}

/// What a set-up is given to go by.
pub struct GitPlan {
    /// The settings to make of git, in order
    pub settings: Seq<(Seq<char>, Seq<char>)>,
    pub email: Seq<char>,
    /// Whether the client of the code host is among the selected tools
    pub gh: bool,
    /// Whether commits are to be signed
    pub signing: bool,
    pub macos: bool,
    /// The user's home directory
    pub home: Seq<char>,
    /// The user's login name
    pub username: Seq<char>,
    /// The name of the machine
    pub hostname: Seq<char>,
}

/// A set-up as a value of the specification.
pub struct GitState {
    pub plan: GitPlan,
    pub stage: GitStage,
    /// The private key that is used, once there is one
    pub key: Option<Seq<char>>,
    /// The keys that the code host knows, as it listed them
    pub listed: Seq<char>,
    /// The key that commits are signed with
    pub signing_key: Seq<char>,
}

/// A state and the events given out on the way to it.
pub struct Moved {
    pub state: GitState,
    pub events: Seq<Event>,
}

/// One log event.
pub open spec fn log(line: Seq<char>) -> Seq<Event> {
    seq![Event::Log(line)]
}

/// The settings that make git sign with the given key.
pub open spec fn sign_settings(key: Seq<char>) -> Seq<(Seq<char>, Seq<char>)> {
    seq![("user.signingkey"@, key), ("commit.gpgsign"@, "true"@), ("tag.gpgsign"@, "true"@)]
}

impl GitPlan {
    /// The directory for keys.
    pub open spec fn ssh_dir(self) -> Seq<char> {
        joined_path(self.home, ".ssh"@)
    }

    /// The key that is looked for first, and generated if none is found.
    pub open spec fn ed_key(self) -> Seq<char> {
        joined_path(self.ssh_dir(), "id_ed25519"@)
    }

    /// The key that is looked for second.
    pub open spec fn rsa_key(self) -> Seq<char> {
        joined_path(self.ssh_dir(), "id_rsa"@)
    }

    /// The SSH configuration.
    pub open spec fn ssh_config(self) -> Seq<char> {
        joined_path(self.ssh_dir(), "config"@)
    }

    /// The comment that a new key gets: the email, or the login name where
    /// no email is known.
    pub open spec fn comment(self) -> Seq<char> {
        if self.email.len() > 0 {
            self.email
        } else {
            self.username + "@loadstar"@
        }
    }

    /// The title under which the key is uploaded.
    pub open spec fn title(self) -> Seq<char> {
        "LOAD*,8,1 ("@ + self.hostname + ")"@
    }
}

/// The public key that goes with a private key.
pub open spec fn public_of(key: Seq<char>) -> Seq<char> {
    key + ".pub"@
}

/// The command that makes one setting of git.
pub open spec fn git_config_line(setting: (Seq<char>, Seq<char>)) -> CommandLine {
    CommandLine { program: "git"@, args: seq!["config"@, "--global"@, setting.0, setting.1] }
}

/// What a task wrote to its standard output, and nothing where it could
/// not be started.
pub open spec fn written(report: Report) -> Seq<char> {
    match report {
        Report::Exited { code, stdout, stderr } => stdout,
        Report::NotStarted { .. } => Seq::empty(),
    }
}

/// The log line for a command that did not do its work: after `failed`
/// what it wrote to its standard error, where it ran; after `unstarted`
/// the reason, where it could not be started.
pub open spec fn failure_logged(report: Report, failed: Seq<char>, unstarted: Seq<char>) -> Seq<
    Event,
> {
    match report {
        Report::Exited { code, stdout, stderr } => log(failed + trimmed(stderr)),
        Report::NotStarted { reason } => log(unstarted + reason),
    }
}

impl GitState {
    /// The state in which a set-up begins.
    pub open spec fn initial(plan: GitPlan) -> GitState {
        GitState {
            plan,
            stage: GitStage::Config(0),
            key: None,
            listed: Seq::empty(),
            signing_key: Seq::empty(),
        }
    }

    /// What holds of every state that a set-up can be in.
    pub open spec fn wf(self) -> bool {
        &&& 0 < self.plan.settings.len() <= usize::MAX
        &&& match self.stage {
            GitStage::Config(i) => i < self.plan.settings.len(),
            GitStage::SignConfig(j) => j < 3,
            GitStage::KeyMode | GitStage::ShowKey | GitStage::AgentStart | GitStage::ConfigRead
            | GitStage::ConfigAppend | GitStage::ConfigMode | GitStage::SshAdd
            | GitStage::PubExists | GitStage::GhKeyList | GitStage::ReadPub
            | GitStage::GhKeyAdd => self.key is Some,
            _ => true,
        }
    }

    /// The state at another stage.
    pub open spec fn at(self, stage: GitStage) -> GitState {
        GitState { stage, ..self }
    }

    /// Straight to the stage, with nothing said.
    pub open spec fn to(self, stage: GitStage) -> Moved {
        Moved { state: self.at(stage), events: Seq::empty() }
    }

    /// The end of the set-up.
    pub open spec fn to_finish(self) -> Moved {
        Moved {
            state: self.at(GitStage::Finished),
            events: log("[GIT] Git & GitHub setup complete"@),
        }
    }

    /// On to the signing of commits, where it is wanted.
    pub open spec fn to_signing(self) -> Moved {
        if self.plan.signing {
            self.to(GitStage::GpgVersion)
        } else {
            self.to_finish()
        }
    }

    /// On to the client of the code host, where it is among the selected
    /// tools.
    pub open spec fn to_gh(self) -> Moved {
        if self.plan.gh {
            self.to(GitStage::GhVersion)
        } else {
            self.to_signing()
        }
    }

    /// On to the SSH agent, where there is a key to hand to it.
    pub open spec fn to_agent(self) -> Moved {
        if self.key is Some {
            Moved {
                state: self.at(GitStage::AgentStart),
                events: log("[SSH] Adding key to ssh-agent..."@),
            }
        } else {
            self.to_gh()
        }
    }

    /// The task that is out in this state, if one is.
    pub open spec fn pending(self) -> Option<TaskView> {
        let plan = self.plan;
        match self.stage {
            GitStage::Config(i) => Some(TaskView::Run(git_config_line(plan.settings[i as int]))),
            GitStage::KeyExists => Some(TaskView::Exists(plan.ed_key())),
            GitStage::RsaExists => Some(TaskView::Exists(plan.rsa_key())),
            GitStage::MakeDir => Some(TaskView::MakeDir(plan.ssh_dir())),
            GitStage::DirMode => Some(TaskView::SetMode(plan.ssh_dir(), 0o700)),
            GitStage::Keygen => Some(
                TaskView::Run(
                    CommandLine {
                        program: "ssh-keygen"@,
                        args: seq![
                            "-t"@,
                            "ed25519"@,
                            "-C"@,
                            plan.comment(),
                            "-f"@,
                            plan.ed_key(),
                            "-N"@,
                            ""@,
                        ],
                    },
                ),
            ),
            GitStage::KeyMode => Some(TaskView::SetMode(self.key->0, 0o600)),
            GitStage::ShowKey => Some(TaskView::Read(public_of(self.key->0))),
            GitStage::AgentStart => Some(
                TaskView::Run(CommandLine { program: "ssh-agent"@, args: seq!["-s"@] }),
            ),
            GitStage::ConfigRead => Some(TaskView::Read(plan.ssh_config())),
            GitStage::ConfigAppend => Some(
                TaskView::Append(plan.ssh_config(), ssh_config_block(self.key->0)),
            ),
            GitStage::ConfigMode => Some(TaskView::SetMode(plan.ssh_config(), 0o644)),
            GitStage::SshAdd => Some(
                TaskView::Run(
                    CommandLine {
                        program: "ssh-add"@,
                        args: if plan.macos {
                            seq!["--apple-use-keychain"@, self.key->0]
                        } else {
                            seq![self.key->0]
                        },
                    },
                ),
            ),
            GitStage::GhVersion => Some(
                TaskView::Run(CommandLine { program: "gh"@, args: seq!["--version"@] }),
            ),
            GitStage::GhAuth => Some(
                TaskView::Run(CommandLine { program: "gh"@, args: seq!["auth"@, "status"@] }),
            ),
            GitStage::PubExists => Some(TaskView::Exists(public_of(self.key->0))),
            GitStage::GhKeyList => Some(
                TaskView::Run(CommandLine { program: "gh"@, args: seq!["ssh-key"@, "list"@] }),
            ),
            GitStage::ReadPub => Some(TaskView::Read(public_of(self.key->0))),
            GitStage::GhKeyAdd => Some(
                TaskView::Run(
                    CommandLine {
                        program: "gh"@,
                        args: seq![
                            "ssh-key"@,
                            "add"@,
                            public_of(self.key->0),
                            "--title"@,
                            plan.title(),
                        ],
                    },
                ),
            ),
            GitStage::GhSetupGit => Some(
                TaskView::Run(CommandLine { program: "gh"@, args: seq!["auth"@, "setup-git"@] }),
            ),
            GitStage::GpgVersion => Some(
                TaskView::Run(CommandLine { program: "gpg"@, args: seq!["--version"@] }),
            ),
            GitStage::GpgList => Some(
                TaskView::Run(
                    CommandLine {
                        program: "gpg"@,
                        args: seq!["--list-secret-keys"@, "--keyid-format=long"@, plan.email],
                    },
                ),
            ),
            GitStage::SignConfig(j) => Some(
                TaskView::Run(git_config_line(sign_settings(self.signing_key)[j as int])),
            ),
            GitStage::Finished => None,
        }
    }

    /// The state after the task that was out has ended as reported, and
    /// the events given out on the way.
    pub open spec fn step(self, report: Report) -> Moved {
        let plan = self.plan;
        match self.stage {
            GitStage::Config(i) => {
                let said = git_config_logged(
                    plan.settings[i as int].0,
                    plan.settings[i as int].1,
                    report,
                );
                if i + 1 < plan.settings.len() {
                    Moved { state: self.at(GitStage::Config((i + 1) as usize)), events: said }
                } else {
                    Moved {
                        state: self.at(GitStage::KeyExists),
                        events: said + log("[GIT] Git identity configured"@),
                    }
                }
            },
            GitStage::KeyExists => if report.succeeded() {
                Moved {
                    state: GitState { key: Some(plan.ed_key()), stage: GitStage::ShowKey, ..self },
                    events: log("[SSH] Existing SSH key found — skipping generation"@),
                }
            } else {
                self.to(GitStage::RsaExists)
            },
            GitStage::RsaExists => if report.succeeded() {
                Moved {
                    state: GitState { key: Some(plan.rsa_key()), stage: GitStage::ShowKey, ..self },
                    events: log(
                        "[SSH] Existing RSA key found at ~/.ssh/id_rsa — skipping generation"@,
                    ),
                }
            } else {
                Moved {
                    state: self.at(GitStage::MakeDir),
                    events: log("[SSH] Generating ed25519 SSH key..."@),
                }
            },
            GitStage::MakeDir => match report {
                Report::NotStarted { reason } => {
                    let next = self.to_agent();
                    Moved {
                        state: next.state,
                        events: log("  [ERROR] Failed to create ~/.ssh: "@ + reason) + next.events,
                    }
                },
                Report::Exited { .. } => self.to(GitStage::DirMode),
            },
            GitStage::DirMode => self.to(GitStage::Keygen),
            GitStage::Keygen => if report.succeeded() {
                Moved {
                    state: GitState { key: Some(plan.ed_key()), stage: GitStage::KeyMode, ..self },
                    events: log("[SSH] SSH key generated successfully"@),
                }
            } else {
                let next = self.to_agent();
                Moved {
                    state: next.state,
                    events: failure_logged(
                        report,
                        "  [ERROR] ssh-keygen failed: "@,
                        "  [ERROR] Could not run ssh-keygen: "@,
                    ) + next.events,
                }
            },
            GitStage::KeyMode => self.to(GitStage::ShowKey),
            GitStage::ShowKey => {
                let next = self.to_agent();
                Moved {
                    state: next.state,
                    events: (if report.succeeded() {
                        log(public_key_shown(written(report)))
                    } else {
                        Seq::empty()
                    }) + next.events,
                }
            },
            GitStage::AgentStart => if plan.macos {
                self.to(GitStage::ConfigRead)
            } else {
                self.to(GitStage::SshAdd)
            },
            GitStage::ConfigRead => if report.succeeded() && has_part(
                written(report),
                "AddKeysToAgent"@,
            ) {
                self.to(GitStage::SshAdd)
            } else {
                self.to(GitStage::ConfigAppend)
            },
            GitStage::ConfigAppend => match report {
                Report::NotStarted { reason } => Moved {
                    state: self.at(GitStage::SshAdd),
                    events: log("  [WARN] Could not write ~/.ssh/config: "@ + reason),
                },
                Report::Exited { .. } => self.to(GitStage::ConfigMode),
            },
            GitStage::ConfigMode => Moved {
                state: self.at(GitStage::SshAdd),
                events: log("  Wrote ~/.ssh/config (Keychain integration)"@),
            },
            GitStage::SshAdd => {
                let next = self.to_gh();
                Moved {
                    state: next.state,
                    events: (if report.succeeded() {
                        log("  Key added to ssh-agent"@)
                    } else {
                        failure_logged(
                            report,
                            "  [WARN] ssh-add: "@,
                            "  [WARN] Could not run ssh-add: "@,
                        )
                    }) + next.events,
                }
            },
            GitStage::GhVersion => if report.succeeded() {
                self.to(GitStage::GhAuth)
            } else {
                let next = self.to_signing();
                Moved {
                    state: next.state,
                    events: log("[GH] GitHub CLI not found — skipping auth setup"@) + next.events,
                }
            },
            GitStage::GhAuth => if report.succeeded() {
                Moved {
                    state: self.at(
                        if self.key is Some {
                            GitStage::PubExists
                        } else {
                            GitStage::GhSetupGit
                        },
                    ),
                    events: log("[GH] Already authenticated with GitHub CLI"@),
                }
            } else {
                let next = self.to_signing();
                Moved {
                    state: next.state,
                    events: seq![
                        Event::Log("[GH] GitHub CLI auth requires interactive login"@),
                        Event::Log("  Run after install: gh auth login --protocol ssh --web"@),
                    ] + next.events,
                }
            },
            GitStage::PubExists => if report.succeeded() {
                self.to(GitStage::GhKeyList)
            } else {
                self.to(GitStage::GhSetupGit)
            },
            GitStage::GhKeyList => Moved {
                state: GitState { listed: written(report), stage: GitStage::ReadPub, ..self },
                events: Seq::empty(),
            },
            GitStage::ReadPub => {
                let public_key = if report.succeeded() {
                    written(report)
                } else {
                    Seq::empty()
                };
                if key_is_listed(self.listed, public_key) {
                    Moved {
                        state: self.at(GitStage::GhSetupGit),
                        events: log("  SSH key already on GitHub — skipping upload"@),
                    }
                } else {
                    Moved {
                        state: self.at(GitStage::GhKeyAdd),
                        events: log("[GH] Uploading SSH key to GitHub..."@),
                    }
                }
            },
            GitStage::GhKeyAdd => Moved {
                state: self.at(GitStage::GhSetupGit),
                events: if report.succeeded() {
                    log("  SSH key uploaded as '"@ + plan.title() + "'"@)
                } else {
                    failure_logged(
                        report,
                        "  [WARN] Failed to upload SSH key: "@,
                        "  [WARN] Could not run gh ssh-key add: "@,
                    )
                },
            },
            GitStage::GhSetupGit => {
                let next = self.to_signing();
                Moved {
                    state: next.state,
                    events: log("  Set gh as git credential helper"@) + next.events,
                }
            },
            GitStage::GpgVersion => if report.succeeded() {
                Moved {
                    state: self.at(GitStage::GpgList),
                    events: log("[GPG] Checking for existing GPG keys..."@),
                }
            } else {
                let next = self.to_finish();
                Moved {
                    state: next.state,
                    events: seq![
                        Event::Log("[GPG] GnuPG not found — skipping signing setup"@),
                        Event::Log("  Install gnupg and re-run, or set up manually"@),
                    ] + next.events,
                }
            },
            GitStage::GpgList => {
                let listing = written(report);
                if trimmed(listing).len() > 0 {
                    let found = log("  Existing GPG key found — configuring git to use it"@);
                    match gpg_key_id(listing) {
                        Some(key) => Moved {
                            state: GitState {
                                signing_key: key,
                                stage: GitStage::SignConfig(0),
                                ..self
                            },
                            events: found,
                        },
                        None => {
                            let next = self.to_finish();
                            Moved { state: next.state, events: found + next.events }
                        },
                    }
                } else {
                    let next = self.to_finish();
                    Moved {
                        state: next.state,
                        events: seq![
                            Event::Log("[GPG] No GPG key found for this email"@),
                            Event::Log("  Run after install: gpg --full-generate-key"@),
                            Event::Log("  Then: git config --global user.signingkey <KEY_ID>"@),
                            Event::Log("  Then: git config --global commit.gpgsign true"@),
                        ] + next.events,
                    }
                }
            },
            GitStage::SignConfig(j) => {
                let setting = sign_settings(self.signing_key)[j as int];
                let said = git_config_logged(setting.0, setting.1, report);
                if j < 2 {
                    Moved { state: self.at(GitStage::SignConfig((j + 1) as usize)), events: said }
                } else {
                    let next = self.to_finish();
                    Moved {
                        state: next.state,
                        events: said + log(
                            "  Git configured to sign with key "@ + self.signing_key,
                        ) + next.events,
                    }
                }
            },
            GitStage::Finished => Moved { state: self, events: Seq::empty() },
        }
    }

    /// How far a state is from the end: no step goes to a state that is
    /// as far or farther.
    pub open spec fn rank(self) -> int {
        match self.stage {
            GitStage::Config(i) => 30 + self.plan.settings.len() - i,
            GitStage::KeyExists => 29,
            GitStage::RsaExists => 28,
            GitStage::MakeDir => 27,
            GitStage::DirMode => 26,
            GitStage::Keygen => 25,
            GitStage::KeyMode => 24,
            GitStage::ShowKey => 23,
            GitStage::AgentStart => 22,
            GitStage::ConfigRead => 21,
            GitStage::ConfigAppend => 20,
            GitStage::ConfigMode => 19,
            GitStage::SshAdd => 18,
            GitStage::GhVersion => 17,
            GitStage::GhAuth => 16,
            GitStage::PubExists => 15,
            GitStage::GhKeyList => 14,
            GitStage::ReadPub => 13,
            GitStage::GhKeyAdd => 12,
            GitStage::GhSetupGit => 11,
            GitStage::GpgVersion => 10,
            GitStage::GpgList => 9,
            GitStage::SignConfig(j) => 8 - j,
            GitStage::Finished => 0,
        }
    }
}

/// The events that open a set-up.
pub open spec fn setup_opening() -> Seq<Event> {
    seq![
        Event::PhaseStart { phase: "Git & GitHub Setup"@ },
        Event::Log("[GIT] Configuring git identity..."@),
    ]
}

/// Nothing stops a set-up. Whatever a task comes to, the step after it
/// leads to a well-formed state that is nearer to the end, so that the
/// set-up is through after a number of steps that is known beforehand;
/// and what the step gives out are lines for the log and nothing else,
/// so that no failure of a task counts as a failure of the installation.
pub proof fn lemma_setup_goes_on(s: GitState, report: Report)
    requires
        s.wf(),
        s.stage != GitStage::Finished,
    ensures
        s.step(report).state.wf(),
        s.step(report).state.plan == s.plan,
        0 <= s.step(report).state.rank() < s.rank(),
        forall|i: int|
            0 <= i < s.step(report).events.len() ==> (#[trigger] s.step(report).events[i]) is Log,
        s.step(report).state.stage == GitStage::Finished <==> s.step(report).state.pending()
            is None,
{
}

/// What the set-up answers with: the messages to send on, in this
/// order, and the task to do next. Where no task is named, the set-up
/// is over.
#[derive(Debug)]
pub struct GitStep {
    pub messages: Vec<InstallMessage>,
    pub request: Option<Task>,
}

/// `whoami::username`: the login name of the user who runs the program.
/// It depends on the machine and the account, so nothing is claimed of
/// the text.
#[verifier::external_body]
fn login_name() -> (name: String) {
    whoami::username()
}

/// `whoami::fallible::hostname`: the name of the machine, where the
/// operating system gives one. It depends on the machine, so nothing is
/// claimed of the text.
#[verifier::external_body]
fn host_name() -> (name: Option<String>) {
    whoami::fallible::hostname().ok()
}

/// The plan of a set-up for the choices of a session on a machine, under
/// the given login name and host name.
pub open spec fn plan_for(
    wizard: WizardState,
    system: SystemInfo,
    username: Seq<char>,
    hostname: Option<Seq<char>>,
) -> GitPlan {
    GitPlan {
        settings: git_settings(
            wizard.identity.name@,
            wizard.identity.email@,
            wizard.selected_apps@.contains("delta"@),
        ),
        email: wizard.identity.email@,
        gh: wizard.selected_apps@.contains("gh"@),
        signing: wizard.setup_git_signing,
        macos: system.os == Os::MacOS,
        home: system.home_dir@,
        username,
        hostname: match hostname {
            Some(h) => h,
            None => "c64"@,
        },
    }
}

fn tell(messages: &mut Vec<InstallMessage>, line: String)
    ensures
        events(final(messages)@) == events(old(messages)@) + log(line@),
{
    let message = InstallMessage::Log(line);
    assert(events(messages@.push(message)) =~= events(messages@) + log(line@));
    messages.push(message);
}

fn tell_str(messages: &mut Vec<InstallMessage>, line: &str)
    ensures
        events(final(messages)@) == events(old(messages)@) + log(line@),
{
    tell(messages, String::from_str(line));
}

fn tell_failure(messages: &mut Vec<InstallMessage>, outcome: &Outcome, failed: &str, unstarted: &str)
    ensures
        events(final(messages)@) == events(old(messages)@) + failure_logged(
            outcome@,
            failed@,
            unstarted@,
        ),
{
    match outcome {
        Outcome::Exited { code, stdout, stderr } => {
            let said = trim(stderr.as_str());
            tell(messages, String::from_str(failed).concat(said.as_str()));
        },
        Outcome::NotStarted { reason } => {
            tell(messages, String::from_str(unstarted).concat(reason.as_str()));
        },
    }
}

fn tell_git_config(messages: &mut Vec<InstallMessage>, key: &str, value: &str, outcome: &Outcome)
    ensures
        events(final(messages)@) == events(old(messages)@) + git_config_logged(
            key@,
            value@,
            outcome@,
        ),
{
    match outcome {
        Outcome::NotStarted { .. } => {
            assert(events(messages@) + Seq::<Event>::empty() =~= events(messages@));
        },
        Outcome::Exited { code, stdout, stderr } => {
            if *code == 0 {
                tell(
                    messages,
                    String::from_str("  git config --global ").concat(key).concat(" = ").concat(
                        value,
                    ),
                );
            } else {
                let said = trim(stderr.as_str());
                tell(
                    messages,
                    String::from_str("  [WARN] git config ").concat(key).concat(
                        " failed: ",
                    ).concat(said.as_str()),
                );
            }
        },
    }
}

fn arg(args: &mut Vec<String>, value: &str)
    ensures
        texts(final(args)@) == texts(old(args)@).push(value@),
{
    let a = String::from_str(value);
    assert(texts(args@.push(a)) =~= texts(args@).push(value@));
    args.push(a);
}

fn run(program: &str, args: Vec<String>) -> (r: Task)
    ensures
        r@ == TaskView::Run(CommandLine { program: program@, args: texts(args@) }),
{
    Task::Run(Command { program: String::from_str(program), args })
}

fn no_args() -> (r: Vec<String>)
    ensures
        texts(r@) == Seq::<Seq<char>>::empty(),
{
    let r: Vec<String> = Vec::new();
    assert(texts(r@) =~= Seq::<Seq<char>>::empty());
    r
}

fn git_config_task(key: &str, value: &str) -> (r: Task)
    ensures
        r@ == TaskView::Run(git_config_line((key@, value@))),
{
    let mut args = no_args();
    arg(&mut args, "config");
    arg(&mut args, "--global");
    arg(&mut args, key);
    arg(&mut args, value);
    assert(texts(args@) =~= seq!["config"@, "--global"@, key@, value@]);
    run("git", args)
}

fn written_by(outcome: &Outcome) -> (r: String)
    ensures
        r@ == written(outcome@),
{
    match outcome {
        Outcome::Exited { code, stdout, stderr } => stdout.clone(),
        Outcome::NotStarted { .. } => String::new(),
    }
}

/// The set-up of git and the code host: the machine that decides which
/// task is done next and what is logged, from how each task ended.
pub struct GitSetup {
    settings: Vec<(String, String)>,
    email: String,
    gh: bool,
    signing: bool,
    macos: bool,
    home: String,
    username: String,
    hostname: String,
    stage: GitStage,
    key: Option<String>,
    listed: String,
    signing_key: String,
}

impl View for GitSetup {
    type V = GitState;

    closed spec fn view(&self) -> GitState {
        GitState {
            plan: GitPlan {
                settings: text_pairs(self.settings@),
                email: self.email@,
                gh: self.gh,
                signing: self.signing,
                macos: self.macos,
                home: self.home@,
                username: self.username@,
                hostname: self.hostname@,
            },
            stage: self.stage,
            key: match self.key {
                Some(k) => Some(k@),
                None => None,
            },
            listed: self.listed@,
            signing_key: self.signing_key@,
        }
    }
}

impl GitSetup {
    /// Begins a set-up for the choices of a session on a machine, under
    /// the given login name and host name. The answer holds the events
    /// that open the set-up and its first task.
    pub fn start_with(
        wizard: &WizardState,
        system: &SystemInfo,
        username: String,
        hostname: Option<String>,
    ) -> (r: (GitSetup, GitStep))
        ensures
            r.0@ == GitState::initial(
                plan_for(
                    *wizard,
                    *system,
                    username@,
                    match hostname {
                        Some(h) => Some(h@),
                        None => None,
                    },
                ),
            ),
            r.0@.wf(),
            events(r.1.messages@) == setup_opening(),
            task_view(r.1.request) == r.0@.pending(),
    {
        let settings = git_identity_settings(wizard);
        let hostname = match hostname {
            Some(h) => h,
            None => String::from_str("c64"),
        };
        let setup = GitSetup {
            settings,
            email: wizard.identity.email.clone(),
            gh: wizard.selected_apps.contains("gh"),
            signing: wizard.setup_git_signing,
            macos: system.os == Os::MacOS,
            home: system.home_dir.clone(),
            username,
            hostname,
            stage: GitStage::Config(0),
            key: None,
            listed: String::new(),
            signing_key: String::new(),
        };
        let mut messages: Vec<InstallMessage> = Vec::new();
        let first = InstallMessage::PhaseStart { phase: String::from_str("Git & GitHub Setup") };
        let second = InstallMessage::Log(String::from_str("[GIT] Configuring git identity..."));
        messages.push(first);
        messages.push(second);
        assert(events(messages@) =~= setup_opening());
        assert(text_pairs(setup.settings@).len() == setup.settings@.len());
        let request = setup.pending_task();
        (setup, GitStep { messages, request })
    }

    /// Whether the set-up is over.
    pub fn is_finished(&self) -> (r: bool)
        ensures
            r == (self@.stage == GitStage::Finished),
    {
        self.stage == GitStage::Finished
    }

    fn ssh_dir(&self) -> (r: String)
        ensures
            r@ == self@.plan.ssh_dir(),
    {
        join_path(self.home.as_str(), ".ssh")
    }

    fn in_ssh_dir(&self, name: &str) -> (r: String)
        ensures
            r@ == joined_path(self@.plan.ssh_dir(), name@),
    {
        join_path(self.ssh_dir().as_str(), name)
    }

    fn key_path(&self) -> (r: String)
        requires
            self@.key is Some,
        ensures
            r@ == self@.key->0,
    {
        match &self.key {
            Some(k) => k.clone(),
            None => String::new(),
        }
    }

    fn public_key_path(&self) -> (r: String)
        requires
            self@.key is Some,
        ensures
            r@ == public_of(self@.key->0),
    {
        self.key_path().concat(".pub")
    }

    fn title(&self) -> (r: String)
        ensures
            r@ == self@.plan.title(),
    {
        String::from_str("LOAD*,8,1 (").concat(self.hostname.as_str()).concat(")")
    }

    fn comment(&self) -> (r: String)
        ensures
            r@ == self@.plan.comment(),
    {
        if self.email.as_str().unicode_len() > 0 {
            self.email.clone()
        } else {
            self.username.clone().concat("@loadstar")
        }
    }

    fn sign_setting(&self, j: usize) -> (r: (String, String))
        requires
            j < 3,
        ensures
            (r.0@, r.1@) == sign_settings(self@.signing_key)[j as int],
    {
        if j == 0 {
            (String::from_str("user.signingkey"), self.signing_key.clone())
        } else if j == 1 {
            (String::from_str("commit.gpgsign"), String::from_str("true"))
        } else {
            (String::from_str("tag.gpgsign"), String::from_str("true"))
        }
    }

    /// The task that is out, if one is.
    pub fn pending_task(&self) -> (r: Option<Task>)
        requires
            self@.wf(),
        ensures
            task_view(r) == self@.pending(),
    {
        match self.stage {
            GitStage::Config(i) => {
                assert(text_pairs(self.settings@)[i as int] == (
                    self.settings@[i as int].0@,
                    self.settings@[i as int].1@,
                ));
                Some(git_config_task(self.settings[i].0.as_str(), self.settings[i].1.as_str()))
            },
            GitStage::KeyExists => Some(Task::Exists(self.in_ssh_dir("id_ed25519"))),
            GitStage::RsaExists => Some(Task::Exists(self.in_ssh_dir("id_rsa"))),
            GitStage::MakeDir => Some(Task::MakeDir(self.ssh_dir())),
            GitStage::DirMode => Some(Task::SetMode(self.ssh_dir(), 0o700)),
            GitStage::Keygen => {
                let mut args = no_args();
                arg(&mut args, "-t");
                arg(&mut args, "ed25519");
                arg(&mut args, "-C");
                arg(&mut args, self.comment().as_str());
                arg(&mut args, "-f");
                arg(&mut args, self.in_ssh_dir("id_ed25519").as_str());
                arg(&mut args, "-N");
                arg(&mut args, "");
                assert(texts(args@) =~= seq![
                    "-t"@,
                    "ed25519"@,
                    "-C"@,
                    self@.plan.comment(),
                    "-f"@,
                    self@.plan.ed_key(),
                    "-N"@,
                    ""@,
                ]);
                Some(run("ssh-keygen", args))
            },
            GitStage::KeyMode => Some(Task::SetMode(self.key_path(), 0o600)),
            GitStage::ShowKey => Some(Task::Read(self.public_key_path())),
            GitStage::AgentStart => {
                let mut args = no_args();
                arg(&mut args, "-s");
                assert(texts(args@) =~= seq!["-s"@]);
                Some(run("ssh-agent", args))
            },
            GitStage::ConfigRead => Some(Task::Read(self.in_ssh_dir("config"))),
            GitStage::ConfigAppend => Some(
                Task::Append(
                    self.in_ssh_dir("config"),
                    ssh_config_addition(self.key_path().as_str()),
                ),
            ),
            GitStage::ConfigMode => Some(Task::SetMode(self.in_ssh_dir("config"), 0o644)),
            GitStage::SshAdd => {
                let mut args = no_args();
                if self.macos {
                    arg(&mut args, "--apple-use-keychain");
                }
                arg(&mut args, self.key_path().as_str());
                assert(texts(args@) =~= if self.macos {
                    seq!["--apple-use-keychain"@, self@.key->0]
                } else {
                    seq![self@.key->0]
                });
                Some(run("ssh-add", args))
            },
            GitStage::GhVersion => {
                let mut args = no_args();
                arg(&mut args, "--version");
                assert(texts(args@) =~= seq!["--version"@]);
                Some(run("gh", args))
            },
            GitStage::GhAuth => {
                let mut args = no_args();
                arg(&mut args, "auth");
                arg(&mut args, "status");
                assert(texts(args@) =~= seq!["auth"@, "status"@]);
                Some(run("gh", args))
            },
            GitStage::PubExists => Some(Task::Exists(self.public_key_path())),
            GitStage::GhKeyList => {
                let mut args = no_args();
                arg(&mut args, "ssh-key");
                arg(&mut args, "list");
                assert(texts(args@) =~= seq!["ssh-key"@, "list"@]);
                Some(run("gh", args))
            },
            GitStage::ReadPub => Some(Task::Read(self.public_key_path())),
            GitStage::GhKeyAdd => {
                let mut args = no_args();
                arg(&mut args, "ssh-key");
                arg(&mut args, "add");
                arg(&mut args, self.public_key_path().as_str());
                arg(&mut args, "--title");
                arg(&mut args, self.title().as_str());
                assert(texts(args@) =~= seq![
                    "ssh-key"@,
                    "add"@,
                    public_of(self@.key->0),
                    "--title"@,
                    self@.plan.title(),
                ]);
                Some(run("gh", args))
            },
            GitStage::GhSetupGit => {
                let mut args = no_args();
                arg(&mut args, "auth");
                arg(&mut args, "setup-git");
                assert(texts(args@) =~= seq!["auth"@, "setup-git"@]);
                Some(run("gh", args))
            },
            GitStage::GpgVersion => {
                let mut args = no_args();
                arg(&mut args, "--version");
                assert(texts(args@) =~= seq!["--version"@]);
                Some(run("gpg", args))
            },
            GitStage::GpgList => {
                let mut args = no_args();
                arg(&mut args, "--list-secret-keys");
                arg(&mut args, "--keyid-format=long");
                arg(&mut args, self.email.as_str());
                assert(texts(args@) =~= seq![
                    "--list-secret-keys"@,
                    "--keyid-format=long"@,
                    self@.plan.email,
                ]);
                Some(run("gpg", args))
            },
            GitStage::SignConfig(j) => {
                let setting = self.sign_setting(j);
                Some(git_config_task(setting.0.as_str(), setting.1.as_str()))
            },
            GitStage::Finished => None,
        }
    }

    fn go_finish(&mut self, messages: &mut Vec<InstallMessage>)
        ensures
            final(self)@ == old(self)@.to_finish().state,
            events(final(messages)@) == events(old(messages)@) + old(self)@.to_finish().events,
    {
        tell_str(messages, "[GIT] Git & GitHub setup complete");
        self.stage = GitStage::Finished;
    }

    fn go_signing(&mut self, messages: &mut Vec<InstallMessage>)
        ensures
            final(self)@ == old(self)@.to_signing().state,
            events(final(messages)@) == events(old(messages)@) + old(self)@.to_signing().events,
    {
        if self.signing {
            self.stage = GitStage::GpgVersion;
            assert(events(messages@) + Seq::<Event>::empty() =~= events(messages@));
        } else {
            self.go_finish(messages);
        }
    }

    fn go_gh(&mut self, messages: &mut Vec<InstallMessage>)
        ensures
            final(self)@ == old(self)@.to_gh().state,
            events(final(messages)@) == events(old(messages)@) + old(self)@.to_gh().events,
    {
        if self.gh {
            self.stage = GitStage::GhVersion;
            assert(events(messages@) + Seq::<Event>::empty() =~= events(messages@));
        } else {
            self.go_signing(messages);
        }
    }

    fn go_agent(&mut self, messages: &mut Vec<InstallMessage>)
        ensures
            final(self)@ == old(self)@.to_agent().state,
            events(final(messages)@) == events(old(messages)@) + old(self)@.to_agent().events,
    {
        if self.key.is_some() {
            tell_str(messages, "[SSH] Adding key to ssh-agent...");
            self.stage = GitStage::AgentStart;
        } else {
            self.go_gh(messages);
        }
    }

    /// Takes in how the task that was out has ended, and answers with
    /// the events to send on and the task to do next. Once the set-up is
    /// over, nothing changes and nothing is given out.
    pub fn advance(&mut self, outcome: &Outcome) -> (step: GitStep)
        requires
            old(self)@.wf(),
        ensures
            final(self)@.wf(),
            final(self)@ == old(self)@.step(outcome@).state,
            events(step.messages@) == old(self)@.step(outcome@).events,
            task_view(step.request) == final(self)@.pending(),
    {
        let mut messages: Vec<InstallMessage> = Vec::new();
        assert(events(messages@) =~= Seq::<Event>::empty());
        let ghost none = Seq::<Event>::empty();
        proof {
            if self@.stage != GitStage::Finished {
                lemma_setup_goes_on(self@, outcome@);
            }
        }
        match self.stage {
            GitStage::Config(i) => {
                assert(text_pairs(self.settings@)[i as int] == (
                    self.settings@[i as int].0@,
                    self.settings@[i as int].1@,
                ));
                assert(text_pairs(self.settings@).len() == self.settings@.len());
                tell_git_config(
                    &mut messages,
                    self.settings[i].0.as_str(),
                    self.settings[i].1.as_str(),
                    outcome,
                );
                if i + 1 < self.settings.len() {
                    self.stage = GitStage::Config(i + 1);
                } else {
                    tell_str(&mut messages, "[GIT] Git identity configured");
                    self.stage = GitStage::KeyExists;
                }
            },
            GitStage::KeyExists => {
                if outcome.success() {
                    tell_str(&mut messages, "[SSH] Existing SSH key found — skipping generation");
                    self.key = Some(self.in_ssh_dir("id_ed25519"));
                    self.stage = GitStage::ShowKey;
                } else {
                    self.stage = GitStage::RsaExists;
                }
            },
            GitStage::RsaExists => {
                if outcome.success() {
                    tell_str(
                        &mut messages,
                        "[SSH] Existing RSA key found at ~/.ssh/id_rsa — skipping generation",
                    );
                    self.key = Some(self.in_ssh_dir("id_rsa"));
                    self.stage = GitStage::ShowKey;
                } else {
                    tell_str(&mut messages, "[SSH] Generating ed25519 SSH key...");
                    self.stage = GitStage::MakeDir;
                }
            },
            GitStage::MakeDir => {
                match outcome {
                    Outcome::NotStarted { reason } => {
                        tell(
                            &mut messages,
                            String::from_str("  [ERROR] Failed to create ~/.ssh: ").concat(
                                reason.as_str(),
                            ),
                        );
                        self.go_agent(&mut messages);
                    },
                    Outcome::Exited { .. } => {
                        self.stage = GitStage::DirMode;
                    },
                }
            },
            GitStage::DirMode => {
                self.stage = GitStage::Keygen;
            },
            GitStage::Keygen => {
                if outcome.success() {
                    tell_str(&mut messages, "[SSH] SSH key generated successfully");
                    self.key = Some(self.in_ssh_dir("id_ed25519"));
                    self.stage = GitStage::KeyMode;
                } else {
                    tell_failure(
                        &mut messages,
                        outcome,
                        "  [ERROR] ssh-keygen failed: ",
                        "  [ERROR] Could not run ssh-keygen: ",
                    );
                    self.go_agent(&mut messages);
                }
            },
            GitStage::KeyMode => {
                self.stage = GitStage::ShowKey;
            },
            GitStage::ShowKey => {
                if outcome.success() {
                    let content = written_by(outcome);
                    tell(&mut messages, public_key_line(content.as_str()));
                } else {
                    assert(events(messages@) + none =~= events(messages@));
                }
                self.go_agent(&mut messages);
            },
            GitStage::AgentStart => {
                if self.macos {
                    self.stage = GitStage::ConfigRead;
                } else {
                    self.stage = GitStage::SshAdd;
                }
            },
            GitStage::ConfigRead => {
                let content = written_by(outcome);
                if outcome.success() && contains(content.as_str(), "AddKeysToAgent") {
                    self.stage = GitStage::SshAdd;
                } else {
                    self.stage = GitStage::ConfigAppend;
                }
            },
            GitStage::ConfigAppend => {
                match outcome {
                    Outcome::NotStarted { reason } => {
                        tell(
                            &mut messages,
                            String::from_str("  [WARN] Could not write ~/.ssh/config: ").concat(
                                reason.as_str(),
                            ),
                        );
                        self.stage = GitStage::SshAdd;
                    },
                    Outcome::Exited { .. } => {
                        self.stage = GitStage::ConfigMode;
                    },
                }
            },
            GitStage::ConfigMode => {
                tell_str(&mut messages, "  Wrote ~/.ssh/config (Keychain integration)");
                self.stage = GitStage::SshAdd;
            },
            GitStage::SshAdd => {
                if outcome.success() {
                    tell_str(&mut messages, "  Key added to ssh-agent");
                } else {
                    tell_failure(
                        &mut messages,
                        outcome,
                        "  [WARN] ssh-add: ",
                        "  [WARN] Could not run ssh-add: ",
                    );
                }
                self.go_gh(&mut messages);
            },
            GitStage::GhVersion => {
                if outcome.success() {
                    self.stage = GitStage::GhAuth;
                } else {
                    tell_str(&mut messages, "[GH] GitHub CLI not found — skipping auth setup");
                    self.go_signing(&mut messages);
                }
            },
            GitStage::GhAuth => {
                if outcome.success() {
                    tell_str(&mut messages, "[GH] Already authenticated with GitHub CLI");
                    self.stage = if self.key.is_some() {
                        GitStage::PubExists
                    } else {
                        GitStage::GhSetupGit
                    };
                } else {
                    tell_str(&mut messages, "[GH] GitHub CLI auth requires interactive login");
                    tell_str(
                        &mut messages,
                        "  Run after install: gh auth login --protocol ssh --web",
                    );
                    assert(events(messages@) =~= seq![
                        Event::Log("[GH] GitHub CLI auth requires interactive login"@),
                        Event::Log("  Run after install: gh auth login --protocol ssh --web"@),
                    ]);
                    self.go_signing(&mut messages);
                }
            },
            GitStage::PubExists => {
                if outcome.success() {
                    self.stage = GitStage::GhKeyList;
                } else {
                    self.stage = GitStage::GhSetupGit;
                }
            },
            GitStage::GhKeyList => {
                self.listed = written_by(outcome);
                self.stage = GitStage::ReadPub;
            },
            GitStage::ReadPub => {
                let public_key = if outcome.success() {
                    written_by(outcome)
                } else {
                    String::new()
                };
                if key_already_uploaded(self.listed.as_str(), public_key.as_str()) {
                    tell_str(&mut messages, "  SSH key already on GitHub — skipping upload");
                    self.stage = GitStage::GhSetupGit;
                } else {
                    tell_str(&mut messages, "[GH] Uploading SSH key to GitHub...");
                    self.stage = GitStage::GhKeyAdd;
                }
            },
            GitStage::GhKeyAdd => {
                if outcome.success() {
                    tell(
                        &mut messages,
                        String::from_str("  SSH key uploaded as '").concat(
                            self.title().as_str(),
                        ).concat("'"),
                    );
                } else {
                    tell_failure(
                        &mut messages,
                        outcome,
                        "  [WARN] Failed to upload SSH key: ",
                        "  [WARN] Could not run gh ssh-key add: ",
                    );
                }
                self.stage = GitStage::GhSetupGit;
            },
            GitStage::GhSetupGit => {
                tell_str(&mut messages, "  Set gh as git credential helper");
                self.go_signing(&mut messages);
            },
            GitStage::GpgVersion => {
                if outcome.success() {
                    tell_str(&mut messages, "[GPG] Checking for existing GPG keys...");
                    self.stage = GitStage::GpgList;
                } else {
                    tell_str(&mut messages, "[GPG] GnuPG not found — skipping signing setup");
                    tell_str(&mut messages, "  Install gnupg and re-run, or set up manually");
                    assert(events(messages@) =~= seq![
                        Event::Log("[GPG] GnuPG not found — skipping signing setup"@),
                        Event::Log("  Install gnupg and re-run, or set up manually"@),
                    ]);
                    self.go_finish(&mut messages);
                }
            },
            GitStage::GpgList => {
                let listing = written_by(outcome);
                if trim(listing.as_str()).as_str().unicode_len() > 0 {
                    tell_str(
                        &mut messages,
                        "  Existing GPG key found — configuring git to use it",
                    );
                    match extract_gpg_key_id(listing.as_str()) {
                        Some(key) => {
                            self.signing_key = key;
                            self.stage = GitStage::SignConfig(0);
                        },
                        None => {
                            self.go_finish(&mut messages);
                        },
                    }
                } else {
                    tell_str(&mut messages, "[GPG] No GPG key found for this email");
                    tell_str(&mut messages, "  Run after install: gpg --full-generate-key");
                    tell_str(
                        &mut messages,
                        "  Then: git config --global user.signingkey <KEY_ID>",
                    );
                    tell_str(&mut messages, "  Then: git config --global commit.gpgsign true");
                    assert(events(messages@) =~= seq![
                        Event::Log("[GPG] No GPG key found for this email"@),
                        Event::Log("  Run after install: gpg --full-generate-key"@),
                        Event::Log("  Then: git config --global user.signingkey <KEY_ID>"@),
                        Event::Log("  Then: git config --global commit.gpgsign true"@),
                    ]);
                    self.go_finish(&mut messages);
                }
            },
            GitStage::SignConfig(j) => {
                let setting = self.sign_setting(j);
                tell_git_config(&mut messages, setting.0.as_str(), setting.1.as_str(), outcome);
                if j < 2 {
                    self.stage = GitStage::SignConfig(j + 1);
                } else {
                    tell(
                        &mut messages,
                        String::from_str("  Git configured to sign with key ").concat(
                            self.signing_key.as_str(),
                        ),
                    );
                    self.go_finish(&mut messages);
                }
            },
            GitStage::Finished => {},
        }
        assert(events(messages@) =~= old(self)@.step(outcome@).events);
        let request = self.pending_task();
        GitStep { messages, request }
    }
}

/// Begins the set-up of git and the code host for the choices of a
/// session on a machine, under the login name and the host name that the
/// machine gives. The answer holds the machine that the set-up
/// is, the events that open it, and its first task; the set-up goes on by
/// telling the machine how each task ended.
pub fn setup_github(wizard: &WizardState, system: &SystemInfo) -> (r: (GitSetup, GitStep))
    ensures
        r.0@ == GitState::initial(
            GitPlan {
                username: r.0@.plan.username,
                hostname: r.0@.plan.hostname,
                ..plan_for(*wizard, *system, Seq::empty(), None)
            },
        ),
        r.0@.wf(),
        events(r.1.messages@) == setup_opening(),
        task_view(r.1.request) == r.0@.pending(),
{
    GitSetup::start_with(wizard, system, login_name(), host_name())
}

} // verus!
