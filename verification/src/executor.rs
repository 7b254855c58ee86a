//! The install executor: what it runs for each tool, how it reads what came
//! back, and the events by which it reports.
//!
//! The executor itself starts no process. It is a state machine: it says
//! which command is to be run next, is told how that command ended, and
//! answers with the events to send on and the command after that. Whoever
//! drives it runs the commands, one at a time, and passes the events on in
//! the order given.

use vstd::prelude::*;
use vstd::string::*;
use crate::catalog::{App, InstallMethod};
use crate::text::{
    count_text, decimal, join, joined, non_empty_lines, non_empty_lines_of, number_text, texts,
    trim, trimmed,
};

verus! {

broadcast use vstd::string::group_string_axioms;

/// One observation sent from the install worker back to the interface.
#[derive(Debug, Clone, PartialEq, Eq)]
pub enum InstallMessage {
    /// A new phase of the installation is starting
    PhaseStart { phase: String },
    /// A tool is about to be installed
    PackageStart { name: String, method: String },
    /// The tool was installed
    PackageSuccess { name: String, duration_ms: u64 },
    /// The tool was installed already
    PackageSkipped { name: String, reason: String },
    /// The tool could not be installed
    PackageFailed { name: String, error: String },
    /// A line for the log
    Log(String),
    /// How far the run is: items done, items in all
    Progress { completed: usize, total: usize },
    /// The run is over
    Done { succeeded: usize, failed: usize, skipped: usize },
    /// The run cannot go on
    FatalError(String),
}

/// An install message as a value of the specification: texts as their
/// characters, counts as natural numbers.
pub enum Event {
    PhaseStart { phase: Seq<char> },
    PackageStart { name: Seq<char>, method: Seq<char> },
    PackageSuccess { name: Seq<char>, duration_ms: u64 },
    PackageSkipped { name: Seq<char>, reason: Seq<char> },
    PackageFailed { name: Seq<char>, error: Seq<char> },
    Log(Seq<char>),
    Progress { completed: nat, total: nat },
    Done { succeeded: nat, failed: nat, skipped: nat },
    FatalError(Seq<char>),
}

impl View for InstallMessage {
    type V = Event;

    open spec fn view(&self) -> Event {
        match self {
            InstallMessage::PhaseStart { phase } => Event::PhaseStart { phase: phase@ },
            InstallMessage::PackageStart { name, method } => Event::PackageStart {
                name: name@,
                method: method@,
            },
            InstallMessage::PackageSuccess { name, duration_ms } => Event::PackageSuccess {
                name: name@,
                duration_ms: *duration_ms,
            },
            InstallMessage::PackageSkipped { name, reason } => Event::PackageSkipped {
                name: name@,
                reason: reason@,
            },
            InstallMessage::PackageFailed { name, error } => Event::PackageFailed {
                name: name@,
                error: error@,
            },
            InstallMessage::Log(line) => Event::Log(line@),
            InstallMessage::Progress { completed, total } => Event::Progress {
                completed: *completed as nat,
                total: *total as nat,
            },
            InstallMessage::Done { succeeded, failed, skipped } => Event::Done {
                succeeded: *succeeded as nat,
                failed: *failed as nat,
                skipped: *skipped as nat,
            },
            InstallMessage::FatalError(text) => Event::FatalError(text@),
        }
    }
}

/// The events that a list of messages stands for.
pub open spec fn events(messages: Seq<InstallMessage>) -> Seq<Event> {
    messages.map_values(|m: InstallMessage| m@)
}

/// Pairs of texts, each text as its characters.
pub open spec fn text_pairs(v: Seq<(String, String)>) -> Seq<(Seq<char>, Seq<char>)> {
    v.map_values(|p: (String, String)| (p.0@, p.1@))
}

/// The result of a whole run: which tools were installed, which failed and
/// why, which were passed over and why.
#[derive(Debug)]
pub struct InstallSummary {
    pub succeeded: Vec<String>,
    /// name and error
    pub failed: Vec<(String, String)>,
    /// name and reason
    pub skipped: Vec<(String, String)>,
}

/// An install summary as a value of the specification.
pub struct Summary {
    pub succeeded: Seq<Seq<char>>,
    pub failed: Seq<(Seq<char>, Seq<char>)>,
    pub skipped: Seq<(Seq<char>, Seq<char>)>,
}

impl View for InstallSummary {
    type V = Summary;

    open spec fn view(&self) -> Summary {
        Summary {
            succeeded: texts(self.succeeded@),
            failed: text_pairs(self.failed@),
            skipped: text_pairs(self.skipped@),
        }
    }
}

impl Summary {
    /// The summary of a run in which nothing has happened yet.
    pub open spec fn empty() -> Summary {
        Summary { succeeded: Seq::empty(), failed: Seq::empty(), skipped: Seq::empty() }
    }
}

impl Default for InstallSummary {
    fn default() -> (r: Self)
        ensures
            r@ == Summary::empty(),
    {
        let r = InstallSummary { succeeded: Vec::new(), failed: Vec::new(), skipped: Vec::new() };
        assert(texts(r.succeeded@) =~= Seq::<Seq<char>>::empty());
        assert(text_pairs(r.failed@) =~= Seq::<(Seq<char>, Seq<char>)>::empty());
        assert(text_pairs(r.skipped@) =~= Seq::<(Seq<char>, Seq<char>)>::empty());
        r
    }
}

/// A program to run, with its arguments.
#[derive(Debug, Clone, PartialEq, Eq)]
pub struct Command {
    pub program: String,
    pub args: Vec<String>,
}

/// A command as a value of the specification.
pub struct CommandLine {
    pub program: Seq<char>,
    pub args: Seq<Seq<char>>,
}

impl View for Command {
    type V = CommandLine;

    open spec fn view(&self) -> CommandLine {
        CommandLine { program: self.program@, args: texts(self.args@) }
    }
}

impl CommandLine {
    /// The command as one line: the program, a blank, and the arguments
    /// with a blank between each two.
    pub open spec fn rendered(self) -> Seq<char> {
        self.program + " "@ + joined(self.args, " "@)
    }
}

impl Command {
    /// The command as one line.
    pub fn render(&self) -> (line: String)
        ensures
            line@ == self@.rendered(),
    {
        let mut line = self.program.clone();
        line.append(" ");
        let rest = join(&self.args, " ");
        line.append(rest.as_str());
        line
    }
}

/// How a command ended, or another task that the library asked for.
#[derive(Debug, Clone, PartialEq, Eq)]
pub enum Outcome {
    /// The program could not be started, or the task could not be done;
    /// the reason is the system's.
    NotStarted { reason: String },
    /// The program ran and ended with this exit code, having written this to
    /// its standard output and its standard error.
    Exited { code: i32, stdout: String, stderr: String },
}

/// The outcome of a command as a value of the specification.
pub enum Report {
    NotStarted { reason: Seq<char> },
    Exited { code: int, stdout: Seq<char>, stderr: Seq<char> },
}

impl View for Outcome {
    type V = Report;

    open spec fn view(&self) -> Report {
        match self {
            Outcome::NotStarted { reason } => Report::NotStarted { reason: reason@ },
            Outcome::Exited { code, stdout, stderr } => Report::Exited {
                code: *code as int,
                stdout: stdout@,
                stderr: stderr@,
            },
        }
    }
}

impl Report {
    /// The program ran and ended with exit code zero.
    pub open spec fn succeeded(self) -> bool {
        self matches Report::Exited { code, .. } && code == 0
    }
}

impl Outcome {
    /// Whether the program ran and ended with exit code zero.
    pub fn success(&self) -> (r: bool)
        ensures
            r == self@.succeeded(),
    {
        match self {
            Outcome::NotStarted { .. } => false,
            Outcome::Exited { code, .. } => *code == 0,
        }
    }
}

/// The command line that installs the package manager itself.
pub const BOOTSTRAP_SCRIPT: &'static str =
    "NONINTERACTIVE=1 /bin/bash -c \"$(curl -fsSL https://raw.githubusercontent.com/Homebrew/install/HEAD/install.sh)\"";

/// The command that asks whether the package of the method is installed
/// already: it succeeds if the package is. Only the two methods that go
/// through the package manager have such a command.
pub open spec fn check_line(method: InstallMethod) -> Option<CommandLine> {
    match method {
        InstallMethod::Brew(p) => Some(
            CommandLine { program: "brew"@, args: seq!["list"@, "--formula"@, p@] },
        ),
        InstallMethod::BrewCask(p) => Some(
            CommandLine { program: "brew"@, args: seq!["list"@, "--cask"@, p@] },
        ),
        _ => None,
    }
}

/// Whether the method can tell that its package is installed already.
pub open spec fn checkable(method: InstallMethod) -> bool {
    check_line(method) is Some
}

/// The command that installs by the given method.
pub open spec fn install_line(method: InstallMethod) -> CommandLine {
    match method {
        InstallMethod::Brew(p) => CommandLine { program: "brew"@, args: seq!["install"@, p@] },
        InstallMethod::BrewCask(p) => CommandLine {
            program: "brew"@,
            args: seq!["install"@, "--cask"@, p@],
        },
        InstallMethod::Cargo(p) => CommandLine { program: "cargo"@, args: seq!["install"@, p@] },
        InstallMethod::Npm(p) => CommandLine {
            program: "npm"@,
            args: seq!["install"@, "-g"@, p@],
        },
        InstallMethod::Pip(p) => CommandLine { program: "pip3"@, args: seq!["install"@, p@] },
        InstallMethod::Go(p) => CommandLine { program: "go"@, args: seq!["install"@, p@] },
        InstallMethod::Script(url) => CommandLine {
            program: "/bin/bash"@,
            args: seq!["-c"@, "curl -fsSL "@ + url@ + " | sh"@],
        },
        InstallMethod::Manual(cmd) => CommandLine { program: "/bin/bash"@, args: seq!["-c"@, cmd@] },
        InstallMethod::Apt(p) => CommandLine {
            program: "sudo"@,
            args: seq!["apt"@, "install"@, "-y"@, p@],
        },
    }
}

/// The command that makes the package manager ready: where it is there, the
/// one that refreshes it; where it is not, the one that installs it.
pub open spec fn prepare_line(has_homebrew: bool) -> CommandLine {
    if has_homebrew {
        CommandLine { program: "brew"@, args: seq!["update"@] }
    } else {
        CommandLine { program: "/bin/bash"@, args: seq!["-c"@, BOOTSTRAP_SCRIPT@] }
    }
}

/// The log line that goes before the installing command.
pub open spec fn announcement(method: InstallMethod) -> Seq<char> {
    match method {
        InstallMethod::Script(url) => "[SCRIPT] Downloading "@ + url@,
        InstallMethod::Manual(cmd) => "[CMD] "@ + cmd@,
        _ => "[RUN] "@ + install_line(method).rendered(),
    }
}

/// What is said when the installing command could not be started.
pub open spec fn start_failure(method: InstallMethod, reason: Seq<char>) -> Seq<char> {
    match method {
        InstallMethod::Script(_) => "Failed to run script: "@ + reason,
        InstallMethod::Manual(_) => "Failed to run command: "@ + reason,
        _ => "Failed to run '"@ + install_line(method).rendered() + "': "@ + reason,
    }
}

/// What is said when a command ended with an exit code other than zero: the
/// last line of its standard error that holds anything, or the exit code
/// where there is no such line.
pub open spec fn exit_failure(code: int, stderr: Seq<char>) -> Seq<char> {
    let lines = non_empty_lines_of(stderr);
    if lines.len() == 0 {
        "exited with code "@ + decimal(code)
    } else {
        lines.last()
    }
}

/// Whether an installing command did its work, and if not, what is said
/// of it.
pub open spec fn verdict(method: InstallMethod, report: Report) -> Result<(), Seq<char>> {
    match report {
        Report::NotStarted { reason } => Err(start_failure(method, reason)),
        Report::Exited { code, stdout, stderr } => if code == 0 {
            Ok(())
        } else {
            Err(exit_failure(code, stderr))
        },
    }
}

/// Whether the command that installs the package manager did its work, and
/// if not, what is said of it.
pub open spec fn bootstrap_verdict(report: Report) -> Result<(), Seq<char>> {
    match report {
        Report::NotStarted { reason } => Err("Failed to run installer: "@ + reason),
        Report::Exited { code, stdout, stderr } => if code == 0 {
            Ok(())
        } else {
            Err("Homebrew install failed: "@ + trimmed(stderr))
        },
    }
}

/// A line of output as it goes to the log: two blanks before it.
pub open spec fn indented(line: Seq<char>) -> Seq<char> {
    "  "@ + line
}

/// The log lines for what a command wrote: the lines of its standard output
/// and then those of its standard error, without the empty ones.
pub open spec fn output_lines(report: Report) -> Seq<Seq<char>> {
    match report {
        Report::NotStarted { .. } => Seq::empty(),
        Report::Exited { code, stdout, stderr } => non_empty_lines_of(stdout).map_values(
            |l: Seq<char>| indented(l),
        ) + non_empty_lines_of(stderr).map_values(|l: Seq<char>| indented(l)),
    }
}

/// Log events, one for each line.
pub open spec fn log_events(lines: Seq<Seq<char>>) -> Seq<Event> {
    lines.map_values(|l: Seq<char>| Event::Log(l))
}

fn command1(program: &str, a: &str) -> (r: Command)
    ensures
        r@ == (CommandLine { program: program@, args: seq![a@] }),
{
    let mut args: Vec<String> = Vec::new();
    args.push(String::from_str(a));
    assert(texts(args@) =~= seq![a@]);
    Command { program: String::from_str(program), args }
}

fn command2(program: &str, a: &str, b: &str) -> (r: Command)
    ensures
        r@ == (CommandLine { program: program@, args: seq![a@, b@] }),
{
    let mut args: Vec<String> = Vec::new();
    args.push(String::from_str(a));
    args.push(String::from_str(b));
    assert(texts(args@) =~= seq![a@, b@]);
    Command { program: String::from_str(program), args }
}

fn command3(program: &str, a: &str, b: &str, c: &str) -> (r: Command)
    ensures
        r@ == (CommandLine { program: program@, args: seq![a@, b@, c@] }),
{
    let mut args: Vec<String> = Vec::new();
    args.push(String::from_str(a));
    args.push(String::from_str(b));
    args.push(String::from_str(c));
    assert(texts(args@) =~= seq![a@, b@, c@]);
    Command { program: String::from_str(program), args }
}

fn command4(program: &str, a: &str, b: &str, c: &str, d: &str) -> (r: Command)
    ensures
        r@ == (CommandLine { program: program@, args: seq![a@, b@, c@, d@] }),
{
    let mut args: Vec<String> = Vec::new();
    args.push(String::from_str(a));
    args.push(String::from_str(b));
    args.push(String::from_str(c));
    args.push(String::from_str(d));
    assert(texts(args@) =~= seq![a@, b@, c@, d@]);
    Command { program: String::from_str(program), args }
}

/// The command that asks whether the package of the method is installed
/// already, for the methods that have one.
pub fn check_command(method: &InstallMethod) -> (r: Option<Command>)
    ensures
        match r {
            Some(c) => check_line(*method) == Some(c@),
            None => check_line(*method) is None,
        },
{
    match method {
        InstallMethod::Brew(p) => Some(command3("brew", "list", "--formula", p)),
        InstallMethod::BrewCask(p) => Some(command3("brew", "list", "--cask", p)),
        _ => None,
    }
}

/// The command that installs by the given method.
pub fn install_command(method: &InstallMethod) -> (r: Command)
    ensures
        r@ == install_line(*method),
{
    match method {
        InstallMethod::Brew(p) => command2("brew", "install", p),
        InstallMethod::BrewCask(p) => command3("brew", "install", "--cask", p),
        InstallMethod::Cargo(p) => command2("cargo", "install", p),
        InstallMethod::Npm(p) => command3("npm", "install", "-g", p),
        InstallMethod::Pip(p) => command2("pip3", "install", p),
        InstallMethod::Go(p) => command2("go", "install", p),
        InstallMethod::Script(url) => {
            let script = String::from_str("curl -fsSL ").concat(url).concat(" | sh");
            command2("/bin/bash", "-c", script.as_str())
        },
        InstallMethod::Manual(cmd) => command2("/bin/bash", "-c", cmd),
        InstallMethod::Apt(p) => command4("sudo", "apt", "install", "-y", p),
    }
}

/// The command that makes the package manager ready.
pub fn prepare_command(has_homebrew: bool) -> (r: Command)
    ensures
        r@ == prepare_line(has_homebrew),
{
    if has_homebrew {
        command1("brew", "update")
    } else {
        command2("/bin/bash", "-c", BOOTSTRAP_SCRIPT)
    }
}

/// The log line that goes before the installing command.
pub fn announce(method: &InstallMethod) -> (line: String)
    ensures
        line@ == announcement(*method),
{
    match method {
        InstallMethod::Script(url) => String::from_str("[SCRIPT] Downloading ").concat(url),
        InstallMethod::Manual(cmd) => String::from_str("[CMD] ").concat(cmd),
        _ => {
            let rendered = install_command(method).render();
            String::from_str("[RUN] ").concat(rendered.as_str())
        },
    }
}

/// Reads the outcome of an installing command: done, or failed with what
/// is said of the failure.
pub fn classify(method: &InstallMethod, outcome: &Outcome) -> (r: Result<(), String>)
    ensures
        match r {
            Ok(()) => verdict(*method, outcome@) == Ok::<(), Seq<char>>(()),
            Err(e) => verdict(*method, outcome@) == Err::<(), Seq<char>>(e@),
        },
{
    match outcome {
        Outcome::NotStarted { reason } => {
            let said = match method {
                InstallMethod::Script(_) => String::from_str("Failed to run script: ").concat(
                    reason.as_str(),
                ),
                InstallMethod::Manual(_) => String::from_str("Failed to run command: ").concat(
                    reason.as_str(),
                ),
                _ => {
                    let rendered = install_command(method).render();
                    String::from_str("Failed to run '").concat(rendered.as_str()).concat("': ").concat(
                        reason.as_str(),
                    )
                },
            };
            Err(said)
        },
        Outcome::Exited { code, stdout, stderr } => {
            if *code == 0 {
                Ok(())
            } else {
                let lines = non_empty_lines(stderr.as_str());
                if lines.len() == 0 {
                    let n = number_text(*code);
                    Err(String::from_str("exited with code ").concat(n.as_str()))
                } else {
                    let last = lines[lines.len() - 1].clone();
                    assert(texts(lines@).last() == last@);
                    Err(last)
                }
            }
        },
    }
}

/// Reads the outcome of the command that installs the package manager.
pub fn classify_bootstrap(outcome: &Outcome) -> (r: Result<(), String>)
    ensures
        match r {
            Ok(()) => bootstrap_verdict(outcome@) == Ok::<(), Seq<char>>(()),
            Err(e) => bootstrap_verdict(outcome@) == Err::<(), Seq<char>>(e@),
        },
{
    match outcome {
        Outcome::NotStarted { reason } => Err(
            String::from_str("Failed to run installer: ").concat(reason.as_str()),
        ),
        Outcome::Exited { code, stdout, stderr } => {
            if *code == 0 {
                Ok(())
            } else {
                let said = trim(stderr.as_str());
                Err(String::from_str("Homebrew install failed: ").concat(said.as_str()))
            }
        },
    }
}

/// Adds a log message for each line that holds anything, with two blanks
/// before the line.
fn push_output(messages: &mut Vec<InstallMessage>, written: &str)
    ensures
        events(final(messages)@) == events(old(messages)@) + log_events(
            non_empty_lines_of(written@).map_values(|l: Seq<char>| indented(l)),
        ),
{
    let lines = non_empty_lines(written);
    let ghost all = texts(lines@).map_values(|l: Seq<char>| indented(l));
    let mut i: usize = 0;
    assert(log_events(all.take(0)) =~= Seq::<Event>::empty());
    assert(events(messages@) + Seq::<Event>::empty() =~= events(messages@));
    while i < lines.len()
        invariant
            i <= lines.len(),
            all == texts(lines@).map_values(|l: Seq<char>| indented(l)),
            events(messages@) == events(old(messages)@) + log_events(all.take(i as int)),
        decreases lines.len() - i,
    {
        let line = String::from_str("  ").concat(lines[i].as_str());
        let message = InstallMessage::Log(line);
        proof {
            assert(line@ == all[i as int]);
            assert(all.take(i as int + 1) =~= all.take(i as int).push(all[i as int]));
            assert(log_events(all.take(i as int + 1)) =~= log_events(all.take(i as int)).push(
                message@,
            ));
            assert(events(messages@.push(message)) =~= events(messages@).push(message@));
        }
        messages.push(message);
        i += 1;
    }
    assert(all.take(lines.len() as int) =~= all);
}

/// Adds the log messages for what a command wrote.
pub(crate) fn push_output_of(messages: &mut Vec<InstallMessage>, outcome: &Outcome)
    ensures
        events(final(messages)@) == events(old(messages)@) + log_events(output_lines(outcome@)),
{
    match outcome {
        Outcome::NotStarted { .. } => {
            assert(log_events(output_lines(outcome@)) =~= Seq::<Event>::empty());
            assert(events(messages@) + Seq::<Event>::empty() =~= events(messages@));
        },
        Outcome::Exited { code, stdout, stderr } => {
            push_output(messages, stdout.as_str());
            push_output(messages, stderr.as_str());
            proof {
                let a = non_empty_lines_of(stdout@).map_values(|l: Seq<char>| indented(l));
                let b = non_empty_lines_of(stderr@).map_values(|l: Seq<char>| indented(l));
                assert(log_events(a + b) =~= log_events(a) + log_events(b));
                assert(events(old(messages)@) + log_events(a) + log_events(b) =~= events(
                    old(messages)@,
                ) + (log_events(a) + log_events(b)));
            }
        },
    }
}

} // verus!
