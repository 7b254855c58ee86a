//! An install run as a state machine, with the laws that hold of every run.
//!
//! A run first makes the package manager ready, then goes through the tools
//! in three groups: formulae, casks, and the rest. For a tool of the first
//! two groups it asks whether the tool is installed already, and passes it
//! over if it is. Each tool that is not passed over is installed by one
//! command, and whether that command fails or not, the run goes on with the
//! next tool. Only a package manager that can neither be found nor installed
//! ends the run before its time.

use vstd::prelude::*;
use vstd::string::*;
use crate::catalog::{App, InstallMethod};
use crate::executor::{
    announce, announcement, bootstrap_verdict, check_command, check_line, checkable, classify,
    classify_bootstrap, events, install_command, install_line, log_events, output_lines,
    prepare_command, prepare_line, push_output_of, text_pairs, verdict, Command, CommandLine,
    Event, InstallMessage, InstallSummary, Outcome, Report, Summary,
};
use crate::text::texts;

verus! {

broadcast use vstd::string::group_string_axioms;

/// The groups in which the tools are installed, in this order.
#[derive(Debug, Clone, Copy, PartialEq, Eq, Structural)]
pub enum Batch {
    Formulae,
    Casks,
    Others,
}

/// The group that a method belongs to.
pub open spec fn batch_of(method: InstallMethod) -> Batch {
    match method {
        InstallMethod::Brew(_) => Batch::Formulae,
        InstallMethod::BrewCask(_) => Batch::Casks,
        _ => Batch::Others,
    }
}

/// The heading under which a group is announced.
pub open spec fn batch_title(batch: Batch) -> Seq<char> {
    match batch {
        Batch::Formulae => "Homebrew Formulae"@,
        Batch::Casks => "Homebrew Casks"@,
        Batch::Others => "Additional Tools"@,
    }
}

/// The tools of one group, in the order in which they were given.
pub open spec fn in_batch(apps: Seq<App>, batch: Batch) -> Seq<App> {
    apps.filter(|app: App| batch_of(app.install_method) == batch)
}

/// The order in which the tools are gone through: group by group, and
/// within a group in the order in which they were given.
pub open spec fn execution_order(apps: Seq<App>) -> Seq<App> {
    in_batch(apps, Batch::Formulae) + in_batch(apps, Batch::Casks) + in_batch(apps, Batch::Others)
}

/// What became of one tool: it was passed over as installed already, or its
/// installing command was run, ended as reported, and the tool took so many
/// milliseconds from its start to that end.
pub enum Fate {
    Skipped,
    Ran { report: Report, elapsed_ms: u64 },
}

/// Where a run stands.
#[derive(Debug, Clone, Copy, PartialEq, Eq, Structural)]
pub enum Stage {
    /// The command that makes the package manager ready is out.
    Preparing,
    /// The command that asks whether the current tool is installed is out.
    Checking,
    /// The command that installs the current tool is out.
    Installing,
    /// Nothing is out and nothing will be.
    Finished,
}

/// A run as a value of the specification: what it was given, where it
/// stands, and what has come back so far.
pub struct RunState {
    /// Whether the package manager was found on the machine
    pub has_homebrew: bool,
    /// The tools, in the order in which they are gone through
    pub plan: Seq<App>,
    pub stage: Stage,
    /// When the current tool was begun
    pub started_ms: u64,
    /// How the preparing command ended, once it has
    pub prepared: Option<Report>,
    /// What became of the tools that are done; the current tool is the
    /// one after these
    pub fates: Seq<Fate>,
}

/// The milliseconds from `started_ms` to `now_ms`.
pub open spec fn elapsed(started_ms: u64, now_ms: u64) -> u64 {
    if now_ms >= started_ms {
        (now_ms - started_ms) as u64
    } else {
        0
    }
}

/// The reason given for passing a tool over.
pub open spec fn skip_reason() -> Seq<char> {
    "Already installed"@
}

/// The events that open every run.
pub open spec fn opening(has_homebrew: bool) -> Seq<Event> {
    if has_homebrew {
        seq![
            Event::PhaseStart { phase: "Homebrew Bootstrap"@ },
            Event::Log("[BREW] Homebrew found — updating..."@),
            Event::Log("[RUN] "@ + prepare_line(true).rendered()),
        ]
    } else {
        seq![
            Event::PhaseStart { phase: "Homebrew Bootstrap"@ },
            Event::Log("[BREW] Homebrew not found — installing..."@),
            Event::Log("[BREW] Downloading Homebrew installer..."@),
        ]
    }
}

/// The events that follow the end of the preparing command. Where the
/// package manager was there, they are what the refreshing command wrote,
/// and whether it failed plays no part. Where it was not, they say whether
/// it could be installed.
pub open spec fn prepared_events(has_homebrew: bool, report: Report) -> Seq<Event> {
    if has_homebrew {
        log_events(output_lines(report))
    } else {
        match bootstrap_verdict(report) {
            Ok(_) => seq![Event::Log("[BREW] Homebrew installed successfully"@)],
            Err(e) => seq![Event::FatalError("Failed to install Homebrew: "@ + e)],
        }
    }
}

/// Whether the tool at position `k` is the first of its group.
pub open spec fn opens_batch(plan: Seq<App>, k: int) -> bool {
    k == 0 || batch_of(plan[k].install_method) != batch_of(plan[k - 1].install_method)
}

/// The heading that goes before the tool at position `k`, if it is the first
/// of its group.
pub open spec fn banner(plan: Seq<App>, k: int) -> Seq<Event> {
    if opens_batch(plan, k) {
        seq![Event::PhaseStart { phase: batch_title(batch_of(plan[k].install_method)) }]
    } else {
        Seq::empty()
    }
}

/// The event that says that a tool is begun.
pub open spec fn started(app: App) -> Event {
    Event::PackageStart { name: app.name@, method: app.install_method.spec_command() }
}

/// The event that says what became of a tool.
pub open spec fn concluded(app: App, fate: Fate) -> Event {
    match fate {
        Fate::Skipped => Event::PackageSkipped { name: app.name@, reason: skip_reason() },
        Fate::Ran { report, elapsed_ms } => match verdict(app.install_method, report) {
            Ok(_) => Event::PackageSuccess { name: app.name@, duration_ms: elapsed_ms },
            Err(e) => Event::PackageFailed { name: app.name@, error: e },
        },
    }
}

/// The log events of a tool's installing command: the line that announces
/// it, and what it wrote. A tool that is passed over has none.
pub open spec fn work(app: App, fate: Fate) -> Seq<Event> {
    match fate {
        Fate::Skipped => Seq::empty(),
        Fate::Ran { report, elapsed_ms } => seq![Event::Log(announcement(app.install_method))]
            + log_events(output_lines(report)),
    }
}

/// All events of the tool at position `k`: the heading if it opens a group,
/// that it is begun, the log of its command, what became of it, and how far
/// the run is after it.
pub open spec fn block(plan: Seq<App>, fates: Seq<Fate>, k: int) -> Seq<Event> {
    banner(plan, k) + seq![started(plan[k])] + work(plan[k], fates[k]) + seq![
        concluded(plan[k], fates[k]),
        Event::Progress { completed: (k + 1) as nat, total: plan.len() },
    ]
}

/// All events of the first `n` tools.
pub open spec fn blocks(plan: Seq<App>, fates: Seq<Fate>, n: int) -> Seq<Event>
    decreases n,
{
    if n <= 0 {
        Seq::empty()
    } else {
        blocks(plan, fates, n - 1) + block(plan, fates, n - 1)
    }
}

/// The summary with one more tool entered in it.
pub open spec fn entered_in(summary: Summary, app: App, fate: Fate) -> Summary {
    match fate {
        Fate::Skipped => Summary {
            skipped: summary.skipped.push((app.name@, skip_reason())),
            ..summary
        },
        Fate::Ran { report, elapsed_ms } => match verdict(app.install_method, report) {
            Ok(_) => Summary { succeeded: summary.succeeded.push(app.name@), ..summary },
            Err(e) => Summary { failed: summary.failed.push((app.name@, e)), ..summary },
        },
    }
}

/// The summary of the first `n` tools.
pub open spec fn tally(plan: Seq<App>, fates: Seq<Fate>, n: int) -> Summary
    decreases n,
{
    if n <= 0 {
        Summary::empty()
    } else {
        entered_in(tally(plan, fates, n - 1), plan[n - 1], fates[n - 1])
    }
}

/// The event that closes a run that went through all its tools.
pub open spec fn closing(plan: Seq<App>, fates: Seq<Fate>) -> Event {
    let summary = tally(plan, fates, plan.len() as int);
    Event::Done {
        succeeded: summary.succeeded.len(),
        failed: summary.failed.len(),
        skipped: summary.skipped.len(),
    }
}

impl RunState {
    /// The state in which a run begins.
    pub open spec fn initial(has_homebrew: bool, plan: Seq<App>) -> RunState {
        RunState {
            has_homebrew,
            plan,
            stage: Stage::Preparing,
            started_ms: 0,
            prepared: None,
            fates: Seq::empty(),
        }
    }

    /// The package manager was not there and could not be installed.
    pub open spec fn fatal(self) -> bool {
        !self.has_homebrew && (self.prepared matches Some(report) && bootstrap_verdict(report) is Err)
    }

    /// The position of the current tool: as many tools are done.
    pub open spec fn position(self) -> int {
        self.fates.len() as int
    }

    /// The current tool.
    pub open spec fn current(self) -> App {
        self.plan[self.position()]
    }

    /// What holds of every state that a run can be in.
    pub open spec fn wf(self) -> bool {
        &&& self.fates.len() <= self.plan.len()
        &&& forall|k: int|
            0 <= k < self.fates.len() && (#[trigger] self.fates[k]) is Skipped ==> checkable(
                self.plan[k].install_method,
            )
        &&& match self.stage {
            Stage::Preparing => self.prepared is None && self.fates.len() == 0,
            Stage::Checking => self.prepared is Some && !self.fatal() && self.fates.len()
                < self.plan.len() && checkable(self.current().install_method),
            Stage::Installing => self.prepared is Some && !self.fatal() && self.fates.len()
                < self.plan.len(),
            Stage::Finished => self.prepared is Some && if self.fatal() {
                self.fates.len() == 0
            } else {
                self.fates.len() == self.plan.len()
            },
        }
    }

    /// The command that is out in this state, if one is.
    pub open spec fn pending(self) -> Option<CommandLine> {
        match self.stage {
            Stage::Preparing => Some(prepare_line(self.has_homebrew)),
            Stage::Checking => check_line(self.current().install_method),
            Stage::Installing => Some(install_line(self.current().install_method)),
            Stage::Finished => None,
        }
    }

    /// The state once the next tool is turned to at time `now_ms`, or the
    /// run is found to be through.
    pub open spec fn turned(self, now_ms: u64) -> RunState {
        if self.position() < self.plan.len() {
            RunState {
                stage: if checkable(self.current().install_method) {
                    Stage::Checking
                } else {
                    Stage::Installing
                },
                started_ms: now_ms,
                ..self
            }
        } else {
            RunState { stage: Stage::Finished, ..self }
        }
    }

    /// The events on turning to the next tool: its heading if it opens a
    /// group, that it is begun, and, where nothing is asked first, the line
    /// that announces its installing command. Where no tool is left, the
    /// event that closes the run.
    pub open spec fn turning_events(self) -> Seq<Event> {
        if self.position() < self.plan.len() {
            banner(self.plan, self.position()) + seq![started(self.current())] + if checkable(
                self.current().install_method,
            ) {
                Seq::empty()
            } else {
                seq![Event::Log(announcement(self.current().install_method))]
            }
        } else {
            seq![closing(self.plan, self.fates)]
        }
    }

    /// The state with the current tool done.
    pub open spec fn with_fate(self, fate: Fate) -> RunState {
        RunState { fates: self.fates.push(fate), ..self }
    }

    /// The state after the command that was out has ended as reported, at
    /// time `now_ms`.
    pub open spec fn next(self, report: Report, now_ms: u64) -> RunState {
        match self.stage {
            Stage::Preparing => {
                let ready = RunState { prepared: Some(report), ..self };
                if ready.fatal() {
                    RunState { stage: Stage::Finished, ..ready }
                } else {
                    ready.turned(now_ms)
                }
            },
            Stage::Checking => if report.succeeded() {
                self.with_fate(Fate::Skipped).turned(now_ms)
            } else {
                RunState { stage: Stage::Installing, ..self }
            },
            Stage::Installing => self.with_fate(
                Fate::Ran { report, elapsed_ms: elapsed(self.started_ms, now_ms) },
            ).turned(now_ms),
            Stage::Finished => self,
        }
    }

    /// The events that the machine gives out when the command that was out
    /// has ended as reported, at time `now_ms`.
    pub open spec fn step_events(self, report: Report, now_ms: u64) -> Seq<Event> {
        match self.stage {
            Stage::Preparing => {
                let ready = RunState { prepared: Some(report), ..self };
                prepared_events(self.has_homebrew, report) + if ready.fatal() {
                    Seq::empty()
                } else {
                    ready.turning_events()
                }
            },
            Stage::Checking => if report.succeeded() {
                let done = self.with_fate(Fate::Skipped);
                seq![
                    concluded(self.current(), Fate::Skipped),
                    Event::Progress {
                        completed: (self.position() + 1) as nat,
                        total: self.plan.len(),
                    },
                ] + done.turning_events()
            } else {
                seq![Event::Log(announcement(self.current().install_method))]
            },
            Stage::Installing => {
                let fate = Fate::Ran { report, elapsed_ms: elapsed(self.started_ms, now_ms) };
                let done = self.with_fate(fate);
                log_events(output_lines(report)) + seq![
                    concluded(self.current(), fate),
                    Event::Progress {
                        completed: (self.position() + 1) as nat,
                        total: self.plan.len(),
                    },
                ] + done.turning_events()
            },
            Stage::Finished => Seq::empty(),
        }
    }

    /// The events of the current tool that are out already.
    pub open spec fn underway(self) -> Seq<Event> {
        match self.stage {
            Stage::Preparing => Seq::empty(),
            Stage::Checking => banner(self.plan, self.position()) + seq![started(self.current())],
            Stage::Installing => banner(self.plan, self.position()) + seq![
                started(self.current()),
                Event::Log(announcement(self.current().install_method)),
            ],
            Stage::Finished => seq![closing(self.plan, self.fates)],
        }
    }

    /// Every event that a run in this state has given out, from its
    /// beginning, in the order in which it gave them out.
    pub open spec fn transcript(self) -> Seq<Event> {
        opening(self.has_homebrew) + match self.prepared {
            None => Seq::empty(),
            Some(report) => prepared_events(self.has_homebrew, report) + if self.fatal() {
                Seq::empty()
            } else {
                blocks(self.plan, self.fates, self.position()) + self.underway()
            },
        }
    }

    /// The summary of the run so far.
    pub open spec fn summary(self) -> Summary {
        tally(self.plan, self.fates, self.position())
    }
}

/// The events of the first `n` tools depend on what became of those tools
/// and of no others.
pub proof fn lemma_blocks_of_prefix(plan: Seq<App>, a: Seq<Fate>, b: Seq<Fate>, n: int)
    requires
        n <= a.len(),
        n <= b.len(),
        forall|k: int| 0 <= k < n ==> a[k] == b[k],
    ensures
        blocks(plan, a, n) == blocks(plan, b, n),
        tally(plan, a, n) == tally(plan, b, n),
    decreases n,
{
    if n > 0 {
        lemma_blocks_of_prefix(plan, a, b, n - 1);
    }
}

proof fn lemma_step_preparing(s: RunState, report: Report, now_ms: u64)
    requires
        s.wf(),
        s.stage == Stage::Preparing,
    ensures
        s.next(report, now_ms).wf(),
        s.next(report, now_ms).transcript() == s.transcript() + s.step_events(report, now_ms),
{
    let t = s.next(report, now_ms);
    let head = opening(s.has_homebrew);
    let ready = RunState { prepared: Some(report), ..s };
    let said = prepared_events(s.has_homebrew, report);
    assert(s.transcript() =~= head);
    if ready.fatal() {
        assert(t.transcript() =~= head + said);
        assert(s.step_events(report, now_ms) =~= said);
    } else {
        assert(blocks(t.plan, t.fates, 0) =~= Seq::<Event>::empty());
        assert(t.underway() =~= ready.turning_events());
        assert(t.transcript() =~= head + (said + (Seq::<Event>::empty() + t.underway())));
        assert(s.step_events(report, now_ms) == said + ready.turning_events());
        assert(head + (said + (Seq::<Event>::empty() + t.underway())) =~= head + (said
            + ready.turning_events()));
    }
}

proof fn lemma_step_done(s: RunState, fate: Fate, now_ms: u64)
    requires
        s.wf(),
        s.stage == Stage::Checking || s.stage == Stage::Installing,
        fate is Skipped ==> checkable(s.current().install_method),
    ensures
        s.with_fate(fate).turned(now_ms).wf(),
        s.with_fate(fate).turned(now_ms).transcript() == opening(s.has_homebrew) + (prepared_events(
            s.has_homebrew,
            s.prepared->0,
        ) + (blocks(s.plan, s.fates, s.position()) + (block(
            s.plan,
            s.with_fate(fate).fates,
            s.position(),
        ) + s.with_fate(fate).turning_events()))),
{
    let done = s.with_fate(fate);
    let t = done.turned(now_ms);
    let head = opening(s.has_homebrew);
    let said = prepared_events(s.has_homebrew, s.prepared->0);
    let before = blocks(s.plan, s.fates, s.position());
    let this = block(s.plan, done.fates, s.position());
    lemma_blocks_of_prefix(s.plan, s.fates, done.fates, s.position());
    assert(done.fates[s.position()] == fate);
    assert(t.fates == done.fates);
    assert(t.prepared == s.prepared);
    assert(!t.fatal());
    assert forall|k: int| 0 <= k < t.fates.len() && (#[trigger] t.fates[k]) is Skipped implies checkable(
        t.plan[k].install_method,
    ) by {
        if k < s.fates.len() {
            assert(t.fates[k] == s.fates[k]);
        }
    }
    assert(t.underway() =~= done.turning_events());
    assert(blocks(t.plan, t.fates, t.position()) == before + this);
    assert(t.transcript() == head + (said + ((before + this) + t.underway())));
    assert((before + this) + t.underway() =~= before + (this + done.turning_events()));
}

proof fn lemma_step_checking(s: RunState, report: Report, now_ms: u64)
    requires
        s.wf(),
        s.stage == Stage::Checking,
    ensures
        s.next(report, now_ms).wf(),
        s.next(report, now_ms).transcript() == s.transcript() + s.step_events(report, now_ms),
{
    let t = s.next(report, now_ms);
    let head = opening(s.has_homebrew);
    let said = prepared_events(s.has_homebrew, s.prepared->0);
    let before = blocks(s.plan, s.fates, s.position());
    assert(s.transcript() == head + (said + (before + s.underway())));
    if report.succeeded() {
        let done = s.with_fate(Fate::Skipped);
        lemma_step_done(s, Fate::Skipped, now_ms);
        let this = block(s.plan, done.fates, s.position());
        assert(done.fates[s.position()] == Fate::Skipped);
        assert(work(s.current(), Fate::Skipped) =~= Seq::<Event>::empty());
        assert(this + done.turning_events() =~= s.underway() + s.step_events(report, now_ms));
        assert(head + (said + (before + (s.underway() + s.step_events(report, now_ms)))) =~= head
            + (said + (before + s.underway())) + s.step_events(report, now_ms));
    } else {
        assert(t.underway() =~= s.underway() + s.step_events(report, now_ms));
        assert(t.transcript() == head + (said + (before + t.underway())));
        assert(head + (said + (before + (s.underway() + s.step_events(report, now_ms)))) =~= head
            + (said + (before + s.underway())) + s.step_events(report, now_ms));
    }
}

proof fn lemma_step_installing(s: RunState, report: Report, now_ms: u64)
    requires
        s.wf(),
        s.stage == Stage::Installing,
    ensures
        s.next(report, now_ms).wf(),
        s.next(report, now_ms).transcript() == s.transcript() + s.step_events(report, now_ms),
{
    let t = s.next(report, now_ms);
    let head = opening(s.has_homebrew);
    let said = prepared_events(s.has_homebrew, s.prepared->0);
    let before = blocks(s.plan, s.fates, s.position());
    let fate = Fate::Ran { report, elapsed_ms: elapsed(s.started_ms, now_ms) };
    let done = s.with_fate(fate);
    assert(s.transcript() == head + (said + (before + s.underway())));
    lemma_step_done(s, fate, now_ms);
    let this = block(s.plan, done.fates, s.position());
    assert(done.fates[s.position()] == fate);
    assert(this + done.turning_events() =~= s.underway() + s.step_events(report, now_ms));
    assert(head + (said + (before + (s.underway() + s.step_events(report, now_ms)))) =~= head + (said
        + (before + s.underway())) + s.step_events(report, now_ms));
}

/// Each step of a run carries a well-formed state over into a well-formed
/// state, and adds the events it gives out at the end of the transcript:
/// the transcript is the record of all that was given out.
pub proof fn lemma_step_extends_transcript(s: RunState, report: Report, now_ms: u64)
    requires
        s.wf(),
    ensures
        s.next(report, now_ms).wf(),
        s.next(report, now_ms).transcript() == s.transcript() + s.step_events(report, now_ms),
        s.next(report, now_ms).has_homebrew == s.has_homebrew,
        s.next(report, now_ms).plan == s.plan,
{
    match s.stage {
        Stage::Preparing => lemma_step_preparing(s, report, now_ms),
        Stage::Checking => lemma_step_checking(s, report, now_ms),
        Stage::Installing => lemma_step_installing(s, report, now_ms),
        Stage::Finished => {
            assert(s.transcript() + Seq::<Event>::empty() =~= s.transcript());
        },
    }
}

/// What the machine answers with: the messages to send on, in this order,
/// and the command to run next. Where no command is named, the run is over.
#[derive(Debug)]
pub struct Step {
    pub messages: Vec<InstallMessage>,
    pub request: Option<Command>,
}

/// The command of a request as a value of the specification.
pub open spec fn request_line(request: Option<Command>) -> Option<CommandLine> {
    match request {
        Some(command) => Some(command@),
        None => None,
    }
}

/// The group that a method belongs to.
pub fn batch(method: &InstallMethod) -> (b: Batch)
    ensures
        b == batch_of(*method),
{
    match method {
        InstallMethod::Brew(_) => Batch::Formulae,
        InstallMethod::BrewCask(_) => Batch::Casks,
        _ => Batch::Others,
    }
}

/// The heading under which a group is announced.
pub fn title(batch: Batch) -> (r: &'static str)
    ensures
        r@ == batch_title(batch),
{
    match batch {
        Batch::Formulae => "Homebrew Formulae",
        Batch::Casks => "Homebrew Casks",
        Batch::Others => "Additional Tools",
    }
}

fn append_batch(plan: &mut Vec<App>, apps: &Vec<App>, wanted: Batch)
    ensures
        final(plan)@ == old(plan)@ + in_batch(apps@, wanted),
{
    let ghost pred = |app: App| batch_of(app.install_method) == wanted;
    let mut i: usize = 0;
    assert(apps@.take(0).filter(pred) =~= Seq::<App>::empty());
    assert(plan@ + Seq::<App>::empty() =~= plan@);
    while i < apps.len()
        invariant
            i <= apps.len(),
            pred == |app: App| batch_of(app.install_method) == wanted,
            plan@ == old(plan)@ + apps@.take(i as int).filter(pred),
        decreases apps.len() - i,
    {
        let app = apps[i];
        proof {
            assert(apps@.take(i as int + 1) =~= apps@.take(i as int).push(app));
            apps@.take(i as int).lemma_filter_push(app, pred);
        }
        if batch(&app.install_method) == wanted {
            assert((old(plan)@ + apps@.take(i as int).filter(pred)).push(app) =~= old(plan)@
                + apps@.take(i as int).filter(pred).push(app));
            plan.push(app);
        }
        i += 1;
    }
    assert(apps@.take(apps.len() as int) =~= apps@);
}

/// The tools in the order in which a run goes through them.
pub fn order(apps: &Vec<App>) -> (plan: Vec<App>)
    ensures
        plan@ == execution_order(apps@),
{
    let mut plan: Vec<App> = Vec::new();
    append_batch(&mut plan, apps, Batch::Formulae);
    append_batch(&mut plan, apps, Batch::Casks);
    append_batch(&mut plan, apps, Batch::Others);
    assert(plan@ =~= execution_order(apps@));
    plan
}

fn say(messages: &mut Vec<InstallMessage>, message: InstallMessage)
    ensures
        events(final(messages)@) == events(old(messages)@).push(message@),
{
    assert(events(messages@.push(message)) =~= events(messages@).push(message@));
    messages.push(message);
}

/// What became of a tool, as the machine enters it.
enum Conclusion {
    Skipped,
    Succeeded { elapsed_ms: u64 },
    Failed { said: String },
}

/// An install run: the machine that decides what is run next and what is
/// reported, from how each command ended.
pub struct InstallRun {
    has_homebrew: bool,
    plan: Vec<App>,
    position: usize,
    stage: Stage,
    started_ms: u64,
    summary: InstallSummary,
    prepared: Ghost<Option<Report>>,
    fates: Ghost<Seq<Fate>>,
}

impl View for InstallRun {
    type V = RunState;

    closed spec fn view(&self) -> RunState {
        RunState {
            has_homebrew: self.has_homebrew,
            plan: self.plan@,
            stage: self.stage,
            started_ms: self.started_ms,
            prepared: self.prepared@,
            fates: self.fates@,
        }
    }
}

impl InstallRun {
    /// What the machine keeps beside its state agrees with the state.
    pub closed spec fn agrees(&self) -> bool {
        &&& self.position == self.fates@.len()
        &&& self.position <= self.plan@.len()
        &&& self.summary@ == tally(self.plan@, self.fates@, self.position as int)
    }

    /// The machine is in a state that a run can be in.
    pub closed spec fn wf(&self) -> bool {
        self@.wf() && self.agrees()
    }

    /// A machine that is well formed is in a well-formed state.
    pub proof fn lemma_wf(&self)
        requires
            self.wf(),
        ensures
            self@.wf(),
    {
    }

    /// Begins a run over the given tools. The answer holds the events that
    /// open the run and the command that makes the package manager ready.
    pub fn start(has_homebrew: bool, apps: &Vec<App>) -> (r: (InstallRun, Step))
        ensures
            r.0.wf(),
            r.0@ == RunState::initial(has_homebrew, execution_order(apps@)),
            events(r.1.messages@) == opening(has_homebrew),
            request_line(r.1.request) == Some(prepare_line(has_homebrew)),
    {
        let plan = order(apps);
        let command = prepare_command(has_homebrew);
        let mut messages: Vec<InstallMessage> = Vec::new();
        assert(events(messages@) =~= Seq::<Event>::empty());
        say(&mut messages, InstallMessage::PhaseStart { phase: String::from_str("Homebrew Bootstrap") });
        if has_homebrew {
            say(
                &mut messages,
                InstallMessage::Log(String::from_str("[BREW] Homebrew found — updating...")),
            );
            let line = String::from_str("[RUN] ").concat(command.render().as_str());
            say(&mut messages, InstallMessage::Log(line));
        } else {
            say(
                &mut messages,
                InstallMessage::Log(String::from_str("[BREW] Homebrew not found — installing...")),
            );
            say(
                &mut messages,
                InstallMessage::Log(String::from_str("[BREW] Downloading Homebrew installer...")),
            );
        }
        assert(events(messages@) =~= opening(has_homebrew));
        let run = InstallRun {
            has_homebrew,
            plan,
            position: 0,
            stage: Stage::Preparing,
            started_ms: 0,
            summary: InstallSummary::default(),
            prepared: Ghost(None),
            fates: Ghost(Seq::empty()),
        };
        (run, Step { messages, request: Some(command) })
    }

    /// Whether the run is over.
    pub fn is_finished(&self) -> (r: bool)
        ensures
            r == (self@.stage == Stage::Finished),
    {
        self.stage == Stage::Finished
    }

    /// The summary of the run so far.
    pub fn summary(&self) -> (r: &InstallSummary)
        requires
            self.wf(),
        ensures
            r@ == self@.summary(),
    {
        &self.summary
    }

    /// Ends the run and hands out its summary.
    pub fn into_summary(self) -> (r: InstallSummary)
        requires
            self.wf(),
        ensures
            r@ == self@.summary(),
    {
        self.summary
    }

    /// Turns to the next tool, or closes the run if none is left.
    fn turn(&mut self, messages: &mut Vec<InstallMessage>, now_ms: u64) -> (request: Option<Command>)
        requires
            old(self).agrees(),
            old(self)@.turned(now_ms).wf(),
        ensures
            final(self).wf(),
            final(self)@ == old(self)@.turned(now_ms),
            events(final(messages)@) == events(old(messages)@) + old(self)@.turning_events(),
            request_line(request) == final(self)@.pending(),
    {
        if self.position < self.plan.len() {
            let app = self.plan[self.position];
            let ghost before = events(messages@);
            let opens = self.position == 0 || batch(&app.install_method) != batch(
                &self.plan[self.position - 1].install_method,
            );
            if opens {
                say(
                    messages,
                    InstallMessage::PhaseStart {
                        phase: String::from_str(title(batch(&app.install_method))),
                    },
                );
            }
            say(
                messages,
                InstallMessage::PackageStart {
                    name: String::from_str(app.name),
                    method: app.install_method.command(),
                },
            );
            self.started_ms = now_ms;
            match check_command(&app.install_method) {
                Some(command) => {
                    self.stage = Stage::Checking;
                    assert(events(messages@) =~= before + old(self)@.turning_events());
                    Some(command)
                },
                None => {
                    say(messages, InstallMessage::Log(announce(&app.install_method)));
                    self.stage = Stage::Installing;
                    assert(events(messages@) =~= before + old(self)@.turning_events());
                    Some(install_command(&app.install_method))
                },
            }
        } else {
            let ghost before = events(messages@);
            say(
                messages,
                InstallMessage::Done {
                    succeeded: self.summary.succeeded.len(),
                    failed: self.summary.failed.len(),
                    skipped: self.summary.skipped.len(),
                },
            );
            self.stage = Stage::Finished;
            assert(events(messages@) =~= before + old(self)@.turning_events());
            None
        }
    }

    /// Enters what became of the current tool: in the summary, in the
    /// messages, and in the count of tools done.
    fn conclude(
        &mut self,
        messages: &mut Vec<InstallMessage>,
        conclusion: Conclusion,
        Ghost(fate): Ghost<Fate>,
    )
        requires
            old(self).wf(),
            old(self)@.stage == Stage::Checking || old(self)@.stage == Stage::Installing,
            match conclusion {
                Conclusion::Skipped => fate is Skipped,
                Conclusion::Succeeded { elapsed_ms } => fate matches Fate::Ran {
                    report,
                    elapsed_ms: e,
                } && e == elapsed_ms && verdict(old(self)@.current().install_method, report) is Ok,
                Conclusion::Failed { said } => fate matches Fate::Ran { report, elapsed_ms: e }
                    && verdict(old(self)@.current().install_method, report) == Err::<
                    (),
                    Seq<char>,
                >(said@),
            },
        ensures
            final(self).agrees(),
            final(self)@ == old(self)@.with_fate(fate),
            events(final(messages)@) == events(old(messages)@) + seq![
                concluded(old(self)@.current(), fate),
                Event::Progress {
                    completed: (old(self)@.position() + 1) as nat,
                    total: old(self)@.plan.len(),
                },
            ],
    {
        assert(self.position < self.plan.len());
        let app = self.plan[self.position];
        let ghost before = events(messages@);
        let ghost fates = self.fates@;
        let name = String::from_str(app.name);
        proof {
            lemma_blocks_of_prefix(self.plan@, fates, fates.push(fate), self.position as int);
        }
        match conclusion {
            Conclusion::Skipped => {
                let reason = String::from_str("Already installed");
                say(
                    messages,
                    InstallMessage::PackageSkipped { name: name.clone(), reason: reason.clone() },
                );
                assert(text_pairs(self.summary.skipped@.push((name, reason))) =~= text_pairs(
                    self.summary.skipped@,
                ).push((name@, reason@)));
                self.summary.skipped.push((name, reason));
            },
            Conclusion::Succeeded { elapsed_ms } => {
                say(
                    messages,
                    InstallMessage::PackageSuccess { name: name.clone(), duration_ms: elapsed_ms },
                );
                assert(texts(self.summary.succeeded@.push(name)) =~= texts(
                    self.summary.succeeded@,
                ).push(name@));
                self.summary.succeeded.push(name);
            },
            Conclusion::Failed { said } => {
                say(
                    messages,
                    InstallMessage::PackageFailed { name: name.clone(), error: said.clone() },
                );
                assert(text_pairs(self.summary.failed@.push((name, said))) =~= text_pairs(
                    self.summary.failed@,
                ).push((name@, said@)));
                self.summary.failed.push((name, said));
            },
        }
        self.fates = Ghost(fates.push(fate));
        self.position = self.position + 1;
        say(
            messages,
            InstallMessage::Progress { completed: self.position, total: self.plan.len() },
        );
        assert(events(messages@) =~= before + seq![
            concluded(old(self)@.current(), fate),
            Event::Progress {
                completed: (old(self)@.position() + 1) as nat,
                total: old(self)@.plan.len(),
            },
        ]);
    }

    /// Takes in how the command that was out has ended, at time `now_ms`,
    /// and answers with the events to send on and the command to run next.
    /// Once the run is over, nothing changes and nothing is given out.
    pub fn advance(&mut self, outcome: &Outcome, now_ms: u64) -> (step: Step)
        requires
            old(self).wf(),
        ensures
            final(self).wf(),
            final(self)@ == old(self)@.next(outcome@, now_ms),
            events(step.messages@) == old(self)@.step_events(outcome@, now_ms),
            request_line(step.request) == final(self)@.pending(),
    {
        let mut messages: Vec<InstallMessage> = Vec::new();
        assert(events(messages@) =~= Seq::<Event>::empty());
        proof {
            lemma_step_extends_transcript(self@, outcome@, now_ms);
        }
        match self.stage {
            Stage::Finished => Step { messages, request: None },
            Stage::Preparing => {
                self.prepared = Ghost(Some(outcome@));
                if self.has_homebrew {
                    push_output_of(&mut messages, outcome);
                    assert(events(messages@) =~= prepared_events(true, outcome@));
                } else {
                    match classify_bootstrap(outcome) {
                        Ok(()) => {
                            say(
                                &mut messages,
                                InstallMessage::Log(
                                    String::from_str("[BREW] Homebrew installed successfully"),
                                ),
                            );
                            assert(events(messages@) =~= prepared_events(false, outcome@));
                        },
                        Err(said) => {
                            let reason = String::from_str("Failed to install Homebrew: ").concat(
                                said.as_str(),
                            );
                            say(&mut messages, InstallMessage::FatalError(reason));
                            self.stage = Stage::Finished;
                            assert(events(messages@) =~= prepared_events(false, outcome@));
                            assert(events(messages@) =~= old(self)@.step_events(outcome@, now_ms));
                            return Step { messages, request: None };
                        },
                    }
                }
                let request = self.turn(&mut messages, now_ms);
                Step { messages, request }
            },
            Stage::Checking => {
                let app = self.plan[self.position];
                if outcome.success() {
                    self.conclude(&mut messages, Conclusion::Skipped, Ghost(Fate::Skipped));
                    let request = self.turn(&mut messages, now_ms);
                    assert(events(messages@) =~= old(self)@.step_events(outcome@, now_ms));
                    Step { messages, request }
                } else {
                    say(&mut messages, InstallMessage::Log(announce(&app.install_method)));
                    self.stage = Stage::Installing;
                    assert(events(messages@) =~= old(self)@.step_events(outcome@, now_ms));
                    Step { messages, request: Some(install_command(&app.install_method)) }
                }
            },
            Stage::Installing => {
                let app = self.plan[self.position];
                let elapsed_ms = if now_ms >= self.started_ms {
                    now_ms - self.started_ms
                } else {
                    0
                };
                push_output_of(&mut messages, outcome);
                let conclusion = match classify(&app.install_method, outcome) {
                    Ok(()) => Conclusion::Succeeded { elapsed_ms },
                    Err(said) => Conclusion::Failed { said },
                };
                self.conclude(
                    &mut messages,
                    conclusion,
                    Ghost(Fate::Ran { report: outcome@, elapsed_ms }),
                );
                let request = self.turn(&mut messages, now_ms);
                assert(events(messages@) =~= old(self)@.step_events(outcome@, now_ms));
                Step { messages, request }
            },
        }
    }
}

/// The state of a run that began in state `s` and has since been told of
/// the given endings, each with the time at which it came in.
pub open spec fn after(s: RunState, inputs: Seq<(Report, u64)>) -> RunState
    decreases inputs.len(),
{
    if inputs.len() == 0 {
        s
    } else {
        after(s, inputs.drop_last()).next(inputs.last().0, inputs.last().1)
    }
}

/// The events that a run gave out, step by step, since it was in state `s`.
pub open spec fn given_out(s: RunState, inputs: Seq<(Report, u64)>) -> Seq<Event>
    decreases inputs.len(),
{
    if inputs.len() == 0 {
        Seq::empty()
    } else {
        given_out(s, inputs.drop_last()) + after(s, inputs.drop_last()).step_events(
            inputs.last().0,
            inputs.last().1,
        )
    }
}

/// Whatever comes back from the commands, and however many steps are taken,
/// a run is in a well-formed state over the tools it began with, and its
/// transcript holds the opening events and then what each step gave out.
pub proof fn lemma_every_run(has_homebrew: bool, plan: Seq<App>, inputs: Seq<(Report, u64)>)
    ensures
        after(RunState::initial(has_homebrew, plan), inputs).wf(),
        after(RunState::initial(has_homebrew, plan), inputs).plan == plan,
        after(RunState::initial(has_homebrew, plan), inputs).has_homebrew == has_homebrew,
        after(RunState::initial(has_homebrew, plan), inputs).transcript() == opening(has_homebrew)
            + given_out(RunState::initial(has_homebrew, plan), inputs),
    decreases inputs.len(),
{
    let start = RunState::initial(has_homebrew, plan);
    if inputs.len() == 0 {
        assert(start.transcript() =~= opening(has_homebrew) + Seq::<Event>::empty());
    } else {
        let earlier = inputs.drop_last();
        lemma_every_run(has_homebrew, plan, earlier);
        lemma_step_extends_transcript(after(start, earlier), inputs.last().0, inputs.last().1);
        assert(opening(has_homebrew) + given_out(start, earlier) + after(start, earlier).step_events(
            inputs.last().0,
            inputs.last().1,
        ) =~= opening(has_homebrew) + given_out(start, inputs));
    }
}

/// Every tool that was given is gone through: the order of execution holds
/// as many tools as were given.
pub proof fn lemma_execution_order_len(apps: Seq<App>)
    ensures
        execution_order(apps).len() == apps.len(),
    decreases apps.len(),
{
    let f = |app: App| batch_of(app.install_method) == Batch::Formulae;
    let c = |app: App| batch_of(app.install_method) == Batch::Casks;
    let o = |app: App| batch_of(app.install_method) == Batch::Others;
    if apps.len() == 0 {
        assert(apps.filter(f) =~= Seq::<App>::empty()) by {
            apps.lemma_filter_len(f);
        }
        assert(apps.filter(c) =~= Seq::<App>::empty()) by {
            apps.lemma_filter_len(c);
        }
        assert(apps.filter(o) =~= Seq::<App>::empty()) by {
            apps.lemma_filter_len(o);
        }
    } else {
        let rest = apps.drop_last();
        let app = apps.last();
        lemma_execution_order_len(rest);
        assert(rest.push(app) =~= apps);
        rest.lemma_filter_push(app, f);
        rest.lemma_filter_push(app, c);
        rest.lemma_filter_push(app, o);
    }
}

/// Each tool that is done stands in the summary once: as installed, as
/// failed or as passed over. Where none was passed over, none stands there
/// as passed over.
pub proof fn lemma_tally_counts(plan: Seq<App>, fates: Seq<Fate>, n: int)
    requires
        0 <= n,
    ensures
        tally(plan, fates, n).succeeded.len() + tally(plan, fates, n).failed.len() + tally(
            plan,
            fates,
            n,
        ).skipped.len() == n,
        (forall|k: int| 0 <= k < n ==> !((#[trigger] fates[k]) is Skipped)) ==> tally(
            plan,
            fates,
            n,
        ).skipped.len() == 0,
    decreases n,
{
    if n > 0 {
        lemma_tally_counts(plan, fates, n - 1);
    }
}

/// The events of the first `n` tools begin with those of the first `k`, go
/// on with those of the tool at position `k`, and where there are any at
/// all, the last of them says that `n` tools are done.
pub proof fn lemma_blocks_split(plan: Seq<App>, fates: Seq<Fate>, k: int, n: int)
    requires
        0 <= k < n,
    ensures
        blocks(plan, fates, k).len() + block(plan, fates, k).len() <= blocks(plan, fates, n).len(),
        blocks(plan, fates, n).subrange(0, blocks(plan, fates, k).len() as int) == blocks(
            plan,
            fates,
            k,
        ),
        blocks(plan, fates, n).subrange(
            blocks(plan, fates, k).len() as int,
            (blocks(plan, fates, k).len() + block(plan, fates, k).len()) as int,
        ) == block(plan, fates, k),
        blocks(plan, fates, n).last() == (Event::Progress {
            completed: n as nat,
            total: plan.len(),
        }),
    decreases n,
{
    let all = blocks(plan, fates, n);
    let head = blocks(plan, fates, n - 1);
    let this = block(plan, fates, n - 1);
    assert(all == head + this);
    if k == n - 1 {
        assert(all.subrange(0, head.len() as int) =~= head);
        assert(all.subrange(head.len() as int, (head.len() + this.len()) as int) =~= this);
    } else {
        lemma_blocks_split(plan, fates, k, n - 1);
        let a = blocks(plan, fates, k);
        let b = block(plan, fates, k);
        assert(all.subrange(0, a.len() as int) =~= head.subrange(0, a.len() as int));
        assert(all.subrange(a.len() as int, (a.len() + b.len()) as int) =~= head.subrange(
            a.len() as int,
            (a.len() + b.len()) as int,
        ));
    }
}

/// An event that speaks of one tool: that it is begun, what became of it,
/// or how far the run is.
pub open spec fn item_level(event: Event) -> bool {
    event is PackageStart || event is PackageSuccess || event is PackageSkipped
        || event is PackageFailed || event is Progress
}

/// Where the events of the tool at position `k` begin in the transcript.
pub open spec fn block_offset(s: RunState, k: int) -> int {
    (opening(s.has_homebrew).len() + prepared_events(s.has_homebrew, s.prepared->0).len() + blocks(
        s.plan,
        s.fates,
        k,
    ).len()) as int
}

/// Where the transcript says that the tool at position `k` is begun.
pub open spec fn started_at(s: RunState, k: int) -> int {
    block_offset(s, k) + banner(s.plan, k).len()
}

/// Where the transcript says what became of the tool at position `k`.
pub open spec fn concluded_at(s: RunState, k: int) -> int {
    block_offset(s, k) + block(s.plan, s.fates, k).len() - 2
}

/// The place of a tool's events in the transcript. For every tool that is
/// done, the transcript holds its events as one stretch, which begins at
/// the tool's offset and ends where the next tool's begins.
pub proof fn lemma_block_in_transcript(s: RunState, k: int)
    requires
        s.wf(),
        0 <= k < s.fates.len(),
    ensures
        0 <= block_offset(s, k),
        block_offset(s, k) + block(s.plan, s.fates, k).len() == block_offset(s, k + 1),
        block_offset(s, k + 1) <= s.transcript().len(),
        s.transcript().subrange(block_offset(s, k), block_offset(s, k + 1)) == block(
            s.plan,
            s.fates,
            k,
        ),
{
    let head = opening(s.has_homebrew);
    let said = prepared_events(s.has_homebrew, s.prepared->0);
    let all = blocks(s.plan, s.fates, s.position());
    let t = s.transcript();
    assert(s.prepared is Some);
    assert(!s.fatal());
    lemma_blocks_split(s.plan, s.fates, k, s.position());
    assert(t == head + (said + (all + s.underway())));
    let a = blocks(s.plan, s.fates, k).len() as int;
    let b = block(s.plan, s.fates, k).len() as int;
    assert(t.subrange(block_offset(s, k), block_offset(s, k) + b) =~= all.subrange(a, a + b));
}

/// A run that went through its tools closes with the count of what became
/// of them, and the counts add up to the number of tools. The event just
/// before is the last to say how far the run is, and it says that all tools
/// are done, out of all tools. Where no tool was passed over, the count of
/// tools passed over is zero.
pub proof fn lemma_final_progress(s: RunState)
    requires
        s.wf(),
        s.stage == Stage::Finished,
        !s.fatal(),
    ensures
        s.transcript().len() >= 1,
        s.transcript().last() == closing(s.plan, s.fates),
        closing(s.plan, s.fates) == (Event::Done {
            succeeded: s.summary().succeeded.len(),
            failed: s.summary().failed.len(),
            skipped: s.summary().skipped.len(),
        }),
        s.summary().succeeded.len() + s.summary().failed.len() + s.summary().skipped.len()
            == s.plan.len(),
        s.plan.len() > 0 ==> s.transcript().len() >= 2 && s.transcript()[s.transcript().len() - 2]
            == (Event::Progress { completed: s.plan.len(), total: s.plan.len() }),
        (forall|k: int| 0 <= k < s.plan.len() ==> !((#[trigger] s.fates[k]) is Skipped))
            ==> s.summary().skipped.len() == 0,
{
    let head = opening(s.has_homebrew);
    let said = prepared_events(s.has_homebrew, s.prepared->0);
    let n = s.plan.len() as int;
    let all = blocks(s.plan, s.fates, n);
    let t = s.transcript();
    lemma_tally_counts(s.plan, s.fates, n);
    assert(t == head + (said + (all + seq![closing(s.plan, s.fates)])));
    if n > 0 {
        lemma_blocks_split(s.plan, s.fates, 0, n);
        assert(t[t.len() - 2] == all.last());
    }
}

/// A tool that is found installed already gets three events of its own:
/// that it is begun, that it is passed over, and how far the run is. It is
/// never said to be installed or to have failed.
pub proof fn lemma_skipped_tool(s: RunState, k: int)
    requires
        s.wf(),
        0 <= k < s.fates.len(),
        s.fates[k] is Skipped,
    ensures
        block(s.plan, s.fates, k) == banner(s.plan, k) + seq![
            started(s.plan[k]),
            Event::PackageSkipped { name: s.plan[k].name@, reason: skip_reason() },
            Event::Progress { completed: (k + 1) as nat, total: s.plan.len() },
        ],
        forall|i: int|
            0 <= i < block(s.plan, s.fates, k).len() ==> !((#[trigger] block(s.plan, s.fates, k)[i])
                is PackageSuccess) && !(block(s.plan, s.fates, k)[i] is PackageFailed),
        s.transcript().subrange(block_offset(s, k), block_offset(s, k + 1)) == block(
            s.plan,
            s.fates,
            k,
        ),
{
    lemma_block_in_transcript(s, k);
    assert(work(s.plan[k], s.fates[k]) =~= Seq::<Event>::empty());
    assert(block(s.plan, s.fates, k) =~= banner(s.plan, k) + seq![
        started(s.plan[k]),
        Event::PackageSkipped { name: s.plan[k].name@, reason: skip_reason() },
        Event::Progress { completed: (k + 1) as nat, total: s.plan.len() },
    ]);
}

/// A run whose package manager could neither be found nor installed is
/// over. Its transcript holds the opening events and then one event, which
/// says that the run cannot go on: no other event says so, none speaks of
/// a tool, and the summary is empty.
pub proof fn lemma_fatal_run(s: RunState)
    requires
        s.wf(),
        s.fatal(),
    ensures
        s.stage == Stage::Finished,
        s.pending() is None,
        s.transcript() == opening(false) + seq![
            Event::FatalError(
                "Failed to install Homebrew: "@ + bootstrap_verdict(s.prepared->0)->Err_0,
            ),
        ],
        forall|i: int|
            0 <= i < s.transcript().len() ==> ((#[trigger] s.transcript()[i]) is FatalError <==> i
                == s.transcript().len() - 1),
        forall|i: int| 0 <= i < s.transcript().len() ==> !item_level(#[trigger] s.transcript()[i]),
        s.summary() == Summary::empty(),
{
    let t = s.transcript();
    let last = Event::FatalError(
        "Failed to install Homebrew: "@ + bootstrap_verdict(s.prepared->0)->Err_0,
    );
    assert(t =~= opening(false) + seq![last]);
    assert(t.len() == 4);
    assert(t[0] == opening(false)[0]);
    assert(t[1] == opening(false)[1]);
    assert(t[2] == opening(false)[2]);
    assert(t[3] == last);
}

/// The order of a tool's events. For every tool that is done, the
/// transcript says that it is begun before it says what became of it, and
/// it says nothing of the next tool before that. In a run that went
/// through its tools, the closing event comes after all of this, as the
/// last event of all.
pub proof fn lemma_event_order(s: RunState, k: int)
    requires
        s.wf(),
        0 <= k < s.fates.len(),
    ensures
        0 <= started_at(s, k) < concluded_at(s, k) < s.transcript().len(),
        s.transcript()[started_at(s, k)] == started(s.plan[k]),
        s.transcript()[concluded_at(s, k)] == concluded(s.plan[k], s.fates[k]),
        s.transcript()[concluded_at(s, k) + 1] == (Event::Progress {
            completed: (k + 1) as nat,
            total: s.plan.len(),
        }),
        k + 1 < s.fates.len() ==> concluded_at(s, k) < started_at(s, k + 1),
        s.stage == Stage::Finished ==> concluded_at(s, k) < s.transcript().len() - 1
            && s.transcript().last() == closing(s.plan, s.fates),
{
    lemma_block_in_transcript(s, k);
    let t = s.transcript();
    let b = block(s.plan, s.fates, k);
    let lead = banner(s.plan, k);
    let mid = work(s.plan[k], s.fates[k]);
    let tail = seq![
        concluded(s.plan[k], s.fates[k]),
        Event::Progress { completed: (k + 1) as nat, total: s.plan.len() },
    ];
    assert(b == lead + seq![started(s.plan[k])] + mid + tail);
    assert(b.len() == lead.len() + 1 + mid.len() + 2);
    let part = t.subrange(block_offset(s, k), block_offset(s, k + 1));
    assert(part[lead.len() as int] == t[started_at(s, k)]);
    assert(b[lead.len() as int] == started(s.plan[k]));
    assert(part[b.len() - 2] == t[concluded_at(s, k)]);
    assert(b[b.len() - 2] == tail[0]);
    assert(part[b.len() - 1] == t[concluded_at(s, k) + 1]);
    assert(b[b.len() - 1] == tail[1]);
    if k + 1 < s.fates.len() {
        lemma_block_in_transcript(s, k + 1);
    }
    if s.stage == Stage::Finished {
        lemma_final_progress(s);
    }
}

/// The place of a group in the order of the groups.
pub open spec fn batch_rank(batch: Batch) -> int {
    match batch {
        Batch::Formulae => 0,
        Batch::Casks => 1,
        Batch::Others => 2,
    }
}

/// In the order of execution the groups follow each other and are never
/// mixed: no tool comes before a tool of an earlier group.
pub proof fn lemma_execution_order_grouped(apps: Seq<App>, i: int, j: int)
    requires
        0 <= i <= j < execution_order(apps).len(),
    ensures
        batch_rank(batch_of(execution_order(apps)[i].install_method)) <= batch_rank(
            batch_of(execution_order(apps)[j].install_method),
        ),
{
    let f = |app: App| batch_of(app.install_method) == Batch::Formulae;
    let c = |app: App| batch_of(app.install_method) == Batch::Casks;
    let o = |app: App| batch_of(app.install_method) == Batch::Others;
    let first = apps.filter(f);
    let second = apps.filter(c);
    let third = apps.filter(o);
    let plan = execution_order(apps);
    assert(plan == first + second + third);
    if i < first.len() {
        apps.lemma_filter_pred(f, i);
        assert(plan[i] == first[i]);
    } else if i < first.len() + second.len() {
        apps.lemma_filter_pred(c, i - first.len());
        assert(plan[i] == second[i - first.len()]);
    } else {
        apps.lemma_filter_pred(o, i - first.len() - second.len());
        assert(plan[i] == third[i - first.len() - second.len()]);
    }
    if j < first.len() {
        apps.lemma_filter_pred(f, j);
        assert(plan[j] == first[j]);
    } else if j < first.len() + second.len() {
        apps.lemma_filter_pred(c, j - first.len());
        assert(plan[j] == second[j - first.len()]);
    } else {
        apps.lemma_filter_pred(o, j - first.len() - second.len());
        assert(plan[j] == third[j - first.len() - second.len()]);
    }
}

/// The position of the tool that opens the group in which the tool at
/// position `k` stands.
pub open spec fn batch_opening(plan: Seq<App>, k: int) -> int
    decreases k,
{
    if k <= 0 || opens_batch(plan, k) {
        k
    } else {
        batch_opening(plan, k - 1)
    }
}

proof fn lemma_batch_opening(plan: Seq<App>, k: int)
    requires
        0 <= k < plan.len(),
    ensures
        0 <= batch_opening(plan, k) <= k,
        opens_batch(plan, batch_opening(plan, k)),
        batch_of(plan[batch_opening(plan, k)].install_method) == batch_of(plan[k].install_method),
    decreases k,
{
    if k > 0 && !opens_batch(plan, k) {
        lemma_batch_opening(plan, k - 1);
    }
}

/// The heading of a group comes before everything that is said of its
/// tools. For every tool that is done, the transcript holds the heading
/// of the tool's group where the events of the group's first tool begin,
/// and that is before the place where the tool is said to be begun.
pub proof fn lemma_phase_start_precedes(s: RunState, k: int)
    requires
        s.wf(),
        0 <= k < s.fates.len(),
    ensures
        0 <= batch_opening(s.plan, k) <= k,
        0 <= block_offset(s, batch_opening(s.plan, k)) < started_at(s, k) < s.transcript().len(),
        s.transcript()[block_offset(s, batch_opening(s.plan, k))] == (Event::PhaseStart {
            phase: batch_title(batch_of(s.plan[k].install_method)),
        }),
{
    let j = batch_opening(s.plan, k);
    lemma_batch_opening(s.plan, k);
    lemma_block_in_transcript(s, j);
    lemma_event_order(s, k);
    let first = block(s.plan, s.fates, j);
    let part = s.transcript().subrange(block_offset(s, j), block_offset(s, j + 1));
    assert(first[0] == banner(s.plan, j)[0]);
    assert(part[0] == s.transcript()[block_offset(s, j)]);
    if j < k {
        lemma_blocks_split(s.plan, s.fates, j, k);
    }
}

/// The commands that were asked for on account of one tool: the one that
/// asks whether it is installed, where its method has one, and the one
/// that installs it, unless it was passed over.
pub open spec fn tool_requests(app: App, fate: Fate) -> Seq<CommandLine> {
    (match check_line(app.install_method) {
        Some(line) => seq![line],
        None => Seq::empty(),
    }) + (match fate {
        Fate::Skipped => Seq::empty(),
        Fate::Ran { .. } => seq![install_line(app.install_method)],
    })
}

/// The commands that were asked for on account of the first `n` tools.
pub open spec fn requests_upto(plan: Seq<App>, fates: Seq<Fate>, n: int) -> Seq<CommandLine>
    decreases n,
{
    if n <= 0 {
        Seq::empty()
    } else {
        requests_upto(plan, fates, n - 1) + tool_requests(plan[n - 1], fates[n - 1])
    }
}

impl RunState {
    /// The commands that were asked for on account of the current tool.
    pub open spec fn asked(self) -> Seq<CommandLine> {
        match self.stage {
            Stage::Checking => seq![check_line(self.current().install_method)->0],
            Stage::Installing => (match check_line(self.current().install_method) {
                Some(line) => seq![line],
                None => Seq::empty(),
            }) + seq![install_line(self.current().install_method)],
            _ => Seq::empty(),
        }
    }

    /// Every command that a run in this state has asked for, from its
    /// beginning, in the order in which it asked.
    pub open spec fn requested(self) -> Seq<CommandLine> {
        seq![prepare_line(self.has_homebrew)] + requests_upto(
            self.plan,
            self.fates,
            self.position(),
        ) + self.asked()
    }
}

/// The commands asked for on account of the first `n` tools depend on what
/// became of those tools and of no others.
pub proof fn lemma_requests_of_prefix(plan: Seq<App>, a: Seq<Fate>, b: Seq<Fate>, n: int)
    requires
        n <= a.len(),
        n <= b.len(),
        forall|k: int| 0 <= k < n ==> a[k] == b[k],
    ensures
        requests_upto(plan, a, n) == requests_upto(plan, b, n),
    decreases n,
{
    if n > 0 {
        lemma_requests_of_prefix(plan, a, b, n - 1);
    }
}

/// Each step adds the command it asks for, if it asks for one, at the end
/// of the record of commands: that record holds every command that the
/// run has had run.
pub proof fn lemma_step_extends_requests(s: RunState, report: Report, now_ms: u64)
    requires
        s.wf(),
        s.stage != Stage::Finished,
    ensures
        s.next(report, now_ms).requested() == s.requested() + (match s.next(
            report,
            now_ms,
        ).pending() {
            Some(line) => seq![line],
            None => Seq::empty(),
        }),
{
    let t = s.next(report, now_ms);
    let first = seq![prepare_line(s.has_homebrew)];
    let before = requests_upto(s.plan, s.fates, s.position());
    let asks = match t.pending() {
        Some(line) => seq![line],
        None => Seq::<CommandLine>::empty(),
    };
    lemma_step_extends_transcript(s, report, now_ms);
    match s.stage {
        Stage::Preparing => {
            assert(before =~= Seq::<CommandLine>::empty());
            assert(requests_upto(t.plan, t.fates, t.position()) =~= Seq::<CommandLine>::empty());
            assert(t.asked() =~= asks);
            assert(t.requested() =~= s.requested() + asks);
        },
        Stage::Checking => {
            if report.succeeded() {
                let done = s.with_fate(Fate::Skipped);
                lemma_requests_of_prefix(s.plan, s.fates, done.fates, s.position());
                assert(t.fates == done.fates);
                assert(done.fates[s.position()] == Fate::Skipped);
                assert(tool_requests(s.current(), Fate::Skipped) =~= s.asked());
                assert(requests_upto(t.plan, t.fates, t.position()) == before + s.asked());
                assert(t.asked() =~= asks);
                assert(t.requested() =~= s.requested() + asks);
            } else {
                assert(t.asked() =~= s.asked() + asks);
                assert(t.requested() =~= s.requested() + asks);
            }
        },
        Stage::Installing => {
            let fate = Fate::Ran { report, elapsed_ms: elapsed(s.started_ms, now_ms) };
            let done = s.with_fate(fate);
            lemma_requests_of_prefix(s.plan, s.fates, done.fates, s.position());
            assert(t.fates == done.fates);
            assert(done.fates[s.position()] == fate);
            assert(tool_requests(s.current(), fate) =~= s.asked());
            assert(requests_upto(t.plan, t.fates, t.position()) == before + s.asked());
            assert(t.asked() =~= asks);
            assert(t.requested() =~= s.requested() + asks);
        },
        Stage::Finished => {},
    }
}

/// The commands that a run asked for, step by step, since it was in
/// state `s`.
pub open spec fn asked_for(s: RunState, inputs: Seq<(Report, u64)>) -> Seq<CommandLine>
    decreases inputs.len(),
{
    if inputs.len() == 0 {
        Seq::empty()
    } else {
        asked_for(s, inputs.drop_last()) + (match after(s, inputs).pending() {
            Some(line) => seq![line],
            None => Seq::empty(),
        })
    }
}

/// Whatever comes back from the commands, the record of a run's commands
/// holds the preparing command and then what each step asked for.
pub proof fn lemma_every_request(has_homebrew: bool, plan: Seq<App>, inputs: Seq<(Report, u64)>)
    ensures
        after(RunState::initial(has_homebrew, plan), inputs).requested() == seq![
            prepare_line(has_homebrew),
        ] + asked_for(RunState::initial(has_homebrew, plan), inputs),
    decreases inputs.len(),
{
    let start = RunState::initial(has_homebrew, plan);
    let first = seq![prepare_line(has_homebrew)];
    if inputs.len() == 0 {
        assert(requests_upto(plan, start.fates, 0) =~= Seq::<CommandLine>::empty());
        assert(start.requested() =~= first + Seq::<CommandLine>::empty());
    } else {
        let earlier = inputs.drop_last();
        let before = after(start, earlier);
        lemma_every_request(has_homebrew, plan, earlier);
        lemma_every_run(has_homebrew, plan, earlier);
        let asks = match after(start, inputs).pending() {
            Some(line) => seq![line],
            None => Seq::<CommandLine>::empty(),
        };
        if before.stage != Stage::Finished {
            lemma_step_extends_requests(before, inputs.last().0, inputs.last().1);
        } else {
            assert(before.requested() + asks =~= before.requested());
        }
        assert(first + asked_for(start, earlier) + asks =~= first + asked_for(start, inputs));
    }
}

impl RunState {
    /// The number of commands that a run in this state asks for at most
    /// before it is over.
    pub open spec fn commands_left(self) -> int {
        match self.stage {
            Stage::Preparing => 1 + 2 * (self.plan.len() as int),
            Stage::Checking => 2 * (self.plan.len() - self.position()),
            Stage::Installing => 2 * (self.plan.len() - self.position()) - 1,
            Stage::Finished => 0,
        }
    }
}

/// Every step brings a run nearer to its end, whatever came back from the
/// command: no failure of a tool holds the run up.
pub proof fn lemma_step_nears_the_end(s: RunState, report: Report, now_ms: u64)
    requires
        s.wf(),
        s.stage != Stage::Finished,
    ensures
        0 <= s.next(report, now_ms).commands_left() < s.commands_left(),
{
}

/// Every run comes to its end. Once as many commands have ended as a run
/// can ask for, one to make the package manager ready and two for each
/// tool, the run is over, whatever came back from them.
pub proof fn lemma_run_ends(has_homebrew: bool, plan: Seq<App>, inputs: Seq<(Report, u64)>)
    ensures
        after(RunState::initial(has_homebrew, plan), inputs).commands_left() <= 1 + 2 * plan.len()
            - inputs.len() || after(RunState::initial(has_homebrew, plan), inputs).stage
            == Stage::Finished,
        inputs.len() >= 1 + 2 * plan.len() ==> after(
            RunState::initial(has_homebrew, plan),
            inputs,
        ).stage == Stage::Finished,
    decreases inputs.len(),
{
    let start = RunState::initial(has_homebrew, plan);
    if inputs.len() > 0 {
        let earlier = inputs.drop_last();
        lemma_run_ends(has_homebrew, plan, earlier);
        lemma_every_run(has_homebrew, plan, earlier);
        lemma_every_run(has_homebrew, plan, inputs);
        if after(start, earlier).stage != Stage::Finished {
            lemma_step_nears_the_end(after(start, earlier), inputs.last().0, inputs.last().1);
        }
    }
    let end = after(start, inputs);
    lemma_every_run(has_homebrew, plan, inputs);
    if end.stage != Stage::Finished {
        assert(end.commands_left() > 0);
    }
}

/// For a tool that is found installed already, one command is asked for
/// and no more: the one that asks whether it is installed. The command
/// that would install it is never run. The step that learns that the tool
/// is installed passes it over and turns to the next tool.
pub proof fn lemma_skipped_tool_not_installed(s: RunState, k: int)
    requires
        s.wf(),
        0 <= k < s.fates.len(),
        s.fates[k] is Skipped,
    ensures
        check_line(s.plan[k].install_method) is Some,
        tool_requests(s.plan[k], s.fates[k]) == seq![check_line(s.plan[k].install_method)->0],
        check_line(s.plan[k].install_method)->0 != install_line(s.plan[k].install_method),
{
    let method = s.plan[k].install_method;
    assert(checkable(method));
    assert(tool_requests(s.plan[k], s.fates[k]) =~= seq![check_line(method)->0]);
    assert(check_line(method)->0.args[0] == "list"@);
    assert(install_line(method).args[0] == "install"@);
    reveal_strlit("list");
    reveal_strlit("install");
    assert("list"@.len() != "install"@.len());
}

/// The step that learns that the current tool is installed already enters
/// it as passed over and does not ask for it to be installed: the command
/// it asks for, if any, belongs to the next tool.
pub proof fn lemma_skip_step(s: RunState, report: Report, now_ms: u64)
    requires
        s.wf(),
        s.stage == Stage::Checking,
        report.succeeded(),
    ensures
        s.next(report, now_ms).fates == s.fates.push(Fate::Skipped),
        s.next(report, now_ms).position() == s.position() + 1,
        s.next(report, now_ms).stage != Stage::Finished ==> s.next(report, now_ms).current()
            == s.plan[s.position() + 1],
        s.step_events(report, now_ms)[0] == (Event::PackageSkipped {
            name: s.current().name@,
            reason: skip_reason(),
        }),
{
}

/// Begins the installation of the given tools on the machine. The answer
/// holds the machine that the run is, the events that open it, and the
/// command that makes the package manager ready; the run goes on by
/// telling the machine how each command ended.
pub fn run_install(system: &crate::system::SystemInfo, apps: &Vec<App>) -> (r: (InstallRun, Step))
    ensures
        r.0.wf(),
        r.0@ == RunState::initial(
            system.package_managers.homebrew.is_some(),
            execution_order(apps@),
        ),
        events(r.1.messages@) == opening(system.package_managers.homebrew.is_some()),
        request_line(r.1.request) == Some(prepare_line(system.package_managers.homebrew.is_some())),
{
    InstallRun::start(system.has_homebrew(), apps)
}

} // verus!
