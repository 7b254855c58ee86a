//! The interactive session: what a key does in each phase of the wizard,
//! how the events of a running installation are taken in, and how the
//! session ends an installation or breaks it off.
//!
//! The session never waits and never draws. Whoever drives it polls for
//! keys, passes on the events that the install worker sent, and asks the
//! worker whether it is done; the session says what changes.

use vstd::prelude::*;
use vstd::string::*;
use crate::catalog;
use crate::catalog::{apps_by_category, catalog_entries, Category};
use crate::effects::{Spinner, TypeWriter, TypeWriterView};
use crate::executor::{output_lines, Event, InstallMessage};
use crate::run::{
    banner, block, blocks, closing, concluded, lemma_tally_counts, opening, prepared_events,
    started, tally, work, Fate, RunState, Stage,
};
use crate::system::SystemInfo;
use crate::text::{count_text, decimal, opt_text, pop_char, push_char, texts};
use crate::wizard::{
    step_index, toggled, wrapped_step, MultiplexerChoice, WizardPhase, WizardState, WizardView,
};

verus! {

broadcast use vstd::string::group_string_axioms;

/// A key as the session knows it.
#[derive(Debug, Clone, Copy, PartialEq, Eq, Structural)]
pub enum Key {
    Tab,
    BackTab,
    Up,
    Down,
    Left,
    Right,
    Enter,
    Esc,
    Backspace,
    Char(char),
    /// Any key that the session has no use for
    Other,
}

/// What is left for the caller to do after a key.
#[derive(Debug, Clone, Copy, PartialEq, Eq, Structural)]
pub enum Effect {
    Nothing,
    /// Start the install worker on the selected tools.
    StartInstall,
    /// Let go of the install worker without waiting for it.
    DetachWorker,
}

/// The lines of the intro sequence.
pub open spec fn boot_lines() -> Seq<Seq<char>> {
    seq![
        "BIOS CHECK... "@,
        "NEURAL INTERFACE ONLINE... "@,
        "SCANNING REALITY MATRIX... "@,
        "QUANTUM ENTANGLEMENT STABLE... "@,
        "CONSCIOUSNESS UPLOAD READY... "@,
        "READY."@,
    ]
}

/// The intro sequence: lines that are typed out one after the other.
#[derive(Debug, Clone)]
pub struct BootSequence {
    /// The position of the line that is being typed
    pub stage: usize,
    /// Each line, and whether it is typed out
    pub messages: Vec<(&'static str, bool)>,
    pub current_typewriter: Option<TypeWriter>,
    pub complete: bool,
}

/// An intro sequence as a value of the specification.
pub struct BootView {
    pub stage: usize,
    pub lines: Seq<(Seq<char>, bool)>,
    pub typewriter: Option<TypeWriterView>,
    pub complete: bool,
}

/// The typewriter of an optional value.
pub open spec fn typewriter_view(t: Option<TypeWriter>) -> Option<TypeWriterView> {
    match t {
        Some(tw) => Some(tw@),
        None => None,
    }
}

impl View for BootSequence {
    type V = BootView;

    open spec fn view(&self) -> BootView {
        BootView {
            stage: self.stage,
            lines: self.messages@.map_values(|m: (&'static str, bool)| (m.0@, m.1)),
            typewriter: typewriter_view(self.current_typewriter),
            complete: self.complete,
        }
    }
}

impl BootView {
    /// While a line is being typed, it is one of the lines.
    pub open spec fn wf(self) -> bool {
        !self.complete && self.typewriter is Some ==> self.stage < self.lines.len()
    }

    /// The sequence as it begins: no line is typed out, and the first is
    /// being typed.
    pub open spec fn initial() -> BootView {
        BootView {
            stage: 0,
            lines: boot_lines().map_values(|l: Seq<char>| (l, false)),
            typewriter: Some(TypeWriterView::fresh(boot_lines()[0])),
            complete: false,
        }
    }

    /// The sequence one tick later. The line that is being typed goes on;
    /// once it is typed out it is marked so, and the next line begins, or
    /// the sequence is complete.
    pub open spec fn ticked(self) -> BootView {
        if self.complete {
            self
        } else {
            match self.typewriter {
                None => self,
                Some(tw) => {
                    let typed = tw.ticked();
                    if typed.complete {
                        let lines = self.lines.update(
                            self.stage as int,
                            (self.lines[self.stage as int].0, true),
                        );
                        let stage = (self.stage + 1) as usize;
                        if stage < lines.len() {
                            BootView {
                                stage,
                                lines,
                                typewriter: Some(TypeWriterView::fresh(lines[stage as int].0)),
                                complete: false,
                            }
                        } else {
                            BootView { stage, lines, typewriter: None, complete: true }
                        }
                    } else {
                        BootView { typewriter: Some(typed), ..self }
                    }
                },
            }
        }
    }

    /// The sequence with every line typed out at once.
    pub open spec fn skipped(self) -> BootView {
        BootView {
            stage: self.lines.len() as usize,
            lines: self.lines.map_values(|l: (Seq<char>, bool)| (l.0, true)),
            typewriter: None,
            complete: true,
        }
    }
}

impl Default for BootSequence {
    fn default() -> (r: Self)
        ensures
            r@ == BootView::initial(),
            r@.wf(),
    {
        Self::new()
    }
}

impl BootSequence {
    pub fn new() -> (r: Self)
        ensures
            r@ == BootView::initial(),
            r@.wf(),
    {
        let mut messages: Vec<(&'static str, bool)> = Vec::new();
        messages.push(("BIOS CHECK... ", false));
        messages.push(("NEURAL INTERFACE ONLINE... ", false));
        messages.push(("SCANNING REALITY MATRIX... ", false));
        messages.push(("QUANTUM ENTANGLEMENT STABLE... ", false));
        messages.push(("CONSCIOUSNESS UPLOAD READY... ", false));
        messages.push(("READY.", false));
        let current_typewriter = Some(TypeWriter::new(messages[0].0));
        let r = Self { stage: 0, messages, current_typewriter, complete: false };
        assert(r@.lines =~= BootView::initial().lines);
        r
    }

    pub fn tick(&mut self)
        requires
            old(self)@.wf(),
        ensures
            final(self)@ == old(self)@.ticked(),
            final(self)@.wf(),
    {
        if self.complete {
            return ;
        }
        let mut typed_out = false;
        match &mut self.current_typewriter {
            Some(tw) => {
                tw.tick();
                typed_out = tw.complete;
            },
            None => {},
        }
        if typed_out {
            let line = self.messages[self.stage].0;
            self.messages.set(self.stage, (line, true));
            assert(self.stage < self.messages.len());
            self.stage += 1;
            if self.stage < self.messages.len() {
                self.current_typewriter = Some(TypeWriter::new(self.messages[self.stage].0));
            } else {
                self.current_typewriter = None;
                self.complete = true;
            }
            assert(self@.lines =~= old(self)@.ticked().lines);
        }
    }

    pub fn skip(&mut self)
        ensures
            final(self)@ == old(self)@.skipped(),
            final(self)@.wf(),
    {
        let mut i: usize = 0;
        while i < self.messages.len()
            invariant
                i <= self.messages.len(),
                self.messages.len() == old(self).messages.len(),
                forall|j: int|
                    0 <= j < i ==> #[trigger] self.messages@[j] == (old(self).messages@[j].0, true),
                forall|j: int|
                    i <= j < self.messages.len() ==> #[trigger] self.messages@[j] == old(
                        self,
                    ).messages@[j],
            decreases self.messages.len() - i,
        {
            let line = self.messages[i].0;
            self.messages.set(i, (line, true));
            i += 1;
        }
        self.stage = self.messages.len();
        self.current_typewriter = None;
        self.complete = true;
        assert(self@.lines =~= old(self)@.skipped().lines);
    }
}

/// The number of fields of the identity form.
pub const IDENTITY_FIELDS: usize = 4;

/// The number of options of the shell form.
pub const SHELL_OPTIONS: usize = 4;

/// One less, but never less than zero.
pub open spec fn decremented(n: usize) -> usize {
    if n > 0 {
        (n - 1) as usize
    } else {
        0
    }
}

/// One more, as far as the number type goes.
pub open spec fn incremented(n: usize) -> usize {
    if n < usize::MAX {
        (n + 1) as usize
    } else {
        n
    }
}

/// One more, but no more than `last`.
pub open spec fn stepped_to(n: usize, last: usize) -> usize {
    if n < last {
        (n + 1) as usize
    } else {
        last
    }
}

fn decrement(n: usize) -> (r: usize)
    ensures
        r == decremented(n),
{
    if n > 0 {
        n - 1
    } else {
        0
    }
}

fn increment(n: usize) -> (r: usize)
    ensures
        r == incremented(n),
{
    if n < usize::MAX {
        n + 1
    } else {
        n
    }
}

fn step_to(n: usize, last: usize) -> (r: usize)
    ensures
        r == stepped_to(n, last),
{
    if n < last {
        n + 1
    } else {
        last
    }
}

/// The field after the given one, and the first after the last.
pub open spec fn next_field(field: usize) -> usize {
    ((field + 1) % 4) as usize
}

/// The field before the given one, and the last before the first.
pub open spec fn prev_field(field: usize) -> usize {
    if field > 0 {
        (field - 1) as usize
    } else {
        3
    }
}

fn field_after(field: usize) -> (r: usize)
    ensures
        r == next_field(field),
{
    (field % IDENTITY_FIELDS + 1) % IDENTITY_FIELDS
}

fn field_before(field: usize) -> (r: usize)
    ensures
        r == prev_field(field),
{
    if field > 0 {
        field - 1
    } else {
        IDENTITY_FIELDS - 1
    }
}

/// The identity form with a character typed into the current field. The
/// last field takes no characters.
pub open spec fn typed(w: WizardView, c: char) -> WizardView {
    let id = w.identity;
    if w.input_field == 0 {
        WizardView { identity: crate::wizard::IdentityView { name: id.name.push(c), ..id }, ..w }
    } else if w.input_field == 1 {
        WizardView { identity: crate::wizard::IdentityView { email: id.email.push(c), ..id }, ..w }
    } else if w.input_field == 2 {
        WizardView {
            identity: crate::wizard::IdentityView {
                github_username: id.github_username.push(c),
                ..id
            },
            ..w
        }
    } else {
        w
    }
}

/// A text without its last character, if it has one.
pub open spec fn erased(text: Seq<char>) -> Seq<char> {
    if text.len() > 0 {
        text.drop_last()
    } else {
        text
    }
}

/// The identity form with the last character of the current field taken
/// off.
pub open spec fn backspaced(w: WizardView) -> WizardView {
    let id = w.identity;
    if w.input_field == 0 {
        WizardView { identity: crate::wizard::IdentityView { name: erased(id.name), ..id }, ..w }
    } else if w.input_field == 1 {
        WizardView { identity: crate::wizard::IdentityView { email: erased(id.email), ..id }, ..w }
    } else if w.input_field == 2 {
        WizardView {
            identity: crate::wizard::IdentityView {
                github_username: erased(id.github_username),
                ..id
            },
            ..w
        }
    } else {
        w
    }
}

/// What a key does in the identity phase. Tab and the arrows up and down
/// move between the four fields, round and round. Characters go into the
/// current field and backspace takes them out again. On the last field the
/// arrows left and right go through the kinds of set-up, and Enter goes on
/// to the next phase; on the others Enter moves to the next field. Escape
/// goes back.
pub open spec fn identity_key(w: WizardView, key: Key) -> WizardView {
    match key {
        Key::Tab => WizardView { input_field: next_field(w.input_field), ..w },
        Key::Down => WizardView { input_field: next_field(w.input_field), ..w },
        Key::BackTab => WizardView { input_field: prev_field(w.input_field), ..w },
        Key::Up => WizardView { input_field: prev_field(w.input_field), ..w },
        Key::Char(c) => typed(w, c),
        Key::Backspace => backspaced(w),
        Key::Left => if w.input_field == 3 {
            WizardView {
                identity: crate::wizard::IdentityView {
                    setup_type: w.identity.setup_type.spec_cycled(false),
                    ..w.identity
                },
                ..w
            }
        } else {
            w
        },
        Key::Right => if w.input_field == 3 {
            WizardView {
                identity: crate::wizard::IdentityView {
                    setup_type: w.identity.setup_type.spec_cycled(true),
                    ..w.identity
                },
                ..w
            }
        } else {
            w
        },
        Key::Enter => if w.input_field == 3 {
            w.advanced()
        } else {
            WizardView { input_field: next_field(w.input_field), ..w }
        },
        Key::Esc => w.gone_back(),
        Key::Other => w,
    }
}

fn erase(text: &mut String)
    ensures
        final(text)@ == erased(old(text)@),
{
    pop_char(text);
}

/// What a key does in the identity phase.
pub fn handle_identity_input(w: &mut WizardState, key: Key)
    requires
        old(w).wf(),
    ensures
        final(w).wf(),
        final(w)@ == identity_key(old(w)@, key),
{
    match key {
        Key::Tab | Key::Down => {
            w.input_field = field_after(w.input_field);
        },
        Key::BackTab | Key::Up => {
            w.input_field = field_before(w.input_field);
        },
        Key::Char(c) => {
            if w.input_field == 0 {
                push_char(&mut w.identity.name, c);
            } else if w.input_field == 1 {
                push_char(&mut w.identity.email, c);
            } else if w.input_field == 2 {
                push_char(&mut w.identity.github_username, c);
            }
        },
        Key::Backspace => {
            if w.input_field == 0 {
                erase(&mut w.identity.name);
            } else if w.input_field == 1 {
                erase(&mut w.identity.email);
            } else if w.input_field == 2 {
                erase(&mut w.identity.github_username);
            }
        },
        Key::Left => {
            if w.input_field == 3 {
                w.identity.setup_type = w.identity.setup_type.cycled(false);
            }
        },
        Key::Right => {
            if w.input_field == 3 {
                w.identity.setup_type = w.identity.setup_type.cycled(true);
            }
        },
        Key::Enter => {
            if w.input_field == 3 {
                w.advance();
            } else {
                w.input_field = field_after(w.input_field);
            }
        },
        Key::Esc => {
            w.go_back();
        },
        Key::Other => {},
    }
}

/// The multiplexer that a choice stands for, where to choose none is a
/// choice too.
pub open spec fn multiplexer_of(choice: Option<MultiplexerChoice>) -> MultiplexerChoice {
    match choice {
        Some(m) => m,
        None => MultiplexerChoice::NoMultiplexer,
    }
}

/// The choice that a multiplexer stands for.
pub open spec fn choice_of(m: MultiplexerChoice) -> Option<MultiplexerChoice> {
    if m == MultiplexerChoice::NoMultiplexer {
        None
    } else {
        Some(m)
    }
}

/// The shell form with the option under the cursor moved one step on,
/// forward or backward, round and round.
pub open spec fn option_cycled(w: WizardView, forward: bool) -> WizardView {
    let c = w.shell_config;
    if w.cursor_position == 0 {
        WizardView {
            shell_config: crate::wizard::ShellConfig { shell: c.shell.spec_cycled(forward), ..c },
            ..w
        }
    } else if w.cursor_position == 1 {
        WizardView {
            shell_config: crate::wizard::ShellConfig { prompt: c.prompt.spec_cycled(forward), ..c },
            ..w
        }
    } else if w.cursor_position == 2 {
        WizardView {
            shell_config: crate::wizard::ShellConfig {
                terminal: c.terminal.spec_cycled(forward),
                ..c
            },
            ..w
        }
    } else if w.cursor_position == 3 {
        WizardView {
            shell_config: crate::wizard::ShellConfig {
                multiplexer: choice_of(multiplexer_of(c.multiplexer).spec_cycled(forward)),
                ..c
            },
            ..w
        }
    } else {
        w
    }
}

/// Moves the option under the cursor one step on.
pub fn cycle_shell_option(w: &mut WizardState, forward: bool)
    requires
        old(w).wf(),
    ensures
        final(w).wf(),
        final(w)@ == option_cycled(old(w)@, forward),
{
    if w.cursor_position == 0 {
        w.shell_config.shell = w.shell_config.shell.cycled(forward);
    } else if w.cursor_position == 1 {
        w.shell_config.prompt = w.shell_config.prompt.cycled(forward);
    } else if w.cursor_position == 2 {
        w.shell_config.terminal = w.shell_config.terminal.cycled(forward);
    } else if w.cursor_position == 3 {
        let current = match w.shell_config.multiplexer {
            Some(m) => m,
            None => MultiplexerChoice::NoMultiplexer,
        };
        let next = current.cycled(forward);
        w.shell_config.multiplexer = if next == MultiplexerChoice::NoMultiplexer {
            None
        } else {
            Some(next)
        };
    }
}

/// The same key by another name: the letters that move like arrows.
pub open spec fn is_up(key: Key) -> bool {
    key == Key::Up || key == Key::Char('k')
}

pub open spec fn is_down(key: Key) -> bool {
    key == Key::Down || key == Key::Char('j')
}

pub open spec fn is_left(key: Key) -> bool {
    key == Key::Left || key == Key::Char('h')
}

pub open spec fn is_right(key: Key) -> bool {
    key == Key::Right || key == Key::Char('l')
}

fn key_is(key: Key, plain: Key, letter: char) -> (r: bool)
    ensures
        r == (key == plain || key == Key::Char(letter)),
{
    key == plain || match key {
        Key::Char(c) => c == letter,
        _ => false,
    }
}

/// The option after the given one, and the first after the last.
pub open spec fn next_option(row: usize) -> usize {
    ((row + 1) % (SHELL_OPTIONS as int)) as usize
}

/// The option before the given one, and the last before the first.
pub open spec fn prev_option(row: usize) -> usize {
    if row > 0 {
        (row - 1) as usize
    } else {
        (SHELL_OPTIONS - 1) as usize
    }
}

fn option_after(row: usize) -> (r: usize)
    ensures
        r == next_option(row),
        r < SHELL_OPTIONS,
{
    (row % SHELL_OPTIONS + 1) % SHELL_OPTIONS
}

fn option_before(row: usize) -> (r: usize)
    ensures
        r == prev_option(row),
{
    if row > 0 {
        row - 1
    } else {
        SHELL_OPTIONS - 1
    }
}

/// What a key does in the shell phase. Up and down move the cursor over
/// the four options, round and round: down from the last option goes to
/// the first, and up from the first goes to the last. Left and right move
/// the option under the cursor; Enter goes on and Escape goes back.
pub open spec fn shell_key(w: WizardView, key: Key) -> WizardView {
    if is_up(key) {
        WizardView { cursor_position: prev_option(w.cursor_position), ..w }
    } else if is_down(key) {
        WizardView { cursor_position: next_option(w.cursor_position), ..w }
    } else if is_left(key) {
        option_cycled(w, false)
    } else if is_right(key) {
        option_cycled(w, true)
    } else if key == Key::Enter {
        w.advanced()
    } else if key == Key::Esc {
        w.gone_back()
    } else {
        w
    }
}

/// The cursor of the shell form goes round. From any of the four options,
/// down and then up, or up and then down, leads back to the same option;
/// down from the last option leads to the first and up from the first to
/// the last; and neither key changes anything but the cursor.
pub proof fn lemma_shell_cursor_goes_round(w: WizardView)
    ensures
        shell_key(w, Key::Down).cursor_position < SHELL_OPTIONS,
        w.cursor_position == SHELL_OPTIONS - 1 ==> shell_key(w, Key::Down).cursor_position == 0,
        w.cursor_position == 0 ==> shell_key(w, Key::Up).cursor_position == SHELL_OPTIONS - 1,
        w.cursor_position < SHELL_OPTIONS ==> shell_key(shell_key(w, Key::Down), Key::Up) == w
            && shell_key(shell_key(w, Key::Up), Key::Down) == w,
        shell_key(w, Key::Down) == (WizardView {
            cursor_position: shell_key(w, Key::Down).cursor_position,
            ..w
        }),
        shell_key(w, Key::Up) == (WizardView {
            cursor_position: shell_key(w, Key::Up).cursor_position,
            ..w
        }),
{
}

/// What a key does in the shell phase.
pub fn handle_shell_input(w: &mut WizardState, key: Key)
    requires
        old(w).wf(),
    ensures
        final(w).wf(),
        final(w)@ == shell_key(old(w)@, key),
{
    if key_is(key, Key::Up, 'k') {
        w.cursor_position = option_before(w.cursor_position);
    } else if key_is(key, Key::Down, 'j') {
        w.cursor_position = option_after(w.cursor_position);
    } else if key_is(key, Key::Left, 'h') {
        cycle_shell_option(w, false);
    } else if key_is(key, Key::Right, 'l') {
        cycle_shell_option(w, true);
    } else if key == Key::Enter {
        w.advance();
    } else if key == Key::Esc {
        w.go_back();
    }
}

/// The categories that the development tools phase goes through.
pub open spec fn devtools_categories() -> Seq<Category> {
    seq![
        Category::Language,
        Category::Editor,
        Category::Git,
        Category::Container,
        Category::Cloud,
    ]
}

/// The categories that the development tools phase goes through.
pub fn dev_categories() -> (r: &'static [Category])
    ensures
        r@ == devtools_categories(),
{
    let r: &'static [Category] = &[
        Category::Language,
        Category::Editor,
        Category::Git,
        Category::Container,
        Category::Cloud,
    ];
    assert(r@ =~= devtools_categories());
    r
}

/// The category that is shown at the given scroll position: the
/// categories come round again after the last.
pub open spec fn shown_category(categories: Seq<Category>, scroll: usize) -> Category {
    categories[(scroll as int) % (categories.len() as int)]
}

/// The tools that are listed at the given scroll position: those of the
/// category shown, in the catalog's order.
pub open spec fn shown(categories: Seq<Category>, scroll: usize) -> Seq<catalog::App> {
    catalog_entries().filter(|app: catalog::App| app.category == shown_category(categories, scroll))
}

/// The identifiers of the given tools.
pub open spec fn ids_of(apps: Seq<catalog::App>) -> Set<Seq<char>> {
    apps.map_values(|app: catalog::App| app.id@).to_set()
}

/// The last row of a list of the given length, and the first where the
/// list is empty.
pub open spec fn last_row(len: nat) -> usize {
    if len > 0 {
        (len - 1) as usize
    } else {
        0
    }
}

/// The form with the tool under the cursor toggled, if there is a tool
/// under the cursor.
pub open spec fn row_toggled(w: WizardView, list: Seq<catalog::App>) -> WizardView {
    if w.cursor_position < list.len() {
        w.with_toggled(list[w.cursor_position as int].id@)
    } else {
        w
    }
}

/// What a key does in the development tools phase. Up and down move the
/// cursor over the tools listed and stop at the ends; Tab shows the next of
/// the five categories; the space bar toggles the tool under the cursor;
/// `a` selects all tools listed and `n` none of them; Enter goes on and
/// Escape goes back.
pub open spec fn devtools_key(w: WizardView, key: Key) -> WizardView {
    let list = shown(devtools_categories(), w.scroll_offset);
    if is_up(key) {
        WizardView { cursor_position: decremented(w.cursor_position), ..w }
    } else if is_down(key) {
        WizardView { cursor_position: stepped_to(w.cursor_position, last_row(list.len())), ..w }
    } else if key == Key::Tab {
        WizardView {
            scroll_offset: ((w.scroll_offset + 1) % 5) as usize,
            cursor_position: 0,
            ..w
        }
    } else if key == Key::Char(' ') {
        row_toggled(w, list)
    } else if key == Key::Enter {
        w.advanced()
    } else if key == Key::Esc {
        w.gone_back()
    } else if key == Key::Char('a') {
        WizardView { selected_apps: w.selected_apps.union(ids_of(list)), ..w }
    } else if key == Key::Char('n') {
        WizardView { selected_apps: w.selected_apps.difference(ids_of(list)), ..w }
    } else {
        w
    }
}

/// What a key does in the applications phase. Up and down move the cursor
/// over the tools listed and stop at the ends; Tab shows the next category
/// and the back tab the one before, round and round; the space bar toggles
/// the tool under the cursor; `d` shows or hides the details; Enter goes on
/// and Escape goes back.
pub open spec fn apps_key(w: WizardView, key: Key) -> WizardView {
    let list = shown(Category::spec_all(), w.scroll_offset);
    if is_up(key) {
        WizardView { cursor_position: decremented(w.cursor_position), ..w }
    } else if is_down(key) {
        WizardView { cursor_position: stepped_to(w.cursor_position, last_row(list.len())), ..w }
    } else if key == Key::Tab {
        WizardView {
            scroll_offset: ((w.scroll_offset + 1) % 16) as usize,
            cursor_position: 0,
            ..w
        }
    } else if key == Key::BackTab {
        WizardView {
            scroll_offset: if w.scroll_offset > 0 {
                (w.scroll_offset - 1) as usize
            } else {
                15
            },
            cursor_position: 0,
            ..w
        }
    } else if key == Key::Char(' ') {
        row_toggled(w, list)
    } else if key == Key::Char('d') {
        WizardView { show_details: !w.show_details, ..w }
    } else if key == Key::Enter {
        w.advanced()
    } else if key == Key::Esc {
        w.gone_back()
    } else {
        w
    }
}

/// The tools that are listed at the given scroll position.
pub fn current_list(categories: &[Category], scroll: usize) -> (r: Vec<catalog::App>)
    requires
        categories@.len() > 0,
    ensures
        r@ == shown(categories@, scroll),
{
    let category = categories[scroll % categories.len()];
    let r = apps_by_category(&category);
    assert(r@ =~= shown(categories@, scroll)) by {
        let p = |app: catalog::App| app.category == category;
        let q = |app: catalog::App| app.category == shown_category(categories@, scroll);
        assert(p =~= q);
    }
    r
}

fn toggle_row(w: &mut WizardState, list: &Vec<catalog::App>)
    requires
        old(w).wf(),
    ensures
        final(w).wf(),
        final(w)@ == row_toggled(old(w)@, list@),
{
    if w.cursor_position < list.len() {
        w.toggle_app(list[w.cursor_position].id);
    }
}

/// Selects every tool of the list.
pub fn select_all(w: &mut WizardState, list: &Vec<catalog::App>)
    requires
        old(w).wf(),
    ensures
        final(w).wf(),
        final(w)@ == (WizardView {
            selected_apps: old(w)@.selected_apps.union(ids_of(list@)),
            ..old(w)@
        }),
{
    let ghost ids = list@.map_values(|app: catalog::App| app.id@);
    let mut i: usize = 0;
    assert(ids.take(0).to_set() =~= Set::<Seq<char>>::empty());
    assert(w@.selected_apps.union(Set::<Seq<char>>::empty()) =~= w@.selected_apps);
    while i < list.len()
        invariant
            i <= list.len(),
            ids == list@.map_values(|app: catalog::App| app.id@),
            w.wf(),
            w@ == (WizardView {
                selected_apps: old(w)@.selected_apps.union(ids.take(i as int).to_set()),
                ..old(w)@
            }),
        decreases list.len() - i,
    {
        let id = String::from_str(list[i].id);
        proof {
            assert(ids.take(i as int + 1) =~= ids.take(i as int).push(id@));
            ids.take(i as int).lemma_push_to_set_commute(id@);
            assert(old(w)@.selected_apps.union(ids.take(i as int).to_set()).insert(id@) =~= old(
                w,
            )@.selected_apps.union(ids.take(i as int + 1).to_set()));
        }
        w.selected_apps.insert(id);
        i += 1;
    }
    assert(ids.take(list.len() as int) =~= ids);
}

/// Takes every tool of the list out of the selection.
pub fn deselect_all(w: &mut WizardState, list: &Vec<catalog::App>)
    requires
        old(w).wf(),
    ensures
        final(w).wf(),
        final(w)@ == (WizardView {
            selected_apps: old(w)@.selected_apps.difference(ids_of(list@)),
            ..old(w)@
        }),
{
    let ghost ids = list@.map_values(|app: catalog::App| app.id@);
    let mut i: usize = 0;
    assert(ids.take(0).to_set() =~= Set::<Seq<char>>::empty());
    assert(w@.selected_apps.difference(Set::<Seq<char>>::empty()) =~= w@.selected_apps);
    while i < list.len()
        invariant
            i <= list.len(),
            ids == list@.map_values(|app: catalog::App| app.id@),
            w.wf(),
            w@ == (WizardView {
                selected_apps: old(w)@.selected_apps.difference(ids.take(i as int).to_set()),
                ..old(w)@
            }),
        decreases list.len() - i,
    {
        let id = list[i].id;
        proof {
            assert(ids.take(i as int + 1) =~= ids.take(i as int).push(id@));
            ids.take(i as int).lemma_push_to_set_commute(id@);
            assert(old(w)@.selected_apps.difference(ids.take(i as int).to_set()).remove(id@)
                =~= old(w)@.selected_apps.difference(ids.take(i as int + 1).to_set()));
        }
        w.selected_apps.remove(id);
        i += 1;
    }
    assert(ids.take(list.len() as int) =~= ids);
}

fn last_of(len: usize) -> (r: usize)
    ensures
        r == last_row(len as nat),
{
    if len > 0 {
        len - 1
    } else {
        0
    }
}

/// What a key does in the development tools phase.
pub fn handle_devtools_input(w: &mut WizardState, key: Key)
    requires
        old(w).wf(),
    ensures
        final(w).wf(),
        final(w)@ == devtools_key(old(w)@, key),
{
    if key_is(key, Key::Up, 'k') {
        w.cursor_position = decrement(w.cursor_position);
    } else if key_is(key, Key::Down, 'j') {
        let list = current_list(dev_categories(), w.scroll_offset);
        w.cursor_position = step_to(w.cursor_position, last_of(list.len()));
    } else if key == Key::Tab {
        w.scroll_offset = (w.scroll_offset % 5 + 1) % 5;
        w.cursor_position = 0;
    } else if key == Key::Char(' ') {
        let list = current_list(dev_categories(), w.scroll_offset);
        toggle_row(w, &list);
    } else if key == Key::Enter {
        w.advance();
    } else if key == Key::Esc {
        w.go_back();
    } else if key == Key::Char('a') {
        let list = current_list(dev_categories(), w.scroll_offset);
        select_all(w, &list);
    } else if key == Key::Char('n') {
        let list = current_list(dev_categories(), w.scroll_offset);
        deselect_all(w, &list);
    }
}

/// What a key does in the applications phase.
pub fn handle_apps_input(w: &mut WizardState, key: Key)
    requires
        old(w).wf(),
    ensures
        final(w).wf(),
        final(w)@ == apps_key(old(w)@, key),
{
    if key_is(key, Key::Up, 'k') {
        w.cursor_position = decrement(w.cursor_position);
    } else if key_is(key, Key::Down, 'j') {
        let list = current_list(Category::all(), w.scroll_offset);
        w.cursor_position = step_to(w.cursor_position, last_of(list.len()));
    } else if key == Key::Tab {
        w.scroll_offset = (w.scroll_offset % 16 + 1) % 16;
        w.cursor_position = 0;
    } else if key == Key::BackTab {
        w.scroll_offset = if w.scroll_offset > 0 {
            w.scroll_offset - 1
        } else {
            15
        };
        w.cursor_position = 0;
    } else if key == Key::Char(' ') {
        let list = current_list(Category::all(), w.scroll_offset);
        toggle_row(w, &list);
    } else if key == Key::Char('d') {
        w.show_details = !w.show_details;
    } else if key == Key::Enter {
        w.advance();
    } else if key == Key::Esc {
        w.go_back();
    }
}

/// The state of an interactive session.
#[derive(Debug, Clone)]
pub struct App {
    pub wizard: WizardState,
    pub system: SystemInfo,
    pub spinner: Spinner,
    pub typewriter: Option<TypeWriter>,
    pub boot_sequence: BootSequence,
    pub should_quit: bool,
    pub install_log: Vec<String>,
    pub install_total: usize,
    pub install_completed: usize,
    pub install_succeeded: usize,
    pub install_failed: usize,
    pub install_skipped: usize,
    pub current_package: Option<String>,
    pub is_installing: bool,
    pub error_message: Option<String>,
}

/// A session as a value of the specification.
pub struct SessionView {
    pub wizard: WizardView,
    pub system: SystemInfo,
    pub spinner_frames: Seq<Seq<char>>,
    pub spinner_position: int,
    pub typewriter: Option<TypeWriterView>,
    pub boot: BootView,
    pub should_quit: bool,
    pub install_log: Seq<Seq<char>>,
    pub install_total: usize,
    pub install_completed: usize,
    pub install_succeeded: usize,
    pub install_failed: usize,
    pub install_skipped: usize,
    pub current_package: Option<Seq<char>>,
    pub is_installing: bool,
    pub error_message: Option<Seq<char>>,
}

impl View for App {
    type V = SessionView;

    open spec fn view(&self) -> SessionView {
        SessionView {
            wizard: self.wizard@,
            system: self.system,
            spinner_frames: self.spinner.frames(),
            spinner_position: self.spinner.position(),
            typewriter: typewriter_view(self.typewriter),
            boot: self.boot_sequence@,
            should_quit: self.should_quit,
            install_log: texts(self.install_log@),
            install_total: self.install_total,
            install_completed: self.install_completed,
            install_succeeded: self.install_succeeded,
            install_failed: self.install_failed,
            install_skipped: self.install_skipped,
            current_package: opt_text(self.current_package),
            is_installing: self.is_installing,
            error_message: opt_text(self.error_message),
        }
    }
}

/// The tools of the catalog that a selection holds, in the catalog's
/// order.
pub open spec fn chosen(selected: Set<Seq<char>>) -> Seq<catalog::App> {
    catalog_entries().filter(|app: catalog::App| selected.contains(app.id@))
}

/// The line by which an event of the installation goes into the log that
/// the session shows, if it goes there. `seconds` is the time that the
/// tool took, as it is to be shown.
pub open spec fn log_line(event: Event, seconds: Seq<char>) -> Option<Seq<char>> {
    match event {
        Event::PhaseStart { phase } => Some("[PHASE] ═══ "@ + phase + " ═══"@),
        Event::PackageStart { name, method } => Some(
            "[INSTALL] "@ + name + " ("@ + method + ")"@,
        ),
        Event::PackageSuccess { name, duration_ms } => Some(
            "[OK] "@ + name + " ("@ + seconds + "s)"@,
        ),
        Event::PackageSkipped { name, reason } => Some("[SKIP] "@ + name + " — "@ + reason),
        Event::PackageFailed { name, error } => Some("[FAIL] "@ + name + " — "@ + error),
        Event::Log(line) => Some(line),
        Event::Progress { .. } => None,
        Event::Done { succeeded, failed, skipped } => Some(
            "[DONE] "@ + decimal(succeeded as int) + " succeeded, "@ + decimal(failed as int)
                + " failed, "@ + decimal(skipped as int) + " skipped"@,
        ),
        Event::FatalError(error) => Some("[FATAL] "@ + error),
    }
}

/// A log with one more line, if there is one.
pub open spec fn logged(log: Seq<Seq<char>>, line: Option<Seq<char>>) -> Seq<Seq<char>> {
    match line {
        Some(l) => log.push(l),
        None => log,
    }
}

impl SessionView {
    /// What holds of every session: of its wizard nothing in particular,
    /// and its animations are well formed.
    pub open spec fn wf(self) -> bool {
        &&& self.boot.wf()
        &&& 0 <= self.spinner_position < self.spinner_frames.len()
    }

    /// An installation is under way and the wizard shows it.
    pub open spec fn installing(self) -> bool {
        self.is_installing && self.wizard.phase == WizardPhase::Install
    }

    /// The session after the installation was broken off: it installs no
    /// more, the log says so, and the wizard is at its last phase.
    pub open spec fn aborted(self) -> SessionView {
        SessionView {
            is_installing: false,
            install_log: self.install_log.push("[ABORT] Installation interrupted by user"@),
            wizard: WizardView { phase: WizardPhase::Complete, ..self.wizard },
            ..self
        }
    }

    /// The session with an installation begun: the log begins anew, and
    /// as many tools are to be installed as are selected.
    pub open spec fn install_begun(self) -> SessionView {
        SessionView {
            is_installing: true,
            install_completed: 0,
            install_log: seq!["[INIT] Starting installation sequence..."@],
            install_total: chosen(self.wizard.selected_apps).len() as usize,
            ..self
        }
    }

    /// What a key does in the review phase. Enter and `y` begin the
    /// installation and go on to the phase that shows it; Escape and `n` go
    /// back; up and down scroll.
    pub open spec fn review_key(self, key: Key) -> SessionView {
        if key == Key::Enter || key == Key::Char('y') {
            SessionView { wizard: self.wizard.advanced(), ..self.install_begun() }
        } else if key == Key::Esc || key == Key::Char('n') {
            SessionView { wizard: self.wizard.gone_back(), ..self }
        } else if is_up(key) {
            SessionView {
                wizard: WizardView {
                    scroll_offset: decremented(self.wizard.scroll_offset),
                    ..self.wizard
                },
                ..self
            }
        } else if is_down(key) {
            SessionView {
                wizard: WizardView {
                    scroll_offset: incremented(self.wizard.scroll_offset),
                    ..self.wizard
                },
                ..self
            }
        } else {
            self
        }
    }

    /// The key that breaks off.
    pub open spec fn is_interrupt(key: Key, ctrl: bool) -> bool {
        ctrl && key == Key::Char('c')
    }

    /// The session after a key. The interrupt key breaks off an
    /// installation that is under way, and quits otherwise. Every other
    /// key goes to the phase that the wizard is in: in the intro any key
    /// ends the intro, while the installation is shown no key does
    /// anything, and at the end Enter and `q` quit.
    pub open spec fn after_key(self, key: Key, ctrl: bool) -> SessionView {
        if Self::is_interrupt(key, ctrl) {
            if self.installing() {
                self.aborted()
            } else {
                SessionView { should_quit: true, ..self }
            }
        } else {
            match self.wizard.phase {
                WizardPhase::Boot => SessionView { boot: self.boot.skipped(), ..self },
                WizardPhase::Identity => SessionView {
                    wizard: identity_key(self.wizard, key),
                    ..self
                },
                WizardPhase::Shell => SessionView { wizard: shell_key(self.wizard, key), ..self },
                WizardPhase::DevTools => SessionView {
                    wizard: devtools_key(self.wizard, key),
                    ..self
                },
                WizardPhase::Apps => SessionView { wizard: apps_key(self.wizard, key), ..self },
                WizardPhase::Review => self.review_key(key),
                WizardPhase::Install => self,
                WizardPhase::Complete => if key == Key::Enter || key == Key::Char('q') {
                    SessionView { should_quit: true, ..self }
                } else {
                    self
                },
            }
        }
    }

    /// What is left for the caller to do after a key: to let go of the
    /// worker where an installation was broken off, and to start it where
    /// one was begun.
    pub open spec fn key_effect(self, key: Key, ctrl: bool) -> Effect {
        if Self::is_interrupt(key, ctrl) {
            if self.installing() {
                Effect::DetachWorker
            } else {
                Effect::Nothing
            }
        } else if self.wizard.phase == WizardPhase::Review && (key == Key::Enter || key
            == Key::Char('y')) {
            Effect::StartInstall
        } else {
            Effect::Nothing
        }
    }

    /// The session after an event of the installation came in. While no
    /// installation is shown, events change nothing. Otherwise the event
    /// goes into the log and into the counts.
    pub open spec fn after_message(self, event: Event, seconds: Seq<char>) -> SessionView {
        if !self.installing() {
            self
        } else {
            let noted = SessionView {
                install_log: logged(self.install_log, log_line(event, seconds)),
                ..self
            };
            match event {
                Event::PackageStart { name, method } => SessionView {
                    current_package: Some(name),
                    ..noted
                },
                Event::PackageSuccess { name, duration_ms } => SessionView {
                    current_package: None,
                    install_completed: incremented(self.install_completed),
                    install_succeeded: incremented(self.install_succeeded),
                    ..noted
                },
                Event::PackageSkipped { name, reason } => SessionView {
                    current_package: None,
                    install_completed: incremented(self.install_completed),
                    install_skipped: incremented(self.install_skipped),
                    ..noted
                },
                Event::PackageFailed { name, error } => SessionView {
                    current_package: None,
                    install_completed: incremented(self.install_completed),
                    install_failed: incremented(self.install_failed),
                    ..noted
                },
                Event::Progress { completed, total } => SessionView {
                    install_completed: completed as usize,
                    install_total: total as usize,
                    ..noted
                },
                Event::FatalError(error) => SessionView { error_message: Some(error), ..noted },
                _ => noted,
            }
        }
    }

    /// The session after the worker was found to be done. Where an
    /// installation is shown, it is over, the log says so, and the wizard
    /// goes on to its last phase. Otherwise nothing changes.
    pub open spec fn after_worker_done(self) -> SessionView {
        if self.installing() {
            SessionView {
                is_installing: false,
                install_log: self.install_log.push("[COMPLETE] Installation finished!"@),
                wizard: self.wizard.advanced(),
                ..self
            }
        } else {
            self
        }
    }

    /// The session one tick later: the animations go on, and in the intro
    /// the wizard goes on to the next phase once the intro is complete.
    pub open spec fn ticked(self) -> SessionView {
        let moved = SessionView {
            spinner_position: (self.spinner_position + 1) % (self.spinner_frames.len() as int),
            typewriter: match self.typewriter {
                Some(tw) => Some(tw.ticked()),
                None => None,
            },
            ..self
        };
        if self.wizard.phase == WizardPhase::Boot {
            let boot = self.boot.ticked();
            SessionView {
                boot,
                wizard: if boot.complete {
                    self.wizard.advanced()
                } else {
                    self.wizard
                },
                ..moved
            }
        } else {
            moved
        }
    }
}

/// The wizard never skips a phase. Whatever happens to a session, a key, a
/// tick, an event of the installation or the end of the worker, the
/// wizard stays at its phase or moves to the phase next to it.
pub proof fn lemma_phases_are_not_skipped(
    s: SessionView,
    key: Key,
    ctrl: bool,
    event: Event,
    seconds: Seq<char>,
)
    ensures
        next_to(s.wizard.phase, s.after_key(key, ctrl).wizard.phase),
        next_to(s.wizard.phase, s.ticked().wizard.phase),
        next_to(s.wizard.phase, s.after_worker_done().wizard.phase),
        s.after_message(event, seconds).wizard.phase == s.wizard.phase,
{
}

/// Whether two phases are the same or stand next to each other.
pub open spec fn next_to(a: WizardPhase, b: WizardPhase) -> bool {
    -1 <= a.spec_index() - b.spec_index() <= 1
}

/// To break off an installation is final. Once the interrupt key has come
/// while an installation was under way, the session installs no more and
/// the wizard is at its last phase, at once and whatever the worker does.
/// After that, to find the worker done changes nothing, and neither do
/// events that still come in: the wizard is moved on once, not twice.
pub proof fn lemma_abort_is_final(s: SessionView, event: Event, seconds: Seq<char>)
    requires
        s.installing(),
    ensures
        !s.after_key(Key::Char('c'), true).is_installing,
        s.after_key(Key::Char('c'), true).wizard.phase == WizardPhase::Complete,
        s.key_effect(Key::Char('c'), true) == Effect::DetachWorker,
        s.after_key(Key::Char('c'), true).after_worker_done() == s.after_key(Key::Char('c'), true),
        s.after_key(Key::Char('c'), true).after_message(event, seconds) == s.after_key(
            Key::Char('c'),
            true,
        ),
{
}

/// An installation ends once. After the worker was found to be done, the
/// session installs no more and the wizard is at its last phase; to find
/// the worker done again changes nothing.
pub proof fn lemma_completion_is_final(s: SessionView)
    requires
        s.installing(),
    ensures
        !s.after_worker_done().is_installing,
        s.after_worker_done().wizard.phase == WizardPhase::Complete,
        s.after_worker_done().after_worker_done() == s.after_worker_done(),
{
}

fn note(log: &mut Vec<String>, line: String)
    ensures
        texts(final(log)@) == texts(old(log)@).push(line@),
{
    assert(texts(log@.push(line)) =~= texts(log@).push(line@));
    log.push(line);
}

impl App {
    /// The session is in a state that it can be in.
    pub open spec fn wf(&self) -> bool {
        &&& self.wizard.wf()
        &&& self.spinner.wf()
        &&& self.boot_sequence@.wf()
    }

    /// A session as it begins, on the machine made out.
    pub fn new(system: SystemInfo) -> (r: Self)
        ensures
            r.wf(),
            r.system == system,
            r@.wizard.is_initial(),
            r@.boot == BootView::initial(),
            r@.typewriter is None,
            r@.spinner_position == 0,
            r@.spinner_frames == crate::effects::braille_frames(),
            !r.should_quit,
            r@.install_log == Seq::<Seq<char>>::empty(),
            r.install_total == 0,
            r.install_completed == 0,
            r.install_succeeded == 0,
            r.install_failed == 0,
            r.install_skipped == 0,
            r@.current_package is None,
            !r.is_installing,
            r@.error_message is None,
    {
        let r = Self {
            wizard: WizardState::new(),
            system,
            spinner: Spinner::braille(),
            typewriter: None,
            boot_sequence: BootSequence::new(),
            should_quit: false,
            install_log: Vec::new(),
            install_total: 0,
            install_completed: 0,
            install_succeeded: 0,
            install_failed: 0,
            install_skipped: 0,
            current_package: None,
            is_installing: false,
            error_message: None,
        };
        assert(texts(r.install_log@) =~= Seq::<Seq<char>>::empty());
        r
    }

    /// Goes on by one tick.
    pub fn tick(&mut self)
        requires
            old(self).wf(),
        ensures
            final(self).wf(),
            final(self)@ == old(self)@.ticked(),
    {
        self.spinner.tick();
        match &mut self.typewriter {
            Some(tw) => {
                tw.tick();
            },
            None => {},
        }
        if self.wizard.phase == WizardPhase::Boot {
            self.boot_sequence.tick();
            if self.boot_sequence.complete {
                self.wizard.advance();
            }
        }
    }

    /// Whether an installation is under way and the wizard shows it.
    pub fn installing(&self) -> (r: bool)
        ensures
            r == self@.installing(),
    {
        self.is_installing && self.wizard.phase == WizardPhase::Install
    }

    fn start_installation(&mut self)
        requires
            old(self).wf(),
        ensures
            final(self).wf(),
            final(self)@ == old(self)@.install_begun(),
    {
        self.is_installing = true;
        self.install_completed = 0;
        self.install_log.clear();
        assert(texts(self.install_log@) =~= Seq::<Seq<char>>::empty());
        note(&mut self.install_log, String::from_str("[INIT] Starting installation sequence..."));
        let selected = self.wizard.get_selected_apps();
        self.install_total = selected.len();
        proof {
            let p = |app: catalog::App| self.wizard.selected_apps@.contains(app.id@);
            let q = |app: catalog::App| old(self)@.wizard.selected_apps.contains(app.id@);
            assert(p =~= q);
            assert(self@.install_log =~= seq!["[INIT] Starting installation sequence..."@]);
        }
    }

    fn handle_review_input(&mut self, key: Key)
        requires
            old(self).wf(),
        ensures
            final(self).wf(),
            final(self)@ == old(self)@.review_key(key),
    {
        if key == Key::Enter || key == Key::Char('y') {
            self.start_installation();
            self.wizard.advance();
        } else if key == Key::Esc || key == Key::Char('n') {
            self.wizard.go_back();
        } else if key_is(key, Key::Up, 'k') {
            self.wizard.scroll_offset = decrement(self.wizard.scroll_offset);
        } else if key_is(key, Key::Down, 'j') {
            self.wizard.scroll_offset = increment(self.wizard.scroll_offset);
        }
    }

    /// Takes in a key, with or without the control key held, and says
    /// what is left for the caller to do.
    pub fn handle_key(&mut self, key: Key, ctrl: bool) -> (effect: Effect)
        requires
            old(self).wf(),
        ensures
            final(self).wf(),
            final(self)@ == old(self)@.after_key(key, ctrl),
            effect == old(self)@.key_effect(key, ctrl),
    {
        if ctrl && key == Key::Char('c') {
            if self.installing() {
                self.is_installing = false;
                note(
                    &mut self.install_log,
                    String::from_str("[ABORT] Installation interrupted by user"),
                );
                self.wizard.phase = WizardPhase::Complete;
                return Effect::DetachWorker;
            } else {
                self.should_quit = true;
                return Effect::Nothing;
            }
        }
        match self.wizard.phase {
            WizardPhase::Boot => {
                self.boot_sequence.skip();
                Effect::Nothing
            },
            WizardPhase::Identity => {
                handle_identity_input(&mut self.wizard, key);
                Effect::Nothing
            },
            WizardPhase::Shell => {
                handle_shell_input(&mut self.wizard, key);
                Effect::Nothing
            },
            WizardPhase::DevTools => {
                handle_devtools_input(&mut self.wizard, key);
                Effect::Nothing
            },
            WizardPhase::Apps => {
                handle_apps_input(&mut self.wizard, key);
                Effect::Nothing
            },
            WizardPhase::Review => {
                self.handle_review_input(key);
                if key == Key::Enter || key == Key::Char('y') {
                    Effect::StartInstall
                } else {
                    Effect::Nothing
                }
            },
            WizardPhase::Install => Effect::Nothing,
            WizardPhase::Complete => {
                if key == Key::Enter || key == Key::Char('q') {
                    self.should_quit = true;
                }
                Effect::Nothing
            },
        }
    }

    /// Takes in an event that the install worker sent. `seconds` is the
    /// time that a tool took, as it is to be shown; it is looked at for the
    /// event that says that a tool was installed, and for no other.
    pub fn apply_message(&mut self, message: &InstallMessage, seconds: &str)
        requires
            old(self).wf(),
        ensures
            final(self).wf(),
            final(self)@ == old(self)@.after_message(message@, seconds@),
    {
        if !self.installing() {
            return ;
        }
        match message {
            InstallMessage::PhaseStart { phase } => {
                note(
                    &mut self.install_log,
                    String::from_str("[PHASE] ═══ ").concat(phase.as_str()).concat(" ═══"),
                );
            },
            InstallMessage::PackageStart { name, method } => {
                self.current_package = Some(name.clone());
                note(
                    &mut self.install_log,
                    String::from_str("[INSTALL] ").concat(name.as_str()).concat(" (").concat(
                        method.as_str(),
                    ).concat(")"),
                );
            },
            InstallMessage::PackageSuccess { name, duration_ms } => {
                self.current_package = None;
                note(
                    &mut self.install_log,
                    String::from_str("[OK] ").concat(name.as_str()).concat(" (").concat(
                        seconds,
                    ).concat("s)"),
                );
                self.install_completed = increment(self.install_completed);
                self.install_succeeded = increment(self.install_succeeded);
            },
            InstallMessage::PackageSkipped { name, reason } => {
                self.current_package = None;
                note(
                    &mut self.install_log,
                    String::from_str("[SKIP] ").concat(name.as_str()).concat(" — ").concat(reason.as_str()),
                );
                self.install_completed = increment(self.install_completed);
                self.install_skipped = increment(self.install_skipped);
            },
            InstallMessage::PackageFailed { name, error } => {
                self.current_package = None;
                note(
                    &mut self.install_log,
                    String::from_str("[FAIL] ").concat(name.as_str()).concat(" — ").concat(error.as_str()),
                );
                self.install_completed = increment(self.install_completed);
                self.install_failed = increment(self.install_failed);
            },
            InstallMessage::Log(line) => {
                note(&mut self.install_log, line.clone());
            },
            InstallMessage::Progress { completed, total } => {
                self.install_completed = *completed;
                self.install_total = *total;
            },
            InstallMessage::Done { succeeded, failed, skipped } => {
                let line = String::from_str("[DONE] ").concat(count_text(*succeeded).as_str()).concat(
                    " succeeded, ",
                ).concat(count_text(*failed).as_str()).concat(" failed, ").concat(
                    count_text(*skipped).as_str(),
                ).concat(" skipped");
                note(&mut self.install_log, line);
            },
            InstallMessage::FatalError(error) => {
                note(&mut self.install_log, String::from_str("[FATAL] ").concat(error.as_str()));
                self.error_message = Some(error.clone());
            },
        }
    }

    /// Takes in that the install worker is done, and says whether that
    /// ended an installation: then the caller lets go of the worker.
    pub fn finish_install(&mut self) -> (ended: bool)
        requires
            old(self).wf(),
        ensures
            final(self).wf(),
            final(self)@ == old(self)@.after_worker_done(),
            ended == old(self)@.installing(),
    {
        if !self.installing() {
            return false;
        }
        self.is_installing = false;
        note(&mut self.install_log, String::from_str("[COMPLETE] Installation finished!"));
        self.wizard.advance();
        true
    }
}

/// The session after a whole list of events came in, one after the
/// other. The time that a tool took is shown as nothing, which plays no
/// part in the counts.
pub open spec fn folded(s: SessionView, events: Seq<Event>) -> SessionView
    decreases events.len(),
{
    if events.len() == 0 {
        s
    } else {
        folded(s, events.drop_last()).after_message(events.last(), Seq::empty())
    }
}

/// Whether two sessions agree in all that the events of an installation
/// count up: the counts, the tool at work, and that an installation is
/// shown.
pub open spec fn same_counts(a: SessionView, b: SessionView) -> bool {
    &&& a.installing() == b.installing()
    &&& a.install_completed == b.install_completed
    &&& a.install_total == b.install_total
    &&& a.install_succeeded == b.install_succeeded
    &&& a.install_failed == b.install_failed
    &&& a.install_skipped == b.install_skipped
    &&& a.current_package == b.current_package
}

/// An event that only goes into the log.
pub open spec fn only_logged(event: Event) -> bool {
    event is PhaseStart || event is Log || event is Done
}

proof fn lemma_folded_concat(s: SessionView, a: Seq<Event>, b: Seq<Event>)
    ensures
        folded(s, a + b) == folded(folded(s, a), b),
    decreases b.len(),
{
    if b.len() == 0 {
        assert(a + b =~= a);
    } else {
        lemma_folded_concat(s, a, b.drop_last());
        assert((a + b).drop_last() =~= a + b.drop_last());
        assert((a + b).last() == b.last());
    }
}

proof fn lemma_folded_logs(s: SessionView, events: Seq<Event>)
    requires
        forall|i: int| 0 <= i < events.len() ==> only_logged(#[trigger] events[i]),
    ensures
        same_counts(folded(s, events), s),
    decreases events.len(),
{
    if events.len() > 0 {
        lemma_folded_logs(s, events.drop_last());
        assert(only_logged(events[events.len() - 1]));
    }
}

/// What the counts of a session come to once the events of the first `n`
/// tools of a run are in.
pub open spec fn counts_after(
    s: SessionView,
    plan: Seq<catalog::App>,
    fates: Seq<Fate>,
    n: int,
) -> bool {
    &&& s.installing()
    &&& s.install_completed == n
    &&& s.install_succeeded == tally(plan, fates, n).succeeded.len()
    &&& s.install_failed == tally(plan, fates, n).failed.len()
    &&& s.install_skipped == tally(plan, fates, n).skipped.len()
    &&& n > 0 ==> s.install_total == plan.len() && s.current_package is None
}

proof fn lemma_folded_block(s: SessionView, plan: Seq<catalog::App>, fates: Seq<Fate>, k: int)
    requires
        0 <= k < plan.len() <= usize::MAX,
        counts_after(s, plan, fates, k),
    ensures
        counts_after(folded(s, block(plan, fates, k)), plan, fates, k + 1),
{
    let lead = banner(plan, k) + seq![started(plan[k])] + work(plan[k], fates[k]);
    let end = concluded(plan[k], fates[k]);
    let progress = Event::Progress { completed: (k + 1) as nat, total: plan.len() };
    let all = block(plan, fates, k);
    lemma_tally_counts(plan, fates, k);
    assert(all =~= lead.push(end).push(progress));
    assert(all.drop_last() =~= lead.push(end));
    assert(lead.push(end).drop_last() =~= lead);
    // the heading and the log lines change no count; the tool is at work
    let quiet = banner(plan, k);
    let logs = work(plan[k], fates[k]);
    lemma_folded_logs(s, quiet);
    let begun = folded(s, quiet).after_message(started(plan[k]), Seq::empty());
    assert(quiet + seq![started(plan[k])] =~= quiet.push(started(plan[k])));
    assert(quiet.push(started(plan[k])).drop_last() =~= quiet);
    assert(folded(s, quiet + seq![started(plan[k])]) == begun);
    lemma_folded_logs(begun, logs);
    lemma_folded_concat(s, quiet + seq![started(plan[k])], logs);
    let worked = folded(s, lead);
    assert(worked.installing());
    assert(worked.install_completed == k);
    let ended = worked.after_message(end, Seq::empty());
    assert(folded(s, lead.push(end)) == ended);
    assert(folded(s, all) == ended.after_message(progress, Seq::empty()));
}

proof fn lemma_folded_blocks(s: SessionView, plan: Seq<catalog::App>, fates: Seq<Fate>, n: int)
    requires
        0 <= n <= plan.len() <= usize::MAX,
        counts_after(s, plan, fates, 0),
    ensures
        counts_after(folded(s, blocks(plan, fates, n)), plan, fates, n),
    decreases n,
{
    if n > 0 {
        lemma_folded_blocks(s, plan, fates, n - 1);
        lemma_folded_concat(s, blocks(plan, fates, n - 1), block(plan, fates, n - 1));
        lemma_folded_block(folded(s, blocks(plan, fates, n - 1)), plan, fates, n - 1);
    }
}

/// The counts of the session follow the run. Where a session that shows
/// an installation, with all counts at zero, takes in every event of a
/// run that went through its tools, in the order of the transcript, its
/// counts are those of the run's summary: as many tools are completed as
/// the run had, out of as many, and as many succeeded, failed and were
/// passed over as the summary holds. The session still shows the
/// installation, and no tool is at work.
pub proof fn lemma_counts_follow_the_run(s: SessionView, run: RunState)
    requires
        s.installing(),
        s.install_completed == 0,
        s.install_succeeded == 0,
        s.install_failed == 0,
        s.install_skipped == 0,
        run.wf(),
        run.stage == Stage::Finished,
        !run.fatal(),
        run.plan.len() <= usize::MAX,
    ensures
        folded(s, run.transcript()).installing(),
        folded(s, run.transcript()).install_completed == run.plan.len(),
        folded(s, run.transcript()).install_succeeded == run.summary().succeeded.len(),
        folded(s, run.transcript()).install_failed == run.summary().failed.len(),
        folded(s, run.transcript()).install_skipped == run.summary().skipped.len(),
        run.plan.len() > 0 ==> folded(s, run.transcript()).install_total == run.plan.len()
            && folded(s, run.transcript()).current_package is None,
{
    let head = opening(run.has_homebrew);
    let said = prepared_events(run.has_homebrew, run.prepared->0);
    let n = run.plan.len() as int;
    let all = blocks(run.plan, run.fates, n);
    let last = seq![closing(run.plan, run.fates)];
    assert(run.transcript() == head + (said + (all + last)));
    lemma_folded_logs(s, head);
    let opened = folded(s, head);
    assert forall|i: int| 0 <= i < said.len() implies only_logged(#[trigger] said[i]) by {
        if run.has_homebrew {
            assert(said[i] == Event::Log(output_lines(run.prepared->0)[i]));
        }
    }
    lemma_folded_logs(opened, said);
    let ready = folded(opened, said);
    assert(counts_after(ready, run.plan, run.fates, 0)) by {
        if s.current_package is Some {
        }
    }
    lemma_folded_blocks(ready, run.plan, run.fates, n);
    let through = folded(ready, all);
    lemma_folded_logs(through, last);
    lemma_folded_concat(ready, all, last);
    lemma_folded_concat(opened, said, all + last);
    lemma_folded_concat(s, head, said + (all + last));
}

} // verus!
