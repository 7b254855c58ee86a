//! Wizard state machine: the phases of a setup session and everything the
//! user chooses in it.

use vstd::prelude::*;
use vstd::string::*;
use crate::catalog::{
    apps_by_category, catalog, catalog_entries, essential_apps, has_tag, App, Category,
    InstallMethod,
};
use crate::text::{str_eq, texts};

verus! {

broadcast use vstd::string::group_string_axioms;


/// The phases of the installation wizard, in the order they are visited.
#[derive(Debug, Clone, Copy, PartialEq, Eq, Hash, Structural)]
pub enum WizardPhase {
    /// The intro sequence
    Boot,
    /// Name, email, kind of set-up
    Identity,
    /// Shell and prompt configuration
    Shell,
    /// Development tools selection
    DevTools,
    /// Application selection by category
    Apps,
    /// Review of the choices
    Review,
    /// The installation runs
    Install,
    /// Completion and next steps
    Complete,
}

impl WizardPhase {
    /// Every variant, in the order in which the wizard offers them.
    pub open spec fn spec_all() -> Seq<WizardPhase> {
        seq![
            WizardPhase::Boot,
            WizardPhase::Identity,
            WizardPhase::Shell,
            WizardPhase::DevTools,
            WizardPhase::Apps,
            WizardPhase::Review,
            WizardPhase::Install,
            WizardPhase::Complete,
        ]
    }

    pub fn all() -> (r: &'static [WizardPhase])
        ensures
            r@ == WizardPhase::spec_all(),
    {
        let r: &'static [WizardPhase] = &[
            WizardPhase::Boot,
            WizardPhase::Identity,
            WizardPhase::Shell,
            WizardPhase::DevTools,
            WizardPhase::Apps,
            WizardPhase::Review,
            WizardPhase::Install,
            WizardPhase::Complete,
        ];
        assert(r@ =~= WizardPhase::spec_all());
        r
    }

    pub open spec fn spec_name(&self) -> Seq<char> {
        match self {
            WizardPhase::Boot => "BOOT"@,
            WizardPhase::Identity => "IDENTITY"@,
            WizardPhase::Shell => "SHELL"@,
            WizardPhase::DevTools => "DEV TOOLS"@,
            WizardPhase::Apps => "APPS"@,
            WizardPhase::Review => "REVIEW"@,
            WizardPhase::Install => "INSTALL"@,
            WizardPhase::Complete => "COMPLETE"@,
        }
    }

    /// The heading of the phase.
    pub fn name(&self) -> (r: &'static str)
        ensures
            r@ == self.spec_name(),
    {
        match self {
            WizardPhase::Boot => "BOOT",
            WizardPhase::Identity => "IDENTITY",
            WizardPhase::Shell => "SHELL",
            WizardPhase::DevTools => "DEV TOOLS",
            WizardPhase::Apps => "APPS",
            WizardPhase::Review => "REVIEW",
            WizardPhase::Install => "INSTALL",
            WizardPhase::Complete => "COMPLETE",
        }
    }

    pub open spec fn spec_description(&self) -> Seq<char> {
        match self {
            WizardPhase::Boot => "Initializing consciousness transfer..."@,
            WizardPhase::Identity => "Establishing neural identity profile"@,
            WizardPhase::Shell => "Configuring command interface layer"@,
            WizardPhase::DevTools => "Selecting development arsenal"@,
            WizardPhase::Apps => "Choosing software companions"@,
            WizardPhase::Review => "Reviewing configuration matrix"@,
            WizardPhase::Install => "Executing reality modification"@,
            WizardPhase::Complete => "Transformation complete"@,
        }
    }

    /// One sentence on the phase.
    pub fn description(&self) -> (r: &'static str)
        ensures
            r@ == self.spec_description(),
    {
        match self {
            WizardPhase::Boot => "Initializing consciousness transfer...",
            WizardPhase::Identity => "Establishing neural identity profile",
            WizardPhase::Shell => "Configuring command interface layer",
            WizardPhase::DevTools => "Selecting development arsenal",
            WizardPhase::Apps => "Choosing software companions",
            WizardPhase::Review => "Reviewing configuration matrix",
            WizardPhase::Install => "Executing reality modification",
            WizardPhase::Complete => "Transformation complete",
        }
    }

    /// Position of the phase in the wizard's order.
    pub open spec fn spec_index(&self) -> int {
        match *self {
            WizardPhase::Boot => 0,
            WizardPhase::Identity => 1,
            WizardPhase::Shell => 2,
            WizardPhase::DevTools => 3,
            WizardPhase::Apps => 4,
            WizardPhase::Review => 5,
            WizardPhase::Install => 6,
            WizardPhase::Complete => 7,
        }
    }

    pub fn index(&self) -> (i: usize)
        ensures
            i == self.spec_index(),
            i < WizardPhase::spec_all().len(),
            WizardPhase::spec_all()[i as int] == *self,
    {
        match self {
            WizardPhase::Boot => 0,
            WizardPhase::Identity => 1,
            WizardPhase::Shell => 2,
            WizardPhase::DevTools => 3,
            WizardPhase::Apps => 4,
            WizardPhase::Review => 5,
            WizardPhase::Install => 6,
            WizardPhase::Complete => 7,
        }
    }

    /// The phase that follows this one, if there is one.
    pub open spec fn spec_next(&self) -> Option<WizardPhase> {
        if self.spec_index() + 1 < WizardPhase::spec_all().len() {
            Some(WizardPhase::spec_all()[self.spec_index() + 1])
        } else {
            None
        }
    }

    pub fn next(&self) -> (r: Option<WizardPhase>)
        ensures
            r == self.spec_next(),
    {
        let phases = Self::all();
        let current = self.index();
        if current + 1 < phases.len() {
            Some(phases[current + 1])
        } else {
            None
        }
    }

    /// The phase that comes before this one, if there is one.
    pub open spec fn spec_prev(&self) -> Option<WizardPhase> {
        if self.spec_index() > 0 {
            Some(WizardPhase::spec_all()[self.spec_index() - 1])
        } else {
            None
        }
    }

    pub fn prev(&self) -> (r: Option<WizardPhase>)
        ensures
            r == self.spec_prev(),
    {
        let phases = Self::all();
        let current = self.index();
        if current > 0 {
            Some(phases[current - 1])
        } else {
            None
        }
    }
}

/// The phases are listed in the order of their indices: the phase at
/// position `i` of the list has index `i`, so the index grows strictly along
/// the list.
pub proof fn lemma_phase_index_monotonic(i: int, j: int)
    requires
        0 <= i < j < WizardPhase::spec_all().len(),
    ensures
        WizardPhase::spec_all()[i].spec_index() == i,
        WizardPhase::spec_all()[j].spec_index() == j,
        WizardPhase::spec_all()[i].spec_index() < WizardPhase::spec_all()[j].spec_index(),
{
}

/// Going forward and going back undo each other: the phase before the next
/// phase, and the phase after the previous one, is the phase itself. Only
/// the last phase has no next one, and only the first has none before it.
pub proof fn lemma_phase_next_prev_inverse(p: WizardPhase)
    ensures
        p.spec_next() matches Some(q) ==> q.spec_prev() == Some(p),
        p.spec_prev() matches Some(q) ==> q.spec_next() == Some(p),
        p.spec_next() is None <==> p == WizardPhase::Complete,
        p.spec_prev() is None <==> p == WizardPhase::Boot,
        p.spec_next() matches Some(q) ==> q.spec_index() == p.spec_index() + 1,
        p.spec_prev() matches Some(q) ==> q.spec_index() + 1 == p.spec_index(),
{
}


/// What kind of machine is being set up.
#[derive(Debug, Clone, Copy, PartialEq, Eq, Structural)]
pub enum SetupType {
    Personal,
    Work,
    Minimal,
    Full,
}

impl SetupType {
    /// Every variant, in the order in which the wizard offers them.
    pub open spec fn spec_all() -> Seq<SetupType> {
        seq![
            SetupType::Personal,
            SetupType::Work,
            SetupType::Minimal,
            SetupType::Full,
        ]
    }

    pub fn all() -> (r: &'static [SetupType])
        ensures
            r@ == SetupType::spec_all(),
    {
        let r: &'static [SetupType] = &[
            SetupType::Personal,
            SetupType::Work,
            SetupType::Minimal,
            SetupType::Full,
        ];
        assert(r@ =~= SetupType::spec_all());
        r
    }

    pub open spec fn spec_name(&self) -> Seq<char> {
        match self {
            SetupType::Personal => "Personal"@,
            SetupType::Work => "Work"@,
            SetupType::Minimal => "Minimal"@,
            SetupType::Full => "Full"@,
        }
    }

    /// The name of the kind.
    pub fn name(&self) -> (r: &'static str)
        ensures
            r@ == self.spec_name(),
    {
        match self {
            SetupType::Personal => "Personal",
            SetupType::Work => "Work",
            SetupType::Minimal => "Minimal",
            SetupType::Full => "Full",
        }
    }

    pub open spec fn spec_description(&self) -> Seq<char> {
        match self {
            SetupType::Personal => "Personal development machine with all the bells and whistles"@,
            SetupType::Work => "Professional setup with work-oriented tools"@,
            SetupType::Minimal => "Essential tools only - fast and lean"@,
            SetupType::Full => "Everything. Maximum power. No compromises."@,
        }
    }

    /// One sentence on the kind.
    pub fn description(&self) -> (r: &'static str)
        ensures
            r@ == self.spec_description(),
    {
        match self {
            SetupType::Personal => "Personal development machine with all the bells and whistles",
            SetupType::Work => "Professional setup with work-oriented tools",
            SetupType::Minimal => "Essential tools only - fast and lean",
            SetupType::Full => "Everything. Maximum power. No compromises.",
        }
    }

    pub open spec fn spec_icon(&self) -> Seq<char> {
        match self {
            SetupType::Personal => "🏠"@,
            SetupType::Work => "💼"@,
            SetupType::Minimal => "🍃"@,
            SetupType::Full => "🚀"@,
        }
    }

    /// The symbol shown beside the kind.
    pub fn icon(&self) -> (r: &'static str)
        ensures
            r@ == self.spec_icon(),
    {
        match self {
            SetupType::Personal => "🏠",
            SetupType::Work => "💼",
            SetupType::Minimal => "🍃",
            SetupType::Full => "🚀",
        }
    }
}

/// `whoami::realname`: the full name of the user who runs the program, as the
/// operating system knows it. It depends on the machine and the account, so
/// nothing is claimed of the text.
#[verifier::external_body]
fn real_name() -> (name: String) {
    whoami::realname()
}

/// Who the machine is set up for.
#[derive(Debug, Clone)]
pub struct Identity {
    pub name: String,
    pub email: String,
    pub github_username: String,
    pub setup_type: SetupType,
}

impl Default for Identity {
    /// A personal set-up under the user's own name, with the other fields
    /// still to be filled in.
    fn default() -> (r: Self)
        ensures
            r.email@ == Seq::<char>::empty(),
            r.github_username@ == Seq::<char>::empty(),
            r.setup_type == SetupType::Personal,
    {
        Self {
            name: real_name(),
            email: String::new(),
            github_username: String::new(),
            setup_type: SetupType::Personal,
        }
    }
}


/// The shell to set up.
#[derive(Debug, Clone, Copy, PartialEq, Eq, Structural)]
pub enum ShellChoice {
    Zsh,
    Bash,
    Fish,
    Nushell,
}

impl ShellChoice {
    /// Every variant, in the order in which the wizard offers them.
    pub open spec fn spec_all() -> Seq<ShellChoice> {
        seq![
            ShellChoice::Zsh,
            ShellChoice::Bash,
            ShellChoice::Fish,
            ShellChoice::Nushell,
        ]
    }

    pub fn all() -> (r: &'static [ShellChoice])
        ensures
            r@ == ShellChoice::spec_all(),
    {
        let r: &'static [ShellChoice] = &[
            ShellChoice::Zsh,
            ShellChoice::Bash,
            ShellChoice::Fish,
            ShellChoice::Nushell,
        ];
        assert(r@ =~= ShellChoice::spec_all());
        r
    }

    pub open spec fn spec_name(&self) -> Seq<char> {
        match self {
            ShellChoice::Zsh => "Zsh"@,
            ShellChoice::Bash => "Bash"@,
            ShellChoice::Fish => "Fish"@,
            ShellChoice::Nushell => "Nushell"@,
        }
    }

    /// The name of the shell.
    pub fn name(&self) -> (r: &'static str)
        ensures
            r@ == self.spec_name(),
    {
        match self {
            ShellChoice::Zsh => "Zsh",
            ShellChoice::Bash => "Bash",
            ShellChoice::Fish => "Fish",
            ShellChoice::Nushell => "Nushell",
        }
    }

    pub open spec fn spec_description(&self) -> Seq<char> {
        match self {
            ShellChoice::Zsh => "Feature-rich, highly customizable (recommended)"@,
            ShellChoice::Bash => "Classic Unix shell, maximum compatibility"@,
            ShellChoice::Fish => "Friendly interactive shell with great defaults"@,
            ShellChoice::Nushell => "Modern shell with structured data"@,
        }
    }

    /// One sentence on the shell.
    pub fn description(&self) -> (r: &'static str)
        ensures
            r@ == self.spec_description(),
    {
        match self {
            ShellChoice::Zsh => "Feature-rich, highly customizable (recommended)",
            ShellChoice::Bash => "Classic Unix shell, maximum compatibility",
            ShellChoice::Fish => "Friendly interactive shell with great defaults",
            ShellChoice::Nushell => "Modern shell with structured data",
        }
    }
}

/// The prompt to set up.
#[derive(Debug, Clone, Copy, PartialEq, Eq, Structural)]
pub enum PromptChoice {
    Starship,
    Powerlevel10k,
    PurePurple,
    Minimal,
    /// The prompt the system comes with
    SystemDefault,
}

impl PromptChoice {
    /// Every variant, in the order in which the wizard offers them.
    pub open spec fn spec_all() -> Seq<PromptChoice> {
        seq![
            PromptChoice::Starship,
            PromptChoice::Powerlevel10k,
            PromptChoice::PurePurple,
            PromptChoice::Minimal,
            PromptChoice::SystemDefault,
        ]
    }

    pub fn all() -> (r: &'static [PromptChoice])
        ensures
            r@ == PromptChoice::spec_all(),
    {
        let r: &'static [PromptChoice] = &[
            PromptChoice::Starship,
            PromptChoice::Powerlevel10k,
            PromptChoice::PurePurple,
            PromptChoice::Minimal,
            PromptChoice::SystemDefault,
        ];
        assert(r@ =~= PromptChoice::spec_all());
        r
    }

    pub open spec fn spec_name(&self) -> Seq<char> {
        match self {
            PromptChoice::Starship => "Starship"@,
            PromptChoice::Powerlevel10k => "Powerlevel10k"@,
            PromptChoice::PurePurple => "Pure"@,
            PromptChoice::Minimal => "Minimal"@,
            PromptChoice::SystemDefault => "Default"@,
        }
    }

    /// The name of the prompt.
    pub fn name(&self) -> (r: &'static str)
        ensures
            r@ == self.spec_name(),
    {
        match self {
            PromptChoice::Starship => "Starship",
            PromptChoice::Powerlevel10k => "Powerlevel10k",
            PromptChoice::PurePurple => "Pure",
            PromptChoice::Minimal => "Minimal",
            PromptChoice::SystemDefault => "Default",
        }
    }

    pub open spec fn spec_description(&self) -> Seq<char> {
        match self {
            PromptChoice::Starship => "Cross-shell prompt, fast & customizable (recommended)"@,
            PromptChoice::Powerlevel10k => "Zsh theme with instant prompt"@,
            PromptChoice::PurePurple => "Pretty, minimal and fast prompt"@,
            PromptChoice::Minimal => "Simple, distraction-free prompt"@,
            PromptChoice::SystemDefault => "Keep system default"@,
        }
    }

    /// One sentence on the prompt.
    pub fn description(&self) -> (r: &'static str)
        ensures
            r@ == self.spec_description(),
    {
        match self {
            PromptChoice::Starship => "Cross-shell prompt, fast & customizable (recommended)",
            PromptChoice::Powerlevel10k => "Zsh theme with instant prompt",
            PromptChoice::PurePurple => "Pretty, minimal and fast prompt",
            PromptChoice::Minimal => "Simple, distraction-free prompt",
            PromptChoice::SystemDefault => "Keep system default",
        }
    }
}

/// The terminal emulator to install.
#[derive(Debug, Clone, Copy, PartialEq, Eq, Structural)]
pub enum TerminalChoice {
    Default,
    WezTerm,
    Alacritty,
    Kitty,
    ITerm2,
    Ghostty,
}

impl TerminalChoice {
    /// Every variant, in the order in which the wizard offers them.
    pub open spec fn spec_all() -> Seq<TerminalChoice> {
        seq![
            TerminalChoice::Default,
            TerminalChoice::WezTerm,
            TerminalChoice::Alacritty,
            TerminalChoice::Kitty,
            TerminalChoice::ITerm2,
            TerminalChoice::Ghostty,
        ]
    }

    pub fn all() -> (r: &'static [TerminalChoice])
        ensures
            r@ == TerminalChoice::spec_all(),
    {
        let r: &'static [TerminalChoice] = &[
            TerminalChoice::Default,
            TerminalChoice::WezTerm,
            TerminalChoice::Alacritty,
            TerminalChoice::Kitty,
            TerminalChoice::ITerm2,
            TerminalChoice::Ghostty,
        ];
        assert(r@ =~= TerminalChoice::spec_all());
        r
    }

    pub open spec fn spec_name(&self) -> Seq<char> {
        match self {
            TerminalChoice::Default => "Keep Current"@,
            TerminalChoice::WezTerm => "WezTerm"@,
            TerminalChoice::Alacritty => "Alacritty"@,
            TerminalChoice::Kitty => "Kitty"@,
            TerminalChoice::ITerm2 => "iTerm2"@,
            TerminalChoice::Ghostty => "Ghostty"@,
        }
    }

    /// The name of the terminal.
    pub fn name(&self) -> (r: &'static str)
        ensures
            r@ == self.spec_name(),
    {
        match self {
            TerminalChoice::Default => "Keep Current",
            TerminalChoice::WezTerm => "WezTerm",
            TerminalChoice::Alacritty => "Alacritty",
            TerminalChoice::Kitty => "Kitty",
            TerminalChoice::ITerm2 => "iTerm2",
            TerminalChoice::Ghostty => "Ghostty",
        }
    }

    pub open spec fn spec_description(&self) -> Seq<char> {
        match self {
            TerminalChoice::Default => "Don't install a new terminal"@,
            TerminalChoice::WezTerm => "GPU-accelerated with Lua config"@,
            TerminalChoice::Alacritty => "Minimal, fast, GPU-accelerated"@,
            TerminalChoice::Kitty => "Feature-rich, GPU-accelerated"@,
            TerminalChoice::ITerm2 => "macOS classic with many features"@,
            TerminalChoice::Ghostty => "Native, fast, by Mitchell Hashimoto"@,
        }
    }

    /// One sentence on the terminal.
    pub fn description(&self) -> (r: &'static str)
        ensures
            r@ == self.spec_description(),
    {
        match self {
            TerminalChoice::Default => "Don't install a new terminal",
            TerminalChoice::WezTerm => "GPU-accelerated with Lua config",
            TerminalChoice::Alacritty => "Minimal, fast, GPU-accelerated",
            TerminalChoice::Kitty => "Feature-rich, GPU-accelerated",
            TerminalChoice::ITerm2 => "macOS classic with many features",
            TerminalChoice::Ghostty => "Native, fast, by Mitchell Hashimoto",
        }
    }
}

/// The terminal multiplexer to install.
#[derive(Debug, Clone, Copy, PartialEq, Eq, Structural)]
pub enum MultiplexerChoice {
    Tmux,
    Zellij,
    /// No multiplexer
    NoMultiplexer,
}

impl MultiplexerChoice {
    /// Every variant, in the order in which the wizard offers them.
    pub open spec fn spec_all() -> Seq<MultiplexerChoice> {
        seq![
            MultiplexerChoice::Tmux,
            MultiplexerChoice::Zellij,
            MultiplexerChoice::NoMultiplexer,
        ]
    }

    pub fn all() -> (r: &'static [MultiplexerChoice])
        ensures
            r@ == MultiplexerChoice::spec_all(),
    {
        let r: &'static [MultiplexerChoice] = &[
            MultiplexerChoice::Tmux,
            MultiplexerChoice::Zellij,
            MultiplexerChoice::NoMultiplexer,
        ];
        assert(r@ =~= MultiplexerChoice::spec_all());
        r
    }

    pub open spec fn spec_name(&self) -> Seq<char> {
        match self {
            MultiplexerChoice::Tmux => "Tmux"@,
            MultiplexerChoice::Zellij => "Zellij"@,
            MultiplexerChoice::NoMultiplexer => "None"@,
        }
    }

    /// The name of the multiplexer.
    pub fn name(&self) -> (r: &'static str)
        ensures
            r@ == self.spec_name(),
    {
        match self {
            MultiplexerChoice::Tmux => "Tmux",
            MultiplexerChoice::Zellij => "Zellij",
            MultiplexerChoice::NoMultiplexer => "None",
        }
    }

    pub open spec fn spec_description(&self) -> Seq<char> {
        match self {
            MultiplexerChoice::Tmux => "Classic multiplexer, huge ecosystem"@,
            MultiplexerChoice::Zellij => "Modern alternative with better defaults"@,
            MultiplexerChoice::NoMultiplexer => "No terminal multiplexer"@,
        }
    }

    /// One sentence on the multiplexer.
    pub fn description(&self) -> (r: &'static str)
        ensures
            r@ == self.spec_description(),
    {
        match self {
            MultiplexerChoice::Tmux => "Classic multiplexer, huge ecosystem",
            MultiplexerChoice::Zellij => "Modern alternative with better defaults",
            MultiplexerChoice::NoMultiplexer => "No terminal multiplexer",
        }
    }
}

/// The choices of the shell phase.
#[derive(Debug, Clone, Copy)]
pub struct ShellConfig {
    pub shell: ShellChoice,
    pub prompt: PromptChoice,
    pub terminal: TerminalChoice,
    pub multiplexer: Option<MultiplexerChoice>,
}

impl Default for ShellConfig {
    fn default() -> (r: Self)
        ensures
            r.shell == ShellChoice::Zsh,
            r.prompt == PromptChoice::Starship,
            r.terminal == TerminalChoice::Default,
            r.multiplexer == Some(MultiplexerChoice::Tmux),
    {
        Self {
            shell: ShellChoice::Zsh,
            prompt: PromptChoice::Starship,
            terminal: TerminalChoice::Default,
            multiplexer: Some(MultiplexerChoice::Tmux),
        }
    }
}


/// The editor that the user prefers.
#[derive(Debug, Clone, Copy, PartialEq, Eq, Structural)]
pub enum EditorChoice {
    Neovim,
    Helix,
    VSCode,
    Zed,
    /// No editor
    NoEditor,
}

impl EditorChoice {
    /// Every variant, in the order in which the wizard offers them.
    pub open spec fn spec_all() -> Seq<EditorChoice> {
        seq![
            EditorChoice::Neovim,
            EditorChoice::Helix,
            EditorChoice::VSCode,
            EditorChoice::Zed,
            EditorChoice::NoEditor,
        ]
    }

    pub fn all() -> (r: &'static [EditorChoice])
        ensures
            r@ == EditorChoice::spec_all(),
    {
        let r: &'static [EditorChoice] = &[
            EditorChoice::Neovim,
            EditorChoice::Helix,
            EditorChoice::VSCode,
            EditorChoice::Zed,
            EditorChoice::NoEditor,
        ];
        assert(r@ =~= EditorChoice::spec_all());
        r
    }

    pub open spec fn spec_name(&self) -> Seq<char> {
        match self {
            EditorChoice::Neovim => "Neovim"@,
            EditorChoice::Helix => "Helix"@,
            EditorChoice::VSCode => "VS Code"@,
            EditorChoice::Zed => "Zed"@,
            EditorChoice::NoEditor => "None"@,
        }
    }

    /// The name of the editor.
    pub fn name(&self) -> (r: &'static str)
        ensures
            r@ == self.spec_name(),
    {
        match self {
            EditorChoice::Neovim => "Neovim",
            EditorChoice::Helix => "Helix",
            EditorChoice::VSCode => "VS Code",
            EditorChoice::Zed => "Zed",
            EditorChoice::NoEditor => "None",
        }
    }
}
/// One step round a list of `len` positions, from position `index`: to
/// the next position, and from the last to the first; or to the position
/// before, and from the first to the last.
pub open spec fn wrapped_step(index: int, len: int, forward: bool) -> int {
    if forward {
        (index + 1) % len
    } else if index > 0 {
        index - 1
    } else {
        len - 1
    }
}

/// One step round a list of `len` positions.
pub fn step_index(index: usize, len: usize, forward: bool) -> (r: usize)
    requires
        index < len,
    ensures
        r == wrapped_step(index as int, len as int, forward),
        r < len,
{
    if forward {
        (index + 1) % len
    } else if index > 0 {
        index - 1
    } else {
        len - 1
    }
}

impl SetupType {
    /// Position of the variant in the list of all variants.
    pub open spec fn spec_index(&self) -> int {
        match self {
            SetupType::Personal => 0,
            SetupType::Work => 1,
            SetupType::Minimal => 2,
            SetupType::Full => 3,
        }
    }

    pub fn index(&self) -> (i: usize)
        ensures
            i == self.spec_index(),
            i < SetupType::spec_all().len(),
            SetupType::spec_all()[i as int] == *self,
    {
        match self {
            SetupType::Personal => 0,
            SetupType::Work => 1,
            SetupType::Minimal => 2,
            SetupType::Full => 3,
        }
    }

    /// The variant one step on in the list of all variants, forward or
    /// backward, where the step from the last goes to the first and the
    /// step back from the first goes to the last.
    pub open spec fn spec_cycled(&self, forward: bool) -> SetupType {
        SetupType::spec_all()[wrapped_step(
            self.spec_index(),
            SetupType::spec_all().len() as int,
            forward,
        )]
    }

    pub fn cycled(&self, forward: bool) -> (r: SetupType)
        ensures
            r == self.spec_cycled(forward),
    {
        let all = Self::all();
        all[step_index(self.index(), all.len(), forward)]
    }
}

impl ShellChoice {
    /// Position of the variant in the list of all variants.
    pub open spec fn spec_index(&self) -> int {
        match self {
            ShellChoice::Zsh => 0,
            ShellChoice::Bash => 1,
            ShellChoice::Fish => 2,
            ShellChoice::Nushell => 3,
        }
    }

    pub fn index(&self) -> (i: usize)
        ensures
            i == self.spec_index(),
            i < ShellChoice::spec_all().len(),
            ShellChoice::spec_all()[i as int] == *self,
    {
        match self {
            ShellChoice::Zsh => 0,
            ShellChoice::Bash => 1,
            ShellChoice::Fish => 2,
            ShellChoice::Nushell => 3,
        }
    }

    /// The variant one step on in the list of all variants, forward or
    /// backward, where the step from the last goes to the first and the
    /// step back from the first goes to the last.
    pub open spec fn spec_cycled(&self, forward: bool) -> ShellChoice {
        ShellChoice::spec_all()[wrapped_step(
            self.spec_index(),
            ShellChoice::spec_all().len() as int,
            forward,
        )]
    }

    pub fn cycled(&self, forward: bool) -> (r: ShellChoice)
        ensures
            r == self.spec_cycled(forward),
    {
        let all = Self::all();
        all[step_index(self.index(), all.len(), forward)]
    }
}

impl PromptChoice {
    /// Position of the variant in the list of all variants.
    pub open spec fn spec_index(&self) -> int {
        match self {
            PromptChoice::Starship => 0,
            PromptChoice::Powerlevel10k => 1,
            PromptChoice::PurePurple => 2,
            PromptChoice::Minimal => 3,
            PromptChoice::SystemDefault => 4,
        }
    }

    pub fn index(&self) -> (i: usize)
        ensures
            i == self.spec_index(),
            i < PromptChoice::spec_all().len(),
            PromptChoice::spec_all()[i as int] == *self,
    {
        match self {
            PromptChoice::Starship => 0,
            PromptChoice::Powerlevel10k => 1,
            PromptChoice::PurePurple => 2,
            PromptChoice::Minimal => 3,
            PromptChoice::SystemDefault => 4,
        }
    }

    /// The variant one step on in the list of all variants, forward or
    /// backward, where the step from the last goes to the first and the
    /// step back from the first goes to the last.
    pub open spec fn spec_cycled(&self, forward: bool) -> PromptChoice {
        PromptChoice::spec_all()[wrapped_step(
            self.spec_index(),
            PromptChoice::spec_all().len() as int,
            forward,
        )]
    }

    pub fn cycled(&self, forward: bool) -> (r: PromptChoice)
        ensures
            r == self.spec_cycled(forward),
    {
        let all = Self::all();
        all[step_index(self.index(), all.len(), forward)]
    }
}

impl TerminalChoice {
    /// Position of the variant in the list of all variants.
    pub open spec fn spec_index(&self) -> int {
        match self {
            TerminalChoice::Default => 0,
            TerminalChoice::WezTerm => 1,
            TerminalChoice::Alacritty => 2,
            TerminalChoice::Kitty => 3,
            TerminalChoice::ITerm2 => 4,
            TerminalChoice::Ghostty => 5,
        }
    }

    pub fn index(&self) -> (i: usize)
        ensures
            i == self.spec_index(),
            i < TerminalChoice::spec_all().len(),
            TerminalChoice::spec_all()[i as int] == *self,
    {
        match self {
            TerminalChoice::Default => 0,
            TerminalChoice::WezTerm => 1,
            TerminalChoice::Alacritty => 2,
            TerminalChoice::Kitty => 3,
            TerminalChoice::ITerm2 => 4,
            TerminalChoice::Ghostty => 5,
        }
    }

    /// The variant one step on in the list of all variants, forward or
    /// backward, where the step from the last goes to the first and the
    /// step back from the first goes to the last.
    pub open spec fn spec_cycled(&self, forward: bool) -> TerminalChoice {
        TerminalChoice::spec_all()[wrapped_step(
            self.spec_index(),
            TerminalChoice::spec_all().len() as int,
            forward,
        )]
    }

    pub fn cycled(&self, forward: bool) -> (r: TerminalChoice)
        ensures
            r == self.spec_cycled(forward),
    {
        let all = Self::all();
        all[step_index(self.index(), all.len(), forward)]
    }
}

impl MultiplexerChoice {
    /// Position of the variant in the list of all variants.
    pub open spec fn spec_index(&self) -> int {
        match self {
            MultiplexerChoice::Tmux => 0,
            MultiplexerChoice::Zellij => 1,
            MultiplexerChoice::NoMultiplexer => 2,
        }
    }

    pub fn index(&self) -> (i: usize)
        ensures
            i == self.spec_index(),
            i < MultiplexerChoice::spec_all().len(),
            MultiplexerChoice::spec_all()[i as int] == *self,
    {
        match self {
            MultiplexerChoice::Tmux => 0,
            MultiplexerChoice::Zellij => 1,
            MultiplexerChoice::NoMultiplexer => 2,
        }
    }

    /// The variant one step on in the list of all variants, forward or
    /// backward, where the step from the last goes to the first and the
    /// step back from the first goes to the last.
    pub open spec fn spec_cycled(&self, forward: bool) -> MultiplexerChoice {
        MultiplexerChoice::spec_all()[wrapped_step(
            self.spec_index(),
            MultiplexerChoice::spec_all().len() as int,
            forward,
        )]
    }

    pub fn cycled(&self, forward: bool) -> (r: MultiplexerChoice)
        ensures
            r == self.spec_cycled(forward),
    {
        let all = Self::all();
        all[step_index(self.index(), all.len(), forward)]
    }
}
/// The set of selected tool identifiers: each identifier is in the set once,
/// and the order in which they were selected plays no part.
#[derive(Debug, Clone)]
pub struct Selection {
    ids: Vec<String>,
}

impl Selection {
    /// No identifier is held twice.
    pub closed spec fn wf(&self) -> bool {
        texts(self.ids@).no_duplicates()
    }

    /// The identifiers that are selected.
    pub closed spec fn view(&self) -> Set<Seq<char>> {
        texts(self.ids@).to_set()
    }

    /// The selection is a finite set.
    pub proof fn lemma_finite(&self)
        ensures
            self@.finite(),
    {
    }

    /// The empty selection.
    pub fn new() -> (r: Selection)
        ensures
            r.wf(),
            r@ == Set::<Seq<char>>::empty(),
    {
        let r = Selection { ids: Vec::new() };
        assert(texts(r.ids@) =~= Seq::<Seq<char>>::empty());
        assert(r@ =~= Set::<Seq<char>>::empty());
        r
    }

    /// How many identifiers are selected.
    pub fn len(&self) -> (n: usize)
        requires
            self.wf(),
        ensures
            n == self@.len(),
    {
        proof {
            texts(self.ids@).unique_seq_to_set();
        }
        self.ids.len()
    }

    /// Whether nothing is selected.
    pub fn is_empty(&self) -> (r: bool)
        requires
            self.wf(),
        ensures
            r == (self@.len() == 0),
            r == (self@ == Set::<Seq<char>>::empty()),
    {
        proof {
            texts(self.ids@).unique_seq_to_set();
            if self.ids@.len() == 0 {
                assert(self@ =~= Set::<Seq<char>>::empty());
            }
        }
        self.ids.len() == 0
    }

    /// The position at which the identifier is held, if it is selected.
    fn position(&self, id: &str) -> (r: Option<usize>)
        ensures
            match r {
                Some(i) => i < self.ids@.len() && self.ids@[i as int]@ == id@,
                None => !self@.contains(id@),
            },
    {
        let mut i: usize = 0;
        while i < self.ids.len()
            invariant
                i <= self.ids@.len(),
                forall|j: int| 0 <= j < i ==> texts(self.ids@)[j] != id@,
            decreases self.ids@.len() - i,
        {
            if str_eq(self.ids[i].as_str(), id) {
                return Some(i);
            }
            i += 1;
        }
        None
    }

    /// Whether the identifier is selected.
    pub fn contains(&self, id: &str) -> (r: bool)
        ensures
            r == self@.contains(id@),
    {
        match self.position(id) {
            Some(i) => {
                assert(texts(self.ids@)[i as int] == id@);
                true
            },
            None => false,
        }
    }

    /// Selects the identifier. Says whether it was not selected before.
    pub fn insert(&mut self, id: String) -> (r: bool)
        requires
            old(self).wf(),
        ensures
            final(self).wf(),
            final(self)@ == old(self)@.insert(id@),
            r == !old(self)@.contains(id@),
    {
        if self.contains(id.as_str()) {
            assert(self@ =~= self@.insert(id@));
            false
        } else {
            proof {
                assert(texts(self.ids@.push(id)) =~= texts(self.ids@).push(id@));
                texts(self.ids@).lemma_push_to_set_commute(id@);
            }
            self.ids.push(id);
            true
        }
    }

    /// Takes the identifier out of the selection. Says whether it was
    /// selected before.
    pub fn remove(&mut self, id: &str) -> (r: bool)
        requires
            old(self).wf(),
        ensures
            final(self).wf(),
            final(self)@ == old(self)@.remove(id@),
            r == old(self)@.contains(id@),
    {
        match self.position(id) {
            Some(i) => {
                let ghost before = texts(self.ids@);
                assert(before[i as int] == id@);
                self.ids.remove(i);
                proof {
                    let after = texts(self.ids@);
                    assert(after =~= before.remove(i as int));
                    assert forall|s: Seq<char>| after.to_set().contains(s) <==> before.to_set().remove(
                        id@,
                    ).contains(s) by {
                        if after.to_set().contains(s) {
                            let j = choose|j: int| 0 <= j < after.len() && after[j] == s;
                            let k = if j < i { j } else { j + 1 };
                            assert(before[k] == s);
                        }
                        if before.to_set().remove(id@).contains(s) {
                            let k = choose|k: int| 0 <= k < before.len() && before[k] == s;
                            let j = if k < i { k } else { k - 1 };
                            assert(after[j] == s);
                        }
                    }
                    assert(self@ =~= old(self)@.remove(id@));
                }
                true
            },
            None => {
                assert(self@ =~= self@.remove(id@));
                false
            },
        }
    }

    /// Takes every identifier out of the selection.
    pub fn clear(&mut self)
        ensures
            final(self).wf(),
            final(self)@ == Set::<Seq<char>>::empty(),
    {
        self.ids.clear();
        assert(texts(self.ids@) =~= Seq::<Seq<char>>::empty());
        assert(self@ =~= Set::<Seq<char>>::empty());
    }
}

/// A set of identifiers after one of them was toggled: without it, where it
/// was in the set; with it, where it was not.
pub open spec fn toggled(set: Set<Seq<char>>, id: Seq<char>) -> Set<Seq<char>> {
    if set.contains(id) {
        set.remove(id)
    } else {
        set.insert(id)
    }
}

/// Toggling the same identifier twice gives back the set one started from,
/// and toggling it once changes whether it is in the set, and nothing else.
pub proof fn lemma_toggle_twice(set: Set<Seq<char>>, id: Seq<char>)
    ensures
        toggled(toggled(set, id), id) == set,
        toggled(set, id).contains(id) == !set.contains(id),
        forall|other: Seq<char>| other != id ==> toggled(set, id).contains(other) == set.contains(other),
{
    assert(toggled(toggled(set, id), id) =~= set);
}

/// The package names of the entries that are installed as formulae.
pub open spec fn brew_packages_of(apps: Seq<App>) -> Seq<Seq<char>> {
    apps.filter(|app: App| app.install_method is Brew).map_values(
        |app: App| app.install_method.target(),
    )
}

/// The package names of the entries that are installed as casks.
pub open spec fn brew_casks_of(apps: Seq<App>) -> Seq<Seq<char>> {
    apps.filter(|app: App| app.install_method is BrewCask).map_values(
        |app: App| app.install_method.target(),
    )
}

/// The identifiers that a new session selects: those of the catalog's
/// essential entries.
pub open spec fn essential_ids() -> Set<Seq<char>> {
    catalog_entries().filter(|app: App| has_tag(app, "essential"@)).map_values(
        |app: App| app.id@,
    ).to_set()
}

/// The complete state of a wizard session.
#[derive(Debug, Clone)]
pub struct WizardState {
    pub phase: WizardPhase,
    pub identity: Identity,
    pub shell_config: ShellConfig,
    pub editor: EditorChoice,
    pub selected_apps: Selection,
    pub selected_categories: Vec<Category>,
    pub install_homebrew: bool,
    pub install_fonts: bool,
    pub generate_ssh_key: bool,
    pub setup_git_signing: bool,
    pub cursor_position: usize,
    pub scroll_offset: usize,
    pub input_buffer: String,
    pub input_field: usize,
    pub show_details: bool,
}

/// An identity as a value of the specification.
pub struct IdentityView {
    pub name: Seq<char>,
    pub email: Seq<char>,
    pub github_username: Seq<char>,
    pub setup_type: SetupType,
}

impl View for Identity {
    type V = IdentityView;

    open spec fn view(&self) -> IdentityView {
        IdentityView {
            name: self.name@,
            email: self.email@,
            github_username: self.github_username@,
            setup_type: self.setup_type,
        }
    }
}

/// A wizard state as a value of the specification.
pub struct WizardView {
    pub phase: WizardPhase,
    pub identity: IdentityView,
    pub shell_config: ShellConfig,
    pub editor: EditorChoice,
    pub selected_apps: Set<Seq<char>>,
    pub selected_categories: Seq<Category>,
    pub install_homebrew: bool,
    pub install_fonts: bool,
    pub generate_ssh_key: bool,
    pub setup_git_signing: bool,
    pub cursor_position: usize,
    pub scroll_offset: usize,
    pub input_buffer: Seq<char>,
    pub input_field: usize,
    pub show_details: bool,
}

impl View for WizardState {
    type V = WizardView;

    open spec fn view(&self) -> WizardView {
        WizardView {
            phase: self.phase,
            identity: self.identity@,
            shell_config: self.shell_config,
            editor: self.editor,
            selected_apps: self.selected_apps@,
            selected_categories: self.selected_categories@,
            install_homebrew: self.install_homebrew,
            install_fonts: self.install_fonts,
            generate_ssh_key: self.generate_ssh_key,
            setup_git_signing: self.setup_git_signing,
            cursor_position: self.cursor_position,
            scroll_offset: self.scroll_offset,
            input_buffer: self.input_buffer@,
            input_field: self.input_field,
            show_details: self.show_details,
        }
    }
}

impl WizardView {
    /// The state in which a session begins: at the first phase, with the
    /// default choices and the essential tools selected. The name is what
    /// the machine gives for its user.
    pub open spec fn is_initial(self) -> bool {
        &&& self.phase == WizardPhase::Boot
        &&& self.identity.email == Seq::<char>::empty()
        &&& self.identity.github_username == Seq::<char>::empty()
        &&& self.identity.setup_type == SetupType::Personal
        &&& self.shell_config.shell == ShellChoice::Zsh
        &&& self.shell_config.prompt == PromptChoice::Starship
        &&& self.shell_config.terminal == TerminalChoice::Default
        &&& self.shell_config.multiplexer == Some(MultiplexerChoice::Tmux)
        &&& self.editor == EditorChoice::Neovim
        &&& self.selected_apps == essential_ids()
        &&& self.selected_categories == Seq::<Category>::empty()
        &&& self.install_homebrew
        &&& self.install_fonts
        &&& self.generate_ssh_key
        &&& !self.setup_git_signing
        &&& self.cursor_position == 0
        &&& self.scroll_offset == 0
        &&& self.input_buffer == Seq::<char>::empty()
        &&& self.input_field == 0
        &&& self.show_details
    }

    /// The state after a step forward: at the next phase, with cursor and
    /// scroll position back at the start. At the last phase there is no step.
    pub open spec fn advanced(self) -> WizardView {
        match self.phase.spec_next() {
            Some(next) => WizardView { phase: next, cursor_position: 0, scroll_offset: 0, ..self },
            None => self,
        }
    }

    /// The state after a step back, where one is possible.
    pub open spec fn gone_back(self) -> WizardView {
        if WizardState::can_go_back(self.phase) {
            WizardView {
                phase: self.phase.spec_prev()->0,
                cursor_position: 0,
                scroll_offset: 0,
                ..self
            }
        } else {
            self
        }
    }

    /// The state with one tool toggled.
    pub open spec fn with_toggled(self, id: Seq<char>) -> WizardView {
        WizardView { selected_apps: toggled(self.selected_apps, id), ..self }
    }
}

impl Default for WizardState {
    /// The state in which a session begins: at the first phase, with the
    /// default choices and the essential tools selected.
    fn default() -> (r: Self)
        ensures
            r.wf(),
            r@.is_initial(),
    {
        let essentials = essential_apps();
        let mut selected_apps = Selection::new();
        let ghost ids = essentials@.map_values(|app: App| app.id@);
        let mut i: usize = 0;
        assert(ids.take(0).to_set() =~= Set::<Seq<char>>::empty());
        while i < essentials.len()
            invariant
                i <= essentials.len(),
                ids == essentials@.map_values(|app: App| app.id@),
                selected_apps.wf(),
                selected_apps@ == ids.take(i as int).to_set(),
            decreases essentials.len() - i,
        {
            let id = String::from_str(essentials[i].id);
            proof {
                assert(ids.take(i as int + 1) =~= ids.take(i as int).push(id@));
                ids.take(i as int).lemma_push_to_set_commute(id@);
            }
            selected_apps.insert(id);
            i += 1;
        }
        assert(ids.take(essentials.len() as int) =~= ids);
        Self {
            phase: WizardPhase::Boot,
            identity: Identity::default(),
            shell_config: ShellConfig::default(),
            editor: EditorChoice::Neovim,
            selected_apps,
            selected_categories: Vec::new(),
            install_homebrew: true,
            install_fonts: true,
            generate_ssh_key: true,
            setup_git_signing: false,
            cursor_position: 0,
            scroll_offset: 0,
            input_buffer: String::new(),
            input_field: 0,
            show_details: true,
        }
    }
}

impl WizardState {
    /// The state is well formed when its selection is.
    pub open spec fn wf(&self) -> bool {
        self.selected_apps.wf()
    }

    /// The state after a step forward: at the next phase, with cursor and
    /// scroll position back at the start. At the last phase there is no step.
    pub open spec fn advanced(self) -> WizardState {
        match self.phase.spec_next() {
            Some(next) => WizardState { phase: next, cursor_position: 0, scroll_offset: 0, ..self },
            None => self,
        }
    }

    /// Whether a step back is possible from the phase: it has a phase before
    /// it, and that phase is not the intro, which is entered again only from
    /// the phase right after it.
    pub open spec fn can_go_back(phase: WizardPhase) -> bool {
        match phase.spec_prev() {
            Some(prev) => prev != WizardPhase::Boot || phase == WizardPhase::Identity,
            None => false,
        }
    }

    /// The state after a step back, where one is possible.
    pub open spec fn gone_back(self) -> WizardState {
        if Self::can_go_back(self.phase) {
            WizardState {
                phase: self.phase.spec_prev()->0,
                cursor_position: 0,
                scroll_offset: 0,
                ..self
            }
        } else {
            self
        }
    }

    /// The state in which a session begins.
    pub fn new() -> (r: Self)
        ensures
            r.wf(),
            r@.is_initial(),
    {
        Self::default()
    }

    /// Moves to the next phase and says so; at the last phase nothing
    /// changes and the answer is no.
    pub fn advance(&mut self) -> (moved: bool)
        ensures
            *final(self) == old(self).advanced(),
            final(self)@ == old(self)@.advanced(),
            final(self).wf() == old(self).wf(),
            moved == old(self).phase.spec_next().is_some(),
    {
        if let Some(next) = self.phase.next() {
            self.phase = next;
            self.cursor_position = 0;
            self.scroll_offset = 0;
            true
        } else {
            false
        }
    }

    /// Moves to the phase before and says so; where no step back is
    /// possible nothing changes and the answer is no.
    pub fn go_back(&mut self) -> (moved: bool)
        ensures
            *final(self) == old(self).gone_back(),
            final(self)@ == old(self)@.gone_back(),
            final(self).wf() == old(self).wf(),
            moved == Self::can_go_back(old(self).phase),
    {
        if let Some(prev) = self.phase.prev() {
            if prev != WizardPhase::Boot || self.phase == WizardPhase::Identity {
                self.phase = prev;
                self.cursor_position = 0;
                self.scroll_offset = 0;
                return true;
            }
        }
        false
    }

    /// Selects the tool if it was not selected, and takes it out of the
    /// selection if it was.
    pub fn toggle_app(&mut self, app_id: &str)
        requires
            old(self).wf(),
        ensures
            final(self).wf(),
            final(self).selected_apps@ == toggled(old(self).selected_apps@, app_id@),
            final(self)@ == old(self)@.with_toggled(app_id@),
            final(self).phase == old(self).phase,
            final(self).identity == old(self).identity,
            final(self).shell_config == old(self).shell_config,
            final(self).editor == old(self).editor,
            final(self).selected_categories == old(self).selected_categories,
            final(self).install_homebrew == old(self).install_homebrew,
            final(self).install_fonts == old(self).install_fonts,
            final(self).generate_ssh_key == old(self).generate_ssh_key,
            final(self).setup_git_signing == old(self).setup_git_signing,
            final(self).cursor_position == old(self).cursor_position,
            final(self).scroll_offset == old(self).scroll_offset,
            final(self).input_buffer == old(self).input_buffer,
            final(self).input_field == old(self).input_field,
            final(self).show_details == old(self).show_details,
    {
        if self.selected_apps.contains(app_id) {
            self.selected_apps.remove(app_id);
        } else {
            self.selected_apps.insert(String::from_str(app_id));
        }
    }

    pub fn is_app_selected(&self, app_id: &str) -> (r: bool)
        ensures
            r == self.selected_apps@.contains(app_id@),
    {
        self.selected_apps.contains(app_id)
    }

    /// The entries of the catalog that are selected, in the catalog's order.
    pub open spec fn selected_entries(&self) -> Seq<App> {
        catalog_entries().filter(|app: App| self.selected_apps@.contains(app.id@))
    }

    /// The entries of the catalog that are selected, in the catalog's order:
    /// the order in which they were selected plays no part.
    pub fn get_selected_apps(&self) -> (r: Vec<App>)
        ensures
            r@ == self.selected_entries(),
    {
        let all = catalog();
        let ghost pred = |app: App| self.selected_apps@.contains(app.id@);
        let mut r: Vec<App> = Vec::new();
        let mut i: usize = 0;
        assert(all@.take(0).filter(pred) =~= Seq::<App>::empty());
        while i < all.len()
            invariant
                i <= all.len(),
                all@ == catalog_entries(),
                pred == |app: App| self.selected_apps@.contains(app.id@),
                r@ == all@.take(i as int).filter(pred),
            decreases all.len() - i,
        {
            let app = all[i];
            proof {
                assert(all@.take(i as int + 1) =~= all@.take(i as int).push(app));
                all@.take(i as int).lemma_filter_push(app, pred);
            }
            if self.selected_apps.contains(app.id) {
                r.push(app);
            }
            i += 1;
        }
        assert(all@.take(all.len() as int) =~= all@);
        r
    }

    /// The entries of the category, in the catalog's order.
    pub fn get_apps_for_category(&self, category: &Category) -> (r: Vec<App>)
        ensures
            r@ == catalog_entries().filter(|app: App| app.category == *category),
    {
        apps_by_category(category)
    }

    pub fn selected_app_count(&self) -> (n: usize)
        requires
            self.wf(),
        ensures
            n == self.selected_apps@.len(),
    {
        self.selected_apps.len()
    }

    pub fn total_app_count(&self) -> (n: usize)
        ensures
            n == catalog_entries().len(),
    {
        catalog().len()
    }

    /// The formulae that the selection asks for, in the catalog's order.
    pub fn get_brew_packages(&self) -> (packages: Vec<String>)
        ensures
            texts(packages@) == brew_packages_of(self.selected_entries()),
    {
        let selected = self.get_selected_apps();
        let ghost pred = |app: App| app.install_method is Brew;
        let ghost name = |app: App| app.install_method.target();
        let mut packages: Vec<String> = Vec::new();
        let mut i: usize = 0;
        assert(selected@.take(0).filter(pred).map_values(name) =~= Seq::<Seq<char>>::empty());
        assert(texts(packages@) =~= Seq::<Seq<char>>::empty());
        while i < selected.len()
            invariant
                i <= selected.len(),
                pred == |app: App| app.install_method is Brew,
                name == |app: App| app.install_method.target(),
                texts(packages@) == selected@.take(i as int).filter(pred).map_values(name),
            decreases selected.len() - i,
        {
            let app = selected[i];
            proof {
                assert(selected@.take(i as int + 1) =~= selected@.take(i as int).push(app));
                selected@.take(i as int).lemma_filter_push(app, pred);
            }
            if let InstallMethod::Brew(pkg) = app.install_method {
                let item = String::from_str(pkg);
                proof {
                    assert(texts(packages@.push(item)) =~= texts(packages@).push(item@));
                    assert(selected@.take(i as int).filter(pred).push(app).map_values(name)
                        =~= selected@.take(i as int).filter(pred).map_values(name).push(name(app)));
                }
                packages.push(item);
            }
            i += 1;
        }
        assert(selected@.take(selected.len() as int) =~= selected@);
        packages
    }

    /// The casks that the selection asks for, in the catalog's order.
    pub fn get_brew_casks(&self) -> (casks: Vec<String>)
        ensures
            texts(casks@) == brew_casks_of(self.selected_entries()),
    {
        let selected = self.get_selected_apps();
        let ghost pred = |app: App| app.install_method is BrewCask;
        let ghost name = |app: App| app.install_method.target();
        let mut casks: Vec<String> = Vec::new();
        let mut i: usize = 0;
        assert(selected@.take(0).filter(pred).map_values(name) =~= Seq::<Seq<char>>::empty());
        assert(texts(casks@) =~= Seq::<Seq<char>>::empty());
        while i < selected.len()
            invariant
                i <= selected.len(),
                pred == |app: App| app.install_method is BrewCask,
                name == |app: App| app.install_method.target(),
                texts(casks@) == selected@.take(i as int).filter(pred).map_values(name),
            decreases selected.len() - i,
        {
            let app = selected[i];
            proof {
                assert(selected@.take(i as int + 1) =~= selected@.take(i as int).push(app));
                selected@.take(i as int).lemma_filter_push(app, pred);
            }
            if let InstallMethod::BrewCask(pkg) = app.install_method {
                let item = String::from_str(pkg);
                proof {
                    assert(texts(casks@.push(item)) =~= texts(casks@).push(item@));
                    assert(selected@.take(i as int).filter(pred).push(app).map_values(name)
                        =~= selected@.take(i as int).filter(pred).map_values(name).push(name(app)));
                }
                casks.push(item);
            }
            i += 1;
        }
        assert(selected@.take(selected.len() as int) =~= selected@);
        casks
    }

    /// The minutes an installation is estimated to take: five to begin
    /// with and one for each selected tool, as far as the number type goes.
    pub open spec fn estimated_minutes(&self) -> int {
        if 5 + self.selected_apps@.len() <= u32::MAX {
            5 + self.selected_apps@.len() as int
        } else {
            u32::MAX as int
        }
    }

    pub fn estimated_install_time(&self) -> (minutes: u32)
        requires
            self.wf(),
        ensures
            minutes == self.estimated_minutes(),
    {
        let app_count = self.selected_apps.len();
        let base_time: u32 = 5;
        if app_count <= (u32::MAX - base_time) as usize {
            base_time + app_count as u32
        } else {
            u32::MAX
        }
    }
}

/// At the last phase a step forward changes nothing, however often it is
/// tried, and at the first phase no step back is possible.
pub proof fn lemma_phase_boundaries(state: WizardState)
    ensures
        state.phase == WizardPhase::Complete ==> state.advanced() == state,
        state.phase == WizardPhase::Complete ==> state.advanced().advanced() == state,
        state.phase == WizardPhase::Boot ==> !WizardState::can_go_back(state.phase),
        state.phase == WizardPhase::Boot ==> state.gone_back() == state,
        state.advanced().advanced().phase.spec_index() <= 7,
{
}

} // verus!
