use installer::wizard::{
    EditorChoice, Identity, PromptChoice, SetupType, ShellChoice, WizardPhase, WizardState,
};

#[test]
fn wizard_state_defaults() {
    let state = WizardState::new();
    assert_eq!(state.phase, WizardPhase::Boot);
    assert_eq!(state.shell_config.shell, ShellChoice::Zsh);
    assert_eq!(state.shell_config.prompt, PromptChoice::Starship);
    assert_eq!(state.editor, EditorChoice::Neovim);
    assert!(state.install_homebrew);
    assert!(state.generate_ssh_key);
    assert!(state.show_details);
}

#[test]
fn wizard_pre_selects_essentials() {
    let state = WizardState::new();
    assert!(
        !state.selected_apps.is_empty(),
        "Essential apps should be pre-selected"
    );
    // Check a few known essentials
    assert!(state.selected_apps.contains("fzf") || state.selected_apps.contains("ripgrep"));
}

#[test]
fn wizard_phase_advance() {
    let mut state = WizardState::new();
    assert_eq!(state.phase, WizardPhase::Boot);

    assert!(state.advance());
    assert_eq!(state.phase, WizardPhase::Identity);

    assert!(state.advance());
    assert_eq!(state.phase, WizardPhase::Shell);

    assert!(state.advance());
    assert_eq!(state.phase, WizardPhase::DevTools);

    assert!(state.advance());
    assert_eq!(state.phase, WizardPhase::Apps);

    assert!(state.advance());
    assert_eq!(state.phase, WizardPhase::Review);

    assert!(state.advance());
    assert_eq!(state.phase, WizardPhase::Install);

    assert!(state.advance());
    assert_eq!(state.phase, WizardPhase::Complete);

    // Can't advance past Complete
    assert!(!state.advance());
    assert_eq!(state.phase, WizardPhase::Complete);
}

#[test]
fn wizard_phase_go_back() {
    let mut state = WizardState::new();
    state.phase = WizardPhase::Shell;

    assert!(state.go_back());
    assert_eq!(state.phase, WizardPhase::Identity);

    // Can go back to Boot from Identity
    assert!(state.go_back());
    assert_eq!(state.phase, WizardPhase::Boot);
}

#[test]
fn wizard_toggle_app() {
    let mut state = WizardState::new();
    let was_selected = state.is_app_selected("neovim");

    state.toggle_app("neovim");
    assert_ne!(state.is_app_selected("neovim"), was_selected);

    state.toggle_app("neovim");
    assert_eq!(state.is_app_selected("neovim"), was_selected);
}

#[test]
fn wizard_get_selected_apps() {
    let mut state = WizardState::new();
    state.selected_apps.clear();
    state.selected_apps.insert("git".to_string());
    state.selected_apps.insert("neovim".to_string());

    let apps = state.get_selected_apps();
    assert_eq!(apps.len(), 2);
}

#[test]
fn wizard_brew_packages() {
    let mut state = WizardState::new();
    state.selected_apps.clear();
    state.selected_apps.insert("git".to_string());
    state.selected_apps.insert("fzf".to_string());
    state.selected_apps.insert("docker".to_string()); // This is a cask

    let brew = state.get_brew_packages();
    let casks = state.get_brew_casks();

    assert!(brew.contains(&"git".to_string()));
    assert!(brew.contains(&"fzf".to_string()));
    assert!(casks.contains(&"docker".to_string()));
    assert!(!brew.contains(&"docker".to_string()));
}

#[test]
fn wizard_estimated_time() {
    let mut state = WizardState::new();
    state.selected_apps.clear();
    assert_eq!(state.estimated_install_time(), 5); // base time only

    state.selected_apps.insert("git".to_string());
    state.selected_apps.insert("fzf".to_string());
    assert_eq!(state.estimated_install_time(), 7); // 5 + 2
}

#[test]
fn phase_ordering() {
    let phases = WizardPhase::all();
    assert_eq!(phases.len(), 8);
    assert_eq!(phases[0], WizardPhase::Boot);
    assert_eq!(phases[7], WizardPhase::Complete);

    // Each phase knows its index
    for (i, phase) in phases.iter().enumerate() {
        assert_eq!(phase.index(), i);
    }
}

#[test]
fn phase_names_and_descriptions() {
    for phase in WizardPhase::all() {
        assert!(!phase.name().is_empty());
        assert!(!phase.description().is_empty());
    }
}

#[test]
fn phase_next_prev() {
    assert_eq!(WizardPhase::Boot.next(), Some(WizardPhase::Identity));
    assert_eq!(WizardPhase::Complete.next(), None);
    assert_eq!(WizardPhase::Boot.prev(), None);
    assert_eq!(WizardPhase::Identity.prev(), Some(WizardPhase::Boot));
}

#[test]
fn setup_type_metadata() {
    for t in SetupType::all() {
        assert!(!t.name().is_empty());
        assert!(!t.description().is_empty());
        assert!(!t.icon().is_empty());
    }
}

#[test]
fn shell_choice_metadata() {
    for s in ShellChoice::all() {
        assert!(!s.name().is_empty());
        assert!(!s.description().is_empty());
    }
}

#[test]
fn identity_defaults_to_real_name() {
    let identity = Identity::default();
    // whoami::realname() should return something
    assert!(!identity.name.is_empty() || true); // May be empty in CI
    assert_eq!(identity.setup_type, SetupType::Personal);
}

#[test]
fn no_step_back_at_the_first_phase_and_none_forward_at_the_last() {
    let mut state = WizardState::new();
    assert!(!state.go_back());
    assert_eq!(state.phase, WizardPhase::Boot);
    state.phase = WizardPhase::Complete;
    state.cursor_position = 3;
    assert!(!state.advance());
    assert!(!state.advance());
    assert_eq!(state.phase, WizardPhase::Complete);
    assert_eq!(state.cursor_position, 3);
}

#[test]
fn the_intro_is_entered_again_only_from_the_phase_after_it() {
    let mut state = WizardState::new();
    for phase in [
        WizardPhase::Shell,
        WizardPhase::DevTools,
        WizardPhase::Apps,
        WizardPhase::Review,
        WizardPhase::Install,
        WizardPhase::Complete,
    ] {
        state.phase = phase;
        state.cursor_position = 5;
        state.scroll_offset = 6;
        assert!(state.go_back());
        assert_eq!(state.phase.index() + 1, phase.index());
        assert_eq!((state.cursor_position, state.scroll_offset), (0, 0));
    }
    state.phase = WizardPhase::Identity;
    assert!(state.go_back());
    assert_eq!(state.phase, WizardPhase::Boot);
}

#[test]
fn next_and_prev_undo_each_other() {
    for phase in WizardPhase::all() {
        if let Some(next) = phase.next() {
            assert_eq!(next.prev(), Some(*phase));
            assert_eq!(next.index(), phase.index() + 1);
        } else {
            assert_eq!(*phase, WizardPhase::Complete);
        }
        if let Some(prev) = phase.prev() {
            assert_eq!(prev.next(), Some(*phase));
        } else {
            assert_eq!(*phase, WizardPhase::Boot);
        }
    }
}

#[test]
fn toggling_twice_changes_nothing() {
    let mut state = WizardState::new();
    for id in ["fzf", "neovim", "no such tool", ""] {
        let before: usize = state.selected_app_count();
        let was: bool = state.is_app_selected(id);
        state.toggle_app(id);
        assert_eq!(state.is_app_selected(id), !was);
        assert_eq!(state.selected_app_count(), if was { before - 1 } else { before + 1 });
        state.toggle_app(id);
        assert_eq!(state.is_app_selected(id), was);
        assert_eq!(state.selected_app_count(), before);
    }
}

#[test]
fn the_selection_is_a_set() {
    let mut state = WizardState::new();
    state.selected_apps.clear();
    assert!(state.selected_apps.is_empty());
    assert!(state.selected_apps.insert("a".to_string()));
    assert!(!state.selected_apps.insert("a".to_string()));
    assert_eq!(state.selected_apps.len(), 1);
    assert!(!state.selected_apps.remove("b"));
    assert!(state.selected_apps.remove("a"));
    assert!(!state.selected_apps.contains("a"));
    assert_eq!(state.selected_apps.len(), 0);
}

#[test]
fn selected_tools_come_in_the_order_of_the_catalog() {
    let mut state = WizardState::new();
    state.selected_apps.clear();
    for id in ["ollama", "zsh", "git", "not in the catalog"] {
        state.selected_apps.insert(id.to_string());
    }
    let ids: Vec<&str> = state.get_selected_apps().iter().map(|a| a.id).collect();
    assert_eq!(ids, vec!["zsh", "git", "ollama"]);
    assert_eq!(state.total_app_count(), installer::catalog::catalog().len());
    let shell = state.get_apps_for_category(&installer::catalog::Category::Shell);
    let names: Vec<&str> = shell.iter().map(|a| a.id).collect();
    assert_eq!(names, vec!["zsh", "starship", "zoxide", "direnv", "atuin"]);
}

#[test]
fn the_essentials_are_selected_to_begin_with() {
    let state = WizardState::new();
    let essentials = installer::catalog::essential_apps();
    assert_eq!(state.selected_app_count(), essentials.len());
    for app in essentials {
        assert!(state.is_app_selected(app.id));
        assert!(app.tags.contains(&"essential"));
    }
    assert_eq!(state.identity.email, "");
    assert_eq!(state.identity.github_username, "");
    assert!(state.selected_categories.is_empty());
    assert!(state.install_fonts);
    assert!(!state.setup_git_signing);
    assert_eq!(state.input_buffer, "");
}

#[test]
fn choices_go_round() {
    assert_eq!(ShellChoice::Zsh.cycled(true), ShellChoice::Bash);
    assert_eq!(ShellChoice::Nushell.cycled(true), ShellChoice::Zsh);
    assert_eq!(ShellChoice::Zsh.cycled(false), ShellChoice::Nushell);
    assert_eq!(PromptChoice::Starship.cycled(false), PromptChoice::SystemDefault);
    assert_eq!(SetupType::Full.cycled(true), SetupType::Personal);
    for s in ShellChoice::all() {
        assert_eq!(s.cycled(true).cycled(false), *s);
        assert_eq!(ShellChoice::all()[s.index()], *s);
    }
    assert_eq!(PromptChoice::SystemDefault.name(), "Default");
    assert_eq!(EditorChoice::VSCode.name(), "VS Code");
    assert_eq!(EditorChoice::all().len(), 5);
    assert_eq!(installer::wizard::step_index(0, 4, false), 3);
    assert_eq!(installer::wizard::step_index(3, 4, true), 0);
    assert_eq!(installer::wizard::step_index(1, 4, true), 2);
}
