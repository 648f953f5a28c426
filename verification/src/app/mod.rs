//! Application-wide state that is not tied to the GUI toolkit: command-line
//! options, warning flags, the GUI mode, and the code editor's tabs.

use vstd::prelude::*;

pub mod code_editor;

use crate::project::{Project, is_fresh};
use code_editor::CodeTabs;

verus! {

/// Iron Coder's command-line options.
#[derive(Debug)]
pub struct IronCoderOptions {
    /// The log level, one of INFO, WARN, DEBUG, TRACE; INFO when absent.
    pub verbosity: Option<String>,
    /// An alternative path to look for the boards directory.
    pub boards_directory: Option<String>,
    /// Turns app persistence on or off; on when absent.
    pub persistence: Option<bool>,
}

impl Default for IronCoderOptions {
    fn default() -> (r: Self)
        ensures
            r.verbosity is None,
            r.boards_directory is None,
            r.persistence is None,
    {
        IronCoderOptions { verbosity: None, boards_directory: None, persistence: None }
    }
}

impl IronCoderOptions {
    /// Whether the app state persists (is restored at start-up): unless
    /// persistence was turned off.
    pub fn restores_state(&self) -> (r: bool)
        ensures
            r == (self.persistence != Some(false)),
    {
        match self.persistence {
            Some(p) => p,
            None => true,
        }
    }
}

/// The warning windows that are currently shown.
#[derive(Clone, Copy, Debug, PartialEq, Eq, Structural)]
pub struct Warnings {
    pub display_mainboard_warning: bool,
    pub display_unnamed_project_warning: bool,
    pub display_git_warning: bool,
    pub display_invalid_name_warning: bool,
    pub display_unsaved_tab_warning: bool,
    pub display_renode_missing_warning: bool,
}

impl Default for Warnings {
    fn default() -> (r: Self)
        ensures
            !r.display_mainboard_warning,
            !r.display_unnamed_project_warning,
            !r.display_git_warning,
            !r.display_invalid_name_warning,
            !r.display_unsaved_tab_warning,
            !r.display_renode_missing_warning,
    {
        Warnings {
            display_mainboard_warning: false,
            display_unnamed_project_warning: false,
            display_git_warning: false,
            display_invalid_name_warning: false,
            display_unsaved_tab_warning: false,
            display_renode_missing_warning: false,
        }
    }
}

/// The current GUI mode.
#[derive(Clone, Copy, Debug, PartialEq, Eq, Structural)]
#[non_exhaustive]
pub enum Mode {
    EditProject,
    DevelopProject,
}

/// A keyboard shortcut of the main window: Ctrl+S, Ctrl+Q, Ctrl+O, Ctrl+N
/// and Ctrl+W.
#[derive(Clone, Copy, Debug, PartialEq, Eq, Structural)]
pub enum Shortcut {
    Save,
    Quit,
    Open,
    NewProject,
    CloseTab,
}

/// What the app does for a keyboard shortcut.
#[derive(Clone, Copy, Debug, PartialEq, Eq, Structural)]
pub enum ShortcutAction {
    SaveProject,
    CloseWindow,
    OpenProject,
    /// Leave the current project for a new, empty one.
    ResetProject,
    /// Close the editor tab with this index.
    CloseActiveTab(usize),
    Nothing,
}

/// What a keyboard shortcut asks of the app: a new project only replaces a
/// project under development, and closing a tab needs an active tab.
pub open spec fn action_for(mode: Mode, shortcut: Shortcut, active_tab: Option<usize>) -> ShortcutAction {
    match shortcut {
        Shortcut::Save => ShortcutAction::SaveProject,
        Shortcut::Quit => ShortcutAction::CloseWindow,
        Shortcut::Open => ShortcutAction::OpenProject,
        Shortcut::NewProject => if mode == Mode::DevelopProject {
            ShortcutAction::ResetProject
        } else {
            ShortcutAction::Nothing
        },
        Shortcut::CloseTab => match active_tab {
            Some(i) => ShortcutAction::CloseActiveTab(i),
            None => ShortcutAction::Nothing,
        },
    }
}

/// Decides what a keyboard shortcut does.
pub fn shortcut_action(mode: Mode, shortcut: Shortcut, active_tab: Option<usize>) -> (r: ShortcutAction)
    ensures
        r == action_for(mode, shortcut, active_tab),
{
    match shortcut {
        Shortcut::Save => ShortcutAction::SaveProject,
        Shortcut::Quit => ShortcutAction::CloseWindow,
        Shortcut::Open => ShortcutAction::OpenProject,
        Shortcut::NewProject => if mode == Mode::DevelopProject {
            ShortcutAction::ResetProject
        } else {
            ShortcutAction::Nothing
        },
        Shortcut::CloseTab => match active_tab {
            Some(i) => ShortcutAction::CloseActiveTab(i),
            None => ShortcutAction::Nothing,
        },
    }
}

/// The mode once a shortcut's action is done: an opened project is
/// developed, a new project is edited; anything else keeps the mode.
pub fn mode_after(mode: Mode, action: ShortcutAction, succeeded: bool) -> (r: Mode)
    ensures
        r == (if action == ShortcutAction::OpenProject && succeeded {
            Mode::DevelopProject
        } else if action == ShortcutAction::ResetProject {
            Mode::EditProject
        } else {
            mode
        }),
{
    match action {
        ShortcutAction::OpenProject => if succeeded {
            Mode::DevelopProject
        } else {
            mode
        },
        ShortcutAction::ResetProject => Mode::EditProject,
        _ => mode,
    }
}

/// Carries out the part of a shortcut's action that touches no file: a new
/// project replaces the current one (the known boards are kept by the app),
/// and the active editor tab is closed. Saving, opening and quitting are
/// carried out by the app; they change nothing here.
pub fn carry_out_shortcut<T>(action: ShortcutAction, project: &mut Project, tabs: &mut CodeTabs<T>)
    requires
        action matches ShortcutAction::CloseActiveTab(i) ==> i < old(tabs).tabs@.len(),
    ensures
        action == ShortcutAction::ResetProject ==> is_fresh(*final(project)),
        !(action == ShortcutAction::ResetProject) ==> *final(project) == *old(project),
        action matches ShortcutAction::CloseActiveTab(i) ==> {
            &&& final(tabs).tabs@ == old(tabs).tabs@.remove(i as int)
            &&& (old(tabs).tabs@.len() == 1 ==> final(tabs).active_tab is None)
            &&& (old(tabs).tabs@.len() > 1 ==> final(tabs).active_tab == if old(tabs).active_tab
                is None || old(tabs).active_tab == Some(i) {
                if i + 1 == old(tabs).tabs@.len() {
                    Some((i - 1) as usize)
                } else {
                    Some(i)
                }
            } else if old(tabs).active_tab->0 > i {
                Some((old(tabs).active_tab->0 - 1) as usize)
            } else {
                old(tabs).active_tab
            })
            &&& (old(tabs).wf() ==> final(tabs).wf())
        },
        !(action is CloseActiveTab) ==> final(tabs).tabs == old(tabs).tabs && final(tabs).active_tab
            == old(tabs).active_tab,
{
    match action {
        ShortcutAction::ResetProject => {
            *project = Project::default();
        },
        ShortcutAction::CloseActiveTab(i) => {
            tabs.close_tab(i);
        },
        _ => {},
    }
}

} // verus!
