use vstd::prelude::*;

use crate::types::strings_view;

verus! {

/// The interaction mode of the terminal front end.
#[derive(Debug, Clone, Copy, PartialEq, Eq, Structural)]
pub enum Mode {
    Normal,
    Visual,
    Search,
    Help,
    Edit,
    Create,
    Confirm,
}

/// The panel that has the focus.
#[derive(Debug, Clone, Copy, PartialEq, Eq, Structural)]
pub enum Panel {
    ServiceList,
    Logs,
}

/// An action that waits for the user's confirmation.
#[derive(Debug)]
pub enum ConfirmAction {
    /// Delete the named definition.
    Delete(String),
    StartAll,
    StopAll,
    /// Leave the editor without saving; on "no", go back to the mode held.
    CancelEdit(Mode),
}

/// The colour scheme of the terminal.
#[derive(Debug, Clone, Copy, PartialEq, Eq, Structural)]
pub enum ThemeMode {
    Light,
    Dark,
}

/// The mode of the text editor's vim emulation.
#[derive(Debug, Clone, Copy, PartialEq, Eq, Structural)]
pub enum VimMode {
    Normal,
    Insert,
    Visual,
    /// An operator waits for its motion.
    Operator(char),
}

/// Suggestions fetched for one field of the form.
#[derive(Debug)]
pub enum AutocompleteResult {
    Contexts(Vec<String>),
    Namespaces(Vec<String>),
    Services(Vec<String>),
    Ports(Vec<String>),
}

/// The suggestions of the form and how the user moves among them.
#[derive(Debug)]
pub struct AutocompleteState {
    pub contexts: Vec<String>,
    pub namespaces: Vec<String>,
    pub services: Vec<String>,
    pub ports: Vec<String>,
    pub types: Vec<String>,
    pub selected_index: usize,
    pub loading: bool,
    /// Whether the suggestions panel has the focus.
    pub focused: bool,
    /// Whether the user is typing into the field.
    pub typing: bool,
}

impl Default for AutocompleteState {
    /// No suggestions yet but the two backends.
    fn default() -> (r: AutocompleteState)
        ensures
            r.contexts@.len() == 0,
            r.namespaces@.len() == 0,
            r.services@.len() == 0,
            r.ports@.len() == 0,
            strings_view(r.types@) == seq!["kubectl"@, "ssh"@],
            r.selected_index == 0,
            !r.loading,
            !r.focused,
            !r.typing,
    {
        let mut types: Vec<String> = Vec::new();
        types.push("kubectl".to_string());
        types.push("ssh".to_string());
        assert(strings_view(types@) =~= seq!["kubectl"@, "ssh"@]);
        AutocompleteState {
            contexts: Vec::new(),
            namespaces: Vec::new(),
            services: Vec::new(),
            ports: Vec::new(),
            types,
            selected_index: 0,
            loading: false,
            focused: false,
            typing: false,
        }
    }
}

} // verus!
