//! The state that the panes share.

use vstd::prelude::*;
use crate::environment::{entries_debug_text, Environments, StoreView};
use crate::text::{debug_quoted, decimal, push_decimal, push_text, quote};

verus! {

/// Whether keys are commands or text.
#[derive(Debug, Clone, Copy, PartialEq, Eq, Structural)]
pub enum InputMode {
    Normal,
    Insert,
}

impl Default for InputMode {
    fn default() -> (mode: Self)
        ensures
            mode == InputMode::Normal,
    {
        InputMode::Normal
    }
}

impl InputMode {
    pub open spec fn name_text(self) -> Seq<char> {
        match self {
            InputMode::Normal => "Normal"@,
            InputMode::Insert => "Insert"@,
        }
    }

    /// The name of the mode.
    pub fn name(&self) -> (word: &'static str)
        ensures
            word@ == self.name_text(),
    {
        match self {
            InputMode::Normal => "Normal",
            InputMode::Insert => "Insert",
        }
    }
}

/// What every pane may read and change: the store with its selection, the
/// input mode, and the text searched for.
#[derive(Debug)]
pub struct State {
    pub envs: Environments,
    pub input_mode: InputMode,
    pub search_query: Option<String>,
}

/// The view of a text that may be absent.
pub open spec fn optional_text(text: Option<String>) -> Option<Seq<char>> {
    match text {
        Some(text) => Some(text@),
        None => None,
    }
}

/// The shared state with the store as its model.
pub struct StateView {
    pub store: StoreView,
    pub input_mode: InputMode,
    pub search_query: Option<Seq<char>>,
}

impl View for State {
    type V = StateView;

    open spec fn view(&self) -> StateView {
        StateView {
            store: self.envs@,
            input_mode: self.input_mode,
            search_query: optional_text(self.search_query),
        }
    }
}

impl StateView {
    pub open spec fn well_formed(self) -> bool {
        self.store.well_formed()
    }

    /// The state with the selection moved one step down.
    pub open spec fn next(self) -> StateView {
        StateView { store: self.store.next_selected(), ..self }
    }

    /// The state with the selection moved one step up.
    pub open spec fn prev(self) -> StateView {
        StateView { store: self.store.prev_selected(), ..self }
    }

    /// The state written out field by field, which is what a pane reports
    /// after it changed the state.
    pub open spec fn debug_text(self) -> Seq<char> {
        "State { envs: Environments { environments: ["@ + entries_debug_text(self.store.entries)
            + "] }, current_env_index: "@ + decimal(self.store.current) + ", input_mode: "@
            + self.input_mode.name_text() + ", search_query: "@ + (match self.search_query {
            Some(query) => "Some("@ + debug_quoted(query) + ")"@,
            None => "None"@,
        }) + " }"@
    }
}

impl State {
    pub open spec fn well_formed(&self) -> bool {
        self@.well_formed()
    }

    /// The state over `envs`, taking commands, with nothing searched for.
    pub fn new(envs: Environments) -> (state: Self)
        ensures
            state@ == (StateView {
                store: envs@,
                input_mode: InputMode::Normal,
                search_query: None,
            }),
    {
        State { envs, input_mode: InputMode::Normal, search_query: None }
    }

    /// The position of the selected profile.
    pub fn cur(&self) -> (index: usize)
        ensures
            index == self@.store.current,
    {
        self.envs.current()
    }

    /// Selects the next profile, the first one after the last.
    pub fn next(&mut self)
        requires
            old(self).well_formed(),
        ensures
            final(self).well_formed(),
            final(self)@ == old(self)@.next(),
    {
        self.envs.select_next();
    }

    /// Selects the previous profile, the last one before the first.
    pub fn prev(&mut self)
        requires
            old(self).well_formed(),
        ensures
            final(self).well_formed(),
            final(self)@ == old(self)@.prev(),
    {
        self.envs.select_prev();
    }

    /// The state written out field by field.
    pub fn describe(&self) -> (text: String)
        ensures
            text@ == self@.debug_text(),
    {
        let mut text = "State { envs: Environments { environments: [".to_owned();
        self.envs.describe(&mut text);
        push_text(&mut text, "] }, current_env_index: ");
        push_decimal(&mut text, self.envs.current());
        push_text(&mut text, ", input_mode: ");
        push_text(&mut text, self.input_mode.name());
        push_text(&mut text, ", search_query: ");
        match &self.search_query {
            Some(query) => {
                push_text(&mut text, "Some(");
                push_text(&mut text, quote(query.as_str()).as_str());
                push_text(&mut text, ")");
            },
            None => {
                push_text(&mut text, "None");
            },
        }
        push_text(&mut text, " }");
        assert(text@ =~= self@.debug_text());
        text
    }
}

} // verus!
