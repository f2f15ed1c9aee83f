//! The state that the key handlers work on: the store, the status line and
//! the overlay.

use vstd::prelude::*;
use crate::environment::{
    answers,
    Environment,
    EnvironmentView,
    Environments,
    StoreOp,
    StoreView,
};
use crate::errors::{EnvironmentError, ErrorView};
use crate::popup::{PopupState, PopupView};

verus! {

/// What the main screen is taking input for.
#[derive(Debug, Clone, Copy, PartialEq, Eq, Structural)]
pub enum InputMode {
    Normal,
    Adding,
    Editing,
}

/// Everything that a key can change. The selected profile is the store's
/// own selection.
#[derive(Debug)]
pub struct AppState {
    pub envs: Environments,
    pub status_message: String,
    pub popup: PopupState,
}

/// The state with the store as its model and the texts as character
/// sequences.
pub struct AppStateView {
    pub store: StoreView,
    pub status: Seq<char>,
    pub popup: PopupView,
}

impl View for AppState {
    type V = AppStateView;

    open spec fn view(&self) -> AppStateView {
        AppStateView { store: self.envs@, status: self.status_message@, popup: self.popup@ }
    }
}

impl AppStateView {
    pub open spec fn well_formed(self) -> bool {
        self.store.well_formed() && self.popup.well_formed()
    }

    /// The request that replaces the selected profile by `env`.
    pub open spec fn edit_selected(self, env: EnvironmentView) -> StoreOp {
        StoreOp::Edit(self.store.current, env)
    }

    /// The request that takes the selected profile out.
    pub open spec fn remove_selected(self) -> StoreOp {
        StoreOp::Remove(self.store.current)
    }

    /// This state after `op` was tried on its store.
    pub open spec fn with_request(self, op: StoreOp) -> AppStateView {
        AppStateView { store: self.store.applied(op), ..self }
    }
}

impl AppState {
    pub open spec fn well_formed(&self) -> bool {
        self@.well_formed()
    }

    /// A state over `envs` with an empty status line.
    pub fn new(envs: Environments, popup: PopupState) -> (state: Self)
        ensures
            state@ == (AppStateView { store: envs@, status: Seq::empty(), popup: popup@ }),
    {
        AppState { envs, status_message: String::new(), popup }
    }

    /// The position of the selected profile.
    pub fn selected_index(&self) -> (index: usize)
        ensures
            index == self@.store.current,
    {
        self.envs.current()
    }

    /// Appends `env` to the store.
    pub fn add_env(&mut self, env: Environment) -> (outcome: Result<(), EnvironmentError>)
        requires
            old(self).well_formed(),
        ensures
            final(self).well_formed(),
            final(self)@ == old(self)@.with_request(StoreOp::Add(env@)),
            answers(outcome, old(self)@.store.refusal(StoreOp::Add(env@))),
    {
        self.envs.add(env)
    }

    /// Takes the selected profile out.
    pub fn remove_env(&mut self) -> (outcome: Result<(), EnvironmentError>)
        requires
            old(self).well_formed(),
        ensures
            final(self).well_formed(),
            final(self)@ == old(self)@.with_request(old(self)@.remove_selected()),
            answers(outcome, old(self)@.store.refusal(old(self)@.remove_selected())),
    {
        let index = self.envs.current();
        self.envs.remove(index)
    }

    /// Replaces the selected profile by `env`.
    pub fn edit_env(&mut self, env: Environment) -> (outcome: Result<(), EnvironmentError>)
        requires
            old(self).well_formed(),
        ensures
            final(self).well_formed(),
            final(self)@ == old(self)@.with_request(old(self)@.edit_selected(env@)),
            answers(outcome, old(self)@.store.refusal(old(self)@.edit_selected(env@))),
    {
        let index = self.envs.current();
        self.envs.edit(index, env)
    }

    /// The selected profile; there is none in an empty store.
    pub fn curr_env(&self) -> (outcome: Result<&Environment, EnvironmentError>)
        ensures
            self@.store.current < self@.store.entries.len() ==> (outcome matches Ok(env) && env@
                == self@.store.entries[self@.store.current as int]),
            self@.store.current >= self@.store.entries.len() ==> (outcome matches Err(e) && e@
                == ErrorView::InvalidIndex(self@.store.current)),
    {
        self.envs.get(self.envs.current())
    }

    /// The number of profiles.
    pub fn len_env(&self) -> (count: usize)
        ensures
            count == self@.store.entries.len(),
    {
        self.envs.len()
    }

    /// Whether there is no profile.
    pub fn is_empty_env(&self) -> (none: bool)
        ensures
            none == (self@.store.entries.len() == 0),
    {
        self.envs.is_empty()
    }
}

} // verus!
