//! The key dispatcher: what each key does to the state, on the main
//! screen and inside the overlay.
//!
//! A handler changes the state and answers with an [`Effect`], the work
//! that only the embedding program can do. Once that work is done, the
//! program reports back through [`save_done`] or [`transform_done`].

use vstd::prelude::*;
use crate::app_state::{AppState, AppStateView};
use crate::config::AppConfig;
use crate::encryption::{
    decrypt,
    decrypt_invocation,
    encrypt,
    encrypt_invocation,
    outcome_view,
    Invocation,
    InvocationView,
};
use crate::environment::{Environment, EnvironmentView, StoreOp};
use crate::errors::{EnvironmentError, ErrorView};
use crate::layout::{split, Constraint, Direction, Rect};
use crate::popup::{
    algorithm_at,
    algorithm_index,
    algorithm_position,
    algorithm_table,
    draw_popup,
    marker,
    optional_frame,
    row_views,
    state_at,
    state_index,
    state_position,
    state_table,
    PopupField,
    PopupFrame,
    PopupFrameView,
    PopupMode,
    PopupView,
    ALGORITHM_COUNT,
    POPUP_HEIGHT,
    STATE_COUNT,
};
use crate::text::{bool_text, bool_word, push_text};

verus! {

/// A key as the handlers see it.
#[derive(Debug, Clone, Copy, PartialEq, Eq, Structural)]
pub enum KeyCode {
    Char(char),
    Up,
    Down,
    Tab,
    BackTab,
    Backspace,
    Enter,
    Esc,
    /// Any key that no handler knows.
    Other,
}

/// The two transforms.
#[derive(Debug, Clone, Copy, PartialEq, Eq, Structural)]
pub enum Transform {
    Encrypt,
    Decrypt,
}

/// Work that a key leaves to the embedding program.
#[derive(Debug)]
pub enum Effect {
    /// Nothing; go on with the next key.
    Continue,
    /// Write the store to the file at this path, then call [`save_done`].
    Save(String),
    /// Leave the program.
    Quit,
    /// Start the transform tool as given, then call [`transform_done`]
    /// with its answer.
    Run(Transform, Invocation),
    /// Stop with this error: a transform was confirmed while no profile
    /// is selected.
    Abort(EnvironmentError),
}

/// An effect with its texts as character sequences.
pub enum EffectView {
    Continue,
    Save(Seq<char>),
    Quit,
    Run(Transform, InvocationView),
    Abort(ErrorView),
}

impl View for Effect {
    type V = EffectView;

    open spec fn view(&self) -> EffectView {
        match self {
            Effect::Continue => EffectView::Continue,
            Effect::Save(path) => EffectView::Save(path@),
            Effect::Quit => EffectView::Quit,
            Effect::Run(transform, call) => EffectView::Run(*transform, call@),
            Effect::Abort(e) => EffectView::Abort(e@),
        }
    }
}

/// The field after `current` in the ring of the profile form.
pub open spec fn focus_after(current: PopupField) -> PopupField {
    match current {
        PopupField::Name => PopupField::Algorithm,
        PopupField::Algorithm => PopupField::State,
        PopupField::State => PopupField::IV,
        PopupField::IV => PopupField::Key,
        PopupField::Key => PopupField::Name,
        _ => current,
    }
}

/// The field before `current` in the ring of the profile form.
pub open spec fn focus_before(current: PopupField) -> PopupField {
    match current {
        PopupField::Name => PopupField::Key,
        PopupField::Algorithm => PopupField::Name,
        PopupField::State => PopupField::Algorithm,
        PopupField::IV => PopupField::State,
        PopupField::Key => PopupField::IV,
        _ => current,
    }
}

/// The field after `current` in the ring of the transform form.
pub open spec fn transform_focus_after(current: PopupField) -> PopupField {
    match current {
        PopupField::TextInput => PopupField::EncryptButton,
        PopupField::EncryptButton => PopupField::DecryptButton,
        PopupField::DecryptButton => PopupField::TextInput,
        _ => current,
    }
}

/// The field before `current` in the ring of the transform form.
pub open spec fn transform_focus_before(current: PopupField) -> PopupField {
    match current {
        PopupField::TextInput => PopupField::DecryptButton,
        PopupField::EncryptButton => PopupField::TextInput,
        PopupField::DecryptButton => PopupField::EncryptButton,
        _ => current,
    }
}

/// `text` without its last character, if it has one.
pub open spec fn without_last(text: Seq<char>) -> Seq<char> {
    if text.len() > 0 {
        text.drop_last()
    } else {
        text
    }
}

impl PopupView {
    /// The profile that the buffers of the form describe.
    pub open spec fn drafted(self) -> EnvironmentView {
        EnvironmentView {
            name: self.name,
            algorithm: algorithm_table()[self.selected_algorithm as int],
            state: state_table()[self.selected_state as int],
            use_random_ivs: self.use_random_ivs,
            key: self.key,
        }
    }

    /// The form opened for a new profile.
    pub open spec fn opened_for_add(self) -> PopupView {
        PopupView {
            mode: PopupMode::Add,
            focus: PopupField::Name,
            name: Seq::empty(),
            selected_algorithm: 0,
            selected_state: 0,
            use_random_ivs: true,
            key: Seq::empty(),
            ..self
        }
    }

    /// The form opened on the profile `env`.
    pub open spec fn opened_for_edit(self, env: EnvironmentView) -> PopupView {
        PopupView {
            mode: PopupMode::Edit,
            focus: PopupField::Name,
            name: env.name,
            selected_algorithm: algorithm_position(env.algorithm),
            selected_state: state_position(env.state),
            use_random_ivs: env.use_random_ivs,
            key: env.key,
            ..self
        }
    }

    /// The transform form opened with an empty text.
    pub open spec fn opened_for_transform(self) -> PopupView {
        PopupView {
            mode: PopupMode::EncryptDecrypt,
            focus: PopupField::TextInput,
            text_input: Seq::empty(),
            ..self
        }
    }

    /// The overlay closed, its buffers left as they are.
    pub open spec fn dismissed(self) -> PopupView {
        PopupView { mode: PopupMode::Inactive, ..self }
    }

    /// The profile form after a key other than the confirming one. Up and
    /// down move the choice of the field in focus and stop at the ends of
    /// its table; a space flips the choice of random vectors only while
    /// that field is in focus; characters go to the name or the key.
    pub open spec fn form_key(self, key: KeyCode) -> PopupView {
        match key {
            KeyCode::Tab => PopupView { focus: focus_after(self.focus), ..self },
            KeyCode::BackTab => PopupView { focus: focus_before(self.focus), ..self },
            KeyCode::Up => if self.focus == PopupField::Algorithm && self.selected_algorithm > 0 {
                PopupView { selected_algorithm: (self.selected_algorithm - 1) as nat, ..self }
            } else if self.focus == PopupField::State && self.selected_state > 0 {
                PopupView { selected_state: (self.selected_state - 1) as nat, ..self }
            } else {
                self
            },
            KeyCode::Down => if self.focus == PopupField::Algorithm && self.selected_algorithm + 1
                < ALGORITHM_COUNT {
                PopupView { selected_algorithm: self.selected_algorithm + 1, ..self }
            } else if self.focus == PopupField::State && self.selected_state + 1 < STATE_COUNT {
                PopupView { selected_state: self.selected_state + 1, ..self }
            } else {
                self
            },
            KeyCode::Char(c) => if c == ' ' && self.focus == PopupField::IV {
                PopupView { use_random_ivs: !self.use_random_ivs, ..self }
            } else if self.focus == PopupField::Name {
                PopupView { name: self.name.push(c), ..self }
            } else if self.focus == PopupField::Key {
                PopupView { key: self.key.push(c), ..self }
            } else {
                self
            },
            KeyCode::Backspace => if self.focus == PopupField::Name {
                PopupView { name: without_last(self.name), ..self }
            } else if self.focus == PopupField::Key {
                PopupView { key: without_last(self.key), ..self }
            } else {
                self
            },
            KeyCode::Esc => self.dismissed(),
            _ => self,
        }
    }

    /// The transform form after a key other than the confirming one.
    pub open spec fn transform_key(self, key: KeyCode) -> PopupView {
        match key {
            KeyCode::Tab => PopupView { focus: transform_focus_after(self.focus), ..self },
            KeyCode::BackTab => PopupView { focus: transform_focus_before(self.focus), ..self },
            KeyCode::Char(c) => if self.focus == PopupField::TextInput {
                PopupView { text_input: self.text_input.push(c), ..self }
            } else {
                self
            },
            KeyCode::Backspace => if self.focus == PopupField::TextInput {
                PopupView { text_input: without_last(self.text_input), ..self }
            } else {
                self
            },
            KeyCode::Esc => self.dismissed(),
            _ => self,
        }
    }
}

/// The status line after a profile form was confirmed.
pub open spec fn confirm_status(refusal: Option<ErrorView>) -> Seq<char> {
    match refusal {
        None => "Environment edited"@,
        Some(reason) => "Error: "@ + reason.message_text(),
    }
}

/// The status line after the selected profile was asked to be removed.
pub open spec fn remove_status(refusal: Option<ErrorView>) -> Seq<char> {
    match refusal {
        None => "Environment removed"@,
        Some(reason) => "Error removing env: "@ + reason.message_text(),
    }
}

/// The status line after a transform came back.
pub open spec fn transform_status(transform: Transform, answer: Result<Seq<char>, Seq<char>>) -> Seq<
    char,
> {
    match answer {
        Ok(text) => match transform {
            Transform::Encrypt => "Encrypted: "@ + text,
            Transform::Decrypt => "Decrypted: "@ + text,
        },
        Err(reason) => "Error: "@ + reason,
    }
}

impl AppStateView {
    /// Whether a profile is selected.
    pub open spec fn has_selection(self) -> bool {
        self.store.current < self.store.entries.len()
    }

    /// The selected profile.
    pub open spec fn selected(self) -> EnvironmentView {
        self.store.entries[self.store.current as int]
    }

    /// The request that confirming the profile form makes of the store.
    pub open spec fn confirm_request(self) -> Option<StoreOp> {
        match self.popup.mode {
            PopupMode::Add => Some(StoreOp::Add(self.popup.drafted())),
            PopupMode::Edit => Some(StoreOp::Edit(self.store.current, self.popup.drafted())),
            _ => None,
        }
    }

    /// The state after the profile form was confirmed: the request is
    /// tried, its outcome becomes the status line, and the overlay closes
    /// whether or not the request was taken.
    pub open spec fn confirmed(self) -> AppStateView {
        match self.confirm_request() {
            Some(op) => AppStateView {
                store: self.store.applied(op),
                status: confirm_status(self.store.refusal(op)),
                popup: self.popup.dismissed(),
            },
            None => AppStateView {
                status: confirm_status(None),
                popup: self.popup.dismissed(),
                ..self
            },
        }
    }

    /// The state after `key` came in while the profile form is open.
    pub open spec fn after_form_key(self, key: KeyCode) -> AppStateView {
        if key == KeyCode::Enter {
            self.confirmed()
        } else {
            AppStateView { popup: self.popup.form_key(key), ..self }
        }
    }

    /// The state after `key` came in while the transform form is open. The
    /// confirming key changes nothing by itself: the overlay closes when
    /// the answer of the transform is reported.
    pub open spec fn after_transform_key(self, key: KeyCode) -> AppStateView {
        if key == KeyCode::Enter {
            self
        } else {
            AppStateView { popup: self.popup.transform_key(key), ..self }
        }
    }

    /// The work that `key` leaves to the program while the transform form
    /// is open: confirming on a button starts the transform of the typed
    /// text under the selected profile.
    pub open spec fn transform_effect(self, key: KeyCode, jar_path: Seq<char>) -> EffectView {
        if key == KeyCode::Enter && (self.popup.focus == PopupField::EncryptButton
            || self.popup.focus == PopupField::DecryptButton) {
            if !self.has_selection() {
                EffectView::Abort(ErrorView::InvalidIndex(self.store.current))
            } else if self.popup.focus == PopupField::EncryptButton {
                EffectView::Run(
                    Transform::Encrypt,
                    encrypt_invocation(self.popup.text_input, self.selected(), jar_path),
                )
            } else {
                EffectView::Run(
                    Transform::Decrypt,
                    decrypt_invocation(self.popup.text_input, self.selected(), jar_path),
                )
            }
        } else {
            EffectView::Continue
        }
    }

    /// The state after the answer of a transform was reported.
    pub open spec fn after_transform(
        self,
        transform: Transform,
        answer: Result<Seq<char>, Seq<char>>,
    ) -> AppStateView {
        AppStateView {
            status: transform_status(transform, answer),
            popup: self.popup.dismissed(),
            ..self
        }
    }

    /// The state after `key` came in on the main screen.
    pub open spec fn after_normal_key(self, key: KeyCode) -> AppStateView {
        match key {
            KeyCode::Char(c) => if c == 'a' {
                AppStateView { popup: self.popup.opened_for_add(), ..self }
            } else if c == 'e' && self.has_selection() {
                AppStateView { popup: self.popup.opened_for_edit(self.selected()), ..self }
            } else if c == 'r' {
                AppStateView {
                    store: self.store.applied(self.remove_selected()),
                    status: remove_status(self.store.refusal(self.remove_selected())),
                    ..self
                }
            } else {
                self
            },
            KeyCode::Down => AppStateView { store: self.store.next_selected(), ..self },
            KeyCode::Up => AppStateView { store: self.store.prev_selected(), ..self },
            KeyCode::Enter => if self.has_selection() {
                AppStateView { popup: self.popup.opened_for_transform(), ..self }
            } else {
                self
            },
            _ => self,
        }
    }

    /// The state after `key` came in: the overlay takes every key while it
    /// is open, and the main screen sees none of them.
    pub open spec fn after_key(self, key: KeyCode) -> AppStateView {
        match self.popup.mode {
            PopupMode::Inactive => self.after_normal_key(key),
            PopupMode::Add | PopupMode::Edit => self.after_form_key(key),
            PopupMode::EncryptDecrypt => self.after_transform_key(key),
        }
    }
}

/// The work that `key` leaves to the program on the main screen.
pub open spec fn normal_effect(key: KeyCode, envs_path: Seq<char>) -> EffectView {
    if key == KeyCode::Char('s') {
        EffectView::Save(envs_path)
    } else if key == KeyCode::Char('q') {
        EffectView::Quit
    } else {
        EffectView::Continue
    }
}

/// The work that `key` leaves to the program in the given state.
pub open spec fn key_effect(
    state: AppStateView,
    key: KeyCode,
    jar_path: Seq<char>,
    envs_path: Seq<char>,
) -> EffectView {
    match state.popup.mode {
        PopupMode::Inactive => normal_effect(key, envs_path),
        PopupMode::Add | PopupMode::Edit => EffectView::Continue,
        PopupMode::EncryptDecrypt => state.transform_effect(key, jar_path),
    }
}

/// While the overlay is open it takes every key: no key but the one that
/// confirms the profile form changes the store or the status line.
pub proof fn lemma_open_overlay_takes_every_key(state: AppStateView, key: KeyCode)
    requires
        state.popup.mode != PopupMode::Inactive,
        key != KeyCode::Enter,
    ensures
        state.after_key(key).store == state.store,
        state.after_key(key).status == state.status,
{
}

/// A confirmed profile form that the store turns down changes nothing but
/// the status line, which tells why, and the overlay, which closes.
pub proof fn lemma_refused_confirm_only_reports(state: AppStateView, reason: ErrorView)
    requires
        state.confirm_request() matches Some(op) && state.store.refusal(op) == Some(reason),
    ensures
        state.confirmed().store == state.store,
        state.confirmed().status == "Error: "@ + reason.message_text(),
        state.confirmed().popup == state.popup.dismissed(),
        state.confirmed().popup.mode == PopupMode::Inactive,
{
}

/// The field reached from `start` by `times` steps forward in the ring
/// of the profile form.
pub open spec fn focus_after_steps(start: PopupField, times: nat) -> PopupField
    decreases times,
{
    if times == 0 {
        start
    } else {
        focus_after(focus_after_steps(start, (times - 1) as nat))
    }
}

/// The field reached from `start` by `times` steps backward in the ring
/// of the profile form.
pub open spec fn focus_before_steps(start: PopupField, times: nat) -> PopupField
    decreases times,
{
    if times == 0 {
        start
    } else {
        focus_before(focus_before_steps(start, (times - 1) as nat))
    }
}

/// The field reached from `start` by `times` steps forward in the ring
/// of the transform form.
pub open spec fn transform_focus_after_steps(start: PopupField, times: nat) -> PopupField
    decreases times,
{
    if times == 0 {
        start
    } else {
        transform_focus_after(transform_focus_after_steps(start, (times - 1) as nat))
    }
}

/// The field reached from `start` by `times` steps backward in the ring
/// of the transform form.
pub open spec fn transform_focus_before_steps(start: PopupField, times: nat) -> PopupField
    decreases times,
{
    if times == 0 {
        start
    } else {
        transform_focus_before(transform_focus_before_steps(start, (times - 1) as nat))
    }
}

/// Whether `field` belongs to the profile form.
pub open spec fn in_form_ring(field: PopupField) -> bool {
    field == PopupField::Name || field == PopupField::Algorithm || field == PopupField::State
        || field == PopupField::IV || field == PopupField::Key
}

/// Whether `field` belongs to the transform form.
pub open spec fn in_transform_ring(field: PopupField) -> bool {
    field == PopupField::TextInput || field == PopupField::EncryptButton || field
        == PopupField::DecryptButton
}

/// The profile form is a ring of five fields: from any of them, five
/// steps forward lead back to it, and fewer do not.
pub proof fn lemma_form_focus_is_five_cycle(start: PopupField)
    requires
        in_form_ring(start),
    ensures
        focus_after_steps(start, 5) == start,
        forall|times: nat| 0 < times < 5 ==> focus_after_steps(start, times) != start,
        focus_after_steps(PopupField::Name, 1) == PopupField::Algorithm,
        focus_after_steps(PopupField::Name, 2) == PopupField::State,
        focus_after_steps(PopupField::Name, 3) == PopupField::IV,
        focus_after_steps(PopupField::Name, 4) == PopupField::Key,
{
    reveal_with_fuel(focus_after_steps, 6);
}

/// The transform form is a ring of three fields: from any of them, three
/// steps forward lead back to it, and fewer do not.
pub proof fn lemma_transform_focus_is_three_cycle(start: PopupField)
    requires
        in_transform_ring(start),
    ensures
        transform_focus_after_steps(start, 3) == start,
        forall|times: nat| 0 < times < 3 ==> transform_focus_after_steps(start, times) != start,
        transform_focus_after_steps(PopupField::TextInput, 1) == PopupField::EncryptButton,
        transform_focus_after_steps(PopupField::TextInput, 2) == PopupField::DecryptButton,
{
    reveal_with_fuel(transform_focus_after_steps, 4);
}

proof fn lemma_focus_before_steps_shift(start: PopupField, times: nat)
    ensures
        focus_before_steps(focus_before(start), times) == focus_before(
            focus_before_steps(start, times),
        ),
    decreases times,
{
    if times > 0 {
        lemma_focus_before_steps_shift(start, (times - 1) as nat);
    }
}

proof fn lemma_transform_focus_before_steps_shift(start: PopupField, times: nat)
    ensures
        transform_focus_before_steps(transform_focus_before(start), times)
            == transform_focus_before(transform_focus_before_steps(start, times)),
    decreases times,
{
    if times > 0 {
        lemma_transform_focus_before_steps_shift(start, (times - 1) as nat);
    }
}

/// In the profile form, any number of steps forward followed by as many
/// steps backward ends on the field where it began.
pub proof fn lemma_form_focus_there_and_back(start: PopupField, times: nat)
    ensures
        focus_before_steps(focus_after_steps(start, times), times) == start,
    decreases times,
{
    if times > 0 {
        let before = focus_after_steps(start, (times - 1) as nat);
        lemma_focus_before_steps_shift(focus_after(before), (times - 1) as nat);
        assert(focus_before(focus_after(before)) == before);
        lemma_form_focus_there_and_back(start, (times - 1) as nat);
    }
}

/// In the transform form, any number of steps forward followed by as
/// many steps backward ends on the field where it began.
pub proof fn lemma_transform_focus_there_and_back(start: PopupField, times: nat)
    ensures
        transform_focus_before_steps(transform_focus_after_steps(start, times), times) == start,
    decreases times,
{
    if times > 0 {
        let before = transform_focus_after_steps(start, (times - 1) as nat);
        lemma_transform_focus_before_steps_shift(transform_focus_after(before), (times - 1) as nat);
        assert(transform_focus_before(transform_focus_after(before)) == before);
        lemma_transform_focus_there_and_back(start, (times - 1) as nat);
    }
}

/// The field that the focus moves to, forward in the profile form.
pub fn next_focus(current: PopupField) -> (next: PopupField)
    ensures
        next == focus_after(current),
{
    match current {
        PopupField::Name => PopupField::Algorithm,
        PopupField::Algorithm => PopupField::State,
        PopupField::State => PopupField::IV,
        PopupField::IV => PopupField::Key,
        PopupField::Key => PopupField::Name,
        _ => current,
    }
}

/// The field that the focus moves to, backward in the profile form.
pub fn prev_focus(current: PopupField) -> (prev: PopupField)
    ensures
        prev == focus_before(current),
{
    match current {
        PopupField::Name => PopupField::Key,
        PopupField::Algorithm => PopupField::Name,
        PopupField::State => PopupField::Algorithm,
        PopupField::IV => PopupField::State,
        PopupField::Key => PopupField::IV,
        _ => current,
    }
}

/// The field that the focus moves to, forward in the transform form.
pub fn next_focus_encrypt_decrypt(current: PopupField) -> (next: PopupField)
    ensures
        next == transform_focus_after(current),
{
    match current {
        PopupField::TextInput => PopupField::EncryptButton,
        PopupField::EncryptButton => PopupField::DecryptButton,
        PopupField::DecryptButton => PopupField::TextInput,
        _ => current,
    }
}

/// The field that the focus moves to, backward in the transform form.
pub fn prev_focus_encrypt_decrypt(current: PopupField) -> (prev: PopupField)
    ensures
        prev == transform_focus_before(current),
{
    match current {
        PopupField::TextInput => PopupField::DecryptButton,
        PopupField::EncryptButton => PopupField::TextInput,
        PopupField::DecryptButton => PopupField::EncryptButton,
        _ => current,
    }
}

/// Handles a key on the main screen.
pub fn handle_normal_input(state: &mut AppState, code: KeyCode, config: &AppConfig) -> (effect:
    Effect)
    requires
        old(state).well_formed(),
    ensures
        final(state).well_formed(),
        final(state)@ == old(state)@.after_normal_key(code),
        effect@ == normal_effect(code, config.envs_path@),
{
    match code {
        KeyCode::Char(c) => {
            if c == 's' {
                return Effect::Save(config.envs_path.clone());
            } else if c == 'q' {
                return Effect::Quit;
            } else if c == 'a' {
                state.popup.mode = PopupMode::Add;
                state.popup.focus = PopupField::Name;
                state.popup.name = String::new();
                state.popup.key = String::new();
                state.popup.selected_algorithm = 0;
                state.popup.selected_state = 0;
                state.popup.use_random_ivs = true;
            } else if c == 'e' {
                if state.selected_index() < state.len_env() {
                    match state.curr_env() {
                        Ok(curr) => {
                            let curr = curr.clone();
                            state.popup.mode = PopupMode::Edit;
                            state.popup.focus = PopupField::Name;
                            state.popup.name = curr.name;
                            state.popup.selected_algorithm = algorithm_index(curr.algorithm);
                            state.popup.selected_state = state_index(curr.state);
                            state.popup.use_random_ivs = curr.use_random_ivs;
                            state.popup.key = curr.key;
                        },
                        Err(_) => {},
                    }
                }
            } else if c == 'r' {
                match state.remove_env() {
                    Err(err) => {
                        let mut status = "Error removing env: ".to_owned();
                        status.append(err.message().as_str());
                        state.status_message = status;
                    },
                    Ok(()) => {
                        state.status_message = "Environment removed".to_owned();
                    },
                }
            }
        },
        KeyCode::Down => {
            state.envs.select_next();
        },
        KeyCode::Up => {
            state.envs.select_prev();
        },
        KeyCode::Enter => {
            if state.selected_index() < state.len_env() {
                state.popup.mode = PopupMode::EncryptDecrypt;
                state.popup.focus = PopupField::TextInput;
                state.popup.text_input = String::new();
            }
        },
        _ => {},
    }
    Effect::Continue
}

/// Handles a key while the overlay is open.
pub fn handle_popup_input(state: &mut AppState, code: KeyCode, config: &AppConfig) -> (effect:
    Effect)
    requires
        old(state).well_formed(),
    ensures
        final(state).well_formed(),
        old(state)@.popup.mode == PopupMode::Inactive ==> final(state)@ == old(state)@,
        old(state)@.popup.mode != PopupMode::Inactive ==> final(state)@ == old(state)@.after_key(
            code,
        ),
        effect@ == match old(state)@.popup.mode {
            PopupMode::EncryptDecrypt => old(state)@.transform_effect(code, config.jar_path@),
            _ => EffectView::Continue,
        },
{
    match state.popup.mode {
        PopupMode::Add | PopupMode::Edit => {
            handle_add_edit_popup_input(state, code);
            Effect::Continue
        },
        PopupMode::EncryptDecrypt => handle_encrypt_decrypt_popup_input(state, code, config),
        PopupMode::Inactive => Effect::Continue,
    }
}

/// Handles a key while the profile form is open.
pub fn handle_add_edit_popup_input(state: &mut AppState, code: KeyCode)
    requires
        old(state).well_formed(),
    ensures
        final(state).well_formed(),
        final(state)@ == old(state)@.after_form_key(code),
{
    match code {
        KeyCode::Tab => {
            state.popup.focus = next_focus(state.popup.focus);
        },
        KeyCode::BackTab => {
            state.popup.focus = prev_focus(state.popup.focus);
        },
        KeyCode::Up => {
            if state.popup.focus == PopupField::Algorithm && state.popup.selected_algorithm > 0 {
                state.popup.selected_algorithm -= 1;
            } else if state.popup.focus == PopupField::State && state.popup.selected_state > 0 {
                state.popup.selected_state -= 1;
            }
        },
        KeyCode::Down => {
            if state.popup.focus == PopupField::Algorithm && state.popup.selected_algorithm + 1
                < ALGORITHM_COUNT {
                state.popup.selected_algorithm += 1;
            } else if state.popup.focus == PopupField::State && state.popup.selected_state + 1
                < STATE_COUNT {
                state.popup.selected_state += 1;
            }
        },
        KeyCode::Char(c) => {
            if c == ' ' && state.popup.focus == PopupField::IV {
                state.popup.use_random_ivs = !state.popup.use_random_ivs;
            } else if state.popup.focus == PopupField::Name {
                state.popup.name.push(c);
            } else if state.popup.focus == PopupField::Key {
                state.popup.key.push(c);
            }
        },
        KeyCode::Backspace => {
            if state.popup.focus == PopupField::Name {
                state.popup.name.pop();
            } else if state.popup.focus == PopupField::Key {
                state.popup.key.pop();
            }
        },
        KeyCode::Enter => {
            let new_env = Environment {
                name: state.popup.name.clone(),
                algorithm: algorithm_at(state.popup.selected_algorithm),
                state: state_at(state.popup.selected_state),
                use_random_ivs: state.popup.use_random_ivs,
                key: state.popup.key.clone(),
            };
            let res = match state.popup.mode {
                PopupMode::Add => state.add_env(new_env),
                PopupMode::Edit => state.edit_env(new_env),
                PopupMode::Inactive | PopupMode::EncryptDecrypt => Ok(()),
            };
            match res {
                Ok(_) => {
                    state.status_message = "Environment edited".to_owned();
                },
                Err(e) => {
                    let mut status = "Error: ".to_owned();
                    status.append(e.message().as_str());
                    state.status_message = status;
                },
            }
            state.popup.mode = PopupMode::Inactive;
        },
        KeyCode::Esc => {
            state.popup.mode = PopupMode::Inactive;
        },
        _ => {},
    }
}

/// Handles a key while the transform form is open.
pub fn handle_encrypt_decrypt_popup_input(
    state: &mut AppState,
    code: KeyCode,
    config: &AppConfig,
) -> (effect: Effect)
    requires
        old(state).well_formed(),
    ensures
        final(state).well_formed(),
        final(state)@ == old(state)@.after_transform_key(code),
        effect@ == old(state)@.transform_effect(code, config.jar_path@),
{
    match code {
        KeyCode::Tab => {
            state.popup.focus = next_focus_encrypt_decrypt(state.popup.focus);
        },
        KeyCode::BackTab => {
            state.popup.focus = prev_focus_encrypt_decrypt(state.popup.focus);
        },
        KeyCode::Char(c) => {
            if state.popup.focus == PopupField::TextInput {
                state.popup.text_input.push(c);
            }
        },
        KeyCode::Backspace => {
            if state.popup.focus == PopupField::TextInput {
                state.popup.text_input.pop();
            }
        },
        KeyCode::Enter => {
            if state.popup.focus == PopupField::EncryptButton {
                match state.curr_env() {
                    Ok(env) => {
                        return Effect::Run(
                            Transform::Encrypt,
                            encrypt(state.popup.text_input.as_str(), env, config.jar_path.as_str()),
                        );
                    },
                    Err(e) => {
                        return Effect::Abort(e);
                    },
                }
            } else if state.popup.focus == PopupField::DecryptButton {
                match state.curr_env() {
                    Ok(env) => {
                        return Effect::Run(
                            Transform::Decrypt,
                            decrypt(state.popup.text_input.as_str(), env, config.jar_path.as_str()),
                        );
                    },
                    Err(e) => {
                        return Effect::Abort(e);
                    },
                }
            }
        },
        KeyCode::Esc => {
            state.popup.mode = PopupMode::Inactive;
        },
        _ => {},
    }
    Effect::Continue
}

/// Takes the answer of a transform: it becomes the status line, and the
/// overlay closes.
pub fn transform_done(state: &mut AppState, transform: Transform, answer: Result<String, String>)
    requires
        old(state).well_formed(),
    ensures
        final(state).well_formed(),
        final(state)@ == old(state)@.after_transform(
            transform,
            outcome_view(answer),
        ),
{
    match answer {
        Ok(text) => {
            let mut status = match transform {
                Transform::Encrypt => "Encrypted: ".to_owned(),
                Transform::Decrypt => "Decrypted: ".to_owned(),
            };
            status.append(text.as_str());
            state.status_message = status;
        },
        Err(reason) => {
            let mut status = "Error: ".to_owned();
            status.append(reason.as_str());
            state.status_message = status;
        },
    }
    state.popup.mode = PopupMode::Inactive;
}

/// Notes on the status line that the store was written.
pub fn save_done(state: &mut AppState)
    ensures
        final(state)@ == (AppStateView { status: "Environments are saved"@, ..old(state)@ }),
{
    state.status_message = "Environments are saved".to_owned();
}

/// Handles a key: the overlay takes it while it is open, else the main
/// screen does.
pub fn handle_key(state: &mut AppState, code: KeyCode, config: &AppConfig) -> (effect: Effect)
    requires
        old(state).well_formed(),
    ensures
        final(state).well_formed(),
        final(state)@ == old(state)@.after_key(code),
        effect@ == key_effect(old(state)@, code, config.jar_path@, config.envs_path@),
{
    if state.popup.mode != PopupMode::Inactive {
        handle_popup_input(state, code, config)
    } else {
        handle_normal_input(state, code, config)
    }
}

/// Where the parts of the screen are drawn.
#[derive(Debug, Clone, Copy, PartialEq, Eq, Structural)]
pub struct UiAreas {
    pub list: Rect,
    pub details: Rect,
    pub status: Rect,
    pub hints: Rect,
}

/// What is drawn for the whole screen: the list of profiles with the
/// selected one marked, the details of the selected one, the status
/// line, the hints, and the overlay on top if it is open.
#[derive(Debug)]
pub struct UiFrame {
    pub areas: UiAreas,
    pub items: Vec<String>,
    pub details: String,
    pub status: String,
    pub hints: String,
    pub popup: Option<PopupFrame>,
}

/// A screen drawing with its texts as character sequences.
pub struct UiFrameView {
    pub areas: UiAreas,
    pub items: Seq<Seq<char>>,
    pub details: Seq<char>,
    pub status: Seq<char>,
    pub hints: Seq<char>,
    pub popup: Option<PopupFrameView>,
}

impl View for UiFrame {
    type V = UiFrameView;

    open spec fn view(&self) -> UiFrameView {
        UiFrameView {
            areas: self.areas,
            items: row_views(self.items@),
            details: self.details@,
            status: self.status@,
            hints: self.hints@,
            popup: optional_frame(self.popup),
        }
    }
}

/// The details of `env`, one field per line.
pub open spec fn details_text(env: EnvironmentView) -> Seq<char> {
    "Algorithm: "@ + env.algorithm.name_text() + "\nState: "@ + env.state.name_text()
        + "\nUse Random IVs: "@ + bool_text(env.use_random_ivs) + "\nKey: "@ + env.key
}

/// Where the parts of the screen go once it was divided: `rows` are the
/// three rows of the screen, and `top` the two halves of the first row.
pub open spec fn areas_of(rows: Seq<Rect>, top: Seq<Rect>) -> UiAreas {
    UiAreas { list: top[0], details: top[1], status: rows[1], hints: rows[2] }
}

impl AppStateView {
    /// The rows of the list: every name, the selected one marked.
    pub open spec fn item_rows(self) -> Seq<Seq<char>> {
        Seq::new(
            self.store.entries.len(),
            |i: int| marker(i == self.store.current) + self.store.entries[i].name,
        )
    }

    /// Whether a screen of the given size has room for what is drawn.
    pub open spec fn fits(self, size: Rect) -> bool {
        self.popup.mode != PopupMode::Inactive ==> size.height >= POPUP_HEIGHT
    }

    /// What is drawn for the whole screen, given where its parts go and
    /// what is drawn for the overlay.
    pub open spec fn screen(self, areas: UiAreas, popup: Option<PopupFrameView>) -> UiFrameView {
        UiFrameView {
            areas,
            items: self.item_rows(),
            details: if self.has_selection() {
                details_text(self.selected())
            } else {
                "No environment selected"@
            },
            status: self.status,
            hints: "Hints: [a] Add Env | [e] Edit Env | [r] Remove Env | [Up/Down] Cycle Env | [s] Save | [q] Quit"@,
            popup,
        }
    }
}

/// What is drawn for the whole screen, with its parts in the given
/// rectangles and the given drawing of the overlay on top.
pub fn ui_frame(state: &AppState, rows: &Vec<Rect>, top: &Vec<Rect>, popup: Option<PopupFrame>) -> (frame:
    UiFrame)
    requires
        rows@.len() == 3,
        top@.len() == 2,
    ensures
        frame@ == state@.screen(areas_of(rows@, top@), optional_frame(popup)),
{
    let len = state.len_env();
    let selected = state.selected_index();
    let mut items: Vec<String> = Vec::new();
    let mut i: usize = 0;
    while i < len
        invariant
            i <= len,
            len == state@.store.entries.len(),
            selected == state@.store.current,
            row_views(items@) == state@.item_rows().take(i as int),
        decreases len - i,
    {
        match state.envs.get(i) {
            Ok(env) => {
                let mut row = if i == selected {
                    "> ".to_owned()
                } else {
                    "  ".to_owned()
                };
                push_text(&mut row, env.name.as_str());
                let ghost before = row_views(items@);
                items.push(row);
                assert(row_views(items@) =~= before.push(row@));
                assert(state@.item_rows().take(i + 1) =~= state@.item_rows().take(i as int).push(
                    row@,
                ));
            },
            Err(_) => {},
        }
        i += 1;
    }
    assert(state@.item_rows().take(i as int) =~= state@.item_rows());
    let details = match state.curr_env() {
        Ok(env) => {
            let mut text = "Algorithm: ".to_owned();
            push_text(&mut text, env.algorithm.name());
            push_text(&mut text, "\nState: ");
            push_text(&mut text, env.state.name());
            push_text(&mut text, "\nUse Random IVs: ");
            push_text(&mut text, bool_word(env.use_random_ivs));
            push_text(&mut text, "\nKey: ");
            push_text(&mut text, env.key.as_str());
            assert(text@ =~= details_text(env@));
            text
        },
        Err(_) => "No environment selected".to_owned(),
    };
    UiFrame {
        areas: UiAreas { list: top[0], details: top[1], status: rows[1], hints: rows[2] },
        items,
        details,
        status: state.status_message.clone(),
        hints: "Hints: [a] Add Env | [e] Edit Env | [r] Remove Env | [Up/Down] Cycle Env | [s] Save | [q] Quit".to_owned(),
        popup,
    }
}

/// What is drawn for the whole screen. The screen is divided, inside a
/// margin of one cell, into a large row for the list and the details, a
/// row for the status and a thin one for the hints. While the overlay is
/// open, the screen must have room for its ten rows.
pub fn draw_ui(size: Rect, state: &AppState) -> (frame: UiFrame)
    requires
        state.well_formed(),
        state@.fits(size),
    ensures
        state@.popup.drawn_as(size, frame@.popup),
        frame@ == state@.screen(frame@.areas, frame@.popup),
{
    let mut shares: Vec<Constraint> = Vec::new();
    shares.push(Constraint::Percentage(70));
    shares.push(Constraint::Percentage(29));
    shares.push(Constraint::Percentage(1));
    let rows = split(Direction::Vertical, 1, &shares, size);
    let mut halves: Vec<Constraint> = Vec::new();
    halves.push(Constraint::Percentage(40));
    halves.push(Constraint::Percentage(60));
    let top = split(Direction::Horizontal, 0, &halves, rows[0]);
    let popup = if state.popup.mode != PopupMode::Inactive {
        draw_popup(size, state)
    } else {
        None
    };
    ui_frame(state, &rows, &top, popup)
}

} // verus!
