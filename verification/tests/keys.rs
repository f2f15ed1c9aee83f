use lazyprop::app_state::AppState;
use lazyprop::config::AppConfig;
use lazyprop::environment::{Algorithm, Environment, Environments, State};
use lazyprop::errors::EnvironmentError;
use lazyprop::popup::{PopupField, PopupMode, PopupState};
use lazyprop::tui::{
    handle_add_edit_popup_input, handle_encrypt_decrypt_popup_input, handle_key,
    handle_normal_input, handle_popup_input, next_focus, next_focus_encrypt_decrypt, prev_focus,
    prev_focus_encrypt_decrypt, save_done, transform_done, Effect, KeyCode, Transform,
};

fn config() -> AppConfig {
    AppConfig { jar_path: "/opt/tool.jar".to_string(), envs_path: "/etc/envs.yaml".to_string() }
}

fn state_of(names: &[&str]) -> AppState {
    let mut store = Environments::empty();
    for name in names {
        store.add(Environment::new(name, Algorithm::AES, State::CBC, true, "k")).unwrap();
    }
    AppState::new(store, PopupState::new())
}

fn names_of(state: &AppState) -> Vec<String> {
    (0..state.len_env()).map(|i| state.envs.get(i).unwrap().name.clone()).collect()
}

fn type_text(state: &mut AppState, text: &str) {
    for c in text.chars() {
        let effect = handle_key(state, KeyCode::Char(c), &config());
        assert!(matches!(effect, Effect::Continue));
    }
}

fn press(state: &mut AppState, key: KeyCode) -> Effect {
    handle_key(state, key, &config())
}

const FORM_RING: [PopupField; 5] = [
    PopupField::Name,
    PopupField::Algorithm,
    PopupField::State,
    PopupField::IV,
    PopupField::Key,
];

const TRANSFORM_RING: [PopupField; 3] =
    [PopupField::TextInput, PopupField::EncryptButton, PopupField::DecryptButton];

#[test]
fn new_state_is_quiet() {
    let state = state_of(&["a"]);
    assert_eq!(state.status_message, "");
    assert_eq!(state.popup.mode, PopupMode::Inactive);
    assert_eq!(state.selected_index(), 0);
    assert_eq!(state.len_env(), 1);
    assert!(!state.is_empty_env());
    assert_eq!(state.curr_env().unwrap().name, "a");
    let empty = state_of(&[]);
    assert!(empty.is_empty_env());
    assert!(matches!(empty.curr_env(), Err(EnvironmentError::InvalidIndex(0))));
}

#[test]
fn closed_popup_has_empty_buffers() {
    let popup = PopupState::new();
    assert_eq!(popup.mode, PopupMode::Inactive);
    assert_eq!(popup.focus, PopupField::Name);
    assert_eq!(popup.name, "");
    assert_eq!(popup.selected_algorithm, 0);
    assert_eq!(popup.selected_state, 0);
    assert!(!popup.use_random_ivs);
    assert_eq!(popup.key, "");
    assert_eq!(popup.text_input, "");
    let same = PopupState::default();
    assert_eq!(same.mode, PopupMode::Inactive);
    assert_eq!(same.focus, PopupField::Name);
}

#[test]
fn form_focus_ring_order() {
    assert_eq!(next_focus(PopupField::Name), PopupField::Algorithm);
    assert_eq!(next_focus(PopupField::Algorithm), PopupField::State);
    assert_eq!(next_focus(PopupField::State), PopupField::IV);
    assert_eq!(next_focus(PopupField::IV), PopupField::Key);
    assert_eq!(next_focus(PopupField::Key), PopupField::Name);
    assert_eq!(prev_focus(PopupField::Name), PopupField::Key);
    assert_eq!(prev_focus(PopupField::Key), PopupField::IV);
    assert_eq!(prev_focus(PopupField::IV), PopupField::State);
    assert_eq!(prev_focus(PopupField::State), PopupField::Algorithm);
    assert_eq!(prev_focus(PopupField::Algorithm), PopupField::Name);
}

#[test]
fn transform_focus_ring_order() {
    assert_eq!(next_focus_encrypt_decrypt(PopupField::TextInput), PopupField::EncryptButton);
    assert_eq!(next_focus_encrypt_decrypt(PopupField::EncryptButton), PopupField::DecryptButton);
    assert_eq!(next_focus_encrypt_decrypt(PopupField::DecryptButton), PopupField::TextInput);
    assert_eq!(prev_focus_encrypt_decrypt(PopupField::TextInput), PopupField::DecryptButton);
    assert_eq!(prev_focus_encrypt_decrypt(PopupField::DecryptButton), PopupField::EncryptButton);
    assert_eq!(prev_focus_encrypt_decrypt(PopupField::EncryptButton), PopupField::TextInput);
}

#[test]
fn focus_steps_leave_foreign_fields_alone() {
    for field in TRANSFORM_RING {
        assert_eq!(next_focus(field), field);
        assert_eq!(prev_focus(field), field);
    }
    for field in FORM_RING {
        assert_eq!(next_focus_encrypt_decrypt(field), field);
        assert_eq!(prev_focus_encrypt_decrypt(field), field);
    }
}

#[test]
fn form_focus_is_a_five_cycle() {
    for start in FORM_RING {
        let mut field = start;
        for step in 1..=5 {
            field = next_focus(field);
            assert_eq!(field == start, step == 5);
        }
    }
}

#[test]
fn transform_focus_is_a_three_cycle() {
    for start in TRANSFORM_RING {
        let mut field = start;
        for step in 1..=3 {
            field = next_focus_encrypt_decrypt(field);
            assert_eq!(field == start, step == 3);
        }
    }
}

#[test]
fn focus_forward_then_backward_returns() {
    for n in [0usize, 1, 2, 4, 5, 7, 23] {
        for start in FORM_RING {
            let mut field = start;
            for _ in 0..n {
                field = next_focus(field);
            }
            for _ in 0..n {
                field = prev_focus(field);
            }
            assert_eq!(field, start);
        }
        for start in TRANSFORM_RING {
            let mut field = start;
            for _ in 0..n {
                field = next_focus_encrypt_decrypt(field);
            }
            for _ in 0..n {
                field = prev_focus_encrypt_decrypt(field);
            }
            assert_eq!(field, start);
        }
    }
}

#[test]
fn add_key_opens_a_fresh_form() {
    let mut state = state_of(&["a"]);
    state.popup.name = "old".to_string();
    state.popup.key = "old".to_string();
    state.popup.selected_algorithm = 3;
    state.popup.selected_state = 2;
    state.popup.focus = PopupField::Key;
    state.popup.text_input = "kept".to_string();
    let effect = handle_normal_input(&mut state, KeyCode::Char('a'), &config());
    assert!(matches!(effect, Effect::Continue));
    assert_eq!(state.popup.mode, PopupMode::Add);
    assert_eq!(state.popup.focus, PopupField::Name);
    assert_eq!(state.popup.name, "");
    assert_eq!(state.popup.key, "");
    assert_eq!(state.popup.selected_algorithm, 0);
    assert_eq!(state.popup.selected_state, 0);
    assert!(state.popup.use_random_ivs);
    assert_eq!(state.popup.text_input, "kept");
}

#[test]
fn edit_key_opens_the_form_on_the_selected_profile() {
    let mut store = Environments::empty();
    store.add(Environment::new("a", Algorithm::AES, State::CBC, true, "k1")).unwrap();
    store.add(Environment::new("b", Algorithm::RC2, State::OFB, false, "k2")).unwrap();
    store.select_next();
    let mut state = AppState::new(store, PopupState::new());
    let effect = press(&mut state, KeyCode::Char('e'));
    assert!(matches!(effect, Effect::Continue));
    assert_eq!(state.popup.mode, PopupMode::Edit);
    assert_eq!(state.popup.focus, PopupField::Name);
    assert_eq!(state.popup.name, "b");
    assert_eq!(state.popup.selected_algorithm, 4);
    assert_eq!(state.popup.selected_state, 3);
    assert!(!state.popup.use_random_ivs);
    assert_eq!(state.popup.key, "k2");
}

#[test]
fn edit_key_does_nothing_in_an_empty_store() {
    let mut state = state_of(&[]);
    press(&mut state, KeyCode::Char('e'));
    assert_eq!(state.popup.mode, PopupMode::Inactive);
    press(&mut state, KeyCode::Enter);
    assert_eq!(state.popup.mode, PopupMode::Inactive);
}

#[test]
fn enter_opens_the_transform_form() {
    let mut state = state_of(&["a"]);
    state.popup.text_input = "left over".to_string();
    state.popup.name = "kept".to_string();
    let effect = press(&mut state, KeyCode::Enter);
    assert!(matches!(effect, Effect::Continue));
    assert_eq!(state.popup.mode, PopupMode::EncryptDecrypt);
    assert_eq!(state.popup.focus, PopupField::TextInput);
    assert_eq!(state.popup.text_input, "");
    assert_eq!(state.popup.name, "kept");
}

#[test]
fn save_and_quit_are_left_to_the_program() {
    let mut state = state_of(&["a"]);
    let effect = press(&mut state, KeyCode::Char('s'));
    assert!(matches!(effect, Effect::Save(ref path) if path == "/etc/envs.yaml"));
    assert_eq!(state.status_message, "");
    save_done(&mut state);
    assert_eq!(state.status_message, "Environments are saved");
    let effect = press(&mut state, KeyCode::Char('q'));
    assert!(matches!(effect, Effect::Quit));
    assert_eq!(state.len_env(), 1);
}

#[test]
fn remove_key_takes_the_selected_profile_out() {
    let mut state = state_of(&["a", "b", "c"]);
    press(&mut state, KeyCode::Down);
    press(&mut state, KeyCode::Down);
    assert_eq!(state.selected_index(), 2);
    let effect = press(&mut state, KeyCode::Char('r'));
    assert!(matches!(effect, Effect::Continue));
    assert_eq!(names_of(&state), vec!["a", "b"]);
    assert_eq!(state.selected_index(), 1);
    assert_eq!(state.status_message, "Environment removed");
}

#[test]
fn remove_key_in_an_empty_store_reports_the_failure() {
    let mut state = state_of(&[]);
    press(&mut state, KeyCode::Char('r'));
    assert_eq!(state.status_message, "Error removing env: Invalid environment index: 0");
    assert!(state.is_empty_env());
}

#[test]
fn arrows_cycle_the_selection() {
    let mut state = state_of(&["a", "b", "c"]);
    press(&mut state, KeyCode::Up);
    assert_eq!(state.selected_index(), 2);
    press(&mut state, KeyCode::Down);
    assert_eq!(state.selected_index(), 0);
    press(&mut state, KeyCode::Down);
    assert_eq!(state.selected_index(), 1);
    let mut empty = state_of(&[]);
    press(&mut empty, KeyCode::Up);
    press(&mut empty, KeyCode::Down);
    assert_eq!(empty.selected_index(), 0);
}

#[test]
fn unknown_keys_change_nothing_on_the_main_screen() {
    let mut state = state_of(&["a", "b"]);
    for key in [
        KeyCode::Char('x'),
        KeyCode::Char(' '),
        KeyCode::Tab,
        KeyCode::BackTab,
        KeyCode::Backspace,
        KeyCode::Esc,
        KeyCode::Other,
    ] {
        let effect = press(&mut state, key);
        assert!(matches!(effect, Effect::Continue));
    }
    assert_eq!(state.popup.mode, PopupMode::Inactive);
    assert_eq!(state.selected_index(), 0);
    assert_eq!(state.status_message, "");
    assert_eq!(names_of(&state), vec!["a", "b"]);
}

#[test]
fn form_adds_a_profile() {
    let mut state = state_of(&[]);
    press(&mut state, KeyCode::Char('a'));
    type_text(&mut state, "prod");
    press(&mut state, KeyCode::Tab);
    press(&mut state, KeyCode::Down);
    press(&mut state, KeyCode::Down);
    press(&mut state, KeyCode::Tab);
    press(&mut state, KeyCode::Down);
    press(&mut state, KeyCode::Tab);
    press(&mut state, KeyCode::Char(' '));
    press(&mut state, KeyCode::Tab);
    type_text(&mut state, "k 1");
    let effect = press(&mut state, KeyCode::Enter);
    assert!(matches!(effect, Effect::Continue));
    assert_eq!(state.popup.mode, PopupMode::Inactive);
    assert_eq!(state.status_message, "Environment edited");
    assert_eq!(state.len_env(), 1);
    let env = state.curr_env().unwrap();
    assert_eq!(env.name, "prod");
    assert_eq!(env.algorithm, Algorithm::DES);
    assert_eq!(env.state, State::CFB);
    assert!(!env.use_random_ivs);
    assert_eq!(env.key, "k 1");
}

#[test]
fn form_refuses_a_duplicate_and_closes() {
    let mut state = state_of(&["prod"]);
    press(&mut state, KeyCode::Char('a'));
    type_text(&mut state, "prod");
    press(&mut state, KeyCode::Enter);
    assert_eq!(state.popup.mode, PopupMode::Inactive);
    assert_eq!(state.status_message, "Error: Environment with duplicate name: prod");
    assert_eq!(state.len_env(), 1);
    assert_eq!(state.selected_index(), 0);
}

#[test]
fn form_edits_the_selected_profile() {
    let mut state = state_of(&["a", "b", "c"]);
    press(&mut state, KeyCode::Down);
    press(&mut state, KeyCode::Char('e'));
    press(&mut state, KeyCode::Backspace);
    type_text(&mut state, "z");
    press(&mut state, KeyCode::BackTab);
    press(&mut state, KeyCode::Backspace);
    type_text(&mut state, "new");
    press(&mut state, KeyCode::Enter);
    assert_eq!(state.status_message, "Environment edited");
    assert_eq!(names_of(&state), vec!["a", "z", "c"]);
    assert_eq!(state.curr_env().unwrap().key, "new");
    assert_eq!(state.selected_index(), 1);
}

#[test]
fn form_edit_may_keep_the_name() {
    let mut state = state_of(&["a", "b"]);
    press(&mut state, KeyCode::Char('e'));
    press(&mut state, KeyCode::Tab);
    press(&mut state, KeyCode::Down);
    press(&mut state, KeyCode::Enter);
    assert_eq!(state.status_message, "Environment edited");
    assert_eq!(names_of(&state), vec!["a", "b"]);
    assert_eq!(state.curr_env().unwrap().algorithm, Algorithm::Blowfish);
}

#[test]
fn form_edit_to_a_taken_name_is_refused() {
    let mut state = state_of(&["a", "b"]);
    press(&mut state, KeyCode::Char('e'));
    press(&mut state, KeyCode::Backspace);
    type_text(&mut state, "b");
    press(&mut state, KeyCode::Enter);
    assert_eq!(state.status_message, "Error: Environment with duplicate name: b");
    assert_eq!(state.popup.mode, PopupMode::Inactive);
    assert_eq!(names_of(&state), vec!["a", "b"]);
}

#[test]
fn form_escape_discards_the_draft() {
    let mut state = state_of(&["a"]);
    press(&mut state, KeyCode::Char('a'));
    type_text(&mut state, "draft");
    press(&mut state, KeyCode::Esc);
    assert_eq!(state.popup.mode, PopupMode::Inactive);
    assert_eq!(state.status_message, "");
    assert_eq!(names_of(&state), vec!["a"]);
    press(&mut state, KeyCode::Char('a'));
    assert_eq!(state.popup.name, "");
}

#[test]
fn form_choices_stop_at_the_ends() {
    let mut state = state_of(&[]);
    press(&mut state, KeyCode::Char('a'));
    press(&mut state, KeyCode::Tab);
    press(&mut state, KeyCode::Up);
    assert_eq!(state.popup.selected_algorithm, 0);
    for step in 1..=7 {
        press(&mut state, KeyCode::Down);
        assert_eq!(state.popup.selected_algorithm, if step < 5 { step } else { 5 });
    }
    assert_eq!(state.popup.selected_state, 0);
    press(&mut state, KeyCode::Up);
    assert_eq!(state.popup.selected_algorithm, 4);
    press(&mut state, KeyCode::Tab);
    press(&mut state, KeyCode::Up);
    assert_eq!(state.popup.selected_state, 0);
    for step in 1..=5 {
        press(&mut state, KeyCode::Down);
        assert_eq!(state.popup.selected_state, if step < 3 { step } else { 3 });
    }
    assert_eq!(state.popup.selected_algorithm, 4);
}

#[test]
fn form_arrows_do_nothing_outside_the_choice_fields() {
    let mut state = state_of(&[]);
    press(&mut state, KeyCode::Char('a'));
    for _ in 0..5 {
        if state.popup.focus != PopupField::Algorithm && state.popup.focus != PopupField::State {
            press(&mut state, KeyCode::Down);
            press(&mut state, KeyCode::Up);
            assert_eq!(state.popup.selected_algorithm, 0);
            assert_eq!(state.popup.selected_state, 0);
        }
        press(&mut state, KeyCode::Tab);
    }
}

#[test]
fn form_space_toggles_only_on_the_vector_field() {
    let mut state = state_of(&[]);
    press(&mut state, KeyCode::Char('a'));
    assert!(state.popup.use_random_ivs);
    press(&mut state, KeyCode::Char(' '));
    assert_eq!(state.popup.name, " ");
    assert!(state.popup.use_random_ivs);
    press(&mut state, KeyCode::Tab);
    press(&mut state, KeyCode::Char(' '));
    press(&mut state, KeyCode::Tab);
    press(&mut state, KeyCode::Char(' '));
    assert!(state.popup.use_random_ivs);
    press(&mut state, KeyCode::Tab);
    press(&mut state, KeyCode::Char(' '));
    assert!(!state.popup.use_random_ivs);
    press(&mut state, KeyCode::Char('x'));
    assert!(!state.popup.use_random_ivs);
    press(&mut state, KeyCode::Char(' '));
    assert!(state.popup.use_random_ivs);
    press(&mut state, KeyCode::Tab);
    press(&mut state, KeyCode::Char(' '));
    assert_eq!(state.popup.key, " ");
    assert_eq!(state.popup.name, " ");
}

#[test]
fn form_backspace_on_an_empty_buffer_does_nothing() {
    let mut state = state_of(&[]);
    press(&mut state, KeyCode::Char('a'));
    press(&mut state, KeyCode::Backspace);
    assert_eq!(state.popup.name, "");
    type_text(&mut state, "ab");
    press(&mut state, KeyCode::Backspace);
    assert_eq!(state.popup.name, "a");
    press(&mut state, KeyCode::Tab);
    press(&mut state, KeyCode::Backspace);
    assert_eq!(state.popup.name, "a");
    assert_eq!(state.popup.key, "");
}

#[test]
fn open_form_keeps_keys_from_the_main_screen() {
    let mut state = state_of(&["a", "b"]);
    press(&mut state, KeyCode::Char('a'));
    for c in ['s', 'q', 'r', 'e', 'a'] {
        let effect = press(&mut state, KeyCode::Char(c));
        assert!(matches!(effect, Effect::Continue));
    }
    press(&mut state, KeyCode::Down);
    assert_eq!(state.popup.name, "sqrea");
    assert_eq!(state.popup.mode, PopupMode::Add);
    assert_eq!(state.selected_index(), 0);
    assert_eq!(names_of(&state), vec!["a", "b"]);
    assert_eq!(state.status_message, "");
}

#[test]
fn confirming_with_the_popup_in_another_mode_only_closes_it() {
    let mut state = state_of(&["a"]);
    state.popup.mode = PopupMode::EncryptDecrypt;
    state.popup.name = "x".to_string();
    handle_add_edit_popup_input(&mut state, KeyCode::Enter);
    assert_eq!(state.popup.mode, PopupMode::Inactive);
    assert_eq!(state.status_message, "Environment edited");
    assert_eq!(names_of(&state), vec!["a"]);
}

#[test]
fn popup_handler_ignores_keys_while_closed() {
    let mut state = state_of(&["a"]);
    let effect = handle_popup_input(&mut state, KeyCode::Char('a'), &config());
    assert!(matches!(effect, Effect::Continue));
    assert_eq!(state.popup.mode, PopupMode::Inactive);
    assert_eq!(state.popup.name, "");
}

#[test]
fn transform_form_takes_text_only_in_the_text_field() {
    let mut state = state_of(&["a"]);
    press(&mut state, KeyCode::Enter);
    type_text(&mut state, "abc");
    press(&mut state, KeyCode::Backspace);
    assert_eq!(state.popup.text_input, "ab");
    press(&mut state, KeyCode::Tab);
    assert_eq!(state.popup.focus, PopupField::EncryptButton);
    type_text(&mut state, "x");
    press(&mut state, KeyCode::Backspace);
    assert_eq!(state.popup.text_input, "ab");
    press(&mut state, KeyCode::BackTab);
    press(&mut state, KeyCode::BackTab);
    assert_eq!(state.popup.focus, PopupField::DecryptButton);
    press(&mut state, KeyCode::Esc);
    assert_eq!(state.popup.mode, PopupMode::Inactive);
}

#[test]
fn transform_enter_on_the_text_field_does_nothing() {
    let mut state = state_of(&["a"]);
    press(&mut state, KeyCode::Enter);
    type_text(&mut state, "abc");
    let effect = press(&mut state, KeyCode::Enter);
    assert!(matches!(effect, Effect::Continue));
    assert_eq!(state.popup.mode, PopupMode::EncryptDecrypt);
    assert_eq!(state.popup.text_input, "abc");
}

#[test]
fn encrypt_scenario() {
    let mut store = Environments::empty();
    store
        .add(Environment::new("prod", Algorithm::AES, State::CBC, true, "secret1234567890"))
        .unwrap();
    let mut state = AppState::new(store, PopupState::new());
    press(&mut state, KeyCode::Enter);
    assert_eq!(state.popup.mode, PopupMode::EncryptDecrypt);
    type_text(&mut state, " hello ");
    press(&mut state, KeyCode::Tab);
    let effect = press(&mut state, KeyCode::Enter);
    match effect {
        Effect::Run(transform, call) => {
            assert_eq!(transform, Transform::Encrypt);
            assert_eq!(call.program, "java");
            assert_eq!(
                call.arguments,
                vec![
                    "-cp",
                    "/opt/tool.jar",
                    "com.mulesoft.tools.SecurePropertiesTool",
                    "string",
                    "encrypt",
                    "AES",
                    "CBC",
                    "secret1234567890",
                    "hello",
                ]
            );
        }
        other => panic!("unexpected effect: {:?}", other),
    }
    assert_eq!(state.popup.mode, PopupMode::EncryptDecrypt);
    transform_done(&mut state, Transform::Encrypt, Ok("MhKI6FUNIB5KyP9QXN5x2Q==".to_string()));
    assert_eq!(state.status_message, "Encrypted: MhKI6FUNIB5KyP9QXN5x2Q==");
    assert_eq!(state.popup.mode, PopupMode::Inactive);
}

#[test]
fn decrypt_scenario() {
    let mut state = state_of(&["a"]);
    press(&mut state, KeyCode::Enter);
    type_text(&mut state, "MhKI6FUNIB5KyP9QXN5x2Q==");
    press(&mut state, KeyCode::BackTab);
    let effect = handle_encrypt_decrypt_popup_input(&mut state, KeyCode::Enter, &config());
    match effect {
        Effect::Run(transform, call) => {
            assert_eq!(transform, Transform::Decrypt);
            assert_eq!(call.arguments[4], "decrypt");
            assert_eq!(call.arguments[8], "MhKI6FUNIB5KyP9QXN5x2Q==");
        }
        other => panic!("unexpected effect: {:?}", other),
    }
    transform_done(&mut state, Transform::Decrypt, Ok("hello".to_string()));
    assert_eq!(state.status_message, "Decrypted: hello");
    assert_eq!(state.popup.mode, PopupMode::Inactive);
}

#[test]
fn failed_transform_becomes_the_status() {
    let mut state = state_of(&["a"]);
    press(&mut state, KeyCode::Enter);
    press(&mut state, KeyCode::Tab);
    press(&mut state, KeyCode::Enter);
    transform_done(&mut state, Transform::Encrypt, Err("Invalid key length".to_string()));
    assert_eq!(state.status_message, "Error: Invalid key length");
    assert_eq!(state.popup.mode, PopupMode::Inactive);
    press(&mut state, KeyCode::Enter);
    transform_done(&mut state, Transform::Decrypt, Err(String::new()));
    assert_eq!(state.status_message, "Error: ");
}

#[test]
fn transform_without_a_profile_aborts() {
    let mut state = state_of(&[]);
    state.popup.mode = PopupMode::EncryptDecrypt;
    state.popup.focus = PopupField::EncryptButton;
    let effect = press(&mut state, KeyCode::Enter);
    assert!(matches!(effect, Effect::Abort(EnvironmentError::InvalidIndex(0))));
    assert_eq!(state.popup.mode, PopupMode::EncryptDecrypt);
    state.popup.focus = PopupField::DecryptButton;
    let effect = press(&mut state, KeyCode::Enter);
    assert!(matches!(effect, Effect::Abort(EnvironmentError::InvalidIndex(0))));
}

#[test]
fn store_methods_of_the_state() {
    let mut state = state_of(&["a", "b"]);
    assert!(state.add_env(Environment::new("c", Algorithm::AES, State::CBC, true, "k")).is_ok());
    assert!(matches!(
        state.add_env(Environment::new("a", Algorithm::AES, State::CBC, true, "k")),
        Err(EnvironmentError::DuplicateName(ref name)) if name == "a"
    ));
    press(&mut state, KeyCode::Down);
    assert!(state.edit_env(Environment::new("z", Algorithm::DES, State::ECB, false, "k")).is_ok());
    assert_eq!(names_of(&state), vec!["a", "z", "c"]);
    assert!(matches!(
        state.edit_env(Environment::new("c", Algorithm::DES, State::ECB, false, "k")),
        Err(EnvironmentError::DuplicateName(ref name)) if name == "c"
    ));
    assert!(state.remove_env().is_ok());
    assert_eq!(names_of(&state), vec!["a", "c"]);
    assert_eq!(state.selected_index(), 1);
    assert!(state.remove_env().is_ok());
    assert!(state.remove_env().is_ok());
    assert!(matches!(state.remove_env(), Err(EnvironmentError::InvalidIndex(0))));
    assert!(matches!(
        state.edit_env(Environment::new("n", Algorithm::DES, State::ECB, false, "k")),
        Err(EnvironmentError::InvalidIndex(0))
    ));
}
