use lazyprop::action::Action;
use lazyprop::environment::{Algorithm, Environment, Environments, State as Mode};
use lazyprop::errors::EnvironmentError;
use lazyprop::layout::{Constraint, Rect};
use lazyprop::panes::{
    BorderStyle, BorderType, DetailsPane, EnvsPane, Event, HeaderPane, Pane, SearchPane,
    StatusPane,
};
use lazyprop::state::{InputMode, State};
use lazyprop::tui::KeyCode;

fn shared(names: &[&str]) -> State {
    let mut store = Environments::empty();
    for name in names {
        store.add(Environment::new(name, Algorithm::AES, Mode::CBC, true, "k")).unwrap();
    }
    State::new(store)
}

fn area() -> Rect {
    Rect { x: 2, y: 3, width: 40, height: 12 }
}

const EMPTY_DUMP: &str = "State { envs: Environments { environments: [] }, current_env_index: 0, input_mode: Normal, search_query: None }";

#[test]
fn shared_state_starts_in_command_mode() {
    let state = shared(&["a", "b"]);
    assert_eq!(state.cur(), 0);
    assert_eq!(state.input_mode, InputMode::Normal);
    assert_eq!(state.search_query, None);
    assert_eq!(InputMode::default(), InputMode::Normal);
}

#[test]
fn shared_state_selection_wraps() {
    let mut state = shared(&["a", "b", "c"]);
    state.next();
    assert_eq!(state.cur(), 1);
    state.next();
    state.next();
    assert_eq!(state.cur(), 0);
    state.prev();
    assert_eq!(state.cur(), 2);
    state.prev();
    assert_eq!(state.cur(), 1);
    let mut empty = shared(&[]);
    empty.next();
    empty.prev();
    assert_eq!(empty.cur(), 0);
}

#[test]
fn shared_state_written_out() {
    assert_eq!(shared(&[]).describe(), EMPTY_DUMP);
    let mut state = shared(&["a", "b"]);
    state.next();
    state.input_mode = InputMode::Insert;
    state.search_query = Some("qu\"ote".to_string());
    assert_eq!(
        state.describe(),
        "State { envs: Environments { environments: [Environment { name: \"a\", algorithm: AES, state: CBC, use_random_ivs: true, key: \"k\" }, Environment { name: \"b\", algorithm: AES, state: CBC, use_random_ivs: true, key: \"k\" }] }, current_env_index: 1, input_mode: Insert, search_query: Some(\"qu\\\"ote\") }"
    );
}

#[test]
fn action_names() {
    assert_eq!(Action::Tick.name(), "Tick");
    assert_eq!(Action::Resize(80, 24).name(), "Resize");
    assert_eq!(Action::Error("e".to_string()).name(), "Error");
    assert_eq!(Action::Message("m".to_string()).name(), "Message");
    assert_eq!(Action::TimedStatusLine("t".to_string(), 5).name(), "TimedStatusLine");
    assert_eq!(Action::UnFocus.name(), "UnFocus");
    assert_eq!(Action::Input('x').name(), "Input");
    assert_eq!(Action::Backspace.name(), "Backspace");
    assert_eq!(Action::ClearScreen.name(), "ClearScreen");
}

#[test]
fn action_copies_are_equal() {
    for action in [
        Action::Tick,
        Action::Resize(1, 2),
        Action::Error("e".to_string()),
        Action::Message("m".to_string()),
        Action::TimedStatusLine("t".to_string(), 9),
        Action::Input('c'),
        Action::Submit,
    ] {
        assert_eq!(action.clone(), action);
    }
}

#[test]
fn shares_and_focus_of_each_pane() {
    let envs = Pane::Envs(EnvsPane::new(false));
    let status = Pane::Status(StatusPane::new());
    let details = Pane::Details(DetailsPane::new());
    let search = Pane::Search(SearchPane::new(false));
    let header = Pane::Header(HeaderPane::new("1.0"));
    assert_eq!(envs.height_constraint(), Constraint::Fill(2));
    assert_eq!(status.height_constraint(), Constraint::Fill(1));
    assert_eq!(details.height_constraint(), Constraint::Fill(1));
    assert_eq!(search.height_constraint(), Constraint::Max(3));
    assert_eq!(header.height_constraint(), Constraint::Max(1));
    assert!(envs.focusable());
    assert!(!status.focusable());
    assert!(!details.focusable());
    assert!(search.focusable());
    assert!(!header.focusable());
    assert_eq!(EnvsPane::new(true).height_constraint(), Constraint::Fill(2));
    assert_eq!(DetailsPane::default().height_constraint(), Constraint::Fill(1));
    assert_eq!(StatusPane::default().height_constraint(), Constraint::Fill(1));
}

#[test]
fn borders_follow_the_focus() {
    assert_eq!(EnvsPane::new(true).border_type(), BorderType::Thick);
    assert_eq!(EnvsPane::new(false).border_type(), BorderType::Plain);
    assert_eq!(EnvsPane::new(true).border_style(), BorderStyle::Focused);
    assert_eq!(EnvsPane::new(false).border_style(), BorderStyle::Default);
    assert_eq!(SearchPane::new(true).border_type(), BorderType::Thick);
    assert_eq!(SearchPane::new(false).border_type(), BorderType::Plain);
    assert_eq!(SearchPane::new(true).border_style(), BorderStyle::Focused);
    assert_eq!(SearchPane::new(false).border_style(), BorderStyle::Default);
}

#[test]
fn list_moves_the_selection_and_reports() {
    let mut state = shared(&["a", "b"]);
    let mut pane = EnvsPane::new(true);
    let answer = pane.update(Action::Down, &mut state);
    assert_eq!(state.cur(), 1);
    assert_eq!(answer, Some(Action::Message(state.describe())));
    let answer = pane.update(Action::Up, &mut state);
    assert_eq!(state.cur(), 0);
    assert!(matches!(answer, Some(Action::Message(ref text)) if text.contains("current_env_index: 0")));
}

#[test]
fn list_takes_and_loses_the_focus() {
    let mut state = shared(&[]);
    state.input_mode = InputMode::Insert;
    let mut pane = EnvsPane::new(false);
    let answer = pane.update(Action::Focus, &mut state);
    assert_eq!(state.input_mode, InputMode::Normal);
    assert_eq!(pane.border_type(), BorderType::Thick);
    assert_eq!(answer, Some(Action::Message(EMPTY_DUMP.to_string())));
    state.input_mode = InputMode::Insert;
    let answer = pane.update(Action::UnFocus, &mut state);
    assert_eq!(answer, None);
    assert_eq!(pane.border_type(), BorderType::Plain);
    assert_eq!(state.input_mode, InputMode::Insert);
}

#[test]
fn list_ignores_other_actions() {
    let mut state = shared(&["a", "b"]);
    let mut pane = EnvsPane::new(true);
    for action in [
        Action::Tick,
        Action::Submit,
        Action::Update,
        Action::Input('x'),
        Action::Backspace,
        Action::Message("m".to_string()),
        Action::Tab,
    ] {
        assert_eq!(pane.update(action, &mut state), None);
    }
    assert_eq!(state.cur(), 0);
    assert_eq!(state.search_query, None);
    assert_eq!(pane.border_type(), BorderType::Thick);
}

#[test]
fn search_field_edits_the_query() {
    let mut state = shared(&[]);
    let mut pane = SearchPane::new(true);
    assert_eq!(pane.update(Action::Input('a'), &mut state), None);
    assert_eq!(state.search_query, Some("a".to_string()));
    pane.update(Action::Input('b'), &mut state);
    assert_eq!(state.search_query, Some("ab".to_string()));
    pane.update(Action::Backspace, &mut state);
    assert_eq!(state.search_query, Some("a".to_string()));
    pane.update(Action::Backspace, &mut state);
    assert_eq!(state.search_query, Some(String::new()));
    pane.update(Action::Backspace, &mut state);
    assert_eq!(state.search_query, None);
    pane.update(Action::Backspace, &mut state);
    assert_eq!(state.search_query, None);
}

#[test]
fn search_field_overwrites_a_foreign_query() {
    let mut state = shared(&[]);
    state.search_query = Some("foreign".to_string());
    let mut pane = SearchPane::new(true);
    pane.update(Action::Backspace, &mut state);
    assert_eq!(state.search_query, None);
    state.search_query = Some("foreign".to_string());
    pane.update(Action::Input('x'), &mut state);
    assert_eq!(state.search_query, Some("x".to_string()));
}

#[test]
fn search_field_switches_the_input_mode_with_the_focus() {
    let mut state = shared(&[]);
    let mut pane = SearchPane::new(false);
    let answer = pane.update(Action::Focus, &mut state);
    assert_eq!(state.input_mode, InputMode::Insert);
    assert_eq!(pane.border_type(), BorderType::Thick);
    assert_eq!(answer, Some(Action::Message(state.describe())));
    let answer = pane.update(Action::UnFocus, &mut state);
    assert_eq!(answer, None);
    assert_eq!(state.input_mode, InputMode::Normal);
    assert_eq!(pane.border_type(), BorderType::Plain);
    assert_eq!(pane.update(Action::Down, &mut state), None);
    assert_eq!(state.cur(), 0);
}

#[test]
fn search_field_turns_characters_into_input_while_typing() {
    let mut state = shared(&[]);
    let pane = SearchPane::new(true);
    assert_eq!(pane.handle_key_events(KeyCode::Char('x'), &state), None);
    state.input_mode = InputMode::Insert;
    assert_eq!(pane.handle_key_events(KeyCode::Char('x'), &state), Some(Action::Input('x')));
    assert_eq!(pane.handle_key_events(KeyCode::Enter, &state), None);
    assert_eq!(pane.handle_key_events(KeyCode::Backspace, &state), None);
}

#[test]
fn events_reach_only_the_search_field() {
    let mut state = shared(&[]);
    state.input_mode = InputMode::Insert;
    let search = Pane::Search(SearchPane::new(true));
    let envs = Pane::Envs(EnvsPane::new(true));
    assert_eq!(search.handle_events(Event::Key(KeyCode::Char('q')), &state), Some(Action::Input('q')));
    assert_eq!(search.handle_events(Event::Mouse, &state), None);
    assert_eq!(search.handle_events(Event::Other, &state), None);
    assert_eq!(search.handle_events(Event::Tick, &state), None);
    assert_eq!(search.handle_events(Event::Resize(80, 24), &state), None);
    assert_eq!(envs.handle_events(Event::Key(KeyCode::Char('q')), &state), None);
    assert_eq!(envs.handle_key_events(KeyCode::Char('q'), &state), None);
    assert_eq!(envs.handle_mouse_events(&state), None);
}

#[test]
fn status_line_keeps_the_last_message() {
    let mut state = shared(&["a"]);
    let mut pane = StatusPane::new();
    assert_eq!(pane.frame(area(), area(), &state).lines, vec![""]);
    assert_eq!(pane.update(Action::Message("saved".to_string()), &mut state), None);
    assert_eq!(pane.frame(area(), area(), &state).lines, vec!["saved"]);
    assert_eq!(pane.update(Action::Error("broken".to_string()), &mut state), None);
    assert_eq!(pane.frame(area(), area(), &state).lines, vec!["broken"]);
    assert_eq!(pane.update(Action::Down, &mut state), None);
    assert_eq!(pane.frame(area(), area(), &state).lines, vec!["broken"]);
    assert_eq!(state.cur(), 0);
}

#[test]
fn inert_panes_answer_nothing() {
    let mut state = shared(&["a", "b"]);
    let mut details = Pane::Details(DetailsPane::new());
    let mut header = Pane::Header(HeaderPane::new("1.0"));
    for action in [Action::Down, Action::Focus, Action::Input('x'), Action::Message("m".to_string())] {
        assert_eq!(details.update(action.clone(), &mut state), None);
        assert_eq!(header.update(action, &mut state), None);
    }
    assert_eq!(state.cur(), 0);
    assert_eq!(state.search_query, None);
}

#[test]
fn pane_dispatch_reaches_the_pane() {
    let mut state = shared(&["a", "b"]);
    let mut envs = Pane::Envs(EnvsPane::new(true));
    assert!(envs.update(Action::Down, &mut state).is_some());
    assert_eq!(state.cur(), 1);
    let mut search = Pane::Search(SearchPane::new(true));
    assert_eq!(search.update(Action::Input('z'), &mut state), None);
    assert_eq!(state.search_query, Some("z".to_string()));
    let mut status = Pane::Status(StatusPane::new());
    assert_eq!(status.update(Action::Message("m".to_string()), &mut state), None);
    assert_eq!(status.draw(area(), &state).unwrap().lines, vec!["m"]);
}

#[test]
fn list_is_drawn_with_selection_and_place() {
    let mut state = shared(&["alpha", "beta", "alto"]);
    state.next();
    let frame = EnvsPane::new(true).draw(area(), &state);
    assert_eq!(frame.area, area());
    assert_eq!(frame.text_area, area());
    assert_eq!(frame.title, " Environments ");
    assert_eq!(frame.footer, " 2 of 3 ");
    assert_eq!(frame.lines, vec!["alpha", "beta", "alto"]);
    assert_eq!(frame.selected, Some(1));
    assert_eq!(frame.border_type, BorderType::Thick);
    assert_eq!(frame.border_style, BorderStyle::Focused);
    assert!(!frame.dimmed);
}

#[test]
fn list_shows_only_names_that_begin_with_the_query() {
    let mut state = shared(&["alpha", "beta", "alto", "Al"]);
    state.search_query = Some("al".to_string());
    let frame = EnvsPane::new(false).draw(area(), &state);
    assert_eq!(frame.lines, vec!["alpha", "alto"]);
    assert_eq!(frame.footer, " 1 of 4 ");
    assert_eq!(frame.border_type, BorderType::Plain);
    assert_eq!(frame.border_style, BorderStyle::Default);
    state.search_query = Some(String::new());
    assert_eq!(EnvsPane::new(false).draw(area(), &state).lines.len(), 4);
    state.search_query = Some("alphabet".to_string());
    assert!(EnvsPane::new(false).draw(area(), &state).lines.is_empty());
}

#[test]
fn empty_list_is_drawn() {
    let state = shared(&[]);
    let frame = EnvsPane::new(false).draw(area(), &state);
    assert!(frame.lines.is_empty());
    assert_eq!(frame.footer, " 0 of 0 ");
    assert_eq!(frame.selected, Some(0));
}

#[test]
fn details_show_the_selected_name() {
    let mut state = shared(&["alpha", "beta"]);
    state.next();
    let frame = DetailsPane::new().draw(area(), &state).unwrap();
    assert_eq!(frame.area, area());
    assert_eq!(frame.title, " beta Details ");
    assert_eq!(frame.lines, vec!["beta"]);
    assert_eq!(frame.footer, "");
    assert_eq!(frame.selected, None);
    assert_eq!(frame.border_type, BorderType::Plain);
    let placed = DetailsPane::new()
        .frame(area(), Rect { x: 3, y: 9, width: 38, height: 5 }, &state)
        .unwrap();
    assert_eq!(placed.text_area, Rect { x: 3, y: 9, width: 38, height: 5 });
    assert_eq!(placed.title, " beta Details ");
}

#[test]
fn details_need_a_selected_profile() {
    let state = shared(&[]);
    assert!(matches!(
        DetailsPane::new().draw(area(), &state),
        Err(EnvironmentError::InvalidIndex(0))
    ));
    assert!(matches!(
        Pane::Details(DetailsPane::new()).draw(area(), &state),
        Err(EnvironmentError::InvalidIndex(0))
    ));
    assert!(matches!(
        DetailsPane::new().frame(area(), area(), &state),
        Err(EnvironmentError::InvalidIndex(0))
    ));
}

#[test]
fn text_of_bordered_panes_goes_inside_the_border() {
    let state = shared(&["a"]);
    let status = StatusPane::new().draw(area(), &state);
    assert_eq!(status.area, area());
    assert_eq!(status.text_area, Rect { x: 3, y: 4, width: 38, height: 10 });
    assert_eq!(status.title, " Status ");
    let search = SearchPane::new(false).draw(area(), &state);
    assert_eq!(search.area, area());
    assert_eq!(search.text_area, Rect { x: 3, y: 4, width: 38, height: 10 });
    let details = DetailsPane::new().draw(area(), &state).unwrap();
    assert_eq!(details.text_area, Rect { x: 3, y: 9, width: 38, height: 5 });
}

#[test]
fn search_field_is_drawn_with_hint_or_text() {
    let mut state = shared(&[]);
    let mut pane = SearchPane::new(true);
    let frame = pane.frame(area(), area(), &state);
    assert_eq!(frame.title, " Search ");
    assert_eq!(frame.lines, vec!["Type to search..."]);
    assert!(frame.dimmed);
    assert_eq!(frame.border_type, BorderType::Thick);
    pane.update(Action::Input('a'), &mut state);
    let frame = pane.frame(area(), area(), &state);
    assert_eq!(frame.lines, vec!["a", "\u{258c}"]);
    assert!(!frame.dimmed);
    pane.update(Action::UnFocus, &mut state);
    let frame = pane.frame(area(), area(), &state);
    assert_eq!(frame.lines, vec!["a"]);
    assert_eq!(frame.border_type, BorderType::Plain);
    pane.update(Action::Backspace, &mut state);
    assert_eq!(pane.frame(area(), area(), &state).lines, vec![""]);
}

#[test]
fn header_names_the_program() {
    let state = shared(&[]);
    let frame = HeaderPane::new("v0.1.0").draw(area(), &state);
    assert_eq!(frame.lines, vec!["[ MULE LAZYPROP \u{2022} ", "v0.1.0 ", "]"]);
    assert_eq!(frame.title, "");
    assert_eq!(frame.area, area());
    assert_eq!(frame.text_area, area());
}
