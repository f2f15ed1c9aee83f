//! The modal overlay: its modes, its fields and its scratch buffers.

use vstd::prelude::*;
use crate::app_state::AppState;
use crate::environment::{Algorithm, State};
use crate::layout::{bordered_inner, split, Constraint, Direction, Rect};
use crate::text::{bool_text, bool_word, push_text};

verus! {

/// Number of cipher families that the algorithm field offers.
pub const ALGORITHM_COUNT: usize = 6;

/// Number of block modes that the mode field offers.
pub const STATE_COUNT: usize = 4;

/// The cipher families in the order in which the algorithm field offers
/// them.
pub open spec fn algorithm_table() -> Seq<Algorithm> {
    seq![
        Algorithm::AES,
        Algorithm::Blowfish,
        Algorithm::DES,
        Algorithm::DESede,
        Algorithm::RC2,
        Algorithm::RCA,
    ]
}

/// The block modes in the order in which the mode field offers them.
pub open spec fn state_table() -> Seq<State> {
    seq![State::CBC, State::CFB, State::ECB, State::OFB]
}

/// The cipher family offered at `index`.
pub fn algorithm_at(index: usize) -> (algorithm: Algorithm)
    requires
        index < ALGORITHM_COUNT,
    ensures
        algorithm == algorithm_table()[index as int],
{
    if index == 0 {
        Algorithm::AES
    } else if index == 1 {
        Algorithm::Blowfish
    } else if index == 2 {
        Algorithm::DES
    } else if index == 3 {
        Algorithm::DESede
    } else if index == 4 {
        Algorithm::RC2
    } else {
        Algorithm::RCA
    }
}

/// The block mode offered at `index`.
pub fn state_at(index: usize) -> (state: State)
    requires
        index < STATE_COUNT,
    ensures
        state == state_table()[index as int],
{
    if index == 0 {
        State::CBC
    } else if index == 1 {
        State::CFB
    } else if index == 2 {
        State::ECB
    } else {
        State::OFB
    }
}

/// Where the algorithm field offers `algorithm`.
pub open spec fn algorithm_position(algorithm: Algorithm) -> nat {
    match algorithm {
        Algorithm::AES => 0,
        Algorithm::Blowfish => 1,
        Algorithm::DES => 2,
        Algorithm::DESede => 3,
        Algorithm::RC2 => 4,
        Algorithm::RCA => 5,
    }
}

/// Where the mode field offers `state`.
pub open spec fn state_position(state: State) -> nat {
    match state {
        State::CBC => 0,
        State::CFB => 1,
        State::ECB => 2,
        State::OFB => 3,
    }
}

/// Where the algorithm field offers `algorithm`.
pub fn algorithm_index(algorithm: Algorithm) -> (index: usize)
    ensures
        index == algorithm_position(algorithm),
        index < ALGORITHM_COUNT,
        algorithm_table()[index as int] == algorithm,
{
    match algorithm {
        Algorithm::AES => 0,
        Algorithm::Blowfish => 1,
        Algorithm::DES => 2,
        Algorithm::DESede => 3,
        Algorithm::RC2 => 4,
        Algorithm::RCA => 5,
    }
}

/// Where the mode field offers `state`.
pub fn state_index(state: State) -> (index: usize)
    ensures
        index == state_position(state),
        index < STATE_COUNT,
        state_table()[index as int] == state,
{
    match state {
        State::CBC => 0,
        State::CFB => 1,
        State::ECB => 2,
        State::OFB => 3,
    }
}

/// What the overlay is open for.
#[derive(Debug, Clone, Copy, PartialEq, Eq, Structural)]
pub enum PopupMode {
    /// No overlay; keys go to the main screen.
    Inactive,
    Add,
    Edit,
    EncryptDecrypt,
}

/// The part of the overlay that receives input.
#[derive(Debug, Clone, Copy, PartialEq, Eq, Structural)]
pub enum PopupField {
    Name,
    Algorithm,
    State,
    IV,
    Key,
    TextInput,
    EncryptButton,
    DecryptButton,
}

/// The overlay: its mode, the field in focus, and the buffers that mirror
/// a profile while it is being written, plus the text to transform.
#[derive(Debug)]
pub struct PopupState {
    pub mode: PopupMode,
    pub focus: PopupField,
    pub name: String,
    pub selected_algorithm: usize,
    pub selected_state: usize,
    pub use_random_ivs: bool,
    pub key: String,
    pub text_input: String,
}

/// The overlay with its buffers as character sequences.
pub struct PopupView {
    pub mode: PopupMode,
    pub focus: PopupField,
    pub name: Seq<char>,
    pub selected_algorithm: nat,
    pub selected_state: nat,
    pub use_random_ivs: bool,
    pub key: Seq<char>,
    pub text_input: Seq<char>,
}

impl View for PopupState {
    type V = PopupView;

    open spec fn view(&self) -> PopupView {
        PopupView {
            mode: self.mode,
            focus: self.focus,
            name: self.name@,
            selected_algorithm: self.selected_algorithm as nat,
            selected_state: self.selected_state as nat,
            use_random_ivs: self.use_random_ivs,
            key: self.key@,
            text_input: self.text_input@,
        }
    }
}

impl PopupView {
    /// Both selections point into their tables.
    pub open spec fn well_formed(self) -> bool {
        self.selected_algorithm < ALGORITHM_COUNT && self.selected_state < STATE_COUNT
    }

    /// The closed overlay with empty buffers.
    pub open spec fn closed() -> PopupView {
        PopupView {
            mode: PopupMode::Inactive,
            focus: PopupField::Name,
            name: Seq::empty(),
            selected_algorithm: 0,
            selected_state: 0,
            use_random_ivs: false,
            key: Seq::empty(),
            text_input: Seq::empty(),
        }
    }
}

impl PopupState {
    pub open spec fn well_formed(&self) -> bool {
        self@.well_formed()
    }

    /// A closed overlay with empty buffers.
    pub fn new() -> (popup: Self)
        ensures
            popup@ == PopupView::closed(),
    {
        PopupState {
            mode: PopupMode::Inactive,
            focus: PopupField::Name,
            name: String::new(),
            selected_algorithm: 0,
            selected_state: 0,
            use_random_ivs: false,
            key: String::new(),
            text_input: String::new(),
        }
    }
}

impl Default for PopupState {
    fn default() -> (popup: Self)
        ensures
            popup@ == PopupView::closed(),
    {
        PopupState::new()
    }
}

/// The number of rows that the overlay takes.
pub const POPUP_HEIGHT: u16 = 10;

/// What is drawn for the overlay: a titled box with its lines, each in a
/// rectangle of its own, and the hints below the box.
#[derive(Debug)]
pub struct PopupFrame {
    pub area: Rect,
    pub title: String,
    pub lines: Vec<String>,
    pub line_areas: Vec<Rect>,
    pub hints_area: Rect,
    pub hints: Vec<String>,
    pub hint_areas: Vec<Rect>,
}

/// An overlay drawing with its texts as character sequences.
pub struct PopupFrameView {
    pub area: Rect,
    pub title: Seq<char>,
    pub lines: Seq<Seq<char>>,
    pub line_areas: Seq<Rect>,
    pub hints_area: Rect,
    pub hints: Seq<Seq<char>>,
    pub hint_areas: Seq<Rect>,
}

/// The texts of `list`, each as its character sequence.
pub open spec fn row_views(list: Seq<String>) -> Seq<Seq<char>> {
    Seq::new(list.len(), |i: int| list[i]@)
}

impl View for PopupFrame {
    type V = PopupFrameView;

    open spec fn view(&self) -> PopupFrameView {
        PopupFrameView {
            area: self.area,
            title: self.title@,
            lines: row_views(self.lines@),
            line_areas: self.line_areas@,
            hints_area: self.hints_area,
            hints: row_views(self.hints@),
            hint_areas: self.hint_areas@,
        }
    }
}

/// The view of an overlay drawing that may be absent.
pub open spec fn optional_frame(frame: Option<PopupFrame>) -> Option<PopupFrameView> {
    match frame {
        Some(frame) => Some(frame@),
        None => None,
    }
}

/// The mark in front of a line: an arrow on the line in focus.
pub open spec fn marker(focused: bool) -> Seq<char> {
    if focused {
        "> "@
    } else {
        "  "@
    }
}

/// The box of the overlay on a screen of the given size: half as wide as
/// the screen, ten rows high, and centred.
pub open spec fn popup_area(size: Rect) -> Rect {
    Rect {
        x: ((size.width - size.width / 2) / 2) as u16,
        y: ((size.height - POPUP_HEIGHT) / 2) as u16,
        width: size.width / 2,
        height: POPUP_HEIGHT,
    }
}

/// The strip of `rows` rows right below the overlay.
pub open spec fn hints_area(size: Rect, rows: u16) -> Rect {
    Rect {
        x: popup_area(size).x,
        y: (popup_area(size).y + POPUP_HEIGHT) as u16,
        width: popup_area(size).width,
        height: rows,
    }
}

impl PopupView {
    /// The title of the profile form.
    pub open spec fn form_title(self) -> Seq<char> {
        match self.mode {
            PopupMode::Add => "Add Environment"@,
            PopupMode::Edit => "Edit Environment"@,
            _ => Seq::empty(),
        }
    }

    /// The five lines of the profile form, the one in focus marked.
    pub open spec fn form_lines(self) -> Seq<Seq<char>> {
        seq![
            marker(self.focus == PopupField::Name) + "Name: "@ + self.name,
            marker(self.focus == PopupField::Algorithm) + "Algorithm: "@
                + algorithm_table()[self.selected_algorithm as int].name_text(),
            marker(self.focus == PopupField::State) + "State: "@
                + state_table()[self.selected_state as int].name_text(),
            marker(self.focus == PopupField::IV) + "Use Random IV: "@ + bool_text(
                self.use_random_ivs,
            ),
            marker(self.focus == PopupField::Key) + "Key: "@ + self.key,
        ]
    }

    /// The lines of the transform form: the text, then the two buttons,
    /// the one in focus marked.
    pub open spec fn transform_lines(self) -> Seq<Seq<char>> {
        seq![
            self.text_input,
            marker(self.focus == PopupField::EncryptButton) + "Encrypt"@,
            marker(self.focus == PopupField::DecryptButton) + "Decrypt"@,
        ]
    }

    /// What is drawn for the profile form on a screen of the given size,
    /// with its lines and hints in the given rectangles.
    pub open spec fn form_frame(
        self,
        size: Rect,
        line_areas: Seq<Rect>,
        hint_areas: Seq<Rect>,
    ) -> PopupFrameView {
        PopupFrameView {
            area: popup_area(size),
            title: self.form_title(),
            lines: self.form_lines(),
            line_areas,
            hints_area: hints_area(size, 6),
            hints: seq![
                "[Tab] Next Field"@,
                "[Shift+Tab] Prev Field"@,
                "[Up/Down] Cycle Dropdown"@,
                "[Space] Toggle IV"@,
                "[Enter] Save"@,
                "[Esc] Cancel"@,
            ],
            hint_areas,
        }
    }

    /// What is drawn for the transform form on a screen of the given size:
    /// the text in the upper of the two `rows`, the buttons side by side
    /// in `buttons`, and one line of hints.
    pub open spec fn transform_frame(
        self,
        size: Rect,
        rows: Seq<Rect>,
        buttons: Seq<Rect>,
    ) -> PopupFrameView {
        PopupFrameView {
            area: popup_area(size),
            title: "Encrypt/Decrypt"@,
            lines: self.transform_lines(),
            line_areas: seq![rows[0], buttons[0], buttons[1]],
            hints_area: hints_area(size, 1),
            hints: seq!["[Enter] Confirm | [Esc] Cancel | [Tab] Switch Focus"@],
            hint_areas: seq![hints_area(size, 1)],
        }
    }

    /// Whether `frame` is what is drawn for the overlay on a screen of the
    /// given size, wherever the solver has put its lines: nothing while
    /// the overlay is closed.
    pub open spec fn drawn_as(self, size: Rect, frame: Option<PopupFrameView>) -> bool {
        match self.mode {
            PopupMode::Add | PopupMode::Edit => frame matches Some(f) && f.line_areas.len() == 5
                && f.hint_areas.len() == 6 && f == self.form_frame(
                size,
                f.line_areas,
                f.hint_areas,
            ),
            PopupMode::EncryptDecrypt => frame matches Some(f) && f.line_areas.len() == 3
                && f.hint_areas.len() == 1 && f == (PopupFrameView {
                line_areas: f.line_areas,
                ..self.transform_frame(size, Seq::empty(), Seq::empty())
            }),
            PopupMode::Inactive => frame is None,
        }
    }
}

/// The line `label` followed by `value`, marked if it is in focus.
fn marked_line(focused: bool, label: &str, value: &str) -> (line: String)
    ensures
        line@ == marker(focused) + label@ + value@,
{
    let mut line = if focused {
        "> ".to_owned()
    } else {
        "  ".to_owned()
    };
    push_text(&mut line, label);
    push_text(&mut line, value);
    line
}

/// The box of the overlay on a screen of the given size.
fn place_popup(size: Rect) -> (area: Rect)
    requires
        size.height >= POPUP_HEIGHT,
    ensures
        area == popup_area(size),
{
    let popup_width = size.width / 2;
    let popup_x = (size.width - popup_width) / 2;
    let popup_y = (size.height - POPUP_HEIGHT) / 2;
    Rect { x: popup_x, y: popup_y, width: popup_width, height: POPUP_HEIGHT }
}

/// The strip of `rows` rows right below the overlay.
fn place_hints(size: Rect, rows: u16) -> (area: Rect)
    requires
        size.height >= POPUP_HEIGHT,
    ensures
        area == hints_area(size, rows),
{
    let area = place_popup(size);
    Rect { x: area.x, y: area.y + POPUP_HEIGHT, width: area.width, height: rows }
}

/// `count` shares of one row each.
fn single_rows(count: usize) -> (shares: Vec<Constraint>)
    ensures
        shares@.len() == count,
        forall|i: int| 0 <= i < count ==> shares@[i] == Constraint::Length(1),
{
    let mut shares: Vec<Constraint> = Vec::new();
    while shares.len() < count
        invariant
            shares@.len() <= count,
            forall|i: int| 0 <= i < shares@.len() ==> shares@[i] == Constraint::Length(1),
        decreases count - shares@.len(),
    {
        shares.push(Constraint::Length(1));
    }
    shares
}

/// What is drawn for the overlay, if it is open. The screen must have
/// room for its ten rows.
pub fn draw_popup(size: Rect, state: &AppState) -> (frame: Option<PopupFrame>)
    requires
        state.well_formed(),
        size.height >= POPUP_HEIGHT,
    ensures
        state@.popup.drawn_as(size, optional_frame(frame)),
{
    match state.popup.mode {
        PopupMode::Add | PopupMode::Edit => Some(draw_add_edit_popup(size, state)),
        PopupMode::EncryptDecrypt => Some(draw_encrypt_decrypt_popup(size, state)),
        PopupMode::Inactive => None,
    }
}

/// What is drawn for the profile form, with its five lines and its six
/// hints in the given rectangles.
pub fn add_edit_popup_frame(
    size: Rect,
    state: &AppState,
    line_areas: Vec<Rect>,
    hint_areas: Vec<Rect>,
) -> (frame: PopupFrame)
    requires
        state.well_formed(),
        size.height >= POPUP_HEIGHT,
    ensures
        frame@ == state@.popup.form_frame(size, line_areas@, hint_areas@),
{
    let popup = &state.popup;
    let title = match popup.mode {
        PopupMode::Add => "Add Environment".to_owned(),
        PopupMode::Edit => "Edit Environment".to_owned(),
        _ => String::new(),
    };
    let mut lines: Vec<String> = Vec::new();
    lines.push(marked_line(popup.focus == PopupField::Name, "Name: ", popup.name.as_str()));
    lines.push(
        marked_line(
            popup.focus == PopupField::Algorithm,
            "Algorithm: ",
            algorithm_at(popup.selected_algorithm).name(),
        ),
    );
    lines.push(
        marked_line(
            popup.focus == PopupField::State,
            "State: ",
            state_at(popup.selected_state).name(),
        ),
    );
    lines.push(
        marked_line(
            popup.focus == PopupField::IV,
            "Use Random IV: ",
            bool_word(popup.use_random_ivs),
        ),
    );
    lines.push(marked_line(popup.focus == PopupField::Key, "Key: ", popup.key.as_str()));
    let mut hints: Vec<String> = Vec::new();
    hints.push("[Tab] Next Field".to_owned());
    hints.push("[Shift+Tab] Prev Field".to_owned());
    hints.push("[Up/Down] Cycle Dropdown".to_owned());
    hints.push("[Space] Toggle IV".to_owned());
    hints.push("[Enter] Save".to_owned());
    hints.push("[Esc] Cancel".to_owned());
    let frame = PopupFrame {
        area: place_popup(size),
        title,
        lines,
        line_areas,
        hints_area: place_hints(size, 6),
        hints,
        hint_areas,
    };
    assert(frame@.lines =~= state@.popup.form_lines());
    assert(frame@.hints =~= state@.popup.form_frame(size, line_areas@, hint_areas@).hints);
    frame
}

/// What is drawn for the profile form: its five fields, one per line
/// inside the border of the box, and six lines of hints below the box.
pub fn draw_add_edit_popup(size: Rect, state: &AppState) -> (frame: PopupFrame)
    requires
        state.well_formed(),
        size.height >= POPUP_HEIGHT,
    ensures
        frame@.line_areas.len() == 5,
        frame@.hint_areas.len() == 6,
        frame@ == state@.popup.form_frame(size, frame@.line_areas, frame@.hint_areas),
{
    let inner = bordered_inner(place_popup(size));
    let line_areas = split(Direction::Vertical, 1, &single_rows(5), inner);
    let hint_areas = split(Direction::Vertical, 0, &single_rows(6), place_hints(size, 6));
    add_edit_popup_frame(size, state, line_areas, hint_areas)
}

/// What is drawn for the transform form, with the text in the upper of
/// the two `rows` and the buttons in `buttons`.
pub fn encrypt_decrypt_popup_frame(
    size: Rect,
    state: &AppState,
    rows: &Vec<Rect>,
    buttons: &Vec<Rect>,
) -> (frame: PopupFrame)
    requires
        size.height >= POPUP_HEIGHT,
        rows@.len() == 2,
        buttons@.len() == 2,
    ensures
        frame@ == state@.popup.transform_frame(size, rows@, buttons@),
{
    let popup = &state.popup;
    let mut lines: Vec<String> = Vec::new();
    lines.push(popup.text_input.clone());
    lines.push(marked_line(popup.focus == PopupField::EncryptButton, "Encrypt", ""));
    lines.push(marked_line(popup.focus == PopupField::DecryptButton, "Decrypt", ""));
    let mut line_areas: Vec<Rect> = Vec::new();
    line_areas.push(rows[0]);
    line_areas.push(buttons[0]);
    line_areas.push(buttons[1]);
    let mut hints: Vec<String> = Vec::new();
    hints.push("[Enter] Confirm | [Esc] Cancel | [Tab] Switch Focus".to_owned());
    let mut hint_areas: Vec<Rect> = Vec::new();
    hint_areas.push(place_hints(size, 1));
    let frame = PopupFrame {
        area: place_popup(size),
        title: "Encrypt/Decrypt".to_owned(),
        lines,
        line_areas,
        hints_area: place_hints(size, 1),
        hints,
        hint_areas,
    };
    proof {
        let expected = state@.popup.transform_frame(size, rows@, buttons@);
        reveal_strlit("");
        assert(""@ =~= Seq::<char>::empty());
        assert(frame@.lines[1] =~= expected.lines[1]);
        assert(frame@.lines[2] =~= expected.lines[2]);
        assert(frame@.lines =~= expected.lines);
        assert(frame@.hints =~= expected.hints);
        assert(frame@.line_areas =~= expected.line_areas);
        assert(frame@.hint_areas =~= expected.hint_areas);
    }
    frame
}

/// What is drawn for the transform form: inside the border of the box,
/// the text above the two buttons, which stand side by side; and one line
/// of hints below the box.
pub fn draw_encrypt_decrypt_popup(size: Rect, state: &AppState) -> (frame: PopupFrame)
    requires
        size.height >= POPUP_HEIGHT,
    ensures
        frame@.line_areas.len() == 3,
        frame@.hint_areas.len() == 1,
        frame@ == (PopupFrameView {
            line_areas: frame@.line_areas,
            ..state@.popup.transform_frame(size, Seq::empty(), Seq::empty())
        }),
{
    let inner = bordered_inner(place_popup(size));
    let mut shares: Vec<Constraint> = Vec::new();
    shares.push(Constraint::Length(3));
    shares.push(Constraint::Length(1));
    let rows = split(Direction::Vertical, 1, &shares, inner);
    let mut halves: Vec<Constraint> = Vec::new();
    halves.push(Constraint::Percentage(50));
    halves.push(Constraint::Percentage(50));
    let buttons = split(Direction::Horizontal, 0, &halves, rows[1]);
    encrypt_decrypt_popup_frame(size, state, &rows, &buttons)
}

} // verus!
