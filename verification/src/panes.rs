//! The panes of the main screen: what each one holds, how it answers an
//! action, and what it asks to have drawn.

use vstd::prelude::*;
use crate::action::{follow_up_view, Action, ActionView};
use crate::environment::EnvironmentView;
use crate::layout::{split, Constraint, Direction, Rect};
use crate::errors::{EnvironmentError, ErrorView};
use crate::state::{optional_text, InputMode, State, StateView};
use crate::text::{decimal, push_decimal, push_text, starts_with};
use crate::tui::KeyCode;

verus! {

/// The strength of a pane's border.
#[derive(Debug, Clone, Copy, PartialEq, Eq, Structural)]
pub enum BorderType {
    Plain,
    Thick,
}

/// The colouring of a pane's border.
#[derive(Debug, Clone, Copy, PartialEq, Eq, Structural)]
pub enum BorderStyle {
    Default,
    Focused,
}

/// An input event as the panes see it.
#[derive(Debug, Clone, Copy, PartialEq, Eq, Structural)]
pub enum Event {
    Key(KeyCode),
    Mouse,
    /// The terminal has the given new width and height.
    Resize(u16, u16),
    /// Time has passed without input.
    Tick,
    /// Anything else.
    Other,
}

/// What a pane asks to have drawn into its region.
#[derive(Debug)]
pub struct PaneFrame {
    /// The region of the pane, border included.
    pub area: Rect,
    /// The part of the region that the text goes to.
    pub text_area: Rect,
    /// The title on the top border; empty for a pane without a border.
    pub title: String,
    /// The title on the bottom border; empty if there is none.
    pub footer: String,
    pub border_type: BorderType,
    pub border_style: BorderStyle,
    /// The rows of a list, or the spans of one line of text.
    pub lines: Vec<String>,
    /// The row of a list that is marked as selected.
    pub selected: Option<usize>,
    /// Whether the text is a hint to be shown dimmed.
    pub dimmed: bool,
}

/// A drawing request with its texts as character sequences.
pub struct PaneFrameView {
    pub area: Rect,
    pub text_area: Rect,
    pub title: Seq<char>,
    pub footer: Seq<char>,
    pub border_type: BorderType,
    pub border_style: BorderStyle,
    pub lines: Seq<Seq<char>>,
    pub selected: Option<nat>,
    pub dimmed: bool,
}

/// The texts of `list`, each as its character sequence.
pub open spec fn line_views(list: Seq<String>) -> Seq<Seq<char>> {
    Seq::new(list.len(), |i: int| list[i]@)
}

impl View for PaneFrame {
    type V = PaneFrameView;

    open spec fn view(&self) -> PaneFrameView {
        PaneFrameView {
            area: self.area,
            text_area: self.text_area,
            title: self.title@,
            footer: self.footer@,
            border_type: self.border_type,
            border_style: self.border_style,
            lines: line_views(self.lines@),
            selected: match self.selected {
                Some(row) => Some(row as nat),
                None => None,
            },
            dimmed: self.dimmed,
        }
    }
}

/// The list of profiles.
#[derive(Debug)]
pub struct EnvsPane {
    focused: bool,
}

/// The details of the selected profile.
#[derive(Debug)]
pub struct DetailsPane {}

/// The line that shows the last message.
#[derive(Debug)]
pub struct StatusPane {
    message: String,
    is_error: bool,
}

/// The field that takes the text to search for.
#[derive(Debug)]
pub struct SearchPane {
    focused: bool,
    input: Option<String>,
}

/// The line at the top that names the program.
#[derive(Debug)]
pub struct HeaderPane {
    version: String,
}

/// What a pane holds.
pub enum PaneView {
    Envs { focused: bool },
    Status { message: Seq<char>, is_error: bool },
    Details,
    Search { focused: bool, input: Option<Seq<char>> },
    Header { version: Seq<char> },
}

/// The outcome of an action: the pane, the shared state, and the
/// action that the pane answers with.
pub struct PaneStep {
    pub pane: PaneView,
    pub state: StateView,
    pub follow_up: Option<ActionView>,
}

/// The names among `entries` that begin with `query`, in their order.
pub open spec fn matching_names(entries: Seq<EnvironmentView>, query: Seq<char>) -> Seq<Seq<char>>
    decreases entries.len(),
{
    if entries.len() == 0 {
        Seq::empty()
    } else if query.is_prefix_of(entries.last().name) {
        matching_names(entries.drop_last(), query).push(entries.last().name)
    } else {
        matching_names(entries.drop_last(), query)
    }
}

/// The text searched for; nothing counts as the empty text.
pub open spec fn query_text(query: Option<Seq<char>>) -> Seq<char> {
    match query {
        Some(text) => text,
        None => Seq::empty(),
    }
}

/// The smaller of two numbers.
pub open spec fn smaller(a: nat, b: nat) -> nat {
    if a <= b {
        a
    } else {
        b
    }
}

impl PaneView {
    /// Whether the pane takes the focus.
    pub open spec fn focusable(self) -> bool {
        self is Envs || self is Search
    }

    /// Whether the pane shows itself as the one in focus.
    pub open spec fn marked(self) -> bool {
        match self {
            PaneView::Envs { focused } => focused,
            PaneView::Search { focused, .. } => focused,
            _ => false,
        }
    }

    /// Whether `other` is a pane of the same kind.
    pub open spec fn same_kind(self, other: PaneView) -> bool {
        match self {
            PaneView::Envs { .. } => other is Envs,
            PaneView::Status { .. } => other is Status,
            PaneView::Details => other is Details,
            PaneView::Search { .. } => other is Search,
            PaneView::Header { .. } => other is Header,
        }
    }

    /// The share of the screen that the pane asks for.
    pub open spec fn height_constraint(self) -> Constraint {
        match self {
            PaneView::Envs { .. } => Constraint::Fill(2),
            PaneView::Status { .. } => Constraint::Fill(1),
            PaneView::Details => Constraint::Fill(1),
            PaneView::Search { .. } => Constraint::Max(3),
            PaneView::Header { .. } => Constraint::Max(1),
        }
    }

    /// The pane and the shared state after `action`, with the pane's
    /// answer. The list moves the selection and takes commands when it is
    /// focused; the search field edits the query and takes text when it
    /// is focused; the status line keeps the last message. A pane that
    /// changed the state answers with a message that describes it.
    pub open spec fn updated(self, action: ActionView, state: StateView) -> PaneStep {
        match self {
            PaneView::Envs { focused } => match action {
                ActionView::Down => PaneStep {
                    pane: self,
                    state: state.next(),
                    follow_up: Some(ActionView::Message(state.next().debug_text())),
                },
                ActionView::Up => PaneStep {
                    pane: self,
                    state: state.prev(),
                    follow_up: Some(ActionView::Message(state.prev().debug_text())),
                },
                ActionView::Focus => {
                    let state = StateView { input_mode: InputMode::Normal, ..state };
                    PaneStep {
                        pane: PaneView::Envs { focused: true },
                        state,
                        follow_up: Some(ActionView::Message(state.debug_text())),
                    }
                },
                ActionView::UnFocus => PaneStep {
                    pane: PaneView::Envs { focused: false },
                    state,
                    follow_up: None,
                },
                _ => PaneStep { pane: self, state, follow_up: None },
            },
            PaneView::Search { focused, input } => match action {
                ActionView::Input(c) => {
                    let input = Some(query_text(input).push(c));
                    PaneStep {
                        pane: PaneView::Search { focused, input },
                        state: StateView { search_query: input, ..state },
                        follow_up: None,
                    }
                },
                ActionView::Backspace => {
                    let input = match input {
                        Some(text) => if text.len() > 0 {
                            Some(text.drop_last())
                        } else {
                            None
                        },
                        None => None,
                    };
                    PaneStep {
                        pane: PaneView::Search { focused, input },
                        state: StateView { search_query: input, ..state },
                        follow_up: None,
                    }
                },
                ActionView::Focus => {
                    let state = StateView { input_mode: InputMode::Insert, ..state };
                    PaneStep {
                        pane: PaneView::Search { focused: true, input },
                        state,
                        follow_up: Some(ActionView::Message(state.debug_text())),
                    }
                },
                ActionView::UnFocus => PaneStep {
                    pane: PaneView::Search { focused: false, input },
                    state: StateView { input_mode: InputMode::Normal, ..state },
                    follow_up: None,
                },
                _ => PaneStep { pane: self, state, follow_up: None },
            },
            PaneView::Status { message, is_error } => match action {
                ActionView::Error(text) => PaneStep {
                    pane: PaneView::Status { message: text, is_error: true },
                    state,
                    follow_up: None,
                },
                ActionView::Message(text) => PaneStep {
                    pane: PaneView::Status { message: text, is_error: false },
                    state,
                    follow_up: None,
                },
                _ => PaneStep { pane: self, state, follow_up: None },
            },
            _ => PaneStep { pane: self, state, follow_up: None },
        }
    }

    /// The action that a key turns into for this pane: the search field
    /// takes characters as input while text is being typed.
    pub open spec fn key_action(self, key: KeyCode, state: StateView) -> Option<ActionView> {
        match (self, key) {
            (PaneView::Search { .. }, KeyCode::Char(c)) => if state.input_mode
                == InputMode::Insert {
                Some(ActionView::Input(c))
            } else {
                None
            },
            _ => None,
        }
    }

    /// The action that an event turns into for this pane.
    pub open spec fn event_action(self, event: Event, state: StateView) -> Option<ActionView> {
        match event {
            Event::Key(key) => self.key_action(key, state),
            _ => None,
        }
    }

    /// The border of the pane: thick while it holds the focus.
    pub open spec fn border_type(self) -> BorderType {
        match self {
            PaneView::Envs { focused } => if focused {
                BorderType::Thick
            } else {
                BorderType::Plain
            },
            PaneView::Search { focused, .. } => if focused {
                BorderType::Thick
            } else {
                BorderType::Plain
            },
            _ => BorderType::Plain,
        }
    }

    /// The colouring of the border: marked while the pane holds the focus.
    pub open spec fn border_style(self) -> BorderStyle {
        match self {
            PaneView::Envs { focused } => if focused {
                BorderStyle::Focused
            } else {
                BorderStyle::Default
            },
            PaneView::Search { focused, .. } => if focused {
                BorderStyle::Focused
            } else {
                BorderStyle::Default
            },
            _ => BorderStyle::Default,
        }
    }

    /// Whether the pane can be drawn: the details need a selected profile.
    pub open spec fn drawable(self, state: StateView) -> bool {
        self is Details ==> state.store.current < state.store.entries.len()
    }

    /// Whether the pane's text fills its region, so that no solver is
    /// asked where the text goes.
    pub open spec fn text_fills_region(self) -> bool {
        self is Envs || self is Header
    }

    /// Whether `frame` is what the pane asks to have drawn into the region
    /// that `frame` names, wherever the solver has put the text.
    pub open spec fn shows(self, state: StateView, frame: PaneFrameView) -> bool {
        &&& frame == self.frame(state, frame.area, frame.text_area)
        &&& self.text_fills_region() ==> frame.text_area == frame.area
    }

    /// What the pane asks to have drawn into `area`, with its text in
    /// `text_area`.
    pub open spec fn frame(self, state: StateView, area: Rect, text_area: Rect) -> PaneFrameView {
        match self {
            PaneView::Envs { .. } => PaneFrameView {
                area,
                text_area,
                title: " Environments "@,
                footer: " "@ + decimal(
                    smaller(state.store.current + 1, state.store.entries.len()),
                ) + " of "@ + decimal(state.store.entries.len()) + " "@,
                border_type: self.border_type(),
                border_style: self.border_style(),
                lines: matching_names(state.store.entries, query_text(state.search_query)),
                selected: Some(state.store.current),
                dimmed: false,
            },
            PaneView::Details => PaneFrameView {
                area,
                text_area,
                title: " "@ + state.store.entries[state.store.current as int].name + " Details "@,
                footer: Seq::empty(),
                border_type: BorderType::Plain,
                border_style: BorderStyle::Default,
                lines: seq![state.store.entries[state.store.current as int].name],
                selected: None,
                dimmed: false,
            },
            PaneView::Status { message, .. } => PaneFrameView {
                area,
                text_area,
                title: " Status "@,
                footer: Seq::empty(),
                border_type: BorderType::Plain,
                border_style: BorderStyle::Default,
                lines: seq![message],
                selected: None,
                dimmed: false,
            },
            PaneView::Search { focused, input } => PaneFrameView {
                area,
                text_area,
                title: " Search "@,
                footer: Seq::empty(),
                border_type: self.border_type(),
                border_style: self.border_style(),
                lines: match input {
                    Some(text) => if focused {
                        seq![text, "\u{258c}"@]
                    } else {
                        seq![text]
                    },
                    None => seq!["Type to search..."@],
                },
                selected: None,
                dimmed: input is None,
            },
            PaneView::Header { version } => PaneFrameView {
                area,
                text_area,
                title: Seq::empty(),
                footer: Seq::empty(),
                border_type: BorderType::Plain,
                border_style: BorderStyle::Default,
                lines: seq!["[ MULE LAZYPROP \u{2022} "@, version + " "@, "]"@],
                selected: None,
                dimmed: false,
            },
        }
    }
}

/// Whether `step` is what `pane`, `state` and `follow_up` show.
pub open spec fn step_is(
    step: PaneStep,
    pane: PaneView,
    state: StateView,
    follow_up: Option<Action>,
) -> bool {
    step.pane == pane && step.state == state && step.follow_up == follow_up_view(follow_up)
}

/// Whether `outcome` is what `pane` asks to have drawn into `area`, or
/// the refusal to draw without a selected profile.
pub open spec fn draws(
    outcome: Result<PaneFrame, EnvironmentError>,
    pane: PaneView,
    state: StateView,
    area: Rect,
) -> bool {
    if pane.drawable(state) {
        outcome matches Ok(frame) && frame@.area == area && pane.shows(state, frame@)
    } else {
        outcome matches Err(e) && e@ == ErrorView::InvalidIndex(state.store.current)
    }
}

/// The one share by which a pane asks the solver for the inside of its
/// border.
fn one_share(share: Constraint) -> (shares: Vec<Constraint>)
    ensures
        shares@ == seq![share],
{
    let mut shares: Vec<Constraint> = Vec::new();
    shares.push(share);
    shares
}

impl View for EnvsPane {
    type V = PaneView;

    closed spec fn view(&self) -> PaneView {
        PaneView::Envs { focused: self.focused }
    }
}

impl EnvsPane {
    /// The list, shown as the pane in focus or not.
    pub fn new(focused: bool) -> (pane: Self)
        ensures
            pane@ == (PaneView::Envs { focused }),
    {
        EnvsPane { focused }
    }

    /// Whether the pane shows itself as the one in focus.
    pub fn is_focused(&self) -> (yes: bool)
        ensures
            yes == self@.marked(),
    {
        self.focused
    }

    /// The colouring of the border: marked while the list holds the focus.
    pub fn border_style(&self) -> (style: BorderStyle)
        ensures
            style == self@.border_style(),
    {
        if self.focused {
            BorderStyle::Focused
        } else {
            BorderStyle::Default
        }
    }

    /// The border: thick while the list holds the focus.
    pub fn border_type(&self) -> (border: BorderType)
        ensures
            border == self@.border_type(),
    {
        if self.focused {
            BorderType::Thick
        } else {
            BorderType::Plain
        }
    }

    /// The share of the screen that the list asks for.
    pub fn height_constraint(&self) -> (share: Constraint)
        ensures
            share == self@.height_constraint(),
    {
        Constraint::Fill(2)
    }

    /// The list takes the focus.
    pub fn focusable(&self) -> (yes: bool)
        ensures
            yes == self@.focusable(),
    {
        true
    }

    /// Moves the selection on a move, takes commands on gaining the focus,
    /// and answers with a message that describes the state it left.
    pub fn update(&mut self, action: Action, state: &mut State) -> (follow_up: Option<Action>)
        requires
            old(state).well_formed(),
        ensures
            final(state).well_formed(),
            final(self)@ is Envs,
            step_is(old(self)@.updated(action@, old(state)@), final(self)@, final(state)@, follow_up),
    {
        match action {
            Action::Down => {
                state.next();
                Some(Action::Message(state.describe()))
            },
            Action::Up => {
                state.prev();
                Some(Action::Message(state.describe()))
            },
            Action::Focus => {
                self.focused = true;
                state.input_mode = InputMode::Normal;
                Some(Action::Message(state.describe()))
            },
            Action::UnFocus => {
                self.focused = false;
                None
            },
            _ => None,
        }
    }

    /// The names that begin with the text searched for, as a list with
    /// the selected row marked, and the place of the selection below it.
    pub fn draw(&self, area: Rect, state: &State) -> (frame: PaneFrame)
        ensures
            frame@ == self@.frame(state@, area, area),
    {
        let mut lines: Vec<String> = Vec::new();
        let len = state.envs.len();
        let mut i: usize = 0;
        while i < len
            invariant
                i <= len,
                len == state@.store.entries.len(),
                line_views(lines@) == matching_names(
                    state@.store.entries.take(i as int),
                    query_text(state@.search_query),
                ),
            decreases len - i,
        {
            match state.envs.get(i) {
                Ok(env) => {
                    let shown = match &state.search_query {
                        Some(query) => starts_with(env.name.as_str(), query.as_str()),
                        None => {
                            assert(Seq::<char>::empty().is_prefix_of(env.name@));
                            true
                        },
                    };
                    proof {
                        let done = state@.store.entries.take(i + 1);
                        assert(done.drop_last() =~= state@.store.entries.take(i as int));
                        assert(done.last() == state@.store.entries[i as int]);
                    }
                    if shown {
                        let ghost before = line_views(lines@);
                        lines.push(env.name.clone());
                        assert(line_views(lines@) =~= before.push(env.name@));
                    }
                },
                Err(_) => {},
            }
            i += 1;
        }
        assert(state@.store.entries.take(i as int) =~= state@.store.entries);
        let cur = state.cur();
        let place = if cur < len {
            cur + 1
        } else {
            len
        };
        let mut footer = " ".to_owned();
        push_decimal(&mut footer, place);
        push_text(&mut footer, " of ");
        push_decimal(&mut footer, len);
        push_text(&mut footer, " ");
        PaneFrame {
            area,
            text_area: area,
            title: " Environments ".to_owned(),
            footer,
            border_type: self.border_type(),
            border_style: self.border_style(),
            lines,
            selected: Some(cur),
            dimmed: false,
        }
    }
}

impl View for DetailsPane {
    type V = PaneView;

    closed spec fn view(&self) -> PaneView {
        PaneView::Details
    }
}

impl DetailsPane {
    /// The details.
    pub fn new() -> (pane: Self)
        ensures
            pane@ == PaneView::Details,
    {
        DetailsPane {  }
    }

    /// The share of the screen that the details ask for.
    pub fn height_constraint(&self) -> (share: Constraint)
        ensures
            share == self@.height_constraint(),
    {
        Constraint::Fill(1)
    }

    /// The details do not take the focus.
    pub fn focusable(&self) -> (yes: bool)
        ensures
            yes == self@.focusable(),
    {
        false
    }

    /// The name of the selected profile as the title and, in the lower
    /// half of what the border leaves, as the text.
    pub fn draw(&self, area: Rect, state: &State) -> (outcome: Result<PaneFrame, EnvironmentError>)
        ensures
            draws(outcome, self@, state@, area),
    {
        let mut halves: Vec<Constraint> = Vec::new();
        halves.push(Constraint::Percentage(50));
        halves.push(Constraint::Percentage(50));
        let parts = split(Direction::Vertical, 1, &halves, area);
        self.frame(area, parts[1], state)
    }

    /// The name of the selected profile as the title and as the text, for
    /// the region `area` with the text in `text_area`.
    pub fn frame(&self, area: Rect, text_area: Rect, state: &State) -> (outcome: Result<
        PaneFrame,
        EnvironmentError,
    >)
        ensures
            self@.drawable(state@) ==> (outcome matches Ok(frame) && frame@ == self@.frame(
                state@,
                area,
                text_area,
            )),
            !self@.drawable(state@) ==> (outcome matches Err(e) && e@ == ErrorView::InvalidIndex(
                state@.store.current,
            )),
    {
        match state.envs.get(state.cur()) {
            Ok(env) => {
                let mut title = " ".to_owned();
                push_text(&mut title, env.name.as_str());
                push_text(&mut title, " Details ");
                let mut lines: Vec<String> = Vec::new();
                lines.push(env.name.clone());
                let frame = PaneFrame {
                    area,
                    text_area,
                    title,
                    footer: String::new(),
                    border_type: BorderType::Plain,
                    border_style: BorderStyle::Default,
                    lines,
                    selected: None,
                    dimmed: false,
                };
                assert(frame@.lines =~= self@.frame(state@, area, text_area).lines);
                Ok(frame)
            },
            Err(e) => Err(e),
        }
    }
}

impl Default for DetailsPane {
    fn default() -> (pane: Self)
        ensures
            pane@ == PaneView::Details,
    {
        DetailsPane::new()
    }
}

impl View for StatusPane {
    type V = PaneView;

    closed spec fn view(&self) -> PaneView {
        PaneView::Status { message: self.message@, is_error: self.is_error }
    }
}

impl StatusPane {
    /// A status line without a message.
    pub fn new() -> (pane: Self)
        ensures
            pane@ == (PaneView::Status { message: Seq::empty(), is_error: false }),
    {
        StatusPane { message: String::new(), is_error: false }
    }

    /// The share of the screen that the status line asks for.
    pub fn height_constraint(&self) -> (share: Constraint)
        ensures
            share == self@.height_constraint(),
    {
        Constraint::Fill(1)
    }

    /// The status line does not take the focus.
    pub fn focusable(&self) -> (yes: bool)
        ensures
            yes == self@.focusable(),
    {
        false
    }

    /// Keeps a message or an error as the last message.
    pub fn update(&mut self, action: Action, state: &mut State) -> (follow_up: Option<Action>)
        ensures
            final(self)@ is Status,
            step_is(old(self)@.updated(action@, old(state)@), final(self)@, final(state)@, follow_up),
    {
        match action {
            Action::Error(message) => {
                self.message = message;
                self.is_error = true;
            },
            Action::Message(message) => {
                self.message = message;
                self.is_error = false;
            },
            _ => {},
        }
        None
    }

    /// The last message, inside the border.
    pub fn draw(&self, area: Rect, _state: &State) -> (frame: PaneFrame)
        ensures
            frame@ == self@.frame(_state@, area, frame@.text_area),
    {
        let parts = split(Direction::Vertical, 1, &one_share(Constraint::Fill(1)), area);
        self.frame(area, parts[0], _state)
    }

    /// The last message, for the region `area` with the text in
    /// `text_area`.
    pub fn frame(&self, area: Rect, text_area: Rect, _state: &State) -> (frame: PaneFrame)
        ensures
            frame@ == self@.frame(_state@, area, text_area),
    {
        let mut lines: Vec<String> = Vec::new();
        lines.push(self.message.clone());
        let frame = PaneFrame {
            area,
            text_area,
            title: " Status ".to_owned(),
            footer: String::new(),
            border_type: BorderType::Plain,
            border_style: BorderStyle::Default,
            lines,
            selected: None,
            dimmed: false,
        };
        assert(frame@.lines =~= self@.frame(_state@, area, text_area).lines);
        frame
    }
}

impl Default for StatusPane {
    fn default() -> (pane: Self)
        ensures
            pane@ == (PaneView::Status { message: Seq::empty(), is_error: false }),
    {
        StatusPane::new()
    }
}

impl View for SearchPane {
    type V = PaneView;

    closed spec fn view(&self) -> PaneView {
        PaneView::Search { focused: self.focused, input: optional_text(self.input) }
    }
}

impl SearchPane {
    /// An empty search field, shown as the pane in focus or not.
    pub fn new(focused: bool) -> (pane: Self)
        ensures
            pane@ == (PaneView::Search { focused, input: None }),
    {
        SearchPane { focused, input: None }
    }

    /// Whether the pane shows itself as the one in focus.
    pub fn is_focused(&self) -> (yes: bool)
        ensures
            yes == self@.marked(),
    {
        self.focused
    }

    /// The colouring of the border: marked while the field holds the focus.
    pub fn border_style(&self) -> (style: BorderStyle)
        ensures
            style == self@.border_style(),
    {
        if self.focused {
            BorderStyle::Focused
        } else {
            BorderStyle::Default
        }
    }

    /// The border: thick while the field holds the focus.
    pub fn border_type(&self) -> (border: BorderType)
        ensures
            border == self@.border_type(),
    {
        if self.focused {
            BorderType::Thick
        } else {
            BorderType::Plain
        }
    }

    /// The share of the screen that the search field asks for.
    pub fn height_constraint(&self) -> (share: Constraint)
        ensures
            share == self@.height_constraint(),
    {
        Constraint::Max(3)
    }

    /// The search field takes the focus.
    pub fn focusable(&self) -> (yes: bool)
        ensures
            yes == self@.focusable(),
    {
        true
    }

    /// The action that a key turns into: a character is input while text is
    /// being typed.
    pub fn handle_key_events(&self, key: KeyCode, state: &State) -> (action: Option<Action>)
        ensures
            follow_up_view(action) == self@.key_action(key, state@),
    {
        match state.input_mode {
            InputMode::Insert => match key {
                KeyCode::Char(c) => Some(Action::Input(c)),
                _ => None,
            },
            _ => None,
        }
    }

    /// A copy of the text typed so far.
    fn typed(&self) -> (copy: Option<String>)
        ensures
            optional_text(copy) == optional_text(self.input),
    {
        match &self.input {
            Some(text) => Some(text.clone()),
            None => None,
        }
    }

    /// Edits the text searched for on input and deletion, and switches
    /// between text and commands as the field gains and loses the focus.
    pub fn update(&mut self, action: Action, state: &mut State) -> (follow_up: Option<Action>)
        requires
            old(state).well_formed(),
        ensures
            final(state).well_formed(),
            final(self)@ is Search,
            step_is(old(self)@.updated(action@, old(state)@), final(self)@, final(state)@, follow_up),
    {
        match action {
            Action::Input(c) => {
                let mut text = match self.typed() {
                    Some(text) => text,
                    None => String::new(),
                };
                text.push(c);
                self.input = Some(text);
                state.search_query = self.typed();
                None
            },
            Action::Backspace => {
                match self.typed() {
                    Some(text) => {
                        let mut text = text;
                        match text.pop() {
                            Some(_) => {
                                self.input = Some(text);
                            },
                            None => {
                                self.input = None;
                            },
                        }
                    },
                    None => {},
                }
                state.search_query = self.typed();
                None
            },
            Action::Focus => {
                self.focused = true;
                state.input_mode = InputMode::Insert;
                Some(Action::Message(state.describe()))
            },
            Action::UnFocus => {
                state.input_mode = InputMode::Normal;
                self.focused = false;
                None
            },
            _ => None,
        }
    }

    /// The text typed so far, with a cursor after it while the field is
    /// focused, or a hint while nothing was typed, inside the border.
    pub fn draw(&self, area: Rect, _state: &State) -> (frame: PaneFrame)
        ensures
            frame@ == self@.frame(_state@, area, frame@.text_area),
    {
        let parts = split(Direction::Vertical, 1, &one_share(Constraint::Max(1000)), area);
        self.frame(area, parts[0], _state)
    }

    /// The text typed so far, with a cursor after it while the field is
    /// focused, or a hint while nothing was typed, for the region `area`
    /// with the text in `text_area`.
    pub fn frame(&self, area: Rect, text_area: Rect, _state: &State) -> (frame: PaneFrame)
        ensures
            frame@ == self@.frame(_state@, area, text_area),
    {
        let mut lines: Vec<String> = Vec::new();
        let mut dimmed = false;
        match &self.input {
            Some(text) => {
                lines.push(text.clone());
                if self.focused {
                    lines.push("\u{258c}".to_owned());
                }
            },
            None => {
                lines.push("Type to search...".to_owned());
                dimmed = true;
            },
        }
        let frame = PaneFrame {
            area,
            text_area,
            title: " Search ".to_owned(),
            footer: String::new(),
            border_type: self.border_type(),
            border_style: self.border_style(),
            lines,
            selected: None,
            dimmed,
        };
        assert(frame@.lines =~= self@.frame(_state@, area, text_area).lines);
        frame
    }
}

impl View for HeaderPane {
    type V = PaneView;

    closed spec fn view(&self) -> PaneView {
        PaneView::Header { version: self.version@ }
    }
}

impl HeaderPane {
    /// A header that shows `version` after the program's name.
    pub fn new(version: &str) -> (pane: Self)
        ensures
            pane@ == (PaneView::Header { version: version@ }),
    {
        HeaderPane { version: version.to_owned() }
    }

    /// The share of the screen that the header asks for.
    pub fn height_constraint(&self) -> (share: Constraint)
        ensures
            share == self@.height_constraint(),
    {
        Constraint::Max(1)
    }

    /// The header does not take the focus.
    pub fn focusable(&self) -> (yes: bool)
        ensures
            yes == self@.focusable(),
    {
        false
    }

    /// The program's name and version between brackets, as three spans.
    pub fn draw(&self, area: Rect, _state: &State) -> (frame: PaneFrame)
        ensures
            frame@ == self@.frame(_state@, area, area),
    {
        let mut lines: Vec<String> = Vec::new();
        lines.push("[ MULE LAZYPROP \u{2022} ".to_owned());
        let mut version = self.version.clone();
        push_text(&mut version, " ");
        lines.push(version);
        lines.push("]".to_owned());
        let frame = PaneFrame {
            area,
            text_area: area,
            title: String::new(),
            footer: String::new(),
            border_type: BorderType::Plain,
            border_style: BorderStyle::Default,
            lines,
            selected: None,
            dimmed: false,
        };
        assert(frame@.lines =~= self@.frame(_state@, area, area).lines);
        frame
    }
}

/// Any pane of the main screen.
#[derive(Debug)]
pub enum Pane {
    Envs(EnvsPane),
    Status(StatusPane),
    Details(DetailsPane),
    Search(SearchPane),
    Header(HeaderPane),
}

impl View for Pane {
    type V = PaneView;

    open spec fn view(&self) -> PaneView {
        match self {
            Pane::Envs(pane) => pane@,
            Pane::Status(pane) => pane@,
            Pane::Details(pane) => pane@,
            Pane::Search(pane) => pane@,
            Pane::Header(pane) => pane@,
        }
    }
}

impl Pane {
    /// Each pane's view is of its own kind.
    pub open spec fn well_formed(&self) -> bool {
        match self {
            Pane::Envs(_) => self@ is Envs,
            Pane::Status(_) => self@ is Status,
            Pane::Details(_) => self@ is Details,
            Pane::Search(_) => self@ is Search,
            Pane::Header(_) => self@ is Header,
        }
    }

    /// The share of the screen that the pane asks for.
    pub fn height_constraint(&self) -> (share: Constraint)
        ensures
            share == self@.height_constraint(),
    {
        match self {
            Pane::Envs(pane) => pane.height_constraint(),
            Pane::Status(pane) => pane.height_constraint(),
            Pane::Details(pane) => pane.height_constraint(),
            Pane::Search(pane) => pane.height_constraint(),
            Pane::Header(pane) => pane.height_constraint(),
        }
    }

    /// Whether the pane takes the focus.
    pub fn focusable(&self) -> (yes: bool)
        ensures
            yes == self@.focusable(),
    {
        match self {
            Pane::Envs(pane) => pane.focusable(),
            Pane::Status(pane) => pane.focusable(),
            Pane::Details(pane) => pane.focusable(),
            Pane::Search(pane) => pane.focusable(),
            Pane::Header(pane) => pane.focusable(),
        }
    }

    /// Whether the pane shows itself as the one in focus.
    pub fn is_focused(&self) -> (yes: bool)
        ensures
            yes == self@.marked(),
    {
        match self {
            Pane::Envs(pane) => pane.is_focused(),
            Pane::Search(pane) => pane.is_focused(),
            _ => false,
        }
    }

    /// The action that an event turns into for this pane, if any.
    pub fn handle_events(&self, event: Event, state: &State) -> (action: Option<Action>)
        ensures
            follow_up_view(action) == self@.event_action(event, state@),
    {
        match event {
            Event::Key(key) => self.handle_key_events(key, state),
            Event::Mouse => self.handle_mouse_events(state),
            _ => None,
        }
    }

    /// The action that a key turns into for this pane, if any.
    pub fn handle_key_events(&self, key: KeyCode, state: &State) -> (action: Option<Action>)
        ensures
            follow_up_view(action) == self@.key_action(key, state@),
    {
        match self {
            Pane::Search(pane) => pane.handle_key_events(key, state),
            _ => None,
        }
    }

    /// No pane answers the mouse.
    pub fn handle_mouse_events(&self, _state: &State) -> (action: Option<Action>)
        ensures
            action is None,
    {
        None
    }

    /// Hands `action` to the pane and gives back what the pane answers.
    pub fn update(&mut self, action: Action, state: &mut State) -> (follow_up: Option<Action>)
        requires
            old(state).well_formed(),
        ensures
            final(state).well_formed(),
            step_is(old(self)@.updated(action@, old(state)@), final(self)@, final(state)@, follow_up),
    {
        match self {
            Pane::Envs(pane) => pane.update(action, state),
            Pane::Status(pane) => pane.update(action, state),
            Pane::Search(pane) => pane.update(action, state),
            Pane::Details(_) => None,
            Pane::Header(_) => None,
        }
    }

    /// What the pane asks to have drawn into `area`.
    pub fn draw(&self, area: Rect, state: &State) -> (outcome: Result<PaneFrame, EnvironmentError>)
        ensures
            draws(outcome, self@, state@, area),
    {
        match self {
            Pane::Envs(pane) => Ok(pane.draw(area, state)),
            Pane::Status(pane) => Ok(pane.draw(area, state)),
            Pane::Details(pane) => pane.draw(area, state),
            Pane::Search(pane) => Ok(pane.draw(area, state)),
            Pane::Header(pane) => Ok(pane.draw(area, state)),
        }
    }
}

/// An action leaves a pane the pane that it is. Only the gain and the loss
/// of the focus change whether it shows itself as the one in focus, and
/// whatever a pane answers is a message.
pub proof fn lemma_update_keeps_kind(pane: PaneView, action: ActionView, state: StateView)
    ensures
        pane.same_kind(pane.updated(action, state).pane),
        pane.updated(action, state).pane.focusable() == pane.focusable(),
        pane.updated(action, state).pane.marked() == if action is Focus {
            pane.focusable()
        } else if action is UnFocus {
            false
        } else {
            pane.marked()
        },
        pane.updated(action, state).follow_up matches Some(answer) ==> answer is Message,
        state.well_formed() ==> pane.updated(action, state).state.well_formed(),
{
}

} // verus!
