//! The messages of the control loop.

use vstd::prelude::*;

verus! {

/// One message of the control loop. Input is turned into actions, and a
/// pane may answer an action with one more.
#[derive(Debug, PartialEq, Eq)]
pub enum Action {
    Tick,
    Render,
    Resize(u16, u16),
    Suspend,
    Resume,
    Quit,
    ClearScreen,
    Error(String),
    Message(String),
    Help,
    Down,
    Up,
    Update,
    TimedStatusLine(String, u64),
    Tab,
    Focus,
    UnFocus,
    Submit,
    Input(char),
    Backspace,
}

/// An action with its texts as character sequences.
pub enum ActionView {
    Tick,
    Render,
    Resize(u16, u16),
    Suspend,
    Resume,
    Quit,
    ClearScreen,
    Error(Seq<char>),
    Message(Seq<char>),
    Help,
    Down,
    Up,
    Update,
    TimedStatusLine(Seq<char>, u64),
    Tab,
    Focus,
    UnFocus,
    Submit,
    Input(char),
    Backspace,
}

impl View for Action {
    type V = ActionView;

    open spec fn view(&self) -> ActionView {
        match self {
            Action::Tick => ActionView::Tick,
            Action::Render => ActionView::Render,
            Action::Resize(width, height) => ActionView::Resize(*width, *height),
            Action::Suspend => ActionView::Suspend,
            Action::Resume => ActionView::Resume,
            Action::Quit => ActionView::Quit,
            Action::ClearScreen => ActionView::ClearScreen,
            Action::Error(text) => ActionView::Error(text@),
            Action::Message(text) => ActionView::Message(text@),
            Action::Help => ActionView::Help,
            Action::Down => ActionView::Down,
            Action::Up => ActionView::Up,
            Action::Update => ActionView::Update,
            Action::TimedStatusLine(text, time) => ActionView::TimedStatusLine(text@, *time),
            Action::Tab => ActionView::Tab,
            Action::Focus => ActionView::Focus,
            Action::UnFocus => ActionView::UnFocus,
            Action::Submit => ActionView::Submit,
            Action::Input(c) => ActionView::Input(*c),
            Action::Backspace => ActionView::Backspace,
        }
    }
}

/// The view of an action that may be absent.
pub open spec fn follow_up_view(action: Option<Action>) -> Option<ActionView> {
    match action {
        Some(action) => Some(action@),
        None => None,
    }
}

impl Action {
    /// The name of the action's kind.
    pub open spec fn name_text(self) -> Seq<char> {
        match self {
            Action::Tick => "Tick"@,
            Action::Render => "Render"@,
            Action::Resize(_, _) => "Resize"@,
            Action::Suspend => "Suspend"@,
            Action::Resume => "Resume"@,
            Action::Quit => "Quit"@,
            Action::ClearScreen => "ClearScreen"@,
            Action::Error(_) => "Error"@,
            Action::Message(_) => "Message"@,
            Action::Help => "Help"@,
            Action::Down => "Down"@,
            Action::Up => "Up"@,
            Action::Update => "Update"@,
            Action::TimedStatusLine(_, _) => "TimedStatusLine"@,
            Action::Tab => "Tab"@,
            Action::Focus => "Focus"@,
            Action::UnFocus => "UnFocus"@,
            Action::Submit => "Submit"@,
            Action::Input(_) => "Input"@,
            Action::Backspace => "Backspace"@,
        }
    }

    /// The name of the action's kind, as it is shown and logged.
    pub fn name(&self) -> (word: &'static str)
        ensures
            word@ == self.name_text(),
    {
        match self {
            Action::Tick => "Tick",
            Action::Render => "Render",
            Action::Resize(_, _) => "Resize",
            Action::Suspend => "Suspend",
            Action::Resume => "Resume",
            Action::Quit => "Quit",
            Action::ClearScreen => "ClearScreen",
            Action::Error(_) => "Error",
            Action::Message(_) => "Message",
            Action::Help => "Help",
            Action::Down => "Down",
            Action::Up => "Up",
            Action::Update => "Update",
            Action::TimedStatusLine(_, _) => "TimedStatusLine",
            Action::Tab => "Tab",
            Action::Focus => "Focus",
            Action::UnFocus => "UnFocus",
            Action::Submit => "Submit",
            Action::Input(_) => "Input",
            Action::Backspace => "Backspace",
        }
    }
}

impl Clone for Action {
    fn clone(&self) -> (copy: Self)
        ensures
            copy == *self,
    {
        match self {
            Action::Tick => Action::Tick,
            Action::Render => Action::Render,
            Action::Resize(width, height) => Action::Resize(*width, *height),
            Action::Suspend => Action::Suspend,
            Action::Resume => Action::Resume,
            Action::Quit => Action::Quit,
            Action::ClearScreen => Action::ClearScreen,
            Action::Error(text) => Action::Error(text.clone()),
            Action::Message(text) => Action::Message(text.clone()),
            Action::Help => Action::Help,
            Action::Down => Action::Down,
            Action::Up => Action::Up,
            Action::Update => Action::Update,
            Action::TimedStatusLine(text, time) => Action::TimedStatusLine(text.clone(), *time),
            Action::Tab => Action::Tab,
            Action::Focus => Action::Focus,
            Action::UnFocus => Action::UnFocus,
            Action::Submit => Action::Submit,
            Action::Input(c) => Action::Input(*c),
            Action::Backspace => Action::Backspace,
        }
    }
}

} // verus!
