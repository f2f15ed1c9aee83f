//! The registry of panes: which one holds the focus, where actions go,
//! and where each pane is drawn.

use vstd::arithmetic::div_mod::{
    lemma_add_mod_noop,
    lemma_mod_self_0,
    lemma_small_mod,
};
use vstd::prelude::*;
use crate::action::{follow_up_view, Action, ActionView};
use crate::errors::{EnvironmentError, ErrorView};
use crate::layout::{split, Constraint, Direction, Rect};
use crate::panes::{
    lemma_update_keeps_kind,
    DetailsPane,
    EnvsPane,
    Event,
    Pane,
    PaneFrame,
    PaneFrameView,
    PaneView,
    SearchPane,
    StatusPane,
};
use crate::state::{InputMode, State, StateView};
use crate::tui::KeyCode;

verus! {

/// The place of the pane that shows messages.
pub const STATUS_PANE: usize = 1;

/// One pane's drawing request.
#[derive(Debug)]
pub struct Drawing {
    /// The place of the pane in the registry.
    pub pane: usize,
    pub frame: PaneFrame,
}

/// One drawing with its texts as character sequences.
pub struct DrawingView {
    pub pane: nat,
    pub frame: PaneFrameView,
}

impl View for Drawing {
    type V = DrawingView;

    open spec fn view(&self) -> DrawingView {
        DrawingView { pane: self.pane as nat, frame: self.frame@ }
    }
}

/// The drawings of `list`, each as its view.
pub open spec fn drawing_views(list: Seq<Drawing>) -> Seq<DrawingView> {
    Seq::new(list.len(), |i: int| list[i]@)
}

/// A pane with the region that it is drawn into.
#[derive(Debug, Clone, Copy, PartialEq, Eq, Structural)]
pub struct Place {
    pub pane: usize,
    pub area: Rect,
}

/// The regions of the four panes of the main screen, in the order in
/// which they are drawn, once the screen was divided: `left` and `right`
/// are the rows of its two halves, and `whole` the rows of all of it.
/// The list takes the middle row on the left and the details the middle
/// row on the right; the status line takes the last row in full width,
/// and the search field the first row on the left.
pub open spec fn main_places(left: Seq<Rect>, right: Seq<Rect>, whole: Seq<Rect>) -> Seq<Place> {
    seq![
        Place { pane: 0, area: left[1] },
        Place { pane: 2, area: right[1] },
        Place { pane: 1, area: whole[2] },
        Place { pane: 3, area: left[0] },
    ]
}

/// Whether the loop goes on.
#[derive(Debug, Clone, Copy, PartialEq, Eq, Structural)]
pub enum Control {
    Continue,
    Quit,
}

/// The action that a key stands for on the screen of panes, whatever pane
/// is in focus. The letter `q` leaves the program while keys are commands.
pub open spec fn key_action(key: KeyCode, mode: InputMode) -> Option<ActionView> {
    match key {
        KeyCode::Tab => Some(ActionView::Tab),
        KeyCode::Up => Some(ActionView::Up),
        KeyCode::Down => Some(ActionView::Down),
        KeyCode::Backspace => Some(ActionView::Backspace),
        KeyCode::Enter => Some(ActionView::Submit),
        KeyCode::Char(c) => if c == 'q' && mode == InputMode::Normal {
            Some(ActionView::Quit)
        } else {
            None
        },
        _ => None,
    }
}

/// The registry with each pane as its model.
pub struct HomeView {
    pub panes: Seq<PaneView>,
    pub focused: nat,
}

/// The registry and the shared state after an action.
pub struct HomeStep {
    pub home: HomeView,
    pub state: StateView,
}

/// The models of `panes`.
pub open spec fn pane_views(panes: Seq<Pane>) -> Seq<PaneView> {
    Seq::new(panes.len(), |i: int| panes[i]@)
}

/// The place that lies `step` places after `from` on a ring of `len`
/// places, for a step of at most one round.
pub open spec fn ring_index(from: nat, step: nat, len: nat) -> nat {
    if from + step < len {
        from + step
    } else {
        (from + step - len) as nat
    }
}

/// The first place, counted from `step` places after `focused` in ring order,
/// whose pane takes the focus; `focused` itself once the round is done.
pub open spec fn seek_focus(panes: Seq<PaneView>, focused: nat, step: nat) -> nat
    decreases panes.len() - step,
{
    if step >= panes.len() {
        focused
    } else if panes[ring_index(focused, step, panes.len()) as int].focusable() {
        ring_index(focused, step, panes.len())
    } else {
        seek_focus(panes, focused, step + 1)
    }
}

/// Where the focus goes from `focused`: to the next pane in ring order
/// that takes it. With no other such pane it stays.
pub open spec fn next_focus_index(panes: Seq<PaneView>, focused: nat) -> nat {
    seek_focus(panes, focused, 1)
}

/// The first place from `from` on whose pane takes the focus; the first
/// place of all where no pane does.
pub open spec fn first_focusable(panes: Seq<PaneView>, from: nat) -> nat
    decreases panes.len() - from,
{
    if from >= panes.len() {
        0
    } else if panes[from as int].focusable() {
        from
    } else {
        first_focusable(panes, from + 1)
    }
}

/// Whether some pane takes the focus.
pub open spec fn any_focusable(panes: Seq<PaneView>) -> bool {
    exists|i: int| 0 <= i < panes.len() && (#[trigger] panes[i]).focusable()
}

impl HomeView {
    /// The focus points at a pane, and at one that takes the focus if
    /// there is such a pane at all.
    pub open spec fn well_formed(self) -> bool {
        &&& self.focused < self.panes.len()
        &&& any_focusable(self.panes) ==> self.panes[self.focused as int].focusable()
    }

    /// No pane but the one in focus shows itself as the one in focus.
    pub open spec fn marks_agree(self) -> bool {
        forall|i: int|
            0 <= i < self.panes.len() && (#[trigger] self.panes[i]).marked() ==> i == self.focused
    }

    /// The registry with the focus moved on.
    pub open spec fn advanced(self) -> HomeView {
        HomeView { focused: next_focus_index(self.panes, self.focused), ..self }
    }

    /// The outcome of handing `message` to the pane that shows messages.
    /// Without such a pane the message is dropped; an answer of that pane
    /// is dropped too.
    pub open spec fn posted(self, message: ActionView, state: StateView) -> HomeStep {
        if STATUS_PANE < self.panes.len() {
            self.handed(STATUS_PANE as int, message, state)
        } else {
            HomeStep { home: self, state }
        }
    }

    /// The outcome of handing `action` to the pane at `index`, its answer
    /// left aside.
    pub open spec fn handed(self, index: int, action: ActionView, state: StateView) -> HomeStep {
        let step = self.panes[index].updated(action, state);
        HomeStep {
            home: HomeView { panes: self.panes.update(index, step.pane), ..self },
            state: step.state,
        }
    }

    /// The outcome of handing `action` to the pane at `index` and its
    /// answer, if it gives one, to the pane that shows messages.
    pub open spec fn delivered(self, index: int, action: ActionView, state: StateView) -> HomeStep {
        let step = self.handed(index, action, state);
        match self.panes[index].updated(action, state).follow_up {
            Some(answer) => step.home.posted(answer, step.state),
            None => step,
        }
    }

    /// The outcome of moving the focus on: the pane that holds it is told
    /// that it loses it, then the focus moves, then the pane that it moved
    /// to is told that it holds it.
    pub open spec fn tabbed(self, state: StateView) -> HomeStep {
        let left = self.handed(self.focused as int, ActionView::UnFocus, state);
        let home = left.home.advanced();
        home.delivered(home.focused as int, ActionView::Focus, left.state)
    }

    /// The registry and the shared state after `action`. Moves, text and
    /// deletions go to the pane in focus and to no other; messages go to
    /// the pane that shows them.
    pub open spec fn updated(self, action: ActionView, state: StateView) -> HomeStep {
        if action is Down || action is Up || action is Input || action is Backspace {
            self.delivered(self.focused as int, action, state)
        } else if action is Tab {
            self.tabbed(state)
        } else if action is Error || action is Message {
            self.posted(action, state)
        } else {
            HomeStep { home: self, state }
        }
    }

    /// The action that `event` stands for, if any. The pane in focus is
    /// asked first; what it does not claim goes by the keys of the screen.
    pub open spec fn event_action(self, event: Event, state: StateView) -> Option<ActionView> {
        match self.panes[self.focused as int].event_action(event, state) {
            Some(action) => Some(action),
            None => match event {
                Event::Key(key) => key_action(key, state.input_mode),
                Event::Resize(width, height) => Some(ActionView::Resize(width, height)),
                Event::Tick => Some(ActionView::Tick),
                _ => None,
            },
        }
    }

    /// The registry and the shared state after `event`: as after the
    /// action that it stands for, and unchanged if it stands for none.
    pub open spec fn after_event(self, event: Event, state: StateView) -> HomeStep {
        match self.event_action(event, state) {
            Some(action) => self.updated(action, state),
            None => HomeStep { home: self, state },
        }
    }

    /// Whether the loop goes on after `event`: it ends on the action that
    /// leaves the program.
    pub open spec fn control(self, event: Event, state: StateView) -> Control {
        if self.event_action(event, state) == Some(ActionView::Quit) {
            Control::Quit
        } else {
            Control::Continue
        }
    }

    /// Whether the panes can be laid out: that takes four of them.
    pub open spec fn plannable(self) -> bool {
        self.panes.len() >= 4
    }

    /// The panes that are drawn, in the order in which they are drawn.
    pub open spec fn draw_order() -> Seq<nat> {
        seq![0, 2, 1, 3]
    }

    /// Whether every pane that is drawn can be drawn.
    pub open spec fn drawable(self, state: StateView) -> bool {
        forall|k: int|
            0 <= k < Self::draw_order().len() ==> self.panes[#[trigger] Self::draw_order()[k] as int].drawable(
                state,
            )
    }

    /// Whether `drawings` are the requests of the panes at `places`, each
    /// for its region, in their order.
    pub open spec fn drawn(self, places: Seq<Place>, state: StateView, drawings: Seq<DrawingView>) -> bool {
        &&& drawings.len() == places.len()
        &&& forall|k: int|
            0 <= k < places.len() ==> {
                &&& (#[trigger] drawings[k]).pane == places[k].pane
                &&& drawings[k].frame.area == places[k].area
                &&& self.panes[places[k].pane as int].shows(state, drawings[k].frame)
            }
    }

    /// Whether `drawings` are the requests of the four panes that are
    /// drawn, in their order, wherever the solver has put them.
    pub open spec fn painted(self, state: StateView, drawings: Seq<DrawingView>) -> bool {
        &&& drawings.len() == Self::draw_order().len()
        &&& forall|k: int|
            0 <= k < drawings.len() ==> {
                &&& (#[trigger] drawings[k]).pane == Self::draw_order()[k]
                &&& self.panes[Self::draw_order()[k] as int].shows(state, drawings[k].frame)
            }
    }
}

/// The registry: the panes in their ring order and the place of the one
/// in focus.
#[derive(Debug)]
pub struct Home {
    panes: Vec<Pane>,
    focused_pane_index: usize,
}

impl View for Home {
    type V = HomeView;

    closed spec fn view(&self) -> HomeView {
        HomeView { panes: pane_views(self.panes@), focused: self.focused_pane_index as nat }
    }
}

impl Home {
    pub open spec fn well_formed(&self) -> bool {
        self@.well_formed()
    }

    /// The registry of the main screen: the list in focus, the status
    /// line, the details and the search field.
    pub fn new() -> (home: Self)
        ensures
            home.well_formed(),
            home@.marks_agree(),
            home@ == (HomeView {
                panes: seq![
                    PaneView::Envs { focused: true },
                    PaneView::Status { message: Seq::empty(), is_error: false },
                    PaneView::Details,
                    PaneView::Search { focused: false, input: None },
                ],
                focused: 0,
            }),
    {
        let mut panes: Vec<Pane> = Vec::new();
        panes.push(Pane::Envs(EnvsPane::new(true)));
        panes.push(Pane::Status(StatusPane::new()));
        panes.push(Pane::Details(DetailsPane::new()));
        panes.push(Pane::Search(SearchPane::new(false)));
        let home = Home { panes, focused_pane_index: 0 };
        assert(home@.panes =~= seq![
            PaneView::Envs { focused: true },
            PaneView::Status { message: Seq::empty(), is_error: false },
            PaneView::Details,
            PaneView::Search { focused: false, input: None },
        ]);
        home
    }

    /// A registry of the given panes, with the focus on the first one that
    /// takes it, or on the first one of all where none does. There is no
    /// registry without panes.
    pub fn with_panes(panes: Vec<Pane>) -> (home: Option<Self>)
        ensures
            panes@.len() == 0 ==> home is None,
            panes@.len() > 0 ==> (home matches Some(h) && h.well_formed() && h@ == (HomeView {
                panes: pane_views(panes@),
                focused: first_focusable(pane_views(panes@), 0),
            })),
    {
        if panes.len() == 0 {
            return None;
        }
        let mut index: usize = 0;
        while index < panes.len() && !panes[index].focusable()
            invariant
                index <= panes@.len(),
                forall|i: int| 0 <= i < index ==> !(#[trigger] pane_views(panes@)[i]).focusable(),
                first_focusable(pane_views(panes@), 0) == first_focusable(
                    pane_views(panes@),
                    index as nat,
                ),
            decreases panes@.len() - index,
        {
            index += 1;
        }
        if index == panes.len() {
            index = 0;
        }
        Some(Home { panes, focused_pane_index: index })
    }

    /// The number of panes.
    pub fn pane_count(&self) -> (count: usize)
        ensures
            count == self@.panes.len(),
    {
        self.panes.len()
    }

    /// The place of the pane in focus.
    pub fn focused_pane(&self) -> (index: usize)
        ensures
            index == self@.focused,
    {
        self.focused_pane_index
    }

    /// The pane at `index`, if there is one.
    pub fn pane(&self, index: usize) -> (pane: Option<&Pane>)
        ensures
            index < self@.panes.len() ==> (pane matches Some(p) && p@ == self@.panes[index as int]),
            index >= self@.panes.len() ==> pane is None,
    {
        if index < self.panes.len() {
            Some(&self.panes[index])
        } else {
            None
        }
    }

    /// Moves the focus to the next pane in ring order that takes it, and
    /// leaves it where it is when no other pane does.
    pub fn next_focused_pane(&mut self)
        requires
            old(self).well_formed(),
        ensures
            final(self).well_formed(),
            final(self)@ == old(self)@.advanced(),
    {
        let len = self.panes.len();
        let start = self.focused_pane_index;
        let mut index = start;
        let mut visited: usize = 1;
        index += 1;
        if index == len {
            index = 0;
        }
        while visited < len && !self.panes[index].focusable()
            invariant
                len == self.panes@.len(),
                start < len,
                1 <= visited <= len,
                index == ring_index(start as nat, visited as nat, len as nat),
                index < len,
                seek_focus(pane_views(self.panes@), start as nat, 1) == seek_focus(
                    pane_views(self.panes@),
                    start as nat,
                    visited as nat,
                ),
            decreases len - visited,
        {
            index += 1;
            if index == len {
                index = 0;
            }
            visited += 1;
        }
        proof {
            lemma_advance_keeps_focus_taken(old(self)@);
        }
        self.focused_pane_index = index;
    }

    /// The regions of the four panes of the main screen, in the order in
    /// which they are drawn, from the rows of the two halves of the screen
    /// and the rows of all of it.
    pub fn place_panes(left: &Vec<Rect>, right: &Vec<Rect>, whole: &Vec<Rect>) -> (places: Vec<Place>)
        requires
            left@.len() == 3,
            right@.len() == 3,
            whole@.len() == 3,
        ensures
            places@ == main_places(left@, right@, whole@),
    {
        let mut places: Vec<Place> = Vec::new();
        places.push(Place { pane: 0, area: left[1] });
        places.push(Place { pane: 2, area: right[1] });
        places.push(Place { pane: 1, area: whole[2] });
        places.push(Place { pane: 3, area: left[0] });
        assert(places@ =~= main_places(left@, right@, whole@));
        places
    }

    /// The requests of the panes at `places`, each for its region, in
    /// their order; or the failure of the first pane that cannot be
    /// drawn.
    pub fn draw_panes(&self, places: &Vec<Place>, state: &State) -> (outcome: Result<
        Vec<Drawing>,
        EnvironmentError,
    >)
        requires
            forall|k: int| 0 <= k < places@.len() ==> places@[k].pane < self@.panes.len(),
        ensures
            (forall|k: int|
                0 <= k < places@.len() ==> self@.panes[#[trigger] places@[k].pane as int].drawable(
                    state@,
                )) ==> (outcome matches Ok(drawings) && self@.drawn(
                places@,
                state@,
                drawing_views(drawings@),
            )),
            !(forall|k: int|
                0 <= k < places@.len() ==> self@.panes[#[trigger] places@[k].pane as int].drawable(
                    state@,
                )) ==> (outcome matches Err(e) && e@ == ErrorView::InvalidIndex(
                state@.store.current,
            )),
    {
        let mut drawings: Vec<Drawing> = Vec::new();
        let mut k: usize = 0;
        while k < places.len()
            invariant
                k <= places@.len(),
                forall|j: int| 0 <= j < places@.len() ==> places@[j].pane < self@.panes.len(),
                forall|j: int|
                    0 <= j < k ==> self@.panes[#[trigger] places@[j].pane as int].drawable(state@),
                self@.drawn(places@.take(k as int), state@, drawing_views(drawings@)),
            decreases places@.len() - k,
        {
            let place = places[k];
            match self.panes[place.pane].draw(place.area, state) {
                Ok(frame) => {
                    let ghost before = drawing_views(drawings@);
                    drawings.push(Drawing { pane: place.pane, frame });
                    proof {
                        let after = drawing_views(drawings@);
                        assert(after =~= before.push(
                            DrawingView { pane: place.pane as nat, frame: frame@ },
                        ));
                        let done = places@.take(k + 1);
                        assert forall|j: int| 0 <= j < done.len() implies {
                            &&& (#[trigger] after[j]).pane == done[j].pane
                            &&& after[j].frame.area == done[j].area
                            &&& self@.panes[done[j].pane as int].shows(state@, after[j].frame)
                        } by {
                            if j < k {
                                assert(after[j] == before[j]);
                                assert(done[j] == places@.take(k as int)[j]);
                            }
                        }
                    }
                },
                Err(e) => {
                    return Err(e);
                },
            }
            k += 1;
        }
        assert(places@.take(k as int) =~= places@);
        Ok(drawings)
    }

    /// What is drawn for the main screen, or the failure of the first pane
    /// that cannot be drawn. The region is divided into two halves side by
    /// side, and each half and the whole into rows by the shares that the
    /// search field, the list and the status line ask for.
    pub fn draw(&self, area: Rect, state: &State) -> (outcome: Result<Vec<Drawing>, EnvironmentError>)
        requires
            self.well_formed(),
            self@.plannable(),
        ensures
            self@.drawable(state@) ==> (outcome matches Ok(drawings) && self@.painted(
                state@,
                drawing_views(drawings@),
            )),
            !self@.drawable(state@) ==> (outcome matches Err(e) && e@ == ErrorView::InvalidIndex(
                state@.store.current,
            )),
    {
        let ghost order = HomeView::draw_order();
        let mut halves: Vec<Constraint> = Vec::new();
        halves.push(Constraint::Fill(1));
        halves.push(Constraint::Fill(1));
        let outer = split(Direction::Horizontal, 0, &halves, area);
        let mut rows: Vec<Constraint> = Vec::new();
        rows.push(self.panes[3].height_constraint());
        rows.push(self.panes[0].height_constraint());
        rows.push(self.panes[1].height_constraint());
        let whole = split(Direction::Vertical, 0, &rows, area);
        let left = split(Direction::Vertical, 0, &rows, outer[0]);
        let right = split(Direction::Vertical, 0, &rows, outer[1]);
        let places = Self::place_panes(&left, &right, &whole);
        assert forall|k: int| 0 <= k < places@.len() implies #[trigger] places@[k].pane
            == order[k] by {}
        assert((forall|k: int|
            0 <= k < places@.len() ==> self@.panes[#[trigger] places@[k].pane as int].drawable(
                state@,
            )) == self@.drawable(state@)) by {
            if self@.drawable(state@) {
                assert forall|k: int| 0 <= k < places@.len() implies self@.panes[#[trigger] places@[k].pane as int].drawable(
                    state@,
                ) by {
                    assert(self@.panes[order[k] as int].drawable(state@));
                }
            }
            if forall|k: int|
                0 <= k < places@.len() ==> self@.panes[#[trigger] places@[k].pane as int].drawable(
                    state@,
                ) {
                assert forall|k: int| 0 <= k < order.len() implies self@.panes[#[trigger] order[k] as int].drawable(
                    state@,
                ) by {
                    assert(self@.panes[places@[k].pane as int].drawable(state@));
                }
            }
        }
        match self.draw_panes(&places, state) {
            Ok(drawings) => {
                proof {
                    let views = drawing_views(drawings@);
                    assert forall|k: int| 0 <= k < views.len() implies {
                        &&& (#[trigger] views[k]).pane == order[k]
                        &&& self@.panes[order[k] as int].shows(state@, views[k].frame)
                    } by {
                        assert(views[k].pane == places@[k].pane);
                    }
                }
                Ok(drawings)
            },
            Err(e) => Err(e),
        }
    }

    /// Hands `message` to the pane that shows messages.
    fn post(&mut self, message: Action, state: &mut State)
        requires
            old(self).well_formed(),
            old(state).well_formed(),
        ensures
            final(self).well_formed(),
            final(state).well_formed(),
            (HomeStep { home: final(self)@, state: final(state)@ }) == old(self)@.posted(
                message@,
                old(state)@,
            ),
    {
        proof {
            lemma_post_keeps_registry(old(self)@, message@, old(state)@);
        }
        if STATUS_PANE < self.panes.len() {
            let _ = self.panes[STATUS_PANE].update(message, state);
            assert(self@.panes =~= old(self)@.panes.update(
                STATUS_PANE as int,
                old(self)@.panes[STATUS_PANE as int].updated(message@, old(state)@).pane,
            ));
        }
    }

    /// Hands `action` to the pane at `index`, and its answer to the pane
    /// that shows messages.
    fn deliver(&mut self, index: usize, action: Action, state: &mut State)
        requires
            old(self).well_formed(),
            old(state).well_formed(),
            index < old(self)@.panes.len(),
        ensures
            final(self).well_formed(),
            final(state).well_formed(),
            (HomeStep { home: final(self)@, state: final(state)@ }) == old(self)@.delivered(
                index as int,
                action@,
                old(state)@,
            ),
    {
        proof {
            lemma_deliver_keeps_registry(old(self)@, index as int, action@, old(state)@);
        }
        let answer = self.panes[index].update(action, state);
        assert(self@.panes =~= old(self)@.panes.update(
            index as int,
            old(self)@.panes[index as int].updated(action@, old(state)@).pane,
        ));
        match answer {
            Some(message) => {
                assert(self@ == old(self)@.handed(index as int, action@, old(state)@).home);
                self.post(message, state);
            },
            None => {},
        }
    }

    /// Moves the focus on and tells the two panes concerned: first the
    /// one that loses it, then, after the move, the one that holds it.
    fn tab(&mut self, state: &mut State)
        requires
            old(self).well_formed(),
            old(state).well_formed(),
        ensures
            final(self).well_formed(),
            final(state).well_formed(),
            (HomeStep { home: final(self)@, state: final(state)@ }) == old(self)@.tabbed(
                old(state)@,
            ),
    {
        proof {
            lemma_hand_keeps_registry(
                old(self)@,
                old(self)@.focused as int,
                ActionView::UnFocus,
                old(state)@,
            );
        }
        let _ = self.panes[self.focused_pane_index].update(Action::UnFocus, state);
        assert(self@.panes =~= old(self)@.panes.update(
            old(self)@.focused as int,
            old(self)@.panes[old(self)@.focused as int].updated(
                ActionView::UnFocus,
                old(state)@,
            ).pane,
        ));
        assert(self@ == old(self)@.handed(
            old(self)@.focused as int,
            ActionView::UnFocus,
            old(state)@,
        ).home);
        self.next_focused_pane();
        self.deliver(self.focused_pane_index, Action::Focus, state);
    }

    /// The action that `event` stands for, if any.
    pub fn handle_events(&self, event: Event, state: &State) -> (action: Option<Action>)
        requires
            self.well_formed(),
        ensures
            follow_up_view(action) == self@.event_action(event, state@),
    {
        match self.panes[self.focused_pane_index].handle_events(event, state) {
            Some(action) => Some(action),
            None => match event {
                Event::Key(key) => match key {
                    KeyCode::Tab => Some(Action::Tab),
                    KeyCode::Up => Some(Action::Up),
                    KeyCode::Down => Some(Action::Down),
                    KeyCode::Backspace => Some(Action::Backspace),
                    KeyCode::Enter => Some(Action::Submit),
                    KeyCode::Char(c) => {
                        if c == 'q' && state.input_mode == InputMode::Normal {
                            Some(Action::Quit)
                        } else {
                            None
                        }
                    },
                    _ => None,
                },
                Event::Resize(width, height) => Some(Action::Resize(width, height)),
                Event::Tick => Some(Action::Tick),
                _ => None,
            },
        }
    }

    /// Handles one event of the loop: turns it into an action, hands the
    /// action on, and tells whether the loop goes on.
    pub fn dispatch(&mut self, event: Event, state: &mut State) -> (control: Control)
        requires
            old(self).well_formed(),
            old(state).well_formed(),
        ensures
            final(self).well_formed(),
            final(state).well_formed(),
            (HomeStep { home: final(self)@, state: final(state)@ }) == old(self)@.after_event(
                event,
                old(state)@,
            ),
            old(self)@.marks_agree() ==> final(self)@.marks_agree(),
            control == old(self)@.control(event, old(state)@),
    {
        match self.handle_events(event, state) {
            Some(action) => {
                let control = match action {
                    Action::Quit => Control::Quit,
                    _ => Control::Continue,
                };
                let _ = self.update(action, state);
                control
            },
            None => Control::Continue,
        }
    }

    /// Hands `action` to where it belongs.
    fn route(&mut self, action: Action, state: &mut State)
        requires
            old(self).well_formed(),
            old(state).well_formed(),
        ensures
            final(self).well_formed(),
            final(state).well_formed(),
            (HomeStep { home: final(self)@, state: final(state)@ }) == old(self)@.updated(
                action@,
                old(state)@,
            ),
    {
        match action {
            Action::Down | Action::Up | Action::Input(_) | Action::Backspace => {
                self.deliver(self.focused_pane_index, action, state);
            },
            Action::Tab => {
                self.tab(state);
            },
            Action::Error(_) | Action::Message(_) => {
                self.post(action, state);
            },
            _ => {},
        }
    }

    /// Handles one action. Nothing is left for the caller to pass on: what
    /// a pane answers goes to the pane that shows messages. As long as
    /// the focus is moved by this function alone, no pane but the one in
    /// focus shows itself as the one in focus.
    pub fn update(&mut self, action: Action, state: &mut State) -> (follow_up: Option<Action>)
        requires
            old(self).well_formed(),
            old(state).well_formed(),
        ensures
            final(self).well_formed(),
            final(state).well_formed(),
            (HomeStep { home: final(self)@, state: final(state)@ }) == old(self)@.updated(
                action@,
                old(state)@,
            ),
            old(self)@.marks_agree() ==> final(self)@.marks_agree(),
            follow_up is None,
    {
        proof {
            if old(self)@.marks_agree() {
                lemma_update_keeps_single_mark(old(self)@, action@, old(state)@);
            }
        }
        self.route(action, state);
        None
    }
}

/// An action that is handed to one pane leaves every pane the pane that
/// it is, so the registry stays well-formed.
proof fn lemma_hand_keeps_registry(home: HomeView, index: int, action: ActionView, state: StateView)
    requires
        home.well_formed(),
        state.well_formed(),
        0 <= index < home.panes.len(),
    ensures
        home.handed(index, action, state).home.well_formed(),
        home.handed(index, action, state).state.well_formed(),
        home.handed(index, action, state).home.panes.len() == home.panes.len(),
        forall|i: int|
            0 <= i < home.panes.len() ==> (#[trigger] home.handed(
                index,
                action,
                state,
            ).home.panes[i]).focusable() == home.panes[i].focusable(),
{
    let after = home.handed(index, action, state).home;
    lemma_update_keeps_kind(home.panes[index], action, state);
    assert forall|i: int| 0 <= i < home.panes.len() implies (#[trigger] after.panes[i]).focusable()
        == home.panes[i].focusable() by {}
    if any_focusable(after.panes) {
        let i = choose|i: int| 0 <= i < after.panes.len() && (#[trigger] after.panes[i]).focusable();
        assert(home.panes[i].focusable());
        assert(after.panes[home.focused as int].focusable() == home.panes[home.focused as int].focusable());
    }
}

proof fn lemma_post_keeps_registry(home: HomeView, message: ActionView, state: StateView)
    requires
        home.well_formed(),
        state.well_formed(),
    ensures
        home.posted(message, state).home.well_formed(),
        home.posted(message, state).state.well_formed(),
{
    if STATUS_PANE < home.panes.len() {
        lemma_hand_keeps_registry(home, STATUS_PANE as int, message, state);
    }
}

proof fn lemma_deliver_keeps_registry(home: HomeView, index: int, action: ActionView, state: StateView)
    requires
        home.well_formed(),
        state.well_formed(),
        0 <= index < home.panes.len(),
    ensures
        home.delivered(index, action, state).home.well_formed(),
        home.delivered(index, action, state).state.well_formed(),
{
    let step = home.handed(index, action, state);
    lemma_hand_keeps_registry(home, index, action, state);
    if home.panes[index].updated(action, state).follow_up is Some {
        lemma_post_keeps_registry(
            step.home,
            home.panes[index].updated(action, state).follow_up->0,
            step.state,
        );
    }
}

/// Wherever the focus is, moving it on puts it on a pane that takes it, if
/// there is such a pane at all.
pub proof fn lemma_focus_lands_on_focusable(panes: Seq<PaneView>, focused: nat)
    requires
        focused < panes.len(),
        any_focusable(panes),
    ensures
        next_focus_index(panes, focused) < panes.len(),
        panes[next_focus_index(panes, focused) as int].focusable(),
{
    let steps = lemma_focus_skips_unfocusable(panes, focused);
    if steps == panes.len() {
        let i = choose|i: int| 0 <= i < panes.len() && (#[trigger] panes[i]).focusable();
        if i != focused {
            let j = if i > focused {
                (i - focused) as nat
            } else {
                (i + panes.len() - focused) as nat
            };
            assert(ring_index(focused, j, panes.len()) == i);
        }
    }
}

/// Moving the focus on leaves the registry well-formed.
proof fn lemma_advance_keeps_focus_taken(home: HomeView)
    requires
        home.well_formed(),
    ensures
        home.advanced().well_formed(),
{
    lemma_focus_skips_unfocusable(home.panes, home.focused);
    if any_focusable(home.panes) {
        lemma_focus_lands_on_focusable(home.panes, home.focused);
    }
}

/// Handing a message to the pane that shows messages changes no pane's
/// showing itself as the one in focus.
proof fn lemma_post_keeps_marks(home: HomeView, message: ActionView, state: StateView)
    requires
        message is Message || message is Error,
    ensures
        home.posted(message, state).home.focused == home.focused,
        home.posted(message, state).home.panes.len() == home.panes.len(),
        forall|i: int|
            0 <= i < home.panes.len() ==> (#[trigger] home.posted(message, state).home.panes[i]).marked()
                == home.panes[i].marked(),
{
    if STATUS_PANE < home.panes.len() {
        lemma_update_keeps_kind(home.panes[STATUS_PANE as int], message, state);
    }
}

/// Handing an action to a pane, and its answer on, changes at most that
/// pane's showing itself as the one in focus.
proof fn lemma_deliver_keeps_marks(home: HomeView, index: int, action: ActionView, state: StateView)
    requires
        0 <= index < home.panes.len(),
    ensures
        home.delivered(index, action, state).home.focused == home.focused,
        home.delivered(index, action, state).home.panes.len() == home.panes.len(),
        forall|i: int|
            0 <= i < home.panes.len() && i != index ==> (#[trigger] home.delivered(
                index,
                action,
                state,
            ).home.panes[i]).marked() == home.panes[i].marked(),
        home.delivered(index, action, state).home.panes[index].marked() == home.panes[index].updated(
            action,
            state,
        ).pane.marked(),
{
    let step = home.handed(index, action, state);
    lemma_update_keeps_kind(home.panes[index], action, state);
    match home.panes[index].updated(action, state).follow_up {
        Some(answer) => {
            lemma_post_keeps_marks(step.home, answer, step.state);
            let after = step.home.posted(answer, step.state).home;
            assert forall|i: int| 0 <= i < home.panes.len() && i != index implies (#[trigger] after.panes[i]).marked()
                == home.panes[i].marked() by {
                assert(after.panes[i].marked() == step.home.panes[i].marked());
            }
            assert(after.panes[index].marked() == step.home.panes[index].marked());
        },
        None => {},
    }
}

/// A move, a character or a deletion reaches the pane in focus and no
/// other: every other pane stays as it is, but for the pane that shows
/// messages, which takes what the pane in focus answers.
pub proof fn lemma_other_panes_are_inert(home: HomeView, action: ActionView, state: StateView)
    requires
        home.well_formed(),
        action is Down || action is Up || action is Input || action is Backspace,
    ensures
        home.updated(action, state).home.focused == home.focused,
        home.updated(action, state).home.panes.len() == home.panes.len(),
        forall|i: int|
            0 <= i < home.panes.len() && i != home.focused && i != STATUS_PANE ==> (
            #[trigger] home.updated(action, state).home.panes[i]) == home.panes[i],
{
}

/// As long as the focus is moved by actions alone, at most one pane shows
/// itself as the one in focus, and that is the pane in focus: the pane
/// that loses the focus is told so before the pane that gains it.
pub proof fn lemma_update_keeps_single_mark(home: HomeView, action: ActionView, state: StateView)
    requires
        home.well_formed(),
        home.marks_agree(),
    ensures
        home.updated(action, state).home.marks_agree(),
{
    let after = home.updated(action, state).home;
    if action is Down || action is Up || action is Input || action is Backspace {
        lemma_deliver_keeps_marks(home, home.focused as int, action, state);
        lemma_update_keeps_kind(home.panes[home.focused as int], action, state);
        assert forall|i: int| 0 <= i < after.panes.len() && (#[trigger] after.panes[i]).marked() implies i
            == after.focused by {
            if i != home.focused {
                assert(home.panes[i].marked());
            }
        }
    } else if action is Tab {
        let left = home.handed(home.focused as int, ActionView::UnFocus, state);
        lemma_update_keeps_kind(home.panes[home.focused as int], ActionView::UnFocus, state);
        assert forall|i: int| 0 <= i < left.home.panes.len() implies !(#[trigger] left.home.panes[i]).marked() by {
            if i != home.focused {
                assert(!home.panes[i].marked());
            }
        }
        let moved = left.home.advanced();
        lemma_focus_skips_unfocusable(left.home.panes, left.home.focused);
        lemma_deliver_keeps_marks(moved, moved.focused as int, ActionView::Focus, left.state);
        assert forall|i: int| 0 <= i < after.panes.len() && (#[trigger] after.panes[i]).marked() implies i
            == after.focused by {
            if i != moved.focused {
                assert(moved.panes[i].marked());
            }
        }
    } else if action is Error || action is Message {
        lemma_post_keeps_marks(home, action, state);
        assert forall|i: int| 0 <= i < after.panes.len() && (#[trigger] after.panes[i]).marked() implies i
            == after.focused by {
            assert(home.panes[i].marked());
        }
    }
}

/// Where the focus is after it moved on `times` times from `focused`.
pub open spec fn focus_after_advances(panes: Seq<PaneView>, focused: nat, times: nat) -> nat
    decreases times,
{
    if times == 0 {
        focused
    } else {
        next_focus_index(panes, focus_after_advances(panes, focused, (times - 1) as nat))
    }
}

/// The number of panes from place `from` up to, not including, place `to`
/// that take the focus.
pub open spec fn focusable_within(panes: Seq<PaneView>, from: int, to: int) -> nat
    decreases to - from,
{
    if from >= to {
        0
    } else {
        focusable_within(panes, from, to - 1) + if panes[to - 1].focusable() {
            1nat
        } else {
            0nat
        }
    }
}

/// The number of panes that take the focus.
pub open spec fn focusable_count(panes: Seq<PaneView>) -> nat {
    focusable_within(panes, 0, panes.len() as int)
}

proof fn lemma_seek_focus(panes: Seq<PaneView>, focused: nat, step: nat) -> (steps: nat)
    requires
        focused < panes.len(),
        1 <= step <= panes.len(),
    ensures
        step <= steps <= panes.len(),
        seek_focus(panes, focused, step) == ring_index(focused, steps, panes.len()),
        forall|j: nat|
            step <= j < steps ==> !panes[#[trigger] ring_index(focused, j, panes.len()) as int].focusable(),
        steps < panes.len() ==> panes[seek_focus(panes, focused, step) as int].focusable(),
    decreases panes.len() - step,
{
    if step >= panes.len() {
        step
    } else if panes[ring_index(focused, step, panes.len()) as int].focusable() {
        step
    } else {
        lemma_seek_focus(panes, focused, step + 1)
    }
}

/// The focus moves to the first pane after the current one, in ring
/// order, that takes it: every pane that it passes over does not. After a
/// whole round without such a pane it is back where it was.
pub proof fn lemma_focus_skips_unfocusable(panes: Seq<PaneView>, focused: nat) -> (steps: nat)
    requires
        focused < panes.len(),
    ensures
        1 <= steps <= panes.len(),
        next_focus_index(panes, focused) == ring_index(focused, steps, panes.len()),
        next_focus_index(panes, focused) < panes.len(),
        forall|j: nat|
            1 <= j < steps ==> !panes[#[trigger] ring_index(focused, j, panes.len()) as int].focusable(),
        steps < panes.len() ==> panes[next_focus_index(panes, focused) as int].focusable(),
        steps == panes.len() ==> next_focus_index(panes, focused) == focused,
{
    lemma_seek_focus(panes, focused, 1)
}

proof fn lemma_focusable_within_split(panes: Seq<PaneView>, from: int, mid: int, to: int)
    requires
        from <= mid <= to,
    ensures
        focusable_within(panes, from, to) == focusable_within(panes, from, mid) + focusable_within(
            panes,
            mid,
            to,
        ),
    decreases to - mid,
{
    if mid < to {
        lemma_focusable_within_split(panes, from, mid, to - 1);
    }
}

proof fn lemma_focusable_within_none(panes: Seq<PaneView>, from: int, to: int)
    requires
        forall|i: int| from <= i < to ==> !panes[i].focusable(),
    ensures
        focusable_within(panes, from, to) == 0,
    decreases to - from,
{
    if from < to {
        lemma_focusable_within_none(panes, from, to - 1);
    }
}

/// A pane that takes the focus has fewer such panes before it than there
/// are in all.
proof fn lemma_rank_below_count(panes: Seq<PaneView>, place: nat)
    requires
        place < panes.len(),
        panes[place as int].focusable(),
    ensures
        focusable_within(panes, 0, place as int) < focusable_count(panes),
{
    lemma_focusable_within_split(panes, 0, (place + 1) as int, panes.len() as int);
}

/// Two panes that take the focus and have equally many such panes before
/// them are the same pane.
proof fn lemma_rank_tells_panes_apart(panes: Seq<PaneView>, a: nat, b: nat)
    requires
        a < panes.len(),
        b < panes.len(),
        panes[a as int].focusable(),
        panes[b as int].focusable(),
        focusable_within(panes, 0, a as int) == focusable_within(panes, 0, b as int),
    ensures
        a == b,
{
    if a < b {
        lemma_focusable_within_split(panes, 0, (a + 1) as int, b as int);
    } else if b < a {
        lemma_focusable_within_split(panes, 0, (b + 1) as int, a as int);
    }
}

/// Moving the focus on from a pane that takes it leads to the pane that
/// has one more such pane before it, counted round the ring.
proof fn lemma_advance_raises_rank(panes: Seq<PaneView>, focused: nat)
    requires
        focused < panes.len(),
        panes[focused as int].focusable(),
    ensures
        next_focus_index(panes, focused) < panes.len(),
        panes[next_focus_index(panes, focused) as int].focusable(),
        focusable_within(panes, 0, next_focus_index(panes, focused) as int) == (focusable_within(
            panes,
            0,
            focused as int,
        ) + 1) % focusable_count(panes),
{
    let len = panes.len();
    let count = focusable_count(panes);
    let rank = focusable_within(panes, 0, focused as int);
    let next = next_focus_index(panes, focused);
    let steps = lemma_focus_skips_unfocusable(panes, focused);
    lemma_rank_below_count(panes, focused);
    if focused + steps < len {
        assert forall|i: int| focused + 1 <= i < next implies !panes[i].focusable() by {
            let j = (i - focused) as nat;
            assert(ring_index(focused, j, len) == i);
        }
        lemma_focusable_within_none(panes, (focused + 1) as int, next as int);
        lemma_focusable_within_split(panes, 0, (focused + 1) as int, next as int);
        lemma_rank_below_count(panes, next);
        lemma_small_mod(rank + 1, count);
    } else {
        assert forall|i: int| focused + 1 <= i < len implies !panes[i].focusable() by {
            let j = (i - focused) as nat;
            assert(ring_index(focused, j, len) == i);
        }
        assert forall|i: int| 0 <= i < next implies !panes[i].focusable() by {
            let j = (i + len - focused) as nat;
            assert(ring_index(focused, j, len) == i);
        }
        lemma_focusable_within_none(panes, (focused + 1) as int, len as int);
        lemma_focusable_within_none(panes, 0, next as int);
        lemma_focusable_within_split(panes, 0, (focused + 1) as int, len as int);
        lemma_mod_self_0(count as int);
    }
}

proof fn lemma_advances_raise_rank(panes: Seq<PaneView>, focused: nat, times: nat)
    requires
        focused < panes.len(),
        panes[focused as int].focusable(),
    ensures
        focus_after_advances(panes, focused, times) < panes.len(),
        panes[focus_after_advances(panes, focused, times) as int].focusable(),
        focusable_within(panes, 0, focus_after_advances(panes, focused, times) as int) == (
        focusable_within(panes, 0, focused as int) + times) % focusable_count(panes),
    decreases times,
{
    let count = focusable_count(panes);
    let rank = focusable_within(panes, 0, focused as int);
    lemma_rank_below_count(panes, focused);
    if times == 0 {
        lemma_small_mod(rank, count);
    } else {
        let before = focus_after_advances(panes, focused, (times - 1) as nat);
        lemma_advances_raise_rank(panes, focused, (times - 1) as nat);
        lemma_advance_raises_rank(panes, before);
        lemma_add_mod_noop(rank + times - 1, 1, count as int);
        lemma_rank_below_count(panes, before);
        lemma_small_mod(focusable_within(panes, 0, before as int), count);
        if count == 1 {
            assert(focusable_within(panes, 0, before as int) == 0);
            lemma_mod_self_0(1);
            assert((rank + times) % 1 == 0) by (nonlinear_arith);
        } else {
            lemma_small_mod(1, count);
        }
    }
}

/// From a pane that takes the focus, moving the focus on as often as
/// there are such panes, or any multiple of that, leads back to it.
pub proof fn lemma_focus_returns_after_rounds(panes: Seq<PaneView>, focused: nat, times: nat)
    requires
        focused < panes.len(),
        panes[focused as int].focusable(),
        times % focusable_count(panes) == 0,
    ensures
        focus_after_advances(panes, focused, times) == focused,
{
    let count = focusable_count(panes);
    let rank = focusable_within(panes, 0, focused as int);
    lemma_rank_below_count(panes, focused);
    lemma_advances_raise_rank(panes, focused, times);
    lemma_add_mod_noop(rank as int, times as int, count as int);
    lemma_small_mod(rank, count);
    lemma_rank_tells_panes_apart(panes, focus_after_advances(panes, focused, times), focused);
}

/// Moving the focus on as often as there are panes leads back to the
/// pane where it began, provided that no pane takes the focus, or that
/// the number of panes is a multiple of the number of those that do.
pub proof fn lemma_focus_returns_after_pane_count(home: HomeView)
    requires
        home.well_formed(),
        !any_focusable(home.panes) || home.panes.len() % focusable_count(home.panes) == 0,
    ensures
        focus_after_advances(home.panes, home.focused, home.panes.len()) == home.focused,
{
    if home.panes[home.focused as int].focusable() {
        lemma_focus_returns_after_rounds(home.panes, home.focused, home.panes.len());
    } else {
        lemma_focus_stays_without_focusable(home.panes, home.focused, home.panes.len());
    }
}

/// Where no pane takes the focus, moving it on leaves it where it is.
pub proof fn lemma_focus_stays_without_focusable(panes: Seq<PaneView>, focused: nat, times: nat)
    requires
        focused < panes.len(),
        forall|i: int| 0 <= i < panes.len() ==> !panes[i].focusable(),
    ensures
        focus_after_advances(panes, focused, times) == focused,
    decreases times,
{
    if times > 0 {
        lemma_focus_stays_without_focusable(panes, focused, (times - 1) as nat);
        lemma_focus_skips_unfocusable(panes, focused);
    }
}

} // verus!
