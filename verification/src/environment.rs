//! Encryption profiles and the ordered store that owns them.

use vstd::prelude::*;
use crate::errors::{EnvironmentError, ErrorView};
use crate::text::{bool_text, bool_word, debug_quoted, push_text, quote};

verus! {

/// Cipher family of a profile.
#[derive(Debug, Clone, Copy, PartialEq, Eq, Structural)]
pub enum Algorithm {
    AES,
    Blowfish,
    DES,
    DESede,
    RC2,
    RCA,
}

/// Block mode of a profile.
#[derive(Debug, Clone, Copy, PartialEq, Eq, Structural)]
pub enum State {
    CBC,
    CFB,
    ECB,
    OFB,
}

impl Algorithm {
    /// The word by which the transform tool knows this cipher.
    pub open spec fn name_text(self) -> Seq<char> {
        match self {
            Algorithm::AES => "AES"@,
            Algorithm::Blowfish => "Blowfish"@,
            Algorithm::DES => "DES"@,
            Algorithm::DESede => "DESede"@,
            Algorithm::RC2 => "RC2"@,
            Algorithm::RCA => "RCA"@,
        }
    }

    /// The word by which the transform tool knows this cipher.
    pub fn name(&self) -> (word: &'static str)
        ensures
            word@ == self.name_text(),
    {
        match self {
            Algorithm::AES => "AES",
            Algorithm::Blowfish => "Blowfish",
            Algorithm::DES => "DES",
            Algorithm::DESede => "DESede",
            Algorithm::RC2 => "RC2",
            Algorithm::RCA => "RCA",
        }
    }
}

impl State {
    /// The word by which the transform tool knows this mode.
    pub open spec fn name_text(self) -> Seq<char> {
        match self {
            State::CBC => "CBC"@,
            State::CFB => "CFB"@,
            State::ECB => "ECB"@,
            State::OFB => "OFB"@,
        }
    }

    /// The word by which the transform tool knows this mode.
    pub fn name(&self) -> (word: &'static str)
        ensures
            word@ == self.name_text(),
    {
        match self {
            State::CBC => "CBC",
            State::CFB => "CFB",
            State::ECB => "ECB",
            State::OFB => "OFB",
        }
    }
}

impl Default for Algorithm {
    fn default() -> (first: Self)
        ensures
            first == Algorithm::AES,
    {
        Algorithm::AES
    }
}

impl Default for State {
    fn default() -> (first: Self)
        ensures
            first == State::CBC,
    {
        State::CBC
    }
}

/// A named bundle of cipher parameters.
#[derive(Debug)]
pub struct Environment {
    pub name: String,
    pub algorithm: Algorithm,
    pub state: State,
    pub use_random_ivs: bool,
    pub key: String,
}

/// What a profile holds, with its texts as character sequences.
pub struct EnvironmentView {
    pub name: Seq<char>,
    pub algorithm: Algorithm,
    pub state: State,
    pub use_random_ivs: bool,
    pub key: Seq<char>,
}

impl View for Environment {
    type V = EnvironmentView;

    open spec fn view(&self) -> EnvironmentView {
        EnvironmentView {
            name: self.name@,
            algorithm: self.algorithm,
            state: self.state,
            use_random_ivs: self.use_random_ivs,
            key: self.key@,
        }
    }
}

impl EnvironmentView {
    /// The profile written out field by field, texts quoted.
    pub open spec fn debug_text(self) -> Seq<char> {
        "Environment { name: "@ + debug_quoted(self.name) + ", algorithm: "@
            + self.algorithm.name_text() + ", state: "@ + self.state.name_text()
            + ", use_random_ivs: "@ + bool_text(self.use_random_ivs) + ", key: "@ + debug_quoted(
            self.key,
        ) + " }"@
    }
}

/// The profiles written out one after another, separated by commas.
pub open spec fn entries_debug_text(entries: Seq<EnvironmentView>) -> Seq<char>
    decreases entries.len(),
{
    if entries.len() == 0 {
        Seq::empty()
    } else if entries.len() == 1 {
        entries[0].debug_text()
    } else {
        entries_debug_text(entries.drop_last()) + ", "@ + entries.last().debug_text()
    }
}

impl Environment {
    /// Appends the profile, written out field by field, to `out`.
    pub fn describe(&self, out: &mut String)
        ensures
            final(out)@ == old(out)@ + self@.debug_text(),
    {
        push_text(out, "Environment { name: ");
        push_text(out, quote(self.name.as_str()).as_str());
        push_text(out, ", algorithm: ");
        push_text(out, self.algorithm.name());
        push_text(out, ", state: ");
        push_text(out, self.state.name());
        push_text(out, ", use_random_ivs: ");
        push_text(out, bool_word(self.use_random_ivs));
        push_text(out, ", key: ");
        push_text(out, quote(self.key.as_str()).as_str());
        push_text(out, " }");
        assert(out@ =~= old(out)@ + self@.debug_text());
    }

    /// A profile of the given values.
    pub fn new(name: &str, algorithm: Algorithm, state: State, use_random_ivs: bool, key: &str) -> (env:
        Self)
        ensures
            env@ == (EnvironmentView {
                name: name@,
                algorithm,
                state,
                use_random_ivs,
                key: key@,
            }),
    {
        Environment { name: name.to_owned(), algorithm, state, use_random_ivs, key: key.to_owned() }
    }
}

impl Clone for Environment {
    fn clone(&self) -> (copy: Self)
        ensures
            copy == *self,
    {
        Environment {
            name: self.name.clone(),
            algorithm: self.algorithm,
            state: self.state,
            use_random_ivs: self.use_random_ivs,
            key: self.key.clone(),
        }
    }
}

/// The mathematical content of a store: its profiles in display order and
/// the position of the selected one.
pub struct StoreView {
    pub entries: Seq<EnvironmentView>,
    pub current: nat,
}

/// One request to change a store.
pub enum StoreOp {
    Add(EnvironmentView),
    Remove(nat),
    Edit(nat, EnvironmentView),
}

/// No two profiles share a name.
pub open spec fn names_distinct(entries: Seq<EnvironmentView>) -> bool {
    forall|i: int, j: int| 0 <= i < j < entries.len() ==> entries[i].name != entries[j].name
}

/// The profile at `at` is the first one that repeats the name of an earlier
/// profile.
pub open spec fn first_repeat(entries: Seq<EnvironmentView>, at: int) -> bool {
    &&& 0 <= at < entries.len()
    &&& names_distinct(entries.take(at))
    &&& exists|i: int| 0 <= i < at && #[trigger] entries[i].name == entries[at].name
}

/// The profiles of `list`, each as its view.
pub open spec fn profile_views(list: Seq<Environment>) -> Seq<EnvironmentView> {
    Seq::new(list.len(), |i: int| list[i]@)
}

/// Whether `outcome` reports exactly the `refusal` that the model gives.
pub open spec fn answers(outcome: Result<(), EnvironmentError>, refusal: Option<ErrorView>) -> bool {
    match refusal {
        None => outcome is Ok,
        Some(reason) => outcome matches Err(e) && e@ == reason,
    }
}

impl StoreView {
    /// The selection points at a profile, or at zero when there is none.
    pub open spec fn current_in_bounds(self) -> bool {
        if self.entries.len() == 0 {
            self.current == 0
        } else {
            self.current < self.entries.len()
        }
    }

    pub open spec fn well_formed(self) -> bool {
        names_distinct(self.entries) && self.current_in_bounds()
    }

    /// Some profile carries `name`.
    pub open spec fn has_name(self, name: Seq<char>) -> bool {
        exists|i: int| 0 <= i < self.entries.len() && #[trigger] self.entries[i].name == name
    }

    /// Some profile other than the one at `index` carries `name`.
    pub open spec fn has_name_elsewhere(self, index: int, name: Seq<char>) -> bool {
        exists|i: int|
            0 <= i < self.entries.len() && i != index && #[trigger] self.entries[i].name == name
    }

    /// The store after `env` was appended.
    pub open spec fn added(self, env: EnvironmentView) -> StoreView {
        StoreView { entries: self.entries.push(env), current: self.current }
    }

    /// Where the selection rests once only `len` profiles are left.
    pub open spec fn clamped(current: nat, len: nat) -> nat {
        if len == 0 {
            0
        } else if current < len {
            current
        } else {
            (len - 1) as nat
        }
    }

    /// The store after the profile at `index` was taken out.
    pub open spec fn removed(self, index: int) -> StoreView {
        StoreView {
            entries: self.entries.remove(index),
            current: Self::clamped(self.current, (self.entries.len() - 1) as nat),
        }
    }

    /// The store after the profile at `index` was replaced by `env`.
    pub open spec fn edited(self, index: int, env: EnvironmentView) -> StoreView {
        StoreView { entries: self.entries.update(index, env), current: self.current }
    }

    /// Why the store turns `op` down, if it does.
    pub open spec fn refusal(self, op: StoreOp) -> Option<ErrorView> {
        match op {
            StoreOp::Add(env) => if self.has_name(env.name) {
                Some(ErrorView::DuplicateName(env.name))
            } else {
                None
            },
            StoreOp::Remove(index) => if index >= self.entries.len() {
                Some(ErrorView::InvalidIndex(index))
            } else {
                None
            },
            StoreOp::Edit(index, env) => if index >= self.entries.len() {
                Some(ErrorView::InvalidIndex(index))
            } else if self.has_name_elsewhere(index as int, env.name) {
                Some(ErrorView::DuplicateName(env.name))
            } else {
                None
            },
        }
    }

    /// The store after `op` was tried: changed as `op` asks, or left as it
    /// was when `op` is turned down.
    pub open spec fn applied(self, op: StoreOp) -> StoreView {
        if self.refusal(op) is Some {
            self
        } else {
            match op {
                StoreOp::Add(env) => self.added(env),
                StoreOp::Remove(index) => self.removed(index as int),
                StoreOp::Edit(index, env) => self.edited(index as int, env),
            }
        }
    }

    /// The store after the requests of `ops` were tried one after another.
    pub open spec fn applied_all(self, ops: Seq<StoreOp>) -> StoreView
        decreases ops.len(),
    {
        if ops.len() == 0 {
            self
        } else {
            self.applied_all(ops.drop_last()).applied(ops.last())
        }
    }

    /// The store with the selection moved one step down, wrapping to the top.
    pub open spec fn next_selected(self) -> StoreView {
        StoreView {
            entries: self.entries,
            current: if self.current + 1 < self.entries.len() {
                self.current + 1
            } else {
                0
            },
        }
    }

    /// The store with the selection moved one step up, wrapping to the bottom.
    pub open spec fn prev_selected(self) -> StoreView {
        StoreView {
            entries: self.entries,
            current: if self.current > 0 {
                (self.current - 1) as nat
            } else if self.entries.len() > 0 {
                (self.entries.len() - 1) as nat
            } else {
                0
            },
        }
    }
}

/// The ordered collection of profiles, with the selected position.
///
/// Profiles keep the order in which they were added. Names are unique, and
/// the selection is always a valid position, or zero in an empty store.
#[derive(Debug)]
pub struct Environments {
    environments: Vec<Environment>,
    current: usize,
}

impl View for Environments {
    type V = StoreView;

    closed spec fn view(&self) -> StoreView {
        StoreView { entries: profile_views(self.environments@), current: self.current as nat }
    }
}

impl Environments {
    pub open spec fn well_formed(&self) -> bool {
        self@.well_formed()
    }

    /// An empty store.
    pub fn empty() -> (store: Self)
        ensures
            store.well_formed(),
            store@.entries.len() == 0,
            store@.current == 0,
    {
        Environments { environments: Vec::new(), current: 0 }
    }

    /// A store of the given profiles in their order, with the first one
    /// selected. A list in which a name occurs twice is turned down with
    /// the first name that repeats an earlier one.
    pub fn new(entries: Vec<Environment>) -> (outcome: Result<Self, EnvironmentError>)
        ensures
            outcome is Ok <==> names_distinct(profile_views(entries@)),
            match outcome {
                Ok(store) => {
                    &&& store.well_formed()
                    &&& store@.entries == profile_views(entries@)
                    &&& store@.current == 0
                },
                Err(e) => exists|at: int|
                    #![trigger profile_views(entries@)[at]]
                    first_repeat(profile_views(entries@), at) && e@ == ErrorView::DuplicateName(
                        profile_views(entries@)[at].name,
                    ),
            },
    {
        let mut store = Environments::empty();
        let mut i: usize = 0;
        while i < entries.len()
            invariant
                i <= entries@.len(),
                store.well_formed(),
                store@.entries == profile_views(entries@).take(i as int),
                store@.current == 0,
            decreases entries@.len() - i,
        {
            let env = entries[i].clone();
            let ghost before = store@;
            match store.add(env) {
                Err(e) => {
                    proof {
                        let at = i as int;
                        let views = profile_views(entries@);
                        let k = choose|k: int|
                            0 <= k < before.entries.len() && #[trigger] before.entries[k].name
                                == env.name@;
                        assert(views[k].name == views[at].name);
                        assert(first_repeat(views, at));
                    }
                    return Err(e);
                },
                Ok(()) => {},
            }
            assert(store@.entries =~= profile_views(entries@).take(i + 1));
            i += 1;
        }
        assert(profile_views(entries@).take(i as int) =~= profile_views(entries@));
        Ok(store)
    }

    /// Position of the profile called `name`, if there is one.
    fn position(&self, name: &String) -> (found: Option<usize>)
        ensures
            match found {
                Some(i) => i < self@.entries.len() && self@.entries[i as int].name == name@,
                None => !self@.has_name(name@),
            },
    {
        let mut i: usize = 0;
        while i < self.environments.len()
            invariant
                i <= self.environments@.len(),
                forall|j: int| 0 <= j < i ==> self@.entries[j].name != name@,
            decreases self.environments@.len() - i,
        {
            if self.environments[i].name == *name {
                return Some(i);
            }
            i += 1;
        }
        None
    }

    /// Appends `env`, unless a profile of that name is already there.
    pub fn add(&mut self, env: Environment) -> (outcome: Result<(), EnvironmentError>)
        requires
            old(self).well_formed(),
        ensures
            final(self).well_formed(),
            final(self)@ == old(self)@.applied(StoreOp::Add(env@)),
            answers(outcome, old(self)@.refusal(StoreOp::Add(env@))),
    {
        if self.position(&env.name).is_some() {
            return Err(EnvironmentError::DuplicateName(env.name));
        }
        self.environments.push(env);
        assert(self@.entries =~= old(self)@.entries.push(env@));
        Ok(())
    }

    /// Takes out the profile at `index`. A selection that would point past
    /// the end moves to the last profile that is left.
    pub fn remove(&mut self, index: usize) -> (outcome: Result<(), EnvironmentError>)
        requires
            old(self).well_formed(),
        ensures
            final(self).well_formed(),
            final(self)@ == old(self)@.applied(StoreOp::Remove(index as nat)),
            answers(outcome, old(self)@.refusal(StoreOp::Remove(index as nat))),
    {
        if index < self.environments.len() {
            self.environments.remove(index);
            let len = self.environments.len();
            if len == 0 {
                self.current = 0;
            } else if self.current >= len {
                self.current = len - 1;
            }
            assert(self@.entries =~= old(self)@.entries.remove(index as int));
            Ok(())
        } else {
            Err(EnvironmentError::InvalidIndex(index))
        }
    }

    /// Replaces the profile at `index` by `new_env`. Keeping the name, or
    /// taking one that no other profile carries, is allowed.
    pub fn edit(&mut self, index: usize, new_env: Environment) -> (outcome: Result<
        (),
        EnvironmentError,
    >)
        requires
            old(self).well_formed(),
        ensures
            final(self).well_formed(),
            final(self)@ == old(self)@.applied(StoreOp::Edit(index as nat, new_env@)),
            answers(outcome, old(self)@.refusal(StoreOp::Edit(index as nat, new_env@))),
    {
        if index >= self.environments.len() {
            return Err(EnvironmentError::InvalidIndex(index));
        }
        if new_env.name != self.environments[index].name {
            if self.position(&new_env.name).is_some() {
                return Err(EnvironmentError::DuplicateName(new_env.name));
            }
        } else {
            assert forall|i: int| 0 <= i < self@.entries.len() && i != index implies
                self@.entries[i].name != new_env.name@ by {
                if i < index {
                    assert(self@.entries[i].name != self@.entries[index as int].name);
                } else {
                    assert(self@.entries[index as int].name != self@.entries[i].name);
                }
            }
        }
        self.environments.set(index, new_env);
        assert(self@.entries =~= old(self)@.entries.update(index as int, new_env@));
        Ok(())
    }

    /// The profile at `index`.
    pub fn get(&self, index: usize) -> (outcome: Result<&Environment, EnvironmentError>)
        ensures
            index < self@.entries.len() ==> (outcome matches Ok(env) && env@
                == self@.entries[index as int]),
            index >= self@.entries.len() ==> (outcome matches Err(e) && e@
                == ErrorView::InvalidIndex(index as nat)),
    {
        if index < self.environments.len() {
            Ok(&self.environments[index])
        } else {
            Err(EnvironmentError::InvalidIndex(index))
        }
    }

    /// The number of profiles.
    pub fn len(&self) -> (count: usize)
        ensures
            count == self@.entries.len(),
    {
        self.environments.len()
    }

    /// Whether there is no profile.
    pub fn is_empty(&self) -> (none: bool)
        ensures
            none == (self@.entries.len() == 0),
    {
        self.environments.len() == 0
    }

    /// Appends the profiles, written out one after another and separated
    /// by commas, to `out`.
    pub fn describe(&self, out: &mut String)
        ensures
            final(out)@ == old(out)@ + entries_debug_text(self@.entries),
    {
        let mut i: usize = 0;
        while i < self.environments.len()
            invariant
                i <= self.environments@.len(),
                out@ == old(out)@ + entries_debug_text(self@.entries.take(i as int)),
            decreases self.environments@.len() - i,
        {
            if i > 0 {
                push_text(out, ", ");
            }
            self.environments[i].describe(out);
            proof {
                let done = self@.entries.take(i + 1);
                assert(done.drop_last() =~= self@.entries.take(i as int));
                assert(out@ =~= old(out)@ + entries_debug_text(done));
            }
            i += 1;
        }
        assert(self@.entries.take(i as int) =~= self@.entries);
    }

    /// The selected position.
    pub fn current(&self) -> (index: usize)
        ensures
            index == self@.current,
    {
        self.current
    }

    /// Moves the selection one step down, wrapping to the top.
    pub fn select_next(&mut self)
        requires
            old(self).well_formed(),
        ensures
            final(self).well_formed(),
            final(self)@ == old(self)@.next_selected(),
    {
        let len = self.environments.len();
        if len == 0 {
            self.current = 0;
        } else if self.current + 1 < len {
            self.current = self.current + 1;
        } else {
            self.current = 0;
        }
    }

    /// Moves the selection one step up, wrapping to the bottom.
    pub fn select_prev(&mut self)
        requires
            old(self).well_formed(),
        ensures
            final(self).well_formed(),
            final(self)@ == old(self)@.prev_selected(),
    {
        let len = self.environments.len();
        if len == 0 {
            self.current = 0;
        } else if self.current > 0 {
            self.current = self.current - 1;
        } else {
            self.current = len - 1;
        }
    }
}

/// A well-formed store stays well-formed under any single request, taken
/// or turned down.
pub proof fn lemma_request_keeps_store_well_formed(store: StoreView, op: StoreOp)
    requires
        store.well_formed(),
    ensures
        store.applied(op).well_formed(),
{
    let after = store.applied(op);
    if store.refusal(op) is None {
        match op {
            StoreOp::Add(env) => {
                assert forall|i: int, j: int| 0 <= i < j < after.entries.len() implies
                    after.entries[i].name != after.entries[j].name by {
                    if j == store.entries.len() {
                        assert(store.entries[i].name != env.name);
                    }
                }
            },
            StoreOp::Remove(index) => {
                assert forall|i: int, j: int| 0 <= i < j < after.entries.len() implies
                    after.entries[i].name != after.entries[j].name by {
                    let si = if i < index { i } else { i + 1 };
                    let sj = if j < index { j } else { j + 1 };
                    assert(store.entries[si].name != store.entries[sj].name);
                }
            },
            StoreOp::Edit(index, env) => {
                assert forall|i: int, j: int| 0 <= i < j < after.entries.len() implies
                    after.entries[i].name != after.entries[j].name by {
                    if i == index {
                        assert(store.entries[j].name != env.name);
                    } else if j == index {
                        assert(store.entries[i].name != env.name);
                    }
                }
            },
        }
    }
}

/// Whatever requests are made of a well-formed store, in whatever order,
/// names stay unique and the selection stays in bounds.
pub proof fn lemma_requests_keep_store_well_formed(store: StoreView, ops: Seq<StoreOp>)
    requires
        store.well_formed(),
    ensures
        store.applied_all(ops).well_formed(),
    decreases ops.len(),
{
    if ops.len() > 0 {
        lemma_requests_keep_store_well_formed(store, ops.drop_last());
        lemma_request_keeps_store_well_formed(store.applied_all(ops.drop_last()), ops.last());
    }
}

/// Once a profile was offered to the store, offering another one of the
/// same name is turned down as a duplicate and changes nothing.
pub proof fn lemma_repeated_add_is_refused(
    store: StoreView,
    first: EnvironmentView,
    second: EnvironmentView,
)
    requires
        store.well_formed(),
        second.name == first.name,
    ensures
        store.applied(StoreOp::Add(first)).refusal(StoreOp::Add(second)) == Some(
            ErrorView::DuplicateName(second.name),
        ),
        store.applied(StoreOp::Add(first)).applied(StoreOp::Add(second)) == store.applied(
            StoreOp::Add(first),
        ),
{
    let after = store.applied(StoreOp::Add(first));
    if store.has_name(first.name) {
        assert(after == store);
    } else {
        assert(after.entries[store.entries.len() as int].name == first.name);
    }
    assert(after.has_name(second.name));
}

/// Replacing a profile by one of the same name is always taken, whatever
/// the other profiles are called.
pub proof fn lemma_edit_keeping_name_is_accepted(
    store: StoreView,
    index: nat,
    env: EnvironmentView,
)
    requires
        store.well_formed(),
        index < store.entries.len(),
        env.name == store.entries[index as int].name,
    ensures
        store.refusal(StoreOp::Edit(index, env)) is None,
        store.applied(StoreOp::Edit(index, env)) == store.edited(index as int, env),
{
    assert forall|i: int| 0 <= i < store.entries.len() && i != index implies store.entries[i].name
        != env.name by {
        if i < index {
            assert(store.entries[i].name != store.entries[index as int].name);
        } else {
            assert(store.entries[index as int].name != store.entries[i].name);
        }
    }
}

/// Taking the only profile out leaves an empty store with the selection
/// at zero.
pub proof fn lemma_removing_only_profile_empties_store(store: StoreView)
    requires
        store.well_formed(),
        store.entries.len() == 1,
    ensures
        store.refusal(StoreOp::Remove(0)) is None,
        store.applied(StoreOp::Remove(0)).entries.len() == 0,
        store.applied(StoreOp::Remove(0)).current == 0,
{
}

} // verus!
