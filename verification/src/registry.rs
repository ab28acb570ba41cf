//! The actions that can be run by name.

use vstd::prelude::*;
use vstd::string::*;

use crate::actions::{outcome_view, Action};
use crate::errors::{AppError, ErrorView};
use crate::text::str_equal;

verus! {

/// Actions, each under its own name; registering an action under a name that
/// is taken replaces the earlier one.
pub struct ActionRegistry<A: Action> {
    actions: Vec<A>,
}

impl<A: Action> ActionRegistry<A> {
    /// Whether an action is registered under `name`.
    closed spec fn has(&self, name: Seq<char>) -> bool {
        exists|i: int| 0 <= i < self.actions@.len() && #[trigger] self.actions@[i].spec_name() == name
    }

    /// The position of the action registered under `name`.
    closed spec fn position(&self, name: Seq<char>) -> int {
        choose|i: int| 0 <= i < self.actions@.len() && #[trigger] self.actions@[i].spec_name() == name
    }

    /// Whether no two actions share a name.
    pub closed spec fn wf(&self) -> bool {
        forall|i: int, j: int|
            0 <= i < self.actions@.len() && 0 <= j < self.actions@.len() && i != j
                ==> #[trigger] self.actions@[i].spec_name() != #[trigger] self.actions@[j].spec_name()
    }
}

impl<A: Action> View for ActionRegistry<A> {
    type V = Map<Seq<char>, A>;

    /// Each registered action under its name.
    closed spec fn view(&self) -> Map<Seq<char>, A> {
        Map::new(|k: Seq<char>| self.has(k), |k: Seq<char>| self.actions@[self.position(k)])
    }
}

impl<A: Action> ActionRegistry<A> {
    proof fn lemma_position(&self, i: int)
        requires
            self.wf(),
            0 <= i < self.actions@.len(),
        ensures
            self.has(self.actions@[i].spec_name()),
            self.position(self.actions@[i].spec_name()) == i,
    {
        let name = self.actions@[i].spec_name();
        assert(self.has(name));
        let k = self.position(name);
        assert(self.actions@[k].spec_name() == name);
    }

    /// Where `after` holds the actions of `self` with `action` placed at
    /// `p` (in place of the action of its name, or at the end), and no other
    /// action has that name, `after` is well formed and maps the name to
    /// `action` and every other name as `self` does.
    proof fn lemma_placed(&self, after: Self, action: A, p: int)
        requires
            self.wf(),
            0 <= p <= self.actions@.len(),
            p < self.actions@.len() ==> self.actions@[p].spec_name() == action.spec_name()
                && after.actions@ == self.actions@.update(p, action),
            p == self.actions@.len() ==> after.actions@ == self.actions@.push(action),
            forall|j: int|
                0 <= j < self.actions@.len() && j != p ==> #[trigger] self.actions@[j].spec_name()
                    != action.spec_name(),
        ensures
            after.wf(),
            after@ == self@.insert(action.spec_name(), action),
    {
        let name = action.spec_name();
        let len = after.actions@.len();
        assert(after.actions@[p] == action);
        assert(forall|j: int| 0 <= j < len && j != p ==> #[trigger] after.actions@[j] == self.actions@[j]);
        assert forall|a: int, b: int|
            0 <= a < len && 0 <= b < len && a != b implies #[trigger] after.actions@[a].spec_name()
            != #[trigger] after.actions@[b].spec_name() by {
            if a != p && b != p {
                assert(after.actions@[a] == self.actions@[a]);
                assert(after.actions@[b] == self.actions@[b]);
            } else if a == p {
                assert(after.actions@[b] == self.actions@[b]);
            } else {
                assert(after.actions@[a] == self.actions@[a]);
            }
        }
        assert forall|k: Seq<char>| #![auto] after.has(k) == self@.insert(name, action).contains_key(k) by {
            if k == name {
                assert(after.actions@[p].spec_name() == name);
            } else if self.has(k) {
                let q = self.position(k);
                assert(q != p);
                assert(after.actions@[q] == self.actions@[q]);
            } else if after.has(k) {
                let q = after.position(k);
                assert(q != p);
                assert(after.actions@[q] == self.actions@[q]);
            }
        }
        assert forall|k: Seq<char>| #[trigger] after@.contains_key(k) implies after@[k]
            == self@.insert(name, action)[k] by {
            let q = after.position(k);
            after.lemma_position(q);
            if k != name {
                assert(q != p);
                assert(after.actions@[q] == self.actions@[q]);
                self.lemma_position(q);
            } else {
                after.lemma_position(p);
            }
        }
        assert(after@ =~= self@.insert(name, action));
    }

    /// A registry with no action.
    pub fn empty() -> (r: ActionRegistry<A>)
        ensures
            r.wf(),
            r@ == Map::<Seq<char>, A>::empty(),
    {
        let r = ActionRegistry { actions: Vec::new() };
        assert(r@ =~= Map::<Seq<char>, A>::empty());
        r
    }

    /// Registers `action` under its name, in place of any action of that
    /// name.
    pub fn register(&mut self, action: A)
        requires
            old(self).wf(),
        ensures
            final(self).wf(),
            final(self)@ == old(self)@.insert(action.spec_name(), action),
    {
        let name = action.name();
        let n = self.actions.len();
        let mut i: usize = 0;
        while i < n
            invariant
                old(self).wf(),
                name@ == action.spec_name(),
                n == self.actions@.len(),
                self.actions@ == old(self).actions@,
                i <= n,
                forall|j: int| 0 <= j < i ==> #[trigger] self.actions@[j].spec_name() != name@,
            decreases n - i,
        {
            if str_equal(self.actions[i].name(), name) {
                let ghost before = *self;
                self.actions.set(i, action);
                proof {
                    before.lemma_placed(*self, action, i as int);
                }
                return ;
            }
            i = i + 1;
        }
        let ghost before = *self;
        self.actions.push(action);
        proof {
            before.lemma_placed(*self, action, n as int);
        }
    }

    /// The action registered under `name`, if any.
    pub fn get(&self, name: &str) -> (r: Option<&A>)
        requires
            self.wf(),
        ensures
            r is Some == self@.contains_key(name@),
            r matches Some(a) ==> a.spec_name() == name@ && *a == self@[name@],
    {
        let n = self.actions.len();
        let mut i: usize = 0;
        while i < n
            invariant
                self.wf(),
                n == self.actions@.len(),
                i <= n,
                forall|j: int| 0 <= j < i ==> #[trigger] self.actions@[j].spec_name() != name@,
            decreases n - i,
        {
            if str_equal(self.actions[i].name(), name) {
                proof {
                    self.lemma_position(i as int);
                }
                return Some(&self.actions[i]);
            }
            i = i + 1;
        }
        None
    }

    /// Runs the action registered under `name` on `input`; where there is
    /// none, the error says which name was not found.
    pub fn execute(&self, name: &str, input: Vec<u8>) -> (r: Result<Vec<u8>, AppError>)
        requires
            self.wf(),
        ensures
            !self@.contains_key(name@) ==> outcome_view(r) == Err::<Seq<u8>, ErrorView>(
                ErrorView::ActionNotFound(name@),
            ),
            self@.contains_key(name@) ==> self@[name@].answers(input@, outcome_view(r)),
    {
        let n = self.actions.len();
        let mut i: usize = 0;
        while i < n
            invariant
                self.wf(),
                n == self.actions@.len(),
                i <= n,
                forall|j: int| 0 <= j < i ==> #[trigger] self.actions@[j].spec_name() != name@,
            decreases n - i,
        {
            if str_equal(self.actions[i].name(), name) {
                proof {
                    self.lemma_position(i as int);
                }
                return self.actions[i].execute(input);
            }
            i = i + 1;
        }
        Err(AppError::ActionNotFound(String::from_str(name)))
    }
}

impl<A: Action> Default for ActionRegistry<A> {
    fn default() -> (r: ActionRegistry<A>)
        ensures
            r.wf(),
            r@ == Map::<Seq<char>, A>::empty(),
    {
        ActionRegistry::empty()
    }
}

impl ActionRegistry<Box<dyn Action>> {
    /// A registry with no action, for actions of any type.
    pub fn new() -> (r: ActionRegistry<Box<dyn Action>>)
        ensures
            r.wf(),
            r@ == Map::<Seq<char>, Box<dyn Action>>::empty(),
    {
        ActionRegistry::empty()
    }
}

/// After an action is registered, its name finds it, and every other name
/// finds what it found before.
pub proof fn law_register_then_lookup<A: Action>(
    before: Map<Seq<char>, A>,
    action: A,
    other: Seq<char>,
)
    requires
        other != action.spec_name(),
    ensures
        before.insert(action.spec_name(), action).contains_key(action.spec_name()),
        before.insert(action.spec_name(), action)[action.spec_name()] == action,
        before.insert(action.spec_name(), action).contains_key(other) == before.contains_key(
            other,
        ),
        before.contains_key(other) ==> before.insert(action.spec_name(), action)[other]
            == before[other],
{
}

/// The actions that a registry holds, by name, once `actions` have been
/// registered in this order on an empty one (see `empty` and `register`).
pub open spec fn registered<A: Action>(actions: Seq<A>) -> Map<Seq<char>, A>
    decreases actions.len(),
{
    if actions.len() == 0 {
        Map::empty()
    } else {
        registered(actions.drop_last()).insert(actions.last().spec_name(), actions.last())
    }
}

/// After a sequence of registrations on an empty registry, a name is
/// registered exactly when one of the actions has it, and it finds the last
/// action registered under it.
pub proof fn law_registrations<A: Action>(actions: Seq<A>, name: Seq<char>)
    ensures
        registered(actions).contains_key(name) == (exists|i: int|
            0 <= i < actions.len() && #[trigger] actions[i].spec_name() == name),
        registered(actions).contains_key(name) ==> (exists|i: int|
            0 <= i < actions.len() && #[trigger] actions[i].spec_name() == name
                && registered(actions)[name] == actions[i] && (forall|j: int|
                i < j < actions.len() ==> #[trigger] actions[j].spec_name() != name)),
    decreases actions.len(),
{
    if actions.len() > 0 {
        let rest = actions.drop_last();
        let last = actions.len() - 1;
        law_registrations(rest, name);
        assert(forall|i: int| 0 <= i < rest.len() ==> #[trigger] rest[i] == actions[i]);
        if actions[last].spec_name() == name {
            assert(registered(actions)[name] == actions[last]);
        } else if registered(rest).contains_key(name) {
            let i = choose|i: int|
                0 <= i < rest.len() && #[trigger] rest[i].spec_name() == name
                    && registered(rest)[name] == rest[i] && (forall|j: int|
                    i < j < rest.len() ==> #[trigger] rest[j].spec_name() != name);
            assert(actions[i].spec_name() == name);
            assert forall|j: int| i < j < actions.len() implies #[trigger] actions[j].spec_name()
                != name by {
                if j < last {
                    assert(rest[j] == actions[j]);
                }
            }
        } else {
            assert forall|i: int| 0 <= i < actions.len() implies #[trigger] actions[i].spec_name()
                != name by {
                if i < last {
                    assert(rest[i] == actions[i]);
                }
            }
        }
    }
}

} // verus!
