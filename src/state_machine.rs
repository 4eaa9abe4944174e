//! The per-stream lifecycle state machine.
use vstd::prelude::*;

use crate::model::StreamState;
use crate::table::NameTable;

verus! {

/// The tag of the event that asks for a transition. Conditions are compared
/// by tag only.
#[derive(Debug, Clone, Copy, PartialEq, Eq, Structural)]
pub enum TransitionCondition {
    OnSuccess,
    OnError,
    OnTimeout,
    OnRecovery,
    /// Explicit teardown; legal from every state.
    OnStop,
}

/// The legal transitions: the state reached from `from` under `c`, or
/// `None` where the pair is not a legal transition.
pub open spec fn step(from: StreamState, c: TransitionCondition) -> Option<StreamState> {
    match c {
        TransitionCondition::OnStop => Some(StreamState::Stopped),
        TransitionCondition::OnSuccess => match from {
            StreamState::Idle => Some(StreamState::Starting),
            StreamState::Starting => Some(StreamState::Running),
            StreamState::Running => Some(StreamState::Paused),
            StreamState::Paused => Some(StreamState::Running),
            _ => None,
        },
        TransitionCondition::OnError => match from {
            StreamState::Starting => Some(StreamState::Failed),
            StreamState::Running => Some(StreamState::Recovering),
            _ => None,
        },
        TransitionCondition::OnRecovery => match from {
            StreamState::Recovering => Some(StreamState::Running),
            _ => None,
        },
        TransitionCondition::OnTimeout => match from {
            StreamState::Recovering => Some(StreamState::Failed),
            _ => None,
        },
    }
}

/// The state reached from `from` by the conditions of `path` in order, or
/// `None` if one of them is illegal where it is applied.
pub open spec fn run(from: StreamState, path: Seq<TransitionCondition>) -> Option<StreamState>
    decreases path.len(),
{
    if path.len() == 0 {
        Some(from)
    } else {
        match run(from, path.drop_last()) {
            Some(s) => step(s, path.last()),
            None => None,
        }
    }
}

/// A state that some sequence of legal transitions reaches from Idle.
pub open spec fn reachable(s: StreamState) -> bool {
    exists|path: Seq<TransitionCondition>| run(StreamState::Idle, path) == Some(s)
}

/// A legal transition out of a reachable state lands in a reachable state.
pub proof fn lemma_step_keeps_reachable(s: StreamState, c: TransitionCondition)
    requires
        reachable(s),
        step(s, c).is_some(),
    ensures
        reachable(step(s, c).unwrap()),
{
    let path = choose|path: Seq<TransitionCondition>| run(StreamState::Idle, path) == Some(s);
    let p2 = path.push(c);
    assert(p2.drop_last() =~= path);
    assert(run(StreamState::Idle, p2) == step(s, c));
}

/// Idle itself is reachable (by the empty sequence).
pub proof fn lemma_idle_reachable()
    ensures
        reachable(StreamState::Idle),
{
    assert(run(StreamState::Idle, Seq::<TransitionCondition>::empty()) == Some(StreamState::Idle));
}

impl StreamState {
    /// The state reached under `c`, or `None` if the transition is illegal.
    pub fn next_state(self, c: TransitionCondition) -> (r: Option<StreamState>)
        ensures
            r == step(self, c),
    {
        match c {
            TransitionCondition::OnStop => Some(StreamState::Stopped),
            TransitionCondition::OnSuccess => match self {
                StreamState::Idle => Some(StreamState::Starting),
                StreamState::Starting => Some(StreamState::Running),
                StreamState::Running => Some(StreamState::Paused),
                StreamState::Paused => Some(StreamState::Running),
                _ => None,
            },
            TransitionCondition::OnError => match self {
                StreamState::Starting => Some(StreamState::Failed),
                StreamState::Running => Some(StreamState::Recovering),
                _ => None,
            },
            TransitionCondition::OnRecovery => match self {
                StreamState::Recovering => Some(StreamState::Running),
                _ => None,
            },
            TransitionCondition::OnTimeout => match self {
                StreamState::Recovering => Some(StreamState::Failed),
                _ => None,
            },
        }
    }
}

/// The state table: one entry per stream name that has taken part in a
/// transition. A name without an entry is Idle.
pub struct StateMachine {
    states: NameTable<StreamState>,
}

impl View for StateMachine {
    type V = Map<Seq<char>, StreamState>;

    closed spec fn view(&self) -> Map<Seq<char>, StreamState> {
        self.states@
    }
}

/// The state that a table records for `name` (Idle without an entry).
pub open spec fn state_in(m: Map<Seq<char>, StreamState>, name: Seq<char>) -> StreamState {
    if m.contains_key(name) {
        m[name]
    } else {
        StreamState::Idle
    }
}

impl StateMachine {
    /// Well-formed, and every recorded state is reachable from Idle.
    pub closed spec fn wf(&self) -> bool {
        &&& self.states.wf()
        &&& forall|k: Seq<char>| #[trigger] self.states@.contains_key(k) ==> reachable(self.states@[k])
    }

    /// The state table is finite.
    pub proof fn lemma_finite(&self)
        requires
            self.wf(),
        ensures
            self@.dom().finite(),
    {
        self.states.lemma_finite();
    }

    /// Every state that the table records is reachable from Idle.
    pub proof fn lemma_states_reachable(&self, name: Seq<char>)
        requires
            self.wf(),
        ensures
            reachable(state_in(self@, name)),
    {
        lemma_idle_reachable();
    }

    /// An empty table: every stream is Idle.
    pub fn new() -> (r: StateMachine)
        ensures
            r.wf(),
            r@ == Map::<Seq<char>, StreamState>::empty(),
    {
        StateMachine { states: NameTable::new() }
    }

    /// The state of `stream`; Idle if it has no entry.
    pub fn get_state(&self, stream: &str) -> (r: StreamState)
        requires
            self.wf(),
        ensures
            r == state_in(self@, stream@),
    {
        match self.states.get(stream) {
            Some(s) => *s,
            None => StreamState::Idle,
        }
    }

    /// Whether `stream` has an entry.
    pub fn has_entry(&self, stream: &str) -> (r: bool)
        requires
            self.wf(),
        ensures
            r == self@.contains_key(stream@),
    {
        self.states.contains(stream)
    }

    /// Apply `condition` to `stream`. On a legal transition the new state is
    /// recorded and returned; otherwise nothing changes and `None` comes back.
    pub fn transition(&mut self, stream: &str, condition: TransitionCondition) -> (r: Option<
        StreamState,
    >)
        requires
            old(self).wf(),
        ensures
            final(self).wf(),
            r == step(state_in(old(self)@, stream@), condition),
            r.is_some() ==> final(self)@ == old(self)@.insert(stream@, r.unwrap()),
            r.is_none() ==> final(self)@ == old(self)@,
    {
        let current = self.get_state(stream);
        let next = current.next_state(condition);
        match next {
            Some(s) => {
                proof {
                    self.lemma_states_reachable(stream@);
                    lemma_step_keeps_reachable(current, condition);
                }
                self.states.insert(stream, s);
                Some(s)
            },
            None => None,
        }
    }

    /// Forget `stream`'s entry, so that it reads as Idle again.
    pub fn reset(&mut self, stream: &str)
        requires
            old(self).wf(),
        ensures
            final(self).wf(),
            final(self)@ == old(self)@.remove(stream@),
    {
        let _ = self.states.remove(stream);
    }
}

} // verus!
