//! Releases: a named sequence of steps validated one after the other.
use vstd::prelude::*;
use crate::shared::text::str_eq;

verus! {

/// Where a release stands.
#[derive(Debug, Clone, Copy, PartialEq, Eq, Structural)]
pub enum ReleaseState {
    Created,
    InProgress,
    Completed,
    Cancelled,
    Blocked,
}

pub open spec fn release_state_text(s: ReleaseState) -> Seq<char> {
    match s {
        ReleaseState::Created => "created"@,
        ReleaseState::InProgress => "in_progress"@,
        ReleaseState::Completed => "completed"@,
        ReleaseState::Cancelled => "cancelled"@,
        ReleaseState::Blocked => "blocked"@,
    }
}

pub proof fn lemma_release_state_texts()
    ensures
        "created"@ =~= seq!['c', 'r', 'e', 'a', 't', 'e', 'd'],
        "in_progress"@ =~= seq!['i', 'n', '_', 'p', 'r', 'o', 'g', 'r', 'e', 's', 's'],
        "completed"@ =~= seq!['c', 'o', 'm', 'p', 'l', 'e', 't', 'e', 'd'],
        "cancelled"@ =~= seq!['c', 'a', 'n', 'c', 'e', 'l', 'l', 'e', 'd'],
        "blocked"@ =~= seq!['b', 'l', 'o', 'c', 'k', 'e', 'd'],
{
    reveal_strlit("created");
    reveal_strlit("in_progress");
    reveal_strlit("completed");
    reveal_strlit("cancelled");
    reveal_strlit("blocked");
}

/// Distinct release states have distinct texts.
pub proof fn law_release_state_texts_are_distinct(a: ReleaseState, b: ReleaseState)
    ensures
        release_state_text(a) == release_state_text(b) <==> a == b,
{
    lemma_release_state_texts();
    if release_state_text(a) == release_state_text(b) {
        assert(release_state_text(a).len() == release_state_text(b).len());
        assert(release_state_text(a)[0] == release_state_text(b)[0]);
        assert(release_state_text(a)[1] == release_state_text(b)[1]);
    }
}

impl ReleaseState {
    pub fn as_str(&self) -> (r: &'static str)
        ensures
            r@ == release_state_text(*self),
    {
        match self {
            ReleaseState::Created => "created",
            ReleaseState::InProgress => "in_progress",
            ReleaseState::Completed => "completed",
            ReleaseState::Cancelled => "cancelled",
            ReleaseState::Blocked => "blocked",
        }
    }
}

/// The stored text of a release state.
pub fn release_state_to_str(state: &ReleaseState) -> (r: &'static str)
    ensures
        r@ == release_state_text(*state),
{
    state.as_str()
}

/// Reads a stored release state; only the five state texts are stored.
pub fn release_state_from_str(s: &str) -> (r: ReleaseState)
    requires
        exists|v: ReleaseState| release_state_text(v) == s@,
    ensures
        release_state_text(r) == s@,
{
    if str_eq(s, "created") {
        ReleaseState::Created
    } else if str_eq(s, "in_progress") {
        ReleaseState::InProgress
    } else if str_eq(s, "completed") {
        ReleaseState::Completed
    } else if str_eq(s, "cancelled") {
        ReleaseState::Cancelled
    } else {
        proof {
            let v = choose|v: ReleaseState| release_state_text(v) == s@;
            lemma_release_state_texts();
            assert(v == ReleaseState::Blocked);
        }
        ReleaseState::Blocked
    }
}

/// A release of a team.
#[derive(Debug)]
pub struct Release {
    pub id: u128,
    pub team_id: u128,
    pub name: String,
    pub state: ReleaseState,
    pub created_by: Option<u128>,
    /// Nanoseconds since the Unix epoch.
    pub created_at: i128,
    pub completed_at: Option<i128>,
}

/// One step of a release; steps are validated in the order of their positions.
#[derive(Debug)]
pub struct ReleaseStep {
    pub id: u128,
    pub release_id: u128,
    pub name: String,
    pub position: i32,
    pub validated_at: Option<i128>,
    pub validated_by: Option<u128>,
}

/// What cancelling leads to: any release that is neither completed nor cancelled.
pub open spec fn cancel_spec(s: ReleaseState) -> Result<ReleaseState, Seq<char>> {
    match s {
        ReleaseState::Completed => Err("A completed release cannot be cancelled"@),
        ReleaseState::Cancelled => Err("Release is already cancelled"@),
        _ => Ok(ReleaseState::Cancelled),
    }
}

/// What blocking leads to: only a release in progress can be blocked.
pub open spec fn block_spec(s: ReleaseState) -> Result<ReleaseState, Seq<char>> {
    match s {
        ReleaseState::InProgress => Ok(ReleaseState::Blocked),
        _ => Err("Only an in-progress release can be blocked"@),
    }
}

/// What unblocking leads to: a blocked release goes back in progress.
pub open spec fn unblock_spec(s: ReleaseState) -> Result<ReleaseState, Seq<char>> {
    match s {
        ReleaseState::Blocked => Ok(ReleaseState::InProgress),
        _ => Err("Only a blocked release can be unblocked"@),
    }
}

/// Whether a transition's result is the expected one (messages by their text).
pub open spec fn release_transition_is(r: Result<ReleaseState, &'static str>, expected: Result<ReleaseState, Seq<char>>) -> bool {
    match (r, expected) {
        (Ok(a), Ok(b)) => a == b,
        (Err(m), Err(n)) => m@ == n,
        _ => false,
    }
}

impl Release {
    pub fn cancel(&self) -> (r: Result<ReleaseState, &'static str>)
        ensures
            release_transition_is(r, cancel_spec(self.state)),
    {
        match self.state {
            ReleaseState::Created | ReleaseState::InProgress | ReleaseState::Blocked => {
                Ok(ReleaseState::Cancelled)
            },
            ReleaseState::Completed => Err("A completed release cannot be cancelled"),
            ReleaseState::Cancelled => Err("Release is already cancelled"),
        }
    }

    pub fn block(&self) -> (r: Result<ReleaseState, &'static str>)
        ensures
            release_transition_is(r, block_spec(self.state)),
    {
        match self.state {
            ReleaseState::InProgress => Ok(ReleaseState::Blocked),
            _ => Err("Only an in-progress release can be blocked"),
        }
    }

    pub fn unblock(&self) -> (r: Result<ReleaseState, &'static str>)
        ensures
            release_transition_is(r, unblock_spec(self.state)),
    {
        match self.state {
            ReleaseState::Blocked => Ok(ReleaseState::InProgress),
            _ => Err("Only a blocked release can be unblocked"),
        }
    }
}

/// Completed and cancelled releases are final: no transition leaves them. Blocking and
/// unblocking undo each other.
pub proof fn law_release_life_cycle(s: ReleaseState)
    ensures
        (s == ReleaseState::Completed || s == ReleaseState::Cancelled) ==> cancel_spec(s) is Err
            && block_spec(s) is Err && unblock_spec(s) is Err,
        block_spec(s) matches Ok(t) ==> unblock_spec(t) == Ok::<ReleaseState, Seq<char>>(s),
        unblock_spec(s) matches Ok(t) ==> block_spec(t) == Ok::<ReleaseState, Seq<char>>(s),
{
}

impl ReleaseStep {
    pub open spec fn validated(self) -> bool {
        self.validated_at is Some
    }

    pub fn is_validated(&self) -> (r: bool)
        ensures
            r == self.validated(),
    {
        self.validated_at.is_some()
    }

    /// Whether this step is the next one to validate among `all_steps`: it is not
    /// validated, and it is the first step of the list with the lowest position among
    /// the steps not validated yet.
    pub fn can_validate(&self, all_steps: &[ReleaseStep]) -> (r: bool)
        ensures
            r == can_validate_spec(*self, all_steps@),
    {
        if self.is_validated() {
            return false;
        }
        match next_step(all_steps) {
            Some(i) => all_steps[i].id == self.id,
            None => {
                proof {
                    assert forall|i: int| !is_next_step(all_steps@, i) by {
                        if 0 <= i < all_steps@.len() && !all_steps@[i].validated() {
                        }
                    }
                }
                false
            },
        }
    }
}

/// Step `i` is the first of the list with the lowest position among the steps not
/// validated (what `min_by_key` on the position picks).
pub open spec fn is_next_step(steps: Seq<ReleaseStep>, i: int) -> bool {
    &&& 0 <= i < steps.len()
    &&& !steps[i].validated()
    &&& forall|j: int|
        0 <= j < steps.len() && !(#[trigger] steps[j]).validated() ==> steps[i].position
            <= steps[j].position
    &&& forall|j: int|
        0 <= j < i && !(#[trigger] steps[j]).validated() ==> steps[j].position
            > steps[i].position
}

/// Whether `step` may be validated now, given all the steps of its release.
pub open spec fn can_validate_spec(step: ReleaseStep, steps: Seq<ReleaseStep>) -> bool {
    !step.validated() && exists|i: int| is_next_step(steps, i) && steps[i].id == step.id
}

/// The index of the next step to validate, if any step is not validated yet.
pub fn next_step(steps: &[ReleaseStep]) -> (r: Option<usize>)
    ensures
        match r {
            Some(i) => is_next_step(steps@, i as int),
            None => forall|j: int| 0 <= j < steps@.len() ==> (#[trigger] steps@[j]).validated(),
        },
{
    let mut best: Option<usize> = None;
    let mut j: usize = 0;
    while j < steps.len()
        invariant
            j <= steps@.len(),
            match best {
                Some(b) => {
                    &&& b < j
                    &&& !steps@[b as int].validated()
                    &&& forall|k: int|
                        0 <= k < j && !(#[trigger] steps@[k]).validated() ==> steps@[b as int].position
                            <= steps@[k].position
                    &&& forall|k: int|
                        0 <= k < b && !(#[trigger] steps@[k]).validated() ==> steps@[k].position
                            > steps@[b as int].position
                },
                None => forall|k: int| 0 <= k < j ==> (#[trigger] steps@[k]).validated(),
            },
        decreases steps@.len() - j,
    {
        if !steps[j].is_validated() {
            match best {
                None => {
                    best = Some(j);
                },
                Some(b) => {
                    if steps[j].position < steps[b].position {
                        best = Some(j);
                    }
                },
            }
        }
        j = j + 1;
    }
    best
}

/// The next step is unique: two steps that may both be validated now are the same step.
pub proof fn law_one_step_at_a_time(a: ReleaseStep, b: ReleaseStep, steps: Seq<ReleaseStep>)
    requires
        can_validate_spec(a, steps),
        can_validate_spec(b, steps),
    ensures
        a.id == b.id,
{
    let i = choose|i: int| is_next_step(steps, i) && steps[i].id == a.id;
    let k = choose|k: int| is_next_step(steps, k) && steps[k].id == b.id;
    if i < k {
        assert(!steps[i].validated());
        assert(steps[i].position > steps[k].position);
    } else if k < i {
        assert(!steps[k].validated());
        assert(steps[k].position > steps[i].position);
    }
}

/// Steps are validated in order: when a step of the list may be validated, every step
/// placed before it in position is validated already.
pub proof fn law_steps_validate_in_order(steps: Seq<ReleaseStep>, i: int)
    requires
        0 <= i < steps.len(),
        can_validate_spec(steps[i], steps),
        forall|a: int, b: int| 0 <= a < steps.len() && 0 <= b < steps.len() && #[trigger] steps[a].id == #[trigger] steps[b].id ==> a == b,
    ensures
        forall|j: int|
            0 <= j < steps.len() && (#[trigger] steps[j]).position < steps[i].position ==> steps[j].validated(),
{
    let n = choose|n: int| is_next_step(steps, n) && steps[n].id == steps[i].id;
    assert(n == i);
}

} // verus!
