//! A whole bootstrap at once, against a host whose reports are given.

use vstd::prelude::*;
use crate::platform::Platform;
use crate::sequencer::{Action, Outcome, Sequencer, State};

verus! {

/// The actions that the host is asked to perform, in order, when it reports
/// the given outcomes, one per action, on a bootstrap in state `state`. The
/// sequence ends with the action that ends the bootstrap, or with the action
/// that is pending when the outcomes have run out.
pub open spec fn trace(state: State, outcomes: Seq<Outcome>) -> Seq<Action>
    decreases outcomes.len(),
{
    if state.terminated() || outcomes.len() == 0 {
        seq![state.pending()]
    } else {
        seq![state.pending()] + trace(state.next(outcomes[0]), outcomes.drop_first())
    }
}

/// The actions that the host is asked to perform, in order, when it reports
/// the given outcomes on a bootstrap that starts afresh on a platform.
pub open spec fn bootstrap(platform: Platform, outcomes: Seq<Outcome>) -> Seq<Action> {
    trace(State::initial(platform), outcomes)
}

/// Runs a bootstrap on a platform against a host that reports the given
/// outcomes, one per action, and returns the actions that the host was asked
/// to perform. Outcomes that are left when the bootstrap has ended are not
/// read.
pub fn run(platform: Platform, outcomes: &Vec<Outcome>) -> (actions: Vec<Action>)
    ensures
        actions@ == bootstrap(platform, outcomes@),
{
    let mut sequencer = Sequencer::new(platform);
    let mut actions: Vec<Action> = Vec::new();
    let mut pending = sequencer.pending();
    let mut index: usize = 0;
    proof {
        assert(outcomes@.skip(0) =~= outcomes@);
    }
    while index < outcomes.len() && !pending.is_terminal()
        invariant
            index <= outcomes.len(),
            sequencer@.wf(),
            pending == sequencer@.pending(),
            bootstrap(platform, outcomes@) == actions@ + trace(
                sequencer@,
                outcomes@.skip(index as int),
            ),
        decreases outcomes.len() - index,
    {
        let ghost rest = outcomes@.skip(index as int);
        actions.push(pending);
        pending = sequencer.report(outcomes[index]);
        index = index + 1;
        proof {
            assert(rest.drop_first() =~= outcomes@.skip(index as int));
        }
    }
    actions.push(pending);
    actions
}

} // verus!
