//! What holds of every bootstrap, whatever the host reports.

use vstd::prelude::*;
use crate::capability::Capability;
use crate::driver::{bootstrap, trace};
use crate::plan::registrations;
use crate::platform::Platform;
use crate::sequencer::{Action, Outcome, State};

verus! {

/// Whether the registration at position `index` of the order is reported as
/// failed and its failure is not dropped.
pub open spec fn counts_as_failure(platform: Platform, outcomes: Seq<Outcome>, index: int) -> bool {
    &&& 0 <= index < registrations(platform).len()
    &&& index < outcomes.len()
    &&& outcomes[index] is Failed
    &&& registrations(platform)[index].spec_failure_policy() is Propagate
}

/// Whether one of the first `count` registrations is reported as failed and
/// its failure is not dropped.
pub open spec fn failed_before(platform: Platform, outcomes: Seq<Outcome>, count: int) -> bool {
    exists|index: int| index < count && #[trigger] counts_as_failure(platform, outcomes, index)
}

/// Whether the setup fails as a whole under the given reports.
pub open spec fn setup_fails(platform: Platform, outcomes: Seq<Outcome>) -> bool {
    failed_before(platform, outcomes, registrations(platform).len() as int)
}

/// The action that the host is asked for as its `index`-th, counted from
/// zero: the registrations in order, then the run loop or the abort of a
/// failed setup, then the end that the run loop's outcome gives.
pub open spec fn action_at(platform: Platform, outcomes: Seq<Outcome>, index: int) -> Action {
    let order = registrations(platform);
    if index < order.len() {
        Action::Register(order[index])
    } else if index == order.len() {
        if setup_fails(platform, outcomes) {
            Action::Abort
        } else {
            Action::EnterRunLoop
        }
    } else if outcomes[order.len() as int] is Succeeded {
        Action::Exit
    } else {
        Action::Abort
    }
}

/// The number of actions that the host is asked for.
pub open spec fn action_count(platform: Platform, outcomes: Seq<Outcome>) -> nat {
    let len = registrations(platform).len();
    if outcomes.len() < len {
        outcomes.len() + 1
    } else if setup_fails(platform, outcomes) || outcomes.len() == len {
        len + 1
    } else {
        len + 2
    }
}

/// The trace from a state in which `position` registrations have been
/// reported on, under the reports that are left, is the closed form from
/// that position on.
proof fn lemma_trace_from(platform: Platform, outcomes: Seq<Outcome>, state: State)
    requires
        state.wf(),
        state.platform == platform,
        state.stage is Registering,
        state.position <= outcomes.len(),
        state.setup_failed == failed_before(platform, outcomes, state.position as int),
    ensures
        trace(state, outcomes.skip(state.position as int)).len() == action_count(platform, outcomes)
            - state.position,
        forall|i: int|
            0 <= i < action_count(platform, outcomes) - state.position ==> #[trigger] trace(
                state,
                outcomes.skip(state.position as int),
            )[i] == action_at(platform, outcomes, state.position + i),
    decreases outcomes.len() - state.position,
{
    let position = state.position as int;
    let rest = outcomes.skip(position);
    assert forall|index: int| #[trigger]
        counts_as_failure(platform, outcomes, index) implies index < registrations(
        platform,
    ).len() by {}
    if rest.len() > 0 {
        let after = state.next(rest[0]);
        let tail = outcomes.skip(position + 1);
        assert(rest.drop_first() =~= tail);
        assert(after.setup_failed == failed_before(platform, outcomes, position + 1)) by {
            if after.setup_failed && !state.setup_failed {
                assert(counts_as_failure(platform, outcomes, position));
            }
            if failed_before(platform, outcomes, position + 1) {
                let index = choose|index: int|
                    index < position + 1 && #[trigger] counts_as_failure(
                        platform,
                        outcomes,
                        index,
                    );
                if index < position {
                    assert(failed_before(platform, outcomes, position));
                }
            }
        }
        if after.stage is Registering {
            lemma_trace_from(platform, outcomes, after);
        } else if after.stage is Launching && tail.len() > 0 {
            assert(trace(after.next(tail[0]), tail.drop_first()).len() == 1);
        }
    }
}

/// The trace of a bootstrap is its closed form: the registrations of the
/// platform in order, then the run loop, or the abort of a setup that failed
/// as a whole, then the exit or abort that the run loop's outcome gives, as
/// far as the reports reach.
pub proof fn lemma_trace_closed_form(platform: Platform, outcomes: Seq<Outcome>)
    ensures
        bootstrap(platform, outcomes) == Seq::new(
            action_count(platform, outcomes),
            |index: int| action_at(platform, outcomes, index),
        ),
{
    let state = State::initial(platform);
    assert(outcomes.skip(0) =~= outcomes);
    lemma_trace_from(platform, outcomes, state);
}

/// On the desktop autostart is asked for exactly once, as the first action
/// of all, so before every other registration.
pub proof fn law_desktop_registers_autostart_first(outcomes: Seq<Outcome>)
    ensures
        bootstrap(Platform::Desktop, outcomes)[0] == Action::Register(Capability::Autostart),
        forall|i: int|
            0 < i < bootstrap(Platform::Desktop, outcomes).len() ==> #[trigger] bootstrap(
                Platform::Desktop,
                outcomes,
            )[i] != Action::Register(Capability::Autostart),
{
    lemma_trace_closed_form(Platform::Desktop, outcomes);
}

/// On a mobile platform autostart is never asked for.
pub proof fn law_mobile_never_registers_autostart(outcomes: Seq<Outcome>)
    ensures
        forall|i: int|
            0 <= i < bootstrap(Platform::Mobile, outcomes).len() ==> #[trigger] bootstrap(
                Platform::Mobile,
                outcomes,
            )[i] != Action::Register(Capability::Autostart),
{
    lemma_trace_closed_form(Platform::Mobile, outcomes);
}

/// On every platform the opener, the store and the notifications are each
/// asked for at most once, and exactly once in a bootstrap that has got past
/// its registrations, whatever was reported on them.
pub proof fn law_common_capabilities_registered_once(
    platform: Platform,
    outcomes: Seq<Outcome>,
    capability: Capability,
)
    requires
        capability != Capability::Autostart,
    ensures
        forall|i: int, j: int|
            0 <= i < bootstrap(platform, outcomes).len() && 0 <= j < bootstrap(
                platform,
                outcomes,
            ).len() && #[trigger] bootstrap(platform, outcomes)[i] == Action::Register(capability)
                && #[trigger] bootstrap(platform, outcomes)[j] == Action::Register(capability)
                ==> i == j,
        !(bootstrap(platform, outcomes).last() is Register) ==> exists|i: int|
            0 <= i < bootstrap(platform, outcomes).len() && #[trigger] bootstrap(
                platform,
                outcomes,
            )[i] == Action::Register(capability),
{
    lemma_trace_closed_form(platform, outcomes);
    let actions = bootstrap(platform, outcomes);
    if !(actions.last() is Register) {
        let slot: int = match capability {
            Capability::Opener => 0,
            Capability::Store => 1,
            _ => 2,
        };
        let i = if platform is Desktop {
            slot + 1
        } else {
            slot
        };
        assert(actions[i] == Action::Register(capability));
    }
}

/// Whether the setup completes depends on the opener, the store and the
/// notifications alone: once all registrations are reported on, the host is
/// asked to enter the run loop if none of those three failed, and to abort
/// otherwise. What is reported on autostart, an error too, makes no
/// difference to this, nor to any other action of the bootstrap.
pub proof fn law_autostart_failure_is_dropped(
    platform: Platform,
    outcomes: Seq<Outcome>,
    reported: Outcome,
)
    ensures
        outcomes.len() >= registrations(platform).len() ==> bootstrap(
            platform,
            outcomes,
        )[registrations(platform).len() as int] == (if exists|i: int|
            0 <= i < registrations(platform).len() && #[trigger] registrations(platform)[i]
                != Capability::Autostart && outcomes[i] is Failed {
            Action::Abort
        } else {
            Action::EnterRunLoop
        }),
        platform is Desktop && outcomes.len() > 0 ==> bootstrap(
            platform,
            outcomes.update(0, reported),
        ) == bootstrap(platform, outcomes),
{
    let order = registrations(platform);
    let len = order.len() as int;
    lemma_trace_closed_form(platform, outcomes);
    if outcomes.len() >= len && exists|i: int|
        0 <= i < len && #[trigger] order[i] != Capability::Autostart && outcomes[i] is Failed {
        let i = choose|i: int|
            0 <= i < len && #[trigger] order[i] != Capability::Autostart && outcomes[i] is Failed;
        assert(counts_as_failure(platform, outcomes, i));
    }
    if platform is Desktop && outcomes.len() > 0 {
        assert(outcomes.update(0, reported).drop_first() =~= outcomes.drop_first());
    }
}

/// When the run loop fails to start, the host is asked to abort, and nothing
/// is asked of it after that. More generally, an exit or an abort is the
/// last action of a bootstrap, and a run loop that ends without an error is
/// followed by the exit.
pub proof fn law_run_loop_failure_aborts(platform: Platform, outcomes: Seq<Outcome>)
    ensures
        forall|i: int|
            0 <= i < bootstrap(platform, outcomes).len() && i < outcomes.len()
                && #[trigger] bootstrap(platform, outcomes)[i] == Action::EnterRunLoop
                ==> bootstrap(platform, outcomes).len() == i + 2 && bootstrap(
                platform,
                outcomes,
            )[i + 1] == (if outcomes[i] is Failed {
                Action::Abort
            } else {
                Action::Exit
            }),
        forall|i: int|
            0 <= i < bootstrap(platform, outcomes).len() && (#[trigger] bootstrap(
                platform,
                outcomes,
            )[i]).spec_is_terminal() ==> i == bootstrap(platform, outcomes).len() - 1,
{
    lemma_trace_closed_form(platform, outcomes);
}

} // verus!
