//! Runs of the application loop: what follows from a sequence of observations, and the
//! laws that every run obeys.
use vstd::prelude::*;

use crate::main_loop::{instruction_of, next, Instruction, Observation, Outcome, Phase};
use crate::task::TaskKind;

verus! {

/// The phase reached from `p` once the observations `obs` have been taken in, in order.
pub open spec fn run(p: Phase, obs: Seq<Observation>) -> Phase
    decreases obs.len(),
{
    if obs.len() == 0 {
        p
    } else {
        next(run(p, obs.drop_last()), obs.last())
    }
}

/// The instructions issued along a run: the one of `p`, then the one after each
/// observation.
pub open spec fn instructions(p: Phase, obs: Seq<Observation>) -> Seq<Instruction> {
    Seq::new(obs.len() + 1, |i: int| instruction_of(run(p, obs.take(i))))
}

/// How many times the device was restored along a run: the number of `Restored`
/// observations that answered a `Restore` instruction.
pub open spec fn restores(p: Phase, obs: Seq<Observation>) -> nat
    decreases obs.len(),
{
    if obs.len() == 0 {
        0
    } else {
        restores(p, obs.drop_last()) + if run(p, obs.drop_last()) is Restoring && obs.last()
            == Observation::Restored {
            1nat
        } else {
            0nat
        }
    }
}

/// Whether a `Restored` observation stands in `obs` at an index in `lo..hi`.
pub open spec fn restored_within(obs: Seq<Observation>, lo: int, hi: int) -> bool {
    exists|k: int| lo <= k < hi && obs[k] == Observation::Restored
}

/// Whether `p` is the end of a loop whose device had been set up.
pub open spec fn ended_after_setup(p: Phase) -> bool {
    match p {
        Phase::Terminated(outcome) => outcome != Outcome::SetupFailed,
        _ => false,
    }
}

proof fn lemma_run_step(p: Phase, obs: Seq<Observation>, i: int)
    requires
        0 <= i < obs.len(),
    ensures
        run(p, obs.take(i + 1)) == next(run(p, obs.take(i)), obs[i]),
        restores(p, obs.take(i + 1)) == restores(p, obs.take(i)) + if run(p, obs.take(i)) is Restoring
            && obs[i] == Observation::Restored {
            1nat
        } else {
            0nat
        },
{
    assert(obs.take(i + 1).drop_last() =~= obs.take(i));
}

/// From the point where restoring was asked for, the loop keeps asking until the device
/// is restored, and then it has ended.
proof fn lemma_restoring_continues(p: Phase, obs: Seq<Observation>, i: int, outcome: Outcome, j: int)
    requires
        0 <= i < j <= obs.len(),
        run(p, obs.take(i + 1)) == Phase::Restoring(outcome),
    ensures
        run(p, obs.take(j)) == if restored_within(obs, i + 1, j) {
            Phase::Terminated(outcome)
        } else {
            Phase::Restoring(outcome)
        },
        restores(p, obs.take(j)) == restores(p, obs.take(i + 1)) + if restored_within(obs, i + 1, j) {
            1nat
        } else {
            0nat
        },
    decreases j,
{
    if j > i + 1 {
        lemma_restoring_continues(p, obs, i, outcome, j - 1);
        lemma_run_step(p, obs, j - 1);
        if obs[j - 1] == Observation::Restored {
            assert(restored_within(obs, i + 1, j));
        } else {
            if restored_within(obs, i + 1, j) {
                let k = choose|k: int| i + 1 <= k < j && obs[k] == Observation::Restored;
                assert(restored_within(obs, i + 1, j - 1)) by {
                    assert(i + 1 <= k < j - 1 && obs[k] == Observation::Restored);
                }
            }
        }
    }
}

/// From the start, a phase in which the loop waits or dispatches comes after a draw.
proof fn lemma_drawn_before(obs: Seq<Observation>, n: int)
    requires
        0 <= n <= obs.len(),
    ensures
        (run(Phase::Init, obs.take(n)) is Waiting || run(Phase::Init, obs.take(n)) is Dispatching)
            ==> exists|j: int|
            0 <= j < n && instruction_of(#[trigger] run(Phase::Init, obs.take(j))) == Instruction::Draw,
    decreases n,
{
    if n > 0 {
        lemma_drawn_before(obs, n - 1);
        lemma_run_step(Phase::Init, obs, n - 1);
        if run(Phase::Init, obs.take(n - 1)) is Rendering {
            assert(instruction_of(run(Phase::Init, obs.take(n - 1))) == Instruction::Draw);
        }
    } else {
        assert(obs.take(0) =~= Seq::<Observation>::empty());
    }
}

/// From the start, a phase in which the device is in use comes after a setup that was
/// asked for and reported as done.
proof fn lemma_set_up_before(obs: Seq<Observation>, n: int)
    requires
        0 <= n <= obs.len(),
    ensures
        (run(Phase::Init, obs.take(n)) is Rendering || run(Phase::Init, obs.take(n)) is Waiting
            || run(Phase::Init, obs.take(n)) is Dispatching || run(Phase::Init, obs.take(n)) is Restoring)
            ==> exists|k: int|
            0 <= k < n && #[trigger] run(Phase::Init, obs.take(k)) == Phase::Init && obs[k]
                == Observation::Initialized,
    decreases n,
{
    if n > 0 {
        lemma_set_up_before(obs, n - 1);
        lemma_run_step(Phase::Init, obs, n - 1);
        if run(Phase::Init, obs.take(n - 1)) == Phase::Init {
            assert(run(Phase::Init, obs.take(n - 1)) == Phase::Init);
        }
    } else {
        assert(obs.take(0) =~= Seq::<Observation>::empty());
    }
}

/// From the start, restores are counted as the phase says: none until the loop has
/// ended, one once it has ended after a successful setup, none if the setup failed.
proof fn lemma_restores_from_start(obs: Seq<Observation>)
    ensures
        restores(Phase::Init, obs) == if ended_after_setup(run(Phase::Init, obs)) {
            1nat
        } else {
            0nat
        },
        run(Phase::Init, obs) != Phase::Restoring(Outcome::SetupFailed),
    decreases obs.len(),
{
    if obs.len() > 0 {
        lemma_restores_from_start(obs.drop_last());
    }
}

/// In every iteration whose update does not quit, the loop draws next exactly when the
/// backend reported a resize for the iteration's input or the update asked for a render;
/// otherwise it goes back to waiting.
pub proof fn draw_iff_resize_or_render(
    p: Phase,
    obs: Seq<Observation>,
    i: int,
    resize: Option<(u16, u16)>,
    kind: TaskKind,
    should_render: bool,
)
    requires
        0 <= i < obs.len(),
        instructions(p, obs)[i] == Instruction::Dispatch(resize),
        obs[i] == Observation::Updated(kind, should_render),
        kind != TaskKind::Quit,
    ensures
        instructions(p, obs)[i + 1] == Instruction::Draw <==> (resize.is_some() || should_render),
        instructions(p, obs)[i + 1] == Instruction::Draw || instructions(p, obs)[i + 1]
            == Instruction::Wait,
{
    lemma_run_step(p, obs, i);
}

/// From the start, the first draw comes before the first input is handed to the update
/// function.
pub proof fn first_draw_precedes_first_update(obs: Seq<Observation>, i: int)
    requires
        0 <= i <= obs.len(),
        instructions(Phase::Init, obs)[i] is Dispatch,
    ensures
        exists|j: int| 0 <= j < i && instructions(Phase::Init, obs)[j] == Instruction::Draw,
{
    lemma_drawn_before(obs, i);
    let j = choose|j: int|
        0 <= j < i && instruction_of(#[trigger] run(Phase::Init, obs.take(j))) == Instruction::Draw;
    assert(instructions(Phase::Init, obs)[j] == Instruction::Draw);
}

/// Once an update returns `Quit`, the loop draws no more: it asks for the device to be
/// restored until that is done and then exits. Over the whole run the device is restored
/// exactly once, as soon as the restore is reported.
pub proof fn quit_restores_once_without_drawing(obs: Seq<Observation>, i: int, should_render: bool)
    requires
        0 <= i < obs.len(),
        instructions(Phase::Init, obs)[i] is Dispatch,
        obs[i] == Observation::Updated(TaskKind::Quit, should_render),
    ensures
        forall|j: int| i < j <= obs.len() ==> instructions(Phase::Init, obs)[j] != Instruction::Draw,
        forall|j: int|
            i < j <= obs.len() ==> instructions(Phase::Init, obs)[j] == if restored_within(
                obs,
                i + 1,
                j,
            ) {
                Instruction::Exit(Outcome::Finished)
            } else {
                Instruction::Restore
            },
        restores(Phase::Init, obs) == if restored_within(obs, i + 1, obs.len() as int) {
            1nat
        } else {
            0nat
        },
{
    lemma_run_step(Phase::Init, obs, i);
    lemma_restores_from_start(obs.take(i));
    assert forall|j: int| i < j <= obs.len() implies instructions(Phase::Init, obs)[j] == if restored_within(
        obs,
        i + 1,
        j,
    ) {
        Instruction::Exit(Outcome::Finished)
    } else {
        Instruction::Restore
    } by {
        lemma_restoring_continues(Phase::Init, obs, i, Outcome::Finished, j);
    }
    lemma_restoring_continues(Phase::Init, obs, i, Outcome::Finished, obs.len() as int);
    assert(obs.take(obs.len() as int) =~= obs);
}

/// Once the event stream has ended or failed, or the channel has closed, the loop neither
/// waits nor dispatches nor draws again: it restores the device and exits.
pub proof fn exhausted_input_is_not_awaited_again(p: Phase, obs: Seq<Observation>, i: int)
    requires
        0 <= i < obs.len(),
        instructions(p, obs)[i] == Instruction::Wait,
        obs[i] == Observation::DeviceEnded || obs[i] == Observation::DeviceFailed || obs[i]
            == Observation::ChannelClosed,
    ensures
        forall|j: int|
            i < j <= obs.len() ==> instructions(p, obs)[j] == Instruction::Restore || instructions(
                p,
                obs,
            )[j] == Instruction::Exit(Outcome::Finished),
{
    lemma_run_step(p, obs, i);
    assert forall|j: int| i < j <= obs.len() implies instructions(p, obs)[j] == Instruction::Restore
        || instructions(p, obs)[j] == Instruction::Exit(Outcome::Finished) by {
        lemma_restoring_continues(p, obs, i, Outcome::Finished, j);
    }
}

/// Over every run from the start, the device is restored at most once. A loop that has
/// ended after a successful setup has restored it exactly once, whether or not any
/// iteration ran; a loop whose setup failed never restores it.
pub proof fn restore_exactly_once(obs: Seq<Observation>)
    ensures
        restores(Phase::Init, obs) <= 1,
        ended_after_setup(run(Phase::Init, obs)) ==> restores(Phase::Init, obs) == 1,
        run(Phase::Init, obs) == Phase::Terminated(Outcome::SetupFailed) ==> restores(
            Phase::Init,
            obs,
        ) == 0,
{
    lemma_restores_from_start(obs);
}

/// From the start, the loop asks for a draw or dispatches an input only after it asked
/// for the device to be set up and was told that the setup succeeded.
pub proof fn draws_and_dispatches_follow_setup(obs: Seq<Observation>, i: int)
    requires
        0 <= i <= obs.len(),
        instructions(Phase::Init, obs)[i] is Draw || instructions(Phase::Init, obs)[i] is Dispatch,
    ensures
        exists|k: int|
            0 <= k < i && instructions(Phase::Init, obs)[k] == Instruction::InitDevice && obs[k]
                == Observation::Initialized,
{
    lemma_set_up_before(obs, i);
    let k = choose|k: int|
        0 <= k < i && #[trigger] run(Phase::Init, obs.take(k)) == Phase::Init && obs[k]
            == Observation::Initialized;
    assert(instructions(Phase::Init, obs)[k] == Instruction::InitDevice);
}

/// An input is dispatched right after a wait that was answered by a message, which
/// carries no resize, or by a device event, whose reported resize it carries. The only
/// other way to a dispatch is a report that does not answer the dispatch before it, which
/// repeats that dispatch.
pub proof fn dispatch_follows_answered_wait(
    p: Phase,
    obs: Seq<Observation>,
    i: int,
    resize: Option<(u16, u16)>,
)
    requires
        0 < i <= obs.len(),
        instructions(p, obs)[i] == Instruction::Dispatch(resize),
    ensures
        (instructions(p, obs)[i - 1] == Instruction::Wait && ((obs[i - 1] == Observation::Message
            && resize is None) || obs[i - 1] == Observation::DeviceEvent(resize))) || (instructions(
            p,
            obs,
        )[i - 1] == Instruction::Dispatch(resize) && !(obs[i - 1] is Updated)),
{
    lemma_run_step(p, obs, i - 1);
}

} // verus!
