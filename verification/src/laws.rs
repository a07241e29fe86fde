//! Properties of the engine that hold across whole call sequences.

use vstd::prelude::*;

use crate::engine::{
    spec_finish, spec_initial, spec_reconcile, spec_set_global, spec_set_local, spec_set_penalty,
    spec_set_roster, EngineView,
};
use crate::flags::{Flag, GlobalFlag, LocalFlag};

verus! {

/// One engine call, with the instant at which it is made where the call
/// takes one.
pub ghost enum EngineOp {
    SetGlobal(Option<GlobalFlag>, u64),
    SetLocal(Option<LocalFlag>, u64),
    SetPenalty(usize, u64),
    Finish,
    Reset,
    SetRoster(Seq<u8>),
}

/// The transition one engine call makes: the state after it, and what is
/// emitted.
pub open spec fn spec_op_step(s: EngineView, op: EngineOp) -> (EngineView, Option<Option<Flag>>) {
    match op {
        EngineOp::SetGlobal(flag, now) => spec_set_global(s, flag, now),
        EngineOp::SetLocal(flag, now) => spec_set_local(s, flag, now),
        EngineOp::SetPenalty(index, now) => spec_set_penalty(s, index, now),
        EngineOp::Finish => spec_finish(s),
        EngineOp::Reset => (spec_initial(), None),
        EngineOp::SetRoster(numbers) => (spec_set_roster(s, numbers), None),
    }
}

/// The state after a whole sequence of engine calls.
pub open spec fn spec_run(s: EngineView, ops: Seq<EngineOp>) -> EngineView
    decreases ops.len(),
{
    if ops.len() == 0 {
        s
    } else {
        spec_run(spec_op_step(s, ops[0]).0, ops.drop_first())
    }
}

/// What each call of a sequence emits, in order.
pub open spec fn spec_emissions(s: EngineView, ops: Seq<EngineOp>) -> Seq<Option<Option<Flag>>>
    decreases ops.len(),
{
    if ops.len() == 0 {
        Seq::empty()
    } else {
        seq![spec_op_step(s, ops[0]).1] + spec_emissions(spec_op_step(s, ops[0]).0, ops.drop_first())
    }
}

/// Whether an op is a local-flag change or a penalty notice.
pub open spec fn spec_is_local_or_penalty(op: EngineOp) -> bool {
    op matches EngineOp::SetLocal(..) || op matches EngineOp::SetPenalty(..)
}

/// Global priority: while a global flag is active, no sequence of
/// local-flag or penalty calls produces any emission, and the global flag
/// stays exactly as it was — so the last value emitted before the sequence,
/// the global flag's own encoding, remains the displayed one.
pub proof fn lemma_global_priority(s: EngineView, ops: Seq<EngineOp>)
    requires
        s.global_flag is Some,
        forall|i: int| 0 <= i < ops.len() ==> spec_is_local_or_penalty(#[trigger] ops[i]),
    ensures
        spec_run(s, ops).global_flag == s.global_flag,
        spec_emissions(s, ops).len() == ops.len(),
        forall|i: int| 0 <= i < ops.len() ==> spec_emissions(s, ops)[i] is None,
    decreases ops.len(),
{
    if ops.len() > 0 {
        let (s1, e1) = spec_op_step(s, ops[0]);
        assert(spec_is_local_or_penalty(ops[0]));
        assert(e1 is None);
        assert(s1.global_flag == s.global_flag);
        assert(forall|i: int|
            0 <= i < ops.drop_first().len() ==> spec_is_local_or_penalty(
                #[trigger] ops.drop_first()[i],
            ));
        lemma_global_priority(s1, ops.drop_first());
        assert(forall|i: int|
            1 <= i < ops.len() ==> spec_emissions(s, ops)[i] == spec_emissions(
                s1,
                ops.drop_first(),
            )[i - 1]);
    }
}

/// Idempotence of repeated sets: setting the same global flag twice in a
/// row emits exactly one value — the first call emits the flag's encoding
/// (unless it was already showing), and the second call is a no-op.
pub proof fn lemma_set_global_idempotent(s: EngineView, g: GlobalFlag, now1: u64, now2: u64)
    ensures
        spec_set_global(spec_set_global(s, Some(g), now1).0, Some(g), now2).1 is None,
        s.global_flag != Some(g) ==> spec_set_global(s, Some(g), now1).1 == Some(
            Some(Flag::Global(g)),
        ),
{
}

/// Reveal-on-clear: clearing the global flag while a yellow or blue local
/// flag is masked emits that local flag's encoding, whatever the penalty
/// and finish overlays hold.
pub proof fn lemma_clear_reveals_local(s: EngineView, now: u64)
    requires
        s.global_flag is Some,
        s.local_flag == Some(LocalFlag::Yellow) || s.local_flag == Some(LocalFlag::Blue),
    ensures
        spec_set_global(s, None, now).1 == Some(Some(Flag::Local(s.local_flag->0))),
{
}

/// Clear precedence over idle: clearing the global flag with no local
/// flag, no penalty notice and the race not finished emits the explicit
/// clear value.
pub proof fn lemma_clear_reveals_idle(s: EngineView, now: u64)
    requires
        s.global_flag is Some,
        s.local_flag is None,
        s.showing_penalty_since is None,
        !s.race_finished,
    ensures
        spec_set_global(s, None, now).1 == Some(None::<Flag>),
{
}

/// Reset clears everything: after any state, a reset emits nothing and
/// returns the engine to the initial state, on which the reconciliation
/// rule yields the explicit clear value.
pub proof fn lemma_reset_clears_everything(s: EngineView)
    ensures
        spec_op_step(s, EngineOp::Reset).0 == spec_initial(),
        spec_op_step(s, EngineOp::Reset).1 is None,
        spec_reconcile(
            spec_initial().local_flag,
            spec_initial().showing_penalty_since is Some,
            spec_initial().race_finished,
        ) == Some(None::<LocalFlag>),
{
}

} // verus!
