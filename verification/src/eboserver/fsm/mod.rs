//! The per-phase state machine of an `EboServer`: observe, decide, act.

pub mod act;
pub mod laws;
pub mod observe;
pub mod phases;
pub mod types;

use vstd::prelude::*;

use crate::crd::v1alpha6::EboServerPhase;
use crate::interval::Interval;
use types::{Decision, DecisionView, Effect, EffectView, Transition, effect_views};

verus! {

/// Seconds before the next look while something is in progress.
pub const SHORT_REQUEUE_SECS: u64 = 15;

/// Seconds before the next look once the server is settled.
pub const READY_REQUEUE_SECS: u64 = 60;

/// The short requeue interval: fifteen seconds.
pub open spec fn short_requeue() -> (u64, u32) {
    (15u64, 0u32)
}

/// The settled requeue interval: sixty seconds.
pub open spec fn ready_requeue() -> (u64, u32) {
    (60u64, 0u32)
}

/// A decision to stay in the current phase.
pub open spec fn stay_view<P>(requeue: (u64, u32), effects: Seq<EffectView>) -> DecisionView<P> {
    DecisionView { transition: Transition::Stay, requeue, effects }
}

/// A decision to move to `phase`.
pub open spec fn to_view<P>(phase: P, requeue: (u64, u32), effects: Seq<EffectView>) -> DecisionView<
    P,
> {
    DecisionView { transition: Transition::To(phase), requeue, effects }
}

/// Stay in the current phase, look again after `requeue`, carrying out
/// `effects` first.
pub fn stay<P>(requeue: Interval, effects: Vec<Effect>) -> (d: Decision<P>)
    ensures
        d@ == stay_view::<P>(requeue@, effect_views(effects@)),
        d.effects@ == effects@,
{
    Decision { transition: Transition::Stay, requeue, effects }
}

/// Move to `phase`, look again after `requeue`, carrying out `effects` first.
pub fn to<P>(phase: P, requeue: Interval, effects: Vec<Effect>) -> (d: Decision<P>)
    ensures
        d@ == to_view(phase, requeue@, effect_views(effects@)),
        d.effects@ == effects@,
{
    Decision { transition: Transition::To(phase), requeue, effects }
}

} // verus!

verus! {

/// Decides what to do for a server in `phase`, given what was observed.
pub fn step(phase: EboServerPhase, o: &observe::Observed, flags: types::Flags) -> (d: Decision<
    EboServerPhase,
>)
    ensures
        !phases::uses_backup_stamp(phase, *o) ==> d@ == phases::phase_step_spec(
            phase,
            *o,
            flags,
            Seq::empty(),
        ),
        phases::uses_backup_stamp(phase, *o) ==> exists|s: Seq<char>|
            phases::performing_backup::backup_stamp_shape(s) && d@ == phases::phase_step_spec(
                phase,
                *o,
                flags,
                s,
            ),
{
    phases::step(phase, o, flags)
}

} // verus!
