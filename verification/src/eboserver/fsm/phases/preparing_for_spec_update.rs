use vstd::prelude::*;

use crate::crd::v1alpha6::EboServerPhase;
use crate::eboserver::fsm::types::{Decision, DecisionView};
use crate::eboserver::fsm::{ready_requeue, to, to_view, READY_REQUEUE_SECS};
use crate::interval::Interval;

verus! {

/// With the pod stopped, the new spec takes effect on the next start: go
/// back to starting, looking again after the settled interval.
pub open spec fn preparing_for_spec_update_spec() -> DecisionView<EboServerPhase> {
    to_view(EboServerPhase::Starting, ready_requeue(), Seq::empty())
}

/// Decides for `PreparingForSpecUpdate`.
pub fn step() -> (d: Decision<EboServerPhase>)
    ensures
        d@ == preparing_for_spec_update_spec(),
{
    broadcast use crate::eboserver::fsm::types::group_effect_views;

    to(EboServerPhase::Starting, Interval::from_secs(READY_REQUEUE_SECS), Vec::new())
}

} // verus!
