use vstd::prelude::*;

use crate::crd::v1alpha6::EboServerPhase;
use crate::eboserver::fsm::observe::Observed;
use crate::eboserver::fsm::types::{Decision, DecisionView, Effect, EffectView};
use crate::eboserver::fsm::{short_requeue, stay, stay_view, to, to_view, SHORT_REQUEUE_SECS};
use crate::events::OperatorEvent;
use crate::interval::Interval;

verus! {

/// Stopping the pod: delete it unless it is already terminating, and move to
/// `target` once it is gone or has stopped.
pub open spec fn stopping_spec(o: Observed, target: EboServerPhase) -> DecisionView<EboServerPhase> {
    let base = seq![EffectView::UpdatePodStatus];
    if o.pod is None {
        to_view(target, short_requeue(), base.push(EffectView::Publish(OperatorEvent::PodDeleted)))
    } else if !o.pod_terminating {
        stay_view(
            short_requeue(),
            base.push(EffectView::DeletePod).push(EffectView::Publish(OperatorEvent::PodStopping)),
        )
    } else if o.pod_stopped {
        to_view(target, short_requeue(), base.push(EffectView::Publish(OperatorEvent::PodStopped)))
    } else {
        stay_view(short_requeue(), base)
    }
}

/// Decides for the stopping phases.
pub fn step(o: &Observed, target: EboServerPhase) -> (d: Decision<EboServerPhase>)
    ensures
        d@ == stopping_spec(*o, target),
{
    broadcast use crate::eboserver::fsm::types::group_effect_views;

    let mut effects = vec![Effect::UpdatePodStatus];

    if !o.pod_exists() {
        effects.push(Effect::Publish(OperatorEvent::PodDeleted));
        return to(target, Interval::from_secs(SHORT_REQUEUE_SECS), effects);
    }

    if !o.pod_terminating {
        effects.push(Effect::DeletePod);
        effects.push(Effect::Publish(OperatorEvent::PodStopping));
        return stay(Interval::from_secs(SHORT_REQUEUE_SECS), effects);
    }

    if o.pod_stopped {
        effects.push(Effect::Publish(OperatorEvent::PodStopped));
        return to(target, Interval::from_secs(SHORT_REQUEUE_SECS), effects);
    }

    stay(Interval::from_secs(SHORT_REQUEUE_SECS), effects)
}

} // verus!
