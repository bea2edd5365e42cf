use vstd::prelude::*;

use crate::crd::v1alpha6::EboServerPhase;
use crate::eboserver::fsm::observe::Observed;
use crate::eboserver::fsm::types::{Decision, DecisionView, Effect, EffectView, Flags};
use crate::eboserver::fsm::{short_requeue, stay, stay_view, to, to_view, SHORT_REQUEUE_SECS};
use crate::events::OperatorEvent;
use crate::interval::Interval;

verus! {

/// Bringing the pod up: make sure the initial-password secret (when the
/// feature is on) and the pod exist, and move to `target` once the pod is
/// ready.
pub open spec fn starting_spec(o: Observed, flags: Flags, target: EboServerPhase) -> DecisionView<
    EboServerPhase,
> {
    let base = seq![EffectView::UpdatePodStatus];
    let effects = if flags.initial_password_enabled && o.init_pass_secret is None {
        base.push(EffectView::EnsureInitPasswordSecret).push(
            EffectView::Publish(OperatorEvent::PasswordSecretCreated),
        )
    } else {
        base
    };
    if o.pod is None {
        stay_view(
            short_requeue(),
            effects.push(EffectView::EnsurePod).push(EffectView::Publish(OperatorEvent::PodCreated)),
        )
    } else if o.pod_ready {
        to_view(target, short_requeue(), effects.push(EffectView::Publish(OperatorEvent::PodReady)))
    } else {
        stay_view(short_requeue(), effects)
    }
}

/// Decides for the starting phases.
pub fn step(o: &Observed, flags: Flags, target: EboServerPhase) -> (d: Decision<EboServerPhase>)
    ensures
        d@ == starting_spec(*o, flags, target),
{
    broadcast use crate::eboserver::fsm::types::group_effect_views;

    let mut effects = vec![Effect::UpdatePodStatus];

    if flags.initial_password_enabled && !o.secret_exists() {
        effects.push(Effect::EnsureInitPasswordSecret);
        effects.push(Effect::Publish(OperatorEvent::PasswordSecretCreated));
    }

    if !o.pod_exists() {
        effects.push(Effect::EnsurePod);
        effects.push(Effect::Publish(OperatorEvent::PodCreated));
        return stay(Interval::from_secs(SHORT_REQUEUE_SECS), effects);
    }

    if o.pod_ready {
        effects.push(Effect::Publish(OperatorEvent::PodReady));
        return to(target, Interval::from_secs(SHORT_REQUEUE_SECS), effects);
    }

    stay(Interval::from_secs(SHORT_REQUEUE_SECS), effects)
}

} // verus!
