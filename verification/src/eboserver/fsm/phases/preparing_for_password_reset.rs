use vstd::prelude::*;

use crate::crd::v1alpha6::EboServerPhase;
use crate::eboserver::fsm::observe::Observed;
use crate::eboserver::fsm::types::{Decision, DecisionView, Effect, EffectView};
use crate::eboserver::fsm::{short_requeue, stay, stay_view, to, to_view, SHORT_REQUEUE_SECS};
use crate::events::OperatorEvent;
use crate::interval::Interval;
use crate::strings::concat;

verus! {

/// Name of the password-reset job of a server.
pub open spec fn password_reset_job_name(name: Seq<char>) -> Seq<char> {
    name + "-password-reset"@
}

/// Preparing a password reset: create the reset job if it is missing, and go
/// back to starting once it has succeeded.
pub open spec fn preparing_for_password_reset_spec(o: Observed) -> DecisionView<EboServerPhase> {
    let base = seq![EffectView::UpdatePasswordResetJobStatus];
    if o.password_reset_job is None {
        stay_view(
            short_requeue(),
            base.push(
                EffectView::EnsurePasswordResetJob { name: password_reset_job_name(o.name@) },
            ).push(EffectView::Publish(OperatorEvent::PasswordResetJobCreated)),
        )
    } else if o.password_reset_job_succeeded {
        to_view(
            EboServerPhase::Starting,
            short_requeue(),
            base.push(EffectView::Publish(OperatorEvent::PasswordResetJobSucceeded)).push(
                EffectView::UpdatePasswordResetMode,
            ),
        )
    } else {
        stay_view(short_requeue(), base)
    }
}

/// Decides for `PreparingForPasswordReset`.
pub fn step(o: &Observed) -> (d: Decision<EboServerPhase>)
    ensures
        d@ == preparing_for_password_reset_spec(*o),
{
    broadcast use crate::eboserver::fsm::types::group_effect_views;

    let mut effects = vec![Effect::UpdatePasswordResetJobStatus];

    if !o.password_reset_job_exists() {
        effects.push(
            Effect::EnsurePasswordResetJob { name: concat(o.name.as_str(), "-password-reset") },
        );
        effects.push(Effect::Publish(OperatorEvent::PasswordResetJobCreated));
        return stay(Interval::from_secs(SHORT_REQUEUE_SECS), effects);
    }

    if o.password_reset_job_succeeded {
        effects.push(Effect::Publish(OperatorEvent::PasswordResetJobSucceeded));
        effects.push(Effect::UpdatePasswordResetMode);
        return to(EboServerPhase::Starting, Interval::from_secs(SHORT_REQUEUE_SECS), effects);
    }

    stay(Interval::from_secs(SHORT_REQUEUE_SECS), effects)
}

} // verus!
