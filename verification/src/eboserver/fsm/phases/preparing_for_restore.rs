use vstd::prelude::*;

use crate::crd::v1alpha6::EboServerPhase;
use crate::eboserver::fsm::observe::Observed;
use crate::eboserver::fsm::types::{Decision, DecisionView, Effect, EffectView};
use crate::eboserver::fsm::{short_requeue, stay, stay_view, to, to_view, SHORT_REQUEUE_SECS};
use crate::events::OperatorEvent;
use crate::interval::Interval;
use crate::strings::concat;

verus! {

/// Name of the restore job of a server.
pub open spec fn restore_job_name(name: Seq<char>) -> Seq<char> {
    name + "-restore"@
}

/// Preparing a restore: create the restore job for the requested backup if
/// it is missing, and go back to starting once it has succeeded.
pub open spec fn preparing_for_restore_spec(o: Observed) -> DecisionView<EboServerPhase> {
    let base = seq![EffectView::UpdateRestoreJobStatus];
    if o.restore_job is None {
        stay_view(
            short_requeue(),
            base.push(
                EffectView::EnsureRestoreJob {
                    name: restore_job_name(o.name@),
                    restore_name: o.restore_name@,
                },
            ).push(EffectView::Publish(OperatorEvent::RestoreJobCreated)),
        )
    } else if o.restore_job_succeeded {
        to_view(
            EboServerPhase::Starting,
            short_requeue(),
            base.push(EffectView::Publish(OperatorEvent::RestoreJobSucceeded)).push(
                EffectView::UpdateRestore,
            ),
        )
    } else {
        stay_view(short_requeue(), base)
    }
}

/// Decides for `PreparingForRestore`.
pub fn step(o: &Observed) -> (d: Decision<EboServerPhase>)
    ensures
        d@ == preparing_for_restore_spec(*o),
{
    broadcast use crate::eboserver::fsm::types::group_effect_views;

    let mut effects = vec![Effect::UpdateRestoreJobStatus];

    if !o.restore_job_exists() {
        effects.push(
            Effect::EnsureRestoreJob {
                name: concat(o.name.as_str(), "-restore"),
                restore_name: o.restore_name.clone(),
            },
        );
        effects.push(Effect::Publish(OperatorEvent::RestoreJobCreated));
        return stay(Interval::from_secs(SHORT_REQUEUE_SECS), effects);
    }

    if o.restore_job_succeeded {
        effects.push(Effect::Publish(OperatorEvent::RestoreJobSucceeded));
        effects.push(Effect::UpdateRestore);
        return to(EboServerPhase::Starting, Interval::from_secs(SHORT_REQUEUE_SECS), effects);
    }

    stay(Interval::from_secs(SHORT_REQUEUE_SECS), effects)
}

} // verus!
