use vstd::prelude::*;

use crate::crd::v1alpha6::{EboServerPhase, EboUpgradeStatus};
use crate::eboserver::fsm::observe::Observed;
use crate::eboserver::fsm::types::{Decision, DecisionView, Effect, EffectView};
use crate::eboserver::fsm::{short_requeue, stay, stay_view, to, to_view, SHORT_REQUEUE_SECS};
use crate::events::OperatorEvent;
use crate::interval::Interval;
use crate::strings::concat;

verus! {

/// Name of the upgrade job of a server.
pub open spec fn upgrade_job_name(name: Seq<char>) -> Seq<char> {
    name + "-prepare-upgrade"@
}

/// Preparing the upgrade: create the upgrade job if it is missing, and go
/// back to starting once it has succeeded.
pub open spec fn preparing_for_upgrade_spec(o: Observed) -> DecisionView<EboServerPhase> {
    let base = seq![EffectView::UpdateUpgradeJobStatus];
    if o.upgrade_job is None {
        stay_view(
            short_requeue(),
            base.push(EffectView::EnsureUpgradeJob { name: upgrade_job_name(o.name@) }).push(
                EffectView::Publish(OperatorEvent::UpgradeJobCreated),
            ).push(EffectView::UpdateUpgradeStatus(EboUpgradeStatus::Ready)),
        )
    } else if o.upgrade_job_succeeded {
        to_view(
            EboServerPhase::Starting,
            short_requeue(),
            base.push(EffectView::Publish(OperatorEvent::UpgradeJobSucceeded)),
        )
    } else {
        stay_view(short_requeue(), base)
    }
}

/// Decides for `PreparingForUpgrade`.
pub fn step(o: &Observed) -> (d: Decision<EboServerPhase>)
    ensures
        d@ == preparing_for_upgrade_spec(*o),
{
    broadcast use crate::eboserver::fsm::types::group_effect_views;

    let mut effects = vec![Effect::UpdateUpgradeJobStatus];

    if !o.upgrade_job_exists() {
        effects.push(Effect::EnsureUpgradeJob { name: concat(o.name.as_str(), "-prepare-upgrade") });
        effects.push(Effect::Publish(OperatorEvent::UpgradeJobCreated));
        effects.push(Effect::UpdateUpgradeStatus(EboUpgradeStatus::Ready));
        return stay(Interval::from_secs(SHORT_REQUEUE_SECS), effects);
    }

    if o.upgrade_job_succeeded {
        effects.push(Effect::Publish(OperatorEvent::UpgradeJobSucceeded));
        return to(EboServerPhase::Starting, Interval::from_secs(SHORT_REQUEUE_SECS), effects);
    }

    stay(Interval::from_secs(SHORT_REQUEUE_SECS), effects)
}

} // verus!
