use vstd::prelude::*;

use crate::crd::v1alpha6::{EboAdminPasswordStatus, EboServerPhase};
use crate::eboserver::fsm::observe::Observed;
use crate::eboserver::fsm::types::{Decision, DecisionView, Effect, EffectView};
use crate::eboserver::fsm::{short_requeue, to, to_view, SHORT_REQUEUE_SECS};
use crate::events::OperatorEvent;
use crate::interval::Interval;
use crate::strings::{seq_lt, str_lt};

verus! {

/// A temporary-password reset has been requested since the last one was
/// carried out: the request stamp sorts after the recorded one.
pub open spec fn temp_password_reset_pending(o: Observed) -> bool {
    seq_lt(o.last_reset_temporary_password@, o.reset_temporary_password@)
}

/// Deleting the data volume: delete it and move to `target`; when this
/// serves a pending temporary-password reset, also record the reset, mark
/// the password temporary and announce it.
pub open spec fn deleting_pvc_spec(o: Observed, target: EboServerPhase) -> DecisionView<
    EboServerPhase,
> {
    let base = seq![EffectView::DeleteDataPvc];
    let effects = if temp_password_reset_pending(o) {
        base.push(EffectView::UpdateResetTemporaryPassword).push(
            EffectView::UpdatePasswordStatus(EboAdminPasswordStatus::Temporary),
        ).push(EffectView::Publish(OperatorEvent::TemporaryPasswordReset))
    } else {
        base
    };
    to_view(target, short_requeue(), effects)
}

/// Decides for `DeletingPVC` once the target phase is chosen.
pub fn step(o: &Observed, target: EboServerPhase) -> (d: Decision<EboServerPhase>)
    ensures
        d@ == deleting_pvc_spec(*o, target),
{
    broadcast use crate::eboserver::fsm::types::group_effect_views;

    let mut effects = vec![Effect::DeleteDataPvc];

    if str_lt(o.last_reset_temporary_password.as_str(), o.reset_temporary_password.as_str()) {
        effects.push(Effect::UpdateResetTemporaryPassword);
        effects.push(Effect::UpdatePasswordStatus(EboAdminPasswordStatus::Temporary));
        effects.push(Effect::Publish(OperatorEvent::TemporaryPasswordReset));
    }

    to(target, Interval::from_secs(SHORT_REQUEUE_SECS), effects)
}

} // verus!
