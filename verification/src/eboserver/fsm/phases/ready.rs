use vstd::prelude::*;

use crate::crd::v1alpha6::{EboAdminPasswordStatus, EboServerPhase};
use crate::eboserver::fsm::observe::Observed;
use crate::eboserver::fsm::types::{Decision, DecisionView, Effect, EffectView, effect_views};
use crate::eboserver::fsm::{
    ready_requeue, short_requeue, stay, stay_view, to, to_view, READY_REQUEUE_SECS,
    SHORT_REQUEUE_SECS,
};
use crate::events::OperatorEvent;
use crate::interval::Interval;
use crate::strings::{seq_lt, str_lt};

verus! {

/// The admin-password check runs in the background of `Ready` while the
/// management API is enabled, the pod is ready and the password is still the
/// temporary one.
pub open spec fn admin_password_check_due(o: Observed) -> bool {
    o.mgmt_enabled && o.pod_ready && o.admin_pwd_status == EboAdminPasswordStatus::Temporary
}

/// A password reset has been requested since the last one was carried out.
pub open spec fn password_reset_pending(o: Observed) -> bool {
    seq_lt(o.last_password_reset_mode@, o.password_reset_mode@)
}

/// A restore has been requested since the last one, and names a backup.
pub open spec fn restore_pending(o: Observed) -> bool {
    seq_lt(o.last_restore@, o.restore@) && o.restore_name@.len() > 0
}

/// Watching a running server. A missing pod sends the server back to
/// starting; otherwise, in this order of priority: a pod that is not running
/// waits; a new crash loop is reported; a password reset, a temporary-password
/// reset or a restore that is pending (with the pod ready) starts; spec drift
/// leads to an upgrade (through a backup, unless upgrades are disabled) when
/// the image changed and to a spec update otherwise; a volume resize leads to
/// a spec update; else the server stays ready.
pub open spec fn ready_spec(o: Observed) -> DecisionView<EboServerPhase> {
    let base = seq![EffectView::UpdatePodStatus];
    if o.pod is None {
        to_view(
            EboServerPhase::Starting,
            short_requeue(),
            base.push(EffectView::Publish(OperatorEvent::PodDeleted)),
        )
    } else {
        let e1 = if admin_password_check_due(o) {
            base.push(EffectView::CheckAdminPassword)
        } else {
            base
        };
        if !o.pod_running {
            stay_view(short_requeue(), e1)
        } else if o.crash_loop && !o.crash_loop_reported {
            stay_view(
                short_requeue(),
                e1.push(EffectView::Publish(OperatorEvent::CrashLoopDetected)).push(
                    EffectView::UpdateCrashLoopReported(true),
                ),
            )
        } else {
            let e2 = if !o.crash_loop && o.crash_loop_reported {
                e1.push(EffectView::Publish(OperatorEvent::CrashLoopRecovered)).push(
                    EffectView::UpdateCrashLoopReported(false),
                )
            } else {
                e1
            };
            if o.pod_ready && password_reset_pending(o) {
                to_view(
                    EboServerPhase::StoppingForPasswordReset,
                    short_requeue(),
                    e2.push(EffectView::Publish(OperatorEvent::PasswordResetInitiated)),
                )
            } else if o.pod_ready && seq_lt(
                o.last_reset_temporary_password@,
                o.reset_temporary_password@,
            ) {
                to_view(
                    EboServerPhase::ResetTemporaryPassword,
                    short_requeue(),
                    e2.push(EffectView::DeleteInitPasswordSecret),
                )
            } else if o.pod_ready && restore_pending(o) {
                to_view(
                    EboServerPhase::StoppingForPVCDelete,
                    short_requeue(),
                    e2.push(EffectView::Publish(OperatorEvent::RestoreInitiated)),
                )
            } else if o.drift_detected {
                if o.image_changed {
                    if o.upgrade_disabled {
                        to_view(EboServerPhase::Ready, short_requeue(), e2)
                    } else {
                        to_view(
                            EboServerPhase::PerformingBackup,
                            short_requeue(),
                            e2.push(EffectView::Publish(OperatorEvent::ImageUpgrade)),
                        )
                    }
                } else {
                    to_view(
                        EboServerPhase::StoppingForSpecUpdate,
                        short_requeue(),
                        e2.push(EffectView::Publish(OperatorEvent::SpecDriftDetected)),
                    )
                }
            } else if o.pvc_needs_resize {
                to_view(
                    EboServerPhase::StoppingForSpecUpdate,
                    short_requeue(),
                    e2.push(EffectView::Publish(OperatorEvent::VolumeResizeRequest)),
                )
            } else {
                stay_view(ready_requeue(), e2)
            }
        }
    }
}

/// Decides for `Ready`.
pub fn step(o: &Observed) -> (d: Decision<EboServerPhase>)
    ensures
        d@ == ready_spec(*o),
{
    broadcast use crate::eboserver::fsm::types::group_effect_views;

    let mut effects = vec![Effect::UpdatePodStatus];

    if !o.pod_exists() {
        effects.push(Effect::Publish(OperatorEvent::PodDeleted));
        return to(EboServerPhase::Starting, Interval::from_secs(SHORT_REQUEUE_SECS), effects);
    }

    push_background_effects(o, &mut effects);

    if !o.pod_running {
        return stay(Interval::from_secs(SHORT_REQUEUE_SECS), effects);
    }

    if o.crash_loop && !o.crash_loop_reported {
        effects.push(Effect::Publish(OperatorEvent::CrashLoopDetected));
        effects.push(Effect::UpdateCrashLoopReported(true));
        return stay(Interval::from_secs(SHORT_REQUEUE_SECS), effects);
    }

    if !o.crash_loop && o.crash_loop_reported {
        effects.push(Effect::Publish(OperatorEvent::CrashLoopRecovered));
        effects.push(Effect::UpdateCrashLoopReported(false));
    }

    if o.pod_ready && str_lt(o.last_password_reset_mode.as_str(), o.password_reset_mode.as_str()) {
        effects.push(Effect::Publish(OperatorEvent::PasswordResetInitiated));
        return to(
            EboServerPhase::StoppingForPasswordReset,
            Interval::from_secs(SHORT_REQUEUE_SECS),
            effects,
        );
    }

    if o.pod_ready && str_lt(
        o.last_reset_temporary_password.as_str(),
        o.reset_temporary_password.as_str(),
    ) {
        effects.push(Effect::DeleteInitPasswordSecret);
        return to(
            EboServerPhase::ResetTemporaryPassword,
            Interval::from_secs(SHORT_REQUEUE_SECS),
            effects,
        );
    }

    if o.pod_ready && str_lt(o.last_restore.as_str(), o.restore.as_str())
        && o.restore_name.as_str().unicode_len() != 0 {
        effects.push(Effect::Publish(OperatorEvent::RestoreInitiated));
        return to(
            EboServerPhase::StoppingForPVCDelete,
            Interval::from_secs(SHORT_REQUEUE_SECS),
            effects,
        );
    }

    if o.drift_detected {
        if o.image_changed {
            if o.upgrade_disabled {
                return to(EboServerPhase::Ready, Interval::from_secs(SHORT_REQUEUE_SECS), effects);
            } else {
                effects.push(Effect::Publish(OperatorEvent::ImageUpgrade));
                return to(
                    EboServerPhase::PerformingBackup,
                    Interval::from_secs(SHORT_REQUEUE_SECS),
                    effects,
                );
            }
        }
        effects.push(Effect::Publish(OperatorEvent::SpecDriftDetected));
        return to(
            EboServerPhase::StoppingForSpecUpdate,
            Interval::from_secs(SHORT_REQUEUE_SECS),
            effects,
        );
    }

    if o.pvc_needs_resize {
        effects.push(Effect::Publish(OperatorEvent::VolumeResizeRequest));
        return to(
            EboServerPhase::StoppingForSpecUpdate,
            Interval::from_secs(SHORT_REQUEUE_SECS),
            effects,
        );
    }

    stay(Interval::from_secs(READY_REQUEUE_SECS), effects)
}

/// Appends the background checks that `Ready` runs alongside its decision:
/// the admin-password check when it is due.
fn push_background_effects(o: &Observed, effects: &mut Vec<Effect>)
    ensures
        effect_views(final(effects)@) == (if admin_password_check_due(*o) {
            effect_views(old(effects)@).push(EffectView::CheckAdminPassword)
        } else {
            effect_views(old(effects)@)
        }),
{
    broadcast use crate::eboserver::fsm::types::group_effect_views;

    if o.mgmt_enabled && o.pod_ready && o.admin_pwd_status == EboAdminPasswordStatus::Temporary {
        effects.push(Effect::CheckAdminPassword);
    }
}

} // verus!
