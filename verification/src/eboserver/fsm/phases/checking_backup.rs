use vstd::prelude::*;

use crate::crd::v1alpha6::{EboServerPhase, EboUpgradeStatus};
use crate::eboserver::fsm::observe::Observed;
use crate::eboserver::fsm::types::{Decision, DecisionView, Effect, EffectView};
use crate::eboserver::fsm::{short_requeue, stay, stay_view, to, to_view, SHORT_REQUEUE_SECS};
use crate::events::OperatorEvent;
use crate::interval::Interval;

verus! {

/// Checking the pre-upgrade backup, by the upgrade status: a performed
/// backup is checked, a succeeded one lets the upgrade go on, an ongoing one
/// is marked performed, a failed one disables upgrades and returns to
/// `Ready`; any other status waits.
pub open spec fn checking_backup_spec(o: Observed) -> DecisionView<EboServerPhase> {
    match o.upgrade_status {
        EboUpgradeStatus::BackupPerformed => stay_view(
            short_requeue(),
            seq![EffectView::CheckBackupSucceeded { name: o.backup_name@ }],
        ),
        EboUpgradeStatus::BackupSucceeded => to_view(
            EboServerPhase::StoppingForUpgrade,
            short_requeue(),
            Seq::empty(),
        ),
        EboUpgradeStatus::BackupOngoing => stay_view(
            short_requeue(),
            seq![
                EffectView::Publish(OperatorEvent::BackupPerformed),
                EffectView::UpdateUpgradeStatus(EboUpgradeStatus::BackupPerformed),
            ],
        ),
        EboUpgradeStatus::BackupFailed => to_view(
            EboServerPhase::Ready,
            short_requeue(),
            seq![
                EffectView::SetBackupName(Seq::empty()),
                EffectView::SetUpgradeDisabled(true),
                EffectView::Publish(OperatorEvent::BackupFailed),
                EffectView::Publish(OperatorEvent::UpgradeFailed),
            ],
        ),
        _ => stay_view(short_requeue(), Seq::empty()),
    }
}

/// Decides for `CheckingBackup`.
pub fn step(o: &Observed) -> (d: Decision<EboServerPhase>)
    ensures
        d@ == checking_backup_spec(*o),
{
    broadcast use crate::eboserver::fsm::types::group_effect_views;

    match o.upgrade_status {
        EboUpgradeStatus::BackupPerformed => stay(
            Interval::from_secs(SHORT_REQUEUE_SECS),
            vec![Effect::CheckBackupSucceeded { name: o.backup_name.clone() }],
        ),
        EboUpgradeStatus::BackupSucceeded => to(
            EboServerPhase::StoppingForUpgrade,
            Interval::from_secs(SHORT_REQUEUE_SECS),
            Vec::new(),
        ),
        EboUpgradeStatus::BackupOngoing => stay(
            Interval::from_secs(SHORT_REQUEUE_SECS),
            vec![
                Effect::Publish(OperatorEvent::BackupPerformed),
                Effect::UpdateUpgradeStatus(EboUpgradeStatus::BackupPerformed),
            ],
        ),
        EboUpgradeStatus::BackupFailed => to(
            EboServerPhase::Ready,
            Interval::from_secs(SHORT_REQUEUE_SECS),
            vec![
                Effect::SetBackupName(String::new()),
                Effect::SetUpgradeDisabled(true),
                Effect::Publish(OperatorEvent::BackupFailed),
                Effect::Publish(OperatorEvent::UpgradeFailed),
            ],
        ),
        _ => stay(Interval::from_secs(SHORT_REQUEUE_SECS), Vec::new()),
    }
}

} // verus!
