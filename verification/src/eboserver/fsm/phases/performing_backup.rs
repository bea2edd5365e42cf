use vstd::prelude::*;

use crate::crd::v1alpha6::{EboServerPhase, EboUpgradeStatus};
use crate::eboserver::fsm::observe::{BackupOngoing, Observed};
use crate::eboserver::fsm::types::{Decision, DecisionView, Effect, EffectView};
use crate::eboserver::fsm::{short_requeue, stay, stay_view, to, to_view, SHORT_REQUEUE_SECS};
use crate::events::OperatorEvent;
use crate::interval::Interval;

verus! {

/// The shape of a backup stamp made with chrono's format `%d%m%y-%H%M`: six
/// digits (day, month, two-digit year), a hyphen, four digits (hour,
/// minute).
pub open spec fn backup_stamp_shape(s: Seq<char>) -> bool {
    &&& s.len() == 11
    &&& s[6] == '-'
    &&& forall|i: int| 0 <= i < 11 && i != 6 ==> '0' <= #[trigger] s[i] <= '9'
}

/// Calls chrono's `Local::now()` and formats it with `%d%m%y-%H%M`. Which
/// moment it reads is not stated; chrono documents each of these fields as
/// zero-padded to two digits, which gives the shape.
#[verifier::external_body]
fn local_backup_stamp() -> (s: String)
    ensures
        backup_stamp_shape(s@),
{
    chrono::Local::now().format("%d%m%y-%H%M").to_string()
}

/// A new backup is to be started now, and it has no name yet: the name is
/// then the current local time's stamp.
pub open spec fn needs_backup_stamp(o: Observed) -> bool {
    o.backup_ongoing == BackupOngoing::Known(false) && o.upgrade_status == EboUpgradeStatus::Ready
        && o.backup_name@.len() == 0
}

/// Taking the pre-upgrade backup. Without the management API the upgrade
/// goes on without one; while the backup state is unknown or a backup runs,
/// wait; with none running, start one (named after the recorded backup name,
/// or `stamp` when there is none) if the upgrade status is `Ready`, and move
/// on to checking it otherwise.
pub open spec fn performing_backup_spec(o: Observed, stamp: Seq<char>) -> DecisionView<
    EboServerPhase,
> {
    match o.backup_ongoing {
        BackupOngoing::Disabled => to_view(
            EboServerPhase::StoppingForUpgrade,
            short_requeue(),
            seq![EffectView::Publish(OperatorEvent::BackupSucceeded)],
        ),
        BackupOngoing::Unknown => stay_view(short_requeue(), Seq::empty()),
        BackupOngoing::Known(true) => stay_view(short_requeue(), Seq::empty()),
        BackupOngoing::Known(false) => if o.upgrade_status == EboUpgradeStatus::Ready {
            let name = if o.backup_name@.len() == 0 {
                stamp
            } else {
                o.backup_name@
            };
            stay_view(
                short_requeue(),
                seq![
                    EffectView::TryStartBackup { name },
                    EffectView::SetBackupName(name),
                ],
            )
        } else {
            to_view(
                EboServerPhase::CheckingBackup,
                short_requeue(),
                seq![EffectView::Publish(OperatorEvent::BackupPerformed)],
            )
        },
    }
}

/// Decides for `PerformingBackup`, with `stamp` as the name of a backup that
/// has none yet.
pub fn step_with_stamp(o: &Observed, stamp: &str) -> (d: Decision<EboServerPhase>)
    ensures
        d@ == performing_backup_spec(*o, stamp@),
{
    broadcast use crate::eboserver::fsm::types::group_effect_views;

    match o.backup_ongoing {
        BackupOngoing::Disabled => {
            return to(
                EboServerPhase::StoppingForUpgrade,
                Interval::from_secs(SHORT_REQUEUE_SECS),
                vec![Effect::Publish(OperatorEvent::BackupSucceeded)],
            );
        },
        BackupOngoing::Unknown => {
            return stay(Interval::from_secs(SHORT_REQUEUE_SECS), Vec::new());
        },
        BackupOngoing::Known(true) => {
            return stay(Interval::from_secs(SHORT_REQUEUE_SECS), Vec::new());
        },
        BackupOngoing::Known(false) => {},
    }

    if o.upgrade_status == EboUpgradeStatus::Ready {
        let backup_name = if o.backup_name.as_str().unicode_len() == 0 {
            String::from_str(stamp)
        } else {
            o.backup_name.clone()
        };
        let name_again = backup_name.clone();
        return stay(
            Interval::from_secs(SHORT_REQUEUE_SECS),
            vec![Effect::TryStartBackup { name: backup_name }, Effect::SetBackupName(name_again)],
        );
    }

    to(
        EboServerPhase::CheckingBackup,
        Interval::from_secs(SHORT_REQUEUE_SECS),
        vec![Effect::Publish(OperatorEvent::BackupPerformed)],
    )
}

/// Decides for `PerformingBackup`. When a new backup needs a name, the stamp
/// of the current local time is taken; the decision is that of
/// `step_with_stamp` for that stamp, which has the documented shape.
pub fn step(o: &Observed) -> (d: Decision<EboServerPhase>)
    ensures
        !needs_backup_stamp(*o) ==> d@ == performing_backup_spec(*o, Seq::empty()),
        needs_backup_stamp(*o) ==> exists|s: Seq<char>|
            backup_stamp_shape(s) && d@ == performing_backup_spec(*o, s),
{
    if o.backup_ongoing == BackupOngoing::Known(false) && o.upgrade_status
        == EboUpgradeStatus::Ready && o.backup_name.as_str().unicode_len() == 0 {
        let stamp = local_backup_stamp();
        let d = step_with_stamp(o, stamp.as_str());
        assert(backup_stamp_shape(stamp@) && d@ == performing_backup_spec(*o, stamp@));
        d
    } else {
        step_with_stamp(o, "")
    }
}

} // verus!
