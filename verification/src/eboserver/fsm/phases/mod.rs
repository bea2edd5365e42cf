//! One handler per phase, and the dispatch between them.

pub mod checking_backup;
pub mod deleting_pvc;
pub mod performing_backup;
pub mod preparing_for_password_reset;
pub mod preparing_for_restore;
pub mod preparing_for_spec_update;
pub mod preparing_for_upgrade;
pub mod ready;
pub mod starting;
pub mod stopping;

use vstd::prelude::*;

use crate::crd::v1alpha6::EboServerPhase;
use crate::strings::str_lt;
use super::observe::Observed;
use super::types::{Decision, DecisionView, Flags};
use checking_backup::checking_backup_spec;
use deleting_pvc::{deleting_pvc_spec, temp_password_reset_pending};
use performing_backup::{backup_stamp_shape, needs_backup_stamp, performing_backup_spec};
use preparing_for_password_reset::preparing_for_password_reset_spec;
use preparing_for_restore::preparing_for_restore_spec;
use preparing_for_spec_update::preparing_for_spec_update_spec;
use preparing_for_upgrade::preparing_for_upgrade_spec;
use ready::{ready_spec, restore_pending};
use starting::starting_spec;
use stopping::stopping_spec;

verus! {

/// The decision in each phase, `stamp` naming a new backup that has no name.
/// The starting phases lead to `Ready` or, when starting for a restore, on to
/// stopping for it; each stopping phase leads to its own preparation;
/// resetting the temporary password stops the pod on the way to deleting
/// the data volume; deleting it serves a pending temporary-password reset
/// first, then a pending restore, and otherwise starts the pod again.
pub open spec fn phase_step_spec(
    phase: EboServerPhase,
    o: Observed,
    flags: Flags,
    stamp: Seq<char>,
) -> DecisionView<EboServerPhase> {
    match phase {
        EboServerPhase::Starting => starting_spec(o, flags, EboServerPhase::Ready),
        EboServerPhase::Ready => ready_spec(o),
        EboServerPhase::PerformingBackup => performing_backup_spec(o, stamp),
        EboServerPhase::CheckingBackup => checking_backup_spec(o),
        EboServerPhase::StoppingForUpgrade => stopping_spec(o, EboServerPhase::PreparingForUpgrade),
        EboServerPhase::StoppingForSpecUpdate => stopping_spec(
            o,
            EboServerPhase::PreparingForSpecUpdate,
        ),
        EboServerPhase::StoppingForPasswordReset => stopping_spec(
            o,
            EboServerPhase::PreparingForPasswordReset,
        ),
        EboServerPhase::PreparingForUpgrade => preparing_for_upgrade_spec(o),
        EboServerPhase::PreparingForSpecUpdate => preparing_for_spec_update_spec(),
        EboServerPhase::PreparingForPasswordReset => preparing_for_password_reset_spec(o),
        EboServerPhase::StoppingForPVCDelete => stopping_spec(o, EboServerPhase::DeletingPVC),
        EboServerPhase::StartingForRestore => starting_spec(
            o,
            flags,
            EboServerPhase::StoppingForRestore,
        ),
        EboServerPhase::StoppingForRestore => stopping_spec(o, EboServerPhase::PreparingForRestore),
        EboServerPhase::PreparingForRestore => preparing_for_restore_spec(o),
        EboServerPhase::ResetTemporaryPassword => stopping_spec(
            o,
            EboServerPhase::StoppingForPVCDelete,
        ),
        EboServerPhase::DeletingPVC => if temp_password_reset_pending(o) {
            deleting_pvc_spec(o, EboServerPhase::Starting)
        } else if restore_pending(o) {
            deleting_pvc_spec(o, EboServerPhase::StartingForRestore)
        } else {
            starting_spec(o, flags, EboServerPhase::Ready)
        },
    }
}

/// The decision reads the current time: in `PerformingBackup`, when a new
/// backup has no name yet.
pub open spec fn uses_backup_stamp(phase: EboServerPhase, o: Observed) -> bool {
    phase == EboServerPhase::PerformingBackup && needs_backup_stamp(o)
}

/// Dispatches to the handler of `phase`, with `stamp` as the name of a new
/// backup that has none.
pub fn step_with_stamp(phase: EboServerPhase, o: &Observed, flags: Flags, stamp: &str) -> (d:
    Decision<EboServerPhase>)
    ensures
        d@ == phase_step_spec(phase, *o, flags, stamp@),
{
    match phase {
        EboServerPhase::Starting => starting::step(o, flags, EboServerPhase::Ready),
        EboServerPhase::Ready => ready::step(o),
        EboServerPhase::PerformingBackup => performing_backup::step_with_stamp(o, stamp),
        EboServerPhase::CheckingBackup => checking_backup::step(o),
        EboServerPhase::StoppingForUpgrade => stopping::step(
            o,
            EboServerPhase::PreparingForUpgrade,
        ),
        EboServerPhase::StoppingForSpecUpdate => stopping::step(
            o,
            EboServerPhase::PreparingForSpecUpdate,
        ),
        EboServerPhase::StoppingForPasswordReset => stopping::step(
            o,
            EboServerPhase::PreparingForPasswordReset,
        ),
        EboServerPhase::PreparingForUpgrade => preparing_for_upgrade::step(o),
        EboServerPhase::PreparingForSpecUpdate => preparing_for_spec_update::step(),
        EboServerPhase::PreparingForPasswordReset => preparing_for_password_reset::step(o),
        EboServerPhase::StoppingForPVCDelete => stopping::step(o, EboServerPhase::DeletingPVC),
        EboServerPhase::StartingForRestore => starting::step(
            o,
            flags,
            EboServerPhase::StoppingForRestore,
        ),
        EboServerPhase::StoppingForRestore => stopping::step(
            o,
            EboServerPhase::PreparingForRestore,
        ),
        EboServerPhase::PreparingForRestore => preparing_for_restore::step(o),
        EboServerPhase::ResetTemporaryPassword => stopping::step(
            o,
            EboServerPhase::StoppingForPVCDelete,
        ),
        EboServerPhase::DeletingPVC => {
            if str_lt(
                o.last_reset_temporary_password.as_str(),
                o.reset_temporary_password.as_str(),
            ) {
                deleting_pvc::step(o, EboServerPhase::Starting)
            } else if str_lt(o.last_restore.as_str(), o.restore.as_str())
                && o.restore_name.as_str().unicode_len() != 0 {
                deleting_pvc::step(o, EboServerPhase::StartingForRestore)
            } else {
                starting::step(o, flags, EboServerPhase::Ready)
            }
        },
    }
}

/// Dispatches to the handler of `phase`. Only where the decision reads the
/// current time does it depend on more than its arguments, and then only
/// through a stamp of the documented shape.
pub fn step(phase: EboServerPhase, o: &Observed, flags: Flags) -> (d: Decision<EboServerPhase>)
    ensures
        !uses_backup_stamp(phase, *o) ==> d@ == phase_step_spec(phase, *o, flags, Seq::empty()),
        uses_backup_stamp(phase, *o) ==> exists|s: Seq<char>|
            backup_stamp_shape(s) && d@ == phase_step_spec(phase, *o, flags, s),
{
    match phase {
        EboServerPhase::PerformingBackup => performing_backup::step(o),
        _ => step_with_stamp(phase, o, flags, ""),
    }
}

} // verus!
