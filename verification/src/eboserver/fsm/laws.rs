//! What holds of every decision the machine makes, whatever was observed.

use vstd::prelude::*;

use crate::crd::v1alpha6::{EboAdminPasswordStatus, EboServerPhase, EboUpgradeStatus};
use crate::events::OperatorEvent;
use super::act::{drain_spec, keep_forced, EffectQueue, Step};
use super::observe::Observed;
use super::phases::phase_step_spec;
use super::phases::ready::{admin_password_check_due, ready_spec};
use super::types::{DecisionView, Effect, EffectView, Flags, Transition};
use super::{ready_requeue, short_requeue};
use crate::strings::seq_lt;

verus! {

/// The phases a phase can lead to.
pub open spec fn allowed_successor(from: EboServerPhase, to: EboServerPhase) -> bool {
    match from {
        EboServerPhase::Starting => to == EboServerPhase::Ready,
        EboServerPhase::Ready => to == EboServerPhase::Starting || to == EboServerPhase::Ready || to
            == EboServerPhase::StoppingForPasswordReset || to
            == EboServerPhase::ResetTemporaryPassword || to == EboServerPhase::StoppingForPVCDelete
            || to == EboServerPhase::PerformingBackup || to
            == EboServerPhase::StoppingForSpecUpdate,
        EboServerPhase::PerformingBackup => to == EboServerPhase::StoppingForUpgrade || to
            == EboServerPhase::CheckingBackup,
        EboServerPhase::CheckingBackup => to == EboServerPhase::StoppingForUpgrade || to
            == EboServerPhase::Ready,
        EboServerPhase::StoppingForUpgrade => to == EboServerPhase::PreparingForUpgrade,
        EboServerPhase::PreparingForUpgrade => to == EboServerPhase::Starting,
        EboServerPhase::StoppingForSpecUpdate => to == EboServerPhase::PreparingForSpecUpdate,
        EboServerPhase::PreparingForSpecUpdate => to == EboServerPhase::Starting,
        EboServerPhase::StoppingForPasswordReset => to == EboServerPhase::PreparingForPasswordReset,
        EboServerPhase::PreparingForPasswordReset => to == EboServerPhase::Starting,
        EboServerPhase::StoppingForPVCDelete => to == EboServerPhase::DeletingPVC,
        EboServerPhase::DeletingPVC => to == EboServerPhase::Starting || to
            == EboServerPhase::StartingForRestore || to == EboServerPhase::Ready,
        EboServerPhase::StartingForRestore => to == EboServerPhase::StoppingForRestore,
        EboServerPhase::StoppingForRestore => to == EboServerPhase::PreparingForRestore,
        EboServerPhase::PreparingForRestore => to == EboServerPhase::Starting,
        EboServerPhase::ResetTemporaryPassword => to == EboServerPhase::StoppingForPVCDelete,
    }
}

/// Whether the effect is a `ForcePhase`.
pub open spec fn is_force(e: EffectView) -> bool {
    e is ForcePhase
}

/// Whether the effect marks a backup as running.
pub open spec fn marks_backup_ongoing(e: EffectView) -> bool {
    e == EffectView::UpdateUpgradeStatus(EboUpgradeStatus::BackupOngoing)
}

/// Every decision goes to a phase its phase can lead to, or stays.
pub proof fn lemma_step_targets_allowed(
    phase: EboServerPhase,
    o: Observed,
    flags: Flags,
    stamp: Seq<char>,
)
    ensures
        match phase_step_spec(phase, o, flags, stamp).transition {
            Transition::Stay => true,
            Transition::To(p) => allowed_successor(phase, p),
        },
{
}

/// Whether no effect of the sequence forces a transition or marks a backup
/// as running.
pub open spec fn no_force_or_ongoing(s: Seq<EffectView>) -> bool {
    forall|i: int| 0 <= i < s.len() ==> !is_force(#[trigger] s[i]) && !marks_backup_ongoing(s[i])
}

proof fn lemma_ready_no_force_or_ongoing(o: Observed)
    ensures
        no_force_or_ongoing(ready_spec(o).effects),
{
    let e = ready_spec(o).effects;
    assert forall|i: int| 0 <= i < e.len() implies !is_force(#[trigger] e[i])
        && !marks_backup_ongoing(e[i]) by {}
}

/// The machine never forces a transition and never marks a backup as
/// running: forced transitions come only from carrying out effects, and a
/// backup is marked running only once the server accepted it.
pub proof fn lemma_step_never_forces_or_marks_backup(
    phase: EboServerPhase,
    o: Observed,
    flags: Flags,
    stamp: Seq<char>,
)
    ensures
        no_force_or_ongoing(phase_step_spec(phase, o, flags, stamp).effects),
{
    let e = phase_step_spec(phase, o, flags, stamp).effects;
    if phase == EboServerPhase::Ready {
        lemma_ready_no_force_or_ongoing(o);
    } else {
        assert forall|i: int| 0 <= i < e.len() implies !is_force(#[trigger] e[i])
            && !marks_backup_ongoing(e[i]) by {}
    }
}

/// Every decision looks again after fifteen or sixty seconds; after sixty
/// only when a ready server stays ready or a spec update restarts the pod.
pub proof fn lemma_step_requeue(phase: EboServerPhase, o: Observed, flags: Flags, stamp: Seq<char>)
    ensures
        phase_step_spec(phase, o, flags, stamp).requeue == short_requeue()
            || phase_step_spec(phase, o, flags, stamp).requeue == ready_requeue(),
        phase_step_spec(phase, o, flags, stamp).requeue == ready_requeue() ==> (phase
            == EboServerPhase::PreparingForSpecUpdate || (phase == EboServerPhase::Ready
            && phase_step_spec(phase, o, flags, stamp).transition is Stay)),
{
}

/// A ready server whose pod is gone always goes back to starting, at the
/// short interval, announcing the deleted pod, whatever else was observed.
pub proof fn lemma_ready_without_pod_restarts(o: Observed, flags: Flags, stamp: Seq<char>)
    requires
        o.pod is None,
    ensures
        phase_step_spec(EboServerPhase::Ready, o, flags, stamp).transition == Transition::To(
            EboServerPhase::Starting,
        ),
        phase_step_spec(EboServerPhase::Ready, o, flags, stamp).requeue == short_requeue(),
        phase_step_spec(EboServerPhase::Ready, o, flags, stamp).effects.contains(
            EffectView::Publish(OperatorEvent::PodDeleted),
        ),
{
    let e = phase_step_spec(EboServerPhase::Ready, o, flags, stamp).effects;
    assert(e[1] == EffectView::Publish(OperatorEvent::PodDeleted));
}

/// The admin-password check is asked for exactly when it is due: with the
/// pod present, the management API enabled, the pod ready and the password
/// still temporary.
pub proof fn lemma_admin_check_only_when_due(o: Observed)
    ensures
        ready_spec(o).effects.contains(EffectView::CheckAdminPassword) <==> (o.pod is Some
            && admin_password_check_due(o)),
{
    let e = ready_spec(o).effects;
    if o.pod is Some && admin_password_check_due(o) {
        assert(e[1] == EffectView::CheckAdminPassword);
    } else {
        assert forall|i: int| 0 <= i < e.len() implies e[i] != EffectView::CheckAdminPassword by {}
    }
}

/// Spec drift takes precedence over a volume resize: while drift is
/// detected, no resize is announced.
pub proof fn lemma_drift_before_resize(o: Observed)
    requires
        o.drift_detected,
    ensures
        !ready_spec(o).effects.contains(EffectView::Publish(OperatorEvent::VolumeResizeRequest)),
{
    let e = ready_spec(o).effects;
    assert forall|i: int| 0 <= i < e.len() implies e[i] != EffectView::Publish(
        OperatorEvent::VolumeResizeRequest,
    ) by {}
}

/// The phases that look at the pod record its status first.
pub proof fn lemma_pod_phases_update_pod_status_first(
    phase: EboServerPhase,
    o: Observed,
    flags: Flags,
    stamp: Seq<char>,
)
    requires
        phase == EboServerPhase::Starting || phase == EboServerPhase::Ready || phase
            == EboServerPhase::StartingForRestore || phase == EboServerPhase::StoppingForUpgrade
            || phase == EboServerPhase::StoppingForSpecUpdate || phase
            == EboServerPhase::StoppingForPasswordReset || phase
            == EboServerPhase::StoppingForPVCDelete || phase == EboServerPhase::StoppingForRestore
            || phase == EboServerPhase::ResetTemporaryPassword,
    ensures
        phase_step_spec(phase, o, flags, stamp).effects.len() > 0,
        phase_step_spec(phase, o, flags, stamp).effects[0] == EffectView::UpdatePodStatus,
{
}

/// The phase of the last `ForcePhase` in a list of effects, if it has one.
pub open spec fn last_force(s: Seq<Effect>) -> Option<EboServerPhase>
    decreases s.len(),
{
    if s.len() == 0 {
        None
    } else {
        match s.last() {
            Effect::ForcePhase(p) => Some(p),
            _ => last_force(s.drop_last()),
        }
    }
}

/// The effects other than `ForcePhase`, in the order they are carried out:
/// from the back of the queue to its front.
pub open spec fn run_order(s: Seq<Effect>) -> Seq<Effect>
    decreases s.len(),
{
    if s.len() == 0 {
        Seq::empty()
    } else {
        match s.last() {
            Effect::ForcePhase(_) => run_order(s.drop_last()),
            e => seq![e] + run_order(s.drop_last()),
        }
    }
}

/// Taking effects until the queue is empty, with nothing pushed meanwhile:
/// the effects carried out and the transition forced in the end.
pub open spec fn drain_all(
    queue: Seq<Effect>,
    forced: Option<Transition<EboServerPhase>>,
) -> (Seq<Effect>, Option<Transition<EboServerPhase>>)
    decreases queue.len(),
{
    if queue.len() == 0 {
        (Seq::empty(), forced)
    } else {
        match queue.last() {
            Effect::ForcePhase(p) => drain_all(queue.drop_last(), keep_forced(forced, p)),
            e => {
                let (rest, f) = drain_all(queue.drop_last(), forced);
                (seq![e] + rest, f)
            },
        }
    }
}

/// Emptying a queue carries out its other effects from back to front, and
/// the transition forced in the end is the one forced before, when there is
/// one, and otherwise that of the last `ForcePhase` in the list.
pub proof fn lemma_drain_all(queue: Seq<Effect>, forced: Option<Transition<EboServerPhase>>)
    ensures
        drain_all(queue, forced).0 == run_order(queue),
        drain_all(queue, forced).1 == match forced {
            Some(f) => Some(f),
            None => match last_force(queue) {
                Some(p) => Some(Transition::To(p)),
                None => None,
            },
        },
    decreases queue.len(),
{
    if queue.len() > 0 {
        match queue.last() {
            Effect::ForcePhase(p) => {
                lemma_drain_all(queue.drop_last(), keep_forced(forced, p));
            },
            _ => {
                lemma_drain_all(queue.drop_last(), forced);
            },
        }
    }
}

/// One call of `next` takes what `drain_all` takes first: the effect it
/// hands out heads the effects still to run, and the rest of the queue
/// drains to the same end.
pub proof fn lemma_next_follows_drain_all(queue: Seq<Effect>, forced: Option<Transition<EboServerPhase>>)
    ensures
        ({
            let (rest, f, found) = drain_spec(queue, forced);
            match found {
                Some(e) => drain_all(queue, forced) == ({
                    let (tail, ff) = drain_all(rest, f);
                    (seq![e] + tail, ff)
                }),
                None => drain_all(queue, forced) == (Seq::<Effect>::empty(), f) && rest.len()
                    == 0,
            }
        }),
    decreases queue.len(),
{
    if queue.len() > 0 {
        match queue.last() {
            Effect::ForcePhase(p) => {
                lemma_next_follows_drain_all(queue.drop_last(), keep_forced(forced, p));
            },
            _ => {},
        }
    }
}

/// A requested restore starts from `Ready`: with the pod present, running
/// and ready, no crash loop left to report, no password reset and no
/// temporary-password reset requested since the last ones, and a restore
/// requested after the last one (`last_restore` sorts strictly before
/// `restore`) naming a backup, the server stops for the volume deletion at
/// the short interval and announces the restore.
pub proof fn lemma_ready_starts_requested_restore(o: Observed, flags: Flags, stamp: Seq<char>)
    requires
        o.pod is Some,
        o.pod_running,
        o.pod_ready,
        !(o.crash_loop && !o.crash_loop_reported),
        !seq_lt(o.last_password_reset_mode@, o.password_reset_mode@),
        !seq_lt(o.last_reset_temporary_password@, o.reset_temporary_password@),
        seq_lt(o.last_restore@, o.restore@),
        o.restore_name@.len() > 0,
    ensures
        phase_step_spec(EboServerPhase::Ready, o, flags, stamp).transition == Transition::To(
            EboServerPhase::StoppingForPVCDelete,
        ),
        phase_step_spec(EboServerPhase::Ready, o, flags, stamp).requeue == (15u64, 0u32),
        phase_step_spec(EboServerPhase::Ready, o, flags, stamp).effects.contains(
            EffectView::Publish(OperatorEvent::RestoreInitiated),
        ),
{
    let d = phase_step_spec(EboServerPhase::Ready, o, flags, stamp);
    assert(d.effects[d.effects.len() - 1] == EffectView::Publish(OperatorEvent::RestoreInitiated));
}

/// `Ready` stops for the volume deletion only for a restore: the pod is
/// ready and a restore naming a backup was requested after the last one.
pub proof fn lemma_ready_pvc_delete_only_for_restore(o: Observed, flags: Flags, stamp: Seq<char>)
    ensures
        phase_step_spec(EboServerPhase::Ready, o, flags, stamp).transition == Transition::To(
            EboServerPhase::StoppingForPVCDelete,
        ) ==> o.pod_ready && seq_lt(o.last_restore@, o.restore@) && o.restore_name@.len() > 0,
{
}

/// The starting phases move on exactly when the pod is ready: with a pod
/// present, `Starting` goes to `Ready` and `StartingForRestore` to
/// `StoppingForRestore` if and only if the pod is ready, and a pod that is
/// not ready (running or not) means staying. Without a pod the phase stays
/// and the pod is created.
pub proof fn lemma_starting_moves_on_exactly_when_ready(
    phase: EboServerPhase,
    o: Observed,
    flags: Flags,
    stamp: Seq<char>,
)
    requires
        phase == EboServerPhase::Starting || phase == EboServerPhase::StartingForRestore,
    ensures
        o.pod is Some ==> ((phase_step_spec(phase, o, flags, stamp).transition is To)
            <==> o.pod_ready),
        o.pod is Some && !o.pod_ready ==> phase_step_spec(phase, o, flags, stamp).transition
            == Transition::<EboServerPhase>::Stay,
        o.pod is Some && o.pod_ready ==> phase_step_spec(phase, o, flags, stamp).transition
            == Transition::To(
            if phase == EboServerPhase::Starting {
                EboServerPhase::Ready
            } else {
                EboServerPhase::StoppingForRestore
            },
        ),
        o.pod is None ==> phase_step_spec(phase, o, flags, stamp).transition == Transition::<
            EboServerPhase,
        >::Stay && phase_step_spec(phase, o, flags, stamp).effects.contains(EffectView::EnsurePod),
{
    let d = phase_step_spec(phase, o, flags, stamp);
    if o.pod is None {
        assert(d.effects[d.effects.len() - 2] == EffectView::EnsurePod);
    }
}

/// No password reset, temporary-password reset or restore is to start
/// from `Ready`: the pod is not ready, or none was requested after the last
/// one carried out (a restore also needs a backup name).
pub open spec fn no_request_to_start(o: Observed) -> bool {
    !o.pod_ready || (!seq_lt(o.last_password_reset_mode@, o.password_reset_mode@) && !seq_lt(
        o.last_reset_temporary_password@,
        o.reset_temporary_password@,
    ) && !(seq_lt(o.last_restore@, o.restore@) && o.restore_name@.len() > 0))
}

/// What `Ready` does with a pod present, in order of priority: a pod that
/// is not running waits; a crash loop not yet reported is reported; a
/// password reset requested after the last one starts, then a
/// temporary-password reset; with nothing of that kind to start, drift with
/// a changed image starts an upgrade through a backup (unless upgrades are
/// disabled), other drift and a volume resize stop for a spec update, and
/// otherwise the server stays ready and looks again after sixty seconds.
pub proof fn lemma_ready_priorities(o: Observed, flags: Flags, stamp: Seq<char>)
    requires
        o.pod is Some,
    ensures
        ({
            let d = phase_step_spec(EboServerPhase::Ready, o, flags, stamp);
            let calm = o.pod_running && !(o.crash_loop && !o.crash_loop_reported);
            &&& !o.pod_running ==> d.transition == Transition::<EboServerPhase>::Stay && d.requeue
                == (15u64, 0u32)
            &&& o.pod_running && o.crash_loop && !o.crash_loop_reported ==> d.transition
                == Transition::<EboServerPhase>::Stay && d.effects.contains(
                EffectView::Publish(OperatorEvent::CrashLoopDetected),
            ) && d.effects.contains(EffectView::UpdateCrashLoopReported(true))
            &&& calm && o.pod_ready && seq_lt(o.last_password_reset_mode@, o.password_reset_mode@)
                ==> d.transition == Transition::To(EboServerPhase::StoppingForPasswordReset)
                && d.effects.contains(EffectView::Publish(OperatorEvent::PasswordResetInitiated))
            &&& calm && o.pod_ready && !seq_lt(
                o.last_password_reset_mode@,
                o.password_reset_mode@,
            ) && seq_lt(o.last_reset_temporary_password@, o.reset_temporary_password@)
                ==> d.transition == Transition::To(EboServerPhase::ResetTemporaryPassword)
                && d.effects.contains(EffectView::DeleteInitPasswordSecret)
            &&& calm && no_request_to_start(o) && o.drift_detected && o.image_changed
                && !o.upgrade_disabled ==> d.transition == Transition::To(
                EboServerPhase::PerformingBackup,
            ) && d.effects.contains(EffectView::Publish(OperatorEvent::ImageUpgrade))
            &&& calm && no_request_to_start(o) && o.drift_detected && !o.image_changed
                ==> d.transition == Transition::To(EboServerPhase::StoppingForSpecUpdate)
                && d.effects.contains(EffectView::Publish(OperatorEvent::SpecDriftDetected))
            &&& calm && no_request_to_start(o) && !o.drift_detected && o.pvc_needs_resize
                ==> d.transition == Transition::To(EboServerPhase::StoppingForSpecUpdate)
                && d.effects.contains(EffectView::Publish(OperatorEvent::VolumeResizeRequest))
            &&& calm && no_request_to_start(o) && !o.drift_detected && !o.pvc_needs_resize
                ==> d.transition == Transition::<EboServerPhase>::Stay && d.requeue == (
                60u64,
                0u32,
            )
        }),
{
    let d = phase_step_spec(EboServerPhase::Ready, o, flags, stamp);
    let n = d.effects.len() as int;
    let calm = o.pod_running && !(o.crash_loop && !o.crash_loop_reported);
    if o.pod_running && o.crash_loop && !o.crash_loop_reported {
        assert(d.effects[n - 2] == EffectView::Publish(OperatorEvent::CrashLoopDetected));
        assert(d.effects[n - 1] == EffectView::UpdateCrashLoopReported(true));
    } else if calm && o.pod_ready && seq_lt(o.last_password_reset_mode@, o.password_reset_mode@) {
        assert(d.effects[n - 1] == EffectView::Publish(OperatorEvent::PasswordResetInitiated));
    } else if calm && o.pod_ready && seq_lt(
        o.last_reset_temporary_password@,
        o.reset_temporary_password@,
    ) {
        assert(d.effects[n - 1] == EffectView::DeleteInitPasswordSecret);
    } else if calm && no_request_to_start(o) && o.drift_detected && o.image_changed
        && !o.upgrade_disabled {
        assert(d.effects[n - 1] == EffectView::Publish(OperatorEvent::ImageUpgrade));
    } else if calm && no_request_to_start(o) && o.drift_detected && !o.image_changed {
        assert(d.effects[n - 1] == EffectView::Publish(OperatorEvent::SpecDriftDetected));
    } else if calm && no_request_to_start(o) && !o.drift_detected && o.pvc_needs_resize {
        assert(d.effects[n - 1] == EffectView::Publish(OperatorEvent::VolumeResizeRequest));
    }
}

/// Stopping the pod: a stopping phase moves on exactly when the pod is
/// gone, or is terminating and has stopped; a present pod that is not yet
/// terminating is deleted.
pub proof fn lemma_stopping_moves_on_once_pod_is_down(
    phase: EboServerPhase,
    o: Observed,
    flags: Flags,
    stamp: Seq<char>,
)
    requires
        phase == EboServerPhase::StoppingForUpgrade || phase
            == EboServerPhase::StoppingForSpecUpdate || phase
            == EboServerPhase::StoppingForPasswordReset || phase
            == EboServerPhase::StoppingForPVCDelete || phase == EboServerPhase::StoppingForRestore
            || phase == EboServerPhase::ResetTemporaryPassword,
    ensures
        (phase_step_spec(phase, o, flags, stamp).transition is To) <==> (o.pod is None || (
        o.pod_terminating && o.pod_stopped)),
        o.pod is Some && !o.pod_terminating ==> phase_step_spec(
            phase,
            o,
            flags,
            stamp,
        ).effects.contains(EffectView::DeletePod),
{
    let d = phase_step_spec(phase, o, flags, stamp);
    if o.pod is Some && !o.pod_terminating {
        assert(d.effects[d.effects.len() - 2] == EffectView::DeletePod);
    }
}

} // verus!
