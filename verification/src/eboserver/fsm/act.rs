//! Carrying out a decision. The effects are taken from the back of a queue,
//! one at a time; `ForcePhase` effects are absorbed here and record the
//! transition that replaces the decided one. Of several `ForcePhase`
//! effects, the one that stands last in the list decides; the answers of the
//! cluster come after the whole list, so a phase they force decides over any
//! in the list. Two effects ask the cluster before they can go on, and their
//! answers push further effects onto the queue; the executor hands those
//! answers back.

use vstd::prelude::*;

use crate::crd::v1alpha6::{EboServerPhase, EboUpgradeStatus};
use crate::events::OperatorEvent;
use crate::strings::concat;
use crate::utils::ebo_version::{ebo_version_ge, version_ge};
use super::types::{Decision, Effect, Transition};

verus! {

/// What the executor is to do next.
#[derive(Debug, Clone, PartialEq, Eq)]
pub enum Step {
    /// Carry out this effect.
    Run(Effect),
    /// The queue is empty; apply this transition, when there is one, in place
    /// of the decided one.
    Finished(Option<Transition<EboServerPhase>>),
}

/// The effects still to carry out, and the transition forced so far.
pub struct EffectQueue {
    queue: Vec<Effect>,
    forced: Option<Transition<EboServerPhase>>,
}

/// The transition forced once a `ForcePhase(p)` is taken: the one forced
/// before stays, since it stood later in the list; without one, `p`'s.
pub open spec fn keep_forced(
    forced: Option<Transition<EboServerPhase>>,
    p: EboServerPhase,
) -> Option<Transition<EboServerPhase>> {
    match forced {
        Some(f) => Some(f),
        None => Some(Transition::To(p)),
    }
}

/// Taking effects from the back of `queue` until one is not a `ForcePhase`:
/// the queue left, the transition forced by then, and the effect found, if
/// any. A `ForcePhase` taken earlier stood later in the list and is kept
/// over one taken later.
pub open spec fn drain_spec(
    queue: Seq<Effect>,
    forced: Option<Transition<EboServerPhase>>,
) -> (Seq<Effect>, Option<Transition<EboServerPhase>>, Option<Effect>)
    decreases queue.len(),
{
    if queue.len() == 0 {
        (queue, forced, None)
    } else {
        match queue.last() {
            Effect::ForcePhase(p) => drain_spec(queue.drop_last(), keep_forced(forced, p)),
            e => (queue.drop_last(), forced, Some(e)),
        }
    }
}

/// The effects that follow a refusal to back up for lack of space, in the
/// order they are pushed: reset the upgrade status, announce the lack of
/// space and the failed upgrade, and disable upgrades. The server is also
/// forced back to `Ready`.
pub open spec fn out_of_space_followups() -> Seq<Effect> {
    seq![
        Effect::UpdateUpgradeStatus(EboUpgradeStatus::Ready),
        Effect::Publish(OperatorEvent::OutOfSpaceBackup),
        Effect::Publish(OperatorEvent::UpgradeFailed),
        Effect::SetUpgradeDisabled(true),
    ]
}

/// Whether the effect sets the recorded backup name to the empty name.
pub open spec fn clears_backup_name(e: Effect) -> bool {
    match e {
        Effect::SetBackupName(n) => n@.len() == 0,
        _ => false,
    }
}

impl EffectQueue {
    /// The effects still to carry out, front to back.
    pub closed spec fn pending(&self) -> Seq<Effect> {
        self.queue@
    }

    /// The transition forced so far.
    pub closed spec fn forced_so_far(&self) -> Option<Transition<EboServerPhase>> {
        self.forced
    }

    /// A queue holding the effects of a decision, with nothing forced.
    pub fn new(effects: Vec<Effect>) -> (q: EffectQueue)
        ensures
            q.pending() == effects@,
            q.forced_so_far() is None,
    {
        EffectQueue { queue: effects, forced: None }
    }

    /// A queue holding the effects of `d`, with nothing forced.
    pub fn of_decision(d: Decision<EboServerPhase>) -> (q: EffectQueue)
        ensures
            q.pending() == d.effects@,
            q.forced_so_far() is None,
    {
        EffectQueue { queue: d.effects, forced: None }
    }

    /// Takes effects from the back of the queue, absorbing `ForcePhase`
    /// effects, and hands out the first other one; once the queue is empty,
    /// says which transition was forced.
    pub fn next(&mut self) -> (s: Step)
        ensures
            ({
                let (rest, forced, found) = drain_spec(old(self).pending(), old(self).forced_so_far());
                &&& final(self).pending() == rest
                &&& final(self).forced_so_far() == forced
                &&& match found {
                    Some(e) => s == Step::Run(e),
                    None => s == Step::Finished(forced),
                }
            }),
        decreases old(self).pending().len(),
    {
        match self.queue.pop() {
            None => Step::Finished(self.forced),
            Some(Effect::ForcePhase(p)) => {
                if self.forced.is_none() {
                    self.forced = Some(Transition::To(p));
                }
                self.next()
            },
            Some(e) => Step::Run(e),
        }
    }

    /// The answer to whether there is room for a backup: when there is not,
    /// the out-of-space effects are pushed and the server is forced back to
    /// `Ready`, over any phase the list forces.
    pub fn backup_space_checked(&mut self, ok: bool)
        ensures
            ok ==> final(self).pending() == old(self).pending(),
            ok ==> final(self).forced_so_far() == old(self).forced_so_far(),
            !ok ==> final(self).pending() == old(self).pending() + out_of_space_followups(),
            !ok ==> final(self).forced_so_far() == Some(Transition::To(EboServerPhase::Ready)),
    {
        if !ok {
            self.queue.push(Effect::UpdateUpgradeStatus(EboUpgradeStatus::Ready));
            self.queue.push(Effect::Publish(OperatorEvent::OutOfSpaceBackup));
            self.queue.push(Effect::Publish(OperatorEvent::UpgradeFailed));
            self.queue.push(Effect::SetUpgradeDisabled(true));
            self.forced = Some(Transition::To(EboServerPhase::Ready));
            assert(self.queue@ =~= old(self).queue@ + out_of_space_followups());
        }
    }

    /// The answer to whether the backup was taken. When the running server is
    /// too old to list its backups it is taken to have succeeded; otherwise
    /// `listed` is whether the backup was found, `None` when the listing
    /// failed. Success pushes the `BackupSucceeded` status and then the
    /// clearing of the backup name; anything else pushes the `BackupFailed`
    /// status.
    pub fn backup_checked(&mut self, version_supported: bool, listed: Option<bool>)
        ensures
            final(self).forced_so_far() == old(self).forced_so_far(),
            (!version_supported || listed == Some(true)) ==> {
                &&& final(self).pending().len() == old(self).pending().len() + 2
                &&& final(self).pending().subrange(0, old(self).pending().len() as int)
                    == old(self).pending()
                &&& final(self).pending()[old(self).pending().len() as int]
                    == Effect::UpdateUpgradeStatus(EboUpgradeStatus::BackupSucceeded)
                &&& clears_backup_name(final(self).pending().last())
            },
            (version_supported && listed != Some(true)) ==> final(self).pending() == old(
                self,
            ).pending().push(Effect::UpdateUpgradeStatus(EboUpgradeStatus::BackupFailed)),
    {
        if !version_supported || listed == Some(true) {
            self.queue.push(Effect::UpdateUpgradeStatus(EboUpgradeStatus::BackupSucceeded));
            self.queue.push(Effect::SetBackupName(String::new()));
        } else {
            self.queue.push(Effect::UpdateUpgradeStatus(EboUpgradeStatus::BackupFailed));
        }
    }
}

/// Effects that use the management API run only while it is enabled and the
/// pod is ready; otherwise they are skipped.
pub fn mgmt_effect_allowed(mgmt_enabled: bool, pod_ready: bool) -> (r: bool)
    ensures
        r == (mgmt_enabled && pod_ready),
{
    mgmt_enabled && pod_ready
}

/// The full name of a backup on the server: the server's name, an
/// underscore, and the name part the effect carries.
pub fn backup_full_name(server: &str, part: &str) -> (r: String)
    ensures
        r@ == server@ + "_"@ + part@,
{
    let with_sep = concat(server, "_");
    concat(with_sep.as_str(), part)
}

/// Whether a server running `running_version` lists its backups, so that a
/// backup can be checked for by name: from version 7.1.2.44 on.
pub fn backup_listing_supported(running_version: &str) -> (r: bool)
    ensures
        r == version_ge(running_version@, "7.1.2.44"@),
{
    ebo_version_ge(running_version, "7.1.2.44")
}

/// The phase recorded at the end of a reconcile round that started in
/// `current`: that of the forced transition if the effects forced one, of
/// the decided one otherwise; staying keeps `current`.
pub open spec fn phase_after(
    current: Option<EboServerPhase>,
    forced: Option<Transition<EboServerPhase>>,
    decided: Transition<EboServerPhase>,
) -> Option<EboServerPhase> {
    match (match forced {
        Some(f) => f,
        None => decided,
    }) {
        Transition::Stay => current,
        Transition::To(q) => Some(q),
    }
}

/// The transition that ends a reconcile round: the forced one if the effects
/// forced one, the decided one otherwise.
pub fn final_transition(
    forced: Option<Transition<EboServerPhase>>,
    decided: Transition<EboServerPhase>,
) -> (t: Transition<EboServerPhase>)
    ensures
        t == (match forced {
            Some(f) => f,
            None => decided,
        }),
{
    match forced {
        Some(f) => f,
        None => decided,
    }
}

} // verus!
