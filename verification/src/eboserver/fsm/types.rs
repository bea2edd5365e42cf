//! The vocabulary of the state machine: transitions, effects and decisions.

use vstd::prelude::*;

use crate::crd::v1alpha6::{EboAdminPasswordStatus, EboServerPhase, EboUpgradeStatus};
use crate::events::OperatorEvent;
use crate::interval::Interval;

verus! {

/// Where the machine goes: nowhere, or to a phase.
#[derive(Debug, Clone, Copy, PartialEq, Eq)]
pub enum Transition<P> {
    Stay,
    To(P),
}

/// One thing the operator is to do on the cluster or on the server.
#[derive(Debug, Clone, PartialEq, Eq)]
pub enum Effect {
    Publish(OperatorEvent),
    UpdatePodStatus,
    SetBackupName(String),
    UpdateUpgradeJobStatus,
    UpdateUpgradeStatus(EboUpgradeStatus),
    EnsureUpgradeJob { name: String },
    TryStartBackup { name: String },
    CheckBackupSucceeded { name: String },
    UpdateRestore,
    UpdateRestoreJobStatus,
    EnsureRestoreJob { name: String, restore_name: String },
    SetUpgradeDisabled(bool),
    UpdatePasswordResetMode,
    UpdatePasswordResetJobStatus,
    EnsurePasswordResetJob { name: String },
    UpdateResetTemporaryPassword,
    UpdatePasswordStatus(EboAdminPasswordStatus),
    EnsureInitPasswordSecret,
    EnsurePod,
    DeletePod,
    DeleteInitPasswordSecret,
    DeleteDataPvc,
    CheckAdminPassword,
    UpdateCrashLoopReported(bool),
    ForcePhase(EboServerPhase),
}

/// An effect with its texts taken as character sequences.
pub enum EffectView {
    Publish(OperatorEvent),
    UpdatePodStatus,
    SetBackupName(Seq<char>),
    UpdateUpgradeJobStatus,
    UpdateUpgradeStatus(EboUpgradeStatus),
    EnsureUpgradeJob { name: Seq<char> },
    TryStartBackup { name: Seq<char> },
    CheckBackupSucceeded { name: Seq<char> },
    UpdateRestore,
    UpdateRestoreJobStatus,
    EnsureRestoreJob { name: Seq<char>, restore_name: Seq<char> },
    SetUpgradeDisabled(bool),
    UpdatePasswordResetMode,
    UpdatePasswordResetJobStatus,
    EnsurePasswordResetJob { name: Seq<char> },
    UpdateResetTemporaryPassword,
    UpdatePasswordStatus(EboAdminPasswordStatus),
    EnsureInitPasswordSecret,
    EnsurePod,
    DeletePod,
    DeleteInitPasswordSecret,
    DeleteDataPvc,
    CheckAdminPassword,
    UpdateCrashLoopReported(bool),
    ForcePhase(EboServerPhase),
}

impl View for Effect {
    type V = EffectView;

    open spec fn view(&self) -> EffectView {
        match self {
            Effect::Publish(e) => EffectView::Publish(*e),
            Effect::UpdatePodStatus => EffectView::UpdatePodStatus,
            Effect::SetBackupName(s) => EffectView::SetBackupName(s@),
            Effect::UpdateUpgradeJobStatus => EffectView::UpdateUpgradeJobStatus,
            Effect::UpdateUpgradeStatus(s) => EffectView::UpdateUpgradeStatus(*s),
            Effect::EnsureUpgradeJob { name } => EffectView::EnsureUpgradeJob { name: name@ },
            Effect::TryStartBackup { name } => EffectView::TryStartBackup { name: name@ },
            Effect::CheckBackupSucceeded { name } => EffectView::CheckBackupSucceeded {
                name: name@,
            },
            Effect::UpdateRestore => EffectView::UpdateRestore,
            Effect::UpdateRestoreJobStatus => EffectView::UpdateRestoreJobStatus,
            Effect::EnsureRestoreJob { name, restore_name } => EffectView::EnsureRestoreJob {
                name: name@,
                restore_name: restore_name@,
            },
            Effect::SetUpgradeDisabled(b) => EffectView::SetUpgradeDisabled(*b),
            Effect::UpdatePasswordResetMode => EffectView::UpdatePasswordResetMode,
            Effect::UpdatePasswordResetJobStatus => EffectView::UpdatePasswordResetJobStatus,
            Effect::EnsurePasswordResetJob { name } => EffectView::EnsurePasswordResetJob {
                name: name@,
            },
            Effect::UpdateResetTemporaryPassword => EffectView::UpdateResetTemporaryPassword,
            Effect::UpdatePasswordStatus(s) => EffectView::UpdatePasswordStatus(*s),
            Effect::EnsureInitPasswordSecret => EffectView::EnsureInitPasswordSecret,
            Effect::EnsurePod => EffectView::EnsurePod,
            Effect::DeletePod => EffectView::DeletePod,
            Effect::DeleteInitPasswordSecret => EffectView::DeleteInitPasswordSecret,
            Effect::DeleteDataPvc => EffectView::DeleteDataPvc,
            Effect::CheckAdminPassword => EffectView::CheckAdminPassword,
            Effect::UpdateCrashLoopReported(b) => EffectView::UpdateCrashLoopReported(*b),
            Effect::ForcePhase(p) => EffectView::ForcePhase(*p),
        }
    }
}

/// The views of a sequence of effects, in order.
pub open spec fn effect_views(s: Seq<Effect>) -> Seq<EffectView> {
    s.map_values(|e: Effect| e@)
}

/// Taking views commutes with appending an effect.
pub broadcast proof fn lemma_effect_views_push(s: Seq<Effect>, e: Effect)
    ensures
        #[trigger] effect_views(s.push(e)) == effect_views(s).push(e@),
{
    assert(effect_views(s.push(e)) =~= effect_views(s).push(e@));
}

/// The views of no effects are no views.
pub broadcast proof fn lemma_effect_views_empty()
    ensures
        #[trigger] effect_views(Seq::<Effect>::empty()) == Seq::<EffectView>::empty(),
{
    assert(effect_views(Seq::<Effect>::empty()) =~= Seq::<EffectView>::empty());
}

/// Both facts about taking views of effect sequences.
pub broadcast group group_effect_views {
    lemma_effect_views_push,
    lemma_effect_views_empty,
}

/// What a phase handler decides: where to go, when to look again, and the
/// effects to carry out first.
#[derive(Debug, Clone, PartialEq, Eq)]
pub struct Decision<P> {
    pub transition: Transition<P>,
    pub requeue: Interval,
    pub effects: Vec<Effect>,
}

/// A decision with its requeue interval and its effects taken by their views.
#[verifier::ext_equal]
pub struct DecisionView<P> {
    pub transition: Transition<P>,
    pub requeue: (u64, u32),
    pub effects: Seq<EffectView>,
}

impl<P> View for Decision<P> {
    type V = DecisionView<P>;

    open spec fn view(&self) -> DecisionView<P> {
        DecisionView {
            transition: self.transition,
            requeue: self.requeue@,
            effects: effect_views(self.effects@),
        }
    }
}

/// Knobs from the configuration that the machine reads.
#[derive(Debug, Clone, Copy)]
pub struct Flags {
    pub initial_password_enabled: bool,
}

} // verus!
