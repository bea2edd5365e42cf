use controller::clients::prometheus::client::VolumeMetric;
use controller::clients::prometheus::PrometheusClient;
use controller::clients::{log_clients, Clients};
use controller::config::models::{env_flag_enabled, AppConfig};
use controller::utils::ebo_version::ebo_version_ge;
use controller::controller::{error_requeue, ownership_gate};
use controller::crd::v1alpha6::{
    default_resources, EboAdminPasswordStatus, EboServerPhase, EboServerServiceType, EboServerStatus,
    EboServerType, EboUpgradeStatus, EboWafStatus,
};
use controller::eboserver::error::EboServerError;
use controller::interval::Interval;
use controller::eboserver::fsm::act::{backup_full_name, backup_listing_supported, final_transition, mgmt_effect_allowed, EffectQueue, Step};
use controller::eboserver::fsm::observe::{backup_ongoing, image_changed, needs_backup_query, observe, BackupOngoing, ObserveInput};
use controller::eboserver::fsm::phases::performing_backup;
use controller::eboserver::fsm::phases::step_with_stamp;
use controller::eboserver::fsm::types::{Effect, Flags, Transition};
use controller::eboserver::manager::{
    admin_password_effects, backup_listed, event_record, has_job_succeeded, has_pod_stopped, is_crash_looping,
    is_pod_ready, is_pod_running, is_pvc_pending, total_restart_count, ContainerStatusInfo, EboServerManager,
    EventType, JobInfo, JobStatusInfo, PodConditionInfo, PodInfo, PodStatusInfo, PvcInfo,
};
use controller::eboserver::reconcile::{
    get_deployed_by, get_nsp_machine_id, get_server_id, get_system_id, istio_names, round_start, RoundStart,
};
use controller::events::{Level, OperatorEvent};
use controller::metrics::reconcile::failure_labels;
use controller::strings::{after_last, str_lt, trim};

fn labels(pairs: &[(&str, &str)]) -> Vec<(String, String)> {
    pairs.iter().map(|(k, v)| (k.to_string(), v.to_string())).collect()
}

fn pod(phase: &str, ready: bool, containers: Vec<ContainerStatusInfo>) -> PodInfo {
    PodInfo {
        deletion_requested: false,
        status: Some(PodStatusInfo {
            phase: Some(phase.to_string()),
            conditions: Some(vec![PodConditionInfo {
                type_: "Ready".to_string(),
                status: if ready { "True" } else { "False" }.to_string(),
            }]),
            container_statuses: Some(containers),
        }),
    }
}

fn container(name: &str, image: &str, restarts: i32, waiting: Option<&str>) -> ContainerStatusInfo {
    ContainerStatusInfo {
        name: name.to_string(),
        image: image.to_string(),
        restart_count: restarts,
        waiting_reason: waiting.map(|s| s.to_string()),
    }
}

#[test]
fn pod_predicates_read_phase_conditions_and_containers() {
    let p = pod(
        "Running",
        true,
        vec![
            container("nsp-servers", "reg/ebo:7.1.2.44", 2, None),
            container("side", "reg/side:1", 3, Some("CrashLoopBackOff")),
        ],
    );
    assert!(is_pod_running(&p));
    assert!(is_pod_ready(&p));
    assert!(is_crash_looping(&p));
    assert_eq!(total_restart_count(&p), 5);
    assert!(!has_pod_stopped(&p));
    let stopped = pod("Succeeded", false, vec![]);
    assert!(has_pod_stopped(&stopped));
    assert!(!is_pod_ready(&stopped));
    assert_eq!(total_restart_count(&PodInfo { deletion_requested: true, status: None }), 0);
}

#[test]
fn job_and_pvc_predicates() {
    let done = JobInfo { status: Some(JobStatusInfo { succeeded: Some(1) }) };
    let running = JobInfo { status: Some(JobStatusInfo { succeeded: Some(0) }) };
    assert!(has_job_succeeded(&done));
    assert!(!has_job_succeeded(&running));
    assert!(!has_job_succeeded(&JobInfo { status: None }));
    assert!(is_pvc_pending(&PvcInfo { deletion_requested: false, phase: Some("Pending".into()) }));
    assert!(!is_pvc_pending(&PvcInfo { deletion_requested: false, phase: Some("Bound".into()) }));
}

#[test]
fn manager_reads_back_what_it_records() {
    let mut m = EboServerManager::new("ebo1".into(), "ns".into(), None, &labels(&[("systemId", "sys-1")]));
    assert_eq!(m.id, "sys-1");
    assert_eq!(*m.phase(), None);
    m.move_to(EboServerPhase::Ready);
    assert_eq!(*m.phase(), Some(EboServerPhase::Ready));
    m.set_backup_name("b1".into());
    assert_eq!(m.get_backup_name(), "b1");
    m.update_upgrade_status(EboUpgradeStatus::BackupOngoing);
    assert_eq!(m.get_upgrade_status(), EboUpgradeStatus::BackupOngoing);
    assert_eq!(m.get_waf_status(), EboWafStatus::NotReady);
    assert_eq!(m.get_admin_password_status(), EboAdminPasswordStatus::Temporary);
    assert!(!m.get_crash_loop_reported());
    m.set_crash_loop_reported(true);
    assert!(m.get_crash_loop_reported());
    assert_eq!(m.get_restore_status(), "");
    m.set_restore_status();
    let t = m.get_restore_status().to_string();
    assert!(t.len() >= 25 && t.ends_with("+00:00"));
    assert_eq!(&t[10..11], "T");
    m.set_password_reset_mode_status();
    assert!(m.get_password_reset_mode_status().ends_with("+00:00"));
    m.set_reset_temporary_password_status();
    assert!(m.get_reset_temporary_password_status().ends_with("+00:00"));
    assert_eq!(*m.phase(), Some(EboServerPhase::Ready));
}

#[test]
fn manager_without_system_id_gets_a_uuid() {
    let m = EboServerManager::new("e".into(), "n".into(), Some(EboServerStatus::default()), &labels(&[]));
    assert_eq!(m.id.len(), 36);
    let c: Vec<char> = m.id.chars().collect();
    for i in [8usize, 13, 18, 23] {
        assert_eq!(c[i], '-');
    }
    assert_eq!(c[14], '4');
    assert!(matches!(c[19], '8' | '9' | 'a' | 'b'));
    assert!(c.iter().enumerate().all(|(i, ch)| [8, 13, 18, 23].contains(&i) || ch.is_ascii_digit() || ('a'..='f').contains(ch)));
}

#[test]
fn manager_records_pod_and_image_and_version() {
    let mut m = EboServerManager::new("e".into(), "n".into(), None, &labels(&[]));
    assert_eq!(m.get_running_ebo_version(), "");
    let p = pod(
        "Running",
        true,
        vec![
            container("nsp-servers", "reg/ebo:7.1.1.132", 0, None),
            container("other", "x:1", 0, None),
            container("nsp-servers", "reg:5000/ebo:7.1.2.44", 0, None),
        ],
    );
    m.update_pod_status(Some(&p));
    assert_eq!(m.status().pod_phase.as_deref(), Some("Running"));
    assert_eq!(m.pod_image().map(|s| s.as_str()), Some("reg:5000/ebo:7.1.2.44"));
    assert_eq!(m.get_running_ebo_version(), "7.1.2.44");
    m.update_pod_status(None);
    assert_eq!(m.status().pod_phase, None);
    assert_eq!(m.pod_image().map(|s| s.as_str()), Some("reg:5000/ebo:7.1.2.44"));
}

#[test]
fn job_status_is_running_or_succeeded() {
    let mut m = EboServerManager::new("e".into(), "n".into(), None, &labels(&[]));
    m.update_upgrade_job_status(Some(&JobInfo { status: Some(JobStatusInfo { succeeded: None }) }));
    assert_eq!(m.status().upgrade_job_status.as_deref(), Some("Running"));
    m.update_restore_job_status(Some(&JobInfo { status: Some(JobStatusInfo { succeeded: Some(2) }) }));
    assert_eq!(m.status().restore_job_status.as_deref(), Some("Succeeded"));
    m.update_password_reset_job_status(None);
    assert_eq!(m.status().password_reset_job_status, None);
}

#[test]
fn events_carry_level_kind_and_message() {
    let e = event_record(OperatorEvent::BackupFailed).unwrap();
    assert_eq!(e.type_, EventType::Warning);
    assert_eq!(e.reason, "BackupFailed");
    assert_eq!(e.note, "Backup failed");
    assert_eq!(e.action, "PhaseUpdated");
    let e = event_record(OperatorEvent::PodReady).unwrap();
    assert_eq!(e.type_, EventType::Normal);
    assert_eq!(e.note, "Pod running");
    assert_eq!(OperatorEvent::UpgradeDisabled.level(), Level::Warning);
    assert_eq!(OperatorEvent::EboCreated.to_string(), "EboCreated");
    assert!(OperatorEvent::SecurityConfigHostnameAdded.send_to_k8s());
}

#[test]
fn display_names_of_the_resource_enums() {
    assert_eq!(EboServerPhase::StoppingForPVCDelete.to_string(), "StoppingForPVCDelete");
    assert_eq!(EboServerType::EdgeServer.to_string(), "CS");
    assert_eq!(EboServerType::EnterpriseCentralCloud.to_string(), "ECCC");
    assert_eq!(EboServerServiceType::ClusterIp.to_string(), "ClusterIP");
    assert_eq!(EboWafStatus::Creating.to_string(), "Creating");
    let r = default_resources();
    assert_eq!(r.limits.cpu, "350m");
    assert_eq!(r.limits.memory, "384Mi");
    assert_eq!(r.requests.cpu, "250m");
    assert_eq!(r.requests.memory, "256Mi");
}

#[test]
fn admin_password_answers_become_ordered_effects() {
    assert_eq!(
        admin_password_effects(EboAdminPasswordStatus::Active),
        vec![
            Effect::UpdatePasswordStatus(EboAdminPasswordStatus::Active),
            Effect::Publish(OperatorEvent::TemporaryPasswordActive)
        ]
    );
    assert_eq!(
        admin_password_effects(EboAdminPasswordStatus::Expired),
        vec![
            Effect::Publish(OperatorEvent::TemporaryPasswordExpired),
            Effect::UpdatePasswordStatus(EboAdminPasswordStatus::Expired)
        ]
    );
    assert!(admin_password_effects(EboAdminPasswordStatus::Temporary).is_empty());
}

#[test]
fn backups_are_found_by_exact_name() {
    let list = vec!["ebo1_010101-0101".to_string(), "other".to_string()];
    assert!(backup_listed(&list, "ebo1_010101-0101"));
    assert!(!backup_listed(&list, "ebo1_010101"));
    assert!(!backup_listed(&list, "ebo1_020202"));
    let zipped = vec!["ebo1_010101-0101.zip".to_string()];
    assert!(!backup_listed(&zipped, "ebo1_010101-0101"));
    assert_eq!(backup_full_name("ebo1", "010101-0101"), "ebo1_010101-0101");
}

#[test]
fn effect_queue_runs_last_first_and_last_listed_force_wins() {
    let mut q = EffectQueue::new(vec![
        Effect::ForcePhase(EboServerPhase::Ready),
        Effect::UpdatePodStatus,
        Effect::ForcePhase(EboServerPhase::StoppingForUpgrade),
        Effect::DeletePod,
    ]);
    assert_eq!(q.next(), Step::Run(Effect::DeletePod));
    assert_eq!(q.next(), Step::Run(Effect::UpdatePodStatus));
    assert_eq!(q.next(), Step::Finished(Some(Transition::To(EboServerPhase::StoppingForUpgrade))));
}

#[test]
fn effect_queue_force_of_last_listed_with_update_between() {
    let mut q = EffectQueue::new(vec![
        Effect::ForcePhase(EboServerPhase::Ready),
        Effect::UpdatePodStatus,
        Effect::ForcePhase(EboServerPhase::StoppingForUpgrade),
    ]);
    assert_eq!(q.next(), Step::Run(Effect::UpdatePodStatus));
    assert_eq!(q.next(), Step::Finished(Some(Transition::To(EboServerPhase::StoppingForUpgrade))));
}

#[test]
fn out_of_space_overrides_listed_force() {
    let mut q = EffectQueue::new(vec![
        Effect::ForcePhase(EboServerPhase::StoppingForUpgrade),
        Effect::UpdatePodStatus,
    ]);
    assert_eq!(q.next(), Step::Run(Effect::UpdatePodStatus));
    q.backup_space_checked(false);
    assert_eq!(q.next(), Step::Run(Effect::SetUpgradeDisabled(true)));
    assert_eq!(q.next(), Step::Run(Effect::Publish(OperatorEvent::UpgradeFailed)));
    assert_eq!(q.next(), Step::Run(Effect::Publish(OperatorEvent::OutOfSpaceBackup)));
    assert_eq!(q.next(), Step::Run(Effect::UpdateUpgradeStatus(EboUpgradeStatus::Ready)));
    assert_eq!(q.next(), Step::Finished(Some(Transition::To(EboServerPhase::Ready))));
}

#[test]
fn out_of_space_forces_ready() {
    let mut q = EffectQueue::new(vec![Effect::UpdatePodStatus]);
    q.backup_space_checked(false);
    assert_eq!(q.next(), Step::Run(Effect::SetUpgradeDisabled(true)));
    assert_eq!(q.next(), Step::Run(Effect::Publish(OperatorEvent::UpgradeFailed)));
    assert_eq!(q.next(), Step::Run(Effect::Publish(OperatorEvent::OutOfSpaceBackup)));
    assert_eq!(q.next(), Step::Run(Effect::UpdateUpgradeStatus(EboUpgradeStatus::Ready)));
    assert_eq!(q.next(), Step::Run(Effect::UpdatePodStatus));
    assert_eq!(q.next(), Step::Finished(Some(Transition::To(EboServerPhase::Ready))));
    assert_eq!(
        final_transition(Some(Transition::To(EboServerPhase::Ready)), Transition::Stay),
        Transition::To(EboServerPhase::Ready)
    );
    assert_eq!(final_transition(None, Transition::Stay), Transition::Stay);
}

#[test]
fn backup_check_outcomes() {
    let mut q = EffectQueue::new(vec![]);
    q.backup_checked(true, Some(false));
    assert_eq!(q.next(), Step::Run(Effect::UpdateUpgradeStatus(EboUpgradeStatus::BackupFailed)));
    let mut q = EffectQueue::new(vec![]);
    q.backup_checked(false, None);
    assert_eq!(q.next(), Step::Run(Effect::SetBackupName(String::new())));
    assert_eq!(q.next(), Step::Run(Effect::UpdateUpgradeStatus(EboUpgradeStatus::BackupSucceeded)));
    assert_eq!(q.next(), Step::Finished(None));
    assert!(mgmt_effect_allowed(true, true));
    assert!(!mgmt_effect_allowed(true, false));
}

#[test]
fn backup_ongoing_follows_the_query() {
    assert_eq!(backup_ongoing(false, true, EboUpgradeStatus::BackupOngoing, Some(true)), BackupOngoing::Disabled);
    assert_eq!(backup_ongoing(true, false, EboUpgradeStatus::BackupOngoing, Some(true)), BackupOngoing::Known(false));
    assert_eq!(backup_ongoing(true, true, EboUpgradeStatus::Ready, Some(true)), BackupOngoing::Known(false));
    assert_eq!(backup_ongoing(true, true, EboUpgradeStatus::BackupOngoing, Some(true)), BackupOngoing::Known(true));
    assert_eq!(backup_ongoing(true, true, EboUpgradeStatus::BackupOngoing, None), BackupOngoing::Unknown);
    assert!(needs_backup_query(true, true, EboUpgradeStatus::BackupPerformed));
    assert!(!needs_backup_query(true, true, EboUpgradeStatus::Ready));
}

#[test]
fn image_change_ignores_the_registry() {
    let rec = "old-reg/ebo:7.1".to_string();
    assert!(!image_changed(true, Some(&rec), "new-reg/ebo:7.1"));
    assert!(image_changed(true, Some(&rec), "new-reg/ebo:7.2"));
    assert!(!image_changed(false, Some(&rec), "x/ebo:7.2"));
    assert!(!image_changed(true, None, "x/ebo:7.2"));
}

#[test]
fn observe_derives_the_pod_facts() {
    let mut m = EboServerManager::new("ebo1".into(), "ns".into(), None, &labels(&[]));
    m.update_upgrade_status(EboUpgradeStatus::BackupOngoing);
    let input = ObserveInput {
        name: "ebo1".into(),
        labels: labels(&[("deployedBy", "syncer")]),
        top_server: None,
        password_reset_mode: Some("2024".into()),
        reset_temporary_password: None,
        restore: None,
        restore_name: None,
        pod: Some(pod("Running", true, vec![container("nsp-servers", "r/e:1", 4, None)])),
        init_pass_secret: None,
        data_pvc: None,
        upgrade_job: None,
        password_reset_job: None,
        restore_job: None,
        drift_detected: true,
        pvc_needs_update: true,
        expected_image: "r/e:1".into(),
        mgmt_enabled: true,
        backup_query: Some(true),
    };
    let o = observe(input, &m);
    assert_eq!(o.deployed_by, "syncer");
    assert!(!o.top_server);
    assert_eq!(o.password_reset_mode, "2024");
    assert!(o.pod_running && o.pod_ready && !o.crash_loop);
    assert_eq!(o.restart_count, 4);
    assert!(o.drift_detected);
    assert!(!o.pvc_needs_resize);
    assert!(!o.image_changed);
    assert_eq!(o.backup_ongoing, BackupOngoing::Known(true));
    assert_eq!(o.upgrade_status, EboUpgradeStatus::BackupOngoing);
}

#[test]
fn performing_backup_with_a_given_stamp() {
    let m = EboServerManager::new("ebo1".into(), "ns".into(), None, &labels(&[]));
    let input = ObserveInput {
        name: "ebo1".into(),
        labels: labels(&[]),
        top_server: Some(true),
        password_reset_mode: None,
        reset_temporary_password: None,
        restore: None,
        restore_name: None,
        pod: None,
        init_pass_secret: None,
        data_pvc: None,
        upgrade_job: None,
        password_reset_job: None,
        restore_job: None,
        drift_detected: false,
        pvc_needs_update: false,
        expected_image: String::new(),
        mgmt_enabled: true,
        backup_query: None,
    };
    let o = observe(input, &m);
    let d = performing_backup::step_with_stamp(&o, "010203-0405");
    assert_eq!(
        d.effects,
        vec![
            Effect::TryStartBackup { name: "010203-0405".into() },
            Effect::SetBackupName("010203-0405".into())
        ]
    );
    let d = step_with_stamp(EboServerPhase::PerformingBackup, &o, Flags { initial_password_enabled: false }, "s");
    assert_eq!(d.transition, Transition::Stay);
    assert_eq!(d.requeue.as_secs(), 15);
}

#[test]
fn labels_fall_back_in_order() {
    let l = labels(&[("projectId", "p"), ("systemId", "s"), ("eboserverId", "e")]);
    assert_eq!(get_system_id(&l).as_deref(), Some("p"));
    assert_eq!(get_server_id(&l).as_deref(), Some("e"));
    let l = labels(&[("systemId", "s")]);
    assert_eq!(get_server_id(&l).as_deref(), Some("s"));
    assert_eq!(get_deployed_by(&l), "<unknown>");
    let mut cfg = AppConfig::fallback();
    assert_eq!(get_nsp_machine_id(&l, &cfg.ebo), None);
    cfg.ebo.nsp_machine_id = true;
    assert_eq!(get_nsp_machine_id(&l, &cfg.ebo).as_deref(), Some("s"));
    let l = labels(&[("nspMachineId", "m"), ("systemId", "s")]);
    assert_eq!(get_nsp_machine_id(&l, &cfg.ebo).as_deref(), Some("m"));
}

#[test]
fn round_start_and_ownership() {
    match round_start(None) {
        RoundStart::Initialize { event, phase, requeue } => {
            assert_eq!(event, OperatorEvent::EboCreated);
            assert_eq!(phase, EboServerPhase::Starting);
            assert_eq!(requeue.as_secs(), 15);
        }
        other => panic!("unexpected {other:?}"),
    }
    assert_eq!(round_start(Some(EboServerPhase::Ready)), RoundStart::Run(EboServerPhase::Ready));
    assert_eq!(ownership_gate(false, "pod-1").map(|i| i.as_secs()), Some(60));
    assert_eq!(ownership_gate(false, "local-dev"), None);
    assert_eq!(ownership_gate(true, "pod-1"), None);
    assert_eq!(error_requeue().as_secs(), 5);
    let n = istio_names("ebo1", "ns1");
    assert_eq!(n.route, "ebo1");
    assert_eq!(n.certificate, "ebo1-ns1-eboserver-tls-cert");
    assert_eq!(n.listener_set, "ebo1-ns1-listener");
}

#[test]
fn clients_and_failure_labels() {
    let mut cfg = AppConfig::fallback();
    cfg.mgmt.enabled = true;
    let (on, off) = log_clients(&cfg);
    assert_eq!(on, vec!["MGMT"]);
    assert_eq!(off, vec!["Prometheus"]);
    let c = Clients::snapshot(&cfg);
    assert!(c.mgmt_enabled && !c.prometheus_enabled);
    let l = failure_labels("ebo1".into(), &EboServerError::ServerNotFound);
    assert_eq!(l.error, "server_not_found");
    assert_eq!(EboServerError::KubeError("x".into()).metric_label(), "kube_error");
}

#[test]
fn prometheus_queries() {
    assert_eq!(PrometheusClient::query_url("https://prom.example.com//"), "https://prom.example.com/api/v1/query");
    assert_eq!(PrometheusClient::backup_pvc_name("ebo1"), "ebo1-backup");
    assert_eq!(
        PrometheusClient::volume_query(VolumeMetric::Used, "ebo1-backup", "ns"),
        r#"kubelet_volume_stats_used_bytes{namespace="ns", persistentvolumeclaim="ebo1-backup"}"#
    );
}

#[test]
fn string_helpers() {
    assert_eq!(trim("  a b \t\n"), "a b");
    assert_eq!(trim("   "), "");
    assert!(str_lt("", "0"));
    assert!(str_lt("2024-01-01", "2024-02-01"));
    assert!(!str_lt("b", "a"));
    assert!(!str_lt("a", "a"));
    assert_eq!(after_last("a/b/c", '/'), "c");
    assert_eq!(after_last("abc", '/'), "abc");
}

#[test]
fn ebo_versions_compare_number_by_number() {
    assert!(ebo_version_ge("7.1.2.44", "7.1.2.44"));
    assert!(!ebo_version_ge("7.1.1.132", "7.1.2.44"));
    assert!(ebo_version_ge("7.1.10.0", "7.1.2.44"));
    assert!(ebo_version_ge("7.1.2.100", "7.1.2.44"));
    assert!(!ebo_version_ge("7.1.2", "7.1.2.44"));
    assert!(ebo_version_ge("7.1.2.44.0", "7.1.2.44"));
    assert!(ebo_version_ge("07.01.02.044", "7.1.2.44"));
    assert!(!ebo_version_ge("", "7.1.2.44"));
    assert!(!ebo_version_ge("latest", "7.1.2.44"));
}

#[test]
fn env_switches_read_true_in_any_case() {
    assert!(env_flag_enabled(Some("TRUE")));
    assert!(env_flag_enabled(Some("True")));
    assert!(!env_flag_enabled(Some("yes")));
    assert!(!env_flag_enabled(None));
}

#[test]
fn backups_are_listed_from_version_7_1_2_44() {
    assert!(backup_listing_supported("7.1.2.44"));
    assert!(backup_listing_supported("7.1.10.1"));
    assert!(backup_listing_supported("8.0"));
    assert!(!backup_listing_supported("7.1.2.43"));
    assert!(!backup_listing_supported("7.1.1.132"));
}

#[test]
fn a_forced_transition_keeps_the_decided_requeue() {
    let mut m = EboServerManager::new("e".into(), "n".into(), None, &labels(&[]));
    m.move_to(EboServerPhase::PerformingBackup);
    let r = m.finish_round(
        Some(Transition::To(EboServerPhase::Ready)),
        Transition::To(EboServerPhase::StoppingForUpgrade),
        Interval::from_secs(15),
    );
    assert_eq!(r, Interval::from_secs(15));
    assert_eq!(*m.phase(), Some(EboServerPhase::Ready));
    let r = m.finish_round(None, Transition::Stay, Interval::from_secs(60));
    assert_eq!(r, Interval::from_secs(60));
    assert_eq!(*m.phase(), Some(EboServerPhase::Ready));
    m.finish_round(None, Transition::To(EboServerPhase::Starting), Interval::from_secs(15));
    assert_eq!(*m.phase(), Some(EboServerPhase::Starting));
}

#[test]
fn trim_agrees_with_std_on_every_char() {
    for u in 0u32..=0x10FFFF {
        if let Some(c) = char::from_u32(u) {
            let s = format!("{c}x{c}");
            assert_eq!(trim(&s), s.trim(), "char {u:#x}");
        }
    }
}
