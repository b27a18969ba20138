use anchor::commands::{
    approve_artifact, compute_legal_transitions, enrich_link, get_artifact_detail,
    get_export_preview, get_project_snapshot, get_readiness_gate, transition_artifact,
};
use anchor::domain::{
    Amendment, AmendmentStatus, Approval, ApprovalType, ArtifactState, AuditEvent, DriftAlarm,
    DriftAlarmStatus, DriftAlarmType, DriftSeverity, GateStatus, LocalIdentity, TraceLink,
    TraceLinkType,
};
use anchor::export::{compile, ExportFile, ExportPackage};
use anchor::readiness_gate::{evaluate, GateRule};
use anchor::state_machine::is_legal_transition;
use anchor::store::{make_artifact, make_link, ProjectStore};
use anchor::text::{decimal_text, text_less};
use anchor::traceability::{downstream_links, upstream_links};

fn designer() -> LocalIdentity {
    LocalIdentity { id: "user-1".into(), display_name: "Designer".into() }
}

fn all_approved() -> ProjectStore {
    let mut store = ProjectStore::demo();
    for a in store.artifacts.iter_mut() {
        a.state = ArtifactState::Approved;
    }
    store
}

fn reasons(store: &ProjectStore) -> Vec<(GateRule, String)> {
    get_readiness_gate(store)
        .blocking_reasons
        .iter()
        .map(|r| (r.rule, r.subject_id.clone()))
        .collect()
}

fn alarm(severity: DriftSeverity, status: DriftAlarmStatus, node: &str) -> DriftAlarm {
    DriftAlarm {
        id: "alarm-1".into(),
        project_id: "proj-1".into(),
        alarm_type: DriftAlarmType::Traceability,
        severity,
        status,
        rule_id: "TRACE-001".into(),
        affected_node_ids: vec![node.to_string()],
        explanation: "no upstream".into(),
        remediation: "add a link".into(),
        created_at: "2026-03-13T00:00:00Z".into(),
    }
}

// ─── Demo ─────────────────────────────────────────────────

#[test]
fn demo_has_the_documented_shape() {
    let store = ProjectStore::demo();
    let ids: Vec<&str> = store.artifacts.iter().map(|a| a.id.as_str()).collect();
    assert_eq!(ids, vec!["art-const", "art-wf", "art-feat", "art-sys", "art-ux", "art-phase", "art-check", "art-drift"]);
    let states: Vec<ArtifactState> = store.artifacts.iter().map(|a| a.state).collect();
    assert_eq!(states, vec![ArtifactState::Approved, ArtifactState::Approved, ArtifactState::Approved, ArtifactState::Approved, ArtifactState::Approved, ArtifactState::Valid, ArtifactState::Complete, ArtifactState::Draft]);
    assert_eq!(store.project.artifact_ids.len(), 8);
    assert_eq!(store.project.name, "Forge Quest");
    assert_eq!(store.artifacts[5].current_version_id, "art-phase-v1");
    assert_eq!(store.versions.len(), 8);
    assert_eq!(store.versions[1].id, "art-wf-v1");
    assert_eq!(store.versions[1].content_hash, "hash-art-wf");
    assert_eq!(store.versions[1].content, "{\"placeholder\":true}");
    let approvals: Vec<&str> = store.approvals.iter().map(|a| a.id.as_str()).collect();
    assert_eq!(approvals, vec!["appr-art-wf", "appr-art-feat", "appr-art-sys", "appr-art-ux"]);
    assert_eq!(store.approvals[0].artifact_version_id, "art-wf-v1");
    assert_eq!(store.links.len(), 9);
    assert_eq!(store.links[0].id, "link-art-wf-art-const");
    assert_eq!(store.links[0].link_type, TraceLinkType::DerivesFrom);
    assert_eq!(store.links[8].link_type, TraceLinkType::InvalidatedBy);
    assert!(store.alarms.is_empty() && store.amendments.is_empty() && store.audit_events.is_empty());
    assert_eq!(store.constitution.anti_goals[1], "No pay-to-skip crafting");
    assert!(store.constitution.one_sentence_promise.contains("every recipe, material, and progression path"));
}

#[test]
fn demo_gate_is_blocked_by_lifecycle_only() {
    let store = ProjectStore::demo();
    let gate = get_readiness_gate(&store);
    assert_eq!(gate.status, GateStatus::Blocked);
    assert_eq!(
        reasons(&store),
        vec![
            (GateRule::ArtifactNotApproved, "art-phase".to_string()),
            (GateRule::ArtifactNotApproved, "art-check".to_string()),
            (GateRule::ArtifactNotApproved, "art-drift".to_string()),
        ]
    );
    assert_eq!(gate.readiness_summary, "Export is blocked until every blocking reason is resolved.");
    assert_eq!(gate.export_manifest.len(), 13);
    assert_eq!(gate.export_manifest[0], "/project.json");
    assert_eq!(gate.export_manifest[12], "/reports/execution-readiness-report.md");
}

// ─── Readiness gate ───────────────────────────────────────

#[test]
fn gate_clears_when_everything_is_approved() {
    let store = all_approved();
    let gate = get_readiness_gate(&store);
    assert_eq!(gate.status, GateStatus::Ready);
    assert!(gate.blocking_reasons.is_empty());
    assert_eq!(gate.readiness_summary, "All readiness checks pass; export is unlocked.");
}

#[test]
fn stale_artifact_blocks_twice() {
    let mut store = all_approved();
    store.artifacts[2].state = ArtifactState::Stale;
    assert_eq!(
        reasons(&store),
        vec![
            (GateRule::ArtifactNotApproved, "art-feat".to_string()),
            (GateRule::ArtifactStale, "art-feat".to_string()),
        ]
    );
}

#[test]
fn only_active_error_or_blocking_alarms_block() {
    let mut store = all_approved();
    store.alarms.push(alarm(DriftSeverity::Warning, DriftAlarmStatus::Active, "art-wf"));
    store.alarms.push(alarm(DriftSeverity::Error, DriftAlarmStatus::Resolved, "art-wf"));
    assert_eq!(get_readiness_gate(&store).status, GateStatus::Ready);
    store.alarms.push(alarm(DriftSeverity::Blocking, DriftAlarmStatus::Active, "art-wf"));
    assert_eq!(reasons(&store), vec![(GateRule::BlockingAlarmActive, "alarm-1".to_string())]);
}

#[test]
fn open_amendment_blocks() {
    let mut store = all_approved();
    for (i, status) in [AmendmentStatus::Applied, AmendmentStatus::Abandoned, AmendmentStatus::ImpactAssessed]
        .into_iter()
        .enumerate()
    {
        store.amendments.push(Amendment {
            id: format!("am-{}", i),
            project_id: "proj-1".into(),
            reason: "sharpen the promise".into(),
            status,
            created_at: "2026-03-13T00:00:00Z".into(),
        });
    }
    assert_eq!(reasons(&store), vec![(GateRule::AmendmentInProgress, "am-2".to_string())]);
}

#[test]
fn approval_of_outdated_constitution_blocks() {
    let mut store = all_approved();
    store.versions[1].constitution_version_id = "cv0".into();
    assert_eq!(reasons(&store), vec![(GateRule::ApprovalOutdated, "appr-art-wf".to_string())]);
    // An approval of a superseded version still blocks while it binds an
    // outdated constitution version.
    store.artifacts[1].current_version_id = "art-wf-v2".into();
    assert_eq!(reasons(&store), vec![(GateRule::ApprovalOutdated, "appr-art-wf".to_string())]);
    assert_eq!(get_readiness_gate(&store).status, GateStatus::Blocked);
}

#[test]
fn outdated_approvals_are_judged_against_the_project_constitution_version() {
    let mut store = all_approved();
    assert_eq!(get_readiness_gate(&store).status, GateStatus::Ready);
    store.project.current_constitution_version_id = "cv2".into();
    let outdated = reasons(&store);
    assert_eq!(outdated.len(), store.approvals.len());
    assert!(outdated.iter().all(|(rule, _)| *rule == GateRule::ApprovalOutdated));
}

#[test]
fn dangling_link_blocks() {
    let mut store = all_approved();
    store.links.push(make_link("art-ux", "art-missing", TraceLinkType::DependsOn, &designer()));
    assert_eq!(
        reasons(&store),
        vec![(GateRule::BrokenTraceLink, "link-art-ux-art-missing".to_string())]
    );
}

#[test]
fn evaluate_matches_get_readiness_gate() {
    let store = ProjectStore::demo();
    let gate = evaluate(
        &store.artifacts,
        &store.versions,
        &store.approvals,
        &store.links,
        &store.project,
        &store.alarms,
        &store.amendments,
    );
    assert_eq!(gate.status, GateStatus::Blocked);
    assert_eq!(gate.blocking_reasons.len(), 3);
}

// ─── State machine ────────────────────────────────────────

#[test]
fn legal_transitions_follow_the_lifecycle() {
    let all = [ArtifactState::Draft, ArtifactState::Complete, ArtifactState::Valid, ArtifactState::Approved, ArtifactState::Stale];
    let mut legal = vec![];
    for from in all {
        for to in all {
            if is_legal_transition(from, to) {
                legal.push((from, to));
            }
        }
    }
    assert_eq!(
        legal,
        vec![
            (ArtifactState::Draft, ArtifactState::Complete),
            (ArtifactState::Complete, ArtifactState::Valid),
            (ArtifactState::Valid, ArtifactState::Approved),
            (ArtifactState::Approved, ArtifactState::Stale),
            (ArtifactState::Stale, ArtifactState::Draft),
        ]
    );
    assert!(!is_legal_transition(ArtifactState::Draft, ArtifactState::Approved));
    assert!(!is_legal_transition(ArtifactState::Draft, ArtifactState::Valid));
    assert!(!is_legal_transition(ArtifactState::Complete, ArtifactState::Approved));
    assert!(!is_legal_transition(ArtifactState::Approved, ArtifactState::Draft));
}

#[test]
fn compute_legal_transitions_lists_targets() {
    let a = make_artifact("x", anchor::domain::ArtifactType::FeatureMap, "X", ArtifactState::Valid);
    assert_eq!(compute_legal_transitions(&a), vec![ArtifactState::Approved]);
    let b = make_artifact("y", anchor::domain::ArtifactType::FeatureMap, "Y", ArtifactState::Stale);
    assert_eq!(compute_legal_transitions(&b), vec![ArtifactState::Draft]);
    assert_eq!(a.current_version_id, "x-v1");
    assert_eq!(a.project_id, "proj-1");
}

// ─── Traceability and rows ────────────────────────────────

#[test]
fn upstream_and_downstream_links() {
    let store = ProjectStore::demo();
    let up = upstream_links(&"art-ux".to_string(), &store.links);
    let targets: Vec<&str> = up.iter().map(|l| l.target_node_id.as_str()).collect();
    assert_eq!(targets, vec!["art-wf", "art-sys"]);
    let down = downstream_links(&"art-const".to_string(), &store.links);
    let sources: Vec<&str> = down.iter().map(|l| l.source_node_id.as_str()).collect();
    assert_eq!(sources, vec!["art-wf", "art-phase", "art-drift"]);
}

#[test]
fn enrich_link_resolves_titles_or_falls_back_to_ids() {
    let store = ProjectStore::demo();
    let row = enrich_link(&store.links[0], &store.artifacts);
    assert_eq!(row.source_title, "User Fantasy + Core Workflows");
    assert_eq!(row.target_title, "Product Constitution");
    assert_eq!(row.id, "link-art-wf-art-const");
    assert_eq!(row.rationale, "Justified per constitution");
    let dangling: TraceLink = make_link("art-ux", "elsewhere", TraceLinkType::DependsOn, &designer());
    let row = enrich_link(&dangling, &store.artifacts);
    assert_eq!(row.source_title, "UX State Map");
    assert_eq!(row.target_title, "elsewhere");
}

#[test]
fn snapshot_summarises_every_artifact() {
    let mut store = ProjectStore::demo();
    store.alarms.push(alarm(DriftSeverity::Warning, DriftAlarmStatus::Active, "art-wf"));
    store.artifacts[4].state = ArtifactState::Stale;
    let snap = get_project_snapshot(&store);
    assert_eq!(snap.project.id, "proj-1");
    assert_eq!(snap.artifacts.len(), 8);
    assert_eq!(snap.gate_status, GateStatus::Blocked);
    assert_eq!(snap.stale_count, 1);
    assert_eq!(snap.active_alarm_count, 1);
    let wf = &snap.artifacts[1];
    assert_eq!(wf.id, "art-wf");
    assert_eq!(wf.version_number, 1);
    assert!(wf.has_approval);
    assert_eq!(wf.upstream_count, 1);
    assert_eq!(wf.downstream_count, 2);
    assert_eq!(wf.alarm_count, 1);
    let constitution = &snap.artifacts[0];
    assert!(!constitution.has_approval);
    assert_eq!(constitution.upstream_count, 0);
    assert_eq!(constitution.downstream_count, 3);
    assert_eq!(constitution.alarm_count, 0);
    assert_eq!(snap.artifacts[4].state, ArtifactState::Stale);
}

#[test]
fn snapshot_reports_zero_for_a_missing_version() {
    let mut store = ProjectStore::demo();
    store.artifacts[0].current_version_id = "gone".into();
    assert_eq!(get_project_snapshot(&store).artifacts[0].version_number, 0);
}

// ─── Artifact detail ──────────────────────────────────────

#[test]
fn detail_of_an_artifact() {
    let store = ProjectStore::demo();
    let detail = get_artifact_detail(&store, &"art-ux".to_string()).unwrap();
    assert_eq!(detail.artifact.title, "UX State Map");
    assert_eq!(detail.version.unwrap().id, "art-ux-v1");
    assert_eq!(detail.approval.unwrap().id, "appr-art-ux");
    let outgoing: Vec<&str> = detail.outgoing_links.iter().map(|l| l.target_title.as_str()).collect();
    assert_eq!(outgoing, vec!["User Fantasy + Core Workflows", "System Architecture"]);
    let incoming: Vec<&str> = detail.incoming_links.iter().map(|l| l.source_id.as_str()).collect();
    assert_eq!(incoming, vec!["art-phase"]);
    assert!(detail.active_alarms.is_empty());
    assert_eq!(detail.legal_transitions, vec![ArtifactState::Stale]);
}

#[test]
fn detail_of_an_unknown_artifact() {
    let store = ProjectStore::demo();
    match get_artifact_detail(&store, &"nope".to_string()) {
        Err(message) => assert_eq!(message, "Artifact not found: nope"),
        Ok(_) => panic!("expected an error"),
    }
}

fn approval_at(id: &str, artifact: &str, at: &str) -> Approval {
    Approval {
        id: id.into(),
        project_id: "proj-1".into(),
        artifact_id: artifact.into(),
        artifact_version_id: format!("{}-v1", artifact),
        artifact_content_hash: "hash".into(),
        approval_type: ApprovalType::Standard,
        approver: designer(),
        rationale: None,
        created_at: at.into(),
    }
}

#[test]
fn detail_shows_the_most_recent_approval() {
    let mut store = ProjectStore::demo();
    store.approvals.push(approval_at("late", "art-wf", "2026-03-14T00:00:00Z"));
    store.approvals.push(approval_at("early", "art-wf", "2026-03-12T00:00:00Z"));
    let detail = get_artifact_detail(&store, &"art-wf".to_string()).unwrap();
    assert_eq!(detail.approval.unwrap().id, "late");
    // Among equally recent approvals the last one wins.
    store.approvals.push(approval_at("late-again", "art-wf", "2026-03-14T00:00:00Z"));
    let detail = get_artifact_detail(&store, &"art-wf".to_string()).unwrap();
    assert_eq!(detail.approval.unwrap().id, "late-again");
    let detail = get_artifact_detail(&store, &"art-const".to_string()).unwrap();
    assert!(detail.approval.is_none());
}

#[test]
fn detail_lists_active_alarms_on_the_artifact() {
    let mut store = ProjectStore::demo();
    store.alarms.push(alarm(DriftSeverity::Info, DriftAlarmStatus::Active, "art-feat"));
    store.alarms.push(alarm(DriftSeverity::Info, DriftAlarmStatus::Resolved, "art-feat"));
    store.alarms.push(alarm(DriftSeverity::Info, DriftAlarmStatus::Active, "art-sys"));
    let detail = get_artifact_detail(&store, &"art-feat".to_string()).unwrap();
    assert_eq!(detail.active_alarms.len(), 1);
    assert_eq!(detail.active_alarms[0].status, DriftAlarmStatus::Active);
}

// ─── Mutations ────────────────────────────────────────────

#[test]
fn legal_transition_moves_the_artifact() {
    let mut store = ProjectStore::demo();
    let r = transition_artifact(&mut store, &"art-check".to_string(), ArtifactState::Valid).unwrap();
    assert!(r.success);
    assert_eq!(r.new_state, Some(ArtifactState::Valid));
    assert!(r.error.is_none());
    assert_eq!(store.artifacts[6].state, ArtifactState::Valid);
    assert_eq!(store.artifacts[6].updated_at, "2026-03-13T12:00:00Z");
    assert_eq!(store.artifacts[5].updated_at, "2026-03-13T00:00:00Z");
}

#[test]
fn illegal_transition_changes_nothing() {
    let mut store = ProjectStore::demo();
    let r = transition_artifact(&mut store, &"art-drift".to_string(), ArtifactState::Approved).unwrap();
    assert!(!r.success);
    assert!(r.new_state.is_none());
    assert_eq!(r.error.unwrap(), "Transition Draft → Approved is not legal");
    assert_eq!(store.artifacts[7].state, ArtifactState::Draft);
    assert_eq!(store.artifacts[7].updated_at, "2026-03-13T00:00:00Z");
}

#[test]
fn transition_of_an_unknown_artifact() {
    let mut store = ProjectStore::demo();
    let err = transition_artifact(&mut store, &"ghost".to_string(), ArtifactState::Complete).unwrap_err();
    assert_eq!(err, "Artifact not found: ghost");
}

#[test]
fn approving_a_valid_artifact_records_an_approval() {
    let mut store = ProjectStore::demo();
    let r = approve_artifact(&mut store, &"art-phase".to_string()).unwrap();
    assert!(r.success);
    assert_eq!(r.new_state, Some(ArtifactState::Approved));
    assert_eq!(store.approvals.len(), 5);
    let ap = &store.approvals[4];
    assert_eq!(ap.id, "appr-art-phase-4");
    assert_eq!(ap.artifact_id, "art-phase");
    assert_eq!(ap.artifact_version_id, "art-phase-v1");
    assert_eq!(ap.artifact_content_hash, "hash-art-phase");
    assert_eq!(ap.project_id, "proj-1");
    assert_eq!(ap.approver.id, "user-1");
    assert_eq!(ap.created_at, "2026-03-13T12:00:00Z");
    assert_eq!(store.artifacts[5].state, ArtifactState::Approved);
}

#[test]
fn approval_binds_the_version_content_hash() {
    let mut store = ProjectStore::demo();
    store.versions[5].content_hash = "sha-of-phase-roadmap".into();
    assert!(approve_artifact(&mut store, &"art-phase".to_string()).unwrap().success);
    assert_eq!(store.approvals[4].artifact_content_hash, "sha-of-phase-roadmap");
}

#[test]
fn approving_without_a_recorded_version_uses_the_placeholder_hash() {
    let mut store = ProjectStore::demo();
    store.artifacts[5].current_version_id = "art-phase-v2".into();
    let r = approve_artifact(&mut store, &"art-phase".to_string()).unwrap();
    assert!(r.success);
    assert_eq!(r.new_state, Some(ArtifactState::Approved));
    assert_eq!(store.approvals.len(), 5);
    assert_eq!(store.approvals[4].artifact_version_id, "art-phase-v2");
    assert_eq!(store.approvals[4].artifact_content_hash, "hash");
    assert_eq!(store.artifacts[5].state, ArtifactState::Approved);
}

#[test]
fn blocking_reasons_explain_themselves() {
    let store = ProjectStore::demo();
    let gate = get_readiness_gate(&store);
    let rule = gate.blocking_reasons[0].rule;
    assert_eq!(rule.explanation(), "A non-gate artifact is not Approved.");
    assert_eq!(rule.remediation(), "Complete, validate and approve the artifact.");
    assert_eq!(rule.provenance(), "Execution Readiness Gate: any non-gate artifact is not Approved.");
    assert_eq!(GateRule::BrokenTraceLink.remediation(), "Remove the link or point it at an existing artifact.");
}

#[test]
fn approving_requires_validity() {
    let mut store = ProjectStore::demo();
    let r = approve_artifact(&mut store, &"art-check".to_string()).unwrap();
    assert!(!r.success);
    assert_eq!(r.error.unwrap(), "Cannot approve: artifact is Complete, must be Valid");
    assert_eq!(store.approvals.len(), 4);
    assert_eq!(store.artifacts[6].state, ArtifactState::Complete);
    let err = approve_artifact(&mut store, &"ghost".to_string()).unwrap_err();
    assert_eq!(err, "Artifact not found: ghost");
}

#[test]
fn walking_the_lifecycle_clears_the_gate() {
    let mut store = ProjectStore::demo();
    let check = "art-check".to_string();
    let drift = "art-drift".to_string();
    assert!(approve_artifact(&mut store, &"art-phase".to_string()).unwrap().success);
    assert!(transition_artifact(&mut store, &check, ArtifactState::Valid).unwrap().success);
    assert!(approve_artifact(&mut store, &check).unwrap().success);
    assert!(transition_artifact(&mut store, &drift, ArtifactState::Complete).unwrap().success);
    assert!(transition_artifact(&mut store, &drift, ArtifactState::Valid).unwrap().success);
    assert_eq!(get_readiness_gate(&store).status, GateStatus::Blocked);
    assert!(approve_artifact(&mut store, &drift).unwrap().success);
    assert_eq!(get_readiness_gate(&store).status, GateStatus::Ready);
    assert_eq!(store.approvals.len(), 7);
    assert_eq!(store.approvals[6].id, "appr-art-drift-6");
}

// ─── Export ───────────────────────────────────────────────

#[test]
fn export_is_refused_while_blocked() {
    let store = ProjectStore::demo();
    let outcome = compile(&store, "{}".to_string());
    assert!(outcome.is_err());
    let preview = get_export_preview(&outcome);
    assert!(!preview.ready);
    assert!(preview.files.is_empty());
    assert_eq!(
        preview.blocked_reason.unwrap(),
        "Export is blocked until every blocking reason is resolved."
    );
    assert_eq!(preview.blocking_reasons.len(), 3);
}

#[test]
fn export_proceeds_once_ready() {
    let store = all_approved();
    let outcome = compile(&store, "{\"project\":\"Forge Quest\"}".to_string());
    let package = outcome.as_ref().unwrap();
    let paths: Vec<&str> = package.files.iter().map(|f| f.path.as_str()).collect();
    assert_eq!(
        paths,
        vec![
            "/project.json",
            "/constitution.md",
            "/artifacts/user-fantasy-workflows.md",
            "/artifacts/feature-map.md",
            "/artifacts/system-architecture.md",
            "/artifacts/ux-state-map.md",
            "/artifacts/phase-roadmap-contracts.md",
            "/artifacts/acceptance-checklists.md",
            "/artifacts/drift-alarm-definitions.md",
            "/reports/traceability-matrix.md",
            "/reports/audit-log.md",
            "/reports/drift-report.md",
            "/reports/execution-readiness-report.md",
        ]
    );
    let preview = get_export_preview(&outcome);
    assert!(preview.ready);
    assert!(preview.blocked_reason.is_none());
    assert!(preview.blocking_reasons.is_empty());
    assert_eq!(preview.files.len(), 13);
    assert_eq!(preview.files[0].size_bytes, 25);
    assert_eq!(preview.files[0].content_preview, "{\"project\":\"Forge Quest\"}");
    for (f, p) in package.files.iter().zip(preview.files.iter()) {
        assert_eq!(p.path, f.path);
        assert_eq!(p.size_bytes, f.content.len());
        assert_eq!(p.content_preview, f.content.chars().take(200).collect::<String>());
    }
}

#[test]
fn export_renders_every_page() {
    let mut store = all_approved();
    store.audit_events.push(AuditEvent {
        id: "ev-1".into(),
        project_id: "proj-1".into(),
        event_type: "artifact_approved".into(),
        subject_id: "art-wf".into(),
        created_at: "2026-03-13T12:00:00Z".into(),
    });
    store.alarms.push(alarm(DriftSeverity::Warning, DriftAlarmStatus::Resolved, "art-wf"));
    let package = compile(&store, "{}".to_string()).unwrap();
    let content = |i: usize| package.files[i].content.clone();
    assert!(content(1).starts_with("# Constitution\n\n## One-Sentence Promise\n\nForge Quest delivers"));
    assert!(content(1).contains("\n## Anti-Goals\n\n- No generic loot tables\n- No pay-to-skip crafting\n"));
    assert!(content(1).ends_with("\n\n## Failure Condition\n\nIf a player can craft endgame gear without engaging with the narrative, the system has failed\n"));
    assert_eq!(
        content(3),
        "# Feature Map\n\n- State: Approved\n- Version: art-feat-v1\n\n## Content\n\n{\"placeholder\":true}\n"
    );
    assert!(content(9).starts_with(
        "# Traceability Matrix\n\n| Source | Link | Target | Rationale |\n| --- | --- | --- | --- |\n| art-wf | derives_from | art-const | Justified per constitution |\n"
    ));
    assert_eq!(content(9).lines().count(), 4 + 9);
    assert_eq!(content(10), "# Audit Log\n\n- 2026-03-13T12:00:00Z artifact_approved art-wf\n");
    assert_eq!(
        content(11),
        "# Drift Report\n\n- [resolved] TRACE-001 (warning): no upstream Remediation: add a link\n"
    );
    assert_eq!(
        content(12),
        "# Execution Readiness Report\n\nStatus: ready\n\nAll readiness checks pass; export is unlocked.\n"
    );
}

#[test]
fn export_notes_a_missing_artifact_type() {
    let mut store = all_approved();
    store.artifacts.retain(|a| a.id != "art-feat");
    store.links.retain(|l| l.source_node_id != "art-feat" && l.target_node_id != "art-feat");
    let package = compile(&store, "{}".to_string()).unwrap();
    assert_eq!(package.files[3].content, "# Feature Map\n\nNo artifact of this type.\n");
}

#[test]
fn export_page_without_a_current_version() {
    let mut store = all_approved();
    store.artifacts[2].current_version_id = "art-feat-v9".into();
    let package = compile(&store, "{}".to_string()).unwrap();
    assert_eq!(package.files[3].content, "# Feature Map\n\n- State: Approved\n- Version: art-feat-v9\n");
}

#[test]
fn export_preview_truncates_to_two_hundred_characters() {
    let content: String = "→".repeat(250);
    let outcome = Ok(ExportPackage {
        files: vec![ExportFile { path: "/constitution.md".into(), content: content.clone() }],
    });
    let preview = get_export_preview(&outcome);
    assert_eq!(preview.files[0].size_bytes, 750);
    assert_eq!(preview.files[0].content_preview.chars().count(), 200);
    assert_eq!(preview.files[0].content_preview, "→".repeat(200));
}

// ─── Text ─────────────────────────────────────────────────

#[test]
fn text_order_and_numerals() {
    assert!(text_less(&"2026-03-12".to_string(), &"2026-03-13".to_string()));
    assert!(!text_less(&"b".to_string(), &"a".to_string()));
    assert!(text_less(&"ab".to_string(), &"abc".to_string()));
    assert!(!text_less(&"abc".to_string(), &"abc".to_string()));
    assert_eq!(decimal_text(0), "0");
    assert_eq!(decimal_text(4), "4");
    assert_eq!(decimal_text(1207), "1207");
}
