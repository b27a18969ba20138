//! Markdown renderings of the export package.
//!
//! Every renderer is stated as a spec function over the project's data; the
//! executable renderers produce exactly that text.

use vstd::prelude::*;
use vstd::string::*;
use crate::domain::{
    Artifact, ArtifactState, ArtifactType, ArtifactVersion, AuditEvent, Constitution, DriftAlarm,
    DriftAlarmStatus, DriftSeverity, GateStatus, TraceLink, TraceLinkType,
};
use crate::readiness_gate::{BlockingReason, GateRule};
use crate::traceability::{find_version, version_with_id};

verus! {

/// The name of a lifecycle state, as the shell displays it.
pub open spec fn state_name(state: ArtifactState) -> Seq<char> {
    match state {
        ArtifactState::Draft => "Draft"@,
        ArtifactState::Complete => "Complete"@,
        ArtifactState::Valid => "Valid"@,
        ArtifactState::Approved => "Approved"@,
        ArtifactState::Stale => "Stale"@,
    }
}

pub fn state_name_str(state: ArtifactState) -> (name: &'static str)
    ensures
        name@ == state_name(state),
{
    match state {
        ArtifactState::Draft => "Draft",
        ArtifactState::Complete => "Complete",
        ArtifactState::Valid => "Valid",
        ArtifactState::Approved => "Approved",
        ArtifactState::Stale => "Stale",
    }
}

/// The name of a trace link type, as the handbook writes it.
pub open spec fn link_type_name(value: TraceLinkType) -> Seq<char> {
    match value {
        TraceLinkType::Justifies => "justifies"@,
        TraceLinkType::DerivesFrom => "derives_from"@,
        TraceLinkType::Implements => "implements"@,
        TraceLinkType::DependsOn => "depends_on"@,
        TraceLinkType::ValidatedBy => "validated_by"@,
        TraceLinkType::InvalidatedBy => "invalidated_by"@,
    }
}

pub fn link_type_str(value: TraceLinkType) -> (name: &'static str)
    ensures
        name@ == link_type_name(value),
{
    match value {
        TraceLinkType::Justifies => "justifies",
        TraceLinkType::DerivesFrom => "derives_from",
        TraceLinkType::Implements => "implements",
        TraceLinkType::DependsOn => "depends_on",
        TraceLinkType::ValidatedBy => "validated_by",
        TraceLinkType::InvalidatedBy => "invalidated_by",
    }
}

/// Each trace link type is named as the handbook writes it, and distinct link
/// types get distinct names, so the matrix never reports one type as another.
pub proof fn link_types_carry_handbook_names(a: TraceLinkType, b: TraceLinkType)
    ensures
        link_type_name(TraceLinkType::Justifies) == "justifies"@,
        link_type_name(TraceLinkType::DerivesFrom) == "derives_from"@,
        link_type_name(TraceLinkType::Implements) == "implements"@,
        link_type_name(TraceLinkType::DependsOn) == "depends_on"@,
        link_type_name(TraceLinkType::ValidatedBy) == "validated_by"@,
        link_type_name(TraceLinkType::InvalidatedBy) == "invalidated_by"@,
        a != b ==> link_type_name(a) != link_type_name(b),
{
    reveal_strlit("justifies");
    reveal_strlit("derives_from");
    reveal_strlit("implements");
    reveal_strlit("depends_on");
    reveal_strlit("validated_by");
    reveal_strlit("invalidated_by");
    if a != b {
        let na = link_type_name(a);
        let nb = link_type_name(b);
        if na.len() == nb.len() {
            assert(na[0] != nb[0] || na[na.len() - 1] != nb[nb.len() - 1] || na[1] != nb[1]);
        }
    }
}

/// The name of a drift alarm severity.
pub open spec fn severity_name(value: DriftSeverity) -> Seq<char> {
    match value {
        DriftSeverity::Info => "info"@,
        DriftSeverity::Warning => "warning"@,
        DriftSeverity::Error => "error"@,
        DriftSeverity::Blocking => "blocking"@,
    }
}

pub fn severity_str(value: DriftSeverity) -> (name: &'static str)
    ensures
        name@ == severity_name(value),
{
    match value {
        DriftSeverity::Info => "info",
        DriftSeverity::Warning => "warning",
        DriftSeverity::Error => "error",
        DriftSeverity::Blocking => "blocking",
    }
}

/// The name of a drift alarm status.
pub open spec fn alarm_status_name(value: DriftAlarmStatus) -> Seq<char> {
    match value {
        DriftAlarmStatus::Active => "active"@,
        DriftAlarmStatus::Resolved => "resolved"@,
    }
}

pub fn alarm_status_str(value: DriftAlarmStatus) -> (name: &'static str)
    ensures
        name@ == alarm_status_name(value),
{
    match value {
        DriftAlarmStatus::Active => "active",
        DriftAlarmStatus::Resolved => "resolved",
    }
}

/// The name of a readiness gate status.
pub open spec fn gate_status_name(value: GateStatus) -> Seq<char> {
    match value {
        GateStatus::Ready => "ready"@,
        GateStatus::Blocked => "blocked"@,
    }
}

pub fn gate_status_str(value: GateStatus) -> (name: &'static str)
    ensures
        name@ == gate_status_name(value),
{
    match value {
        GateStatus::Ready => "ready",
        GateStatus::Blocked => "blocked",
    }
}

/// The name of a rule of the readiness gate.
pub open spec fn gate_rule_name(value: GateRule) -> Seq<char> {
    match value {
        GateRule::ArtifactNotApproved => "artifact_not_approved"@,
        GateRule::ArtifactStale => "artifact_stale"@,
        GateRule::BlockingAlarmActive => "blocking_alarm_active"@,
        GateRule::AmendmentInProgress => "amendment_in_progress"@,
        GateRule::ApprovalOutdated => "approval_outdated"@,
        GateRule::BrokenTraceLink => "broken_trace_link"@,
    }
}

pub fn gate_rule_str(value: GateRule) -> (name: &'static str)
    ensures
        name@ == gate_rule_name(value),
{
    match value {
        GateRule::ArtifactNotApproved => "artifact_not_approved",
        GateRule::ArtifactStale => "artifact_stale",
        GateRule::BlockingAlarmActive => "blocking_alarm_active",
        GateRule::AmendmentInProgress => "amendment_in_progress",
        GateRule::ApprovalOutdated => "approval_outdated",
        GateRule::BrokenTraceLink => "broken_trace_link",
    }
}

/// The display title of an artifact type.
pub open spec fn artifact_type_title(value: ArtifactType) -> Seq<char> {
    match value {
        ArtifactType::UserFantasyWorkflows => "User Fantasy + Core Workflows"@,
        ArtifactType::FeatureMap => "Feature Map"@,
        ArtifactType::SystemArchitecture => "System Architecture"@,
        ArtifactType::UxStateMap => "UX State Map"@,
        ArtifactType::PhaseRoadmapContracts => "Phase Roadmap + Contracts"@,
        ArtifactType::AcceptanceChecklists => "Acceptance Checklists"@,
        ArtifactType::DriftAlarmDefinitions => "Drift Alarm Definitions"@,
        ArtifactType::Constitution => "Product Constitution"@,
        ArtifactType::ExecutionReadinessGate => "Execution Readiness Gate"@,
    }
}

pub fn artifact_type_title_str(value: ArtifactType) -> (name: &'static str)
    ensures
        name@ == artifact_type_title(value),
{
    match value {
        ArtifactType::UserFantasyWorkflows => "User Fantasy + Core Workflows",
        ArtifactType::FeatureMap => "Feature Map",
        ArtifactType::SystemArchitecture => "System Architecture",
        ArtifactType::UxStateMap => "UX State Map",
        ArtifactType::PhaseRoadmapContracts => "Phase Roadmap + Contracts",
        ArtifactType::AcceptanceChecklists => "Acceptance Checklists",
        ArtifactType::DriftAlarmDefinitions => "Drift Alarm Definitions",
        ArtifactType::Constitution => "Product Constitution",
        ArtifactType::ExecutionReadinessGate => "Execution Readiness Gate",
    }
}

/// The concatenation of `line(x)` for every `x` of `items`, in order.
pub open spec fn lines<T>(items: Seq<T>, line: spec_fn(T) -> Seq<char>) -> Seq<char>
    decreases items.len(),
{
    if items.len() == 0 {
        Seq::empty()
    } else {
        lines(items.drop_last(), line) + line(items.last())
    }
}

pub proof fn lemma_lines_take_succ<T>(items: Seq<T>, line: spec_fn(T) -> Seq<char>, i: int)
    requires
        0 <= i < items.len(),
    ensures
        lines(items.take(i + 1), line) == lines(items.take(i), line) + line(items[i]),
{
    assert(items.take(i + 1).drop_last() =~= items.take(i));
}

pub proof fn lemma_lines_all<T>(items: Seq<T>, line: spec_fn(T) -> Seq<char>)
    ensures
        lines(items.take(items.len() as int), line) == lines(items, line),
        lines(items.take(0), line) == Seq::<char>::empty(),
{
    assert(items.take(items.len() as int) =~= items);
    assert(items.take(0) =~= Seq::<T>::empty());
}

// ─── Constitution ──────────────────────────────────────────

pub open spec fn bullet_line() -> spec_fn(String) -> Seq<char> {
    |item: String| "- "@ + item@ + "\n"@
}

/// `/constitution.md`.
pub open spec fn constitution_markdown(c: Constitution) -> Seq<char> {
    "# Constitution\n\n## One-Sentence Promise\n\n"@ + c.one_sentence_promise@
        + "\n\n## User Fantasy\n\n"@ + c.user_fantasy@
        + "\n\n## Non-Negotiable Outcomes\n\n"@ + lines(c.non_negotiable_outcomes@, bullet_line())
        + "\n## Anti-Goals\n\n"@ + lines(c.anti_goals@, bullet_line())
        + "\n## Quality Bar\n\n"@ + c.quality_bar@
        + "\n\n## Failure Condition\n\n"@ + c.failure_condition@ + "\n"@
}

fn append_bullets(text: String, items: &Vec<String>) -> (out: String)
    ensures
        out@ == text@ + lines(items@, bullet_line()),
{
    let mut out = text;
    let ghost start = out@;
    let mut i: usize = 0;
    proof {
        lemma_lines_all(items@, bullet_line());
    }
    while i < items.len()
        invariant
            0 <= i <= items.len(),
            out@ == start + lines(items@.take(i as int), bullet_line()),
        decreases items.len() - i,
    {
        proof {
            lemma_lines_take_succ(items@, bullet_line(), i as int);
        }
        out = out.concat("- ").concat(items[i].as_str()).concat("\n");
        i = i + 1;
    }
    proof {
        lemma_lines_all(items@, bullet_line());
    }
    out
}

/// Renders `/constitution.md`.
pub fn render_constitution(c: &Constitution) -> (text: String)
    ensures
        text@ == constitution_markdown(*c),
{
    let text = "# Constitution\n\n## One-Sentence Promise\n\n".to_owned().concat(c.one_sentence_promise.as_str())
        .concat("\n\n## User Fantasy\n\n").concat(c.user_fantasy.as_str())
        .concat("\n\n## Non-Negotiable Outcomes\n\n");
    let text = append_bullets(text, &c.non_negotiable_outcomes).concat("\n## Anti-Goals\n\n");
    let text = append_bullets(text, &c.anti_goals).concat("\n## Quality Bar\n\n").concat(
        c.quality_bar.as_str(),
    ).concat("\n\n## Failure Condition\n\n").concat(c.failure_condition.as_str()).concat("\n");
    assert(text@ =~= constitution_markdown(*c));
    text
}

// ─── Artifacts ─────────────────────────────────────────────

/// `i` is the first position in `artifacts` of an artifact of type `t`.
pub open spec fn is_first_of_type(artifacts: Seq<Artifact>, t: ArtifactType, i: int) -> bool {
    &&& 0 <= i < artifacts.len()
    &&& artifacts[i].artifact_type == t
    &&& forall|j: int| 0 <= j < i ==> artifacts[j].artifact_type != t
}

/// The first artifact of type `t`, if there is one.
pub open spec fn artifact_of_type(artifacts: Seq<Artifact>, t: ArtifactType) -> Option<Artifact> {
    if exists|i: int| 0 <= i < artifacts.len() && artifacts[i].artifact_type == t {
        Some(artifacts[choose|i: int| is_first_of_type(artifacts, t, i)])
    } else {
        None
    }
}

fn find_artifact_of_type(artifacts: &Vec<Artifact>, t: ArtifactType) -> (found: Option<usize>)
    ensures
        found matches Some(i) ==> i < artifacts@.len() && artifact_of_type(artifacts@, t) == Some(artifacts@[i as int]),
        found is None ==> artifact_of_type(artifacts@, t) is None,
{
    let mut i: usize = 0;
    while i < artifacts.len()
        invariant
            0 <= i <= artifacts.len(),
            forall|j: int| 0 <= j < i ==> artifacts@[j].artifact_type != t,
        decreases artifacts.len() - i,
    {
        if artifacts[i].artifact_type == t {
            proof {
                assert(is_first_of_type(artifacts@, t, i as int));
                let k = choose|k: int| is_first_of_type(artifacts@, t, k);
                assert(is_first_of_type(artifacts@, t, k));
                if k < i {
                    assert(artifacts@[k].artifact_type != t);
                } else if i < k {
                    assert(artifacts@[i as int].artifact_type != t);
                }
            }
            return Some(i);
        }
        i = i + 1;
    }
    None
}

/// The page of one artifact: its title, state and current version, and that
/// version's content when the version exists.
pub open spec fn artifact_page(a: Artifact, versions: Seq<ArtifactVersion>) -> Seq<char> {
    "# "@ + a.title@ + "\n\n- State: "@ + state_name(a.state) + "\n- Version: "@ + a.current_version_id@
        + "\n"@ + match version_with_id(versions, a.current_version_id@) {
        Some(v) => "\n## Content\n\n"@ + v.content@ + "\n"@,
        None => Seq::empty(),
    }
}

/// `/artifacts/<type>.md`: the page of the first artifact of type `t`, or a
/// note that the project has none.
pub open spec fn artifact_markdown(artifacts: Seq<Artifact>, versions: Seq<ArtifactVersion>, t: ArtifactType) -> Seq<char> {
    match artifact_of_type(artifacts, t) {
        Some(a) => artifact_page(a, versions),
        None => "# "@ + artifact_type_title(t) + "\n\nNo artifact of this type.\n"@,
    }
}

/// Renders the page of the artifacts of type `t`.
pub fn render_artifact(artifacts: &Vec<Artifact>, versions: &Vec<ArtifactVersion>, t: ArtifactType) -> (text: String)
    ensures
        text@ == artifact_markdown(artifacts@, versions@, t),
{
    match find_artifact_of_type(artifacts, t) {
        Some(i) => {
            let a = &artifacts[i];
            let text = "# ".to_owned().concat(a.title.as_str()).concat("\n\n- State: ").concat(
                state_name_str(a.state),
            ).concat("\n- Version: ").concat(a.current_version_id.as_str()).concat("\n");
            let text = match find_version(versions, &a.current_version_id) {
                Some(v) => text.concat("\n## Content\n\n").concat(v.content.as_str()).concat("\n"),
                None => text,
            };
            assert(text@ =~= artifact_markdown(artifacts@, versions@, t));
            text
        },
        None => {
            let text = "# ".to_owned().concat(artifact_type_title_str(t)).concat("\n\nNo artifact of this type.\n");
            assert(text@ =~= artifact_markdown(artifacts@, versions@, t));
            text
        },
    }
}

// ─── Reports ───────────────────────────────────────────────

pub open spec fn matrix_row() -> spec_fn(TraceLink) -> Seq<char> {
    |l: TraceLink|
        "| "@ + l.source_node_id@ + " | "@ + link_type_name(l.link_type) + " | "@ + l.target_node_id@ + " | "@
            + l.rationale@ + " |\n"@
}

fn render_matrix_row(l: &TraceLink) -> (line: String)
    ensures
        line@ == matrix_row()(*l),
{
    let line = "| ".to_owned().concat(l.source_node_id.as_str()).concat(" | ").concat(link_type_str(l.link_type))
        .concat(" | ").concat(l.target_node_id.as_str()).concat(" | ").concat(l.rationale.as_str()).concat(" |\n");
    assert(line@ =~= matrix_row()(*l));
    line
}

/// `/reports/traceability-matrix.md`: one table row per trace link.
pub open spec fn traceability_markdown(links: Seq<TraceLink>) -> Seq<char> {
    "# Traceability Matrix\n\n| Source | Link | Target | Rationale |\n| --- | --- | --- | --- |\n"@ + lines(links, matrix_row())
}

/// Renders `/reports/traceability-matrix.md`.
pub fn render_traceability(links: &Vec<TraceLink>) -> (text: String)
    ensures
        text@ == traceability_markdown(links@),
{
    let mut text = "# Traceability Matrix\n\n| Source | Link | Target | Rationale |\n| --- | --- | --- | --- |\n".to_owned();
    let ghost start = text@;
    let mut i: usize = 0;
    proof {
        lemma_lines_all(links@, matrix_row());
    }
    while i < links.len()
        invariant
            0 <= i <= links.len(),
            text@ == start + lines(links@.take(i as int), matrix_row()),
        decreases links.len() - i,
    {
        proof {
            lemma_lines_take_succ(links@, matrix_row(), i as int);
        }
        let line = render_matrix_row(&links[i]);
        text = text.concat(line.as_str());
        i = i + 1;
    }
    proof {
        lemma_lines_all(links@, matrix_row());
    }
    text
}

pub open spec fn audit_line() -> spec_fn(AuditEvent) -> Seq<char> {
    |e: AuditEvent| "- "@ + e.created_at@ + " "@ + e.event_type@ + " "@ + e.subject_id@ + "\n"@
}

/// `/reports/audit-log.md`: one line per audit event.
pub open spec fn audit_markdown(events: Seq<AuditEvent>) -> Seq<char> {
    "# Audit Log\n\n"@ + lines(events, audit_line())
}

/// Renders `/reports/audit-log.md`.
pub fn render_audit_log(events: &Vec<AuditEvent>) -> (text: String)
    ensures
        text@ == audit_markdown(events@),
{
    let mut text = "# Audit Log\n\n".to_owned();
    let ghost start = text@;
    let mut i: usize = 0;
    proof {
        lemma_lines_all(events@, audit_line());
    }
    while i < events.len()
        invariant
            0 <= i <= events.len(),
            text@ == start + lines(events@.take(i as int), audit_line()),
        decreases events.len() - i,
    {
        proof {
            lemma_lines_take_succ(events@, audit_line(), i as int);
        }
        let e = &events[i];
        text = text.concat("- ").concat(e.created_at.as_str()).concat(" ").concat(e.event_type.as_str()).concat(
            " ",
        ).concat(e.subject_id.as_str()).concat("\n");
        i = i + 1;
    }
    proof {
        lemma_lines_all(events@, audit_line());
    }
    text
}

pub open spec fn drift_line() -> spec_fn(DriftAlarm) -> Seq<char> {
    |a: DriftAlarm|
        "- ["@ + alarm_status_name(a.status) + "] "@ + a.rule_id@ + " ("@ + severity_name(a.severity) + "): "@
            + a.explanation@ + " Remediation: "@ + a.remediation@ + "\n"@
}

fn render_drift_line(a: &DriftAlarm) -> (line: String)
    ensures
        line@ == drift_line()(*a),
{
    let line = "- [".to_owned().concat(alarm_status_str(a.status)).concat("] ").concat(a.rule_id.as_str()).concat(
        " (",
    ).concat(severity_str(a.severity)).concat("): ").concat(a.explanation.as_str()).concat(" Remediation: ").concat(
        a.remediation.as_str(),
    ).concat("\n");
    assert(line@ =~= drift_line()(*a));
    line
}

/// `/reports/drift-report.md`: one line per drift alarm.
pub open spec fn drift_markdown(alarms: Seq<DriftAlarm>) -> Seq<char> {
    "# Drift Report\n\n"@ + lines(alarms, drift_line())
}

/// Renders `/reports/drift-report.md`.
pub fn render_drift_report(alarms: &Vec<DriftAlarm>) -> (text: String)
    ensures
        text@ == drift_markdown(alarms@),
{
    let mut text = "# Drift Report\n\n".to_owned();
    let ghost start = text@;
    let mut i: usize = 0;
    proof {
        lemma_lines_all(alarms@, drift_line());
    }
    while i < alarms.len()
        invariant
            0 <= i <= alarms.len(),
            text@ == start + lines(alarms@.take(i as int), drift_line()),
        decreases alarms.len() - i,
    {
        proof {
            lemma_lines_take_succ(alarms@, drift_line(), i as int);
        }
        let line = render_drift_line(&alarms[i]);
        text = text.concat(line.as_str());
        i = i + 1;
    }
    proof {
        lemma_lines_all(alarms@, drift_line());
    }
    text
}

pub open spec fn reason_line() -> spec_fn(BlockingReason) -> Seq<char> {
    |r: BlockingReason| "- "@ + gate_rule_name(r.rule) + ": "@ + r.subject_id@ + "\n"@
}

/// `/reports/execution-readiness-report.md`: the readiness gate's status,
/// summary and blocking reasons.
pub open spec fn readiness_markdown(status: GateStatus, summary: Seq<char>, reasons: Seq<BlockingReason>) -> Seq<char> {
    "# Execution Readiness Report\n\nStatus: "@ + gate_status_name(status) + "\n\n"@ + summary + "\n"@
        + lines(reasons, reason_line())
}

/// Renders `/reports/execution-readiness-report.md`.
pub fn render_readiness_report(status: GateStatus, summary: &String, reasons: &Vec<BlockingReason>) -> (text: String)
    ensures
        text@ == readiness_markdown(status, summary@, reasons@),
{
    let mut text = "# Execution Readiness Report\n\nStatus: ".to_owned().concat(gate_status_str(status)).concat(
        "\n\n",
    ).concat(summary.as_str()).concat("\n");
    let ghost start = text@;
    let mut i: usize = 0;
    proof {
        lemma_lines_all(reasons@, reason_line());
    }
    while i < reasons.len()
        invariant
            0 <= i <= reasons.len(),
            text@ == start + lines(reasons@.take(i as int), reason_line()),
        decreases reasons.len() - i,
    {
        proof {
            lemma_lines_take_succ(reasons@, reason_line(), i as int);
        }
        let r = &reasons[i];
        text = text.concat("- ").concat(gate_rule_str(r.rule)).concat(": ").concat(r.subject_id.as_str()).concat(
            "\n",
        );
        i = i + 1;
    }
    proof {
        lemma_lines_all(reasons@, reason_line());
    }
    text
}

} // verus!
