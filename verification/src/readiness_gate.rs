//! Execution readiness gate.
//!
//! The readiness gate is computed, not authored. It is blocked while any of these
//! holds: a non-gate artifact is not Approved; an artifact is Stale; an
//! Error- or Blocking-severity drift alarm is active; an amendment is still
//! in progress; an approval binds to an artifact version made under another
//! constitution version than the project's current one; a trace link has an endpoint that is not an
//! artifact of the project.

use vstd::prelude::*;
use crate::domain::{
    Amendment, AmendmentStatus, Approval, Artifact, ArtifactState, ArtifactType,
    ArtifactVersion, DriftAlarm, DriftAlarmStatus, DriftSeverity, GateStatus, Project,
    TraceLink,
};
use crate::traceability::{find_artifact, has_artifact};

verus! {

/// The rule of the readiness gate that a blocking reason violates.
#[derive(Clone, Copy, Debug, PartialEq, Eq, Structural)]
pub enum GateRule {
    ArtifactNotApproved,
    ArtifactStale,
    BlockingAlarmActive,
    AmendmentInProgress,
    ApprovalOutdated,
    BrokenTraceLink,
}

// ─── Why blocked? ──────────────────────────────────────────

/// What a violation of the rule means.
pub open spec fn rule_explanation(rule: GateRule) -> Seq<char> {
    match rule {
        GateRule::ArtifactNotApproved => "A non-gate artifact is not Approved."@,
        GateRule::ArtifactStale => "An upstream change invalidated the artifact's approval."@,
        GateRule::BlockingAlarmActive => "An error- or blocking-severity drift alarm is active."@,
        GateRule::AmendmentInProgress => "A constitution amendment is not completed."@,
        GateRule::ApprovalOutdated => "An approval binds to an outdated constitution version."@,
        GateRule::BrokenTraceLink => "A trace link has an endpoint that is not an artifact of the project."@,
    }
}

/// How to resolve a violation of the rule.
pub open spec fn rule_remediation(rule: GateRule) -> Seq<char> {
    match rule {
        GateRule::ArtifactNotApproved => "Complete, validate and approve the artifact."@,
        GateRule::ArtifactStale => "Reconcile the artifact with its upstream artifacts and approve it again."@,
        GateRule::BlockingAlarmActive => "Resolve the drift alarm by following its remediation path."@,
        GateRule::AmendmentInProgress => "Apply or abandon the amendment, then reconcile every downstream artifact."@,
        GateRule::ApprovalOutdated => "Re-approve the artifact against the current constitution version."@,
        GateRule::BrokenTraceLink => "Remove the link or point it at an existing artifact."@,
    }
}

/// Where the rule comes from.
pub open spec fn rule_provenance(rule: GateRule) -> Seq<char> {
    match rule {
        GateRule::ArtifactNotApproved => "Execution Readiness Gate: any non-gate artifact is not Approved."@,
        GateRule::ArtifactStale => "Execution Readiness Gate: any artifact is Stale."@,
        GateRule::BlockingAlarmActive => "Execution Readiness Gate: any blocking/error-severity drift alarm is active."@,
        GateRule::AmendmentInProgress => "Execution Readiness Gate: any amendment is not completed."@,
        GateRule::ApprovalOutdated => "Execution Readiness Gate: any approval binds to an outdated constitution version."@,
        GateRule::BrokenTraceLink => "Traceability: every link joins two existing nodes."@,
    }
}

impl GateRule {
    /// What a violation of this rule means.
    pub fn explanation(&self) -> (text: &'static str)
        ensures
            text@ == rule_explanation(*self),
    {
        match self {
            GateRule::ArtifactNotApproved => "A non-gate artifact is not Approved.",
            GateRule::ArtifactStale => "An upstream change invalidated the artifact's approval.",
            GateRule::BlockingAlarmActive => "An error- or blocking-severity drift alarm is active.",
            GateRule::AmendmentInProgress => "A constitution amendment is not completed.",
            GateRule::ApprovalOutdated => "An approval binds to an outdated constitution version.",
            GateRule::BrokenTraceLink => "A trace link has an endpoint that is not an artifact of the project.",
        }
    }

    /// How to resolve a violation of this rule.
    pub fn remediation(&self) -> (text: &'static str)
        ensures
            text@ == rule_remediation(*self),
    {
        match self {
            GateRule::ArtifactNotApproved => "Complete, validate and approve the artifact.",
            GateRule::ArtifactStale => "Reconcile the artifact with its upstream artifacts and approve it again.",
            GateRule::BlockingAlarmActive => "Resolve the drift alarm by following its remediation path.",
            GateRule::AmendmentInProgress => "Apply or abandon the amendment, then reconcile every downstream artifact.",
            GateRule::ApprovalOutdated => "Re-approve the artifact against the current constitution version.",
            GateRule::BrokenTraceLink => "Remove the link or point it at an existing artifact.",
        }
    }

    /// The handbook rule that this rule enforces.
    pub fn provenance(&self) -> (text: &'static str)
        ensures
            text@ == rule_provenance(*self),
    {
        match self {
            GateRule::ArtifactNotApproved => "Execution Readiness Gate: any non-gate artifact is not Approved.",
            GateRule::ArtifactStale => "Execution Readiness Gate: any artifact is Stale.",
            GateRule::BlockingAlarmActive => "Execution Readiness Gate: any blocking/error-severity drift alarm is active.",
            GateRule::AmendmentInProgress => "Execution Readiness Gate: any amendment is not completed.",
            GateRule::ApprovalOutdated => "Execution Readiness Gate: any approval binds to an outdated constitution version.",
            GateRule::BrokenTraceLink => "Traceability: every link joins two existing nodes.",
        }
    }
}

/// Why the readiness gate is blocked: the violated rule (whose explanation,
/// remediation and provenance its methods give) and the id of the artifact,
/// alarm, amendment, approval or link that violates it.
#[derive(Debug)]
pub struct BlockingReason {
    pub rule: GateRule,
    pub subject_id: String,
}

impl Clone for BlockingReason {
    fn clone(&self) -> (res: Self)
        ensures
            res == *self,
    {
        BlockingReason { rule: self.rule, subject_id: self.subject_id.clone() }
    }
}

/// The readiness gate's verdict.
#[derive(Debug)]
pub struct GateEvaluation {
    pub status: GateStatus,
    pub blocking_reasons: Vec<BlockingReason>,
    pub readiness_summary: String,
    pub export_manifest: Vec<String>,
}

pub open spec fn blocked_by(rule: GateRule, subject_id: String) -> Option<BlockingReason> {
    Some(BlockingReason { rule, subject_id })
}

/// A non-gate artifact that is not Approved blocks the readiness gate.
pub open spec fn unapproved_reason(a: Artifact) -> Option<BlockingReason> {
    if a.artifact_type != ArtifactType::ExecutionReadinessGate && a.state != ArtifactState::Approved {
        blocked_by(GateRule::ArtifactNotApproved, a.id)
    } else {
        None
    }
}

/// A Stale artifact blocks the readiness gate.
pub open spec fn stale_reason(a: Artifact) -> Option<BlockingReason> {
    if a.state == ArtifactState::Stale {
        blocked_by(GateRule::ArtifactStale, a.id)
    } else {
        None
    }
}

pub open spec fn alarm_blocks(al: DriftAlarm) -> bool {
    &&& al.status == DriftAlarmStatus::Active
    &&& (al.severity == DriftSeverity::Error || al.severity == DriftSeverity::Blocking)
}

/// An active Error- or Blocking-severity alarm blocks the readiness gate.
pub open spec fn alarm_reason(al: DriftAlarm) -> Option<BlockingReason> {
    if alarm_blocks(al) {
        blocked_by(GateRule::BlockingAlarmActive, al.id)
    } else {
        None
    }
}

pub open spec fn amendment_open(am: Amendment) -> bool {
    am.status == AmendmentStatus::Proposed || am.status == AmendmentStatus::ImpactAssessed
}

/// An amendment that is neither applied nor abandoned blocks the readiness gate.
pub open spec fn amendment_reason(am: Amendment) -> Option<BlockingReason> {
    if amendment_open(am) {
        blocked_by(GateRule::AmendmentInProgress, am.id)
    } else {
        None
    }
}

pub open spec fn unapproved_rule() -> spec_fn(Artifact) -> Option<BlockingReason> {
    |a: Artifact| unapproved_reason(a)
}

pub open spec fn stale_rule() -> spec_fn(Artifact) -> Option<BlockingReason> {
    |a: Artifact| stale_reason(a)
}

pub open spec fn alarm_rule() -> spec_fn(DriftAlarm) -> Option<BlockingReason> {
    |al: DriftAlarm| alarm_reason(al)
}

pub open spec fn amendment_rule() -> spec_fn(Amendment) -> Option<BlockingReason> {
    |am: Amendment| amendment_reason(am)
}

/// The version that the approval binds was made under another constitution
/// version than the project's current one.
pub open spec fn approval_outdated(
    versions: Seq<ArtifactVersion>,
    constitution_version_id: Seq<char>,
    ap: Approval,
) -> bool {
    exists|j: int|
        0 <= j < versions.len() && versions[j].id@ == ap.artifact_version_id@
            && versions[j].constitution_version_id@ != constitution_version_id
}

/// An approval that binds an outdated constitution version blocks the readiness gate.
pub open spec fn approval_rule(
    versions: Seq<ArtifactVersion>,
    constitution_version_id: Seq<char>,
) -> spec_fn(Approval) -> Option<BlockingReason> {
    |ap: Approval|
        if approval_outdated(versions, constitution_version_id, ap) {
            blocked_by(GateRule::ApprovalOutdated, ap.id)
        } else {
            None
        }
}

pub open spec fn link_broken(artifacts: Seq<Artifact>, l: TraceLink) -> bool {
    !has_artifact(artifacts, l.source_node_id@) || !has_artifact(artifacts, l.target_node_id@)
}

/// A link with an endpoint that is not an artifact blocks the readiness gate.
pub open spec fn link_rule(artifacts: Seq<Artifact>) -> spec_fn(TraceLink) -> Option<BlockingReason> {
    |l: TraceLink|
        if link_broken(artifacts, l) {
            blocked_by(GateRule::BrokenTraceLink, l.id)
        } else {
            None
        }
}

/// Every blocking reason, grouped by rule in the order of the rules.
pub open spec fn blocking_reasons_of(
    artifacts: Seq<Artifact>,
    versions: Seq<ArtifactVersion>,
    approvals: Seq<Approval>,
    links: Seq<TraceLink>,
    constitution_version_id: Seq<char>,
    alarms: Seq<DriftAlarm>,
    amendments: Seq<Amendment>,
) -> Seq<BlockingReason> {
    artifacts.filter_map(unapproved_rule())
        + artifacts.filter_map(stale_rule())
        + alarms.filter_map(alarm_rule())
        + amendments.filter_map(amendment_rule())
        + approvals.filter_map(approval_rule(versions, constitution_version_id))
        + links.filter_map(link_rule(artifacts))
}

/// The readiness gate's conditions, stated directly.
pub open spec fn gate_clear(
    artifacts: Seq<Artifact>,
    versions: Seq<ArtifactVersion>,
    approvals: Seq<Approval>,
    links: Seq<TraceLink>,
    constitution_version_id: Seq<char>,
    alarms: Seq<DriftAlarm>,
    amendments: Seq<Amendment>,
) -> bool {
    &&& forall|i: int| 0 <= i < artifacts.len() ==> {
        &&& (artifacts[i].artifact_type == ArtifactType::ExecutionReadinessGate
            || artifacts[i].state == ArtifactState::Approved)
        &&& artifacts[i].state != ArtifactState::Stale
    }
    &&& forall|i: int| 0 <= i < alarms.len() ==> !alarm_blocks(#[trigger] alarms[i])
    &&& forall|i: int| 0 <= i < amendments.len() ==> !amendment_open(#[trigger] amendments[i])
    &&& forall|i: int| 0 <= i < approvals.len()
        ==> !approval_outdated(versions, constitution_version_id, #[trigger] approvals[i])
    &&& forall|i: int| 0 <= i < links.len() ==> !link_broken(artifacts, #[trigger] links[i])
}

/// The paths of the export package, in package order.
pub open spec fn export_manifest_spec() -> Seq<Seq<char>> {
    seq![
        "/project.json"@,
        "/constitution.md"@,
        "/artifacts/user-fantasy-workflows.md"@,
        "/artifacts/feature-map.md"@,
        "/artifacts/system-architecture.md"@,
        "/artifacts/ux-state-map.md"@,
        "/artifacts/phase-roadmap-contracts.md"@,
        "/artifacts/acceptance-checklists.md"@,
        "/artifacts/drift-alarm-definitions.md"@,
        "/reports/traceability-matrix.md"@,
        "/reports/audit-log.md"@,
        "/reports/drift-report.md"@,
        "/reports/execution-readiness-report.md"@,
    ]
}

/// filter_map yields nothing exactly when the map yields None everywhere.
pub proof fn lemma_filter_map_empty<A, B>(s: Seq<A>, f: spec_fn(A) -> Option<B>)
    ensures
        s.filter_map(f).len() == 0 <==> (forall|i: int| 0 <= i < s.len() ==> (#[trigger] f(s[i])) is None),
    decreases s.len(),
{
    if s.len() > 0 {
        lemma_filter_map_empty(s.drop_last(), f);
        assert forall|i: int| 0 <= i < s.len() - 1 implies #[trigger] f(s[i]) == f(s.drop_last()[i]) by {}
        if f(s.last()) is None {
            if s.filter_map(f).len() == 0 {
                assert forall|i: int| 0 <= i < s.len() implies (#[trigger] f(s[i])) is None by {
                    if i < s.len() - 1 {
                        assert(f(s.drop_last()[i]) is None);
                    }
                }
            }
        } else {
            assert(s.filter_map(f).len() > 0);
        }
    }
}


fn push_unapproved(artifacts: &Vec<Artifact>, out: &mut Vec<BlockingReason>)
    ensures
        final(out)@ == old(out)@ + artifacts@.filter_map(unapproved_rule()),
{
    let ghost f = unapproved_rule();
    let ghost start = out@;
    let mut i: usize = 0;
    while i < artifacts.len()
        invariant
            0 <= i <= artifacts.len(),
            f == unapproved_rule(),
            out@ == start + artifacts@.take(i as int).filter_map(f),
        decreases artifacts.len() - i,
    {
        proof {
            artifacts@.lemma_filter_map_take_succ(f, i as int);
        }
        let a = &artifacts[i];
        if a.artifact_type != ArtifactType::ExecutionReadinessGate && a.state != ArtifactState::Approved {
            out.push(BlockingReason { rule: GateRule::ArtifactNotApproved, subject_id: a.id.clone() });
        }
        i = i + 1;
    }
    assert(artifacts@.take(artifacts.len() as int) =~= artifacts@);
}


fn push_stale(artifacts: &Vec<Artifact>, out: &mut Vec<BlockingReason>)
    ensures
        final(out)@ == old(out)@ + artifacts@.filter_map(stale_rule()),
{
    let ghost f = stale_rule();
    let ghost start = out@;
    let mut i: usize = 0;
    while i < artifacts.len()
        invariant
            0 <= i <= artifacts.len(),
            f == stale_rule(),
            out@ == start + artifacts@.take(i as int).filter_map(f),
        decreases artifacts.len() - i,
    {
        proof {
            artifacts@.lemma_filter_map_take_succ(f, i as int);
        }
        let a = &artifacts[i];
        if a.state == ArtifactState::Stale {
            out.push(BlockingReason { rule: GateRule::ArtifactStale, subject_id: a.id.clone() });
        }
        i = i + 1;
    }
    assert(artifacts@.take(artifacts.len() as int) =~= artifacts@);
}

fn push_alarms(alarms: &Vec<DriftAlarm>, out: &mut Vec<BlockingReason>)
    ensures
        final(out)@ == old(out)@ + alarms@.filter_map(alarm_rule()),
{
    let ghost f = alarm_rule();
    let ghost start = out@;
    let mut i: usize = 0;
    while i < alarms.len()
        invariant
            0 <= i <= alarms.len(),
            f == alarm_rule(),
            out@ == start + alarms@.take(i as int).filter_map(f),
        decreases alarms.len() - i,
    {
        proof {
            alarms@.lemma_filter_map_take_succ(f, i as int);
        }
        let al = &alarms[i];
        if al.status == DriftAlarmStatus::Active
            && (al.severity == DriftSeverity::Error || al.severity == DriftSeverity::Blocking) {
            out.push(BlockingReason { rule: GateRule::BlockingAlarmActive, subject_id: al.id.clone() });
        }
        i = i + 1;
    }
    assert(alarms@.take(alarms.len() as int) =~= alarms@);
}

fn push_amendments(amendments: &Vec<Amendment>, out: &mut Vec<BlockingReason>)
    ensures
        final(out)@ == old(out)@ + amendments@.filter_map(amendment_rule()),
{
    let ghost f = amendment_rule();
    let ghost start = out@;
    let mut i: usize = 0;
    while i < amendments.len()
        invariant
            0 <= i <= amendments.len(),
            f == amendment_rule(),
            out@ == start + amendments@.take(i as int).filter_map(f),
        decreases amendments.len() - i,
    {
        proof {
            amendments@.lemma_filter_map_take_succ(f, i as int);
        }
        let am = &amendments[i];
        if am.status == AmendmentStatus::Proposed || am.status == AmendmentStatus::ImpactAssessed {
            out.push(BlockingReason { rule: GateRule::AmendmentInProgress, subject_id: am.id.clone() });
        }
        i = i + 1;
    }
    assert(amendments@.take(amendments.len() as int) =~= amendments@);
}

/// Whether the version that the approval binds was made under another constitution version.
fn binds_other_constitution(
    versions: &Vec<ArtifactVersion>,
    ap: &Approval,
    constitution_version_id: &String,
) -> (other: bool)
    ensures
        other == approval_outdated(versions@, constitution_version_id@, *ap),
{
    let mut i: usize = 0;
    while i < versions.len()
        invariant
            0 <= i <= versions.len(),
            forall|j: int|
                0 <= j < i ==> !(versions@[j].id@ == ap.artifact_version_id@
                    && versions@[j].constitution_version_id@ != constitution_version_id@),
        decreases versions.len() - i,
    {
        let v = &versions[i];
        if v.id == ap.artifact_version_id && !(v.constitution_version_id == *constitution_version_id) {
            return true;
        }
        i = i + 1;
    }
    false
}

fn push_outdated_approvals(
    versions: &Vec<ArtifactVersion>,
    approvals: &Vec<Approval>,
    constitution_version_id: &String,
    out: &mut Vec<BlockingReason>,
)
    ensures
        final(out)@ == old(out)@ + approvals@.filter_map(
            approval_rule(versions@, constitution_version_id@),
        ),
{
    let ghost f = approval_rule(versions@, constitution_version_id@);
    let ghost start = out@;
    let mut i: usize = 0;
    while i < approvals.len()
        invariant
            0 <= i <= approvals.len(),
            f == approval_rule(versions@, constitution_version_id@),
            out@ == start + approvals@.take(i as int).filter_map(f),
        decreases approvals.len() - i,
    {
        proof {
            approvals@.lemma_filter_map_take_succ(f, i as int);
        }
        let ap = &approvals[i];
        if binds_other_constitution(versions, ap, constitution_version_id) {
            out.push(BlockingReason { rule: GateRule::ApprovalOutdated, subject_id: ap.id.clone() });
        }
        i = i + 1;
    }
    assert(approvals@.take(approvals.len() as int) =~= approvals@);
}

fn push_broken_links(artifacts: &Vec<Artifact>, links: &Vec<TraceLink>, out: &mut Vec<BlockingReason>)
    ensures
        final(out)@ == old(out)@ + links@.filter_map(link_rule(artifacts@)),
{
    let ghost f = link_rule(artifacts@);
    let ghost start = out@;
    let mut i: usize = 0;
    while i < links.len()
        invariant
            0 <= i <= links.len(),
            f == link_rule(artifacts@),
            out@ == start + links@.take(i as int).filter_map(f),
        decreases links.len() - i,
    {
        proof {
            links@.lemma_filter_map_take_succ(f, i as int);
        }
        let l = &links[i];
        if find_artifact(artifacts.as_slice(), &l.source_node_id).is_none()
            || find_artifact(artifacts.as_slice(), &l.target_node_id).is_none() {
            out.push(BlockingReason { rule: GateRule::BrokenTraceLink, subject_id: l.id.clone() });
        }
        i = i + 1;
    }
    assert(links@.take(links.len() as int) =~= links@);
}


pub open spec fn ready_summary() -> Seq<char> {
    "All readiness checks pass; export is unlocked."@
}

pub open spec fn blocked_summary() -> Seq<char> {
    "Export is blocked until every blocking reason is resolved."@
}

/// The readiness gate has no blocking reason exactly when its conditions all hold.
pub proof fn lemma_no_reasons_iff_clear(
    artifacts: Seq<Artifact>,
    versions: Seq<ArtifactVersion>,
    approvals: Seq<Approval>,
    links: Seq<TraceLink>,
    constitution_version_id: Seq<char>,
    alarms: Seq<DriftAlarm>,
    amendments: Seq<Amendment>,
)
    ensures
        blocking_reasons_of(artifacts, versions, approvals, links, constitution_version_id, alarms, amendments).len() == 0
            <==> gate_clear(artifacts, versions, approvals, links, constitution_version_id, alarms, amendments),
{
    lemma_filter_map_empty(artifacts, unapproved_rule());
    lemma_filter_map_empty(artifacts, stale_rule());
    lemma_filter_map_empty(alarms, alarm_rule());
    lemma_filter_map_empty(amendments, amendment_rule());
    lemma_filter_map_empty(approvals, approval_rule(versions, constitution_version_id));
    lemma_filter_map_empty(links, link_rule(artifacts));
    let clear = gate_clear(artifacts, versions, approvals, links, constitution_version_id, alarms, amendments);
    if clear {
        assert forall|i: int| 0 <= i < artifacts.len() implies (#[trigger] unapproved_rule()(artifacts[i])) is None by {}
        assert forall|i: int| 0 <= i < artifacts.len() implies (#[trigger] stale_rule()(artifacts[i])) is None by {}
        assert forall|i: int| 0 <= i < alarms.len() implies (#[trigger] alarm_rule()(alarms[i])) is None by {}
        assert forall|i: int| 0 <= i < amendments.len() implies (#[trigger] amendment_rule()(amendments[i])) is None by {}
        assert forall|i: int| 0 <= i < approvals.len()
            implies (#[trigger] approval_rule(versions, constitution_version_id)(approvals[i])) is None by {}
        assert forall|i: int| 0 <= i < links.len() implies (#[trigger] link_rule(artifacts)(links[i])) is None by {}
    }
    if blocking_reasons_of(artifacts, versions, approvals, links, constitution_version_id, alarms, amendments).len() == 0 {
        assert forall|i: int| 0 <= i < artifacts.len() implies {
            &&& (artifacts[i].artifact_type == ArtifactType::ExecutionReadinessGate
                || artifacts[i].state == ArtifactState::Approved)
            &&& artifacts[i].state != ArtifactState::Stale
        } by {
            assert(unapproved_rule()(artifacts[i]) is None);
            assert(stale_rule()(artifacts[i]) is None);
        }
        assert forall|i: int| 0 <= i < alarms.len() implies !alarm_blocks(#[trigger] alarms[i]) by {
            assert(alarm_rule()(alarms[i]) is None);
        }
        assert forall|i: int| 0 <= i < amendments.len() implies !amendment_open(#[trigger] amendments[i]) by {
            assert(amendment_rule()(amendments[i]) is None);
        }
        assert forall|i: int| 0 <= i < approvals.len()
            implies !approval_outdated(versions, constitution_version_id, #[trigger] approvals[i]) by {
            assert(approval_rule(versions, constitution_version_id)(approvals[i]) is None);
        }
        assert forall|i: int| 0 <= i < links.len() implies !link_broken(artifacts, #[trigger] links[i]) by {
            assert(link_rule(artifacts)(links[i]) is None);
        }
    }
}

/// The paths of the export package, in package order.
pub fn export_manifest() -> (paths: Vec<String>)
    ensures
        paths@.map_values(|p: String| p@) == export_manifest_spec(),
{
    let mut paths: Vec<String> = Vec::new();
    paths.push("/project.json".to_owned());
    paths.push("/constitution.md".to_owned());
    paths.push("/artifacts/user-fantasy-workflows.md".to_owned());
    paths.push("/artifacts/feature-map.md".to_owned());
    paths.push("/artifacts/system-architecture.md".to_owned());
    paths.push("/artifacts/ux-state-map.md".to_owned());
    paths.push("/artifacts/phase-roadmap-contracts.md".to_owned());
    paths.push("/artifacts/acceptance-checklists.md".to_owned());
    paths.push("/artifacts/drift-alarm-definitions.md".to_owned());
    paths.push("/reports/traceability-matrix.md".to_owned());
    paths.push("/reports/audit-log.md".to_owned());
    paths.push("/reports/drift-report.md".to_owned());
    paths.push("/reports/execution-readiness-report.md".to_owned());
    assert(paths@.map_values(|p: String| p@) =~= export_manifest_spec());
    paths
}

/// Evaluates the execution readiness gate over a project's state; approvals
/// are judged against the project's current constitution version.
pub fn evaluate(
    artifacts: &Vec<Artifact>,
    versions: &Vec<ArtifactVersion>,
    approvals: &Vec<Approval>,
    links: &Vec<TraceLink>,
    project: &Project,
    alarms: &Vec<DriftAlarm>,
    amendments: &Vec<Amendment>,
) -> (gate: GateEvaluation)
    ensures
        gate.blocking_reasons@ == blocking_reasons_of(
            artifacts@, versions@, approvals@, links@, project.current_constitution_version_id@, alarms@, amendments@,
        ),
        gate.status == GateStatus::Ready <==> gate.blocking_reasons@.len() == 0,
        gate.status == GateStatus::Ready <==> gate_clear(
            artifacts@, versions@, approvals@, links@, project.current_constitution_version_id@, alarms@, amendments@,
        ),
        gate.readiness_summary@ == (if gate.status == GateStatus::Ready {
            ready_summary()
        } else {
            blocked_summary()
        }),
        gate.export_manifest@.map_values(|p: String| p@) == export_manifest_spec(),
{
    let mut reasons: Vec<BlockingReason> = Vec::new();
    push_unapproved(artifacts, &mut reasons);
    push_stale(artifacts, &mut reasons);
    push_alarms(alarms, &mut reasons);
    push_amendments(amendments, &mut reasons);
    push_outdated_approvals(versions, approvals, &project.current_constitution_version_id, &mut reasons);
    push_broken_links(artifacts, links, &mut reasons);
    proof {
        lemma_no_reasons_iff_clear(
            artifacts@, versions@, approvals@, links@, project.current_constitution_version_id@, alarms@, amendments@,
        );
        assert(reasons@ =~= blocking_reasons_of(
            artifacts@, versions@, approvals@, links@, project.current_constitution_version_id@, alarms@, amendments@,
        ));
    }
    let ready = reasons.len() == 0;
    GateEvaluation {
        status: if ready { GateStatus::Ready } else { GateStatus::Blocked },
        blocking_reasons: reasons,
        readiness_summary: if ready {
            "All readiness checks pass; export is unlocked.".to_owned()
        } else {
            "Export is blocked until every blocking reason is resolved.".to_owned()
        },
        export_manifest: export_manifest(),
    }
}

// ─── Laws of the alarm and amendment rules ────────────────

/// An element that the map keeps shows up in filter_map's output.
pub proof fn lemma_filter_map_keeps<A, B>(s: Seq<A>, f: spec_fn(A) -> Option<B>, i: int)
    requires
        0 <= i < s.len(),
        f(s[i]) is Some,
    ensures
        s.filter_map(f).contains(f(s[i])->0),
    decreases s.len(),
{
    let rest = s.drop_last();
    let x = f(s[i])->0;
    if i == s.len() - 1 {
        let out = s.filter_map(f);
        assert(out[out.len() - 1] == x);
    } else {
        assert(rest[i] == s[i]);
        lemma_filter_map_keeps(rest, f, i);
        let k = choose|k: int| 0 <= k < rest.filter_map(f).len() && rest.filter_map(f)[k] == x;
        assert(s.filter_map(f)[k] == x);
    }
}

/// Every output of filter_map comes from some element of its input.
pub proof fn lemma_filter_map_source<A, B>(s: Seq<A>, f: spec_fn(A) -> Option<B>, y: B)
    requires
        s.filter_map(f).contains(y),
    ensures
        exists|i: int| 0 <= i < s.len() && f(#[trigger] s[i]) == Some(y),
{
    s.lemma_filter_map_contains(f, y);
    let t = choose|t: A| s.contains(t) && f(t) == Some(y);
    let i = choose|i: int| 0 <= i < s.len() && s[i] == t;
    assert(f(s[i]) == Some(y));
}

/// An element lies in a concatenation exactly when it lies in one of its parts.
pub proof fn lemma_concat_contains<A>(a: Seq<A>, b: Seq<A>, x: A)
    ensures
        (a + b).contains(x) <==> (a.contains(x) || b.contains(x)),
{
    if a.contains(x) {
        let k = choose|k: int| 0 <= k < a.len() && a[k] == x;
        assert((a + b)[k] == x);
    }
    if b.contains(x) {
        let k = choose|k: int| 0 <= k < b.len() && b[k] == x;
        assert((a + b)[a.len() + k] == x);
    }
    if (a + b).contains(x) {
        let k = choose|k: int| 0 <= k < (a + b).len() && (a + b)[k] == x;
        if k < a.len() {
            assert(a[k] == x);
        } else {
            assert(b[k - a.len()] == x);
        }
    }
}

/// Splits membership in the readiness gate's blocking reasons by rule family.
proof fn lemma_reason_parts(
    artifacts: Seq<Artifact>,
    versions: Seq<ArtifactVersion>,
    approvals: Seq<Approval>,
    links: Seq<TraceLink>,
    constitution_version_id: Seq<char>,
    alarms: Seq<DriftAlarm>,
    amendments: Seq<Amendment>,
    r: BlockingReason,
)
    ensures
        blocking_reasons_of(artifacts, versions, approvals, links, constitution_version_id, alarms, amendments).contains(r)
            <==> {
            ||| artifacts.filter_map(unapproved_rule()).contains(r)
            ||| artifacts.filter_map(stale_rule()).contains(r)
            ||| alarms.filter_map(alarm_rule()).contains(r)
            ||| amendments.filter_map(amendment_rule()).contains(r)
            ||| approvals.filter_map(approval_rule(versions, constitution_version_id)).contains(r)
            ||| links.filter_map(link_rule(artifacts)).contains(r)
        },
{
    let a = artifacts.filter_map(unapproved_rule());
    let b = artifacts.filter_map(stale_rule());
    let c = alarms.filter_map(alarm_rule());
    let d = amendments.filter_map(amendment_rule());
    let e = approvals.filter_map(approval_rule(versions, constitution_version_id));
    let f = links.filter_map(link_rule(artifacts));
    lemma_concat_contains(a, b, r);
    lemma_concat_contains(a + b, c, r);
    lemma_concat_contains(a + b + c, d, r);
    lemma_concat_contains(a + b + c + d, e, r);
    lemma_concat_contains(a + b + c + d + e, f, r);
}

/// An active drift alarm of Error or Blocking severity blocks the readiness
/// gate, and the readiness gate lists it by id under the active-alarm rule.
pub proof fn severe_active_alarm_blocks_gate(
    artifacts: Seq<Artifact>,
    versions: Seq<ArtifactVersion>,
    approvals: Seq<Approval>,
    links: Seq<TraceLink>,
    constitution_version_id: Seq<char>,
    alarms: Seq<DriftAlarm>,
    amendments: Seq<Amendment>,
    i: int,
)
    requires
        0 <= i < alarms.len(),
        alarms[i].status == DriftAlarmStatus::Active,
        alarms[i].severity == DriftSeverity::Error || alarms[i].severity == DriftSeverity::Blocking,
    ensures
        !gate_clear(artifacts, versions, approvals, links, constitution_version_id, alarms, amendments),
        blocking_reasons_of(artifacts, versions, approvals, links, constitution_version_id, alarms, amendments).contains(
            BlockingReason { rule: GateRule::BlockingAlarmActive, subject_id: alarms[i].id },
        ),
{
    lemma_filter_map_keeps(alarms, alarm_rule(), i);
    lemma_reason_parts(
        artifacts,
        versions,
        approvals,
        links,
        constitution_version_id,
        alarms,
        amendments,
        BlockingReason { rule: GateRule::BlockingAlarmActive, subject_id: alarms[i].id },
    );
}

/// The active-alarm rule names only alarms that are active and of Error or
/// Blocking severity: resolved alarms and Info or Warning alarms block nothing.
pub proof fn only_severe_active_alarms_block(
    artifacts: Seq<Artifact>,
    versions: Seq<ArtifactVersion>,
    approvals: Seq<Approval>,
    links: Seq<TraceLink>,
    constitution_version_id: Seq<char>,
    alarms: Seq<DriftAlarm>,
    amendments: Seq<Amendment>,
    r: BlockingReason,
)
    requires
        blocking_reasons_of(artifacts, versions, approvals, links, constitution_version_id, alarms, amendments).contains(r),
        r.rule == GateRule::BlockingAlarmActive,
    ensures
        exists|i: int|
            0 <= i < alarms.len() && (#[trigger] alarms[i]).id == r.subject_id
                && alarms[i].status == DriftAlarmStatus::Active
                && (alarms[i].severity == DriftSeverity::Error || alarms[i].severity == DriftSeverity::Blocking),
{
    lemma_reason_parts(artifacts, versions, approvals, links, constitution_version_id, alarms, amendments, r);
    if artifacts.filter_map(unapproved_rule()).contains(r) {
        lemma_filter_map_source(artifacts, unapproved_rule(), r);
    } else if artifacts.filter_map(stale_rule()).contains(r) {
        lemma_filter_map_source(artifacts, stale_rule(), r);
    } else if amendments.filter_map(amendment_rule()).contains(r) {
        lemma_filter_map_source(amendments, amendment_rule(), r);
    } else if approvals.filter_map(approval_rule(versions, constitution_version_id)).contains(r) {
        lemma_filter_map_source(approvals, approval_rule(versions, constitution_version_id), r);
    } else if links.filter_map(link_rule(artifacts)).contains(r) {
        lemma_filter_map_source(links, link_rule(artifacts), r);
    } else {
        lemma_filter_map_source(alarms, alarm_rule(), r);
        let i = choose|i: int| 0 <= i < alarms.len() && alarm_rule()(#[trigger] alarms[i]) == Some(r);
        assert(alarms[i].id == r.subject_id);
    }
}

/// An amendment that is neither applied nor abandoned (proposed, or with its
/// impact assessed) blocks the readiness gate, which lists it by id
/// under the amendment rule.
pub proof fn unfinished_amendment_blocks_gate(
    artifacts: Seq<Artifact>,
    versions: Seq<ArtifactVersion>,
    approvals: Seq<Approval>,
    links: Seq<TraceLink>,
    constitution_version_id: Seq<char>,
    alarms: Seq<DriftAlarm>,
    amendments: Seq<Amendment>,
    i: int,
)
    requires
        0 <= i < amendments.len(),
        amendments[i].status != AmendmentStatus::Applied,
        amendments[i].status != AmendmentStatus::Abandoned,
    ensures
        !gate_clear(artifacts, versions, approvals, links, constitution_version_id, alarms, amendments),
        blocking_reasons_of(artifacts, versions, approvals, links, constitution_version_id, alarms, amendments).contains(
            BlockingReason { rule: GateRule::AmendmentInProgress, subject_id: amendments[i].id },
        ),
{
    lemma_filter_map_keeps(amendments, amendment_rule(), i);
    lemma_reason_parts(
        artifacts,
        versions,
        approvals,
        links,
        constitution_version_id,
        alarms,
        amendments,
        BlockingReason { rule: GateRule::AmendmentInProgress, subject_id: amendments[i].id },
    );
}

/// The amendment rule names only amendments that are neither applied nor
/// abandoned.
pub proof fn only_unfinished_amendments_block(
    artifacts: Seq<Artifact>,
    versions: Seq<ArtifactVersion>,
    approvals: Seq<Approval>,
    links: Seq<TraceLink>,
    constitution_version_id: Seq<char>,
    alarms: Seq<DriftAlarm>,
    amendments: Seq<Amendment>,
    r: BlockingReason,
)
    requires
        blocking_reasons_of(artifacts, versions, approvals, links, constitution_version_id, alarms, amendments).contains(r),
        r.rule == GateRule::AmendmentInProgress,
    ensures
        exists|i: int|
            0 <= i < amendments.len() && (#[trigger] amendments[i]).id == r.subject_id
                && amendments[i].status != AmendmentStatus::Applied
                && amendments[i].status != AmendmentStatus::Abandoned,
{
    lemma_reason_parts(artifacts, versions, approvals, links, constitution_version_id, alarms, amendments, r);
    if artifacts.filter_map(unapproved_rule()).contains(r) {
        lemma_filter_map_source(artifacts, unapproved_rule(), r);
    } else if artifacts.filter_map(stale_rule()).contains(r) {
        lemma_filter_map_source(artifacts, stale_rule(), r);
    } else if alarms.filter_map(alarm_rule()).contains(r) {
        lemma_filter_map_source(alarms, alarm_rule(), r);
    } else if approvals.filter_map(approval_rule(versions, constitution_version_id)).contains(r) {
        lemma_filter_map_source(approvals, approval_rule(versions, constitution_version_id), r);
    } else if links.filter_map(link_rule(artifacts)).contains(r) {
        lemma_filter_map_source(links, link_rule(artifacts), r);
    } else {
        lemma_filter_map_source(amendments, amendment_rule(), r);
        let i = choose|i: int| 0 <= i < amendments.len() && amendment_rule()(#[trigger] amendments[i]) == Some(r);
        assert(amendments[i].id == r.subject_id);
    }
}

} // verus!
