//! Domain model of an Anchor project.

use vstd::prelude::*;

verus! {

/// Version of the domain schema that this engine reads and writes.
pub const SCHEMA_VERSION: &'static str = "1.0.0";

/// The nine first-class artifact types of the artifact spine.
#[derive(Clone, Copy, Debug, PartialEq, Eq, Structural)]
pub enum ArtifactType {
    Constitution,
    UserFantasyWorkflows,
    FeatureMap,
    SystemArchitecture,
    UxStateMap,
    PhaseRoadmapContracts,
    AcceptanceChecklists,
    DriftAlarmDefinitions,
    ExecutionReadinessGate,
}

/// The five lifecycle states of an artifact.
#[derive(Clone, Copy, Debug, PartialEq, Eq, Structural)]
pub enum ArtifactState {
    Draft,
    Complete,
    Valid,
    Approved,
    Stale,
}


/// The constrained set of trace link types.
#[derive(Clone, Copy, Debug, PartialEq, Eq, Structural)]
pub enum TraceLinkType {
    Justifies,
    DerivesFrom,
    Implements,
    DependsOn,
    ValidatedBy,
    InvalidatedBy,
}

/// How an approval was given.
#[derive(Clone, Copy, Debug, PartialEq, Eq, Structural)]
pub enum ApprovalType {
    Standard,
}

/// The five drift alarm categories.
#[derive(Clone, Copy, Debug, PartialEq, Eq, Structural)]
pub enum DriftAlarmType {
    Traceability,
    Constitution,
    Sequence,
    Quality,
    Scope,
}

/// Severity of a drift alarm; `Error` and `Blocking` alarms block the readiness gate.
#[derive(Clone, Copy, Debug, PartialEq, Eq, Structural)]
pub enum DriftSeverity {
    Info,
    Warning,
    Error,
    Blocking,
}

/// Whether a drift alarm is still raised.
#[derive(Clone, Copy, Debug, PartialEq, Eq, Structural)]
pub enum DriftAlarmStatus {
    Active,
    Resolved,
}

/// Progress of a constitution amendment.
#[derive(Clone, Copy, Debug, PartialEq, Eq, Structural)]
pub enum AmendmentStatus {
    Proposed,
    ImpactAssessed,
    Applied,
    Abandoned,
}

/// Outcome of the execution readiness gate.
#[derive(Clone, Copy, Debug, PartialEq, Eq, Structural)]
pub enum GateStatus {
    Ready,
    Blocked,
}

/// The local identity that authors, approves and amends.
#[derive(Debug)]
pub struct LocalIdentity {
    pub id: String,
    pub display_name: String,
}

impl Clone for LocalIdentity {
    fn clone(&self) -> (res: Self)
        ensures
            res == *self,
    {
        LocalIdentity { id: self.id.clone(), display_name: self.display_name.clone() }
    }
}

/// Per-project settings; the engine reads none of them yet.
#[derive(Debug)]
pub struct ProjectSettings {
}

impl Clone for ProjectSettings {
    fn clone(&self) -> (res: Self)
        ensures
            res == *self,
    {
        ProjectSettings {  }
    }
}

/// A project: the root of every artifact.
#[derive(Debug)]
pub struct Project {
    pub id: String,
    pub schema_version: String,
    pub name: String,
    pub slug: String,
    pub description: String,
    pub created_at: String,
    pub updated_at: String,
    pub created_by: LocalIdentity,
    pub current_constitution_version_id: String,
    pub artifact_ids: Vec<String>,
    pub active_amendment_id: Option<String>,
    pub settings: ProjectSettings,
}

/// Mathematical view of a [`Project`]: its lists become sequences.
pub struct ProjectView {
    pub id: String,
    pub schema_version: String,
    pub name: String,
    pub slug: String,
    pub description: String,
    pub created_at: String,
    pub updated_at: String,
    pub created_by: LocalIdentity,
    pub current_constitution_version_id: String,
    pub artifact_ids: Seq<String>,
    pub active_amendment_id: Option<String>,
    pub settings: ProjectSettings,
}

impl View for Project {
    type V = ProjectView;

    open spec fn view(&self) -> ProjectView {
        ProjectView {
            id: self.id,
            schema_version: self.schema_version,
            name: self.name,
            slug: self.slug,
            description: self.description,
            created_at: self.created_at,
            updated_at: self.updated_at,
            created_by: self.created_by,
            current_constitution_version_id: self.current_constitution_version_id,
            artifact_ids: self.artifact_ids@,
            active_amendment_id: self.active_amendment_id,
            settings: self.settings,
        }
    }
}

impl Clone for Project {
    fn clone(&self) -> (res: Self)
        ensures
            res@ == self@,
    {
        Project { id: self.id.clone(), schema_version: self.schema_version.clone(), name: self.name.clone(), slug: self.slug.clone(), description: self.description.clone(), created_at: self.created_at.clone(), updated_at: self.updated_at.clone(), created_by: self.created_by.clone(), current_constitution_version_id: self.current_constitution_version_id.clone(), artifact_ids: self.artifact_ids.clone(), active_amendment_id: self.active_amendment_id.clone(), settings: self.settings.clone() }
    }
}

/// One version of the product constitution.
#[derive(Debug)]
pub struct Constitution {
    pub id: String,
    pub artifact_id: String,
    pub version_id: String,
    pub project_id: String,
    pub one_sentence_promise: String,
    pub user_fantasy: String,
    pub non_negotiable_outcomes: Vec<String>,
    pub anti_goals: Vec<String>,
    pub quality_bar: String,
    pub failure_condition: String,
    pub locked: bool,
    pub content_hash: String,
    pub created_at: String,
    pub updated_at: String,
    pub approved_at: Option<String>,
    pub approved_by: Option<LocalIdentity>,
    pub parent_version_id: Option<String>,
}

/// Mathematical view of a [`Constitution`]: its lists become sequences.
pub struct ConstitutionView {
    pub id: String,
    pub artifact_id: String,
    pub version_id: String,
    pub project_id: String,
    pub one_sentence_promise: String,
    pub user_fantasy: String,
    pub non_negotiable_outcomes: Seq<String>,
    pub anti_goals: Seq<String>,
    pub quality_bar: String,
    pub failure_condition: String,
    pub locked: bool,
    pub content_hash: String,
    pub created_at: String,
    pub updated_at: String,
    pub approved_at: Option<String>,
    pub approved_by: Option<LocalIdentity>,
    pub parent_version_id: Option<String>,
}

impl View for Constitution {
    type V = ConstitutionView;

    open spec fn view(&self) -> ConstitutionView {
        ConstitutionView {
            id: self.id,
            artifact_id: self.artifact_id,
            version_id: self.version_id,
            project_id: self.project_id,
            one_sentence_promise: self.one_sentence_promise,
            user_fantasy: self.user_fantasy,
            non_negotiable_outcomes: self.non_negotiable_outcomes@,
            anti_goals: self.anti_goals@,
            quality_bar: self.quality_bar,
            failure_condition: self.failure_condition,
            locked: self.locked,
            content_hash: self.content_hash,
            created_at: self.created_at,
            updated_at: self.updated_at,
            approved_at: self.approved_at,
            approved_by: self.approved_by,
            parent_version_id: self.parent_version_id,
        }
    }
}

impl Clone for Constitution {
    fn clone(&self) -> (res: Self)
        ensures
            res@ == self@,
    {
        Constitution { id: self.id.clone(), artifact_id: self.artifact_id.clone(), version_id: self.version_id.clone(), project_id: self.project_id.clone(), one_sentence_promise: self.one_sentence_promise.clone(), user_fantasy: self.user_fantasy.clone(), non_negotiable_outcomes: self.non_negotiable_outcomes.clone(), anti_goals: self.anti_goals.clone(), quality_bar: self.quality_bar.clone(), failure_condition: self.failure_condition.clone(), locked: self.locked, content_hash: self.content_hash.clone(), created_at: self.created_at.clone(), updated_at: self.updated_at.clone(), approved_at: self.approved_at.clone(), approved_by: self.approved_by.clone(), parent_version_id: self.parent_version_id.clone() }
    }
}

/// Summary of the last validation run of an artifact.
#[derive(Debug)]
pub struct ValidationSummary {
}

impl Clone for ValidationSummary {
    fn clone(&self) -> (res: Self)
        ensures
            res == *self,
    {
        ValidationSummary {  }
    }
}

/// An artifact of the spine and its lifecycle state.
#[derive(Debug)]
pub struct Artifact {
    pub id: String,
    pub project_id: String,
    pub artifact_type: ArtifactType,
    pub title: String,
    pub current_version_id: String,
    pub state: ArtifactState,
    pub validation_summary: ValidationSummary,
    pub latest_approval_id: Option<String>,
    pub stale_reason: Option<String>,
    pub created_at: String,
    pub updated_at: String,
}

impl Clone for Artifact {
    fn clone(&self) -> (res: Self)
        ensures
            res == *self,
    {
        Artifact { id: self.id.clone(), project_id: self.project_id.clone(), artifact_type: self.artifact_type, title: self.title.clone(), current_version_id: self.current_version_id.clone(), state: self.state, validation_summary: self.validation_summary.clone(), latest_approval_id: self.latest_approval_id.clone(), stale_reason: self.stale_reason.clone(), created_at: self.created_at.clone(), updated_at: self.updated_at.clone() }
    }
}

/// An immutable version of an artifact's content; `content` holds its JSON text.
#[derive(Debug)]
pub struct ArtifactVersion {
    pub id: String,
    pub artifact_id: String,
    pub project_id: String,
    pub version_number: u32,
    pub constitution_version_id: String,
    pub content: String,
    pub content_hash: String,
    pub parent_version_id: Option<String>,
    pub created_at: String,
    pub created_by: LocalIdentity,
}

impl Clone for ArtifactVersion {
    fn clone(&self) -> (res: Self)
        ensures
            res == *self,
    {
        ArtifactVersion { id: self.id.clone(), artifact_id: self.artifact_id.clone(), project_id: self.project_id.clone(), version_number: self.version_number, constitution_version_id: self.constitution_version_id.clone(), content: self.content.clone(), content_hash: self.content_hash.clone(), parent_version_id: self.parent_version_id.clone(), created_at: self.created_at.clone(), created_by: self.created_by.clone() }
    }
}

/// A human sign-off bound to one artifact version and its content hash.
#[derive(Debug)]
pub struct Approval {
    pub id: String,
    pub project_id: String,
    pub artifact_id: String,
    pub artifact_version_id: String,
    pub artifact_content_hash: String,
    pub approval_type: ApprovalType,
    pub approver: LocalIdentity,
    pub rationale: Option<String>,
    pub created_at: String,
}

impl Clone for Approval {
    fn clone(&self) -> (res: Self)
        ensures
            res == *self,
    {
        Approval { id: self.id.clone(), project_id: self.project_id.clone(), artifact_id: self.artifact_id.clone(), artifact_version_id: self.artifact_version_id.clone(), artifact_content_hash: self.artifact_content_hash.clone(), approval_type: self.approval_type, approver: self.approver.clone(), rationale: self.rationale.clone(), created_at: self.created_at.clone() }
    }
}

/// A typed traceability link from a node to the node that justifies it.
#[derive(Debug)]
pub struct TraceLink {
    pub id: String,
    pub project_id: String,
    pub source_node_id: String,
    pub target_node_id: String,
    pub link_type: TraceLinkType,
    pub rationale: String,
    pub created_by: LocalIdentity,
    pub created_at: String,
}

impl Clone for TraceLink {
    fn clone(&self) -> (res: Self)
        ensures
            res == *self,
    {
        TraceLink { id: self.id.clone(), project_id: self.project_id.clone(), source_node_id: self.source_node_id.clone(), target_node_id: self.target_node_id.clone(), link_type: self.link_type, rationale: self.rationale.clone(), created_by: self.created_by.clone(), created_at: self.created_at.clone() }
    }
}

/// A raised drift alarm with its rule provenance and remediation path.
#[derive(Debug)]
pub struct DriftAlarm {
    pub id: String,
    pub project_id: String,
    pub alarm_type: DriftAlarmType,
    pub severity: DriftSeverity,
    pub status: DriftAlarmStatus,
    pub rule_id: String,
    pub affected_node_ids: Vec<String>,
    pub explanation: String,
    pub remediation: String,
    pub created_at: String,
}

/// Mathematical view of a [`DriftAlarm`]: its lists become sequences.
pub struct DriftAlarmView {
    pub id: String,
    pub project_id: String,
    pub alarm_type: DriftAlarmType,
    pub severity: DriftSeverity,
    pub status: DriftAlarmStatus,
    pub rule_id: String,
    pub affected_node_ids: Seq<String>,
    pub explanation: String,
    pub remediation: String,
    pub created_at: String,
}

impl View for DriftAlarm {
    type V = DriftAlarmView;

    open spec fn view(&self) -> DriftAlarmView {
        DriftAlarmView {
            id: self.id,
            project_id: self.project_id,
            alarm_type: self.alarm_type,
            severity: self.severity,
            status: self.status,
            rule_id: self.rule_id,
            affected_node_ids: self.affected_node_ids@,
            explanation: self.explanation,
            remediation: self.remediation,
            created_at: self.created_at,
        }
    }
}

impl Clone for DriftAlarm {
    fn clone(&self) -> (res: Self)
        ensures
            res@ == self@,
    {
        DriftAlarm { id: self.id.clone(), project_id: self.project_id.clone(), alarm_type: self.alarm_type, severity: self.severity, status: self.status, rule_id: self.rule_id.clone(), affected_node_ids: self.affected_node_ids.clone(), explanation: self.explanation.clone(), remediation: self.remediation.clone(), created_at: self.created_at.clone() }
    }
}

/// A formal change to the constitution.
#[derive(Debug)]
pub struct Amendment {
    pub id: String,
    pub project_id: String,
    pub reason: String,
    pub status: AmendmentStatus,
    pub created_at: String,
}

impl Clone for Amendment {
    fn clone(&self) -> (res: Self)
        ensures
            res == *self,
    {
        Amendment { id: self.id.clone(), project_id: self.project_id.clone(), reason: self.reason.clone(), status: self.status, created_at: self.created_at.clone() }
    }
}

/// A recorded state change.
#[derive(Debug)]
pub struct AuditEvent {
    pub id: String,
    pub project_id: String,
    pub event_type: String,
    pub subject_id: String,
    pub created_at: String,
}

impl Clone for AuditEvent {
    fn clone(&self) -> (res: Self)
        ensures
            res == *self,
    {
        AuditEvent { id: self.id.clone(), project_id: self.project_id.clone(), event_type: self.event_type.clone(), subject_id: self.subject_id.clone(), created_at: self.created_at.clone() }
    }
}

} // verus!
