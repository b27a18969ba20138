//! In-memory project store.
//!
//! Holds the full project state. Seeded with a demo project so the shell
//! has meaningful data on first launch.

use vstd::prelude::*;
use vstd::string::*;
use crate::readiness_gate::{
    approval_outdated, approval_rule, blocking_reasons_of, gate_clear, lemma_filter_map_empty, link_broken,
    link_rule, stale_rule, unapproved_rule, BlockingReason, GateRule,
};
use crate::domain::{
    Amendment, Approval, ApprovalType, Artifact, ArtifactState, ArtifactType, ArtifactVersion,
    AuditEvent, Constitution, ConstitutionView, DriftAlarm, DriftAlarmView, LocalIdentity,
    Project, ProjectSettings, ProjectView, TraceLink, TraceLinkType, ValidationSummary,
    SCHEMA_VERSION,
};

verus! {

/// The full state of one project.
#[derive(Debug)]
pub struct ProjectStore {
    pub project: Project,
    pub constitution: Constitution,
    pub artifacts: Vec<Artifact>,
    pub versions: Vec<ArtifactVersion>,
    pub approvals: Vec<Approval>,
    pub links: Vec<TraceLink>,
    pub alarms: Vec<DriftAlarm>,
    pub amendments: Vec<Amendment>,
    pub audit_events: Vec<AuditEvent>,
}

/// Mathematical view of a project's state.
pub struct ProjectStateView {
    pub project: ProjectView,
    pub constitution: ConstitutionView,
    pub artifacts: Seq<Artifact>,
    pub versions: Seq<ArtifactVersion>,
    pub approvals: Seq<Approval>,
    pub links: Seq<TraceLink>,
    pub alarms: Seq<DriftAlarmView>,
    pub amendments: Seq<Amendment>,
    pub audit_events: Seq<AuditEvent>,
}

pub open spec fn alarm_views(alarms: Seq<DriftAlarm>) -> Seq<DriftAlarmView> {
    alarms.map_values(|al: DriftAlarm| al@)
}

impl View for ProjectStore {
    type V = ProjectStateView;

    open spec fn view(&self) -> ProjectStateView {
        ProjectStateView {
            project: self.project@,
            constitution: self.constitution@,
            artifacts: self.artifacts@,
            versions: self.versions@,
            approvals: self.approvals@,
            links: self.links@,
            alarms: alarm_views(self.alarms@),
            amendments: self.amendments@,
            audit_events: self.audit_events@,
        }
    }
}


/// The timestamp of every record of the demo project.
pub open spec fn demo_time() -> Seq<char> {
    "2026-03-13T00:00:00Z"@
}

/// The demo's local identity.
pub open spec fn is_designer(who: LocalIdentity) -> bool {
    who.id@ == "user-1"@ && who.display_name@ == "Designer"@
}

/// What `make_artifact` builds from its arguments.
pub open spec fn is_made_artifact(
    a: Artifact,
    id: Seq<char>,
    artifact_type: ArtifactType,
    title: Seq<char>,
    state: ArtifactState,
) -> bool {
    &&& a.id@ == id
    &&& a.project_id@ == "proj-1"@
    &&& a.artifact_type == artifact_type
    &&& a.title@ == title
    &&& a.current_version_id@ == id + "-v1"@
    &&& a.state == state
    &&& a.validation_summary == ValidationSummary {}
    &&& a.latest_approval_id is None
    &&& a.stale_reason is None
    &&& a.created_at@ == demo_time()
    &&& a.updated_at@ == demo_time()
}

/// Builds a demo artifact whose current version is `{id}-v1`.
pub fn make_artifact(id: &str, art_type: ArtifactType, title: &str, state: ArtifactState) -> (artifact: Artifact)
    ensures
        is_made_artifact(artifact, id@, art_type, title@, state),
{
    Artifact {
        id: id.to_owned(),
        project_id: "proj-1".to_owned(),
        artifact_type: art_type,
        title: title.to_owned(),
        current_version_id: id.to_owned().concat("-v1"),
        state,
        validation_summary: ValidationSummary {},
        latest_approval_id: None,
        stale_reason: None,
        created_at: "2026-03-13T00:00:00Z".to_owned(),
        updated_at: "2026-03-13T00:00:00Z".to_owned(),
    }
}

/// What `make_link` builds from its arguments.
pub open spec fn is_made_link(
    l: TraceLink,
    source: Seq<char>,
    target: Seq<char>,
    link_type: TraceLinkType,
    identity: LocalIdentity,
) -> bool {
    &&& l.id@ == "link-"@ + source + "-"@ + target
    &&& l.project_id@ == "proj-1"@
    &&& l.source_node_id@ == source
    &&& l.target_node_id@ == target
    &&& l.link_type == link_type
    &&& l.rationale@ == "Justified per constitution"@
    &&& l.created_by == identity
    &&& l.created_at@ == demo_time()
}

/// Builds a demo trace link from `source` to the node `target` that justifies it.
pub fn make_link(source: &str, target: &str, link_type: TraceLinkType, identity: &LocalIdentity) -> (link: TraceLink)
    ensures
        is_made_link(link, source@, target@, link_type, *identity),
{
    let id = "link-".to_owned().concat(source).concat("-").concat(target);
    TraceLink {
        id,
        project_id: "proj-1".to_owned(),
        source_node_id: source.to_owned(),
        target_node_id: target.to_owned(),
        link_type,
        rationale: "Justified per constitution".to_owned(),
        created_by: identity.clone(),
        created_at: "2026-03-13T00:00:00Z".to_owned(),
    }
}


/// The demo's artifacts: id, type, title and state, in store order. The
/// first five are Approved, then one Valid, one Complete and one Draft.
pub open spec fn demo_artifact_rows() -> Seq<(Seq<char>, ArtifactType, Seq<char>, ArtifactState)> {
    seq![
        ("art-const"@, ArtifactType::Constitution, "Product Constitution"@, ArtifactState::Approved),
        ("art-wf"@, ArtifactType::UserFantasyWorkflows, "User Fantasy + Core Workflows"@, ArtifactState::Approved),
        ("art-feat"@, ArtifactType::FeatureMap, "Feature Map"@, ArtifactState::Approved),
        ("art-sys"@, ArtifactType::SystemArchitecture, "System Architecture"@, ArtifactState::Approved),
        ("art-ux"@, ArtifactType::UxStateMap, "UX State Map"@, ArtifactState::Approved),
        ("art-phase"@, ArtifactType::PhaseRoadmapContracts, "Phase Roadmap + Contracts"@, ArtifactState::Valid),
        ("art-check"@, ArtifactType::AcceptanceChecklists, "Acceptance Checklists"@, ArtifactState::Complete),
        ("art-drift"@, ArtifactType::DriftAlarmDefinitions, "Drift Alarm Definitions"@, ArtifactState::Draft),
    ]
}

/// The demo's trace links: source, target and type, in store order.
pub open spec fn demo_link_rows() -> Seq<(Seq<char>, Seq<char>, TraceLinkType)> {
    seq![
        ("art-wf"@, "art-const"@, TraceLinkType::DerivesFrom),
        ("art-feat"@, "art-wf"@, TraceLinkType::Justifies),
        ("art-sys"@, "art-feat"@, TraceLinkType::Implements),
        ("art-ux"@, "art-wf"@, TraceLinkType::DependsOn),
        ("art-ux"@, "art-sys"@, TraceLinkType::DependsOn),
        ("art-phase"@, "art-const"@, TraceLinkType::ValidatedBy),
        ("art-phase"@, "art-ux"@, TraceLinkType::DependsOn),
        ("art-check"@, "art-phase"@, TraceLinkType::DependsOn),
        ("art-drift"@, "art-const"@, TraceLinkType::InvalidatedBy),
    ]
}

pub open spec fn demo_project(p: ProjectView) -> bool {
    &&& p.id@ == "proj-1"@
    &&& p.schema_version@ == SCHEMA_VERSION@
    &&& p.name@ == "Forge Quest"@
    &&& p.slug@ == "forge-quest"@
    &&& p.description@ == "A narrative RPG crafting system with constitutional design governance"@
    &&& p.created_at@ == demo_time()
    &&& p.updated_at@ == demo_time()
    &&& is_designer(p.created_by)
    &&& p.current_constitution_version_id@ == "cv1"@
    &&& p.artifact_ids.map_values(|id: String| id@) == seq![
            "art-const"@,
            "art-wf"@,
            "art-feat"@,
            "art-sys"@,
            "art-ux"@,
            "art-phase"@,
            "art-check"@,
            "art-drift"@,
        ]
    &&& p.active_amendment_id is None
}

pub open spec fn demo_constitution(c: ConstitutionView) -> bool {
    &&& c.id@ == "const-1"@
    &&& c.artifact_id@ == "art-const"@
    &&& c.version_id@ == "cv1"@
    &&& c.project_id@ == "proj-1"@
    &&& c.one_sentence_promise@ == "Forge Quest delivers a crafting RPG where every recipe, \
                material, and progression path is narratively justified and mechanically coherent."@
    &&& c.user_fantasy@ == "You open the forge, select rare materials you've gathered through \
                story quests, and craft weapons that reflect both your choices and the world's \
                lore — not just stat sticks from a spreadsheet."@
    &&& c.non_negotiable_outcomes.map_values(|o: String| o@) == seq![
            "Every craftable item traces to a narrative source"@,
            "Material acquisition is gated by story progression, not grinding"@,
            "The crafting system respects the world's internal logic"@,
        ]
    &&& c.anti_goals.map_values(|g: String| g@) == seq![
            "No generic loot tables"@,
            "No pay-to-skip crafting"@,
            "No disconnected stat optimization"@,
        ]
    &&& c.quality_bar@ == "A player should never craft something that feels arbitrary or \
                world-breaking"@
    &&& c.failure_condition@ == "If a player can craft endgame gear without engaging with the \
                narrative, the system has failed"@
    &&& c.locked
    &&& c.content_hash@ == "hash-const-v1"@
    &&& c.created_at@ == demo_time()
    &&& c.updated_at@ == demo_time()
    &&& c.approved_at matches Some(t) && t@ == demo_time()
    &&& c.approved_by matches Some(who) && is_designer(who)
    &&& c.parent_version_id is None
}

pub open spec fn demo_artifacts(artifacts: Seq<Artifact>) -> bool {
    &&& artifacts.len() == demo_artifact_rows().len()
    &&& forall|i: int| 0 <= i < artifacts.len() ==> {
        let row = #[trigger] demo_artifact_rows()[i];
        is_made_artifact(artifacts[i], row.0, row.1, row.2, row.3)
    }
}

/// The first version of a demo artifact.
pub open spec fn is_demo_version(v: ArtifactVersion, a: Artifact) -> bool {
    &&& v.id@ == a.id@ + "-v1"@
    &&& v.artifact_id == a.id
    &&& v.project_id@ == "proj-1"@
    &&& v.version_number == 1
    &&& v.constitution_version_id@ == "cv1"@
    &&& v.content@ == "{\"placeholder\":true}"@
    &&& v.content_hash@ == "hash-"@ + a.id@
    &&& v.parent_version_id is None
    &&& v.created_at@ == demo_time()
    &&& is_designer(v.created_by)
}

pub open spec fn demo_versions(versions: Seq<ArtifactVersion>, artifacts: Seq<Artifact>) -> bool {
    &&& versions.len() == artifacts.len()
    &&& forall|i: int| 0 <= i < versions.len() ==> is_demo_version(#[trigger] versions[i], artifacts[i])
}

/// The demo holds an approval for each Approved artifact other than the constitution.
pub open spec fn approved_beyond_constitution(a: Artifact) -> bool {
    a.state == ArtifactState::Approved && a.artifact_type != ArtifactType::Constitution
}

/// The approval of a demo artifact's first version.
pub open spec fn is_demo_approval(ap: Approval, a: Artifact) -> bool {
    &&& ap.id@ == "appr-"@ + a.id@
    &&& ap.project_id@ == "proj-1"@
    &&& ap.artifact_id == a.id
    &&& ap.artifact_version_id@ == a.id@ + "-v1"@
    &&& ap.artifact_content_hash@ == "hash-"@ + a.id@
    &&& ap.approval_type == ApprovalType::Standard
    &&& is_designer(ap.approver)
    &&& ap.rationale is None
    &&& ap.created_at@ == demo_time()
}

pub open spec fn demo_approvals(approvals: Seq<Approval>, artifacts: Seq<Artifact>) -> bool {
    let approved = artifacts.filter(|a: Artifact| approved_beyond_constitution(a));
    &&& approvals.len() == approved.len()
    &&& forall|i: int| 0 <= i < approvals.len() ==> is_demo_approval(#[trigger] approvals[i], approved[i])
}

pub open spec fn demo_links(links: Seq<TraceLink>) -> bool {
    &&& links.len() == demo_link_rows().len()
    &&& forall|i: int| 0 <= i < links.len() ==> {
        let row = #[trigger] demo_link_rows()[i];
        &&& is_made_link(links[i], row.0, row.1, row.2, links[i].created_by)
        &&& is_designer(links[i].created_by)
    }
}

/// The ids of the demo's artifacts, in spine order.
fn demo_artifact_ids() -> (strings: Vec<String>)
    ensures
        strings@.map_values(|s: String| s@) == seq![
            "art-const"@,
            "art-wf"@,
            "art-feat"@,
            "art-sys"@,
            "art-ux"@,
            "art-phase"@,
            "art-check"@,
            "art-drift"@,
        ],
{
    let mut strings: Vec<String> = Vec::new();
    strings.push("art-const".to_owned());
    strings.push("art-wf".to_owned());
    strings.push("art-feat".to_owned());
    strings.push("art-sys".to_owned());
    strings.push("art-ux".to_owned());
    strings.push("art-phase".to_owned());
    strings.push("art-check".to_owned());
    strings.push("art-drift".to_owned());
    assert(strings@.map_values(|s: String| s@) =~= seq![
        "art-const"@,
        "art-wf"@,
        "art-feat"@,
        "art-sys"@,
        "art-ux"@,
        "art-phase"@,
        "art-check"@,
        "art-drift"@,
    ]);
    strings
}

/// The demo constitution's non-negotiable outcomes.
fn demo_outcomes() -> (strings: Vec<String>)
    ensures
        strings@.map_values(|s: String| s@) == seq![
            "Every craftable item traces to a narrative source"@,
            "Material acquisition is gated by story progression, not grinding"@,
            "The crafting system respects the world's internal logic"@,
        ],
{
    let mut strings: Vec<String> = Vec::new();
    strings.push("Every craftable item traces to a narrative source".to_owned());
    strings.push("Material acquisition is gated by story progression, not grinding".to_owned());
    strings.push("The crafting system respects the world's internal logic".to_owned());
    assert(strings@.map_values(|s: String| s@) =~= seq![
        "Every craftable item traces to a narrative source"@,
        "Material acquisition is gated by story progression, not grinding"@,
        "The crafting system respects the world's internal logic"@,
    ]);
    strings
}

/// The demo constitution's anti-goals.
fn demo_anti_goals() -> (strings: Vec<String>)
    ensures
        strings@.map_values(|s: String| s@) == seq![
            "No generic loot tables"@,
            "No pay-to-skip crafting"@,
            "No disconnected stat optimization"@,
        ],
{
    let mut strings: Vec<String> = Vec::new();
    strings.push("No generic loot tables".to_owned());
    strings.push("No pay-to-skip crafting".to_owned());
    strings.push("No disconnected stat optimization".to_owned());
    assert(strings@.map_values(|s: String| s@) =~= seq![
        "No generic loot tables"@,
        "No pay-to-skip crafting"@,
        "No disconnected stat optimization"@,
    ]);
    strings
}

/// The first version of each artifact, in artifact order.
fn first_versions(artifacts: &Vec<Artifact>, designer: &LocalIdentity) -> (versions: Vec<ArtifactVersion>)
    requires
        is_designer(*designer),
    ensures
        demo_versions(versions@, artifacts@),
{
    let mut versions: Vec<ArtifactVersion> = Vec::new();
    let mut i: usize = 0;
    while i < artifacts.len()
        invariant
            0 <= i <= artifacts.len(),
            is_designer(*designer),
            versions@.len() == i,
            forall|j: int| 0 <= j < i ==> is_demo_version(#[trigger] versions@[j], artifacts@[j]),
        decreases artifacts.len() - i,
    {
        let a = &artifacts[i];
        versions.push(ArtifactVersion {
            id: a.id.clone().concat("-v1"),
            artifact_id: a.id.clone(),
            project_id: "proj-1".to_owned(),
            version_number: 1,
            constitution_version_id: "cv1".to_owned(),
            content: "{\"placeholder\":true}".to_owned(),
            content_hash: "hash-".to_owned().concat(a.id.as_str()),
            parent_version_id: None,
            created_at: "2026-03-13T00:00:00Z".to_owned(),
            created_by: designer.clone(),
        });
        i = i + 1;
    }
    versions
}

/// An approval of the first version of each Approved artifact other than
/// the constitution, in artifact order.
fn first_approvals(artifacts: &Vec<Artifact>, designer: &LocalIdentity) -> (approvals: Vec<Approval>)
    requires
        is_designer(*designer),
    ensures
        demo_approvals(approvals@, artifacts@),
{
    let ghost pred = |a: Artifact| approved_beyond_constitution(a);
    let mut approvals: Vec<Approval> = Vec::new();
    let mut i: usize = 0;
    while i < artifacts.len()
        invariant
            0 <= i <= artifacts.len(),
            is_designer(*designer),
            pred == (|a: Artifact| approved_beyond_constitution(a)),
            approvals@.len() == artifacts@.take(i as int).filter(pred).len(),
            forall|j: int| 0 <= j < approvals@.len()
                ==> is_demo_approval(#[trigger] approvals@[j], artifacts@.take(i as int).filter(pred)[j]),
        decreases artifacts.len() - i,
    {
        proof {
            assert(artifacts@.take(i as int).push(artifacts@[i as int]) =~= artifacts@.take(i + 1));
            artifacts@.take(i as int).lemma_filter_push(artifacts@[i as int], pred);
        }
        let a = &artifacts[i];
        if a.state == ArtifactState::Approved && a.artifact_type != ArtifactType::Constitution {
            approvals.push(Approval {
                id: "appr-".to_owned().concat(a.id.as_str()),
                project_id: "proj-1".to_owned(),
                artifact_id: a.id.clone(),
                artifact_version_id: a.id.clone().concat("-v1"),
                artifact_content_hash: "hash-".to_owned().concat(a.id.as_str()),
                approval_type: ApprovalType::Standard,
                approver: designer.clone(),
                rationale: None,
                created_at: "2026-03-13T00:00:00Z".to_owned(),
            });
        }
        i = i + 1;
    }
    assert(artifacts@.take(artifacts.len() as int) =~= artifacts@);
    approvals
}


/// The demo's trace links, in store order.
fn demo_link_list(designer: &LocalIdentity) -> (links: Vec<TraceLink>)
    requires
        is_designer(*designer),
    ensures
        demo_links(links@),
{
    let mut links: Vec<TraceLink> = Vec::new();
    links.push(make_link("art-wf", "art-const", TraceLinkType::DerivesFrom, designer));
    links.push(make_link("art-feat", "art-wf", TraceLinkType::Justifies, designer));
    links.push(make_link("art-sys", "art-feat", TraceLinkType::Implements, designer));
    links.push(make_link("art-ux", "art-wf", TraceLinkType::DependsOn, designer));
    links.push(make_link("art-ux", "art-sys", TraceLinkType::DependsOn, designer));
    links.push(make_link("art-phase", "art-const", TraceLinkType::ValidatedBy, designer));
    links.push(make_link("art-phase", "art-ux", TraceLinkType::DependsOn, designer));
    links.push(make_link("art-check", "art-phase", TraceLinkType::DependsOn, designer));
    links.push(make_link("art-drift", "art-const", TraceLinkType::InvalidatedBy, designer));
    assert forall|i: int| 0 <= i < links@.len() implies {
        let row = #[trigger] demo_link_rows()[i];
        &&& is_made_link(links@[i], row.0, row.1, row.2, links@[i].created_by)
        &&& is_designer(links@[i].created_by)
    } by {
        assert(links@[i].created_by == *designer);
    }
    links
}

/// The demo's artifacts, in store order.
fn demo_artifact_list() -> (artifacts: Vec<Artifact>)
    ensures
        demo_artifacts(artifacts@),
{
    let mut artifacts: Vec<Artifact> = Vec::new();
    artifacts.push(make_artifact("art-const", ArtifactType::Constitution, "Product Constitution", ArtifactState::Approved));
    artifacts.push(make_artifact("art-wf", ArtifactType::UserFantasyWorkflows, "User Fantasy + Core Workflows", ArtifactState::Approved));
    artifacts.push(make_artifact("art-feat", ArtifactType::FeatureMap, "Feature Map", ArtifactState::Approved));
    artifacts.push(make_artifact("art-sys", ArtifactType::SystemArchitecture, "System Architecture", ArtifactState::Approved));
    artifacts.push(make_artifact("art-ux", ArtifactType::UxStateMap, "UX State Map", ArtifactState::Approved));
    artifacts.push(make_artifact("art-phase", ArtifactType::PhaseRoadmapContracts, "Phase Roadmap + Contracts", ArtifactState::Valid));
    artifacts.push(make_artifact("art-check", ArtifactType::AcceptanceChecklists, "Acceptance Checklists", ArtifactState::Complete));
    artifacts.push(make_artifact("art-drift", ArtifactType::DriftAlarmDefinitions, "Drift Alarm Definitions", ArtifactState::Draft));
    artifacts
}

impl ProjectStore {
    /// Builds a demo project with artifacts in mixed states: the first five
    /// Approved, then one Valid, one Complete and one Draft. Its gate is
    /// blocked, which is the interesting state for the shell.
    pub fn demo() -> (store: ProjectStore)
        ensures
            demo_project(store.project@),
            demo_constitution(store.constitution@),
            demo_artifacts(store.artifacts@),
            demo_versions(store.versions@, store.artifacts@),
            demo_approvals(store.approvals@, store.artifacts@),
            demo_links(store.links@),
            store.alarms@.len() == 0,
            store.amendments@.len() == 0,
            store.audit_events@.len() == 0,
    {
        let designer = LocalIdentity { id: "user-1".to_owned(), display_name: "Designer".to_owned() };
        let project = Project {
            id: "proj-1".to_owned(),
            schema_version: SCHEMA_VERSION.to_owned(),
            name: "Forge Quest".to_owned(),
            slug: "forge-quest".to_owned(),
            description: "A narrative RPG crafting system with constitutional design governance".to_owned(),
            created_at: "2026-03-13T00:00:00Z".to_owned(),
            updated_at: "2026-03-13T00:00:00Z".to_owned(),
            created_by: designer.clone(),
            current_constitution_version_id: "cv1".to_owned(),
            artifact_ids: demo_artifact_ids(),
            active_amendment_id: None,
            settings: ProjectSettings {},
        };
        let constitution = Constitution {
            id: "const-1".to_owned(),
            artifact_id: "art-const".to_owned(),
            version_id: "cv1".to_owned(),
            project_id: "proj-1".to_owned(),
            one_sentence_promise: "Forge Quest delivers a crafting RPG where every recipe, \
                material, and progression path is narratively justified and mechanically coherent.".to_owned(),
            user_fantasy: "You open the forge, select rare materials you've gathered through \
                story quests, and craft weapons that reflect both your choices and the world's \
                lore — not just stat sticks from a spreadsheet.".to_owned(),
            non_negotiable_outcomes: demo_outcomes(),
            anti_goals: demo_anti_goals(),
            quality_bar: "A player should never craft something that feels arbitrary or \
                world-breaking".to_owned(),
            failure_condition: "If a player can craft endgame gear without engaging with the \
                narrative, the system has failed".to_owned(),
            locked: true,
            content_hash: "hash-const-v1".to_owned(),
            created_at: "2026-03-13T00:00:00Z".to_owned(),
            updated_at: "2026-03-13T00:00:00Z".to_owned(),
            approved_at: Some("2026-03-13T00:00:00Z".to_owned()),
            approved_by: Some(designer.clone()),
            parent_version_id: None,
        };
        let artifacts = demo_artifact_list();
        let versions = first_versions(&artifacts, &designer);
        let approvals = first_approvals(&artifacts, &designer);
        let links = demo_link_list(&designer);
        ProjectStore {
            project,
            constitution,
            artifacts,
            versions,
            approvals,
            links,
            alarms: Vec::new(),
            amendments: Vec::new(),
            audit_events: Vec::new(),
        }
    }
}


/// The demo project's gate is blocked: its Drift Alarm Definitions artifact
/// is still a Draft.
pub proof fn demo_gate_is_blocked(store: ProjectStore)
    requires
        demo_artifacts(store.artifacts@),
    ensures
        !gate_clear(
            store.artifacts@,
            store.versions@,
            store.approvals@,
            store.links@,
            store.project.current_constitution_version_id@,
            store.alarms@,
            store.amendments@,
        ),
{
    let row = demo_artifact_rows()[7];
    assert(is_made_artifact(store.artifacts@[7], row.0, row.1, row.2, row.3));
}


/// For each demo link, the positions of its source and target among the
/// demo's artifacts.
pub open spec fn demo_link_endpoints() -> Seq<(int, int)> {
    seq![(1, 0), (2, 1), (3, 2), (4, 1), (4, 3), (5, 0), (5, 4), (6, 5), (7, 0)]
}

/// The demo is referentially sound: every trace link joins two of its
/// artifacts, and no approval binds a version made under another
/// constitution version. What blocks its gate is the lifecycle alone.
pub proof fn demo_is_coherent(store: ProjectStore)
    requires
        demo_project(store.project@),
        demo_artifacts(store.artifacts@),
        demo_versions(store.versions@, store.artifacts@),
        demo_links(store.links@),
    ensures
        forall|i: int| 0 <= i < store.links@.len() ==> !link_broken(store.artifacts@, #[trigger] store.links@[i]),
        forall|i: int| 0 <= i < store.approvals@.len() ==> !approval_outdated(
            store.versions@,
            store.project.current_constitution_version_id@,
            #[trigger] store.approvals@[i],
        ),
{
    assert forall|i: int| 0 <= i < store.artifacts@.len() implies {
        let row = #[trigger] demo_artifact_rows()[i];
        is_made_artifact(store.artifacts@[i], row.0, row.1, row.2, row.3)
    } by {}
    assert forall|i: int| 0 <= i < store.links@.len() implies !link_broken(store.artifacts@, #[trigger] store.links@[i]) by {
        let row = demo_link_rows()[i];
        let (s, t) = demo_link_endpoints()[i];
        assert(is_made_link(store.links@[i], row.0, row.1, row.2, store.links@[i].created_by));
        assert(demo_artifact_rows()[s].0 == row.0 && demo_artifact_rows()[t].0 == row.1);
        assert(store.artifacts@[s].id@ == store.links@[i].source_node_id@);
        assert(store.artifacts@[t].id@ == store.links@[i].target_node_id@);
    }
    assert forall|j: int| 0 <= j < store.versions@.len() implies (#[trigger] store.versions@[j]).constitution_version_id@
        == store.project.current_constitution_version_id@ by {
        assert(is_demo_version(store.versions@[j], store.artifacts@[j]));
    }
}


/// The demo's readiness gate reports exactly three blocking reasons: the
/// Valid phase roadmap, the Complete acceptance checklists and the Draft
/// drift alarm definitions are not yet Approved.
pub proof fn demo_blocking_reasons(store: ProjectStore)
    requires
        demo_project(store.project@),
        demo_artifacts(store.artifacts@),
        demo_versions(store.versions@, store.artifacts@),
        demo_links(store.links@),
        store.alarms@.len() == 0,
        store.amendments@.len() == 0,
    ensures
        blocking_reasons_of(
            store.artifacts@,
            store.versions@,
            store.approvals@,
            store.links@,
            store.project.current_constitution_version_id@,
            store.alarms@,
            store.amendments@,
        ) == seq![
            BlockingReason { rule: GateRule::ArtifactNotApproved, subject_id: store.artifacts@[5].id },
            BlockingReason { rule: GateRule::ArtifactNotApproved, subject_id: store.artifacts@[6].id },
            BlockingReason { rule: GateRule::ArtifactNotApproved, subject_id: store.artifacts@[7].id },
        ],
{
    let arts = store.artifacts@;
    assert forall|i: int| 0 <= i < arts.len() implies {
        let row = #[trigger] demo_artifact_rows()[i];
        is_made_artifact(arts[i], row.0, row.1, row.2, row.3)
    } by {}
    demo_is_coherent(store);
        arts.lemma_filter_map_take_succ(unapproved_rule(), 0);
        arts.lemma_filter_map_take_succ(unapproved_rule(), 1);
        arts.lemma_filter_map_take_succ(unapproved_rule(), 2);
        arts.lemma_filter_map_take_succ(unapproved_rule(), 3);
        arts.lemma_filter_map_take_succ(unapproved_rule(), 4);
        arts.lemma_filter_map_take_succ(unapproved_rule(), 5);
        arts.lemma_filter_map_take_succ(unapproved_rule(), 6);
        arts.lemma_filter_map_take_succ(unapproved_rule(), 7);
    assert(arts.take(8) =~= arts);
    assert(arts.take(0).filter_map(unapproved_rule()) =~= Seq::<BlockingReason>::empty());
    lemma_filter_map_empty(arts, stale_rule());
    assert forall|i: int| 0 <= i < arts.len() implies (#[trigger] stale_rule()(arts[i])) is None by {}
    lemma_filter_map_empty(store.alarms@, crate::readiness_gate::alarm_rule());
    lemma_filter_map_empty(store.amendments@, crate::readiness_gate::amendment_rule());
    lemma_filter_map_empty(
        store.approvals@,
        approval_rule(store.versions@, store.project.current_constitution_version_id@),
    );
    assert forall|i: int| 0 <= i < store.approvals@.len() implies (#[trigger] approval_rule(
        store.versions@,
        store.project.current_constitution_version_id@,
    )(store.approvals@[i])) is None by {}
    lemma_filter_map_empty(store.links@, link_rule(arts));
    assert forall|i: int| 0 <= i < store.links@.len() implies (#[trigger] link_rule(arts)(store.links@[i])) is None by {}
    assert(blocking_reasons_of(
        arts,
        store.versions@,
        store.approvals@,
        store.links@,
        store.project.current_constitution_version_id@,
        store.alarms@,
        store.amendments@,
    ) =~= seq![
        BlockingReason { rule: GateRule::ArtifactNotApproved, subject_id: arts[5].id },
        BlockingReason { rule: GateRule::ArtifactNotApproved, subject_id: arts[6].id },
        BlockingReason { rule: GateRule::ArtifactNotApproved, subject_id: arts[7].id },
    ]);
}


/// Everything `ProjectStore::demo` promises of its result.
pub open spec fn is_demo(store: ProjectStore) -> bool {
    &&& demo_project(store.project@)
    &&& demo_constitution(store.constitution@)
    &&& demo_artifacts(store.artifacts@)
    &&& demo_versions(store.versions@, store.artifacts@)
    &&& demo_approvals(store.approvals@, store.artifacts@)
    &&& demo_links(store.links@)
    &&& store.alarms@.len() == 0
    &&& store.amendments@.len() == 0
    &&& store.audit_events@.len() == 0
}

/// Two artifacts agree in every field's text.
pub open spec fn same_artifact(a: Artifact, b: Artifact) -> bool {
    &&& a.id@ == b.id@
    &&& a.project_id@ == b.project_id@
    &&& a.artifact_type == b.artifact_type
    &&& a.title@ == b.title@
    &&& a.current_version_id@ == b.current_version_id@
    &&& a.state == b.state
    &&& a.latest_approval_id == b.latest_approval_id
    &&& a.stale_reason == b.stale_reason
    &&& a.created_at@ == b.created_at@
    &&& a.updated_at@ == b.updated_at@
}

proof fn lemma_filter_parallel(a: Seq<Artifact>, b: Seq<Artifact>, p: spec_fn(Artifact) -> bool)
    requires
        a.len() == b.len(),
        forall|i: int| 0 <= i < a.len() ==> p(a[i]) == p(b[i]) && same_artifact(#[trigger] a[i], b[i]),
    ensures
        a.filter(p).len() == b.filter(p).len(),
        forall|k: int| 0 <= k < a.filter(p).len() ==> same_artifact(#[trigger] a.filter(p)[k], b.filter(p)[k]),
    decreases a.len(),
{
    reveal(Seq::filter);
    if a.len() > 0 {
        let (a0, b0) = (a.drop_last(), b.drop_last());
        assert forall|i: int| 0 <= i < a0.len() implies p(a0[i]) == p(b0[i]) && same_artifact(#[trigger] a0[i], b0[i]) by {
            assert(a0[i] == a[i] && b0[i] == b[i]);
        }
        lemma_filter_parallel(a0, b0, p);
        assert(p(a.last()) == p(b.last()) && same_artifact(a.last(), b.last()));
    }
}

/// The demo is deterministic: any two demo stores agree field by field.
/// Nothing in it depends on a clock, on chance or on the machine.
pub proof fn demo_is_deterministic(s1: ProjectStore, s2: ProjectStore)
    requires
        is_demo(s1),
        is_demo(s2),
    ensures
        s1.project@.id@ == s2.project@.id@ && s1.project@.name@ == s2.project@.name@,
        s1.project@.slug@ == s2.project@.slug@ && s1.project@.description@ == s2.project@.description@,
        s1.project@.schema_version@ == s2.project@.schema_version@,
        s1.project@.artifact_ids.map_values(|id: String| id@) == s2.project@.artifact_ids.map_values(|id: String| id@),
        s1.constitution@.version_id@ == s2.constitution@.version_id@,
        s1.constitution@.one_sentence_promise@ == s2.constitution@.one_sentence_promise@,
        s1.constitution@.user_fantasy@ == s2.constitution@.user_fantasy@,
        s1.constitution@.non_negotiable_outcomes.map_values(|o: String| o@)
            == s2.constitution@.non_negotiable_outcomes.map_values(|o: String| o@),
        s1.constitution@.anti_goals.map_values(|g: String| g@) == s2.constitution@.anti_goals.map_values(|g: String| g@),
        s1.constitution@.quality_bar@ == s2.constitution@.quality_bar@,
        s1.constitution@.failure_condition@ == s2.constitution@.failure_condition@,
        s1.artifacts@.len() == s2.artifacts@.len(),
        forall|i: int| 0 <= i < s1.artifacts@.len() ==> same_artifact(#[trigger] s1.artifacts@[i], s2.artifacts@[i]),
        s1.versions@.len() == s2.versions@.len(),
        forall|i: int| 0 <= i < s1.versions@.len() ==> {
            &&& (#[trigger] s1.versions@[i]).id@ == s2.versions@[i].id@
            &&& s1.versions@[i].artifact_id@ == s2.versions@[i].artifact_id@
            &&& s1.versions@[i].version_number == s2.versions@[i].version_number
            &&& s1.versions@[i].constitution_version_id@ == s2.versions@[i].constitution_version_id@
            &&& s1.versions@[i].content@ == s2.versions@[i].content@
            &&& s1.versions@[i].content_hash@ == s2.versions@[i].content_hash@
        },
        s1.approvals@.len() == s2.approvals@.len(),
        forall|i: int| 0 <= i < s1.approvals@.len() ==> {
            &&& (#[trigger] s1.approvals@[i]).id@ == s2.approvals@[i].id@
            &&& s1.approvals@[i].artifact_id@ == s2.approvals@[i].artifact_id@
            &&& s1.approvals@[i].artifact_version_id@ == s2.approvals@[i].artifact_version_id@
            &&& s1.approvals@[i].artifact_content_hash@ == s2.approvals@[i].artifact_content_hash@
        },
        s1.links@.len() == s2.links@.len(),
        forall|i: int| 0 <= i < s1.links@.len() ==> {
            &&& (#[trigger] s1.links@[i]).id@ == s2.links@[i].id@
            &&& s1.links@[i].source_node_id@ == s2.links@[i].source_node_id@
            &&& s1.links@[i].target_node_id@ == s2.links@[i].target_node_id@
            &&& s1.links@[i].link_type == s2.links@[i].link_type
            &&& s1.links@[i].rationale@ == s2.links@[i].rationale@
        },
        s1.alarms@.len() == 0 && s2.alarms@.len() == 0,
        s1.amendments@.len() == 0 && s2.amendments@.len() == 0,
        s1.audit_events@.len() == 0 && s2.audit_events@.len() == 0,
{
    assert forall|i: int| 0 <= i < s1.artifacts@.len() implies same_artifact(#[trigger] s1.artifacts@[i], s2.artifacts@[i]) by {
        let row = demo_artifact_rows()[i];
        assert(is_made_artifact(s1.artifacts@[i], row.0, row.1, row.2, row.3));
        assert(is_made_artifact(s2.artifacts@[i], row.0, row.1, row.2, row.3));
    }
    assert forall|i: int| 0 <= i < s1.versions@.len() implies {
        &&& (#[trigger] s1.versions@[i]).id@ == s2.versions@[i].id@
        &&& s1.versions@[i].artifact_id@ == s2.versions@[i].artifact_id@
        &&& s1.versions@[i].version_number == s2.versions@[i].version_number
        &&& s1.versions@[i].constitution_version_id@ == s2.versions@[i].constitution_version_id@
        &&& s1.versions@[i].content@ == s2.versions@[i].content@
        &&& s1.versions@[i].content_hash@ == s2.versions@[i].content_hash@
    } by {
        assert(is_demo_version(s1.versions@[i], s1.artifacts@[i]));
        assert(is_demo_version(s2.versions@[i], s2.artifacts@[i]));
        assert(same_artifact(s1.artifacts@[i], s2.artifacts@[i]));
    }
    let p = |a: Artifact| approved_beyond_constitution(a);
    lemma_filter_parallel(s1.artifacts@, s2.artifacts@, p);
    assert forall|i: int| 0 <= i < s1.approvals@.len() implies {
        &&& (#[trigger] s1.approvals@[i]).id@ == s2.approvals@[i].id@
        &&& s1.approvals@[i].artifact_id@ == s2.approvals@[i].artifact_id@
        &&& s1.approvals@[i].artifact_version_id@ == s2.approvals@[i].artifact_version_id@
        &&& s1.approvals@[i].artifact_content_hash@ == s2.approvals@[i].artifact_content_hash@
    } by {
        assert(is_demo_approval(s1.approvals@[i], s1.artifacts@.filter(p)[i]));
        assert(is_demo_approval(s2.approvals@[i], s2.artifacts@.filter(p)[i]));
        assert(same_artifact(s1.artifacts@.filter(p)[i], s2.artifacts@.filter(p)[i]));
    }
    assert forall|i: int| 0 <= i < s1.links@.len() implies {
        &&& (#[trigger] s1.links@[i]).id@ == s2.links@[i].id@
        &&& s1.links@[i].source_node_id@ == s2.links@[i].source_node_id@
        &&& s1.links@[i].target_node_id@ == s2.links@[i].target_node_id@
        &&& s1.links@[i].link_type == s2.links@[i].link_type
        &&& s1.links@[i].rationale@ == s2.links@[i].rationale@
    } by {
        let row = demo_link_rows()[i];
        assert(is_made_link(s1.links@[i], row.0, row.1, row.2, s1.links@[i].created_by));
        assert(is_made_link(s2.links@[i], row.0, row.1, row.2, s2.links@[i].created_by));
    }
}

} // verus!
