//! The queries and mutations behind the desktop shell's commands.
//!
//! The shell calls these through its command layer; they call the law
//! engine. The shell never computes readiness, transitions or export
//! eligibility on its own.

use vstd::prelude::*;
use vstd::string::*;
use crate::domain::{
    Approval, ApprovalType, Artifact, ArtifactState, ArtifactType, ArtifactVersion, DriftAlarm,
    DriftAlarmStatus, GateStatus, Project, TraceLink, TraceLinkType,
};
use crate::export::{store_gate_clear, ExportBlocked, ExportFile, ExportPackage};
use crate::readiness_gate::{evaluate, BlockingReason, GateEvaluation};
use crate::state_machine::{is_legal_transition, legal_targets, legal_transition, states_in_order};
use crate::store::ProjectStore;
use crate::text::{
    decimal, decimal_text, lemma_text_le_transitive, lemma_text_lt_asymmetric,
    lemma_text_lt_irreflexive, text_less, text_lt,
};
use crate::render::{state_name, state_name_str};
use crate::traceability::{
    find_version, version_with_id,
    downstream_links, downstream_of, find_artifact, first_artifact, has_artifact,
    is_first_artifact, lemma_first_artifact_unique, upstream_links, upstream_of,
};

verus! {

// ─── Response types ────────────────────────────────────────

/// Overview of a project for the artifact index.
#[derive(Debug)]
pub struct ProjectSnapshot {
    pub project: Project,
    pub artifacts: Vec<ArtifactRow>,
    pub gate_status: GateStatus,
    pub active_alarm_count: usize,
    pub stale_count: usize,
}

/// One line of the artifact index.
#[derive(Debug)]
pub struct ArtifactRow {
    pub id: String,
    pub artifact_type: ArtifactType,
    pub title: String,
    pub state: ArtifactState,
    pub version_number: u32,
    pub has_approval: bool,
    pub upstream_count: usize,
    pub downstream_count: usize,
    pub alarm_count: usize,
    pub updated_at: String,
}

/// Everything the shell shows about one artifact.
#[derive(Debug)]
pub struct ArtifactDetailResponse {
    pub artifact: Artifact,
    pub version: Option<ArtifactVersion>,
    pub approval: Option<Approval>,
    pub outgoing_links: Vec<TraceLinkRow>,
    pub incoming_links: Vec<TraceLinkRow>,
    pub active_alarms: Vec<DriftAlarm>,
    pub legal_transitions: Vec<ArtifactState>,
}

/// Enriched trace link with resolved artifact titles.
#[derive(Debug)]
pub struct TraceLinkRow {
    pub id: String,
    pub source_id: String,
    pub source_title: String,
    pub target_id: String,
    pub target_title: String,
    pub link_type: TraceLinkType,
    pub rationale: String,
}

/// The export panel: either the files that would be written, or why not.
#[derive(Debug)]
pub struct ExportPreviewResponse {
    pub ready: bool,
    pub files: Vec<ExportFilePreview>,
    pub blocked_reason: Option<String>,
    pub blocking_reasons: Vec<BlockingReason>,
}

/// One file of the export package: its path, size in bytes, and first
/// 200 characters.
#[derive(Debug)]
pub struct ExportFilePreview {
    pub path: String,
    pub size_bytes: usize,
    pub content_preview: String,
}

/// The outcome of a lifecycle mutation.
#[derive(Debug)]
pub struct TransitionResponse {
    pub success: bool,
    pub new_state: Option<ArtifactState>,
    pub error: Option<String>,
}

// ─── Trace link rows ───────────────────────────────────────

/// The title shown for node `id`: the title of the first artifact with that
/// id, or the id itself when no artifact has it.
pub open spec fn title_for(artifacts: Seq<Artifact>, id: String) -> String {
    if has_artifact(artifacts, id@) {
        first_artifact(artifacts, id@).title
    } else {
        id
    }
}

/// The row that shows `link` with resolved titles.
pub open spec fn link_row(link: TraceLink, artifacts: Seq<Artifact>) -> TraceLinkRow {
    TraceLinkRow {
        id: link.id,
        source_id: link.source_node_id,
        source_title: title_for(artifacts, link.source_node_id),
        target_id: link.target_node_id,
        target_title: title_for(artifacts, link.target_node_id),
        link_type: link.link_type,
        rationale: link.rationale,
    }
}

fn resolve_title(id: &String, artifacts: &[Artifact]) -> (title: String)
    ensures
        title == title_for(artifacts@, *id),
{
    match find_artifact(artifacts, id) {
        Some(i) => {
            proof {
                lemma_first_artifact_unique(artifacts@, id@, i as int);
            }
            artifacts[i].title.clone()
        },
        None => id.clone(),
    }
}

/// Enriches a trace link with the titles of its endpoints.
pub fn enrich_link(link: &TraceLink, artifacts: &[Artifact]) -> (row: TraceLinkRow)
    ensures
        row == link_row(*link, artifacts@),
{
    TraceLinkRow {
        id: link.id.clone(),
        source_id: link.source_node_id.clone(),
        source_title: resolve_title(&link.source_node_id, artifacts),
        target_id: link.target_node_id.clone(),
        target_title: resolve_title(&link.target_node_id, artifacts),
        link_type: link.link_type,
        rationale: link.rationale.clone(),
    }
}


// ─── Lookups ───────────────────────────────────────────────

/// Some approval concerns the artifact with id `id`.
pub open spec fn has_approval_for(approvals: Seq<Approval>, id: Seq<char>) -> bool {
    exists|k: int| 0 <= k < approvals.len() && approvals[k].artifact_id@ == id
}

fn any_approval_for(approvals: &Vec<Approval>, id: &String) -> (found: bool)
    ensures
        found == has_approval_for(approvals@, id@),
{
    let mut i: usize = 0;
    while i < approvals.len()
        invariant
            0 <= i <= approvals.len(),
            forall|j: int| 0 <= j < i ==> approvals@[j].artifact_id@ != id@,
        decreases approvals.len() - i,
    {
        if approvals[i].artifact_id == *id {
            return true;
        }
        i = i + 1;
    }
    false
}

/// The alarm is active and names node `id` among the nodes it affects.
pub open spec fn alarm_active_on(al: DriftAlarm, id: Seq<char>) -> bool {
    &&& al.status == DriftAlarmStatus::Active
    &&& exists|k: int| 0 <= k < al.affected_node_ids@.len() && (#[trigger] al.affected_node_ids@[k])@ == id
}

pub open spec fn active_on(id: Seq<char>) -> spec_fn(DriftAlarm) -> bool {
    |al: DriftAlarm| alarm_active_on(al, id)
}

fn ids_contain(ids: &Vec<String>, id: &String) -> (found: bool)
    ensures
        found == exists|k: int| 0 <= k < ids@.len() && (#[trigger] ids@[k])@ == id@,
{
    let mut i: usize = 0;
    while i < ids.len()
        invariant
            0 <= i <= ids.len(),
            forall|j: int| 0 <= j < i ==> (#[trigger] ids@[j])@ != id@,
        decreases ids.len() - i,
    {
        if ids[i] == *id {
            return true;
        }
        i = i + 1;
    }
    false
}

/// Copies of the active alarms that affect node `id`, in alarm order.
fn active_alarms_on(alarms: &Vec<DriftAlarm>, id: &String) -> (found: Vec<DriftAlarm>)
    ensures
        found@.map_values(|al: DriftAlarm| al@) == alarms@.filter(active_on(id@)).map_values(
            |al: DriftAlarm| al@,
        ),
        found@.len() == alarms@.filter(active_on(id@)).len(),
{
    let ghost pred = active_on(id@);
    let ghost kept = Seq::<DriftAlarm>::empty();
    let mut found: Vec<DriftAlarm> = Vec::new();
    let mut i: usize = 0;
    while i < alarms.len()
        invariant
            0 <= i <= alarms.len(),
            pred == active_on(id@),
            kept == alarms@.take(i as int).filter(pred),
            found@.len() == kept.len(),
            forall|k: int| 0 <= k < kept.len() ==> (#[trigger] found@[k])@ == kept[k]@,
        decreases alarms.len() - i,
    {
        proof {
            assert(alarms@.take(i as int).push(alarms@[i as int]) =~= alarms@.take(i + 1));
            alarms@.take(i as int).lemma_filter_push(alarms@[i as int], pred);
        }
        let al = &alarms[i];
        if al.status == DriftAlarmStatus::Active && ids_contain(&al.affected_node_ids, id) {
            found.push(al.clone());
            proof {
                kept = kept.push(alarms@[i as int]);
            }
        }
        i = i + 1;
    }
    assert(alarms@.take(alarms.len() as int) =~= alarms@);
    assert(found@.map_values(|al: DriftAlarm| al@) =~= kept.map_values(|al: DriftAlarm| al@));
    found
}


// ─── Read-only queries ─────────────────────────────────────

/// The version number of the artifact's current version, or 0 when that
/// version is missing.
pub open spec fn current_version_number(versions: Seq<ArtifactVersion>, a: Artifact) -> u32 {
    match version_with_id(versions, a.current_version_id@) {
        Some(v) => v.version_number,
        None => 0,
    }
}

/// `row` is the index line of artifact `a` in a project with these versions,
/// approvals, links and alarms.
pub open spec fn is_row_of(
    row: ArtifactRow,
    a: Artifact,
    versions: Seq<ArtifactVersion>,
    approvals: Seq<Approval>,
    links: Seq<TraceLink>,
    alarms: Seq<DriftAlarm>,
) -> bool {
    &&& row.id == a.id
    &&& row.artifact_type == a.artifact_type
    &&& row.title == a.title
    &&& row.state == a.state
    &&& row.version_number == current_version_number(versions, a)
    &&& row.has_approval == has_approval_for(approvals, a.id@)
    &&& row.upstream_count == upstream_of(links, a.id@).len()
    &&& row.downstream_count == downstream_of(links, a.id@).len()
    &&& row.alarm_count == alarms.filter(active_on(a.id@)).len()
    &&& row.updated_at == a.updated_at
}

pub open spec fn is_stale(a: Artifact) -> bool {
    a.state == ArtifactState::Stale
}

pub open spec fn is_active(al: DriftAlarm) -> bool {
    al.status == DriftAlarmStatus::Active
}

/// Counting the project's active alarms: a resolved alarm adds nothing to
/// the count and an active alarm adds one, whatever alarms came before.
pub proof fn active_alarm_count_follows_status(alarms: Seq<DriftAlarm>, added: DriftAlarm)
    ensures
        added.status == DriftAlarmStatus::Resolved ==> alarms.push(added).filter(|al: DriftAlarm| is_active(al)).len()
            == alarms.filter(|al: DriftAlarm| is_active(al)).len(),
        added.status == DriftAlarmStatus::Active ==> alarms.push(added).filter(|al: DriftAlarm| is_active(al)).len()
            == alarms.filter(|al: DriftAlarm| is_active(al)).len() + 1,
        Seq::<DriftAlarm>::empty().filter(|al: DriftAlarm| is_active(al)).len() == 0,
{
    alarms.lemma_filter_len_push(|al: DriftAlarm| is_active(al), added);
    reveal(Seq::filter);
}

/// An active alarm is listed on every artifact whose id occurs among the
/// nodes it affects, at whatever position.
pub proof fn active_alarm_listed_on_every_affected_artifact(alarms: Seq<DriftAlarm>, id: Seq<char>, i: int, k: int)
    requires
        0 <= i < alarms.len(),
        alarms[i].status == DriftAlarmStatus::Active,
        0 <= k < alarms[i].affected_node_ids@.len(),
        alarms[i].affected_node_ids@[k]@ == id,
    ensures
        alarms.filter(active_on(id)).contains(alarms[i]),
{
    assert(active_on(id)(alarms[i]));
    alarms.lemma_filter_contains(active_on(id), i);
}

/// Only active alarms that name the artifact among their affected nodes are
/// listed on it.
pub proof fn listed_alarms_are_active_on_the_artifact(alarms: Seq<DriftAlarm>, id: Seq<char>, al: DriftAlarm)
    requires
        alarms.filter(active_on(id)).contains(al),
    ensures
        alarms.contains(al),
        al.status == DriftAlarmStatus::Active,
        exists|k: int| 0 <= k < al.affected_node_ids@.len() && (#[trigger] al.affected_node_ids@[k])@ == id,
{
    alarms.lemma_filter_contains_rev(active_on(id), al);
    let j = choose|j: int| 0 <= j < alarms.filter(active_on(id)).len() && alarms.filter(active_on(id))[j] == al;
    alarms.lemma_filter_pred(active_on(id), j);
}

/// The alarm count of an artifact: one more alarm raises it by one exactly
/// when that alarm is active and names the artifact at some position among
/// its affected nodes.
pub proof fn artifact_alarm_count_follows_alarms(alarms: Seq<DriftAlarm>, id: Seq<char>, al: DriftAlarm)
    ensures
        (al.status == DriftAlarmStatus::Active && exists|k: int|
            0 <= k < al.affected_node_ids@.len() && (#[trigger] al.affected_node_ids@[k])@ == id)
            ==> alarms.push(al).filter(active_on(id)).len() == alarms.filter(active_on(id)).len() + 1,
        !(al.status == DriftAlarmStatus::Active && exists|k: int|
            0 <= k < al.affected_node_ids@.len() && (#[trigger] al.affected_node_ids@[k])@ == id)
            ==> alarms.push(al).filter(active_on(id)).len() == alarms.filter(active_on(id)).len(),
{
    alarms.lemma_filter_len_push(active_on(id), al);
}

fn count_stale(artifacts: &Vec<Artifact>) -> (count: usize)
    ensures
        count == artifacts@.filter(|a: Artifact| is_stale(a)).len(),
{
    let ghost pred = |a: Artifact| is_stale(a);
    let mut count: usize = 0;
    let mut i: usize = 0;
    while i < artifacts.len()
        invariant
            0 <= i <= artifacts.len(),
            pred == (|a: Artifact| is_stale(a)),
            count == artifacts@.take(i as int).filter(pred).len(),
            count <= i,
        decreases artifacts.len() - i,
    {
        proof {
            assert(artifacts@.take(i as int).push(artifacts@[i as int]) =~= artifacts@.take(i + 1));
            artifacts@.take(i as int).lemma_filter_push(artifacts@[i as int], pred);
        }
        if artifacts[i].state == ArtifactState::Stale {
            count = count + 1;
        }
        i = i + 1;
    }
    assert(artifacts@.take(artifacts.len() as int) =~= artifacts@);
    count
}

fn count_active(alarms: &Vec<DriftAlarm>) -> (count: usize)
    ensures
        count == alarms@.filter(|al: DriftAlarm| is_active(al)).len(),
{
    let ghost pred = |al: DriftAlarm| is_active(al);
    let mut count: usize = 0;
    let mut i: usize = 0;
    while i < alarms.len()
        invariant
            0 <= i <= alarms.len(),
            pred == (|al: DriftAlarm| is_active(al)),
            count == alarms@.take(i as int).filter(pred).len(),
            count <= i,
        decreases alarms.len() - i,
    {
        proof {
            assert(alarms@.take(i as int).push(alarms@[i as int]) =~= alarms@.take(i + 1));
            alarms@.take(i as int).lemma_filter_push(alarms@[i as int], pred);
        }
        if alarms[i].status == DriftAlarmStatus::Active {
            count = count + 1;
        }
        i = i + 1;
    }
    assert(alarms@.take(alarms.len() as int) =~= alarms@);
    count
}

/// The index line of one artifact.
fn artifact_row(a: &Artifact, store: &ProjectStore) -> (row: ArtifactRow)
    ensures
        is_row_of(row, *a, store.versions@, store.approvals@, store.links@, store.alarms@),
{
    let upstream = upstream_links(&a.id, &store.links);
    let downstream = downstream_links(&a.id, &store.links);
    let alarms = active_alarms_on(&store.alarms, &a.id);
    let version_number = match find_version(&store.versions, &a.current_version_id) {
        Some(v) => v.version_number,
        None => 0,
    };
    ArtifactRow {
        id: a.id.clone(),
        artifact_type: a.artifact_type,
        title: a.title.clone(),
        state: a.state,
        version_number,
        has_approval: any_approval_for(&store.approvals, &a.id),
        upstream_count: upstream.len(),
        downstream_count: downstream.len(),
        alarm_count: alarms.len(),
        updated_at: a.updated_at.clone(),
    }
}

/// The project overview: one index line per artifact, in store order, the
/// gate's status, and the numbers of active alarms and of stale artifacts.
pub fn get_project_snapshot(store: &ProjectStore) -> (snapshot: ProjectSnapshot)
    ensures
        snapshot.project@ == store.project@,
        snapshot.artifacts@.len() == store.artifacts@.len(),
        forall|i: int| 0 <= i < store.artifacts@.len() ==> is_row_of(
            #[trigger] snapshot.artifacts@[i],
            store.artifacts@[i],
            store.versions@,
            store.approvals@,
            store.links@,
            store.alarms@,
        ),
        snapshot.gate_status == (if store_gate_clear(store) {
            GateStatus::Ready
        } else {
            GateStatus::Blocked
        }),
        snapshot.active_alarm_count == store.alarms@.filter(|al: DriftAlarm| is_active(al)).len(),
        snapshot.stale_count == store.artifacts@.filter(|a: Artifact| is_stale(a)).len(),
{
    let gate = evaluate(
        &store.artifacts,
        &store.versions,
        &store.approvals,
        &store.links,
        &store.project,
        &store.alarms,
        &store.amendments,
    );
    let mut rows: Vec<ArtifactRow> = Vec::new();
    let mut i: usize = 0;
    while i < store.artifacts.len()
        invariant
            0 <= i <= store.artifacts.len(),
            rows@.len() == i,
            forall|k: int| 0 <= k < i ==> is_row_of(
                #[trigger] rows@[k],
                store.artifacts@[k],
                store.versions@,
                store.approvals@,
                store.links@,
                store.alarms@,
            ),
        decreases store.artifacts.len() - i,
    {
        rows.push(artifact_row(&store.artifacts[i], store));
        i = i + 1;
    }
    ProjectSnapshot {
        project: store.project.clone(),
        artifacts: rows,
        gate_status: gate.status,
        active_alarm_count: count_active(&store.alarms),
        stale_count: count_stale(&store.artifacts),
    }
}

/// The readiness gate's evaluation of the project.
pub fn get_readiness_gate(store: &ProjectStore) -> (gate: GateEvaluation)
    ensures
        gate.blocking_reasons@ == crate::readiness_gate::blocking_reasons_of(
            store.artifacts@,
            store.versions@,
            store.approvals@,
            store.links@,
            store.project.current_constitution_version_id@,
            store.alarms@,
            store.amendments@,
        ),
        gate.status == GateStatus::Ready <==> store_gate_clear(store),
        gate.status == GateStatus::Ready <==> gate.blocking_reasons@.len() == 0,
        gate.readiness_summary@ == (if gate.status == GateStatus::Ready {
            crate::readiness_gate::ready_summary()
        } else {
            crate::readiness_gate::blocked_summary()
        }),
        gate.export_manifest@.map_values(|p: String| p@) == crate::readiness_gate::export_manifest_spec(),
{
    evaluate(
        &store.artifacts,
        &store.versions,
        &store.approvals,
        &store.links,
        &store.project,
        &store.alarms,
        &store.amendments,
    )
}


// ─── Latest approval ───────────────────────────────────────

/// `i` is the approval of artifact `id` that `max_by_key` on the creation
/// time picks: none of that artifact's approvals was created later, and
/// every later one in the list was created strictly earlier.
pub open spec fn is_latest_approval(approvals: Seq<Approval>, id: Seq<char>, i: int) -> bool {
    &&& 0 <= i < approvals.len()
    &&& approvals[i].artifact_id@ == id
    &&& forall|j: int|
        0 <= j < approvals.len() && (#[trigger] approvals[j]).artifact_id@ == id
            ==> !text_lt(approvals[i].created_at@, approvals[j].created_at@)
    &&& forall|j: int|
        i < j < approvals.len() && (#[trigger] approvals[j]).artifact_id@ == id
            ==> text_lt(approvals[j].created_at@, approvals[i].created_at@)
}

/// The most recently created approval of artifact `id` (the last one among
/// equally recent ones), if it has any.
pub open spec fn latest_approval(approvals: Seq<Approval>, id: Seq<char>) -> Option<Approval> {
    if has_approval_for(approvals, id) {
        Some(approvals[choose|i: int| is_latest_approval(approvals, id, i)])
    } else {
        None
    }
}

proof fn lemma_latest_approval_unique(approvals: Seq<Approval>, id: Seq<char>, i: int)
    requires
        is_latest_approval(approvals, id, i),
    ensures
        latest_approval(approvals, id) == Some(approvals[i]),
{
    assert(has_approval_for(approvals, id));
    let k = choose|k: int| is_latest_approval(approvals, id, k);
    assert(is_latest_approval(approvals, id, k));
    if k < i {
        assert(text_lt(approvals[i].created_at@, approvals[k].created_at@));
        assert(!text_lt(approvals[i].created_at@, approvals[k].created_at@));
    } else if i < k {
        assert(text_lt(approvals[k].created_at@, approvals[i].created_at@));
        assert(!text_lt(approvals[k].created_at@, approvals[i].created_at@));
    }
}

/// A copy of the most recently created approval of artifact `id`.
fn find_latest_approval(approvals: &Vec<Approval>, id: &String) -> (found: Option<Approval>)
    ensures
        found == latest_approval(approvals@, id@),
{
    let mut best: Option<usize> = None;
    let mut i: usize = 0;
    while i < approvals.len()
        invariant
            0 <= i <= approvals.len(),
            best is None ==> forall|j: int| 0 <= j < i ==> approvals@[j].artifact_id@ != id@,
            best matches Some(b) ==> {
                &&& b < i
                &&& approvals@[b as int].artifact_id@ == id@
                &&& forall|j: int|
                    0 <= j < i && (#[trigger] approvals@[j]).artifact_id@ == id@
                        ==> !text_lt(approvals@[b as int].created_at@, approvals@[j].created_at@)
                &&& forall|j: int|
                    b < j < i && (#[trigger] approvals@[j]).artifact_id@ == id@
                        ==> text_lt(approvals@[j].created_at@, approvals@[b as int].created_at@)
            },
        decreases approvals.len() - i,
    {
        if approvals[i].artifact_id == *id {
            proof {
                lemma_text_lt_irreflexive(approvals@[i as int].created_at@);
            }
            match best {
                None => {
                    best = Some(i);
                },
                Some(b) => {
                    if text_less(&approvals[i].created_at, &approvals[b].created_at) {
                        proof {
                            lemma_text_lt_asymmetric(approvals@[i as int].created_at@, approvals@[b as int].created_at@);
                        }
                    } else {
                        proof {
                            assert forall|j: int|
                                0 <= j < i + 1 && (#[trigger] approvals@[j]).artifact_id@ == id@
                                    implies !text_lt(approvals@[i as int].created_at@, approvals@[j].created_at@) by {
                                if j < i {
                                    lemma_text_le_transitive(
                                        approvals@[j].created_at@,
                                        approvals@[b as int].created_at@,
                                        approvals@[i as int].created_at@,
                                    );
                                }
                            }
                        }
                        best = Some(i);
                    }
                },
            }
        }
        i = i + 1;
    }
    match best {
        Some(b) => {
            proof {
                lemma_latest_approval_unique(approvals@, id@, b as int);
            }
            Some(approvals[b].clone())
        },
        None => None,
    }
}

// ─── Artifact detail ───────────────────────────────────────

pub open spec fn link_rows(links: Seq<TraceLink>, artifacts: Seq<Artifact>) -> Seq<TraceLinkRow> {
    links.map_values(|l: TraceLink| link_row(l, artifacts))
}

fn enrich_links(links: &Vec<TraceLink>, artifacts: &Vec<Artifact>) -> (rows: Vec<TraceLinkRow>)
    ensures
        rows@ == link_rows(links@, artifacts@),
{
    let mut rows: Vec<TraceLinkRow> = Vec::new();
    let mut i: usize = 0;
    while i < links.len()
        invariant
            0 <= i <= links.len(),
            rows@.len() == i,
            forall|k: int| 0 <= k < i ==> #[trigger] rows@[k] == link_row(links@[k], artifacts@),
        decreases links.len() - i,
    {
        rows.push(enrich_link(&links[i], artifacts.as_slice()));
        i = i + 1;
    }
    assert(rows@ =~= link_rows(links@, artifacts@));
    rows
}

pub open spec fn not_found_message(artifact_id: Seq<char>) -> Seq<char> {
    "Artifact not found: "@ + artifact_id
}

/// Everything the shell shows about the first artifact with id `artifact_id`.
pub fn get_artifact_detail(store: &ProjectStore, artifact_id: &String) -> (detail: Result<ArtifactDetailResponse, String>)
    ensures
        !has_artifact(store.artifacts@, artifact_id@) ==> (detail matches Err(message)
            && message@ == not_found_message(artifact_id@)),
        has_artifact(store.artifacts@, artifact_id@) ==> (detail matches Ok(d) && {
            let a = first_artifact(store.artifacts@, artifact_id@);
            &&& d.artifact == a
            &&& d.version == version_with_id(store.versions@, a.current_version_id@)
            &&& d.approval == latest_approval(store.approvals@, artifact_id@)
            &&& d.outgoing_links@ == link_rows(upstream_of(store.links@, artifact_id@), store.artifacts@)
            &&& d.incoming_links@ == link_rows(downstream_of(store.links@, artifact_id@), store.artifacts@)
            &&& d.active_alarms@.map_values(|al: DriftAlarm| al@) == store.alarms@.filter(
                active_on(artifact_id@),
            ).map_values(|al: DriftAlarm| al@)
            &&& d.legal_transitions@ == legal_targets(a.state)
        }),
{
    let i = match find_artifact(store.artifacts.as_slice(), artifact_id) {
        Some(i) => i,
        None => {
            return Err("Artifact not found: ".to_owned().concat(artifact_id.as_str()));
        },
    };
    proof {
        lemma_first_artifact_unique(store.artifacts@, artifact_id@, i as int);
    }
    let artifact = store.artifacts[i].clone();
    let version = find_version(&store.versions, &artifact.current_version_id);
    let approval = find_latest_approval(&store.approvals, artifact_id);
    let outgoing_links = enrich_links(&upstream_links(artifact_id, &store.links), &store.artifacts);
    let incoming_links = enrich_links(&downstream_links(artifact_id, &store.links), &store.artifacts);
    let active_alarms = active_alarms_on(&store.alarms, artifact_id);
    let legal_transitions = compute_legal_transitions(&artifact);
    Ok(ArtifactDetailResponse {
        artifact,
        version,
        approval,
        outgoing_links,
        incoming_links,
        active_alarms,
        legal_transitions,
    })
}

/// The states that `artifact` may legally move to next, in canonical order.
pub fn compute_legal_transitions(artifact: &Artifact) -> (targets: Vec<ArtifactState>)
    ensures
        targets@ == legal_targets(artifact.state),
{
    let all_states = [
        ArtifactState::Draft,
        ArtifactState::Complete,
        ArtifactState::Valid,
        ArtifactState::Approved,
        ArtifactState::Stale,
    ];
    let ghost order = states_in_order();
    let ghost pred = |to: ArtifactState| legal_transition(artifact.state, to);
    assert(all_states@ =~= order);
    let mut targets: Vec<ArtifactState> = Vec::new();
    let mut i: usize = 0;
    while i < 5
        invariant
            0 <= i <= 5,
            all_states@ == order,
            pred == (|to: ArtifactState| legal_transition(artifact.state, to)),
            targets@ == order.take(i as int).filter(pred),
        decreases 5 - i,
    {
        let target = all_states[i];
        proof {
            assert(order.take(i as int).push(order[i as int]) =~= order.take(i + 1));
            order.take(i as int).lemma_filter_push(order[i as int], pred);
        }
        if is_legal_transition(artifact.state, target) {
            targets.push(target);
        }
        i = i + 1;
    }
    assert(order.take(5) =~= order);
    targets
}

// ─── Mutations ─────────────────────────────────────────────

/// The time stamped on artifacts and approvals by a mutation.
pub open spec fn mutation_time() -> Seq<char> {
    "2026-03-13T12:00:00Z"@
}

pub open spec fn illegal_transition_message(from: ArtifactState, to: ArtifactState) -> Seq<char> {
    "Transition "@ + state_name(from) + " → "@ + state_name(to) + " is not legal"@
}

pub open spec fn not_valid_message(state: ArtifactState) -> Seq<char> {
    "Cannot approve: artifact is "@ + state_name(state) + ", must be Valid"@
}

/// `after` is `before` moved to `state` and stamped with the mutation time.
pub open spec fn restamped(after: Artifact, before: Artifact, state: ArtifactState) -> bool {
    &&& after.id == before.id
    &&& after.project_id == before.project_id
    &&& after.artifact_type == before.artifact_type
    &&& after.title == before.title
    &&& after.current_version_id == before.current_version_id
    &&& after.state == state
    &&& after.validation_summary == before.validation_summary
    &&& after.latest_approval_id == before.latest_approval_id
    &&& after.stale_reason == before.stale_reason
    &&& after.created_at == before.created_at
    &&& after.updated_at@ == mutation_time()
}

/// The position of the artifact that a mutation of `id` acts on.
pub open spec fn target_index(store: ProjectStore, id: Seq<char>) -> int {
    choose|i: int| is_first_artifact(store.artifacts@, id, i)
}

/// `after` differs from `before` at most in artifact `i`, which was moved to
/// `state` and restamped.
pub open spec fn moved_artifact(after: ProjectStore, before: ProjectStore, i: int, state: ArtifactState) -> bool {
    &&& after.artifacts@.len() == before.artifacts@.len()
    &&& forall|j: int| 0 <= j < after.artifacts@.len() && j != i ==> after.artifacts@[j] == before.artifacts@[j]
    &&& restamped(after.artifacts@[i], before.artifacts@[i], state)
    &&& after.project == before.project
    &&& after.constitution == before.constitution
    &&& after.versions == before.versions
    &&& after.links == before.links
    &&& after.alarms == before.alarms
    &&& after.amendments == before.amendments
    &&& after.audit_events == before.audit_events
}

fn restamp(store: &mut ProjectStore, i: usize, state: ArtifactState)
    requires
        i < old(store).artifacts@.len(),
    ensures
        moved_artifact(*final(store), *old(store), i as int, state),
        final(store).approvals == old(store).approvals,
{
    store.artifacts[i].state = state;
    store.artifacts[i].updated_at = "2026-03-13T12:00:00Z".to_owned();
}

/// Moves the first artifact with id `artifact_id` to `target_state` when the
/// lifecycle allows it, and answers with the outcome.
pub fn transition_artifact(
    store: &mut ProjectStore,
    artifact_id: &String,
    target_state: ArtifactState,
) -> (outcome: Result<TransitionResponse, String>)
    ensures
        !has_artifact(old(store).artifacts@, artifact_id@) ==> (outcome matches Err(message)
            && message@ == not_found_message(artifact_id@) && *final(store) == *old(store)),
        has_artifact(old(store).artifacts@, artifact_id@) ==> ({
            let i = target_index(*old(store), artifact_id@);
            let from = old(store).artifacts@[i].state;
            &&& 0 <= i < old(store).artifacts@.len()
            &&& !legal_transition(from, target_state) ==> (outcome matches Ok(r) && !r.success
                && r.new_state is None && r.error is Some
                && r.error->0@ == illegal_transition_message(from, target_state) && *final(store) == *old(store))
            &&& legal_transition(from, target_state) ==> (outcome matches Ok(r) && r.success
                && r.new_state == Some(target_state) && r.error is None
                && moved_artifact(*final(store), *old(store), i, target_state)
                && final(store).approvals == old(store).approvals)
        }),
{
    let i = match find_artifact(store.artifacts.as_slice(), artifact_id) {
        Some(i) => i,
        None => {
            return Err("Artifact not found: ".to_owned().concat(artifact_id.as_str()));
        },
    };
    proof {
        lemma_first_artifact_unique(store.artifacts@, artifact_id@, i as int);
        let k = target_index(*store, artifact_id@);
        assert(is_first_artifact(store.artifacts@, artifact_id@, k));
        if k < i {
            assert(store.artifacts@[k].id@ != artifact_id@);
        } else if i < k {
            assert(store.artifacts@[i as int].id@ != artifact_id@);
        }
    }
    let from = store.artifacts[i].state;
    if !is_legal_transition(from, target_state) {
        let error = "Transition ".to_owned().concat(state_name_str(from)).concat(" → ").concat(
            state_name_str(target_state),
        ).concat(" is not legal");
        return Ok(TransitionResponse { success: false, new_state: None, error: Some(error) });
    }
    restamp(store, i, target_state);
    Ok(TransitionResponse { success: true, new_state: Some(target_state), error: None })
}

/// `ap` is the approval that approving artifact `i` of `store` records for
/// the artifact id `artifact_id`.
pub open spec fn is_new_approval(ap: Approval, store: ProjectStore, i: int, artifact_id: String) -> bool {
    &&& ap.id@ == "appr-"@ + artifact_id@ + "-"@ + decimal(store.approvals@.len())
    &&& ap.project_id == store.project.id
    &&& ap.artifact_id == artifact_id
    &&& ap.artifact_version_id == store.artifacts@[i].current_version_id
    &&& ap.artifact_content_hash@ == match version_with_id(
        store.versions@,
        store.artifacts@[i].current_version_id@,
    ) {
        Some(v) => v.content_hash@,
        None => unrecorded_hash(),
    }
    &&& ap.approval_type == ApprovalType::Standard
    &&& ap.approver == store.project.created_by
    &&& ap.rationale is None
    &&& ap.created_at@ == mutation_time()
}

/// The content hash that an approval carries when the approved artifact's
/// current version is not among the store's versions.
pub open spec fn unrecorded_hash() -> Seq<char> {
    "hash"@
}

/// Approves the first artifact with id `artifact_id` when it is Valid:
/// records an approval bound to its current version, carrying that
/// version's content hash (or `unrecorded_hash()` where the store holds no
/// such version), and moves the artifact to Approved.
pub fn approve_artifact(store: &mut ProjectStore, artifact_id: &String) -> (outcome: Result<TransitionResponse, String>)
    ensures
        !has_artifact(old(store).artifacts@, artifact_id@) ==> (outcome matches Err(message)
            && message@ == not_found_message(artifact_id@) && *final(store) == *old(store)),
        has_artifact(old(store).artifacts@, artifact_id@) ==> ({
            let i = target_index(*old(store), artifact_id@);
            let state = old(store).artifacts@[i].state;
            &&& 0 <= i < old(store).artifacts@.len()
            &&& state != ArtifactState::Valid ==> (outcome matches Ok(r) && !r.success
                && r.new_state is None && r.error is Some && r.error->0@ == not_valid_message(state)
                && *final(store) == *old(store))
            &&& state == ArtifactState::Valid ==> (outcome matches Ok(r) && r.success
                && r.new_state == Some(ArtifactState::Approved) && r.error is None
                && moved_artifact(*final(store), *old(store), i, ArtifactState::Approved)
                && final(store).approvals@.len() == old(store).approvals@.len() + 1
                && final(store).approvals@.drop_last() == old(store).approvals@
                && is_new_approval(final(store).approvals@.last(), *old(store), i, *artifact_id))
        }),
{
    let i = match find_artifact(store.artifacts.as_slice(), artifact_id) {
        Some(i) => i,
        None => {
            return Err("Artifact not found: ".to_owned().concat(artifact_id.as_str()));
        },
    };
    proof {
        lemma_first_artifact_unique(store.artifacts@, artifact_id@, i as int);
        let k = target_index(*store, artifact_id@);
        assert(is_first_artifact(store.artifacts@, artifact_id@, k));
        if k < i {
            assert(store.artifacts@[k].id@ != artifact_id@);
        } else if i < k {
            assert(store.artifacts@[i as int].id@ != artifact_id@);
        }
    }
    let state = store.artifacts[i].state;
    if state != ArtifactState::Valid {
        let error = "Cannot approve: artifact is ".to_owned().concat(state_name_str(state)).concat(
            ", must be Valid",
        );
        return Ok(TransitionResponse { success: false, new_state: None, error: Some(error) });
    }
    let content_hash = match find_version(&store.versions, &store.artifacts[i].current_version_id) {
        Some(version) => version.content_hash,
        None => "hash".to_owned(),
    };
    let approval = Approval {
        id: "appr-".to_owned().concat(artifact_id.as_str()).concat("-").concat(
            decimal_text(store.approvals.len()).as_str(),
        ),
        project_id: store.project.id.clone(),
        artifact_id: artifact_id.clone(),
        artifact_version_id: store.artifacts[i].current_version_id.clone(),
        artifact_content_hash: content_hash,
        approval_type: ApprovalType::Standard,
        approver: store.project.created_by.clone(),
        rationale: None,
        created_at: "2026-03-13T12:00:00Z".to_owned(),
    };
    let ghost before = *store;
    store.approvals.push(approval);
    restamp(store, i, ArtifactState::Approved);
    proof {
        assert(final(store).approvals@.drop_last() =~= before.approvals@);
    }
    Ok(TransitionResponse { success: true, new_state: Some(ArtifactState::Approved), error: None })
}

// ─── Export preview ────────────────────────────────────────

/// The number of characters of a file that its preview shows.
pub open spec fn preview_len(content: Seq<char>) -> int {
    if content.len() < 200 {
        content.len() as int
    } else {
        200
    }
}

/// `preview` shows `file`: its path, its size in bytes, and its first 200
/// characters.
pub open spec fn is_preview_of(preview: ExportFilePreview, file: ExportFile) -> bool {
    &&& preview.path == file.path
    &&& preview.size_bytes == vstd::utf8::encode_utf8(file.content@).len() as usize
    &&& preview.content_preview@ == file.content@.take(preview_len(file.content@))
}

fn preview_file(file: &ExportFile) -> (preview: ExportFilePreview)
    ensures
        is_preview_of(preview, *file),
{
    let content = file.content.as_str();
    let chars = content.unicode_len();
    let shown = if chars < 200 { chars } else { 200 };
    ExportFilePreview {
        path: file.path.clone(),
        size_bytes: content.len(),
        content_preview: content.substring_char(0, shown).to_owned(),
    }
}

fn clone_reasons(reasons: &Vec<BlockingReason>) -> (copy: Vec<BlockingReason>)
    ensures
        copy@ == reasons@,
{
    let copy = reasons.clone();
    assert(copy@ =~= reasons@);
    copy
}

/// The export panel for the outcome of an export compilation: the previews
/// of the package's files, or the readiness gate's summary and blocking reasons.
pub fn get_export_preview(outcome: &Result<ExportPackage, ExportBlocked>) -> (response: ExportPreviewResponse)
    ensures
        response.ready == outcome is Ok,
        outcome matches Ok(package) ==> {
            &&& response.files@.len() == package.files@.len()
            &&& forall|i: int| 0 <= i < package.files@.len()
                ==> is_preview_of(#[trigger] response.files@[i], package.files@[i])
            &&& response.blocked_reason is None
            &&& response.blocking_reasons@.len() == 0
        },
        outcome matches Err(blocked) ==> {
            &&& response.files@.len() == 0
            &&& response.blocked_reason == Some(blocked.gate_evaluation.readiness_summary)
            &&& response.blocking_reasons@ == blocked.gate_evaluation.blocking_reasons@
        },
{
    match outcome {
        Ok(package) => {
            let mut files: Vec<ExportFilePreview> = Vec::new();
            let mut i: usize = 0;
            while i < package.files.len()
                invariant
                    0 <= i <= package.files.len(),
                    files@.len() == i,
                    forall|k: int| 0 <= k < i ==> is_preview_of(#[trigger] files@[k], package.files@[k]),
                decreases package.files.len() - i,
            {
                files.push(preview_file(&package.files[i]));
                i = i + 1;
            }
            ExportPreviewResponse { ready: true, files, blocked_reason: None, blocking_reasons: Vec::new() }
        },
        Err(blocked) => ExportPreviewResponse {
            ready: false,
            files: Vec::new(),
            blocked_reason: Some(blocked.gate_evaluation.readiness_summary.clone()),
            blocking_reasons: clone_reasons(&blocked.gate_evaluation.blocking_reasons),
        },
    }
}

} // verus!
