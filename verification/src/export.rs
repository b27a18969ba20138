//! Gate-guarded export.
//!
//! Export happens only once the execution readiness gate is ready; a
//! blocked gate answers every export request with its evaluation.

use vstd::prelude::*;
use crate::domain::{ArtifactType, GateStatus};
use crate::readiness_gate::{
    blocked_summary, blocking_reasons_of, export_manifest_spec, ready_summary, evaluate, gate_clear, lemma_no_reasons_iff_clear, GateEvaluation,
};
use crate::render::{
    artifact_markdown, audit_markdown, constitution_markdown, drift_markdown, readiness_markdown,
    render_artifact, render_audit_log, render_constitution, render_drift_report, render_readiness_report,
    render_traceability, traceability_markdown,
};
use crate::store::ProjectStore;

verus! {

/// One file of an export package.
#[derive(Debug)]
pub struct ExportFile {
    pub path: String,
    pub content: String,
}

impl Clone for ExportFile {
    fn clone(&self) -> (res: Self)
        ensures
            res == *self,
    {
        ExportFile { path: self.path.clone(), content: self.content.clone() }
    }
}

/// The files that an export writes.
#[derive(Debug)]
pub struct ExportPackage {
    pub files: Vec<ExportFile>,
}

/// The answer to an export request while the readiness gate is blocked.
#[derive(Debug)]
pub struct ExportBlocked {
    pub gate_evaluation: GateEvaluation,
}

/// The store's gate is clear.
pub open spec fn store_gate_clear(store: &ProjectStore) -> bool {
    gate_clear(
        store.artifacts@,
        store.versions@,
        store.approvals@,
        store.links@,
        store.project.current_constitution_version_id@,
        store.alarms@,
        store.amendments@,
    )
}

/// The contents of the export package's files, in manifest order: the
/// project's canonical JSON source, the constitution, one page per artifact
/// type, and the four reports.
pub open spec fn package_contents(store: &ProjectStore, project_json: Seq<char>) -> Seq<Seq<char>> {
    seq![
        project_json,
        constitution_markdown(store.constitution),
        artifact_markdown(store.artifacts@, store.versions@, ArtifactType::UserFantasyWorkflows),
        artifact_markdown(store.artifacts@, store.versions@, ArtifactType::FeatureMap),
        artifact_markdown(store.artifacts@, store.versions@, ArtifactType::SystemArchitecture),
        artifact_markdown(store.artifacts@, store.versions@, ArtifactType::UxStateMap),
        artifact_markdown(store.artifacts@, store.versions@, ArtifactType::PhaseRoadmapContracts),
        artifact_markdown(store.artifacts@, store.versions@, ArtifactType::AcceptanceChecklists),
        artifact_markdown(store.artifacts@, store.versions@, ArtifactType::DriftAlarmDefinitions),
        traceability_markdown(store.links@),
        audit_markdown(store.audit_events@),
        drift_markdown(store.alarms@),
        readiness_markdown(GateStatus::Ready, ready_summary(), Seq::empty()),
    ]
}

/// Compiles the export package of `store`, whose canonical machine-readable
/// source is `project_json`, or refuses with the readiness gate's evaluation.
pub fn compile(store: &ProjectStore, project_json: String) -> (outcome: Result<ExportPackage, ExportBlocked>)
    ensures
        outcome is Ok <==> store_gate_clear(store),
        outcome matches Ok(package) ==> {
            &&& package.files@.len() == 13
            &&& forall|k: int| 0 <= k < 13 ==> (#[trigger] package.files@[k]).path@ == export_manifest_spec()[k]
                && package.files@[k].content@ == package_contents(store, project_json@)[k]
        },
        outcome matches Err(blocked) ==> {
            &&& blocked.gate_evaluation.status == GateStatus::Blocked
            &&& blocked.gate_evaluation.blocking_reasons@ == blocking_reasons_of(
                store.artifacts@,
                store.versions@,
                store.approvals@,
                store.links@,
                store.project.current_constitution_version_id@,
                store.alarms@,
                store.amendments@,
            )
            &&& blocked.gate_evaluation.blocking_reasons@.len() > 0
            &&& blocked.gate_evaluation.readiness_summary@ == blocked_summary()
        },
{
    let gate = evaluate(
        &store.artifacts,
        &store.versions,
        &store.approvals,
        &store.links,
        &store.project,
        &store.alarms,
        &store.amendments,
    );
    match gate.status {
        GateStatus::Ready => {
            let mut files: Vec<ExportFile> = Vec::new();
            files.push(ExportFile { path: "/project.json".to_owned(), content: project_json });
            files.push(ExportFile { path: "/constitution.md".to_owned(), content: render_constitution(&store.constitution) });
            files.push(ExportFile {
                path: "/artifacts/user-fantasy-workflows.md".to_owned(),
                content: render_artifact(&store.artifacts, &store.versions, ArtifactType::UserFantasyWorkflows),
            });
            files.push(ExportFile {
                path: "/artifacts/feature-map.md".to_owned(),
                content: render_artifact(&store.artifacts, &store.versions, ArtifactType::FeatureMap),
            });
            files.push(ExportFile {
                path: "/artifacts/system-architecture.md".to_owned(),
                content: render_artifact(&store.artifacts, &store.versions, ArtifactType::SystemArchitecture),
            });
            files.push(ExportFile {
                path: "/artifacts/ux-state-map.md".to_owned(),
                content: render_artifact(&store.artifacts, &store.versions, ArtifactType::UxStateMap),
            });
            files.push(ExportFile {
                path: "/artifacts/phase-roadmap-contracts.md".to_owned(),
                content: render_artifact(&store.artifacts, &store.versions, ArtifactType::PhaseRoadmapContracts),
            });
            files.push(ExportFile {
                path: "/artifacts/acceptance-checklists.md".to_owned(),
                content: render_artifact(&store.artifacts, &store.versions, ArtifactType::AcceptanceChecklists),
            });
            files.push(ExportFile {
                path: "/artifacts/drift-alarm-definitions.md".to_owned(),
                content: render_artifact(&store.artifacts, &store.versions, ArtifactType::DriftAlarmDefinitions),
            });
            files.push(ExportFile {
                path: "/reports/traceability-matrix.md".to_owned(),
                content: render_traceability(&store.links),
            });
            files.push(ExportFile { path: "/reports/audit-log.md".to_owned(), content: render_audit_log(&store.audit_events) });
            files.push(ExportFile { path: "/reports/drift-report.md".to_owned(), content: render_drift_report(&store.alarms) });
            files.push(ExportFile {
                path: "/reports/execution-readiness-report.md".to_owned(),
                content: render_readiness_report(gate.status, &gate.readiness_summary, &gate.blocking_reasons),
            });
            proof {
                assert(gate.blocking_reasons@ =~= Seq::<crate::readiness_gate::BlockingReason>::empty());
                let contents = package_contents(store, project_json@);
                let manifest = export_manifest_spec();
                assert forall|k: int| 0 <= k < 13 implies (#[trigger] files@[k]).path@ == manifest[k]
                    && files@[k].content@ == contents[k] by {}
            }
            Ok(ExportPackage { files })
        },
        GateStatus::Blocked => Err(ExportBlocked { gate_evaluation: gate }),
    }
}


/// Export is unlocked exactly when the readiness gate reports no blocking reason: the
/// evaluation the shell shows and the export guard never disagree.
pub proof fn export_unlocked_iff_no_blocking_reason(store: &ProjectStore)
    ensures
        store_gate_clear(store) <==> blocking_reasons_of(
            store.artifacts@,
            store.versions@,
            store.approvals@,
            store.links@,
            store.project.current_constitution_version_id@,
            store.alarms@,
            store.amendments@,
        ).len() == 0,
{
    lemma_no_reasons_iff_clear(
        store.artifacts@,
        store.versions@,
        store.approvals@,
        store.links@,
        store.project.current_constitution_version_id@,
        store.alarms@,
        store.amendments@,
    );
}

} // verus!
