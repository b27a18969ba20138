//! Traceability graph queries.
//!
//! A trace link points from the node it belongs to (its source) to the node
//! that justifies it (its target). A node's upstream links answer "what
//! justifies this?"; its downstream links answer "what depends on this?".

use vstd::prelude::*;
use crate::domain::{Artifact, ArtifactVersion, TraceLink};

verus! {

/// The links that `node_id` holds to its justifications.
pub open spec fn upstream_of(links: Seq<TraceLink>, node_id: Seq<char>) -> Seq<TraceLink> {
    links.filter(|l: TraceLink| l.source_node_id@ == node_id)
}

/// The links by which other nodes depend on `node_id`.
pub open spec fn downstream_of(links: Seq<TraceLink>, node_id: Seq<char>) -> Seq<TraceLink> {
    links.filter(|l: TraceLink| l.target_node_id@ == node_id)
}

/// `i` is the first position in `artifacts` of an artifact with id `id`.
pub open spec fn is_first_artifact(artifacts: Seq<Artifact>, id: Seq<char>, i: int) -> bool {
    &&& 0 <= i < artifacts.len()
    &&& artifacts[i].id@ == id
    &&& forall|j: int| 0 <= j < i ==> artifacts[j].id@ != id
}

/// Some artifact of `artifacts` has id `id`.
pub open spec fn has_artifact(artifacts: Seq<Artifact>, id: Seq<char>) -> bool {
    exists|i: int| 0 <= i < artifacts.len() && artifacts[i].id@ == id
}

/// The first artifact of `artifacts` with id `id` (meaningful when there is one).
pub open spec fn first_artifact(artifacts: Seq<Artifact>, id: Seq<char>) -> Artifact {
    artifacts[choose|i: int| is_first_artifact(artifacts, id, i)]
}

/// There is at most one first position of an id.
pub proof fn lemma_first_artifact_unique(artifacts: Seq<Artifact>, id: Seq<char>, i: int)
    requires
        is_first_artifact(artifacts, id, i),
    ensures
        has_artifact(artifacts, id),
        first_artifact(artifacts, id) == artifacts[i],
{
    let k = choose|k: int| is_first_artifact(artifacts, id, k);
    assert(is_first_artifact(artifacts, id, k));
    if k < i {
        assert(artifacts[k].id@ != id);
    } else if i < k {
        assert(artifacts[i].id@ != id);
    }
}

/// The position of the first artifact with id `id`, if there is one.
pub fn find_artifact(artifacts: &[Artifact], id: &String) -> (found: Option<usize>)
    ensures
        found matches Some(i) ==> is_first_artifact(artifacts@, id@, i as int),
        found is None <==> !has_artifact(artifacts@, id@),
{
    let mut i: usize = 0;
    while i < artifacts.len()
        invariant
            0 <= i <= artifacts.len(),
            forall|j: int| 0 <= j < i ==> artifacts@[j].id@ != id@,
        decreases artifacts.len() - i,
    {
        if artifacts[i].id == *id {
            return Some(i);
        }
        i = i + 1;
    }
    None
}

/// `i` is the first position in `versions` of a version with id `id`.
pub open spec fn is_first_version(versions: Seq<ArtifactVersion>, id: Seq<char>, i: int) -> bool {
    &&& 0 <= i < versions.len()
    &&& versions[i].id@ == id
    &&& forall|j: int| 0 <= j < i ==> versions[j].id@ != id
}

pub open spec fn has_version(versions: Seq<ArtifactVersion>, id: Seq<char>) -> bool {
    exists|i: int| 0 <= i < versions.len() && versions[i].id@ == id
}

/// The first version with id `id`, if there is one.
pub open spec fn version_with_id(versions: Seq<ArtifactVersion>, id: Seq<char>) -> Option<ArtifactVersion> {
    if has_version(versions, id) {
        Some(versions[choose|i: int| is_first_version(versions, id, i)])
    } else {
        None
    }
}

pub proof fn lemma_first_version_unique(versions: Seq<ArtifactVersion>, id: Seq<char>, i: int)
    requires
        is_first_version(versions, id, i),
    ensures
        version_with_id(versions, id) == Some(versions[i]),
{
    assert(has_version(versions, id));
    let k = choose|k: int| is_first_version(versions, id, k);
    assert(is_first_version(versions, id, k));
    if k < i {
        assert(versions[k].id@ != id);
    } else if i < k {
        assert(versions[i].id@ != id);
    }
}

/// A copy of the first version with id `id`, if there is one.
pub fn find_version(versions: &Vec<ArtifactVersion>, id: &String) -> (found: Option<ArtifactVersion>)
    ensures
        found == version_with_id(versions@, id@),
{
    let mut i: usize = 0;
    while i < versions.len()
        invariant
            0 <= i <= versions.len(),
            forall|j: int| 0 <= j < i ==> versions@[j].id@ != id@,
        decreases versions.len() - i,
    {
        if versions[i].id == *id {
            proof {
                lemma_first_version_unique(versions@, id@, i as int);
            }
            return Some(versions[i].clone());
        }
        i = i + 1;
    }
    None
}

/// Copies of the links held by `node_id` (`by_source`) or pointing to it, in order.
fn filter_links(links: &Vec<TraceLink>, node_id: &String, by_source: bool) -> (kept: Vec<TraceLink>)
    ensures
        by_source ==> kept@ == upstream_of(links@, node_id@),
        !by_source ==> kept@ == downstream_of(links@, node_id@),
{
    let ghost pred = if by_source {
        |l: TraceLink| l.source_node_id@ == node_id@
    } else {
        |l: TraceLink| l.target_node_id@ == node_id@
    };
    let mut kept: Vec<TraceLink> = Vec::new();
    let mut i: usize = 0;
    while i < links.len()
        invariant
            0 <= i <= links.len(),
            pred == (if by_source {
                |l: TraceLink| l.source_node_id@ == node_id@
            } else {
                |l: TraceLink| l.target_node_id@ == node_id@
            }),
            kept@ == links@.take(i as int).filter(pred),
        decreases links.len() - i,
    {
        proof {
            assert(links@.take(i as int).push(links@[i as int]) =~= links@.take(i + 1));
            links@.take(i as int).lemma_filter_push(links@[i as int], pred);
        }
        let link = &links[i];
        let matches = if by_source {
            link.source_node_id == *node_id
        } else {
            link.target_node_id == *node_id
        };
        if matches {
            kept.push(link.clone());
        }
        i = i + 1;
    }
    assert(links@.take(links.len() as int) =~= links@);
    kept
}

/// The links that `node_id` holds to its justifications, in link order.
pub fn upstream_links(node_id: &String, links: &Vec<TraceLink>) -> (upstream: Vec<TraceLink>)
    ensures
        upstream@ == upstream_of(links@, node_id@),
{
    filter_links(links, node_id, true)
}

/// The links by which other nodes depend on `node_id`, in link order.
pub fn downstream_links(node_id: &String, links: &Vec<TraceLink>) -> (downstream: Vec<TraceLink>)
    ensures
        downstream@ == downstream_of(links@, node_id@),
{
    filter_links(links, node_id, false)
}

/// Traceability is bidirectional: every link is an upstream link of its
/// source and a downstream link of its target.
pub proof fn every_link_is_seen_from_both_ends(links: Seq<TraceLink>, i: int)
    requires
        0 <= i < links.len(),
    ensures
        upstream_of(links, links[i].source_node_id@).contains(links[i]),
        downstream_of(links, links[i].target_node_id@).contains(links[i]),
{
    links.lemma_filter_contains(|l: TraceLink| l.source_node_id@ == links[i].source_node_id@, i);
    links.lemma_filter_contains(|l: TraceLink| l.target_node_id@ == links[i].target_node_id@, i);
}

} // verus!
