//! Project file format.
//!
//! A project is saved as a JSON document with the persistence format
//! version, the domain schema version, a content hash of the payload, and
//! the payload itself. The content hash is the djb2 hash of the payload's
//! canonical JSON text, written as sixteen lowercase hex digits. This module
//! frames and checks that document; turning JSON text into values and
//! reading or writing files happen at the edge of the application.

use vstd::prelude::*;
use vstd::string::*;
use crate::domain::{
    Amendment, Approval, Artifact, ArtifactVersion, AuditEvent, Constitution, DriftAlarm,
    Project, TraceLink, SCHEMA_VERSION,
};
use crate::store::{alarm_views, ProjectStateView, ProjectStore};
use crate::version::{current_version_is_supported, is_supported_version, version_supported};

verus! {

/// Current persistence file format version.
pub const ANCHOR_FILE_VERSION: &'static str = "1.0.0";

#[verifier::external_type_specification]
#[verifier::external_body]
pub struct ExIoError(std::io::Error);

#[verifier::external_type_specification]
#[verifier::external_body]
pub struct ExJsonError(serde_json::Error);

/// The on-disk representation. This is the contract.
#[derive(Debug)]
pub struct AnchorProjectFile {
    /// Persistence format version (for migration).
    pub anchor_file_version: String,
    /// Domain schema version.
    pub schema_version: String,
    /// Content hash of the payload's canonical JSON text.
    pub content_hash: String,
    /// The actual project data.
    pub payload: ProjectPayload,
}

/// The project data carried by a project file.
#[derive(Debug)]
pub struct ProjectPayload {
    pub project: Project,
    pub constitution: Constitution,
    pub artifacts: Vec<Artifact>,
    pub versions: Vec<ArtifactVersion>,
    pub approvals: Vec<Approval>,
    pub links: Vec<TraceLink>,
    pub alarms: Vec<DriftAlarm>,
    pub amendments: Vec<Amendment>,
    pub audit_events: Vec<AuditEvent>,
}

impl View for ProjectPayload {
    type V = ProjectStateView;

    open spec fn view(&self) -> ProjectStateView {
        ProjectStateView {
            project: self.project@,
            constitution: self.constitution@,
            artifacts: self.artifacts@,
            versions: self.versions@,
            approvals: self.approvals@,
            links: self.links@,
            alarms: alarm_views(self.alarms@),
            amendments: self.amendments@,
            audit_events: self.audit_events@,
        }
    }
}

/// Why a project could not be saved or loaded.
#[derive(Debug)]
pub enum PersistenceError {
    /// File I/O failure.
    Io(std::io::Error),
    /// JSON parse/serialize failure.
    SerdeJson(serde_json::Error),
    /// The file was readable but the content hash doesn't match.
    CorruptedFile { expected_hash: String, actual_hash: String },
    /// File version is newer than this binary supports (or is not a
    /// version number at all).
    UnsupportedFileVersion { file_version: String, max_supported: String },
    /// Schema version mismatch.
    SchemaMismatch { file_schema: String, engine_schema: String },
}

impl PersistenceError {
    /// The human-readable description of the error.
    pub fn message(&self) -> (text: String)
        ensures
            match *self {
                PersistenceError::Io(e) => exists|t: String|
                    to_string_from_display_ensures::<std::io::Error>(&e, t) && text@ == "I/O error: "@ + t@,
                PersistenceError::SerdeJson(e) => exists|t: String|
                    to_string_from_display_ensures::<serde_json::Error>(&e, t) && text@ == "JSON error: "@ + t@,
                PersistenceError::CorruptedFile { expected_hash, actual_hash } => text@
                    == "File corrupted: expected hash "@ + expected_hash@ + ", got "@ + actual_hash@,
                PersistenceError::UnsupportedFileVersion { file_version, max_supported } => text@
                    == "Unsupported file version: "@ + file_version@ + " (max supported: "@
                    + max_supported@ + ")"@,
                PersistenceError::SchemaMismatch { file_schema, engine_schema } => text@
                    == "Schema mismatch: file has "@ + file_schema@ + ", engine expects "@ + engine_schema@,
            },
    {
        match self {
            PersistenceError::Io(e) => "I/O error: ".to_owned().concat(e.to_string().as_str()),
            PersistenceError::SerdeJson(e) => "JSON error: ".to_owned().concat(e.to_string().as_str()),
            PersistenceError::CorruptedFile { expected_hash, actual_hash } => "File corrupted: expected hash "
                .to_owned().concat(expected_hash.as_str()).concat(", got ").concat(actual_hash.as_str()),
            PersistenceError::UnsupportedFileVersion { file_version, max_supported } => "Unsupported file version: "
                .to_owned().concat(file_version.as_str()).concat(" (max supported: ").concat(
                max_supported.as_str(),
            ).concat(")"),
            PersistenceError::SchemaMismatch { file_schema, engine_schema } => "Schema mismatch: file has "
                .to_owned().concat(file_schema.as_str()).concat(", engine expects ").concat(
                engine_schema.as_str(),
            ),
        }
    }
}

// ─── Content hashing ───────────────────────────────────────

/// djb2: start at 5381, and for each byte multiply by 33 and add the byte,
/// wrapping at 2^64.
pub open spec fn djb2(data: Seq<u8>) -> u64
    decreases data.len(),
{
    if data.len() == 0 {
        5381
    } else {
        vstd::wrapping::u64_specs::wrapping_add(
            vstd::wrapping::u64_specs::wrapping_mul(djb2(data.drop_last()), 33),
            data.last() as u64,
        )
    }
}

/// djb2 hash of `data`.
pub fn djb2_hash(data: &[u8]) -> (hash: u64)
    ensures
        hash == djb2(data@),
{
    let mut hash: u64 = 5381;
    let mut i: usize = 0;
    while i < data.len()
        invariant
            0 <= i <= data.len(),
            hash == djb2(data@.take(i as int)),
        decreases data.len() - i,
    {
        assert(data@.take(i + 1).drop_last() =~= data@.take(i as int));
        hash = hash.wrapping_mul(33).wrapping_add(data[i] as u64);
        i = i + 1;
    }
    assert(data@.take(data.len() as int) =~= data@);
    hash
}

/// The lowercase hex digit of `d`.
pub open spec fn hex_char(d: nat) -> char {
    seq!['0', '1', '2', '3', '4', '5', '6', '7', '8', '9', 'a', 'b', 'c', 'd', 'e', 'f'][d as int]
}

/// The `n` lowest hex digits of `h`, most significant first, zero-padded.
pub open spec fn hex_digits(h: nat, n: nat) -> Seq<char>
    decreases n,
{
    if n == 0 {
        Seq::empty()
    } else {
        hex_digits(h / 16, (n - 1) as nat).push(hex_char(h % 16))
    }
}

/// The text of a content hash: sixteen lowercase hex digits.
pub open spec fn hash_text(h: u64) -> Seq<char> {
    hex_digits(h as nat, 16)
}

/// A content hash always has sixteen hex digits.
pub proof fn content_hash_has_sixteen_digits(h: u64)
    ensures
        hash_text(h).len() == 16,
{
    lemma_hex_digits_len(h as nat, 16);
}

proof fn lemma_hex_digits_len(h: nat, n: nat)
    ensures
        hex_digits(h, n).len() == n,
    decreases n,
{
    if n > 0 {
        lemma_hex_digits_len(h / 16, (n - 1) as nat);
    }
}

/// The content hash is a function of the payload text alone: equal texts
/// always get equal hashes.
pub proof fn content_hash_is_deterministic(a: Seq<u8>, b: Seq<u8>)
    requires
        a == b,
    ensures
        hash_text(djb2(a)) == hash_text(djb2(b)),
{
}

fn hex_digit_str(d: u64) -> (digit: &'static str)
    requires
        d < 16,
    ensures
        digit@ == seq![hex_char(d as nat)],
{
    match d {
        0 => {
            proof {
                reveal_strlit("0");
            }
            "0"
        },
        1 => {
            proof {
                reveal_strlit("1");
            }
            "1"
        },
        2 => {
            proof {
                reveal_strlit("2");
            }
            "2"
        },
        3 => {
            proof {
                reveal_strlit("3");
            }
            "3"
        },
        4 => {
            proof {
                reveal_strlit("4");
            }
            "4"
        },
        5 => {
            proof {
                reveal_strlit("5");
            }
            "5"
        },
        6 => {
            proof {
                reveal_strlit("6");
            }
            "6"
        },
        7 => {
            proof {
                reveal_strlit("7");
            }
            "7"
        },
        8 => {
            proof {
                reveal_strlit("8");
            }
            "8"
        },
        9 => {
            proof {
                reveal_strlit("9");
            }
            "9"
        },
        10 => {
            proof {
                reveal_strlit("a");
            }
            "a"
        },
        11 => {
            proof {
                reveal_strlit("b");
            }
            "b"
        },
        12 => {
            proof {
                reveal_strlit("c");
            }
            "c"
        },
        13 => {
            proof {
                reveal_strlit("d");
            }
            "d"
        },
        14 => {
            proof {
                reveal_strlit("e");
            }
            "e"
        },
        15 => {
            proof {
                reveal_strlit("f");
            }
            "f"
        },
        _ => {
            proof {
                reveal_strlit("f");
            }
            "f"
        },
    }
}

fn hex_digits_of(h: u64, n: usize) -> (text: String)
    ensures
        text@ == hex_digits(h as nat, n as nat),
    decreases n,
{
    if n == 0 {
        String::new()
    } else {
        let rest = hex_digits_of(h / 16, n - 1);
        let digit = hex_digit_str(h % 16);
        let text = rest.concat(digit);
        assert(text@ =~= hex_digits(h as nat, n as nat));
        text
    }
}

/// The content hash of a payload whose canonical JSON text is `payload_json`.
pub fn compute_content_hash(payload_json: &[u8]) -> (hash: String)
    ensures
        hash@ == hash_text(djb2(payload_json@)),
{
    let h = djb2_hash(payload_json);
    hex_digits_of(h, 16)
}


// ─── Conversions ───────────────────────────────────────────

/// The store that holds exactly the data of `payload`.
pub open spec fn store_of(payload: ProjectPayload) -> ProjectStore {
    ProjectStore {
        project: payload.project,
        constitution: payload.constitution,
        artifacts: payload.artifacts,
        versions: payload.versions,
        approvals: payload.approvals,
        links: payload.links,
        alarms: payload.alarms,
        amendments: payload.amendments,
        audit_events: payload.audit_events,
    }
}

fn clone_alarms(alarms: &Vec<DriftAlarm>) -> (copy: Vec<DriftAlarm>)
    ensures
        alarm_views(copy@) == alarm_views(alarms@),
{
    let mut copy: Vec<DriftAlarm> = Vec::new();
    let mut i: usize = 0;
    while i < alarms.len()
        invariant
            0 <= i <= alarms.len(),
            copy@.len() == i,
            forall|k: int| 0 <= k < i ==> (#[trigger] copy@[k])@ == alarms@[k]@,
        decreases alarms.len() - i,
    {
        copy.push(alarms[i].clone());
        i = i + 1;
    }
    assert(alarm_views(copy@) =~= alarm_views(alarms@));
    copy
}

/// A copy of the store's data, ready to be written.
pub fn store_to_payload(store: &ProjectStore) -> (payload: ProjectPayload)
    ensures
        payload@ == store@,
{
    let artifacts = store.artifacts.clone();
    let versions = store.versions.clone();
    let approvals = store.approvals.clone();
    let links = store.links.clone();
    let amendments = store.amendments.clone();
    let audit_events = store.audit_events.clone();
    assert(artifacts@ =~= store.artifacts@);
    assert(versions@ =~= store.versions@);
    assert(approvals@ =~= store.approvals@);
    assert(links@ =~= store.links@);
    assert(amendments@ =~= store.amendments@);
    assert(audit_events@ =~= store.audit_events@);
    ProjectPayload {
        project: store.project.clone(),
        constitution: store.constitution.clone(),
        artifacts,
        versions,
        approvals,
        links,
        alarms: clone_alarms(&store.alarms),
        amendments,
        audit_events,
    }
}

/// The store that holds the data of a loaded payload.
pub fn payload_to_store(payload: ProjectPayload) -> (store: ProjectStore)
    ensures
        store == store_of(payload),
        store@ == payload@,
{
    ProjectStore {
        project: payload.project,
        constitution: payload.constitution,
        artifacts: payload.artifacts,
        versions: payload.versions,
        approvals: payload.approvals,
        links: payload.links,
        alarms: payload.alarms,
        amendments: payload.amendments,
        audit_events: payload.audit_events,
    }
}

// ─── Save and load ─────────────────────────────────────────

/// `file` is what saving `payload`, whose canonical JSON text is
/// `payload_json`, writes.
pub open spec fn is_sealed(file: AnchorProjectFile, payload: ProjectPayload, payload_json: Seq<u8>) -> bool {
    &&& file.anchor_file_version@ == ANCHOR_FILE_VERSION@
    &&& file.schema_version@ == SCHEMA_VERSION@
    &&& file.content_hash@ == hash_text(djb2(payload_json))
    &&& file.payload == payload
}

/// `file`, whose payload has canonical JSON text `payload_json`, passes the
/// version check, the schema check and the integrity check.
pub open spec fn file_accepted(file: AnchorProjectFile, payload_json: Seq<u8>) -> bool {
    &&& version_supported(file.anchor_file_version@)
    &&& file.schema_version@ == SCHEMA_VERSION@
    &&& file.content_hash@ == hash_text(djb2(payload_json))
}

/// Frames `payload` for saving: the current file and schema versions and the
/// content hash of `payload_json`, the payload's canonical JSON text.
pub fn seal_project_file(payload: ProjectPayload, payload_json: &[u8]) -> (file: AnchorProjectFile)
    ensures
        is_sealed(file, payload, payload_json@),
{
    AnchorProjectFile {
        anchor_file_version: ANCHOR_FILE_VERSION.to_owned(),
        schema_version: SCHEMA_VERSION.to_owned(),
        content_hash: compute_content_hash(payload_json),
        payload,
    }
}

/// Checks a parsed project file whose payload has canonical JSON text
/// `payload_json`: files of a newer (or unreadable) format version are
/// rejected, then files of another schema version, then files whose content
/// hash does not match.
pub fn open_project_file(file: AnchorProjectFile, payload_json: &[u8]) -> (loaded: Result<ProjectStore, PersistenceError>)
    ensures
        !version_supported(file.anchor_file_version@) ==> (loaded matches Err(
            PersistenceError::UnsupportedFileVersion { file_version, max_supported },
        ) && file_version == file.anchor_file_version && max_supported@ == ANCHOR_FILE_VERSION@),
        version_supported(file.anchor_file_version@) && file.schema_version@ != SCHEMA_VERSION@
            ==> (loaded matches Err(PersistenceError::SchemaMismatch { file_schema, engine_schema })
            && file_schema == file.schema_version && engine_schema@ == SCHEMA_VERSION@),
        version_supported(file.anchor_file_version@) && file.schema_version@ == SCHEMA_VERSION@
            && file.content_hash@ != hash_text(djb2(payload_json@)) ==> (loaded matches Err(
            PersistenceError::CorruptedFile { expected_hash, actual_hash },
        ) && expected_hash == file.content_hash && actual_hash@ == hash_text(djb2(payload_json@))),
        file_accepted(file, payload_json@) ==> loaded == Ok::<ProjectStore, PersistenceError>(
            store_of(file.payload),
        ),
{
    // Version gate: reject files from the future.
    if !is_supported_version(file.anchor_file_version.as_str()) {
        return Err(PersistenceError::UnsupportedFileVersion {
            file_version: file.anchor_file_version,
            max_supported: ANCHOR_FILE_VERSION.to_owned(),
        });
    }
    let engine_schema = SCHEMA_VERSION.to_owned();
    if file.schema_version != engine_schema {
        return Err(PersistenceError::SchemaMismatch { file_schema: file.schema_version, engine_schema });
    }
    let actual_hash = compute_content_hash(payload_json);
    if actual_hash != file.content_hash {
        return Err(PersistenceError::CorruptedFile { expected_hash: file.content_hash, actual_hash });
    }
    Ok(payload_to_store(file.payload))
}

/// Round trip: a file written by saving a store loads back as that store.
/// Sealing a payload produces a file that passes every check, and the
/// store loaded from it holds exactly the data that was saved.
pub proof fn saved_project_loads_back(
    store: ProjectStore,
    payload: ProjectPayload,
    file: AnchorProjectFile,
    payload_json: Seq<u8>,
)
    requires
        payload@ == store@,
        is_sealed(file, payload, payload_json),
    ensures
        file_accepted(file, payload_json),
        store_of(file.payload)@ == store@,
{
    current_version_is_supported();
}

/// Integrity: a file whose recorded hash differs from the hash of its
/// payload is never accepted, whatever its versions say.
pub proof fn tampered_file_is_refused(file: AnchorProjectFile, payload_json: Seq<u8>)
    requires
        file.content_hash@ != hash_text(djb2(payload_json)),
    ensures
        !file_accepted(file, payload_json),
{
}

} // verus!
