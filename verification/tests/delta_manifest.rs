use bytes::Bytes;
use git_delta_manifest::delta_manifest_ops::GitDeltaManifestEntryOps;
use git_delta_manifest::delta_manifest_ops::GitDeltaManifestOps;
use git_delta_manifest::delta_manifest_ops::ObjectDeltaOps;
use git_delta_manifest::delta_manifest_ops::fetch_git_delta_manifest;
use git_delta_manifest::delta_manifest_v2::GDMV2DeltaEntry;
use git_delta_manifest::delta_manifest_v2::GDMV2Entry;
use git_delta_manifest::delta_manifest_v2::GDMV2InstructionBytes;
use git_delta_manifest::delta_manifest_v2::GDMV2Instructions;
use git_delta_manifest::delta_manifest_v2::GDMV2ObjectEntry;
use git_delta_manifest::delta_manifest_v2::GitDeltaManifestV2;
use git_delta_manifest::derivation::RepoDerivedData;
use git_delta_manifest::derivation::RootGitDeltaManifestV2Id;
use git_delta_manifest::path::parse_mpath;
use git_delta_manifest::store::Blobstore;
use git_delta_manifest::types::ChangesetId;
use git_delta_manifest::types::CoreContext;
use git_delta_manifest::types::GitDeltaManifestError;
use git_delta_manifest::types::GitDeltaManifestVersion;
use git_delta_manifest::types::ObjectId;
use git_delta_manifest::types::ObjectKind;

fn oid(fill: u8) -> ObjectId {
    ObjectId::from_bytes(vec![fill; 20])
}

fn entry(full: GDMV2ObjectEntry, deltas: Vec<GDMV2DeltaEntry>) -> GDMV2Entry {
    GDMV2Entry { full_object: full, deltas }
}

fn delta(
    base: GDMV2ObjectEntry,
    base_path: &[u8],
    uncompressed: u64,
    compressed: u64,
    instructions: GDMV2InstructionBytes,
) -> GDMV2DeltaEntry {
    GDMV2DeltaEntry {
        base_object: base,
        base_object_path: parse_mpath(&base_path.to_vec()).unwrap(),
        instructions: GDMV2Instructions {
            uncompressed_size: uncompressed,
            compressed_size: compressed,
            instruction_bytes: instructions,
        },
    }
}

fn setup(entries: Vec<(Vec<u8>, GDMV2Entry)>) -> (RepoDerivedData, Blobstore, ChangesetId) {
    let mut store = Blobstore::new();
    let root = oid(0xAA);
    store.put_manifest(root.clone(), GitDeltaManifestV2 { entries });
    let mut derived_data = RepoDerivedData::new();
    let cs_id = ChangesetId::from_bytes(b"changeset-c".to_vec());
    derived_data.record_derived(cs_id.clone(), RootGitDeltaManifestV2Id::new(root));
    (derived_data, store, cs_id)
}

#[test]
fn changed_path_reports_full_object_and_delta() {
    let ctx = CoreContext::new();
    let base_x = GDMV2ObjectEntry::new(oid(1), 40, ObjectKind::Tree, None);
    let full_y = GDMV2ObjectEntry::new(oid(2), 120, ObjectKind::Blob, None);
    let d = delta(
        base_x,
        b"src/a.txt",
        100,
        60,
        GDMV2InstructionBytes::Inlined(Bytes::from(b"delta-insns".to_vec())),
    );
    let e = entry(full_y, vec![d]);
    let (derived_data, store, cs_id) = setup(vec![(b"src/a.txt".to_vec(), e)]);

    let mf = fetch_git_delta_manifest(
        &ctx,
        &derived_data,
        &store,
        GitDeltaManifestVersion::V2,
        cs_id,
    )
    .unwrap();
    let mut stream = mf.into_entries(&ctx, &store);

    let (path, got) = stream.next().unwrap().unwrap();
    assert_eq!(path.elements(), &vec![b"src".to_vec(), b"a.txt".to_vec()]);
    assert_eq!(got.full_object_oid(), oid(2));
    assert_eq!(got.full_object_size(), 120);
    assert_eq!(got.full_object_kind(), ObjectKind::Blob);
    let ds = got.deltas();
    assert_eq!(ds.len(), 1);
    assert_eq!(ds[0].base_object_oid(), oid(1));
    assert_eq!(ds[0].base_object_kind(), ObjectKind::Tree);
    assert_eq!(ds[0].base_object_size(), 40);
    assert_eq!(ds[0].instructions_uncompressed_size(), 100);
    assert_eq!(ds[0].instructions_compressed_size(), 60);
    assert_eq!(
        ds[0].base_object_path().elements(),
        &vec![b"src".to_vec(), b"a.txt".to_vec()]
    );
    assert!(stream.next().is_none());
}

#[test]
fn new_file_has_zero_deltas() {
    let ctx = CoreContext::new();
    let full = GDMV2ObjectEntry::new(oid(3), 7, ObjectKind::Blob, Some(b"tiny".to_vec()));
    let e = entry(full, Vec::new());
    let (derived_data, store, cs_id) = setup(vec![(b"new.txt".to_vec(), e)]);

    let mf = fetch_git_delta_manifest(
        &ctx,
        &derived_data,
        &store,
        GitDeltaManifestVersion::V2,
        cs_id,
    )
    .unwrap();
    let mut stream = mf.into_entries(&ctx, &store);
    let (path, got) = stream.next().unwrap().unwrap();
    assert_eq!(path.elements(), &vec![b"new.txt".to_vec()]);
    assert!(got.deltas().is_empty());
    let inlined = got.full_object_inlined_bytes().unwrap();
    assert_eq!(&inlined[..], &b"tiny"[..]);
    assert!(stream.next().is_none());
}

#[test]
fn rich_identity_round_trip() {
    let full = GDMV2ObjectEntry::new(oid(9), 321, ObjectKind::Tree, None);
    let e = entry(full, Vec::new());
    let rich = e.full_object_rich_git_sha1().unwrap();
    assert_eq!(rich.sha1.as_bytes(), &vec![9u8; 20]);
    assert_eq!(rich.ty, ObjectKind::Tree);
    assert_eq!(rich.size, 321);
    assert_eq!(rich.ty_str(), "tree");
}

#[test]
fn rich_identity_fails_on_bad_digest_length() {
    let short = GDMV2ObjectEntry::new(
        ObjectId::from_bytes(vec![7u8; 19]),
        10,
        ObjectKind::Blob,
        None,
    );
    let e = entry(short, Vec::new());
    assert_eq!(
        e.full_object_rich_git_sha1().unwrap_err(),
        GitDeltaManifestError::InvalidDigestLength(19)
    );
    let long = GDMV2ObjectEntry::new(
        ObjectId::from_bytes(vec![7u8; 32]),
        10,
        ObjectKind::Blob,
        None,
    );
    let e2 = entry(long, Vec::new());
    assert_eq!(
        e2.full_object_rich_git_sha1().unwrap_err(),
        GitDeltaManifestError::InvalidDigestLength(32)
    );
}

#[test]
fn unsupported_version_is_rejected() {
    let ctx = CoreContext::new();
    let full = GDMV2ObjectEntry::new(oid(4), 1, ObjectKind::Blob, None);
    let (derived_data, store, cs_id) = setup(vec![(b"f".to_vec(), entry(full, Vec::new()))]);
    let err = fetch_git_delta_manifest(
        &ctx,
        &derived_data,
        &store,
        GitDeltaManifestVersion::V1,
        cs_id,
    )
    .unwrap_err();
    assert_eq!(
        err,
        GitDeltaManifestError::UnsupportedVersion(GitDeltaManifestVersion::V1)
    );
}

#[test]
fn derivation_failure_reports_changeset_and_version() {
    let ctx = CoreContext::new();
    let derived_data = RepoDerivedData::new();
    let store = Blobstore::new();
    let cs_id = ChangesetId::from_bytes(b"unknown".to_vec());
    let err = fetch_git_delta_manifest(
        &ctx,
        &derived_data,
        &store,
        GitDeltaManifestVersion::V2,
        cs_id.clone(),
    )
    .unwrap_err();
    assert_eq!(
        err,
        GitDeltaManifestError::DerivationFailed(cs_id, GitDeltaManifestVersion::V2)
    );
}

#[test]
fn manifest_load_failure_reports_root_id() {
    let ctx = CoreContext::new();
    let mut derived_data = RepoDerivedData::new();
    let store = Blobstore::new();
    let cs_id = ChangesetId::from_bytes(b"cs".to_vec());
    let root = oid(0x55);
    derived_data.record_derived(cs_id.clone(), RootGitDeltaManifestV2Id::new(root.clone()));
    let err = fetch_git_delta_manifest(
        &ctx,
        &derived_data,
        &store,
        GitDeltaManifestVersion::V2,
        cs_id,
    )
    .unwrap_err();
    assert_eq!(err, GitDeltaManifestError::ManifestLoadFailed(root));
}

#[test]
fn fetch_is_idempotent() {
    let ctx = CoreContext::new();
    let full_a = GDMV2ObjectEntry::new(oid(1), 10, ObjectKind::Blob, None);
    let full_b = GDMV2ObjectEntry::new(oid(2), 20, ObjectKind::Tree, None);
    let (derived_data, store, cs_id) = setup(vec![
        (b"a".to_vec(), entry(full_a, Vec::new())),
        (b"d/b".to_vec(), entry(full_b, Vec::new())),
    ]);

    let mut seen: Vec<Vec<(Vec<Vec<u8>>, ObjectId)>> = Vec::new();
    for _ in 0..2 {
        let mf = fetch_git_delta_manifest(
            &ctx,
            &derived_data,
            &store,
            GitDeltaManifestVersion::V2,
            cs_id.clone(),
        )
        .unwrap();
        let mut stream = mf.into_entries(&ctx, &store);
        let mut got: Vec<(Vec<Vec<u8>>, ObjectId)> = Vec::new();
        while let Some(item) = stream.next() {
            let (path, e) = item.unwrap();
            got.push((path.elements().clone(), e.full_object_oid()));
        }
        seen.push(got);
    }
    assert_eq!(seen[0], seen[1]);
    assert_eq!(seen[0].len(), 2);
}

#[test]
fn iteration_never_resolves_instruction_bytes() {
    let ctx = CoreContext::new();
    // The chunks of this delta are deliberately absent from the store:
    // iterating the manifest must still succeed, because instruction bytes
    // are only resolved on explicit request.
    let base = GDMV2ObjectEntry::new(oid(1), 5, ObjectKind::Blob, None);
    let full = GDMV2ObjectEntry::new(oid(2), 9, ObjectKind::Blob, None);
    let d = delta(
        base,
        b"a",
        50,
        30,
        GDMV2InstructionBytes::Chunked(vec![oid(0x10), oid(0x11)]),
    );
    let (derived_data, store, cs_id) = setup(vec![(b"a".to_vec(), entry(full, vec![d]))]);

    let mf = fetch_git_delta_manifest(
        &ctx,
        &derived_data,
        &store,
        GitDeltaManifestVersion::V2,
        cs_id.clone(),
    )
    .unwrap();
    let mut stream = mf.into_entries(&ctx, &store);
    let (path, e) = stream.next().unwrap().unwrap();
    let ds = e.deltas();
    assert_eq!(ds.len(), 1);
    // Only the explicit request touches the store, and it reports the first
    // missing chunk.
    let err = ds[0]
        .instruction_bytes(&ctx, &store, cs_id, path)
        .unwrap_err();
    assert_eq!(err, GitDeltaManifestError::DeltaBytesLoadFailed(oid(0x10)));
}

#[test]
fn chunked_instruction_bytes_concatenate_in_order() {
    let ctx = CoreContext::new();
    let base = GDMV2ObjectEntry::new(oid(1), 5, ObjectKind::Blob, None);
    let full = GDMV2ObjectEntry::new(oid(2), 9, ObjectKind::Blob, None);
    let d = delta(
        base,
        b"a",
        6,
        6,
        GDMV2InstructionBytes::Chunked(vec![oid(0x10), oid(0x11)]),
    );
    let (derived_data, mut store, cs_id) = setup(vec![(b"a".to_vec(), entry(full, vec![d]))]);
    store.put_blob(oid(0x10), b"abc".to_vec());
    store.put_blob(oid(0x11), b"def".to_vec());

    let mf = fetch_git_delta_manifest(
        &ctx,
        &derived_data,
        &store,
        GitDeltaManifestVersion::V2,
        cs_id.clone(),
    )
    .unwrap();
    let mut stream = mf.into_entries(&ctx, &store);
    let (path, e) = stream.next().unwrap().unwrap();
    let ds = e.deltas();
    let got = ds[0]
        .instruction_bytes(&ctx, &store, cs_id.clone(), path.clone())
        .unwrap();
    assert_eq!(&got[..], &b"abcdef"[..]);
    // Resolution is idempotent: asking again returns equal bytes.
    let again = ds[0]
        .instruction_bytes(&ctx, &store, cs_id, path)
        .unwrap();
    assert_eq!(&again[..], &b"abcdef"[..]);
}

#[test]
fn inlined_instruction_bytes_need_no_store() {
    let ctx = CoreContext::new();
    let base = GDMV2ObjectEntry::new(oid(1), 5, ObjectKind::Blob, None);
    let d = delta(
        base,
        b"a",
        4,
        4,
        GDMV2InstructionBytes::Inlined(Bytes::from(b"wxyz".to_vec())),
    );
    let empty_store = Blobstore::new();
    let cs_id = ChangesetId::from_bytes(b"cs".to_vec());
    let path = parse_mpath(&b"a".to_vec()).unwrap();
    let got = d
        .instruction_bytes(&ctx, &empty_store, cs_id, path)
        .unwrap();
    assert_eq!(&got[..], &b"wxyz"[..]);
}

#[test]
fn malformed_path_surfaces_as_error_at_its_position() {
    let ctx = CoreContext::new();
    let mk = |fill: u8| entry(GDMV2ObjectEntry::new(oid(fill), 1, ObjectKind::Blob, None), Vec::new());
    let (derived_data, store, cs_id) = setup(vec![
        (b"ok.txt".to_vec(), mk(1)),
        (b"bad//path".to_vec(), mk(2)),
        (b"also-ok".to_vec(), mk(3)),
    ]);

    let mf = fetch_git_delta_manifest(
        &ctx,
        &derived_data,
        &store,
        GitDeltaManifestVersion::V2,
        cs_id,
    )
    .unwrap();
    let mut stream = mf.into_entries(&ctx, &store);

    let first = stream.next().unwrap().unwrap();
    assert_eq!(first.0.elements(), &vec![b"ok.txt".to_vec()]);
    let second = stream.next().unwrap().unwrap_err();
    assert_eq!(
        second,
        GitDeltaManifestError::MalformedPath(b"bad//path".to_vec())
    );
    let third = stream.next().unwrap().unwrap();
    assert_eq!(third.0.elements(), &vec![b"also-ok".to_vec()]);
    assert!(stream.next().is_none());
}

#[test]
fn path_parsing_accepts_and_rejects() {
    let root = parse_mpath(&Vec::new()).unwrap();
    assert!(root.is_root());
    assert_eq!(root.num_elements(), 0);

    let nested = parse_mpath(&b"a/b/c".to_vec()).unwrap();
    assert_eq!(
        nested.elements(),
        &vec![b"a".to_vec(), b"b".to_vec(), b"c".to_vec()]
    );

    for bad in [
        b"/leading".to_vec(),
        b"trailing/".to_vec(),
        b"dou//ble".to_vec(),
        b"/".to_vec(),
        b"nul\0byte".to_vec(),
    ] {
        assert_eq!(
            parse_mpath(&bad).unwrap_err(),
            GitDeltaManifestError::MalformedPath(bad)
        );
    }
}

#[test]
fn empty_manifest_yields_empty_stream() {
    let ctx = CoreContext::new();
    let (derived_data, store, cs_id) = setup(Vec::new());
    let mf = fetch_git_delta_manifest(
        &ctx,
        &derived_data,
        &store,
        GitDeltaManifestVersion::V2,
        cs_id,
    )
    .unwrap();
    let mut stream = mf.into_entries(&ctx, &store);
    assert!(stream.next().is_none());
}
