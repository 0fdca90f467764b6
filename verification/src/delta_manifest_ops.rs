use vstd::prelude::*;

use bytes::Bytes;

use crate::buffer::bytes_content;
use crate::delta_manifest_v2::GDMV2Entry;
use crate::delta_manifest_v2::GitDeltaManifestV2;
use crate::derivation::RepoDerivedData;
use crate::hash::GIT_SHA1_RAW_SIZE;
use crate::hash::GitSha1;
use crate::hash::RichGitSha1;
use crate::path::MPath;
use crate::path::flatten_path;
use crate::path::parse_mpath;
use crate::path::wellformed_path_bytes;
use crate::path::wf_path_elements;
use crate::store::Blobstore;
use crate::types::ChangesetId;
use crate::types::CoreContext;
use crate::types::GitDeltaManifestError;
use crate::types::GitDeltaManifestVersion;
use crate::types::ObjectId;
use crate::types::ObjectKind;

verus! {

/// Mathematical model of a full object held by a manifest entry: its digest
/// bytes, size, kind, and the inlined payload when one was embedded at
/// manifest-construction time.
#[verifier::ext_equal]
pub ghost struct FullObjectView {
    pub oid: Seq<u8>,
    pub size: u64,
    pub kind: ObjectKind,
    pub inlined: Option<Seq<u8>>,
}

/// Mathematical model of a delta's instruction payload handle: either bytes
/// embedded in the manifest, or the ids of the chunks that hold them in the
/// object store.
#[verifier::ext_equal]
pub ghost enum InstructionBytesView {
    Inlined(Seq<u8>),
    Chunked(Seq<Seq<u8>>),
}

/// Mathematical model of one delta: the base object it transforms, the path
/// of that base object, and the sizes and handle of the instruction payload.
#[verifier::ext_equal]
pub ghost struct DeltaView {
    pub base: FullObjectView,
    pub base_path: Seq<Seq<u8>>,
    pub uncompressed_size: u64,
    pub compressed_size: u64,
    pub instructions: InstructionBytesView,
}

/// Mathematical model of one manifest entry: the full object at a changed
/// path and the deltas that can rebuild it from base objects.
#[verifier::ext_equal]
pub ghost struct EntryView {
    pub full: FullObjectView,
    pub deltas: Seq<DeltaView>,
}

/// Whether every chunk id is present in the store's blobs.
pub open spec fn chunks_resolvable(chunks: Seq<Seq<u8>>, blobs: Map<Seq<u8>, Seq<u8>>) -> bool {
    forall|i: int| 0 <= i < chunks.len() ==> blobs.contains_key(#[trigger] chunks[i])
}

/// The concatenation of the chunks' bytes, in chunk order.
pub open spec fn concat_chunks(chunks: Seq<Seq<u8>>, blobs: Map<Seq<u8>, Seq<u8>>) -> Seq<u8>
    decreases chunks.len(),
{
    if chunks.len() == 0 {
        Seq::empty()
    } else {
        blobs[chunks[0]] + concat_chunks(chunks.drop_first(), blobs)
    }
}

/// The first chunk id that the store lacks.
pub open spec fn first_missing_chunk(chunks: Seq<Seq<u8>>, blobs: Map<Seq<u8>, Seq<u8>>) -> Seq<
    u8,
>
    decreases chunks.len(),
{
    if chunks.len() == 0 {
        Seq::empty()
    } else if !blobs.contains_key(chunks[0]) {
        chunks[0]
    } else {
        first_missing_chunk(chunks.drop_first(), blobs)
    }
}

pub proof fn lemma_concat_chunks_snoc(chunks: Seq<Seq<u8>>, blobs: Map<Seq<u8>, Seq<u8>>, i: int)
    requires
        0 <= i < chunks.len(),
    ensures
        concat_chunks(chunks.take(i + 1), blobs) == concat_chunks(chunks.take(i), blobs)
            + blobs[chunks[i]],
    decreases i,
{
    if i == 0 {
        assert(chunks.take(1) =~= seq![chunks[0]]);
        assert(chunks.take(0) =~= Seq::<Seq<u8>>::empty());
        assert(chunks.take(1).drop_first() =~= Seq::<Seq<u8>>::empty());
        assert(blobs[chunks[0]] + Seq::<u8>::empty() =~= blobs[chunks[0]]);
        assert(concat_chunks(chunks.take(0), blobs) + blobs[chunks[0]] =~= blobs[chunks[0]]);
    } else {
        lemma_concat_chunks_snoc(chunks.drop_first(), blobs, i - 1);
        assert(chunks.take(i + 1).drop_first() =~= chunks.drop_first().take(i));
        assert(chunks.take(i).drop_first() =~= chunks.drop_first().take(i - 1));
        assert(chunks.take(i + 1)[0] == chunks[0]);
        assert(chunks.take(i)[0] == chunks[0]);
        assert(chunks.drop_first()[i - 1] == chunks[i]);
        assert(blobs[chunks[0]] + (concat_chunks(chunks.drop_first().take(i - 1), blobs)
            + blobs[chunks[i]]) =~= (blobs[chunks[0]] + concat_chunks(
            chunks.drop_first().take(i - 1),
            blobs,
        )) + blobs[chunks[i]]);
    }
}

pub proof fn lemma_first_missing_chunk_at(
    chunks: Seq<Seq<u8>>,
    blobs: Map<Seq<u8>, Seq<u8>>,
    i: int,
)
    requires
        0 <= i < chunks.len(),
        forall|j: int| 0 <= j < i ==> blobs.contains_key(#[trigger] chunks[j]),
        !blobs.contains_key(chunks[i]),
    ensures
        first_missing_chunk(chunks, blobs) == chunks[i],
    decreases i,
{
    if i > 0 {
        lemma_first_missing_chunk_at(chunks.drop_first(), blobs, i - 1);
    }
}

impl DeltaView {
    /// Whether the instruction payload can be resolved against these blobs.
    pub open spec fn resolvable(self, blobs: Map<Seq<u8>, Seq<u8>>) -> bool {
        match self.instructions {
            InstructionBytesView::Inlined(_) => true,
            InstructionBytesView::Chunked(chunks) => chunks_resolvable(chunks, blobs),
        }
    }

    /// The bytes the instruction payload resolves to.
    pub open spec fn resolved_bytes(self, blobs: Map<Seq<u8>, Seq<u8>>) -> Seq<u8> {
        match self.instructions {
            InstructionBytesView::Inlined(b) => b,
            InstructionBytesView::Chunked(chunks) => concat_chunks(chunks, blobs),
        }
    }
}

/// What deriving a rich identity from a full object must return: success
/// exactly when the raw digest has the external format's length, carrying
/// the digest, kind and size unchanged; the offending length otherwise.
pub open spec fn rich_git_sha1_post(
    full: FullObjectView,
    r: Result<RichGitSha1, GitDeltaManifestError>,
) -> bool {
    &&& full.oid.len() == GIT_SHA1_RAW_SIZE ==> (r matches Ok(rich) && rich.sha1@ == full.oid
        && rich.ty == full.kind && rich.size == full.size)
    &&& full.oid.len() != GIT_SHA1_RAW_SIZE ==> r == Err::<RichGitSha1, GitDeltaManifestError>(
        GitDeltaManifestError::InvalidDigestLength(full.oid.len() as usize),
    )
}

/// One delta of a manifest entry, behind the version-neutral interface.
pub trait ObjectDeltaOps: Sized {
    /// The descriptor this delta denotes.
    spec fn delta_view(&self) -> DeltaView;

    /// Returns the uncompressed size of the instructions.
    fn instructions_uncompressed_size(&self) -> (n: u64)
        ensures
            n == self.delta_view().uncompressed_size,
    ;

    /// Returns the compressed size of the instructions.
    fn instructions_compressed_size(&self) -> (n: u64)
        ensures
            n == self.delta_view().compressed_size,
    ;

    /// Returns the identity of the base object.
    fn base_object_oid(&self) -> (r: ObjectId)
        ensures
            r@ == self.delta_view().base.oid,
    ;

    /// Returns the path of the base object.
    fn base_object_path(&self) -> (r: &MPath)
        ensures
            r@ == self.delta_view().base_path,
    ;

    /// Returns the kind of the base object.
    fn base_object_kind(&self) -> (r: ObjectKind)
        ensures
            r == self.delta_view().base.kind,
    ;

    /// Returns the size of the base object in bytes.
    fn base_object_size(&self) -> (n: u64)
        ensures
            n == self.delta_view().base.size,
    ;

    /// Resolves the instruction payload into concrete bytes, reading chunks
    /// from the object store only now, never during iteration. The changeset
    /// id and path exist so that a future encoding may key the fetch by
    /// logical location; no current encoding reads them.
    fn instruction_bytes(
        &self,
        ctx: &CoreContext,
        blobstore: &Blobstore,
        cs_id: ChangesetId,
        path: MPath,
    ) -> (r: Result<Bytes, GitDeltaManifestError>)
        ensures
            self.delta_view().resolvable(blobstore.blob_map()) ==> (r matches Ok(b)
                && bytes_content(b) == self.delta_view().resolved_bytes(blobstore.blob_map())),
            !self.delta_view().resolvable(blobstore.blob_map()) ==> (r matches Err(e) && e matches
                GitDeltaManifestError::DeltaBytesLoadFailed(m)
                && self.delta_view().instructions matches InstructionBytesView::Chunked(chunks)
                && m@ == first_missing_chunk(chunks, blobstore.blob_map())
                && !blobstore.blob_map().contains_key(m@)),
    ;
}

/// One entry of a manifest, behind the version-neutral interface.
pub trait GitDeltaManifestEntryOps: Sized {
    /// The concrete delta type of this manifest encoding.
    type Delta: ObjectDeltaOps;

    /// The entry this value denotes.
    spec fn entry_view(&self) -> EntryView;

    /// Returns the size of the full object.
    fn full_object_size(&self) -> (n: u64)
        ensures
            n == self.entry_view().full.size,
    ;

    /// Returns the identity of the full object.
    fn full_object_oid(&self) -> (r: ObjectId)
        ensures
            r@ == self.entry_view().full.oid,
    ;

    /// Returns the kind of the full object.
    fn full_object_kind(&self) -> (r: ObjectKind)
        ensures
            r == self.entry_view().full.kind,
    ;

    /// Returns the payload embedded for the full object, if the object was
    /// small enough to be inlined at manifest-construction time.
    fn full_object_inlined_bytes(&self) -> (r: Option<Bytes>)
        ensures
            r matches Some(b) ==> (self.entry_view().full.inlined matches Some(s)
                && bytes_content(b) == s),
            (r is None) == (self.entry_view().full.inlined is None),
    ;

    /// Returns the deltas of the entry, in construction order.
    fn deltas<'a>(&'a self) -> (ds: Vec<&'a Self::Delta>)
        ensures
            ds@.len() == self.entry_view().deltas.len(),
            forall|i: int|
                0 <= i < ds@.len() ==> (#[trigger] ds@[i]).delta_view()
                    == self.entry_view().deltas[i],
    ;

    /// Returns the rich identity of the full object: the digest re-expressed
    /// in the external hash format, annotated with kind and size. Fails, and
    /// never truncates, when the raw digest does not have the external
    /// format's length.
    fn full_object_rich_git_sha1(&self) -> (r: Result<RichGitSha1, GitDeltaManifestError>)
        ensures
            rich_git_sha1_post(self.entry_view().full, r),
    {
        let oid = self.full_object_oid();
        let sha1 = match GitSha1::from_bytes(oid.as_bytes()) {
            Ok(s) => s,
            Err(e) => {
                return Err(e);
            },
        };
        Ok(RichGitSha1::from_sha1(sha1, self.full_object_kind(), self.full_object_size()))
    }
}

/// The deep view of a list of raw-path/entry pairs.
pub open spec fn entry_list_view<E: GitDeltaManifestEntryOps>(s: Seq<(Vec<u8>, E)>) -> Seq<
    (Seq<u8>, EntryView),
> {
    s.map_values(|pe: (Vec<u8>, E)| (pe.0@, pe.1.entry_view()))
}

/// A whole manifest, behind the version-neutral interface.
pub trait GitDeltaManifestOps: Sized {
    /// The concrete entry type of this manifest encoding.
    type Entry: GitDeltaManifestEntryOps;

    /// The raw-path/entry pairs this manifest denotes, in its iteration
    /// order. There is one pair for each object at a path that differs from
    /// the object at the same path in one of the changeset's parents.
    spec fn manifest_view(&self) -> Seq<(Seq<u8>, EntryView)>;

    /// Consumes the manifest and returns its entries as a single-pass,
    /// forward-only stream. No delta instruction bytes are resolved by this
    /// call or by the stream: the result is determined by the manifest
    /// alone, whatever the store holds.
    fn into_entries(self, ctx: &CoreContext, blobstore: &Blobstore) -> (s:
        GitDeltaManifestEntryStream<Self::Entry>)
        ensures
            s.remaining() == self.manifest_view(),
    ;
}

/// A lazy, single-pass stream of manifest entries. Each pull parses one raw
/// path and hands out that entry; a malformed path surfaces as an error at
/// its position without ending the stream.
pub struct GitDeltaManifestEntryStream<E: GitDeltaManifestEntryOps> {
    rest: Vec<(Vec<u8>, E)>,
}

impl<E: GitDeltaManifestEntryOps> GitDeltaManifestEntryStream<E> {
    /// The raw-path/entry pairs not yet pulled, in stream order.
    pub closed spec fn remaining(&self) -> Seq<(Seq<u8>, EntryView)> {
        entry_list_view(self.rest@.reverse())
    }

    /// Builds the stream over a list of pairs, in list order.
    pub(crate) fn from_entries(list: Vec<(Vec<u8>, E)>) -> (s: GitDeltaManifestEntryStream<E>)
        ensures
            s.remaining() == entry_list_view(list@),
    {
        let ghost orig = list@;
        let mut src = list;
        let mut rest: Vec<(Vec<u8>, E)> = Vec::new();
        proof {
            assert(src@ =~= orig.take(orig.len() as int));
            assert(rest@ =~= orig.subrange(orig.len() as int, orig.len() as int).reverse());
        }
        while src.len() > 0
            invariant
                src@.len() <= orig.len(),
                src@ == orig.take(src@.len() as int),
                rest@ == orig.subrange(src@.len() as int, orig.len() as int).reverse(),
            decreases src.len(),
        {
            let ghost m = src@.len() as int;
            let x = src.pop().unwrap();
            rest.push(x);
            proof {
                assert(src@ =~= orig.take(m - 1));
                assert(x == orig[m - 1]);
                assert(rest@ =~= orig.subrange(m - 1, orig.len() as int).reverse());
            }
        }
        let s = GitDeltaManifestEntryStream { rest };
        proof {
            assert(s.rest@.reverse() =~= orig);
            assert(s.remaining() == entry_list_view(orig));
        }
        s
    }

    /// Pulls the next entry. Parsing of the raw path happens here, on
    /// demand; the object store is never consulted.
    pub fn next(&mut self) -> (r: Option<Result<(MPath, E), GitDeltaManifestError>>)
        ensures
            old(self).remaining().len() == 0 ==> (r is None && final(self).remaining() == old(
                self,
            ).remaining()),
            old(self).remaining().len() > 0 ==> ({
                let head = old(self).remaining()[0];
                &&& final(self).remaining() == old(self).remaining().drop_first()
                &&& (wellformed_path_bytes(head.0) ==> (r matches Some(item) && item matches Ok(pe)
                    && wf_path_elements(pe.0@) && flatten_path(pe.0@) == head.0 && pe.1.entry_view()
                    == head.1))
                &&& (!wellformed_path_bytes(head.0) ==> (r matches Some(item) && item matches Err(
                    e,
                ) && e matches GitDeltaManifestError::MalformedPath(b) && b@ == head.0))
            }),
    {
        let ghost old_rest = self.rest@;
        match self.rest.pop() {
            None => None,
            Some((raw, entry)) => {
                proof {
                    assert(old_rest.len() > 0);
                    assert(old_rest.reverse()[0] == old_rest[old_rest.len() - 1]);
                    assert(old(self).remaining()[0] == ((raw@, entry.entry_view())));
                    assert(self.rest@ =~= old_rest.drop_last());
                    assert forall|i: int| 0 <= i < self.rest@.reverse().len() implies
                        self.rest@.reverse()[i] == old_rest.reverse().drop_first()[i] by {
                        assert(self.rest@.reverse()[i] == self.rest@[self.rest@.len() - 1 - i]);
                        assert(old_rest.reverse().drop_first()[i] == old_rest.reverse()[i + 1]);
                        assert(old_rest.reverse()[i + 1] == old_rest[old_rest.len() - 2 - i]);
                    }
                    assert(self.rest@.reverse() =~= old_rest.reverse().drop_first());
                    assert(final(self).remaining() =~= old(self).remaining().drop_first());
                }
                match parse_mpath(&raw) {
                    Ok(p) => Some(Ok((p, entry))),
                    Err(e) => Some(Err(e)),
                }
            },
        }
    }
}

/// The caller-facing manifest: a closed union over the supported encodings.
/// Adding a version means adding one variant and one arm in each dispatch,
/// never touching caller code.
#[derive(Debug)]
pub enum GitDeltaManifest {
    V2(GitDeltaManifestV2),
}

impl GitDeltaManifestOps for GitDeltaManifest {
    type Entry = GDMV2Entry;

    open spec fn manifest_view(&self) -> Seq<(Seq<u8>, EntryView)> {
        match self {
            GitDeltaManifest::V2(m) => m.manifest_view(),
        }
    }

    fn into_entries(self, ctx: &CoreContext, blobstore: &Blobstore) -> (s:
        GitDeltaManifestEntryStream<GDMV2Entry>) {
        match self {
            GitDeltaManifest::V2(m) => m.into_entries(ctx, blobstore),
        }
    }
}

/// Everything `fetch_git_delta_manifest` promises, as one predicate over the
/// provider's and the store's contents. The result is a function of those
/// contents, the version and the changeset alone.
pub open spec fn fetch_git_delta_manifest_post(
    derived: Map<Seq<u8>, Seq<u8>>,
    manifests: Map<Seq<u8>, Seq<(Seq<u8>, EntryView)>>,
    version: GitDeltaManifestVersion,
    cs: Seq<u8>,
    r: Result<GitDeltaManifest, GitDeltaManifestError>,
) -> bool {
    match version {
        GitDeltaManifestVersion::V1 => r == Err::<GitDeltaManifest, GitDeltaManifestError>(
            GitDeltaManifestError::UnsupportedVersion(GitDeltaManifestVersion::V1),
        ),
        GitDeltaManifestVersion::V2 => {
            if !derived.contains_key(cs) {
                r matches Err(e) && e matches GitDeltaManifestError::DerivationFailed(c, v) && c@
                    == cs && v == GitDeltaManifestVersion::V2
            } else if !manifests.contains_key(derived[cs]) {
                r matches Err(e) && e matches GitDeltaManifestError::ManifestLoadFailed(m) && m@
                    == derived[cs]
            } else {
                r matches Ok(m) && m.manifest_view() == manifests[derived[cs]]
            }
        },
    }
}

/// Fetches the delta manifest of a changeset with the given version,
/// dispatching to the version-specific derivation path: ask the provider for
/// the root manifest id (deriving it if absent), load the manifest body from
/// the object store, and wrap it behind the version-neutral interface. Each
/// failure carries the identifier it concerns; an unsupported version is
/// reported before the provider or the store is consulted.
pub fn fetch_git_delta_manifest(
    ctx: &CoreContext,
    derived_data: &RepoDerivedData,
    blobstore: &Blobstore,
    git_delta_manifest_version: GitDeltaManifestVersion,
    cs_id: ChangesetId,
) -> (r: Result<GitDeltaManifest, GitDeltaManifestError>)
    ensures
        fetch_git_delta_manifest_post(
            derived_data.derived_map(),
            blobstore.manifest_map(),
            git_delta_manifest_version,
            cs_id@,
            r,
        ),
{
    match git_delta_manifest_version {
        GitDeltaManifestVersion::V1 => Err(
            GitDeltaManifestError::UnsupportedVersion(GitDeltaManifestVersion::V1),
        ),
        GitDeltaManifestVersion::V2 => {
            let root_mf_id = match derived_data.derive(ctx, &cs_id) {
                Ok(id) => id,
                Err(e) => {
                    return Err(e);
                },
            };
            let mf = match blobstore.load_manifest(ctx, root_mf_id.manifest_id()) {
                Ok(m) => m,
                Err(e) => {
                    return Err(e);
                },
            };
            Ok(GitDeltaManifest::V2(mf))
        },
    }
}

/// Fetching is idempotent: two results for the same provider and store
/// contents, version and changeset agree on success, and successful results
/// denote the same entries, so their paths and full-object identities are
/// identical.
pub proof fn lemma_fetch_git_delta_manifest_idempotent(
    derived: Map<Seq<u8>, Seq<u8>>,
    manifests: Map<Seq<u8>, Seq<(Seq<u8>, EntryView)>>,
    version: GitDeltaManifestVersion,
    cs: Seq<u8>,
    r1: Result<GitDeltaManifest, GitDeltaManifestError>,
    r2: Result<GitDeltaManifest, GitDeltaManifestError>,
)
    requires
        fetch_git_delta_manifest_post(derived, manifests, version, cs, r1),
        fetch_git_delta_manifest_post(derived, manifests, version, cs, r2),
    ensures
        (r1 is Ok) == (r2 is Ok),
        r1 matches Ok(m1) ==> (r2 matches Ok(m2) && m1.manifest_view() == m2.manifest_view() && (
        forall|i: int|
            0 <= i < m1.manifest_view().len() ==> (#[trigger] m1.manifest_view()[i]).0
                == m2.manifest_view()[i].0 && m1.manifest_view()[i].1.full.oid
                == m2.manifest_view()[i].1.full.oid)),
{
}

/// An unsupported version is rejected outright: whatever the provider and
/// the store hold, the result is the unsupported-version error, so neither
/// derivation nor a load is ever attempted.
pub proof fn lemma_unsupported_version_is_rejected(
    derived: Map<Seq<u8>, Seq<u8>>,
    manifests: Map<Seq<u8>, Seq<(Seq<u8>, EntryView)>>,
    cs: Seq<u8>,
    r: Result<GitDeltaManifest, GitDeltaManifestError>,
)
    requires
        fetch_git_delta_manifest_post(derived, manifests, GitDeltaManifestVersion::V1, cs, r),
    ensures
        r == Err::<GitDeltaManifest, GitDeltaManifestError>(
            GitDeltaManifestError::UnsupportedVersion(GitDeltaManifestVersion::V1),
        ),
{
}

/// A successful fetch exposes exactly the entries of the manifest that
/// derivation stored for the changeset: its entry sequence is non-empty if
/// and only if that manifest lists a changed path — which the derivation
/// engine guarantees happens exactly when the changeset differs from a
/// parent at some path.
pub proof fn lemma_fetch_entries_match_derived_manifest(
    derived: Map<Seq<u8>, Seq<u8>>,
    manifests: Map<Seq<u8>, Seq<(Seq<u8>, EntryView)>>,
    cs: Seq<u8>,
    r: Result<GitDeltaManifest, GitDeltaManifestError>,
)
    requires
        fetch_git_delta_manifest_post(derived, manifests, GitDeltaManifestVersion::V2, cs, r),
        derived.contains_key(cs),
        manifests.contains_key(derived[cs]),
    ensures
        r matches Ok(m) && m.manifest_view() == manifests[derived[cs]] && ((m.manifest_view().len()
            > 0) == (manifests[derived[cs]].len() > 0)),
{
}

/// Rich-identity round trip: derived from any full object whose digest has
/// the external format's length, the rich identity exists and its size and
/// type equal the object's size and kind.
pub proof fn lemma_rich_identity_round_trip(
    full: FullObjectView,
    r: Result<RichGitSha1, GitDeltaManifestError>,
)
    requires
        full.oid.len() == GIT_SHA1_RAW_SIZE,
        rich_git_sha1_post(full, r),
    ensures
        r matches Ok(rich) && rich.sha1@ == full.oid && rich.ty == full.kind && rich.size
            == full.size,
{
}

/// Rich-identity failure: a full object whose digest does not have the
/// external format's length yields the invalid-length error, never a
/// truncated identity.
pub proof fn lemma_rich_identity_rejects_bad_digest(
    full: FullObjectView,
    r: Result<RichGitSha1, GitDeltaManifestError>,
)
    requires
        full.oid.len() != GIT_SHA1_RAW_SIZE,
        rich_git_sha1_post(full, r),
    ensures
        r == Err::<RichGitSha1, GitDeltaManifestError>(
            GitDeltaManifestError::InvalidDigestLength(full.oid.len() as usize),
        ),
{
}

} // verus!
