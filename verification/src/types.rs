use vstd::prelude::*;

verus! {

/// Kind of a git object referenced by a delta manifest: a file blob or a
/// directory tree. The kind is fixed when a descriptor is built and never
/// changes afterwards.
#[derive(Clone, Copy, Debug, PartialEq, Eq, Structural)]
pub enum ObjectKind {
    Blob,
    Tree,
}

/// The supported on-disk encodings of a git delta manifest. Dispatch on this
/// enumeration is confined to `fetch_git_delta_manifest`; callers never see a
/// version-specific manifest type. `V1` names a retired encoding that this
/// layer no longer implements: asking for it is reported as an error, never
/// silently ignored.
#[derive(Clone, Copy, Debug, PartialEq, Eq, Structural)]
pub enum GitDeltaManifestVersion {
    V1,
    V2,
}

/// Request context threaded through every operation that may touch the
/// object store or the derivation provider. It carries no data that this
/// layer reads; it exists so that deadlines and correlation metadata can be
/// passed through to the collaborators.
pub struct CoreContext {}

impl CoreContext {
    pub fn new() -> CoreContext {
        CoreContext {}
    }
}

/// Copies a byte vector, keeping its contents.
pub fn clone_u8_vec(v: &Vec<u8>) -> (r: Vec<u8>)
    ensures
        r@ == v@,
{
    let mut r: Vec<u8> = Vec::new();
    let mut i: usize = 0;
    while i < v.len()
        invariant
            i <= v.len(),
            r@ == v@.take(i as int),
        decreases v.len() - i,
    {
        r.push(v[i]);
        proof {
            assert(v@.take(i as int).push(v@[i as int]) =~= v@.take(i as int + 1));
        }
        i = i + 1;
    }
    proof {
        assert(v@.take(v@.len() as int) =~= v@);
    }
    r
}

/// Compares two byte vectors by contents.
pub fn u8_vec_eq(a: &Vec<u8>, b: &Vec<u8>) -> (r: bool)
    ensures
        r == (a@ == b@),
{
    if a.len() != b.len() {
        return false;
    }
    let mut i: usize = 0;
    while i < a.len()
        invariant
            i <= a.len(),
            a@.len() == b@.len(),
            forall|j: int| 0 <= j < i ==> a@[j] == b@[j],
        decreases a.len() - i,
    {
        if a[i] != b[i] {
            return false;
        }
        i = i + 1;
    }
    proof {
        assert(a@ =~= b@);
    }
    true
}

/// Identity of an object held by the store: the raw bytes of a content
/// digest. The digest bytes are fixed at construction; a well-formed SHA-1
/// identity has twenty of them, but the type itself accepts any length so
/// that a malformed identity is detected where it is interpreted, not
/// silently truncated.
#[derive(Debug, PartialEq, Eq, Hash)]
pub struct ObjectId {
    digest: Vec<u8>,
}

impl View for ObjectId {
    type V = Seq<u8>;

    closed spec fn view(&self) -> Seq<u8> {
        self.digest@
    }
}

impl Clone for ObjectId {
    fn clone(&self) -> (r: Self)
        ensures
            r@ == self@,
    {
        ObjectId { digest: clone_u8_vec(&self.digest) }
    }
}

impl ObjectId {
    pub fn from_bytes(digest: Vec<u8>) -> (r: ObjectId)
        ensures
            r@ == digest@,
    {
        ObjectId { digest }
    }

    pub fn as_bytes(&self) -> (r: &Vec<u8>)
        ensures
            r@ == self@,
    {
        &self.digest
    }

    pub fn same_as(&self, other: &ObjectId) -> (r: bool)
        ensures
            r == (self@ == other@),
    {
        u8_vec_eq(&self.digest, &other.digest)
    }
}

/// Identity of a changeset (a commit). Opaque to this layer: it is handed to
/// the derivation provider unchanged and attached to errors for context.
#[derive(Debug, PartialEq, Eq)]
pub struct ChangesetId {
    bytes: Vec<u8>,
}

impl View for ChangesetId {
    type V = Seq<u8>;

    closed spec fn view(&self) -> Seq<u8> {
        self.bytes@
    }
}

impl Clone for ChangesetId {
    fn clone(&self) -> (r: Self)
        ensures
            r@ == self@,
    {
        ChangesetId { bytes: clone_u8_vec(&self.bytes) }
    }
}

impl ChangesetId {
    pub fn from_bytes(bytes: Vec<u8>) -> (r: ChangesetId)
        ensures
            r@ == bytes@,
    {
        ChangesetId { bytes }
    }

    pub fn as_bytes(&self) -> (r: &Vec<u8>)
        ensures
            r@ == self@,
    {
        &self.bytes
    }

    pub fn same_as(&self, other: &ChangesetId) -> (r: bool)
        ensures
            r == (self@ == other@),
    {
        u8_vec_eq(&self.bytes, &other.bytes)
    }
}

/// Why a request against the delta-manifest layer failed. Every failure is a
/// typed value carrying the identifier it concerns; nothing is swallowed and
/// nothing aborts the process.
#[derive(Debug, PartialEq, Eq)]
pub enum GitDeltaManifestError {
    /// The requested manifest version is not implemented by this layer.
    UnsupportedVersion(GitDeltaManifestVersion),
    /// The derivation provider could not produce a root manifest id for the
    /// changeset under the given version.
    DerivationFailed(ChangesetId, GitDeltaManifestVersion),
    /// The manifest body addressed by this root id is not in the object
    /// store.
    ManifestLoadFailed(ObjectId),
    /// A chunk of delta instruction bytes with this id is not in the object
    /// store.
    DeltaBytesLoadFailed(ObjectId),
    /// A raw digest of this length cannot be read as a twenty-byte SHA-1.
    InvalidDigestLength(usize),
    /// These raw bytes are not a well-formed path encoding.
    MalformedPath(Vec<u8>),
}

} // verus!
