use vstd::prelude::*;

use bytes::Bytes;

use crate::buffer::bytes_clone;
use crate::buffer::bytes_content;
use crate::buffer::bytes_of_vec;
use crate::delta_manifest_ops::EntryView;
use crate::delta_manifest_ops::GitDeltaManifestOps;
use crate::delta_manifest_v2::GitDeltaManifestV2;
use crate::types::CoreContext;
use crate::types::GitDeltaManifestError;
use crate::types::ObjectId;

verus! {

/// The map a key/value list denotes, with later entries overriding earlier
/// ones.
pub open spec fn assoc_map<W>(s: Seq<(Seq<u8>, W)>) -> Map<Seq<u8>, W>
    decreases s.len(),
{
    if s.len() == 0 {
        Map::empty()
    } else {
        assoc_map(s.drop_last()).insert(s.last().0, s.last().1)
    }
}

/// A key that no entry of the suffix carries looks the same in the whole
/// list as in the prefix before that suffix.
pub proof fn lemma_assoc_map_prefix<W>(s: Seq<(Seq<u8>, W)>, i: int, k: Seq<u8>)
    requires
        0 <= i <= s.len(),
        forall|j: int| i <= j < s.len() ==> (#[trigger] s[j]).0 != k,
    ensures
        assoc_map(s).contains_key(k) == assoc_map(s.take(i)).contains_key(k),
        assoc_map(s).contains_key(k) ==> assoc_map(s)[k] == assoc_map(s.take(i))[k],
    decreases s.len() - i,
{
    if i < s.len() {
        lemma_assoc_map_prefix(s.drop_last(), i, k);
        assert(s.drop_last().take(i) =~= s.take(i));
        assert(s.last().0 != k);
    } else {
        assert(s.take(i) =~= s);
    }
}

/// The content-addressed object store as this layer sees it: a read-only
/// collection of byte blobs and of already-derived V2 manifest bodies, each
/// addressed by an object id. Loading never alters the store; writing
/// belongs to the derivation engine, which this layer treats as append-only.
pub struct Blobstore {
    blobs: Vec<(ObjectId, Bytes)>,
    manifests: Vec<(ObjectId, GitDeltaManifestV2)>,
}

impl Blobstore {
    /// The stored blobs as id/content pairs, in storage order.
    pub closed spec fn blob_pairs(&self) -> Seq<(Seq<u8>, Seq<u8>)> {
        self.blobs@.map_values(|t: (ObjectId, Bytes)| (t.0@, bytes_content(t.1)))
    }

    /// The stored manifests as id/entries pairs, in storage order.
    pub closed spec fn manifest_pairs(&self) -> Seq<(Seq<u8>, Seq<(Seq<u8>, EntryView)>)> {
        self.manifests@.map_values(
            |t: (ObjectId, GitDeltaManifestV2)| (t.0@, t.1.manifest_view()),
        )
    }

    /// The byte blobs the store holds, by id.
    pub open spec fn blob_map(&self) -> Map<Seq<u8>, Seq<u8>> {
        assoc_map(self.blob_pairs())
    }

    /// The manifest bodies the store holds, by id, each as the entries it
    /// denotes.
    pub open spec fn manifest_map(&self) -> Map<Seq<u8>, Seq<(Seq<u8>, EntryView)>> {
        assoc_map(self.manifest_pairs())
    }

    pub fn new() -> (r: Blobstore)
        ensures
            r.blob_map() == Map::<Seq<u8>, Seq<u8>>::empty(),
            r.manifest_map() == Map::<Seq<u8>, Seq<(Seq<u8>, EntryView)>>::empty(),
    {
        let r = Blobstore { blobs: Vec::new(), manifests: Vec::new() };
        proof {
            assert(r.blob_pairs() =~= Seq::<(Seq<u8>, Seq<u8>)>::empty());
            assert(r.manifest_pairs() =~= Seq::<(Seq<u8>, Seq<(Seq<u8>, EntryView)>)>::empty());
        }
        r
    }

    /// Stores a byte blob under an id, overriding any previous blob with
    /// that id.
    pub fn put_blob(&mut self, id: ObjectId, data: Vec<u8>)
        ensures
            final(self).blob_map() == old(self).blob_map().insert(id@, data@),
            final(self).manifest_map() == old(self).manifest_map(),
    {
        let ghost prev = old(self).blob_pairs();
        let b = bytes_of_vec(data);
        self.blobs.push((id, b));
        proof {
            assert(self.blob_pairs() =~= prev.push((id@, data@)));
            assert(self.blob_pairs().drop_last() =~= prev);
            assert(self.blob_pairs().last() == ((id@, data@)));
            assert(self.manifest_pairs() =~= old(self).manifest_pairs());
        }
    }

    /// Stores a derived manifest body under an id, overriding any previous
    /// body with that id.
    pub fn put_manifest(&mut self, id: ObjectId, manifest: GitDeltaManifestV2)
        ensures
            final(self).manifest_map() == old(self).manifest_map().insert(
                id@,
                manifest.manifest_view(),
            ),
            final(self).blob_map() == old(self).blob_map(),
    {
        let ghost prev = old(self).manifest_pairs();
        let ghost mv = manifest.manifest_view();
        self.manifests.push((id, manifest));
        proof {
            assert(self.manifest_pairs() =~= prev.push((id@, mv)));
            assert(self.manifest_pairs().drop_last() =~= prev);
            assert(self.manifest_pairs().last() == ((id@, mv)));
            assert(self.blob_pairs() =~= old(self).blob_pairs());
        }
    }

    /// Loads the byte blob an id addresses, or reports the id as missing.
    pub fn load_blob(&self, _ctx: &CoreContext, id: &ObjectId) -> (r: Result<
        Bytes,
        GitDeltaManifestError,
    >)
        ensures
            self.blob_map().contains_key(id@) ==> (r matches Ok(b) && bytes_content(b)
                == self.blob_map()[id@]),
            !self.blob_map().contains_key(id@) ==> (r matches Err(e) && e matches
                GitDeltaManifestError::DeltaBytesLoadFailed(m) && m@ == id@),
    {
        let mut i: usize = self.blobs.len();
        while i > 0
            invariant
                i <= self.blobs@.len(),
                self.blob_pairs().len() == self.blobs@.len(),
                forall|j: int|
                    i <= j < self.blob_pairs().len() ==> (#[trigger] self.blob_pairs()[j]).0
                        != id@,
            decreases i,
        {
            i = i - 1;
            let pair = &self.blobs[i];
            if pair.0.same_as(id) {
                proof {
                    assert(self.blob_pairs()[i as int].0 == id@);
                    lemma_assoc_map_prefix(self.blob_pairs(), i + 1, id@);
                    assert(self.blob_pairs().take(i + 1).drop_last() =~= self.blob_pairs().take(
                        i as int,
                    ));
                    assert(self.blob_pairs().take(i + 1).last() == self.blob_pairs()[i as int]);
                }
                return Ok(bytes_clone(&pair.1));
            }
            proof {
                assert(self.blob_pairs()[i as int].0 != id@);
            }
        }
        proof {
            lemma_assoc_map_prefix(self.blob_pairs(), 0, id@);
            assert(self.blob_pairs().take(0) =~= Seq::<(Seq<u8>, Seq<u8>)>::empty());
        }
        Err(GitDeltaManifestError::DeltaBytesLoadFailed(id.clone()))
    }

    /// Loads the manifest body an id addresses, or reports the id as
    /// missing. The returned manifest denotes exactly the stored entries.
    pub fn load_manifest(&self, _ctx: &CoreContext, id: &ObjectId) -> (r: Result<
        GitDeltaManifestV2,
        GitDeltaManifestError,
    >)
        ensures
            self.manifest_map().contains_key(id@) ==> (r matches Ok(m) && m.manifest_view()
                == self.manifest_map()[id@]),
            !self.manifest_map().contains_key(id@) ==> (r matches Err(e) && e matches
                GitDeltaManifestError::ManifestLoadFailed(m) && m@ == id@),
    {
        let mut i: usize = self.manifests.len();
        while i > 0
            invariant
                i <= self.manifests@.len(),
                self.manifest_pairs().len() == self.manifests@.len(),
                forall|j: int|
                    i <= j < self.manifest_pairs().len() ==> (#[trigger] self.manifest_pairs()[j]).0
                        != id@,
            decreases i,
        {
            i = i - 1;
            let pair = &self.manifests[i];
            if pair.0.same_as(id) {
                proof {
                    assert(self.manifest_pairs()[i as int].0 == id@);
                    lemma_assoc_map_prefix(self.manifest_pairs(), i + 1, id@);
                    assert(self.manifest_pairs().take(i + 1).drop_last()
                        =~= self.manifest_pairs().take(i as int));
                    assert(self.manifest_pairs().take(i + 1).last() == self.manifest_pairs()[
                        i as int]);
                }
                return Ok(pair.1.clone());
            }
            proof {
                assert(self.manifest_pairs()[i as int].0 != id@);
            }
        }
        proof {
            lemma_assoc_map_prefix(self.manifest_pairs(), 0, id@);
            assert(self.manifest_pairs().take(0) =~= Seq::<
                (Seq<u8>, Seq<(Seq<u8>, EntryView)>),
            >::empty());
        }
        Err(GitDeltaManifestError::ManifestLoadFailed(id.clone()))
    }
}

} // verus!
