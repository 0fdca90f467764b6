use vstd::prelude::*;

use crate::store::assoc_map;
use crate::store::lemma_assoc_map_prefix;
use crate::types::ChangesetId;
use crate::types::CoreContext;
use crate::types::GitDeltaManifestError;
use crate::types::GitDeltaManifestVersion;
use crate::types::ObjectId;

verus! {

/// The root derived-data id of a changeset's V2 delta manifest: it names
/// the object under which the manifest body is stored.
#[derive(Debug, PartialEq, Eq)]
pub struct RootGitDeltaManifestV2Id {
    manifest_id: ObjectId,
}

impl View for RootGitDeltaManifestV2Id {
    type V = Seq<u8>;

    closed spec fn view(&self) -> Seq<u8> {
        self.manifest_id@
    }
}

impl Clone for RootGitDeltaManifestV2Id {
    fn clone(&self) -> (r: Self)
        ensures
            r@ == self@,
    {
        RootGitDeltaManifestV2Id { manifest_id: self.manifest_id.clone() }
    }
}

impl RootGitDeltaManifestV2Id {
    pub fn new(manifest_id: ObjectId) -> (r: RootGitDeltaManifestV2Id)
        ensures
            r@ == manifest_id@,
    {
        RootGitDeltaManifestV2Id { manifest_id }
    }

    pub fn manifest_id(&self) -> (r: &ObjectId)
        ensures
            r@ == self@,
    {
        &self.manifest_id
    }
}

/// The derivation provider as this layer sees it: for each changeset whose
/// V2 delta manifest has been (or can be) derived, the root manifest id.
/// Deriving is idempotent; a changeset the provider cannot serve yields a
/// derivation failure carrying the changeset and version.
pub struct RepoDerivedData {
    derived: Vec<(ChangesetId, RootGitDeltaManifestV2Id)>,
}

impl RepoDerivedData {
    /// The recorded changeset/root pairs, in recording order.
    pub closed spec fn derived_pairs(&self) -> Seq<(Seq<u8>, Seq<u8>)> {
        self.derived@.map_values(|t: (ChangesetId, RootGitDeltaManifestV2Id)| (t.0@, t.1@))
    }

    /// The root manifest id of each derivable changeset.
    pub open spec fn derived_map(&self) -> Map<Seq<u8>, Seq<u8>> {
        assoc_map(self.derived_pairs())
    }

    pub fn new() -> (r: RepoDerivedData)
        ensures
            r.derived_map() == Map::<Seq<u8>, Seq<u8>>::empty(),
    {
        let r = RepoDerivedData { derived: Vec::new() };
        proof {
            assert(r.derived_pairs() =~= Seq::<(Seq<u8>, Seq<u8>)>::empty());
        }
        r
    }

    /// Records that a changeset's manifest derives to this root id.
    pub fn record_derived(&mut self, cs_id: ChangesetId, root: RootGitDeltaManifestV2Id)
        ensures
            final(self).derived_map() == old(self).derived_map().insert(cs_id@, root@),
    {
        let ghost prev = old(self).derived_pairs();
        let ghost rv = root@;
        let ghost cv = cs_id@;
        self.derived.push((cs_id, root));
        proof {
            assert(self.derived_pairs() =~= prev.push((cv, rv)));
            assert(self.derived_pairs().drop_last() =~= prev);
            assert(self.derived_pairs().last() == ((cv, rv)));
        }
    }

    /// Produces, or retrieves from cache, the root manifest id of the
    /// changeset's V2 delta manifest; repeated calls agree. A changeset the
    /// provider cannot derive is reported with the changeset and version
    /// attached.
    pub fn derive(&self, _ctx: &CoreContext, cs_id: &ChangesetId) -> (r: Result<
        RootGitDeltaManifestV2Id,
        GitDeltaManifestError,
    >)
        ensures
            self.derived_map().contains_key(cs_id@) ==> (r matches Ok(root) && root@
                == self.derived_map()[cs_id@]),
            !self.derived_map().contains_key(cs_id@) ==> (r matches Err(e) && e matches
                GitDeltaManifestError::DerivationFailed(c, v) && c@ == cs_id@ && v
                == GitDeltaManifestVersion::V2),
    {
        let mut i: usize = self.derived.len();
        while i > 0
            invariant
                i <= self.derived@.len(),
                self.derived_pairs().len() == self.derived@.len(),
                forall|j: int|
                    i <= j < self.derived_pairs().len() ==> (#[trigger] self.derived_pairs()[j]).0
                        != cs_id@,
            decreases i,
        {
            i = i - 1;
            let pair = &self.derived[i];
            if pair.0.same_as(cs_id) {
                proof {
                    assert(self.derived_pairs()[i as int].0 == cs_id@);
                    lemma_assoc_map_prefix(self.derived_pairs(), i + 1, cs_id@);
                    assert(self.derived_pairs().take(i + 1).drop_last()
                        =~= self.derived_pairs().take(i as int));
                    assert(self.derived_pairs().take(i + 1).last() == self.derived_pairs()[
                        i as int]);
                }
                return Ok(pair.1.clone());
            }
            proof {
                assert(self.derived_pairs()[i as int].0 != cs_id@);
            }
        }
        proof {
            lemma_assoc_map_prefix(self.derived_pairs(), 0, cs_id@);
            assert(self.derived_pairs().take(0) =~= Seq::<(Seq<u8>, Seq<u8>)>::empty());
        }
        Err(GitDeltaManifestError::DerivationFailed(cs_id.clone(), GitDeltaManifestVersion::V2))
    }
}

} // verus!
