use vstd::prelude::*;

use bytes::Bytes;

use crate::buffer::bytes_append_to_vec;
use crate::buffer::bytes_clone;
use crate::buffer::bytes_content;
use crate::buffer::bytes_of_vec;
use crate::delta_manifest_ops::DeltaView;
use crate::delta_manifest_ops::EntryView;
use crate::delta_manifest_ops::FullObjectView;
use crate::delta_manifest_ops::GitDeltaManifestEntryOps;
use crate::delta_manifest_ops::GitDeltaManifestEntryStream;
use crate::delta_manifest_ops::GitDeltaManifestOps;
use crate::delta_manifest_ops::InstructionBytesView;
use crate::delta_manifest_ops::ObjectDeltaOps;
use crate::delta_manifest_ops::entry_list_view;
use crate::delta_manifest_ops::lemma_concat_chunks_snoc;
use crate::delta_manifest_ops::lemma_first_missing_chunk_at;
use crate::path::MPath;
use crate::store::Blobstore;
use crate::types::ChangesetId;
use crate::types::CoreContext;
use crate::types::GitDeltaManifestError;
use crate::types::ObjectId;
use crate::types::ObjectKind;
use crate::types::clone_u8_vec;

verus! {

/// A full or base object as the V2 encoding records it: identity, size,
/// kind, and the payload inlined at manifest-construction time, if any.
#[derive(Debug)]
pub struct GDMV2ObjectEntry {
    pub oid: ObjectId,
    pub size: u64,
    pub kind: ObjectKind,
    pub inlined_bytes: Option<Bytes>,
}

impl GDMV2ObjectEntry {
    pub open spec fn obj_view(&self) -> FullObjectView {
        FullObjectView {
            oid: self.oid@,
            size: self.size,
            kind: self.kind,
            inlined: match self.inlined_bytes {
                Option::Some(b) => Option::Some(bytes_content(b)),
                Option::None => Option::None,
            },
        }
    }

    pub fn new(oid: ObjectId, size: u64, kind: ObjectKind, inlined_bytes: Option<Vec<u8>>) -> (r:
        GDMV2ObjectEntry)
        ensures
            r.obj_view() == (FullObjectView {
                oid: oid@,
                size: size,
                kind: kind,
                inlined: match inlined_bytes {
                    Option::Some(v) => Option::Some(v@),
                    Option::None => Option::None,
                },
            }),
    {
        let inlined = match inlined_bytes {
            Option::Some(v) => Option::Some(bytes_of_vec(v)),
            Option::None => Option::None,
        };
        GDMV2ObjectEntry { oid, size, kind, inlined_bytes: inlined }
    }
}

impl Clone for GDMV2ObjectEntry {
    fn clone(&self) -> (r: Self)
        ensures
            r.obj_view() == self.obj_view(),
    {
        GDMV2ObjectEntry {
            oid: self.oid.clone(),
            size: self.size,
            kind: self.kind,
            inlined_bytes: match &self.inlined_bytes {
                Option::Some(b) => Option::Some(bytes_clone(b)),
                Option::None => Option::None,
            },
        }
    }
}

/// The handle of a delta's instruction payload in the V2 encoding: bytes
/// embedded in the manifest, or the ids of the store chunks holding them.
#[derive(Debug)]
pub enum GDMV2InstructionBytes {
    Inlined(Bytes),
    Chunked(Vec<ObjectId>),
}

impl GDMV2InstructionBytes {
    pub open spec fn instr_view(&self) -> InstructionBytesView {
        match self {
            GDMV2InstructionBytes::Inlined(b) => InstructionBytesView::Inlined(bytes_content(*b)),
            GDMV2InstructionBytes::Chunked(ids) => InstructionBytesView::Chunked(
                ids@.map_values(|o: ObjectId| o@),
            ),
        }
    }
}

impl Clone for GDMV2InstructionBytes {
    fn clone(&self) -> (r: Self)
        ensures
            r.instr_view() == self.instr_view(),
    {
        match self {
            GDMV2InstructionBytes::Inlined(b) => GDMV2InstructionBytes::Inlined(bytes_clone(b)),
            GDMV2InstructionBytes::Chunked(ids) => {
                let mut copy: Vec<ObjectId> = Vec::new();
                let mut i: usize = 0;
                while i < ids.len()
                    invariant
                        i <= ids.len(),
                        copy@.len() == i,
                        forall|j: int| 0 <= j < i ==> (#[trigger] copy@[j])@ == ids@[j]@,
                    decreases ids.len() - i,
                {
                    copy.push(ids[i].clone());
                    i = i + 1;
                }
                let r = GDMV2InstructionBytes::Chunked(copy);
                proof {
                    assert(copy@.map_values(|o: ObjectId| o@) =~= ids@.map_values(
                        |o: ObjectId| o@,
                    ));
                }
                r
            },
        }
    }
}

/// The sizes and handle of a delta's instruction payload.
#[derive(Debug)]
pub struct GDMV2Instructions {
    pub uncompressed_size: u64,
    pub compressed_size: u64,
    pub instruction_bytes: GDMV2InstructionBytes,
}

impl Clone for GDMV2Instructions {
    fn clone(&self) -> (r: Self)
        ensures
            r.uncompressed_size == self.uncompressed_size,
            r.compressed_size == self.compressed_size,
            r.instruction_bytes.instr_view() == self.instruction_bytes.instr_view(),
    {
        GDMV2Instructions {
            uncompressed_size: self.uncompressed_size,
            compressed_size: self.compressed_size,
            instruction_bytes: self.instruction_bytes.clone(),
        }
    }
}

/// One delta of a V2 manifest entry: the base object it transforms, that
/// object's path, and the instruction payload.
#[derive(Debug)]
pub struct GDMV2DeltaEntry {
    pub base_object: GDMV2ObjectEntry,
    pub base_object_path: MPath,
    pub instructions: GDMV2Instructions,
}

impl Clone for GDMV2DeltaEntry {
    fn clone(&self) -> (r: Self)
        ensures
            r.delta_view() == self.delta_view(),
    {
        let r = GDMV2DeltaEntry {
            base_object: self.base_object.clone(),
            base_object_path: self.base_object_path.clone(),
            instructions: self.instructions.clone(),
        };
        proof {
            assert(r.delta_view() =~= self.delta_view());
        }
        r
    }
}

impl ObjectDeltaOps for GDMV2DeltaEntry {
    open spec fn delta_view(&self) -> DeltaView {
        DeltaView {
            base: self.base_object.obj_view(),
            base_path: self.base_object_path@,
            uncompressed_size: self.instructions.uncompressed_size,
            compressed_size: self.instructions.compressed_size,
            instructions: self.instructions.instruction_bytes.instr_view(),
        }
    }

    fn instructions_uncompressed_size(&self) -> u64 {
        self.instructions.uncompressed_size
    }

    fn instructions_compressed_size(&self) -> u64 {
        self.instructions.compressed_size
    }

    fn base_object_oid(&self) -> ObjectId {
        self.base_object.oid.clone()
    }

    fn base_object_path(&self) -> &MPath {
        &self.base_object_path
    }

    fn base_object_kind(&self) -> ObjectKind {
        self.base_object.kind
    }

    fn base_object_size(&self) -> u64 {
        self.base_object.size
    }

    fn instruction_bytes(
        &self,
        ctx: &CoreContext,
        blobstore: &Blobstore,
        _cs_id: ChangesetId,
        _path: MPath,
    ) -> Result<Bytes, GitDeltaManifestError> {
        match &self.instructions.instruction_bytes {
            GDMV2InstructionBytes::Inlined(b) => Ok(bytes_clone(b)),
            GDMV2InstructionBytes::Chunked(ids) => {
                let ghost chunks = ids@.map_values(|o: ObjectId| o@);
                let mut out: Vec<u8> = Vec::new();
                let mut i: usize = 0;
                while i < ids.len()
                    invariant
                        i <= ids.len(),
                        chunks == ids@.map_values(|o: ObjectId| o@),
                        chunks.len() == ids@.len(),
                        self.delta_view().instructions == InstructionBytesView::Chunked(chunks),
                        forall|j: int|
                            0 <= j < i ==> blobstore.blob_map().contains_key(
                                #[trigger] chunks[j],
                            ),
                        out@ == crate::delta_manifest_ops::concat_chunks(
                            chunks.take(i as int),
                            blobstore.blob_map(),
                        ),
                    decreases ids.len() - i,
                {
                    match blobstore.load_blob(ctx, &ids[i]) {
                        Ok(b) => {
                            bytes_append_to_vec(&mut out, &b);
                            proof {
                                lemma_concat_chunks_snoc(chunks, blobstore.blob_map(), i as int);
                            }
                        },
                        Err(e) => {
                            proof {
                                lemma_first_missing_chunk_at(
                                    chunks,
                                    blobstore.blob_map(),
                                    i as int,
                                );
                            }
                            return Err(e);
                        },
                    }
                    i = i + 1;
                }
                proof {
                    assert(chunks.take(ids@.len() as int) =~= chunks);
                }
                Ok(bytes_of_vec(out))
            },
        }
    }
}

/// One entry of a V2 manifest: the full object at a changed path and the
/// deltas that can rebuild it, in construction order.
#[derive(Debug)]
pub struct GDMV2Entry {
    pub full_object: GDMV2ObjectEntry,
    pub deltas: Vec<GDMV2DeltaEntry>,
}

impl Clone for GDMV2Entry {
    fn clone(&self) -> (r: Self)
        ensures
            r.entry_view() == self.entry_view(),
    {
        let mut deltas: Vec<GDMV2DeltaEntry> = Vec::new();
        let mut i: usize = 0;
        while i < self.deltas.len()
            invariant
                i <= self.deltas.len(),
                deltas@.len() == i,
                forall|j: int|
                    0 <= j < i ==> (#[trigger] deltas@[j]).delta_view()
                        == self.deltas@[j].delta_view(),
            decreases self.deltas.len() - i,
        {
            deltas.push(self.deltas[i].clone());
            i = i + 1;
        }
        let r = GDMV2Entry { full_object: self.full_object.clone(), deltas };
        proof {
            assert(r.entry_view().deltas =~= self.entry_view().deltas);
            assert(r.entry_view() =~= self.entry_view());
        }
        r
    }
}

impl GitDeltaManifestEntryOps for GDMV2Entry {
    type Delta = GDMV2DeltaEntry;

    open spec fn entry_view(&self) -> EntryView {
        EntryView {
            full: self.full_object.obj_view(),
            deltas: self.deltas@.map_values(|d: GDMV2DeltaEntry| d.delta_view()),
        }
    }

    fn full_object_size(&self) -> u64 {
        self.full_object.size
    }

    fn full_object_oid(&self) -> ObjectId {
        self.full_object.oid.clone()
    }

    fn full_object_kind(&self) -> ObjectKind {
        self.full_object.kind
    }

    fn full_object_inlined_bytes(&self) -> Option<Bytes> {
        match &self.full_object.inlined_bytes {
            Option::Some(b) => Option::Some(bytes_clone(b)),
            Option::None => Option::None,
        }
    }

    fn deltas<'a>(&'a self) -> (ds: Vec<&'a GDMV2DeltaEntry>) {
        let mut ds: Vec<&GDMV2DeltaEntry> = Vec::new();
        let mut i: usize = 0;
        while i < self.deltas.len()
            invariant
                i <= self.deltas.len(),
                ds@.len() == i,
                forall|j: int|
                    0 <= j < i ==> (#[trigger] ds@[j]).delta_view()
                        == self.entry_view().deltas[j],
            decreases self.deltas.len() - i,
        {
            ds.push(&self.deltas[i]);
            i = i + 1;
        }
        ds
    }
}

/// A whole manifest in the V2 encoding: raw-path/entry pairs in iteration
/// order. The raw path is parsed only when an entry is pulled from the
/// stream, so a malformed encoding surfaces as an error at its position.
#[derive(Debug)]
pub struct GitDeltaManifestV2 {
    pub entries: Vec<(Vec<u8>, GDMV2Entry)>,
}

impl Clone for GitDeltaManifestV2 {
    fn clone(&self) -> (r: Self)
        ensures
            r.manifest_view() == self.manifest_view(),
    {
        let mut entries: Vec<(Vec<u8>, GDMV2Entry)> = Vec::new();
        let mut i: usize = 0;
        while i < self.entries.len()
            invariant
                i <= self.entries.len(),
                entries@.len() == i,
                forall|j: int|
                    0 <= j < i ==> (#[trigger] entries@[j]).0@ == self.entries@[j].0@
                        && entries@[j].1.entry_view() == self.entries@[j].1.entry_view(),
            decreases self.entries.len() - i,
        {
            let pair = &self.entries[i];
            entries.push((clone_u8_vec(&pair.0), pair.1.clone()));
            i = i + 1;
        }
        let r = GitDeltaManifestV2 { entries };
        proof {
            assert(r.manifest_view() =~= self.manifest_view());
        }
        r
    }
}

impl GitDeltaManifestOps for GitDeltaManifestV2 {
    type Entry = GDMV2Entry;

    open spec fn manifest_view(&self) -> Seq<(Seq<u8>, EntryView)> {
        entry_list_view(self.entries@)
    }

    fn into_entries(self, _ctx: &CoreContext, _blobstore: &Blobstore) -> GitDeltaManifestEntryStream<
        GDMV2Entry,
    > {
        GitDeltaManifestEntryStream::from_entries(self.entries)
    }
}

} // verus!
