use vstd::prelude::*;

use crate::types::GitDeltaManifestError;
use crate::types::ObjectKind;
use crate::types::clone_u8_vec;

verus! {

/// Number of bytes in a raw SHA-1 digest.
pub const GIT_SHA1_RAW_SIZE: usize = 20;

/// An object digest re-expressed in the external git hash format: exactly
/// twenty raw SHA-1 bytes. Unlike `ObjectId`, which carries whatever bytes it
/// was built from, a `GitSha1` exists only when the length check succeeded.
#[derive(Debug, PartialEq, Eq)]
pub struct GitSha1 {
    digest: Vec<u8>,
}

impl View for GitSha1 {
    type V = Seq<u8>;

    closed spec fn view(&self) -> Seq<u8> {
        self.digest@
    }
}

impl Clone for GitSha1 {
    fn clone(&self) -> (r: Self)
        ensures
            r@ == self@,
    {
        GitSha1 { digest: clone_u8_vec(&self.digest) }
    }
}

impl GitSha1 {
    /// A well-formed external digest has exactly twenty bytes.
    pub open spec fn wf(&self) -> bool {
        self@.len() == GIT_SHA1_RAW_SIZE
    }

    /// Reinterprets raw digest bytes in the external hash format. This is
    /// the one place where a malformed identity is caught: a digest of any
    /// other length is reported, never truncated or padded.
    pub fn from_bytes(bytes: &Vec<u8>) -> (r: Result<GitSha1, GitDeltaManifestError>)
        ensures
            bytes@.len() == GIT_SHA1_RAW_SIZE ==> (r matches Ok(s) && s@ == bytes@ && s.wf()),
            bytes@.len() != GIT_SHA1_RAW_SIZE ==> r == Err::<GitSha1, GitDeltaManifestError>(
                GitDeltaManifestError::InvalidDigestLength(bytes@.len() as usize),
            ),
    {
        if bytes.len() == GIT_SHA1_RAW_SIZE {
            Ok(GitSha1 { digest: clone_u8_vec(bytes) })
        } else {
            Err(GitDeltaManifestError::InvalidDigestLength(bytes.len()))
        }
    }

    pub fn as_bytes(&self) -> (r: &Vec<u8>)
        ensures
            r@ == self@,
    {
        &self.digest
    }
}

/// A rich identity: the external-format digest annotated with the object's
/// kind and size. It is always recomputed from an object descriptor, never
/// stored on its own.
#[derive(Debug, PartialEq, Eq)]
pub struct RichGitSha1 {
    pub sha1: GitSha1,
    pub ty: ObjectKind,
    pub size: u64,
}

impl Clone for RichGitSha1 {
    fn clone(&self) -> (r: Self)
        ensures
            r.sha1@ == self.sha1@,
            r.ty == self.ty,
            r.size == self.size,
    {
        RichGitSha1 { sha1: self.sha1.clone(), ty: self.ty, size: self.size }
    }
}

impl RichGitSha1 {
    pub fn from_sha1(sha1: GitSha1, ty: ObjectKind, size: u64) -> (r: RichGitSha1)
        ensures
            r.sha1@ == sha1@,
            r.ty == ty,
            r.size == size,
    {
        RichGitSha1 { sha1, ty, size }
    }

    /// The type tag of the annotated object, in the spelling the external
    /// format uses.
    pub fn ty_str(&self) -> (r: &'static str)
        ensures
            self.ty == ObjectKind::Blob ==> r@ == "blob"@,
            self.ty == ObjectKind::Tree ==> r@ == "tree"@,
    {
        match self.ty {
            ObjectKind::Blob => "blob",
            ObjectKind::Tree => "tree",
        }
    }
}

} // verus!
