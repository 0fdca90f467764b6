use vstd::prelude::*;

use crate::types::GitDeltaManifestError;
use crate::types::clone_u8_vec;

verus! {

/// The byte that separates path elements in the raw encoding.
pub const PATH_SEPARATOR: u8 = 47;

/// The deep view of a sequence of byte vectors.
pub open spec fn vecs_view(s: Seq<Vec<u8>>) -> Seq<Seq<u8>> {
    s.map_values(|e: Vec<u8>| e@)
}

/// A path element is non-empty and contains neither the separator nor a NUL
/// byte.
pub open spec fn valid_path_element(e: Seq<u8>) -> bool {
    &&& e.len() > 0
    &&& forall|i: int| 0 <= i < e.len() ==> e[i] != PATH_SEPARATOR && e[i] != 0u8
}

/// Every element of the path is valid.
pub open spec fn wf_path_elements(p: Seq<Seq<u8>>) -> bool {
    forall|i: int| 0 <= i < p.len() ==> valid_path_element(#[trigger] p[i])
}

/// The raw byte form of a structured path: its elements joined by the
/// separator.
pub open spec fn flatten_path(p: Seq<Seq<u8>>) -> Seq<u8>
    decreases p.len(),
{
    if p.len() == 0 {
        Seq::empty()
    } else if p.len() == 1 {
        p[0]
    } else {
        p[0] + seq![PATH_SEPARATOR] + flatten_path(p.drop_first())
    }
}

/// Raw bytes are a well-formed path encoding when they hold no NUL byte, do
/// not begin or end with the separator, and never repeat the separator. The
/// empty byte string is well-formed: it encodes the root path.
pub open spec fn wellformed_path_bytes(raw: Seq<u8>) -> bool {
    &&& forall|i: int| 0 <= i < raw.len() ==> raw[i] != 0u8
    &&& (raw.len() > 0 ==> raw[0] != PATH_SEPARATOR && raw[raw.len() - 1] != PATH_SEPARATOR)
    &&& forall|i: int|
        1 <= i < raw.len() ==> !((#[trigger] raw[i]) == PATH_SEPARATOR && raw[i - 1]
            == PATH_SEPARATOR)
}

/// Appending an element to a path extends its raw form by a separator and
/// the element, or is the element itself when the path was empty.
pub proof fn lemma_flatten_push(p: Seq<Seq<u8>>, e: Seq<u8>)
    ensures
        p.len() == 0 ==> flatten_path(p.push(e)) == e,
        p.len() > 0 ==> flatten_path(p.push(e)) == flatten_path(p) + seq![PATH_SEPARATOR] + e,
    decreases p.len(),
{
    if p.len() == 0 {
        assert(p.push(e).len() == 1);
        assert(p.push(e)[0] == e);
    } else if p.len() == 1 {
        assert(p.push(e).drop_first() =~= seq![e]);
        assert(flatten_path(seq![e]) == e);
        assert(p.push(e)[0] == p[0]);
        assert(flatten_path(p.push(e)) == p[0] + seq![PATH_SEPARATOR] + e);
        assert(flatten_path(p) == p[0]);
    } else {
        lemma_flatten_push(p.drop_first(), e);
        assert(p.push(e).drop_first() =~= p.drop_first().push(e));
        assert(flatten_path(p.push(e)) == p[0] + seq![PATH_SEPARATOR] + (flatten_path(
            p.drop_first(),
        ) + seq![PATH_SEPARATOR] + e));
        assert(p[0] + seq![PATH_SEPARATOR] + (flatten_path(p.drop_first()) + seq![PATH_SEPARATOR]
            + e) =~= (p[0] + seq![PATH_SEPARATOR] + flatten_path(p.drop_first()))
            + seq![PATH_SEPARATOR] + e);
    }
}

/// A path of the repository: a possibly empty sequence of path elements.
/// The empty path names the root. Values built by this module always satisfy
/// `wf_path_elements`.
#[derive(Debug, PartialEq, Eq)]
pub struct MPath {
    elements: Vec<Vec<u8>>,
}

impl View for MPath {
    type V = Seq<Seq<u8>>;

    closed spec fn view(&self) -> Seq<Seq<u8>> {
        vecs_view(self.elements@)
    }
}

impl Clone for MPath {
    fn clone(&self) -> (r: Self)
        ensures
            r@ == self@,
    {
        let mut elements: Vec<Vec<u8>> = Vec::new();
        let mut i: usize = 0;
        while i < self.elements.len()
            invariant
                i <= self.elements.len(),
                elements@.len() == i,
                forall|j: int| 0 <= j < i ==> (#[trigger] elements@[j])@ == self.elements@[j]@,
            decreases self.elements.len() - i,
        {
            elements.push(clone_u8_vec(&self.elements[i]));
            i = i + 1;
        }
        let r = MPath { elements };
        proof {
            assert(r@ =~= self@);
        }
        r
    }
}

impl MPath {
    /// The root path, which has no elements.
    pub fn root() -> (r: MPath)
        ensures
            r@ == Seq::<Seq<u8>>::empty(),
    {
        let r = MPath { elements: Vec::new() };
        proof {
            assert(r@ =~= Seq::<Seq<u8>>::empty());
        }
        r
    }

    pub fn is_root(&self) -> (r: bool)
        ensures
            r == (self@.len() == 0),
    {
        self.elements.len() == 0
    }

    pub fn num_elements(&self) -> (r: usize)
        ensures
            r == self@.len(),
    {
        self.elements.len()
    }

    pub fn elements(&self) -> (r: &Vec<Vec<u8>>)
        ensures
            vecs_view(r@) == self@,
    {
        &self.elements
    }
}

/// Parses the raw byte form of a path into its structured form. Succeeds
/// exactly on well-formed encodings, and the structured result flattens back
/// to the input: nothing is dropped or invented. Malformed bytes are
/// reported with the offending encoding attached.
pub fn parse_mpath(raw: &Vec<u8>) -> (r: Result<MPath, GitDeltaManifestError>)
    ensures
        wellformed_path_bytes(raw@) ==> (r matches Ok(p) && wf_path_elements(p@) && flatten_path(
            p@,
        ) == raw@),
        !wellformed_path_bytes(raw@) ==> (r matches Err(e) && e matches
            GitDeltaManifestError::MalformedPath(b) && b@ == raw@),
{
    let ghost rv = raw@;
    let n = raw.len();
    let mut elements: Vec<Vec<u8>> = Vec::new();
    let mut cur: Vec<u8> = Vec::new();
    let mut i: usize = 0;
    while i < n
        invariant
            n == rv.len(),
            raw@ == rv,
            i <= n,
            cur@.len() <= i,
            cur@ == rv.subrange(i - cur@.len(), i as int),
            forall|k: int| 0 <= k < cur@.len() ==> cur@[k] != PATH_SEPARATOR && cur@[k] != 0u8,
            wf_path_elements(vecs_view(elements@)),
            elements@.len() == 0 ==> i - cur@.len() == 0,
            elements@.len() > 0 ==> i - cur@.len() >= 1 && rv[i - cur@.len() - 1]
                == PATH_SEPARATOR && flatten_path(vecs_view(elements@)) == rv.subrange(
                0,
                i - cur@.len() - 1,
            ),
            forall|k: int| 0 <= k < i ==> rv[k] != 0u8,
            i > 0 ==> rv[0] != PATH_SEPARATOR,
            forall|k: int|
                1 <= k < i ==> !((#[trigger] rv[k]) == PATH_SEPARATOR && rv[k - 1]
                    == PATH_SEPARATOR),
        decreases n - i,
    {
        let c = raw[i];
        if c == 0u8 {
            assert(!wellformed_path_bytes(rv));
            return Err(GitDeltaManifestError::MalformedPath(clone_u8_vec(raw)));
        }
        if c == PATH_SEPARATOR {
            if cur.len() == 0 {
                proof {
                    if elements@.len() == 0 {
                        assert(rv[0] == PATH_SEPARATOR);
                    } else {
                        assert(rv[i - 1] == PATH_SEPARATOR);
                        assert(rv[i as int] == PATH_SEPARATOR);
                    }
                    assert(!wellformed_path_bytes(rv));
                }
                return Err(GitDeltaManifestError::MalformedPath(clone_u8_vec(raw)));
            }
            let ghost old_elements = vecs_view(elements@);
            let ghost start = i - cur@.len();
            proof {
                assert(cur@[cur@.len() - 1] == rv[i - 1]);
                assert(rv[i - 1] != PATH_SEPARATOR);
            }
            elements.push(cur);
            cur = Vec::new();
            proof {
                assert(vecs_view(elements@) =~= old_elements.push(rv.subrange(start, i as int)));
                lemma_flatten_push(old_elements, rv.subrange(start, i as int));
                if old_elements.len() == 0 {
                    assert(flatten_path(vecs_view(elements@)) == rv.subrange(0, i as int));
                } else {
                    assert(rv.subrange(0, start - 1) + rv.subrange(start - 1, start) + rv.subrange(
                        start,
                        i as int,
                    ) =~= rv.subrange(0, i as int));
                    assert(rv.subrange(start - 1, start) =~= seq![PATH_SEPARATOR]);
                    assert(flatten_path(vecs_view(elements@)) == rv.subrange(0, start - 1)
                        + seq![PATH_SEPARATOR] + rv.subrange(start, i as int));
                    assert(flatten_path(vecs_view(elements@)) == rv.subrange(0, start - 1)
                        + rv.subrange(start - 1, start) + rv.subrange(start, i as int));
                }
                assert(cur@ =~= rv.subrange(i + 1 - 0, i + 1));
            }
        } else {
            cur.push(c);
            proof {
                assert(cur@ =~= rv.subrange(i + 1 - cur@.len(), i + 1));
            }
        }
        i = i + 1;
    }
    if n > 0 && cur.len() == 0 {
        proof {
            assert(rv[n - 1] == PATH_SEPARATOR);
            assert(!wellformed_path_bytes(rv));
        }
        return Err(GitDeltaManifestError::MalformedPath(clone_u8_vec(raw)));
    }
    proof {
        assert(wellformed_path_bytes(rv)) by {
            if n > 0 {
                assert(rv[n - 1] == cur@[cur@.len() - 1]);
            }
        }
    }
    if n == 0 {
        let r = MPath { elements: Vec::new() };
        proof {
            assert(r@ =~= Seq::<Seq<u8>>::empty());
            assert(flatten_path(r@) =~= rv);
        }
        return Ok(r);
    }
    let ghost old_elements = vecs_view(elements@);
    let ghost start = n - cur@.len();
    elements.push(cur);
    proof {
        assert(vecs_view(elements@) =~= old_elements.push(rv.subrange(start, n as int)));
        lemma_flatten_push(old_elements, rv.subrange(start, n as int));
        if old_elements.len() == 0 {
            assert(rv.subrange(0, n as int) =~= rv);
            assert(flatten_path(vecs_view(elements@)) == rv);
        } else {
            assert(rv.subrange(0, start - 1) + rv.subrange(start - 1, start) + rv.subrange(
                start,
                n as int,
            ) =~= rv);
            assert(rv.subrange(start - 1, start) =~= seq![PATH_SEPARATOR]);
            assert(flatten_path(vecs_view(elements@)) == rv.subrange(0, start - 1)
                + seq![PATH_SEPARATOR] + rv.subrange(start, n as int));
            assert(flatten_path(vecs_view(elements@)) == rv.subrange(0, start - 1) + rv.subrange(
                start - 1,
                start,
            ) + rv.subrange(start, n as int));
        }
    }
    Ok(MPath { elements })
}

} // verus!
