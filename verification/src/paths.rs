//! Paths as sequences of name segments, relative to the working-tree root.
//!
//! The scan works on each file's path relative to the root; the archive
//! directory is itself such a path. A destination mirrors the source's
//! relative path under the archive root, so archiving never loses where a
//! file came from.

use vstd::prelude::*;

verus! {

/// The segments `p` are a prefix of the segments `q`: the file at `q` lies
/// under the directory at `p`.
pub open spec fn is_seg_prefix(p: Seq<Seq<char>>, q: Seq<Seq<char>>) -> bool {
    p.len() <= q.len() && forall|i: int| 0 <= i < p.len() ==> q[i] == p[i]
}

/// Whether the path `q` lies under the directory `p` (or equals it).
pub fn segs_start_with(q: &Vec<String>, p: &Vec<String>) -> (r: bool)
    ensures
        r == is_seg_prefix(p.deep_view(), q.deep_view()),
{
    if p.len() > q.len() {
        return false;
    }
    let mut i: usize = 0;
    while i < p.len()
        invariant
            i <= p@.len() <= q@.len(),
            forall|k: int| 0 <= k < i ==> q.deep_view()[k] == p.deep_view()[k],
        decreases p@.len() - i,
    {
        if !q[i].eq(&p[i]) {
            assert(q.deep_view()[i as int] != p.deep_view()[i as int]);
            return false;
        }
        i = i + 1;
    }
    true
}

/// The path `base` extended by the segments of `rel`.
pub fn join_segs(base: &Vec<String>, rel: &Vec<String>) -> (r: Vec<String>)
    ensures
        r.deep_view() == base.deep_view() + rel.deep_view(),
{
    let mut out: Vec<String> = Vec::new();
    let mut i: usize = 0;
    while i < base.len()
        invariant
            i <= base@.len(),
            out@.len() == i,
            forall|k: int| 0 <= k < i ==> out@[k]@ == base@[k]@,
        decreases base@.len() - i,
    {
        out.push(base[i].clone());
        i = i + 1;
    }
    let mut j: usize = 0;
    while j < rel.len()
        invariant
            j <= rel@.len(),
            out@.len() == base@.len() + j,
            forall|k: int| 0 <= k < base@.len() ==> out@[k]@ == base@[k]@,
            forall|k: int| 0 <= k < j ==> out@[base@.len() + k]@ == rel@[k]@,
        decreases rel@.len() - j,
    {
        out.push(rel[j].clone());
        j = j + 1;
    }
    assert(out.deep_view() =~= base.deep_view() + rel.deep_view());
    out
}

/// A path rendered as text: its segments joined by `/`.
pub open spec fn spec_render(p: Seq<Seq<char>>) -> Seq<char>
    decreases p.len(),
{
    if p.len() == 0 {
        Seq::empty()
    } else if p.len() == 1 {
        p[0]
    } else {
        spec_render(p.drop_last()) + "/"@ + p.last()
    }
}

/// Render a path as text, joining its segments with `/`.
pub fn render_path(p: &Vec<String>) -> (r: String)
    ensures
        r@ == spec_render(p.deep_view()),
{
    let ghost dv = p.deep_view();
    let mut out = String::new();
    let mut i: usize = 0;
    while i < p.len()
        invariant
            i <= p@.len(),
            dv == p.deep_view(),
            out@ == spec_render(dv.take(i as int)),
        decreases p@.len() - i,
    {
        if i > 0 {
            out.append("/");
        }
        out.append(p[i].as_str());
        proof {
            let t = dv.take(i + 1 as int);
            assert(t.drop_last() =~= dv.take(i as int));
            assert(t.last() == dv[i as int]);
            if i == 0 {
                assert(Seq::<char>::empty() + dv[0] =~= dv[0]);
            }
        }
        i = i + 1;
    }
    assert(dv.take(p@.len() as int) =~= dv);
    out
}

/// A destination under the archive root reconstructs the source's relative
/// path: the archive segments are a prefix of the destination, and stripping
/// them yields the original path again.
pub proof fn lemma_dest_reconstructs(archive: Seq<Seq<char>>, rel: Seq<Seq<char>>)
    ensures
        is_seg_prefix(archive, archive + rel),
        (archive + rel).skip(archive.len() as int) == rel,
{
    assert((archive + rel).skip(archive.len() as int) =~= rel);
}

} // verus!
