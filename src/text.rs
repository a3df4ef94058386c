//! Byte-level searching and splicing on documents.
use vstd::prelude::*;

verus! {

/// `needle` occurs in `hay` starting at index `i`.
pub open spec fn occurs_at(hay: Seq<u8>, needle: Seq<u8>, i: int) -> bool {
    0 <= i && i + needle.len() <= hay.len() && hay.subrange(i, i + needle.len()) == needle
}

/// The first index at or after `from` where `needle` occurs in `hay`.
pub open spec fn find_from(hay: Seq<u8>, needle: Seq<u8>, from: int) -> Option<int>
    decreases hay.len() + 1 - from,
{
    if from < 0 || from + needle.len() > hay.len() {
        None
    } else if occurs_at(hay, needle, from) {
        Some(from)
    } else {
        find_from(hay, needle, from + 1)
    }
}

/// The first index where `needle` occurs in `hay`, if any.
pub open spec fn first_occurrence(hay: Seq<u8>, needle: Seq<u8>) -> Option<int> {
    find_from(hay, needle, 0)
}

/// What `find_from` returns is an occurrence, and no occurrence lies between
/// `from` and it; `None` means that no occurrence starts at or after `from`.
pub proof fn lemma_find_from(hay: Seq<u8>, needle: Seq<u8>, from: int)
    requires
        0 <= from,
    ensures
        match find_from(hay, needle, from) {
            Some(p) => from <= p && occurs_at(hay, needle, p) && forall|j: int|
                from <= j < p ==> !occurs_at(hay, needle, j),
            None => forall|j: int| from <= j ==> !occurs_at(hay, needle, j),
        },
    decreases hay.len() + 1 - from,
{
    if from + needle.len() > hay.len() {
    } else if occurs_at(hay, needle, from) {
    } else {
        lemma_find_from(hay, needle, from + 1);
    }
}

/// `needle` occurs in `hay` at `i` (executable check).
fn matches_at(hay: &[u8], needle: &[u8], i: usize) -> (r: bool)
    requires
        i + needle@.len() <= hay@.len(),
    ensures
        r == occurs_at(hay@, needle@, i as int),
{
    let n: usize = hay.len();
    let mut k: usize = 0;
    while k < needle.len()
        invariant
            n == hay@.len(),
            k <= needle@.len(),
            i + needle@.len() <= hay@.len(),
            forall|m: int| 0 <= m < k ==> hay@[i + m] == needle@[m],
        decreases needle@.len() - k,
    {
        if hay[i + k] != needle[k] {
            assert(hay@.subrange(i as int, i + needle@.len())[k as int] != needle@[k as int]);
            return false;
        }
        k = k + 1;
    }
    assert(hay@.subrange(i as int, i + needle@.len()) =~= needle@);
    true
}

/// The index of the first occurrence of `needle` in `hay`.
pub fn find(hay: &[u8], needle: &[u8]) -> (r: Option<usize>)
    ensures
        r matches Some(p) ==> first_occurrence(hay@, needle@) == Some(p as int),
        r is None ==> first_occurrence(hay@, needle@) is None,
{
    if needle.len() > hay.len() {
        return None;
    }
    let last: usize = hay.len() - needle.len();
    let mut i: usize = 0;
    while i <= last
        invariant
            last + needle@.len() == hay@.len(),
            i <= last,
            find_from(hay@, needle@, 0) == find_from(hay@, needle@, i as int),
        decreases last + 1 - i,
    {
        if matches_at(hay, needle, i) {
            return Some(i);
        }
        if i == last {
            return None;
        }
        i = i + 1;
    }
    None
}

/// Appends `src[from..to]` to `out`.
pub fn push_range(out: &mut Vec<u8>, src: &[u8], from: usize, to: usize)
    requires
        from <= to <= src@.len(),
    ensures
        final(out)@ == old(out)@ + src@.subrange(from as int, to as int),
{
    let mut i: usize = from;
    while i < to
        invariant
            from <= i <= to <= src@.len(),
            out@ == old(out)@ + src@.subrange(from as int, i as int),
        decreases to - i,
    {
        out.push(src[i]);
        assert(src@.subrange(from as int, i + 1) =~= src@.subrange(from as int, i as int).push(src@[i as int]));
        i = i + 1;
    }
}

/// The two byte strings are equal.
pub fn bytes_eq(a: &[u8], b: &[u8]) -> (r: bool)
    ensures
        r == (a@ == b@),
{
    if a.len() != b.len() {
        return false;
    }
    let mut i: usize = 0;
    while i < a.len()
        invariant
            a@.len() == b@.len(),
            forall|m: int| 0 <= m < i ==> a@[m] == b@[m],
        decreases a@.len() - i,
    {
        if a[i] != b[i] {
            return false;
        }
        i = i + 1;
    }
    assert(a@ =~= b@);
    true
}

/// The byte of `/`.
pub const SLASH: u8 = 47;

/// `p` without its leading slashes.
pub open spec fn strip_slashes(p: Seq<u8>) -> Seq<u8>
    decreases p.len(),
{
    if p.len() > 0 && p[0] == SLASH {
        strip_slashes(p.drop_first())
    } else {
        p
    }
}

/// Removing leading slashes twice removes nothing more.
pub proof fn lemma_strip_slashes_idempotent(p: Seq<u8>)
    ensures
        strip_slashes(strip_slashes(p)) == strip_slashes(p),
        strip_slashes(p).len() > 0 ==> strip_slashes(p)[0] != SLASH,
    decreases p.len(),
{
    if p.len() > 0 && p[0] == SLASH {
        lemma_strip_slashes_idempotent(p.drop_first());
    }
}

/// The number of slashes that `p` starts with.
fn leading_slashes(p: &[u8]) -> (n: usize)
    ensures
        n <= p@.len(),
        strip_slashes(p@) == p@.skip(n as int),
{
    let mut n: usize = 0;
    assert(p@ =~= p@.skip(0));
    while n < p.len() && p[n] == SLASH
        invariant
            n <= p@.len(),
            strip_slashes(p@) == strip_slashes(p@.skip(n as int)),
        decreases p@.len() - n,
    {
        assert(p@.skip(n as int).drop_first() =~= p@.skip(n + 1));
        n = n + 1;
    }
    n
}

/// `p` without its leading slashes, as a new vector.
pub fn strip_leading_slashes(p: &[u8]) -> (r: Vec<u8>)
    ensures
        r@ == strip_slashes(p@),
{
    let n: usize = leading_slashes(p);
    let mut out: Vec<u8> = Vec::new();
    push_range(&mut out, p, n, p.len());
    assert(p@.subrange(n as int, p@.len() as int) =~= p@.skip(n as int));
    out
}

/// `doc` with `piece` inserted at byte index `at`.
pub fn splice(doc: &[u8], at: usize, piece: &[u8]) -> (r: Vec<u8>)
    requires
        at <= doc@.len(),
    ensures
        r@ == doc@.take(at as int) + piece@ + doc@.skip(at as int),
{
    let mut out: Vec<u8> = Vec::new();
    push_range(&mut out, doc, 0, at);
    push_range(&mut out, piece, 0, piece.len());
    push_range(&mut out, doc, at, doc.len());
    assert(piece@.subrange(0, piece@.len() as int) =~= piece@);
    assert(doc@.subrange(0, at as int) =~= doc@.take(at as int));
    assert(doc@.subrange(at as int, doc@.len() as int) =~= doc@.skip(at as int));
    out
}

} // verus!
