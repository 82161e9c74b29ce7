//! Byte-level search of markers in a page and extraction of the text between them.

use vstd::prelude::*;

verus! {

/// `needle` occurs in `hay` at position `i`.
pub open spec fn occurs_at(hay: Seq<u8>, needle: Seq<u8>, i: int) -> bool {
    &&& 0 <= i
    &&& i + needle.len() <= hay.len()
    &&& hay.subrange(i, i + needle.len()) == needle
}

/// The first position, at `from` or later, where `needle` occurs in `hay`.
pub open spec fn first_match(hay: Seq<u8>, needle: Seq<u8>, from: int) -> Option<int>
    decreases hay.len() - from,
{
    if from < 0 || from + needle.len() > hay.len() {
        None
    } else if hay.subrange(from, from + needle.len()) == needle {
        Some(from)
    } else {
        proof {
            if needle.len() == 0 {
                assert(hay.subrange(from, from) =~= needle);
            }
        }
        first_match(hay, needle, from + 1)
    }
}

/// The first match is an occurrence, nothing between `from` and it is one, and
/// without a match there is no occurrence at `from` or later.
pub proof fn lemma_first_match(hay: Seq<u8>, needle: Seq<u8>, from: int)
    requires
        0 <= from,
    ensures
        first_match(hay, needle, from) matches Some(k) ==> {
            &&& from <= k
            &&& occurs_at(hay, needle, k)
            &&& forall|j: int| from <= j < k ==> !occurs_at(hay, needle, j)
        },
        first_match(hay, needle, from) is None ==> forall|j: int|
            from <= j ==> !occurs_at(hay, needle, j),
    decreases hay.len() - from,
{
    if from + needle.len() > hay.len() {
    } else if hay.subrange(from, from + needle.len()) == needle {
    } else {
        if needle.len() == 0 {
            assert(hay.subrange(from, from) =~= needle);
        }
        lemma_first_match(hay, needle, from + 1);
    }
}

/// An occurrence with none before it, from `from` on, is the first match.
pub proof fn lemma_first_match_at(hay: Seq<u8>, needle: Seq<u8>, from: int, k: int)
    requires
        0 <= from <= k,
        occurs_at(hay, needle, k),
        forall|j: int| from <= j < k ==> !occurs_at(hay, needle, j),
    ensures
        first_match(hay, needle, from) == Some(k),
    decreases k - from,
{
    if from < k {
        assert(!occurs_at(hay, needle, from));
        if needle.len() == 0 {
            assert(hay.subrange(from, from) =~= needle);
        }
        lemma_first_match_at(hay, needle, from + 1, k);
    }
}

/// Whether `needle` occurs in `hay` at position `i`.
fn matches_at(hay: &[u8], needle: &[u8], i: usize) -> (r: bool)
    requires
        i + needle@.len() <= hay@.len(),
    ensures
        r == (hay@.subrange(i as int, i + needle@.len()) == needle@),
{
    let n = needle.len();
    let hl = hay.len();
    let mut j: usize = 0;
    while j < n
        invariant
            n == needle@.len(),
            hl == hay@.len(),
            i + n <= hay@.len(),
            j <= n,
            forall|k: int| 0 <= k < j ==> hay@[i + k] == needle@[k],
        decreases n - j,
    {
        if hay[i + j] != needle[j] {
            assert(hay@.subrange(i as int, i + n)[j as int] != needle@[j as int]);
            return false;
        }
        j = j + 1;
    }
    assert(hay@.subrange(i as int, i + n) =~= needle@);
    true
}

/// The first position, at `from` or later, where `needle` occurs in `hay`.
pub fn find_bytes(hay: &[u8], needle: &[u8], from: usize) -> (r: Option<usize>)
    ensures
        match r {
            Some(k) => first_match(hay@, needle@, from as int) == Some(k as int),
            None => first_match(hay@, needle@, from as int) is None,
        },
{
    let len = hay.len();
    let n = needle.len();
    if n > len {
        return None;
    }
    let mut i = from;
    while i <= len - n
        invariant
            len == hay@.len(),
            n == needle@.len(),
            n <= len,
            from <= i,
            first_match(hay@, needle@, from as int) == first_match(hay@, needle@, i as int),
        decreases len - i,
    {
        if matches_at(hay, needle, i) {
            return Some(i);
        }
        proof {
            if n == 0 {
                assert(hay@.subrange(i as int, i as int) =~= needle@);
            }
        }
        i = i + 1;
    }
    None
}

/// Where the text between the first `start` marker and the next `end` marker
/// lies: the first position after the start marker and the position of the
/// end marker.
pub open spec fn script_range(page: Seq<u8>, start: Seq<u8>, end: Seq<u8>) -> Option<(int, int)> {
    match first_match(page, start, 0) {
        Some(s) => match first_match(page, end, s + start.len()) {
            Some(e) => Some((s + start.len(), e)),
            None => None,
        },
        None => None,
    }
}

/// Locates the text between the first `start` marker of `page` and the first
/// `end` marker after it.
pub fn find_script(page: &[u8], start: &[u8], end: &[u8]) -> (r: Option<(usize, usize)>)
    ensures
        match r {
            Some((a, b)) => script_range(page@, start@, end@) == Some((a as int, b as int)),
            None => script_range(page@, start@, end@) is None,
        },
{
    let page_len = page.len();
    match find_bytes(page, start, 0) {
        Some(s) => {
            proof {
                lemma_first_match(page@, start@, 0);
            }
            let after = s + start.len();
            match find_bytes(page, end, after) {
                Some(e) => Some((after, e)),
                None => None,
            }
        },
        None => None,
    }
}

/// The page is the start marker, the script and the end marker at the place
/// found, and the script itself holds no complete end marker.
pub proof fn lemma_script_framing(page: Seq<u8>, start: Seq<u8>, end: Seq<u8>)
    requires
        script_range(page, start, end) is Some,
    ensures
        ({
            let (a, b) = script_range(page, start, end).unwrap();
            let script = page.subrange(a, b);
            &&& start.len() <= a <= b
            &&& b + end.len() <= page.len()
            &&& page.subrange(a - start.len(), b + end.len()) == start + script + end
            &&& end.len() > 0 ==> forall|j: int| !occurs_at(script, end, j)
            &&& forall|j: int| 0 <= j < a - start.len() ==> !occurs_at(page, start, j)
        }),
{
    lemma_first_match(page, start, 0);
    let s = first_match(page, start, 0).unwrap();
    lemma_first_match(page, end, s + start.len());
    let (a, b) = script_range(page, start, end).unwrap();
    let script = page.subrange(a, b);
    assert(page.subrange(a - start.len(), b + end.len()) =~= start + script + end);
    if end.len() > 0 {
        assert forall|j: int| !occurs_at(script, end, j) by {
            if occurs_at(script, end, j) {
                assert(page.subrange(a + j, a + j + end.len()) =~= script.subrange(j, j + end.len()));
                assert(occurs_at(page, end, a + j));
            }
        }
    }
}

/// A window of `page` holds no occurrence of `needle` where `page` has none.
proof fn lemma_window_has_no_match(
    page: Seq<u8>,
    needle: Seq<u8>,
    off: int,
    lo: int,
    hi: int,
    stop: int,
)
    requires
        0 <= off <= lo <= hi,
        hi <= stop <= page.len(),
        forall|j: int| lo <= j < hi ==> !occurs_at(page, needle, j),
    ensures
        forall|j: int|
            lo - off <= j < hi - off ==> !occurs_at(page.subrange(off, stop), needle, j),
{
    let w = page.subrange(off, stop);
    assert forall|j: int| lo - off <= j < hi - off implies !occurs_at(w, needle, j) by {
        if occurs_at(w, needle, j) {
            assert(page.subrange(off + j, off + j + needle.len()) =~= w.subrange(
                j,
                j + needle.len(),
            ));
            assert(occurs_at(page, needle, off + j));
        }
    }
}

/// Only the text between the markers matters: the start marker, that text
/// and the end marker, alone, hold the same text at the same place after the
/// start marker.
pub proof fn lemma_only_script_matters(page: Seq<u8>, start: Seq<u8>, end: Seq<u8>)
    requires
        script_range(page, start, end) is Some,
    ensures
        ({
            let (a, b) = script_range(page, start, end).unwrap();
            let script = page.subrange(a, b);
            let framed = start + script + end;
            &&& script_range(framed, start, end) == Some(
                (start.len() as int, (start.len() + script.len()) as int),
            )
            &&& framed.subrange(start.len() as int, (start.len() + script.len()) as int) == script
        }),
{
    let s0 = first_match(page, start, 0).unwrap();
    lemma_script_framing(page, start, end);
    lemma_first_match(page, end, s0 + start.len());
    let (a, b) = script_range(page, start, end).unwrap();
    let script = page.subrange(a, b);
    let framed = start + script + end;
    let off = a - start.len();
    let stop = b + end.len();
    assert(framed =~= page.subrange(off, stop));
    assert(framed.subrange(0, start.len() as int) =~= start);
    lemma_first_match_at(framed, start, 0, 0);
    let k: int = (start.len() + script.len()) as int;
    assert(framed.subrange(k, k + end.len() as int) =~= end);
    lemma_window_has_no_match(page, end, off, a, b, stop);
    lemma_first_match_at(framed, end, start.len() as int, k);
    assert(framed.subrange(start.len() as int, k) =~= script);
}

/// The script lies between the first start marker and the first end marker
/// after it, whatever their places and the script's length.
pub proof fn lemma_script_range_found(page: Seq<u8>, start: Seq<u8>, end: Seq<u8>, s: int, e: int)
    requires
        occurs_at(page, start, s),
        forall|j: int| 0 <= j < s ==> !occurs_at(page, start, j),
        s + start.len() <= e,
        occurs_at(page, end, e),
        forall|j: int| s + start.len() <= j < e ==> !occurs_at(page, end, j),
    ensures
        script_range(page, start, end) == Some((s + start.len(), e)),
{
    lemma_first_match_at(page, start, 0, s);
    lemma_first_match_at(page, end, s + start.len(), e);
}

/// There is no script only when the page has no start marker, or no end
/// marker after the first start marker.
pub proof fn lemma_script_range_missing(page: Seq<u8>, start: Seq<u8>, end: Seq<u8>, s: int)
    requires
        script_range(page, start, end) is None,
        occurs_at(page, start, s),
        forall|j: int| 0 <= j < s ==> !occurs_at(page, start, j),
    ensures
        forall|j: int| s + start.len() <= j ==> !occurs_at(page, end, j),
{
    lemma_first_match_at(page, start, 0, s);
    lemma_first_match(page, end, s + start.len());
}

} // verus!
