//! The signature patcher: scans a driver executable's raw bytes for the
//! vendor's embedded automation-detection markers and scrubs the token that
//! follows each one, in place, leaving every other byte and the buffer
//! length unchanged so the binary stays loadable.
use vstd::prelude::*;
use vstd::set_lib::lemma_int_range;
use vstd::set_lib::lemma_set_disjoint_lens;
use vstd::set_lib::lemma_set_union_finite_iff;
use vstd::set_lib::set_int_range;
use crate::rng::random_in_range;

verus! {

/// Whether `b` is an ASCII letter: the 52-symbol alphabet the scrubbed
/// token bytes are drawn from.
pub open spec fn is_ascii_letter(b: u8) -> bool {
    (97 <= b <= 122) || (65 <= b <= 90)
}

/// Whether the four marker bytes (`cdc_` in ASCII) stand at offset `i`.
pub open spec fn marker_at(s: Seq<u8>, i: int) -> bool {
    &&& 0 <= i
    &&& i + 4 <= s.len()
    &&& s[i] == 99u8
    &&& s[i + 1] == 100u8
    &&& s[i + 2] == 99u8
    &&& s[i + 3] == 95u8
}

/// Whether offset `j` lies in the 18-byte token window following a marker.
pub open spec fn in_token_window(s: Seq<u8>, j: int) -> bool {
    exists|i: int| marker_at(s, i) && i + 4 <= j < i + 22
}

/// Whether offset `j` lies in the token window of a marker below `n`.
pub open spec fn covered_below(s: Seq<u8>, j: int, n: int) -> bool
    decreases n,
{
    n > 0 && ((marker_at(s, n - 1) && n - 1 + 4 <= j < n - 1 + 22) || covered_below(s, j, n - 1))
}

proof fn lemma_covered_implies_window(s: Seq<u8>, j: int, n: int)
    requires
        covered_below(s, j, n),
    ensures
        in_token_window(s, j),
    decreases n,
{
    if n > 0 && !(marker_at(s, n - 1) && n - 1 + 4 <= j < n - 1 + 22) {
        lemma_covered_implies_window(s, j, n - 1);
    }
}

proof fn lemma_window_covered(s: Seq<u8>, j: int, m: int, n: int)
    requires
        marker_at(s, m),
        m + 4 <= j < m + 22,
        m < n,
    ensures
        covered_below(s, j, n),
    decreases n,
{
    if m < n - 1 {
        lemma_window_covered(s, j, m, n - 1);
    }
}

proof fn lemma_covered_gives_marker(s: Seq<u8>, j: int, n: int)
    requires
        covered_below(s, j, n),
    ensures
        exists|m: int| m < n && marker_at(s, m) && m + 4 <= j < m + 22,
    decreases n,
{
    if marker_at(s, n - 1) && n - 1 + 4 <= j < n - 1 + 22 {
        assert(n - 1 < n && marker_at(s, n - 1) && n - 1 + 4 <= j < n - 1 + 22);
    } else {
        lemma_covered_gives_marker(s, j, n - 1);
        let m = choose|m: int| m < n - 1 && marker_at(s, m) && m + 4 <= j < m + 22;
        assert(m < n && marker_at(s, m) && m + 4 <= j < m + 22);
    }
}

/// The number of markers at offsets below `n`.
pub open spec fn markers_below(s: Seq<u8>, n: int) -> nat
    decreases n,
{
    if n <= 0 {
        0
    } else {
        markers_below(s, n - 1) + (if marker_at(s, n - 1) {
            1nat
        } else {
            0nat
        })
    }
}

/// The number of markers in the buffer.
pub open spec fn marker_count(s: Seq<u8>) -> nat {
    markers_below(s, s.len() as int)
}

/// How a patched buffer relates to its source: same length, every byte
/// outside a token window unchanged, every byte inside one an ASCII letter.
pub open spec fn patch_shape(s: Seq<u8>, t: Seq<u8>) -> bool {
    &&& t.len() == s.len()
    &&& forall|j: int| 0 <= j < s.len() && !in_token_window(s, j) ==> t[j] == s[j]
    &&& forall|j: int| 0 <= j < s.len() && in_token_window(s, j) ==> is_ascii_letter(t[j])
}

/// Whether every two markers are at least a whole marker-plus-token region
/// apart, so that no marker lies inside another marker's token window.
pub open spec fn non_overlapping_markers(s: Seq<u8>) -> bool {
    forall|m1: int, m2: int|
        marker_at(s, m1) && marker_at(s, m2) && m1 < m2 ==> m1 + 22 <= m2
}

/// A uniformly random byte from the 52-letter alphabet.
fn random_ascii_letter() -> (r: u8)
    ensures
        is_ascii_letter(r),
{
    let idx = random_in_range(0, 52);
    if idx < 26 {
        (97 + idx) as u8
    } else {
        (65 + (idx - 26)) as u8
    }
}

/// Overwrites `out[start..end)` with random ASCII letters.
fn scrub_range(out: &mut Vec<u8>, start: usize, end: usize)
    requires
        start <= end <= old(out).len(),
    ensures
        final(out)@.len() == old(out)@.len(),
        forall|j: int| 0 <= j < old(out)@.len() && !(start <= j < end) ==> final(out)@[j] == old(
            out,
        )@[j],
        forall|j: int| start <= j < end ==> is_ascii_letter(final(out)@[j]),
{
    let mut x = start;
    while x < end
        invariant
            start <= x <= end <= out@.len(),
            out@.len() == old(out)@.len(),
            forall|j: int| 0 <= j < out@.len() && !(start <= j < x) ==> out@[j] == old(out)@[j],
            forall|j: int| start <= j < x ==> is_ascii_letter(out@[j]),
        decreases end - x,
    {
        let letter = random_ascii_letter();
        out.set(x, letter);
        x += 1;
    }
}

/// Scrubs the automation-signature tokens out of a copy of `input`: every
/// byte in a marker's token window is replaced by a random ASCII letter,
/// every other byte and the length are unchanged. Also reports how many
/// markers were found (zero is not an error: the vendor may have removed
/// them already).
#[verifier::rlimit(100)]
pub fn patch_bytes(input: &Vec<u8>) -> (r: (Vec<u8>, usize))
    ensures
        patch_shape(input@, r.0@),
        r.1 == marker_count(input@),
{
    let n = input.len();
    let mut out: Vec<u8> = Vec::new();
    let mut c: usize = 0;
    while c < n
        invariant
            c <= n,
            n == input@.len(),
            out@ == input@.take(c as int),
        decreases n - c,
    {
        out.push(input[c]);
        c += 1;
    }
    assert(out@ =~= input@);

    let mut count: usize = 0;
    let mut i: usize = 0;
    while i < n
        invariant
            i <= n,
            n == input@.len(),
            out@.len() == n,
            count == markers_below(input@, i as int),
            count <= i,
            forall|j: int|
                0 <= j < n && covered_below(input@, j, i as int) ==> is_ascii_letter(out@[j]),
            forall|j: int|
                0 <= j < n && !covered_below(input@, j, i as int) ==> out@[j] == input@[j],
        decreases n - i,
    {
        let is_marker = n - i >= 4 && input[i] == 99 && input[i + 1] == 100 && input[i + 2] == 99
            && input[i + 3] == 95;
        if is_marker {
            assert(marker_at(input@, i as int));
            count += 1;
            let end = if n - i >= 22 {
                i + 22
            } else {
                n
            };
            let ghost prev = out@;
            scrub_range(&mut out, i + 4, end);
            assert forall|j: int| 0 <= j < n && covered_below(input@, j, i + 1)
                implies is_ascii_letter(out@[j]) by {
                if i + 4 <= j < end {
                } else {
                    assert(covered_below(input@, j, i as int));
                    assert(out@[j] == prev[j]);
                }
            }
            assert forall|j: int| 0 <= j < n && !covered_below(input@, j, i + 1)
                implies out@[j] == input@[j] by {
                assert(!covered_below(input@, j, i as int));
                assert(!(i + 4 <= j < i + 22));
                assert(!(i + 4 <= j < end));
                assert(out@[j] == prev[j]);
            }
        } else {
            assert(!marker_at(input@, i as int));
            assert(forall|j: int|
                covered_below(input@, j, i + 1) == covered_below(input@, j, i as int));
        }
        i += 1;
    }
    assert forall|j: int| 0 <= j < n implies (covered_below(input@, j, n as int)
        <==> in_token_window(input@, j)) by {
        if covered_below(input@, j, n as int) {
            lemma_covered_implies_window(input@, j, n as int);
        }
        if in_token_window(input@, j) {
            let m = choose|m: int| marker_at(input@, m) && m + 4 <= j < m + 22;
            lemma_window_covered(input@, j, m, n as int);
        }
    }
    (out, count)
}

/// A buffer with no markers is copied byte-identically by the patch.
pub proof fn lemma_patch_without_markers(s: Seq<u8>, t: Seq<u8>)
    requires
        patch_shape(s, t),
        marker_count(s) == 0,
    ensures
        t == s,
{
    lemma_no_markers_below(s, s.len() as int);
    assert forall|j: int| 0 <= j < s.len() implies t[j] == s[j] by {
        if in_token_window(s, j) {
            let m = choose|m: int| marker_at(s, m) && m + 4 <= j < m + 22;
            assert(0 <= m < s.len());
        }
    }
    assert(t =~= s);
}

proof fn lemma_no_markers_below(s: Seq<u8>, n: int)
    requires
        markers_below(s, n) == 0,
    ensures
        forall|i: int| 0 <= i < n ==> !marker_at(s, i),
    decreases n,
{
    if n > 0 {
        lemma_no_markers_below(s, n - 1);
    }
}

/// When marker regions do not overlap, no patch disturbs the marker bytes
/// themselves, so every marker and every token window of the source is
/// still one of the patched buffer.
pub proof fn lemma_markers_survive_patch(s: Seq<u8>, t: Seq<u8>)
    requires
        patch_shape(s, t),
        non_overlapping_markers(s),
    ensures
        forall|i: int| marker_at(s, i) ==> marker_at(t, i),
        forall|j: int| in_token_window(s, j) ==> in_token_window(t, j),
{
    assert forall|i: int| marker_at(s, i) implies marker_at(t, i) by {
        assert forall|j: int| i <= j < i + 4 implies !in_token_window(s, j) by {
            if in_token_window(s, j) {
                let m = choose|m: int| marker_at(s, m) && m + 4 <= j < m + 22;
                if m < i {
                    assert(m + 22 <= i);
                } else if m > i {
                    assert(i + 22 <= m);
                }
            }
        }
        assert(t[i] == s[i]);
        assert(t[i + 1] == s[i + 1]);
        assert(t[i + 2] == s[i + 2]);
        assert(t[i + 3] == s[i + 3]);
    }
    assert forall|j: int| in_token_window(s, j) implies in_token_window(t, j) by {
        let m = choose|m: int| marker_at(s, m) && m + 4 <= j < m + 22;
        assert(marker_at(t, m));
    }
}

/// Re-running the patch on an already-patched buffer keeps the length and
/// fills every original token window with letters again: only structure is
/// claimed, not value stability.
pub proof fn lemma_repatch_structure(s: Seq<u8>, t: Seq<u8>, u: Seq<u8>)
    requires
        non_overlapping_markers(s),
        patch_shape(s, t),
        patch_shape(t, u),
    ensures
        u.len() == s.len(),
        forall|j: int| 0 <= j < s.len() && in_token_window(s, j) ==> is_ascii_letter(u[j]),
{
    lemma_markers_survive_patch(s, t);
}

/// The set of offsets the patch may touch.
pub open spec fn token_windows(s: Seq<u8>) -> Set<int> {
    Set::new(|j: int| in_token_window(s, j))
}

spec fn windows_below(s: Seq<u8>, n: int) -> Set<int> {
    Set::new(|j: int| covered_below(s, j, n))
}

proof fn lemma_windows_below_len(s: Seq<u8>, n: int)
    requires
        non_overlapping_markers(s),
        0 <= n,
    ensures
        windows_below(s, n).finite(),
        windows_below(s, n).len() == 18 * markers_below(s, n),
    decreases n,
{
    if n <= 0 {
        assert(windows_below(s, n) =~= Set::<int>::empty());
    } else {
        lemma_windows_below_len(s, n - 1);
        if marker_at(s, n - 1) {
            let prev = windows_below(s, n - 1);
            let w = set_int_range(n + 3, n + 21);
            lemma_int_range(n + 3, n + 21);
            assert forall|j: int| prev.contains(j) implies !w.contains(j) by {
                if w.contains(j) {
                    lemma_covered_gives_marker(s, j, n - 1);
                    let m = choose|m: int| m < n - 1 && marker_at(s, m) && m + 4 <= j < m + 22;
                    assert(m + 22 <= n - 1);
                }
            }
            assert(prev.disjoint(w));
            assert(windows_below(s, n) =~= prev + w);
            lemma_set_union_finite_iff(prev, w);
            assert((prev + w).finite());
            lemma_set_disjoint_lens(prev, w);
            assert((prev + w).len() == prev.len() + w.len());
        } else {
            assert(windows_below(s, n) =~= windows_below(s, n - 1));
        }
    }
}

/// For a buffer holding `k` non-overlapping markers, each followed by a
/// whole 18-byte token, the patch touches exactly `k * 18` offsets, all of
/// them inside the buffer; together with the patch shape this pins down
/// that everything else is unchanged.
pub proof fn lemma_patch_replaces_exactly(s: Seq<u8>)
    requires
        non_overlapping_markers(s),
        forall|i: int| marker_at(s, i) ==> i + 22 <= s.len(),
    ensures
        token_windows(s).finite(),
        token_windows(s).len() == 18 * marker_count(s),
        forall|j: int| in_token_window(s, j) ==> 0 <= j < s.len(),
{
    let n = s.len() as int;
    lemma_windows_below_len(s, n);
    assert(token_windows(s) =~= windows_below(s, n)) by {
        assert forall|j: int| in_token_window(s, j) == covered_below(s, j, n) by {
            if in_token_window(s, j) {
                let m = choose|m: int| marker_at(s, m) && m + 4 <= j < m + 22;
                lemma_window_covered(s, j, m, n);
            }
            if covered_below(s, j, n) {
                lemma_covered_implies_window(s, j, n);
            }
        }
    }
    assert forall|j: int| in_token_window(s, j) implies 0 <= j < s.len() by {
        let m = choose|m: int| marker_at(s, m) && m + 4 <= j < m + 22;
        assert(m + 22 <= s.len());
    }
}

} // verus!
