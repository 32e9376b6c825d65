//! Version resolution: extracting the installed browser's major version
//! number from the front of its dotted version string. The OS-specific
//! probe that produces the string is outside this crate; this is the part
//! that decides whether the probe's output is usable.
use vstd::prelude::*;
use crate::errors::DriverError;

verus! {

/// Whether `b` is an ASCII decimal digit.
pub open spec fn is_digit(b: u8) -> bool {
    48 <= b <= 57
}

/// The numeric value of a digit byte (zero for a non-digit).
pub open spec fn digit_val(b: u8) -> nat {
    if is_digit(b) {
        (b - 48) as nat
    } else {
        0
    }
}

/// The length of the leading run of digit bytes.
pub open spec fn digit_prefix_len(s: Seq<u8>) -> nat
    decreases s.len(),
{
    if s.len() == 0 || !is_digit(s[0]) {
        0
    } else {
        1 + digit_prefix_len(s.drop_first())
    }
}

/// The numeric value of the first `k` bytes read as decimal digits.
pub open spec fn digits_value(s: Seq<u8>, k: int) -> nat
    decreases k,
{
    if k <= 0 {
        0
    } else {
        digits_value(s, k - 1) * 10 + digit_val(s[k - 1])
    }
}

/// The numeric value of the leading digit run.
pub open spec fn major_version_of(s: Seq<u8>) -> nat {
    digits_value(s, digit_prefix_len(s) as int)
}

proof fn lemma_prefix_len_exact(s: Seq<u8>, k: int)
    requires
        0 <= k <= s.len(),
        forall|q: int| 0 <= q < k ==> is_digit(s[q]),
        k == s.len() || !is_digit(s[k]),
    ensures
        digit_prefix_len(s) == k,
    decreases k,
{
    if k == 0 {
    } else {
        let t = s.drop_first();
        assert(forall|q: int| 0 <= q < k - 1 ==> s[q + 1] == t[q] && is_digit(t[q]));
        if k - 1 < t.len() {
            assert(t[k - 1] == s[k]);
        }
        lemma_prefix_len_exact(t, k - 1);
    }
}

proof fn lemma_digits_value_mono(s: Seq<u8>, k1: int, k2: int)
    requires
        0 <= k1 <= k2,
    ensures
        digits_value(s, k1) <= digits_value(s, k2),
    decreases k2,
{
    if k1 < k2 {
        lemma_digits_value_mono(s, k1, k2 - 1);
    }
}

/// Reads the major version from the front of a dotted version string:
/// the value of its leading digit run. Fails, with
/// `VersionDetectionFailed`, exactly when the string starts with no digit
/// or the leading number is too large for a version.
pub fn parse_major_version(s: &[u8]) -> (r: Result<u32, DriverError>)
    ensures
        (r matches Ok(m) ==> digit_prefix_len(s@) > 0 && m == major_version_of(s@)),
        (r matches Err(e) ==> e == DriverError::VersionDetectionFailed),
        (r is Err <==> digit_prefix_len(s@) == 0 || major_version_of(s@) > u32::MAX),
{
    let n = s.len();
    let mut k: usize = 0;
    while k < n && s[k] >= 48 && s[k] <= 57
        invariant
            k <= n == s@.len(),
            forall|q: int| 0 <= q < k ==> is_digit(s@[q]),
        decreases n - k,
    {
        k += 1;
    }
    proof {
        lemma_prefix_len_exact(s@, k as int);
    }
    if k == 0 {
        return Err(DriverError::VersionDetectionFailed);
    }
    let mut acc: u32 = 0;
    let mut i: usize = 0;
    while i < k
        invariant
            i <= k <= n == s@.len(),
            digit_prefix_len(s@) == k,
            forall|q: int| 0 <= q < k ==> is_digit(s@[q]),
            acc == digits_value(s@, i as int),
        decreases k - i,
    {
        let d = (s[i] - 48) as u64;
        let wide = acc as u64 * 10 + d;
        if wide > 0xffff_ffff {
            proof {
                lemma_digits_value_mono(s@, i + 1, k as int);
            }
            return Err(DriverError::VersionDetectionFailed);
        }
        acc = wide as u32;
        i += 1;
    }
    Ok(acc)
}

} // verus!
