//! Locating the build tree's target directory.
//!
//! The JSON reporter writes its artifact under the build tree's
//! target directory, which the build tool reports inside a JSON
//! metadata dump. The unverified shell captures that dump; the scan
//! for the last `"target_directory":` key and the quoted path after
//! it is verified here.

use vstd::prelude::*;

use crate::sys::spec_find_in;

verus! {

/// The bytes of `"target_directory":`, quotes and colon included.
pub open spec fn target_directory_key() -> Seq<u8> {
    seq![
        34u8, 116u8, 97u8, 114u8, 103u8, 101u8, 116u8, 95u8, 100u8, 105u8, 114u8, 101u8, 99u8,
        116u8, 111u8, 114u8, 121u8, 34u8, 58u8,
    ]
}

/// Whether the key starts at byte `i` of `s`.
pub open spec fn key_matches_at(s: Seq<u8>, i: int) -> bool {
    0 <= i && i + 19 <= s.len() && s.subrange(i, i + 19) == target_directory_key()
}

/// The largest index at most `i` where the key starts, or -1 when the
/// key starts nowhere at or before `i`.
pub open spec fn spec_rfind_key(s: Seq<u8>, i: int) -> int
    decreases i + 1,
{
    if i < 0 {
        -1
    } else if key_matches_at(s, i) {
        i
    } else {
        spec_rfind_key(s, i - 1)
    }
}

/// The target directory quoted in a metadata dump: the text between
/// the quote that follows the last `"target_directory":` key and the
/// next quote. Nothing when the key is absent, when the dump ends
/// before the path opens, or when the path's closing quote is
/// missing.
pub open spec fn spec_target_directory(s: Seq<u8>) -> Option<Seq<u8>> {
    let idx = spec_rfind_key(s, s.len() - 19);
    if idx < 0 {
        None
    } else {
        let start = idx + 20;
        if start > s.len() {
            None
        } else {
            let end = spec_find_in(s, start, s.len() as int, 34);
            if end == s.len() {
                None
            } else {
                Some(s.subrange(start, end))
            }
        }
    }
}

/// Whether the key starts at byte `i`.
fn key_at(s: &Vec<u8>, i: usize) -> (r: bool)
    requires
        i + 19 <= s@.len(),
    ensures
        r == key_matches_at(s@, i as int),
{
    let key: [u8; 19] = [
        34, 116, 97, 114, 103, 101, 116, 95, 100, 105, 114, 101, 99, 116, 111, 114, 121, 34, 58,
    ];
    let n: usize = s.len();
    let mut j: usize = 0;
    while j < 19
        invariant
            0 <= j <= 19,
            i + 19 <= n,
            n == s@.len(),
            key@ == target_directory_key(),
            forall|k: int| 0 <= k < j ==> s@[i + k] == target_directory_key()[k],
        decreases 19 - j,
    {
        if s[i + j] != key[j] {
            assert(s@.subrange(i as int, i + 19)[j as int] != target_directory_key()[j as int]);
            return false;
        }
        j = j + 1;
    }
    assert(s@.subrange(i as int, i + 19) =~= target_directory_key());
    true
}

/// Extracts the target directory from a metadata dump.
pub fn target_directory_from_metadata(s: &Vec<u8>) -> (r: Option<Vec<u8>>)
    ensures
        r is Some <==> spec_target_directory(s@) is Some,
        r is Some ==> r->0@ == spec_target_directory(s@)->0,
{
    let n: usize = s.len();
    if n < 19 {
        assert(s@.len() - 19 < 0);
        return None;
    }
    let mut i: usize = n - 19;
    loop
        invariant
            0 <= i <= n - 19,
            n == s@.len(),
            n >= 19,
            spec_rfind_key(s@, s@.len() - 19) == spec_rfind_key(s@, i as int),
        ensures
            spec_rfind_key(s@, s@.len() - 19) == if key_matches_at(s@, i as int) {
                i as int
            } else {
                -1
            },
        decreases i,
    {
        if key_at(s, i) {
            break;
        }
        if i == 0 {
            proof {
                reveal_with_fuel(spec_rfind_key, 2);
            }
            break;
        }
        i = i - 1;
    }
    if !key_at(s, i) {
        return None;
    }
    if n - i < 20 {
        return None;
    }
    let start: usize = i + 20;
    let end: usize = crate::sys::find_in(s, start, n, 34);
    if end == n {
        return None;
    }
    let mut out: Vec<u8> = Vec::new();
    let mut j: usize = start;
    while j < end
        invariant
            start <= j <= end <= s@.len(),
            out@ =~= s@.subrange(start as int, j as int),
        decreases end - j,
    {
        out.push(s[j]);
        assert(out@ =~= s@.subrange(start as int, j + 1));
        j = j + 1;
    }
    assert(out@ =~= s@.subrange(start as int, end as int));
    Some(out)
}

} // verus!
