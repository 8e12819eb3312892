//! CPU identification from the platform's processor listing.
//!
//! On Linux the processor's marketing name sits in `/proc/cpuinfo`,
//! one `model name\t...: value` line per core. The unverified shell
//! reads that file and hands its bytes in; the scan for the first
//! `model name` line, the cut at its colon and the whitespace trim are
//! all verified here, byte for byte.

use vstd::prelude::*;

verus! {

/// ASCII whitespace: space, tab, line feed, vertical tab, form feed,
/// carriage return.
pub open spec fn is_ascii_space(b: u8) -> bool {
    b == 32 || b == 9 || b == 10 || b == 11 || b == 12 || b == 13
}

/// The bytes of `model name` followed by a tab: the prefix that marks
/// the processor-name line.
pub open spec fn model_name_prefix() -> Seq<u8> {
    seq![109u8, 111u8, 100u8, 101u8, 108u8, 32u8, 110u8, 97u8, 109u8, 101u8, 9u8]
}

/// The first index in `[pos, end)` holding byte `b`, or `end` when
/// none does.
pub open spec fn spec_find_in(s: Seq<u8>, pos: int, end: int, b: u8) -> int
    decreases end - pos,
{
    if pos >= end {
        end
    } else if s[pos] == b {
        pos
    } else {
        spec_find_in(s, pos + 1, end, b)
    }
}

/// The first index in `[pos, end)` holding a non-whitespace byte, or
/// `end` when all of them are whitespace.
pub open spec fn spec_skip_spaces(s: Seq<u8>, pos: int, end: int) -> int
    decreases end - pos,
{
    if pos >= end {
        end
    } else if is_ascii_space(s[pos]) {
        spec_skip_spaces(s, pos + 1, end)
    } else {
        pos
    }
}

/// The end of `[start, end)` with trailing whitespace dropped: the
/// smallest `e` such that `s[start..e]` ends in a non-whitespace byte,
/// or `start` when the whole range is whitespace.
pub open spec fn spec_rtrim(s: Seq<u8>, start: int, end: int) -> int
    decreases end - start,
{
    if end <= start {
        start
    } else if is_ascii_space(s[end - 1]) {
        spec_rtrim(s, start, end - 1)
    } else {
        end
    }
}

/// The processor name parsed from the listing's lines at or after
/// byte `pos`. Lines are separated by line feeds, a trailing carriage
/// return belongs to the separator, and the first line that starts
/// with `model name` and a tab decides the result: the text after the
/// first colon of its remainder, trimmed of surrounding whitespace, or
/// nothing when that line has no colon. A listing without such a line
/// has no processor name.
pub open spec fn spec_cpu_model_from(s: Seq<u8>, pos: int) -> Option<Seq<u8>>
    decreases s.len() - pos,
    via spec_cpu_model_from_decreases
{
    if pos < 0 || pos >= s.len() {
        None
    } else {
        let nl = spec_find_in(s, pos, s.len() as int, 10);
        let le = if nl > pos && s[nl - 1] == 13 {
            nl - 1
        } else {
            nl
        };
        if le - pos >= 11 && s.subrange(pos, pos + 11) == model_name_prefix() {
            let colon = spec_find_in(s, pos + 11, le, 58);
            if colon == le {
                None
            } else {
                let start = spec_skip_spaces(s, colon + 1, le);
                Some(s.subrange(start, spec_rtrim(s, start, le)))
            }
        } else if nl >= s.len() {
            None
        } else {
            spec_cpu_model_from(s, nl + 1)
        }
    }
}

pub proof fn lemma_find_in_bounds(s: Seq<u8>, pos: int, end: int, b: u8)
    requires
        pos <= end,
    ensures
        pos <= spec_find_in(s, pos, end, b) <= end,
    decreases end - pos,
{
    if pos < end && s[pos] != b {
        lemma_find_in_bounds(s, pos + 1, end, b);
    }
}

#[via_fn]
proof fn spec_cpu_model_from_decreases(s: Seq<u8>, pos: int) {
    if 0 <= pos < s.len() {
        lemma_find_in_bounds(s, pos, s.len() as int, 10);
    }
}

/// The processor name parsed from a whole listing.
pub open spec fn spec_cpu_model(s: Seq<u8>) -> Option<Seq<u8>> {
    spec_cpu_model_from(s, 0)
}

/// The first index in `[pos, end)` holding byte `b`, or `end`.
pub fn find_in(content: &Vec<u8>, pos: usize, end: usize, b: u8) -> (k: usize)
    requires
        pos <= end <= content@.len(),
    ensures
        pos <= k <= end,
        k == spec_find_in(content@, pos as int, end as int, b),
        k < end ==> content@[k as int] == b,
        k == end ==> spec_find_in(content@, pos as int, end as int, b) == end,
{
    let mut j: usize = pos;
    while j < end && content[j] != b
        invariant
            pos <= j <= end <= content@.len(),
            spec_find_in(content@, pos as int, end as int, b) == spec_find_in(
                content@,
                j as int,
                end as int,
                b,
            ),
        decreases end - j,
    {
        j = j + 1;
    }
    j
}

/// Whether the line starting at `pos` opens with `model name` and a
/// tab.
fn has_model_prefix(content: &Vec<u8>, pos: usize, line_end: usize) -> (r: bool)
    requires
        pos <= line_end <= content@.len(),
    ensures
        r == (line_end - pos >= 11 && content@.subrange(pos as int, pos + 11)
            == model_name_prefix()),
{
    if line_end - pos < 11 {
        return false;
    }
    let p: [u8; 11] = [109, 111, 100, 101, 108, 32, 110, 97, 109, 101, 9];
    let mut i: usize = 0;
    while i < 11
        invariant
            0 <= i <= 11,
            pos + 11 <= line_end <= content@.len(),
            p@ == model_name_prefix(),
            forall|j: int| 0 <= j < i ==> content@[pos + j] == model_name_prefix()[j],
        decreases 11 - i,
    {
        if content[pos + i] != p[i] {
            assert(content@.subrange(pos as int, pos + 11)[i as int] != model_name_prefix()[i as int]);
            return false;
        }
        i = i + 1;
    }
    assert(content@.subrange(pos as int, pos + 11) =~= model_name_prefix());
    true
}

/// Information the platform reports about the processor.
pub struct CPUInfo {
    pub cpu_model: Option<Vec<u8>>,
    pub intel_turbo: Option<bool>,
}

/// The processor's marketing name, scanned out of the bytes of the
/// platform's processor listing.
pub fn cpu_model(content: &Vec<u8>) -> (r: Option<Vec<u8>>)
    ensures
        r is Some <==> spec_cpu_model(content@) is Some,
        r is Some ==> r->0@ == spec_cpu_model(content@)->0,
{
    let n: usize = content.len();
    let mut pos: usize = 0;
    while pos < n
        invariant
            0 <= pos <= n,
            n == content@.len(),
            spec_cpu_model(content@) == spec_cpu_model_from(content@, pos as int),
        decreases n - pos,
    {
        let nl: usize = find_in(content, pos, n, 10);
        let le: usize = if nl > pos && content[nl - 1] == 13 {
            nl - 1
        } else {
            nl
        };
        if has_model_prefix(content, pos, le) {
            let colon: usize = find_in(content, pos + 11, le, 58);
            if colon == le {
                return None;
            }
            let mut start: usize = colon + 1;
            while start < le && is_space_byte(content[start])
                invariant
                    colon + 1 <= start <= le <= content@.len(),
                    spec_skip_spaces(content@, colon + 1, le as int) == spec_skip_spaces(
                        content@,
                        start as int,
                        le as int,
                    ),
                decreases le - start,
            {
                start = start + 1;
            }
            assert(start == spec_skip_spaces(content@, colon + 1, le as int));
            let mut e: usize = le;
            while e > start && is_space_byte(content[e - 1])
                invariant
                    start <= e <= le <= content@.len(),
                    spec_rtrim(content@, start as int, le as int) == spec_rtrim(
                        content@,
                        start as int,
                        e as int,
                    ),
                decreases e,
            {
                e = e - 1;
            }
            assert(e == spec_rtrim(content@, start as int, le as int));
            let mut out: Vec<u8> = Vec::new();
            let mut j: usize = start;
            while j < e
                invariant
                    start <= j <= e <= content@.len(),
                    out@ =~= content@.subrange(start as int, j as int),
                decreases e - j,
            {
                out.push(content[j]);
                assert(out@ =~= content@.subrange(start as int, j + 1));
                j = j + 1;
            }
            assert(out@ =~= content@.subrange(start as int, e as int));
            return Some(out);
        }
        if nl >= n {
            return None;
        }
        pos = nl + 1;
    }
    None
}

/// The four bytes of one 32-bit register, least significant first:
/// the order in which the processor's brand string registers spell
/// their text.
pub open spec fn spec_le_bytes(v: u32) -> Seq<u8> {
    seq![
        (v % 256) as u8,
        ((v / 256) % 256) as u8,
        ((v / 65536) % 256) as u8,
        ((v / 16777216) % 256) as u8,
    ]
}

/// The bytes of a register sequence, register by register.
pub open spec fn spec_regs_bytes(regs: Seq<u32>) -> Seq<u8>
    decreases regs.len(),
{
    if regs.len() == 0 {
        Seq::<u8>::empty()
    } else {
        spec_regs_bytes(regs.drop_last()) + spec_le_bytes(regs.last())
    }
}

/// The processor brand string spelled by identification registers:
/// their bytes in order, cut at the first NUL.
pub open spec fn spec_brand_string(regs: Seq<u32>) -> Seq<u8> {
    let bytes = spec_regs_bytes(regs);
    bytes.take(spec_find_in(bytes, 0, bytes.len() as int, 0))
}

/// Assembles the processor brand string from its identification
/// registers: each register contributes its four bytes, least
/// significant first, and the text ends at the first NUL byte.
pub fn brand_string_bytes(regs: &Vec<u32>) -> (r: Vec<u8>)
    requires
        4 * regs@.len() <= usize::MAX,
    ensures
        r@ == spec_brand_string(regs@),
{
    let mut bytes: Vec<u8> = Vec::new();
    let mut i: usize = 0;
    let n: usize = regs.len();
    while i < n
        invariant
            0 <= i <= n,
            n == regs@.len(),
            4 * n <= usize::MAX,
            bytes@.len() == 4 * i,
            bytes@ =~= spec_regs_bytes(regs@.take(i as int)),
        decreases n - i,
    {
        let v: u32 = regs[i];
        bytes.push((v % 256) as u8);
        bytes.push(((v / 256) % 256) as u8);
        bytes.push(((v / 65536) % 256) as u8);
        bytes.push(((v / 16777216) % 256) as u8);
        proof {
            assert(regs@.take(i + 1).drop_last() =~= regs@.take(i as int));
            assert(regs@.take(i + 1).last() == regs@[i as int]);
            assert(bytes@ =~= spec_regs_bytes(regs@.take(i + 1)));
        }
        i = i + 1;
    }
    proof {
        assert(regs@.take(n as int) =~= regs@);
    }
    let cut: usize = find_in(&bytes, 0, bytes.len(), 0);
    let mut out: Vec<u8> = Vec::new();
    let mut j: usize = 0;
    while j < cut
        invariant
            0 <= j <= cut <= bytes@.len(),
            out@ =~= bytes@.subrange(0, j as int),
        decreases cut - j,
    {
        out.push(bytes[j]);
        assert(out@ =~= bytes@.subrange(0, j + 1));
        j = j + 1;
    }
    assert(out@ =~= bytes@.take(cut as int));
    out
}

/// Whether one byte is ASCII whitespace.
fn is_space_byte(b: u8) -> (r: bool)
    ensures
        r == is_ascii_space(b),
{
    b == 32 || b == 9 || b == 10 || b == 11 || b == 12 || b == 13
}

/// The processor information parsed from the platform's listing. Only
/// the model name is carried in the listing; the turbo flag is not.
pub fn get_cpuinfo(content: &Vec<u8>) -> (info: CPUInfo)
    ensures
        info.cpu_model is Some <==> spec_cpu_model(content@) is Some,
        info.cpu_model is Some ==> info.cpu_model->0@ == spec_cpu_model(content@)->0,
        info.intel_turbo is None,
{
    CPUInfo { cpu_model: cpu_model(content), intel_turbo: None }
}

} // verus!
