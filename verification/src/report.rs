//! Everything the benchmark reports: the clamped memory delta, the unit
//! conversions, a verified decimal printer, and the exact text of every
//! output line.

use vstd::prelude::*;
use crate::config::{describe_spec, tests_spec, Test};

verus! {

/// The reported delta: the sample clamped to the baseline, minus the
/// baseline, so sampling noise below the baseline reads as zero.
pub open spec fn clamped_delta(sample_kb: u64, base_kb: u64) -> u64 {
    if sample_kb >= base_kb {
        (sample_kb - base_kb) as u64
    } else {
        0u64
    }
}

/// Memory delta of one test, in kilobytes. The clamp against the baseline
/// keeps the result non-negative on every run.
pub fn memory_delta(sample_kb: u64, base_kb: u64) -> (r: u64)
    ensures
        r == clamped_delta(sample_kb, base_kb),
        sample_kb >= base_kb ==> r == sample_kb - base_kb,
        sample_kb < base_kb ==> r == 0,
{
    if sample_kb >= base_kb {
        sample_kb - base_kb
    } else {
        0
    }
}

/// Whole megabytes in `kb` kilobytes.
pub fn kb_to_mb(kb: u64) -> (r: u64)
    ensures
        r == kb / 1024,
{
    proof {
        assert(kb >> 10u64 == kb / 1024) by (bit_vector);
    }
    kb >> 10u64
}

/// Bytes a sweep is expected to allocate: `count` square textures of edge
/// `size`, four bytes per texel.
pub open spec fn expected_bytes(count: u32, size: u32) -> int {
    count * size * size * 4
}

/// Expected allocation of a sweep in whole megabytes.
pub fn expected_mb(count: u32, size: u32) -> (r: u64)
    requires
        expected_bytes(count, size) <= u64::MAX,
    ensures
        r == expected_bytes(count, size) / 0x100000,
{
    let c = count as u64;
    let s = size as u64;
    proof {
        let ci = count as int;
        let si = size as int;
        if si >= 1 {
            assert(ci * si <= ci * si * si * 4) by (nonlinear_arith)
                requires
                    ci >= 0,
                    si >= 1,
            ;
            assert(ci * si * si <= ci * si * si * 4) by (nonlinear_arith)
                requires
                    ci >= 0,
                    si >= 1,
            ;
        }
    }
    let per_row = c * s;
    let texels = per_row * s;
    let bytes = texels * 4;
    proof {
        assert(bytes >> 20u64 == bytes / 0x100000) by (bit_vector);
    }
    bytes >> 20u64
}

/// The decimal digit character for `d`.
pub open spec fn digit_char(d: nat) -> char
    recommends
        d < 10,
{
    if d == 0 {
        '0'
    } else if d == 1 {
        '1'
    } else if d == 2 {
        '2'
    } else if d == 3 {
        '3'
    } else if d == 4 {
        '4'
    } else if d == 5 {
        '5'
    } else if d == 6 {
        '6'
    } else if d == 7 {
        '7'
    } else if d == 8 {
        '8'
    } else {
        '9'
    }
}

/// The usual decimal writing of `n`: no sign, no leading zero except for
/// zero itself.
pub open spec fn dec_spec(n: nat) -> Seq<char>
    decreases n,
{
    if n < 10 {
        seq![digit_char(n)]
    } else {
        dec_spec(n / 10) + seq![digit_char(n % 10)]
    }
}

/// The one-character string for a single decimal digit.
fn digit_str(d: u64) -> (r: &'static str)
    requires
        d < 10,
    ensures
        r@ == seq![digit_char(d as nat)],
{
    let r: &'static str = if d == 0 {
        "0"
    } else if d == 1 {
        "1"
    } else if d == 2 {
        "2"
    } else if d == 3 {
        "3"
    } else if d == 4 {
        "4"
    } else if d == 5 {
        "5"
    } else if d == 6 {
        "6"
    } else if d == 7 {
        "7"
    } else if d == 8 {
        "8"
    } else {
        "9"
    };
    proof {
        reveal_strlit("0");
        reveal_strlit("1");
        reveal_strlit("2");
        reveal_strlit("3");
        reveal_strlit("4");
        reveal_strlit("5");
        reveal_strlit("6");
        reveal_strlit("7");
        reveal_strlit("8");
        reveal_strlit("9");
        assert(r@ =~= seq![digit_char(d as nat)]);
    }
    r
}

/// Writes `n` in decimal.
pub fn u64_to_dec(n: u64) -> (r: String)
    ensures
        r@ == dec_spec(n as nat),
    decreases n,
{
    if n < 10 {
        String::from_str(digit_str(n))
    } else {
        let prefix = u64_to_dec(n / 10);
        let r = prefix.concat(digit_str(n % 10));
        proof {
            assert(r@ =~= dec_spec(n as nat));
        }
        r
    }
}

/// The report line of one test: its description, then its delta in whole
/// megabytes.
pub open spec fn line_spec(t: Test, sample_kb: u64, base_kb: u64) -> Seq<char> {
    describe_spec(t) + ": "@ + dec_spec((clamped_delta(sample_kb, base_kb) / 1024) as nat)
        + " MB"@
}

/// Builds the report line for one test from the memory sample taken after it
/// ran and the baseline sampled at startup.
pub fn report_line(t: &Test, sample_kb: u64, base_kb: u64) -> (r: String)
    ensures
        r@ == line_spec(*t, sample_kb, base_kb),
{
    let mut s = t.describe();
    s.append(": ");
    let mb = kb_to_mb(memory_delta(sample_kb, base_kb));
    let digits = u64_to_dec(mb);
    s.append(digits.as_str());
    s.append(" MB");
    proof {
        assert(s@ =~= line_spec(*t, sample_kb, base_kb));
    }
    s
}

/// The banner printed once at startup, naming the texture count and size.
pub open spec fn start_line_spec(count: u32, size: u32) -> Seq<char> {
    "Starting gl-mem-test with "@ + dec_spec(count as nat) + " textures of size "@ + dec_spec(
        size as nat,
    ) + "x"@ + dec_spec(size as nat)
}

/// Builds the startup banner.
pub fn start_line(count: u32, size: u32) -> (r: String)
    ensures
        r@ == start_line_spec(count, size),
{
    let mut s = String::from_str("Starting gl-mem-test with ");
    let count_digits = u64_to_dec(count as u64);
    s.append(count_digits.as_str());
    s.append(" textures of size ");
    let size_digits = u64_to_dec(size as u64);
    s.append(size_digits.as_str());
    s.append("x");
    s.append(size_digits.as_str());
    proof {
        assert(s@ =~= start_line_spec(count, size));
    }
    s
}

/// The line announcing how many megabytes the sweep is expected to allocate.
pub open spec fn expected_line_spec(count: u32, size: u32) -> Seq<char> {
    "Expected: "@ + dec_spec((expected_bytes(count, size) / 0x100000) as nat) + " MB"@
}

/// Builds the expected-allocation line.
pub fn expected_line(count: u32, size: u32) -> (r: String)
    requires
        expected_bytes(count, size) <= u64::MAX,
    ensures
        r@ == expected_line_spec(count, size),
{
    let mut s = String::from_str("Expected: ");
    let digits = u64_to_dec(expected_mb(count, size));
    s.append(digits.as_str());
    s.append(" MB");
    proof {
        assert(s@ =~= expected_line_spec(count, size));
    }
    s
}

/// The report lines of a full sweep: one line per configuration of the fixed
/// list, in list order, from the per-test samples in the same order.
pub fn sweep_lines(samples: &Vec<u64>, base_kb: u64) -> (r: Vec<String>)
    requires
        samples@.len() == tests_spec().len(),
    ensures
        r@.len() == tests_spec().len(),
        forall|i: int|
            0 <= i < r@.len() ==> r@[i]@ == line_spec(tests_spec()[i], samples@[i], base_kb),
{
    let tests = crate::config::all_tests();
    let mut lines: Vec<String> = Vec::new();
    let mut i: usize = 0;
    while i < tests.len()
        invariant
            i <= tests.len(),
            tests@ == tests_spec(),
            samples@.len() == tests_spec().len(),
            lines@.len() == i as int,
            forall|j: int|
                0 <= j < i as int ==> lines@[j]@ == line_spec(
                    tests_spec()[j],
                    samples@[j],
                    base_kb,
                ),
        decreases tests.len() - i,
    {
        let line = report_line(&tests[i], samples[i], base_kb);
        lines.push(line);
        i += 1;
    }
    lines
}

} // verus!
