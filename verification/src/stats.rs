use vstd::prelude::*;

use crate::text::{
    char_vec, decimal, decimal_parses_back, find_char, find_char_in, is_white_space,
    lemma_decimal_plain, lemma_find_char_bounds, lemma_trim_of_trimmed, parse_i64_range,
    parse_i64_spec, prefix_at, trim, trim_range,
};

verus! {

/// Counts of a PlayMode test run.
#[derive(Debug, Clone, Copy, PartialEq, Eq, Structural)]
pub struct FlowTaskStats {
    pub passed: i64,
    pub failed: i64,
    pub skipped: i64,
}

/// What one `;`-separated segment of a summary says about the count whose entry starts with
/// `needle`: the segment, trimmed, must start with `needle`, and what follows, trimmed, must
/// be an `i64`.
pub open spec fn segment_count(segment: Seq<char>, needle: Seq<char>) -> Option<i64> {
    let t = trim(segment);
    if needle.is_prefix_of(t) {
        parse_i64_spec(trim(t.skip(needle.len() as int)))
    } else {
        None
    }
}

/// The count that the first segment of `summary` (split at `;`) with a readable entry for
/// `needle` gives, if any segment has one.
pub open spec fn named_count(summary: Seq<char>, needle: Seq<char>) -> Option<i64>
    decreases summary.len(),
{
    let i = find_char(summary, ';');
    match segment_count(summary.take(i), needle) {
        Some(v) => Some(v),
        None => if 0 <= i < summary.len() {
            named_count(summary.skip(i + 1), needle)
        } else {
            None
        },
    }
}

/// The entry prefix that `parse_named_count` looks for: the key followed by `=`.
pub open spec fn needle_of(key: Seq<char>) -> Seq<char> {
    key.push('=')
}

/// The statistics that a summary line states: `passed` and `failed` are required, a missing
/// `skipped` counts as zero.
pub open spec fn flow_stats_of(summary: Seq<char>) -> Option<FlowTaskStats> {
    match (named_count(summary, needle_of("passed"@)), named_count(
        summary,
        needle_of("failed"@),
    )) {
        (Some(passed), Some(failed)) => Some(
            FlowTaskStats {
                passed,
                failed,
                skipped: match named_count(summary, needle_of("skipped"@)) {
                    Some(s) => s,
                    None => 0,
                },
            },
        ),
        _ => None,
    }
}

/// The count in `v[lo..hi]`, read as one segment.
fn segment_count_range(v: &Vec<char>, lo: usize, hi: usize, needle: &Vec<char>) -> (r: Option<i64>)
    requires
        lo <= hi <= v@.len(),
    ensures
        r == segment_count(v@.subrange(lo as int, hi as int), needle@),
{
    let (a, b) = trim_range(v, lo, hi);
    let ghost t = v@.subrange(a as int, b as int);
    if !prefix_at(v, a, b, needle) {
        return None;
    }
    let start = a + needle.len();
    assert(t.skip(needle@.len() as int) =~= v@.subrange(start as int, b as int));
    let (c, d) = trim_range(v, start, b);
    parse_i64_range(v, c, d)
}

/// The count that `summary` gives for `key`: the first `;`-separated segment that, trimmed,
/// reads `key=` followed by an integer (white space around the integer allowed).
pub fn parse_named_count(summary: &str, key: &str) -> (r: Option<i64>)
    ensures
        r == named_count(summary@, needle_of(key@)),
{
    let v = char_vec(summary);
    let mut needle = char_vec(key);
    needle.push('=');
    let n = v.len();
    let mut start: usize = 0;
    assert(v@.skip(0) =~= v@);
    loop
        invariant
            start <= n == v@.len(),
            v@ == summary@,
            needle@ == needle_of(key@),
            named_count(v@, needle@) == named_count(v@.skip(start as int), needle@),
        decreases n - start,
    {
        let ghost rest = v@.skip(start as int);
        let end = find_char_in(&v, start, n, ';');
        proof {
            assert(rest =~= v@.subrange(start as int, n as int));
            lemma_find_char_bounds(rest, ';');
            assert(rest.take(end - start) =~= v@.subrange(start as int, end as int));
        }
        let r = segment_count_range(&v, start, end, &needle);
        if r.is_some() {
            return r;
        }
        if end == n {
            return None;
        }
        assert(rest.skip(end - start + 1) =~= v@.skip(end + 1));
        start = end + 1;
    }
}

/// Reads the `passed`, `failed` and `skipped` counts from a PlayMode summary line such as
/// `state=Passed; passed=7; failed=1; skipped=2`.
pub fn parse_flow_stats(summary: &str) -> (r: Option<FlowTaskStats>)
    ensures
        r == flow_stats_of(summary@),
{
    let passed = match parse_named_count(summary, "passed") {
        Some(v) => v,
        None => {
            return None;
        },
    };
    let failed = match parse_named_count(summary, "failed") {
        Some(v) => v,
        None => {
            return None;
        },
    };
    let skipped = match parse_named_count(summary, "skipped") {
        Some(v) => v,
        None => 0,
    };
    Some(FlowTaskStats { passed, failed, skipped })
}

} // verus!

verus! {

/// A summary that states `key=n` for a number `n` is read back as `n`.
pub proof fn stated_count_reads_back(key: Seq<char>, n: u64)
    requires
        n <= i64::MAX,
        !key.contains(';'),
        key.len() == 0 || !is_white_space(key[0]),
    ensures
        named_count(needle_of(key) + decimal(n as nat), needle_of(key)) == Some(n as i64),
{
    let needle = needle_of(key);
    let d = decimal(n as nat);
    let s = needle + d;
    lemma_decimal_plain(n as nat);
    decimal_parses_back(n);
    assert(!s.contains(';')) by {
        if s.contains(';') {
            let i = choose|i: int| 0 <= i < s.len() && s[i] == ';';
            if i < key.len() {
                assert(key[i] == ';');
            } else if i == key.len() {
                assert(s[i] == '=');
            } else {
                assert(d[i - needle.len()] == ';');
            }
        }
    }
    lemma_find_char_bounds(s, ';');
    assert(find_char(s, ';') == s.len());
    assert(s.take(s.len() as int) =~= s);
    assert(s[0] == needle[0]);
    assert(s.last() == d.last());
    lemma_trim_of_trimmed(s);
    assert(needle.is_prefix_of(s)) by {
        assert(needle =~= s.subrange(0, needle.len() as int));
    }
    assert(s.skip(needle.len() as int) =~= d);
}

} // verus!

verus! {

/// The statistics are there exactly when the summary has readable `passed` and `failed`
/// counts, and they are those counts, with `skipped` read where readable and zero otherwise.
pub proof fn stats_are_the_named_counts(summary: Seq<char>)
    ensures
        flow_stats_of(summary) is Some <==> (named_count(summary, needle_of("passed"@)) is Some
            && named_count(summary, needle_of("failed"@)) is Some),
        flow_stats_of(summary) matches Some(st) ==> {
            &&& named_count(summary, needle_of("passed"@)) == Some(st.passed)
            &&& named_count(summary, needle_of("failed"@)) == Some(st.failed)
            &&& named_count(summary, needle_of("skipped"@)) matches Some(k) ==> st.skipped == k
            &&& named_count(summary, needle_of("skipped"@)) is None ==> st.skipped == 0
        },
{
}

} // verus!
