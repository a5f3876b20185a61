//! The memory use of the process, read from the text of
//! `/proc/self/status`: the line that starts with `VmRSS:` holds the
//! resident set size in KiB, as in `VmRSS:     5120 kB`.

use vstd::prelude::*;

verus! {

/// The label of the resident-set-size line, `VmRSS:`.
pub open spec fn vmrss_label() -> Seq<u8> {
    seq![86u8, 109u8, 82u8, 83u8, 83u8, 58u8]
}

/// ASCII whitespace: space, tab, line feed, vertical tab, form feed and
/// carriage return.
pub open spec fn is_ascii_space(b: u8) -> bool {
    b == 32 || (9 <= b && b <= 13)
}

pub open spec fn is_ascii_digit(b: u8) -> bool {
    48 <= b && b <= 57
}

/// Whether a line starts at `i`: at the start of the text or after a line
/// feed.
pub open spec fn line_starts_at(s: Seq<u8>, i: int) -> bool {
    i == 0 || s[i - 1] == 10
}

pub open spec fn has_label_at(s: Seq<u8>, i: int) -> bool {
    i + 6 <= s.len() && s.subrange(i, i + 6) == vmrss_label()
}

/// The start of the first line at or after `i` that begins with `VmRSS:`.
pub open spec fn vmrss_line_from(s: Seq<u8>, i: int) -> Option<int>
    decreases s.len() - i,
{
    if i < 0 || i >= s.len() {
        None
    } else if line_starts_at(s, i) && has_label_at(s, i) {
        Some(i)
    } else {
        vmrss_line_from(s, i + 1)
    }
}

/// The end of the line that holds position `i`: the next line feed, or the
/// end of the text.
pub open spec fn line_end(s: Seq<u8>, i: int) -> int
    decreases s.len() - i,
{
    if i < 0 || i >= s.len() {
        s.len() as int
    } else if s[i] == 10 {
        i
    } else {
        line_end(s, i + 1)
    }
}

/// The first whitespace position in `i..end`, or `end`.
pub open spec fn next_space(s: Seq<u8>, i: int, end: int) -> int
    decreases end - i,
{
    if i >= end {
        end
    } else if is_ascii_space(s[i]) {
        i
    } else {
        next_space(s, i + 1, end)
    }
}

/// The first non-whitespace position in `i..end`, or `end`.
pub open spec fn next_word(s: Seq<u8>, i: int, end: int) -> int
    decreases end - i,
{
    if i >= end {
        end
    } else if !is_ascii_space(s[i]) {
        i
    } else {
        next_word(s, i + 1, end)
    }
}

/// The bounds of the second whitespace-separated word of the line that
/// starts at `p`, if it has one.
pub open spec fn second_word(s: Seq<u8>, p: int) -> Option<(int, int)> {
    let e = line_end(s, p);
    let start = next_word(s, next_space(s, p, e), e);
    if start >= e {
        None
    } else {
        Some((start, next_space(s, start, e)))
    }
}

/// The number written by a sequence of decimal digits.
pub open spec fn digits_value(d: Seq<u8>) -> int
    decreases d.len(),
{
    if d.len() == 0 {
        0
    } else {
        digits_value(d.drop_last()) * 10 + (d.last() - 48)
    }
}

pub open spec fn all_digits(d: Seq<u8>) -> bool {
    forall|i: int| 0 <= i < d.len() ==> is_ascii_digit(#[trigger] d[i])
}

/// A word read as a `u64` the way Rust's `u64::from_str` reads it: an
/// optional `+`, then at least one decimal digit, with a value that fits.
pub open spec fn parse_u64(word: Seq<u8>) -> Option<int> {
    let d = if word.len() > 0 && word[0] == 43 {
        word.drop_first()
    } else {
        word
    };
    if d.len() > 0 && all_digits(d) && digits_value(d) <= u64::MAX {
        Some(digits_value(d))
    } else {
        None
    }
}

/// The resident set size in bytes that a status text reports: the second
/// word of the first `VmRSS:` line, read as KiB, times 1024, if all of that
/// is there and fits in a `u64`.
pub open spec fn spec_resident_set_bytes(s: Seq<u8>) -> Option<int> {
    match vmrss_line_from(s, 0) {
        None => None,
        Some(p) => match second_word(s, p) {
            None => None,
            Some((a, b)) => match parse_u64(s.subrange(a, b)) {
                None => None,
                Some(kib) => if kib * 1024 <= u64::MAX {
                    Some(kib * 1024)
                } else {
                    None
                },
            },
        },
    }
}

/// A longer run of digits never writes a smaller number.
proof fn lemma_digits_prefix(d: Seq<u8>, j: int)
    requires
        all_digits(d),
        0 <= j <= d.len(),
    ensures
        0 <= digits_value(d.take(j)) <= digits_value(d),
    decreases d.len(),
{
    if j == d.len() {
        assert(d.take(j) =~= d);
        lemma_digits_nonnegative(d);
    } else {
        lemma_digits_prefix(d.drop_last(), j);
        assert(d.drop_last().take(j) =~= d.take(j));
        lemma_digits_nonnegative(d.drop_last());
    }
}

proof fn lemma_digits_nonnegative(d: Seq<u8>)
    requires
        all_digits(d),
    ensures
        digits_value(d) >= 0,
    decreases d.len(),
{
    if d.len() > 0 {
        lemma_digits_nonnegative(d.drop_last());
    }
}

fn is_space(b: u8) -> (r: bool)
    ensures
        r == is_ascii_space(b),
{
    b == 32 || (9 <= b && b <= 13)
}

/// The start of the first `VmRSS:` line.
fn find_vmrss_line(s: &[u8]) -> (p: Option<usize>)
    ensures
        match p {
            Some(i) => vmrss_line_from(s@, 0) == Some(i as int) && i < s@.len(),
            None => vmrss_line_from(s@, 0) is None,
        },
{
    let mut i: usize = 0;
    while i < s.len()
        invariant
            i <= s@.len(),
            vmrss_line_from(s@, 0) == vmrss_line_from(s@, i as int),
        decreases s@.len() - i,
    {
        if (i == 0 || s[i - 1] == 10) && 6 <= s.len() - i && s[i] == 86 && s[i + 1] == 109 && s[i
            + 2] == 82 && s[i + 3] == 83 && s[i + 4] == 83 && s[i + 5] == 58 {
            assert(s@.subrange(i as int, i + 6) =~= vmrss_label());
            return Some(i);
        }
        proof {
            if has_label_at(s@, i as int) {
                assert(s@.subrange(i as int, i + 6)[0] == s@[i as int]);
                assert(s@.subrange(i as int, i + 6)[1] == s@[i + 1]);
                assert(s@.subrange(i as int, i + 6)[2] == s@[i + 2]);
                assert(s@.subrange(i as int, i + 6)[3] == s@[i + 3]);
                assert(s@.subrange(i as int, i + 6)[4] == s@[i + 4]);
                assert(s@.subrange(i as int, i + 6)[5] == s@[i + 5]);
            }
        }
        i = i + 1;
    }
    None
}

fn find_line_end(s: &[u8], from: usize) -> (e: usize)
    requires
        from <= s@.len(),
    ensures
        e == line_end(s@, from as int),
        from <= e <= s@.len(),
{
    let mut i = from;
    while i < s.len() && s[i] != 10
        invariant
            from <= i <= s@.len(),
            line_end(s@, from as int) == line_end(s@, i as int),
        decreases s@.len() - i,
    {
        i = i + 1;
    }
    i
}

fn find_space(s: &[u8], from: usize, end: usize) -> (j: usize)
    requires
        from <= end <= s@.len(),
    ensures
        j == next_space(s@, from as int, end as int),
        from <= j <= end,
{
    let mut i = from;
    while i < end && !is_space(s[i])
        invariant
            from <= i <= end,
            end <= s@.len(),
            next_space(s@, from as int, end as int) == next_space(s@, i as int, end as int),
        decreases end - i,
    {
        i = i + 1;
    }
    i
}

fn find_word(s: &[u8], from: usize, end: usize) -> (j: usize)
    requires
        from <= end <= s@.len(),
    ensures
        j == next_word(s@, from as int, end as int),
        from <= j <= end,
{
    let mut i = from;
    while i < end && is_space(s[i])
        invariant
            from <= i <= end,
            end <= s@.len(),
            next_word(s@, from as int, end as int) == next_word(s@, i as int, end as int),
        decreases end - i,
    {
        i = i + 1;
    }
    i
}

/// Reads `s[start..end]` as a `u64` the way `u64::from_str` does.
fn parse_word(s: &[u8], start: usize, end: usize) -> (v: Option<u64>)
    requires
        start <= end <= s@.len(),
    ensures
        match v {
            Some(n) => parse_u64(s@.subrange(start as int, end as int)) == Some(n as int),
            None => parse_u64(s@.subrange(start as int, end as int)) is None,
        },
{
    let ghost word = s@.subrange(start as int, end as int);
    let mut i = start;
    if i < end && s[i] == 43 {
        i = i + 1;
    }
    let ghost d = s@.subrange(i as int, end as int);
    assert(d =~= if word.len() > 0 && word[0] == 43 {
        word.drop_first()
    } else {
        word
    });
    if i == end {
        return None;
    }
    let first = i;
    let mut value: u64 = 0;
    while i < end
        invariant
            start <= first <= i <= end <= s@.len(),
            d == s@.subrange(first as int, end as int),
            word == s@.subrange(start as int, end as int),
            d == (if word.len() > 0 && word[0] == 43 {
                word.drop_first()
            } else {
                word
            }),
            all_digits(s@.subrange(first as int, i as int)),
            value == digits_value(s@.subrange(first as int, i as int)),
        decreases end - i,
    {
        let b = s[i];
        assert(s@.subrange(first as int, i + 1).drop_last() =~= s@.subrange(first as int, i as int));
        assert(d.take(i - first + 1) =~= s@.subrange(first as int, i + 1));
        if !(48 <= b && b <= 57) {
            proof {
                assert(d[i - first] == b);
                assert(!is_ascii_digit(d[i - first]));
                assert(!all_digits(d));
                assert(parse_u64(word) is None);
            }
            return None;
        }
        if value > (u64::MAX - (b - 48) as u64) / 10 {
            proof {
                let c: int = b - 48;
                assert(value * 10 + c > u64::MAX) by (nonlinear_arith)
                    requires
                        value > (u64::MAX - c) / 10,
                        0 <= c <= 9,
                ;
                assert(digits_value(s@.subrange(first as int, i + 1)) == value * 10 + c);
                assert forall|k: int| 0 <= k < d.take(i - first + 1).len() implies is_ascii_digit(
                    #[trigger] d.take(i - first + 1)[k],
                ) by {
                    if k < i - first {
                        assert(d.take(i - first + 1)[k] == s@.subrange(first as int, i as int)[k]);
                    }
                }
                if all_digits(d) {
                    lemma_digits_prefix(d, i - first + 1);
                }
                assert(parse_u64(word) is None);
            }
            return None;
        }
        value = value * 10 + (b - 48) as u64;
        i = i + 1;
    }
    assert(d =~= s@.subrange(first as int, i as int));
    Some(value)
}

/// The resident set size in bytes reported by the text of
/// `/proc/self/status`, if it holds a readable `VmRSS:` line.
pub fn resident_set_bytes(status: &[u8]) -> (bytes: Option<u64>)
    ensures
        match bytes {
            Some(n) => spec_resident_set_bytes(status@) == Some(n as int),
            None => spec_resident_set_bytes(status@) is None,
        },
{
    let p = match find_vmrss_line(status) {
        Some(p) => p,
        None => {
            return None;
        },
    };
    let e = find_line_end(status, p);
    let start = find_word(status, find_space(status, p, e), e);
    if start >= e {
        return None;
    }
    let stop = find_space(status, start, e);
    let kib = match parse_word(status, start, stop) {
        Some(k) => k,
        None => {
            return None;
        },
    };
    if kib > u64::MAX / 1024 {
        return None;
    }
    Some(kib * 1024)
}

} // verus!
