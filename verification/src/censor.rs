//! Watched-word censoring: overlapping matched byte ranges are merged and
//! every character inside them is replaced by a block glyph.

use vstd::prelude::*;
use vstd::utf8::{encode_scalar, encode_utf8, is_char_boundary};
use crate::codec::utf8_bytes;
use crate::text::{chars_of, string_from_chars};

verus! {

/// The glyph that replaces each censored character.
pub open spec fn censor_glyph() -> char {
    '\u{2587}'
}

/// Byte offset, in the UTF-8 encoding of `text`, of character `i`.
pub open spec fn char_offset(text: Seq<char>, i: int) -> int {
    encode_utf8(text.take(i)).len() as int
}

/// Some range covers byte `b`.
pub open spec fn covered(ranges: Seq<(usize, usize)>, b: int) -> bool {
    exists|k: int| 0 <= k < ranges.len() && #[trigger] ranges[k].0 <= b && b < ranges[k].1
}

/// The text with every character whose encoding starts inside a range
/// replaced by the glyph.
pub open spec fn censored(text: Seq<char>, ranges: Seq<(usize, usize)>) -> Seq<char> {
    Seq::new(text.len(), |i: int| if covered(ranges, char_offset(text, i)) { censor_glyph() } else { text[i] })
}

/// Each range is ordered and starts and ends on character boundaries of the
/// text (otherwise slicing the text at it panics).
pub open spec fn ranges_on_boundaries(text: Seq<char>, ranges: Seq<(usize, usize)>) -> bool {
    forall|k: int| 0 <= k < ranges.len() ==> {
        &&& #[trigger] ranges[k].0 <= ranges[k].1
        &&& is_char_boundary(encode_utf8(text), ranges[k].0 as int)
        &&& is_char_boundary(encode_utf8(text), ranges[k].1 as int)
    }
}

pub open spec fn range_before(a: (usize, usize), b: (usize, usize)) -> bool {
    a.0 < b.0 || (a.0 == b.0 && a.1 >= b.1)
}

/// Sorted by start, and by descending end among equal starts.
pub open spec fn sorted_ranges(r: Seq<(usize, usize)>) -> bool {
    forall|a: int, b: int| 0 <= a < b < r.len() ==> range_before(#[trigger] r[a], #[trigger] r[b])
}

/// Ordered ranges separated by gaps: each starts after the previous one ends.
pub open spec fn separated_ranges(r: Seq<(usize, usize)>) -> bool {
    &&& forall|k: int| 0 <= k < r.len() ==> #[trigger] r[k].0 <= r[k].1
    &&& forall|a: int, b: int| 0 <= a < b < r.len() ==> (#[trigger] r[a]).1 < (#[trigger] r[b]).0
}

/// Sort ranges by start, longest first among equal starts.
pub fn sort_ranges(ranges: Vec<(usize, usize)>) -> (r: Vec<(usize, usize)>)
    ensures
        sorted_ranges(r@),
        r@.len() == ranges@.len(),
        forall|x: (usize, usize)| r@.contains(x) <==> ranges@.contains(x),
{
    let mut out: Vec<(usize, usize)> = Vec::new();
    let mut i: usize = 0;
    while i < ranges.len()
        invariant
            i <= ranges@.len(),
            out@.len() == i,
            sorted_ranges(out@),
            forall|x: (usize, usize)| out@.contains(x) <==> ranges@.take(i as int).contains(x),
        decreases ranges.len() - i,
    {
        let item = ranges[i];
        let mut j: usize = 0;
        while j < out.len() && range_before_exec(out[j], item)
            invariant
                j <= out@.len(),
                forall|k: int| 0 <= k < j ==> range_before(#[trigger] out@[k], item),
            decreases out.len() - j,
        {
            j = j + 1;
        }
        let ghost before = out@;
        out.insert(j, item);
        proof {
            assert(out@ == before.insert(j as int, item));
            assert forall|a: int, b: int| 0 <= a < b < out@.len() implies range_before(#[trigger] out@[a], #[trigger] out@[b]) by {
                if b == j {
                    assert(out@[a] == before[a]);
                } else if a == j {
                    assert(out@[b] == before[b - 1]);
                    if j < before.len() {
                        assert(!range_before(before[j as int], item));
                        if b - 1 > j {
                            assert(range_before(before[j as int], before[b - 1]));
                        }
                    }
                } else if a < j && b > j {
                    assert(out@[a] == before[a]);
                    assert(out@[b] == before[b - 1]);
                } else if b < j {
                    assert(out@[a] == before[a]);
                    assert(out@[b] == before[b]);
                } else {
                    assert(out@[a] == before[a - 1]);
                    assert(out@[b] == before[b - 1]);
                }
            }
            let pre = ranges@.take(i as int);
            let post = ranges@.take(i as int + 1);
            assert(post =~= pre.push(item));
            assert forall|x: (usize, usize)| out@.contains(x) <==> post.contains(x) by {
                if out@.contains(x) {
                    let k = choose|k: int| 0 <= k < out@.len() && #[trigger] out@[k] == x;
                    if k == j {
                        assert(post[i as int] == x);
                    } else {
                        if k < j {
                            assert(before[k] == x);
                        } else {
                            assert(before[k - 1] == x);
                        }
                        assert(before.contains(x));
                        assert(pre.contains(x));
                        let k2 = choose|k2: int| 0 <= k2 < pre.len() && #[trigger] pre[k2] == x;
                        assert(post[k2] == x);
                    }
                }
                if post.contains(x) {
                    let k = choose|k: int| 0 <= k < post.len() && #[trigger] post[k] == x;
                    if k == i {
                        assert(out@[j as int] == x);
                    } else {
                        assert(pre[k] == x);
                        assert(pre.contains(x));
                        assert(before.contains(x));
                        let k2 = choose|k2: int| 0 <= k2 < before.len() && #[trigger] before[k2] == x;
                        if k2 < j {
                            assert(out@[k2] == x);
                        } else {
                            assert(out@[k2 + 1] == x);
                        }
                    }
                }
            }
        }
        i = i + 1;
    }
    assert(ranges@.take(ranges@.len() as int) =~= ranges@);
    out
}

fn range_before_exec(a: (usize, usize), b: (usize, usize)) -> (r: bool)
    ensures
        r == range_before(a, b),
{
    a.0 < b.0 || (a.0 == b.0 && a.1 >= b.1)
}

/// Merge sorted ranges into separated ranges covering exactly the same bytes.
pub fn merge_ranges(sorted: &Vec<(usize, usize)>) -> (merged: Vec<(usize, usize)>)
    requires
        sorted_ranges(sorted@),
        forall|k: int| 0 <= k < sorted@.len() ==> #[trigger] sorted@[k].0 <= sorted@[k].1,
    ensures
        separated_ranges(merged@),
        forall|b: int| covered(merged@, b) <==> covered(sorted@, b),
{
    let mut merged: Vec<(usize, usize)> = Vec::new();
    let mut i: usize = 0;
    while i < sorted.len()
        invariant
            i <= sorted@.len(),
            sorted_ranges(sorted@),
            forall|k: int| 0 <= k < sorted@.len() ==> #[trigger] sorted@[k].0 <= sorted@[k].1,
            separated_ranges(merged@),
            forall|b: int| covered(merged@, b) <==> covered(sorted@.take(i as int), b),
            i > 0 ==> merged@.len() > 0,
            merged@.len() > 0 ==> i > 0,
            i > 0 ==> merged@.last().0 <= sorted@[i - 1].0,
            forall|k: int| 0 <= k < merged@.len() ==> (#[trigger] merged@[k]).0 <= sorted@[i - 1].0 || i == 0,
        decreases sorted.len() - i,
    {
        let (start, end) = sorted[i];
        let ghost old_merged = merged@;
        let ghost prefix = sorted@.take(i as int);
        assert(sorted@.take(i as int + 1) =~= prefix.push((start, end)));
        let n = merged.len();
        if n > 0 && start <= merged[n - 1].1 {
            let (ms, me) = merged[n - 1];
            let new_end = if me >= end { me } else { end };
            merged.set(n - 1, (ms, new_end));
            proof {
                assert(range_before(sorted@[i - 1], sorted@[i as int]));
                assert(sorted@[i - 1].0 <= start);
                assert forall|b: int| covered(prefix.push((start, end)), b) implies covered(merged@, b) by {
                    let k = choose|k: int| 0 <= k < prefix.push((start, end)).len() && #[trigger] prefix.push((start, end))[k].0 <= b && b < prefix.push((start, end))[k].1;
                    if k == i {
                        if b >= ms {
                            assert(merged@[n - 1].0 <= b && b < merged@[n - 1].1);
                        } else {
                            assert(ms <= start);
                        }
                    } else {
                        assert(prefix[k].0 <= b && b < prefix[k].1);
                        assert(covered(prefix, b));
                        assert(covered(old_merged, b));
                        let k2 = choose|k2: int| 0 <= k2 < old_merged.len() && #[trigger] old_merged[k2].0 <= b && b < old_merged[k2].1;
                        if k2 == n - 1 {
                            assert(merged@[n - 1].0 <= b && b < merged@[n - 1].1);
                        } else {
                            assert(merged@[k2] == old_merged[k2]);
                        }
                    }
                }
                assert forall|b: int| covered(merged@, b) implies covered(prefix.push((start, end)), b) by {
                    let k = choose|k: int| 0 <= k < merged@.len() && #[trigger] merged@[k].0 <= b && b < merged@[k].1;
                    if k == n - 1 && b >= me {
                        assert(prefix.push((start, end))[i as int] == (start, end));
                        assert(start <= me);
                    } else if k == n - 1 {
                        assert(old_merged[k].0 <= b && b < old_merged[k].1);
                        assert(covered(old_merged, b));
                        assert(covered(prefix, b));
                        let k3 = choose|k3: int| 0 <= k3 < prefix.len() && #[trigger] prefix[k3].0 <= b && b < prefix[k3].1;
                        assert(prefix.push((start, end))[k3] == prefix[k3]);
                    } else {
                        assert(merged@[k] == old_merged[k]);
                        assert(covered(old_merged, b));
                        assert(covered(prefix, b));
                        let k3 = choose|k3: int| 0 <= k3 < prefix.len() && #[trigger] prefix[k3].0 <= b && b < prefix[k3].1;
                        assert(prefix.push((start, end))[k3] == prefix[k3]);
                    }
                }
                assert forall|a: int, c: int| 0 <= a < c < merged@.len() implies (#[trigger] merged@[a]).1 < (#[trigger] merged@[c]).0 by {
                    assert(old_merged[a].1 < old_merged[c].0);
                }
            }
        } else {
            merged.push((start, end));
            proof {
                assert forall|b: int| covered(merged@, b) <==> covered(prefix.push((start, end)), b) by {
                    if covered(merged@, b) {
                        let k = choose|k: int| 0 <= k < merged@.len() && #[trigger] merged@[k].0 <= b && b < merged@[k].1;
                        if k == n {
                            assert(prefix.push((start, end))[i as int] == (start, end));
                        } else {
                            assert(merged@[k] == old_merged[k]);
                            assert(covered(old_merged, b));
                            let k3 = choose|k3: int| 0 <= k3 < prefix.len() && #[trigger] prefix[k3].0 <= b && b < prefix[k3].1;
                            assert(prefix.push((start, end))[k3] == prefix[k3]);
                        }
                    }
                    if covered(prefix.push((start, end)), b) {
                        let k = choose|k: int| 0 <= k < prefix.push((start, end)).len() && #[trigger] prefix.push((start, end))[k].0 <= b && b < prefix.push((start, end))[k].1;
                        if k == i {
                            assert(merged@[n as int] == (start, end));
                        } else {
                            assert(prefix[k].0 <= b && b < prefix[k].1);
                            assert(covered(old_merged, b));
                            let k2 = choose|k2: int| 0 <= k2 < old_merged.len() && #[trigger] old_merged[k2].0 <= b && b < old_merged[k2].1;
                            assert(merged@[k2] == old_merged[k2]);
                        }
                    }
                }
                assert forall|a: int, c: int| 0 <= a < c < merged@.len() implies (#[trigger] merged@[a]).1 < (#[trigger] merged@[c]).0 by {
                    if c == n {
                        assert(merged@[a] == old_merged[a]);
                        if a < n - 1 {
                            assert(old_merged[a].1 < old_merged[n - 1].0);
                        }
                    } else {
                        assert(old_merged[a].1 < old_merged[c].0);
                    }
                }
            }
        }
        i = i + 1;
    }
    assert(sorted@.take(sorted@.len() as int) =~= sorted@);
    merged
}

/// The UTF-8 encoding of a concatenation is the concatenation of encodings.
pub proof fn lemma_encode_utf8_concat(a: Seq<char>, b: Seq<char>)
    ensures
        encode_utf8(a + b) == encode_utf8(a) + encode_utf8(b),
    decreases a.len(),
{
    if a.len() == 0 {
        assert(a + b =~= b);
        assert(encode_utf8(a) + encode_utf8(b) =~= encode_utf8(b));
    } else {
        lemma_encode_utf8_concat(a.drop_first(), b);
        assert((a + b).drop_first() =~= a.drop_first() + b);
        assert((a + b)[0] == a[0]);
        assert(encode_utf8(a + b) =~= encode_scalar(a[0] as u32) + (encode_utf8(a.drop_first()) + encode_utf8(b)));
    }
}

proof fn lemma_char_offset_step(text: Seq<char>, i: int)
    requires
        0 <= i < text.len(),
    ensures
        char_offset(text, i + 1) == char_offset(text, i) + encode_scalar(text[i] as u32).len(),
        char_offset(text, i + 1) <= encode_utf8(text).len(),
{
    assert(text.take(i + 1) =~= text.take(i) + seq![text[i]]);
    lemma_encode_utf8_concat(text.take(i), seq![text[i]]);
    let single = seq![text[i]];
    assert(single.drop_first() =~= Seq::<char>::empty());
    assert(encode_utf8(single.drop_first()) =~= Seq::<u8>::empty());
    assert(encode_utf8(single) == encode_scalar(single[0] as u32) + encode_utf8(single.drop_first()));
    assert(encode_utf8(single) =~= encode_scalar(text[i] as u32));
    assert(text =~= text.take(i + 1) + text.skip(i + 1));
    lemma_encode_utf8_concat(text.take(i + 1), text.skip(i + 1));
}

/// Number of bytes in the UTF-8 encoding of a character.
fn utf8_width(c: char) -> (n: usize)
    ensures
        n == encode_scalar(c as u32).len(),
{
    proof {
        broadcast use vstd::utf8::char_is_scalar;
    }
    let v = c as u32;
    if v <= 0x7F {
        1
    } else if v <= 0x7FF {
        2
    } else if v <= 0xFFFF {
        3
    } else {
        4
    }
}

/// A range of the same set covers every byte that one of the other set covers.
proof fn lemma_covered_same_ranges(a: Seq<(usize, usize)>, b: Seq<(usize, usize)>, x: int)
    requires
        forall|r: (usize, usize)| a.contains(r) ==> b.contains(r),
        covered(a, x),
    ensures
        covered(b, x),
{
    let k = choose|k: int| 0 <= k < a.len() && #[trigger] a[k].0 <= x && x < a[k].1;
    assert(a.contains(a[k]));
    let k2 = choose|k2: int| 0 <= k2 < b.len() && #[trigger] b[k2] == a[k];
    assert(b[k2].0 <= x && x < b[k2].1);
}

/// Replace every character that starts inside one of the byte ranges with
/// the censor glyph; overlapping and touching ranges act as their union.
pub fn canonicalize_censor_ranges(text: &str, ranges: Vec<(usize, usize)>) -> (canonical: String)
    requires
        ranges_on_boundaries(text@, ranges@),
    ensures
        canonical@ == censored(text@, ranges@),
{
    let ghost given = ranges@;
    let sorted = sort_ranges(ranges);
    assert forall|k: int| 0 <= k < sorted@.len() implies #[trigger] sorted@[k].0 <= sorted@[k].1 by {
        assert(sorted@.contains(sorted@[k]));
        let k2 = choose|k2: int| 0 <= k2 < given.len() && #[trigger] given[k2] == sorted@[k];
        assert(given[k2].0 <= given[k2].1);
    }
    let merged = merge_ranges(&sorted);
    let chars = chars_of(text);
    let total = utf8_bytes(text).len();
    let mut out: Vec<char> = Vec::new();
    let mut offset: usize = 0;
    let mut r: usize = 0;
    let mut i: usize = 0;
    while i < chars.len()
        invariant
            chars@ == text@,
            total == encode_utf8(text@).len(),
            i <= chars@.len(),
            offset == char_offset(text@, i as int),
            r <= merged@.len(),
            separated_ranges(merged@),
            forall|b: int| covered(merged@, b) <==> covered(sorted@, b),
            forall|x: (usize, usize)| sorted@.contains(x) <==> given.contains(x),
            forall|k: int| 0 <= k < r ==> (#[trigger] merged@[k]).1 <= offset,
            out@.len() == i,
            forall|j: int| 0 <= j < i ==> #[trigger] out@[j] == censored(text@, given)[j],
        decreases chars@.len() - i,
    {
        while r < merged.len() && merged[r].1 <= offset
            invariant
                r <= merged@.len(),
                forall|k: int| 0 <= k < r ==> (#[trigger] merged@[k]).1 <= offset,
            decreases merged@.len() - r,
        {
            r = r + 1;
        }
        let c = chars[i];
        let hit = r < merged.len() && merged[r].0 <= offset;
        proof {
            let b = offset as int;
            if covered(merged@, b) {
                let k = choose|k: int| 0 <= k < merged@.len() && #[trigger] merged@[k].0 <= b && b < merged@[k].1;
                if k < r {
                    assert(merged@[k].1 <= offset);
                } else if k > r {
                    assert(merged@[r as int].1 < merged@[k].0);
                }
                assert(hit);
            }
            if hit {
                assert(merged@[r as int].0 <= b && b < merged@[r as int].1);
                assert(covered(merged@, b));
            }
            if covered(sorted@, b) {
                lemma_covered_same_ranges(sorted@, given, b);
            }
            if covered(given, b) {
                lemma_covered_same_ranges(given, sorted@, b);
            }
            assert(hit == covered(given, char_offset(text@, i as int)));
            lemma_char_offset_step(text@, i as int);
        }
        if hit {
            out.push('\u{2587}');
        } else {
            out.push(c);
        }
        offset = offset + utf8_width(c);
        i = i + 1;
    }
    assert(out@ =~= censored(text@, given));
    string_from_chars(&out)
}

/// Censoring depends only on the set of bytes the ranges cover: the order
/// in which matches are reported makes no difference, and the text keeps
/// its length.
pub proof fn lemma_censor_order_irrelevant(text: Seq<char>, a: Seq<(usize, usize)>, b: Seq<(usize, usize)>)
    ensures
        censored(text, a + b) == censored(text, b + a),
        censored(text, a + b).len() == text.len(),
{
    assert forall|x: int| covered(a + b, x) == covered(b + a, x) by {
        if covered(a + b, x) {
            let k = choose|k: int| 0 <= k < (a + b).len() && #[trigger] (a + b)[k].0 <= x && x < (a + b)[k].1;
            if k < a.len() {
                assert((b + a)[b.len() + k] == a[k]);
                assert((b + a)[b.len() + k].0 <= x && x < (b + a)[b.len() + k].1);
            } else {
                assert((b + a)[k - a.len()] == b[k - a.len()]);
                assert((b + a)[k - a.len()].0 <= x && x < (b + a)[k - a.len()].1);
            }
        }
        if covered(b + a, x) {
            let k = choose|k: int| 0 <= k < (b + a).len() && #[trigger] (b + a)[k].0 <= x && x < (b + a)[k].1;
            if k < b.len() {
                assert((a + b)[a.len() + k] == b[k]);
                assert((a + b)[a.len() + k].0 <= x && x < (a + b)[a.len() + k].1);
            } else {
                assert((a + b)[k - b.len()] == a[k - b.len()]);
                assert((a + b)[k - b.len()].0 <= x && x < (a + b)[k - b.len()].1);
            }
        }
    }
    assert(censored(text, a + b) =~= censored(text, b + a));
}

} // verus!
