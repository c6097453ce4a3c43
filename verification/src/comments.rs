//! Nested comment (楼中楼) paths and the rules for creating and editing comments.

use vstd::prelude::*;
use crate::number::{hex4_chars, hex4_text, lemma_parse_hex4_text, parse_hex_u32_chars, spec_parse_hex_u32};

verus! {

/// The text up to (not including) the first `.`, or the whole text.
pub open spec fn first_segment(s: Seq<char>) -> Seq<char>
    decreases s.len(),
{
    if s.len() == 0 {
        s
    } else if s[0] == '.' {
        Seq::empty()
    } else {
        seq![s[0]] + first_segment(s.drop_first())
    }
}

/// The prefix a child path of `parent` starts with.
pub open spec fn child_prefix(parent: Seq<char>) -> Seq<char> {
    if parent.len() == 0 {
        Seq::empty()
    } else {
        parent.push('.')
    }
}

/// The sibling index that follows the greatest child path under `parent`:
/// the first hex segment after the parent prefix, plus one (saturating), or
/// 1 when there is no child yet or the segment is not hex.
pub open spec fn spec_next_sibling_index(max_child_path: Seq<char>, parent_path: Seq<char>) -> u32 {
    if max_child_path.len() == 0 || max_child_path == parent_path {
        1
    } else {
        let prefix = child_prefix(parent_path);
        let suffix = if prefix.is_prefix_of(max_child_path) {
            max_child_path.skip(prefix.len() as int)
        } else {
            max_child_path
        };
        match spec_parse_hex_u32(first_segment(suffix)) {
            Ok(v) => if v == u32::MAX { u32::MAX } else { (v + 1) as u32 },
            Err(_) => 1,
        }
    }
}

/// The path of the child with the given index: `{index:04x}` at the top
/// level, `{parent}.{index:04x}` below a comment.
pub open spec fn spec_child_path(parent_path: Seq<char>, index: u32) -> Seq<char> {
    child_prefix(parent_path) + hex4_text(index as nat)
}

fn first_segment_exec(s: &Vec<char>, start: usize) -> (r: Vec<char>)
    requires
        start <= s@.len(),
    ensures
        r@ == first_segment(s@.skip(start as int)),
{
    let mut r: Vec<char> = Vec::new();
    let mut i = start;
    while i < s.len() && s[i] != '.'
        invariant
            start <= i <= s@.len(),
            r@ + first_segment(s@.skip(i as int)) == first_segment(s@.skip(start as int)),
        decreases s.len() - i,
    {
        let ghost rest = s@.skip(i as int);
        assert(rest.drop_first() =~= s@.skip(i as int + 1));
        assert(first_segment(rest) == seq![s@[i as int]] + first_segment(rest.drop_first()));
        r.push(s[i]);
        i = i + 1;
        assert(r@ + first_segment(s@.skip(i as int)) =~= first_segment(s@.skip(start as int)));
    }
    assert(first_segment(s@.skip(i as int)) =~= Seq::<char>::empty());
    assert(r@ + Seq::<char>::empty() =~= r@);
    r
}

fn seq_equal(a: &Vec<char>, b: &Vec<char>) -> (r: bool)
    ensures
        r == (a@ == b@),
{
    if a.len() != b.len() {
        return false;
    }
    let mut i: usize = 0;
    while i < a.len()
        invariant
            a@.len() == b@.len(),
            i <= a@.len(),
            forall|j: int| 0 <= j < i ==> a@[j] == b@[j],
        decreases a.len() - i,
    {
        if a[i] != b[i] {
            return false;
        }
        i = i + 1;
    }
    assert(a@ =~= b@);
    true
}

fn starts_with_prefix(s: &Vec<char>, p: &Vec<char>) -> (r: bool)
    ensures
        r == p@.is_prefix_of(s@),
{
    if p.len() > s.len() {
        return false;
    }
    let mut i: usize = 0;
    while i < p.len()
        invariant
            p@.len() <= s@.len(),
            i <= p@.len(),
            forall|j: int| 0 <= j < i ==> p@[j] == s@[j],
        decreases p.len() - i,
    {
        if p[i] != s[i] {
            return false;
        }
        i = i + 1;
    }
    assert(p@ =~= s@.take(p@.len() as int));
    true
}

fn child_prefix_exec(parent: &Vec<char>) -> (r: Vec<char>)
    ensures
        r@ == child_prefix(parent@),
{
    let mut r: Vec<char> = Vec::new();
    if parent.len() == 0 {
        return r;
    }
    let mut i: usize = 0;
    while i < parent.len()
        invariant
            i <= parent@.len(),
            r@ == parent@.take(i as int),
        decreases parent.len() - i,
    {
        r.push(parent[i]);
        i = i + 1;
        assert(r@ =~= parent@.take(i as int));
    }
    r.push('.');
    assert(r@ =~= parent@.push('.'));
    r
}

/// Compute the next sibling index from the max child path.
///
/// Given a max child path like "0003.0007" and parent path "0003", returns 8.
pub fn next_sibling_index(max_child_path: &str, parent_path: &str) -> (r: u32)
    ensures
        r == spec_next_sibling_index(max_child_path@, parent_path@),
        r >= 1,
{
    let max = crate::text::chars_of(max_child_path);
    let parent = crate::text::chars_of(parent_path);
    if max.len() == 0 || seq_equal(&max, &parent) {
        return 1;
    }
    let prefix = child_prefix_exec(&parent);
    let start: usize = if starts_with_prefix(&max, &prefix) { prefix.len() } else { 0 };
    assert(max@.skip(0) =~= max@);
    let last = first_segment_exec(&max, start);
    match parse_hex_u32_chars(&last) {
        Ok(v) => v.saturating_add(1),
        Err(_) => 1,
    }
}

/// The materialized path of a new comment: the next index below `parent_path`
/// (empty for a top-level comment) after the current greatest child path.
pub fn new_comment_path(parent_path: &str, max_child_path: &str) -> (r: String)
    ensures
        r@ == spec_child_path(parent_path@, spec_next_sibling_index(max_child_path@, parent_path@)),
{
    let index = next_sibling_index(max_child_path, parent_path);
    let parent = crate::text::chars_of(parent_path);
    let mut path = child_prefix_exec(&parent);
    let digits = hex4_chars(index);
    let ghost before = path@;
    let mut i: usize = 0;
    while i < digits.len()
        invariant
            i <= digits@.len(),
            path@ == before + digits@.take(i as int),
        decreases digits.len() - i,
    {
        path.push(digits[i]);
        i = i + 1;
        assert(path@ =~= before + digits@.take(i as int));
    }
    assert(digits@.take(digits@.len() as int) =~= digits@);
    crate::text::string_from_chars(&path)
}

proof fn lemma_first_segment_no_dot(s: Seq<char>)
    requires
        forall|i: int| 0 <= i < s.len() ==> #[trigger] s[i] != '.',
    ensures
        first_segment(s) == s,
    decreases s.len(),
{
    if s.len() > 0 {
        assert forall|i: int| 0 <= i < s.drop_first().len() implies #[trigger] s.drop_first()[i] != '.' by {
            assert(s.drop_first()[i] == s[i + 1]);
        }
        lemma_first_segment_no_dot(s.drop_first());
        assert(seq![s[0]] + s.drop_first() =~= s);
    }
}

/// A new comment placed after the sibling at index `i` gets index `i + 1`
/// (saturating at the largest 32-bit index): the index read back from a
/// child path is the index it was written with. A parent without children
/// gives its first child index 1.
pub proof fn lemma_next_sibling_follows(parent_path: Seq<char>, i: u32)
    ensures
        spec_next_sibling_index(spec_child_path(parent_path, i), parent_path)
            == (if i == u32::MAX { u32::MAX } else { (i + 1) as u32 }),
        spec_child_path(parent_path, spec_next_sibling_index(spec_child_path(parent_path, i), parent_path))
            == spec_child_path(parent_path, (if i == u32::MAX { u32::MAX } else { (i + 1) as u32 })),
        spec_next_sibling_index(Seq::empty(), parent_path) == 1,
        spec_next_sibling_index(spec_child_path(parent_path, i), parent_path) >= 1,
{
    let h = hex4_text(i as nat);
    lemma_parse_hex4_text(i);
    let path = spec_child_path(parent_path, i);
    let prefix = child_prefix(parent_path);
    assert(path.len() == prefix.len() + h.len());
    assert(path != parent_path);
    assert(prefix.is_prefix_of(path)) by {
        assert(path.take(prefix.len() as int) =~= prefix);
    }
    assert(path.skip(prefix.len() as int) =~= h);
    lemma_first_segment_no_dot(h);
}

} // verus!
