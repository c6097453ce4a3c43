//! `@handle` mentions in a new thread's body.

use vstd::prelude::*;
use crate::text::str_eq;

verus! {

/// The views of optional strings.
pub open spec fn opt_views(v: Seq<Option<String>>) -> Seq<Option<Seq<char>>> {
    v.map_values(|o: Option<String>| match o {
        Some(s) => Some(s@),
        None => None,
    })
}

/// For each match of the regular expression `pattern` in `text`, in order,
/// the text of capture group `group` (absent when the group took no part),
/// as the `regex` crate computes it; `None` when the crate refuses the pattern.
pub uninterp spec fn regex_group_captures(pattern: Seq<char>, text: Seq<char>, group: int) -> Option<Seq<Option<Seq<char>>>>;

/// Calls `regex::Regex::new` and, when it accepts the pattern,
/// `captures_iter` over the text, taking each match's capture group
/// `group`. The contract claims only that the result is the named function
/// of the pattern, the text and the group.
#[verifier::external_body]
fn regex_captures(pattern: &str, text: &str, group: usize) -> (r: Option<Vec<Option<String>>>)
    ensures
        match r {
            Some(v) => regex_group_captures(pattern@, text@, group as int) == Some(opt_views(v@)),
            None => regex_group_captures(pattern@, text@, group as int) is None,
        },
{
    regex::Regex::new(pattern).ok().map(|re| re.captures_iter(text).map(|c| c.get(group).map(|m| m.as_str().to_string())).collect())
}

/// A mention: `@` followed by letters, digits, `_` and `-`.
pub open spec fn mention_pattern() -> Seq<char> {
    "@([\\p{L}\\p{N}_-]+)"@
}

/// The handles to notify: the captured handles other than the author's
/// own, at most ten, in order of appearance.
pub open spec fn spec_select_mentions(captures: Seq<Option<Seq<char>>>, own_handle: Seq<char>) -> Seq<Seq<char>>
    decreases captures.len(),
{
    if captures.len() == 0 {
        Seq::empty()
    } else {
        let before = spec_select_mentions(captures.drop_last(), own_handle);
        match captures.last() {
            Some(h) => if h != own_handle && before.len() < 10 {
                before.push(h)
            } else {
                before
            },
            None => before,
        }
    }
}

pub fn select_mention_handles(captures: &Vec<Option<String>>, own_handle: &str) -> (r: Vec<String>)
    ensures
        crate::watched_words::string_views(r@) == spec_select_mentions(opt_views(captures@), own_handle@),
{
    let mut out: Vec<String> = Vec::new();
    let mut i: usize = 0;
    while i < captures.len()
        invariant
            i <= captures@.len(),
            crate::watched_words::string_views(out@) == spec_select_mentions(opt_views(captures@.take(i as int)), own_handle@),
        decreases captures.len() - i,
    {
        proof {
            assert(opt_views(captures@.take(i as int + 1)).drop_last() =~= opt_views(captures@.take(i as int)));
        }
        let ghost before = out@;
        match &captures[i] {
            Some(h) => {
                if !str_eq(h.as_str(), own_handle) && out.len() < 10 {
                    out.push(h.clone());
                    assert(crate::watched_words::string_views(out@) =~= crate::watched_words::string_views(before).push(h@));
                }
            },
            None => {},
        }
        i = i + 1;
    }
    assert(captures@.take(captures@.len() as int) =~= captures@);
    out
}

/// The handles a new thread's body mentions (see [`spec_select_mentions`]).
pub fn thread_mention_handles(body: &str, own_handle: &str) -> (r: Vec<String>)
    ensures
        match regex_group_captures(mention_pattern(), body@, 1) {
            Some(caps) => crate::watched_words::string_views(r@) == spec_select_mentions(caps, own_handle@),
            None => r@.len() == 0,
        },
{
    match regex_captures("@([\\p{L}\\p{N}_-]+)", body, 1) {
        Some(caps) => select_mention_handles(&caps, own_handle),
        None => Vec::new(),
    }
}

} // verus!
