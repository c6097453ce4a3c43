//! Watched-word moderation: every overlapping occurrence of a watched word
//! is looked up in the word list, and the actions combine with
//! `block > queue > censor` precedence.

use vstd::prelude::*;
use vstd::utf8::{encode_utf8, is_char_boundary};
use crate::censor::{canonicalize_censor_ranges, censored, ranges_on_boundaries};
use crate::codec::utf8_bytes;
use crate::error::{is_bad_request, ForumError};
use crate::text::str_eq;

verus! {

broadcast use vstd::utf8::encode_utf8_valid_utf8;

/// The match names one of the patterns, and its byte span of the text holds
/// exactly that pattern's UTF-8 bytes.
pub open spec fn is_occurrence(patterns: Seq<Seq<char>>, text: Seq<char>, m: (usize, usize, usize)) -> bool {
    &&& (m.0 as int) < patterns.len()
    &&& m.1 <= m.2 <= encode_utf8(text).len()
    &&& encode_utf8(text).subrange(m.1 as int, m.2 as int) == encode_utf8(patterns[m.0 as int])
}

/// No watched word is empty.
pub open spec fn all_nonempty(words: Seq<Seq<char>>) -> bool {
    forall|i: int| 0 <= i < words.len() ==> #[trigger] words[i].len() > 0
}

/// A valid UTF-8 sequence that starts with a valid UTF-8 prefix has a
/// character boundary where the prefix ends.
proof fn lemma_prefix_end_is_boundary(p: Seq<u8>, r: Seq<u8>)
    requires
        vstd::utf8::valid_utf8(p),
        vstd::utf8::valid_utf8(p + r),
    ensures
        is_char_boundary(p + r, p.len() as int),
    decreases p.len(),
{
    let q = p + r;
    if p.len() == 0 {
        assert(q =~= r);
    } else {
        assert(q[0] == p[0]);
        let len = vstd::utf8::length_of_first_scalar(p);
        assert(vstd::utf8::length_of_first_scalar(q) == len);
        assert(vstd::utf8::pop_first_scalar(q) =~= vstd::utf8::pop_first_scalar(p) + r);
        lemma_prefix_end_is_boundary(vstd::utf8::pop_first_scalar(p), r);
    }
}

/// An occurrence of a non-empty string's bytes in a string's bytes starts
/// and ends on character boundaries.
proof fn lemma_occurrence_on_boundaries(t: Seq<u8>, p: Seq<u8>, s: int, e: int)
    requires
        vstd::utf8::valid_utf8(t),
        vstd::utf8::valid_utf8(p),
        p.len() > 0,
        0 <= s <= e <= t.len(),
        t.subrange(s, e) == p,
    ensures
        is_char_boundary(t, s),
        is_char_boundary(t, e),
{
    broadcast use vstd::utf8::is_char_boundary_start_end_of_seq,
        vstd::utf8::is_char_boundary_iff_not_is_continuation_byte;
    assert(t[s] == p[0]);
    assert(is_char_boundary(p, 0));
    assert(!vstd::utf8::is_continuation_byte(p[0]));
    assert(!vstd::utf8::is_continuation_byte(t[s]));
    assert(is_char_boundary(t, s));
    let rest = t.subrange(s, t.len() as int);
    vstd::utf8::valid_utf8_split(t, s);
    assert(rest =~= p + t.subrange(e, t.len() as int));
    lemma_prefix_end_is_boundary(p, t.subrange(e, t.len() as int));
    if e < t.len() {
        assert(rest[p.len() as int] == t[e]);
        assert(is_char_boundary(rest, p.len() as int));
        assert(!vstd::utf8::is_continuation_byte(rest[p.len() as int]));
        assert(!vstd::utf8::is_continuation_byte(t[e]));
        assert(is_char_boundary(t, e));
    }
}

/// The views of a list of strings.
pub open spec fn string_views(v: Seq<String>) -> Seq<Seq<char>> {
    v.map_values(|s: String| s@)
}

/// Whether `aho_corasick::AhoCorasick::new` accepts these patterns (it
/// refuses pattern sets whose automaton would exceed its size limits).
pub uninterp spec fn aho_corasick_builds(patterns: Seq<Seq<char>>) -> bool;

/// The overlapping matches, as (pattern index, start byte, end byte), that
/// an automaton built from the patterns reports on the text, in its order.
pub uninterp spec fn aho_corasick_overlapping(patterns: Seq<Seq<char>>, text: Seq<char>) -> Seq<(usize, usize, usize)>;

/// Calls `aho_corasick::AhoCorasick::new` on the patterns; the contract
/// claims that it succeeds exactly for the pattern sets the crate accepts,
/// a function of the patterns alone. The error is turned into its text.
#[verifier::external_body]
fn aho_corasick_build(patterns: &Vec<String>) -> (r: Result<(), String>)
    ensures
        r is Ok <==> aho_corasick_builds(string_views(patterns@)),
{
    aho_corasick::AhoCorasick::new(patterns).map(|_| ()).map_err(|e| e.to_string())
}

/// Builds the automaton (which succeeds, by the `requires`) and collects
/// `find_overlapping_iter` over the text. The default `MatchKind::Standard`
/// supports overlapping search, so the search does not panic. The contract
/// claims that the result is the named function of the patterns and the
/// text, and what the crate documents of each `Match`: its pattern id names
/// one of the patterns, and its byte span `start..end` of the text holds
/// exactly that pattern's bytes.
#[verifier::external_body]
fn aho_corasick_find_overlapping(patterns: &Vec<String>, text: &str) -> (m: Vec<(usize, usize, usize)>)
    requires
        aho_corasick_builds(string_views(patterns@)),
    ensures
        m@ == aho_corasick_overlapping(string_views(patterns@), text@),
        forall|i: int| 0 <= i < m@.len() ==> #[trigger] is_occurrence(string_views(patterns@), text@, m@[i]),
{
    let matcher = aho_corasick::AhoCorasick::new(patterns).expect("pattern set was accepted");
    matcher.find_overlapping_iter(text).map(|m| (m.pattern().as_usize(), m.start(), m.end())).collect()
}

/// The watched-word list: each word with its action, in load order.
pub struct WatchedWords {
    words: Vec<String>,
    actions: Vec<String>,
}

/// The text after moderation, and whether it must wait for staff review.
pub struct ModeratedText {
    pub canonical: String,
    pub is_queued: bool,
}

impl WatchedWords {
    #[verifier::type_invariant]
    spec fn well_formed(self) -> bool {
        &&& self.words@.len() == self.actions@.len()
        &&& aho_corasick_builds(string_views(self.words@))
    }

    pub closed spec fn words(self) -> Seq<Seq<char>> {
        string_views(self.words@)
    }

    pub closed spec fn actions(self) -> Seq<Seq<char>> {
        string_views(self.actions@)
    }

    /// Load the (word, action) rows; refused when the matcher cannot be
    /// built from the words.
    pub fn new(rows: Vec<(String, String)>) -> (r: Result<WatchedWords, ForumError>)
        ensures
            r is Ok <==> aho_corasick_builds(string_views(rows@.map_values(|row: (String, String)| row.0))),
            r matches Ok(w) ==> w.words() == string_views(rows@.map_values(|row: (String, String)| row.0))
                && w.actions() == string_views(rows@.map_values(|row: (String, String)| row.1)),
            r matches Err(e) ==> e is Internal && e->Internal_0@.take(29) == "failed to build AhoCorasick: "@,
    {
        let ghost all = rows@;
        let mut words: Vec<String> = Vec::new();
        let mut actions: Vec<String> = Vec::new();
        let mut rest = rows;
        while rest.len() > 0
            invariant
                words@.len() + rest@.len() == all.len(),
                words@.len() == actions@.len(),
                forall|j: int| 0 <= j < words@.len() ==> #[trigger] words@[j] == all[j].0,
                forall|j: int| 0 <= j < actions@.len() ==> #[trigger] actions@[j] == all[j].1,
                forall|j: int| 0 <= j < rest@.len() ==> #[trigger] rest@[j] == all[j + words@.len()],
            decreases rest@.len(),
        {
            let (w, a) = rest.remove(0);
            words.push(w);
            actions.push(a);
        }
        assert(words@ =~= all.map_values(|row: (String, String)| row.0));
        assert(actions@ =~= all.map_values(|row: (String, String)| row.1));
        match aho_corasick_build(&words) {
            Ok(()) => Ok(WatchedWords { words, actions }),
            Err(e) => {
                let mut message = String::from_str("failed to build AhoCorasick: ");
                message.append(e.as_str());
                proof {
                    reveal_strlit("failed to build AhoCorasick: ");
                    assert("failed to build AhoCorasick: "@.len() == 29);
                    assert(message@.take(29) =~= "failed to build AhoCorasick: "@);
                }
                Err(ForumError::Internal(message))
            },
        }
    }
}

/// The action of the last word whose UTF-8 bytes are exactly `key` (the
/// word list is loaded into a map, so a later row overrides an earlier one).
pub open spec fn action_for(words: Seq<Seq<char>>, actions: Seq<Seq<char>>, key: Seq<u8>) -> Option<Seq<char>>
    decreases words.len(),
{
    if words.len() == 0 {
        None
    } else if encode_utf8(words.last()) == key {
        Some(actions[words.len() - 1])
    } else {
        action_for(words.drop_last(), actions, key)
    }
}

/// The bytes of the text that a match spans.
pub open spec fn match_key(text: Seq<char>, m: (usize, usize, usize)) -> Seq<u8> {
    encode_utf8(text).subrange(m.1 as int, m.2 as int)
}

pub open spec fn match_action(words: Seq<Seq<char>>, actions: Seq<Seq<char>>, text: Seq<char>, m: (usize, usize, usize)) -> Option<Seq<char>> {
    action_for(words, actions, match_key(text, m))
}

/// Every match spans whole characters of the text (slicing the text at a
/// match panics otherwise).
pub open spec fn matches_on_boundaries(text: Seq<char>, ms: Seq<(usize, usize, usize)>) -> bool {
    forall|i: int| 0 <= i < ms.len() ==> {
        &&& #[trigger] ms[i].1 <= ms[i].2
        &&& is_char_boundary(encode_utf8(text), ms[i].1 as int)
        &&& is_char_boundary(encode_utf8(text), ms[i].2 as int)
    }
}

/// Some match carries the action `a`.
pub open spec fn has_action(words: Seq<Seq<char>>, actions: Seq<Seq<char>>, text: Seq<char>, ms: Seq<(usize, usize, usize)>, a: Seq<char>) -> bool {
    exists|i: int| 0 <= i < ms.len() && #[trigger] match_action(words, actions, text, ms[i]) == Some(a)
}

/// The byte ranges of the matches whose action is `censor`, in match order.
pub open spec fn censor_ranges(words: Seq<Seq<char>>, actions: Seq<Seq<char>>, text: Seq<char>, ms: Seq<(usize, usize, usize)>) -> Seq<(usize, usize)>
    decreases ms.len(),
{
    if ms.len() == 0 {
        Seq::empty()
    } else {
        let rest = censor_ranges(words, actions, text, ms.drop_last());
        if match_action(words, actions, text, ms.last()) == Some("censor"@) {
            rest.push((ms.last().1, ms.last().2))
        } else {
            rest
        }
    }
}

/// Whether byte `i` of a valid UTF-8 sequence starts a character (or is its end).
fn byte_is_char_boundary(bytes: &[u8], i: usize) -> (r: bool)
    requires
        vstd::utf8::valid_utf8(bytes@),
    ensures
        r == is_char_boundary(bytes@, i as int),
{
    proof {
        broadcast use vstd::utf8::is_char_boundary_start_end_of_seq,
            vstd::utf8::is_char_boundary_iff_not_is_continuation_byte;
    }
    if i == bytes.len() {
        assert(is_char_boundary(bytes@, bytes@.len() as int));
        true
    } else if i > bytes.len() {
        assert(!is_char_boundary(bytes@, i as int));
        false
    } else {
        assert(is_char_boundary(bytes@, i as int) <==> !vstd::utf8::is_continuation_byte(bytes@[i as int]));
        !(0x80 <= bytes[i] && bytes[i] <= 0xbf)
    }
}

/// Whether `word` equals the bytes `text[s..e]`.
fn bytes_match(word: &[u8], text: &[u8], s: usize, e: usize) -> (r: bool)
    requires
        s <= e <= text@.len(),
    ensures
        r == (word@ == text@.subrange(s as int, e as int)),
{
    if word.len() != e - s {
        return false;
    }
    let mut k: usize = 0;
    while k < word.len()
        invariant
            word@.len() == e - s,
            s <= e <= text@.len(),
            k <= word@.len(),
            forall|j: int| 0 <= j < k ==> word@[j] == text@[s + j],
        decreases word.len() - k,
    {
        if word[k] != text[s + k] {
            return false;
        }
        k = k + 1;
    }
    assert(word@ =~= text@.subrange(s as int, e as int));
    true
}

impl WatchedWords {
    /// The index of the row whose action applies to the bytes `text[s..e]`.
    fn lookup(&self, text: &[u8], s: usize, e: usize) -> (r: Option<usize>)
        requires
            s <= e <= text@.len(),
        ensures
            match r {
                Some(k) => k < self.actions().len() && action_for(self.words(), self.actions(), text@.subrange(s as int, e as int)) == Some(self.actions()[k as int]),
                None => action_for(self.words(), self.actions(), text@.subrange(s as int, e as int)) is None,
            },
    {
        proof {
            use_type_invariant(self);
        }
        let ghost key = text@.subrange(s as int, e as int);
        let mut k: usize = self.words.len();
        assert(self.words().take(k as int) =~= self.words());
        while k > 0
            invariant
                s <= e <= text@.len(),
                key == text@.subrange(s as int, e as int),
                k <= self.words@.len(),
                self.words@.len() == self.actions@.len(),
                action_for(self.words(), self.actions(), key) == action_for(self.words().take(k as int), self.actions(), key),
            decreases k,
        {
            let ghost prefix = self.words().take(k as int);
            assert(prefix.last() == self.words@[k - 1]@);
            assert(prefix.drop_last() =~= self.words().take(k - 1));
            if bytes_match(utf8_bytes(self.words[k - 1].as_str()), text, s, e) {
                return Some(k - 1);
            }
            k = k - 1;
        }
        assert(self.words().take(0) =~= Seq::<Seq<char>>::empty());
        None
    }
}

/// Moderate a text given the watched-word matches found in it: a `block`
/// action refuses the text, a `queue` action holds it for review, and the
/// characters of `censor` matches are hidden.
pub fn moderate_matches(words: &WatchedWords, text: &str, matches: &Vec<(usize, usize, usize)>) -> (r: Result<ModeratedText, ForumError>)
    requires
        matches_on_boundaries(text@, matches@),
    ensures
        r is Err <==> has_action(words.words(), words.actions(), text@, matches@, "block"@),
        r matches Err(e) ==> is_bad_request(e, "content contains blocked words"@),
        r matches Ok(m) ==> m.is_queued == has_action(words.words(), words.actions(), text@, matches@, "queue"@)
            && m.canonical@ == censored(text@, censor_ranges(words.words(), words.actions(), text@, matches@)),
{
    proof {
        reveal_strlit("block");
        assert("block"@ =~= seq!['b', 'l', 'o', 'c', 'k']);
        reveal_strlit("queue");
        assert("queue"@ =~= seq!['q', 'u', 'e', 'u', 'e']);
    }
    let bytes = utf8_bytes(text);
    let ghost w = words.words();
    let ghost a = words.actions();
    let mut blocked = false;
    let mut queued = false;
    let mut ranges: Vec<(usize, usize)> = Vec::new();
    let mut i: usize = 0;
    while i < matches.len()
        invariant
            bytes@ == encode_utf8(text@),
            w == words.words(),
            a == words.actions(),
            i <= matches@.len(),
            matches_on_boundaries(text@, matches@),
            blocked == has_action(w, a, text@, matches@.take(i as int), "block"@),
            queued == has_action(w, a, text@, matches@.take(i as int), "queue"@),
            ranges@ == censor_ranges(w, a, text@, matches@.take(i as int)),
            ranges_on_boundaries(text@, ranges@),
        decreases matches.len() - i,
    {
        let (_, s, e) = matches[i];
        let ghost m = matches@[i as int];
        let ghost pre = matches@.take(i as int);
        let ghost post = matches@.take(i as int + 1);
        proof {
            assert(post.drop_last() =~= pre);
            assert(post.last() == m);
            assert(s <= e && is_char_boundary(encode_utf8(text@), e as int));
            if e > bytes@.len() {
                assert(!is_char_boundary(encode_utf8(text@), e as int));
            }
        }
        let found = words.lookup(bytes, s, e);
        let mut is_block = false;
        let mut is_queue = false;
        let mut is_censor = false;
        match found {
            Some(k) => {
                is_block = str_eq(words.actions[k].as_str(), "block");
                is_queue = str_eq(words.actions[k].as_str(), "queue");
                is_censor = str_eq(words.actions[k].as_str(), "censor");
            },
            None => {},
        }
        proof {
            let act = match_action(w, a, text@, m);
            assert(match_key(text@, m) == bytes@.subrange(s as int, e as int));
            assert(is_block == (act == Some("block"@)));
            assert(is_queue == (act == Some("queue"@)));
            assert(is_censor == (act == Some("censor"@)));
            assert forall|x: Seq<char>| has_action(w, a, text@, post, x) == (has_action(w, a, text@, pre, x) || act == Some(x)) by {
                if has_action(w, a, text@, post, x) {
                    let j = choose|j: int| 0 <= j < post.len() && #[trigger] match_action(w, a, text@, post[j]) == Some(x);
                    if j < i {
                        assert(pre[j] == post[j]);
                    }
                }
                if has_action(w, a, text@, pre, x) {
                    let j = choose|j: int| 0 <= j < pre.len() && #[trigger] match_action(w, a, text@, pre[j]) == Some(x);
                    assert(post[j] == pre[j]);
                }
                if act == Some(x) {
                    assert(post[i as int] == m);
                }
            }
        }
        blocked = blocked || is_block;
        queued = queued || is_queue;
        if is_censor {
            ranges.push((s, e));
        }
        i = i + 1;
    }
    assert(matches@.take(matches@.len() as int) =~= matches@);
    if blocked {
        return Err(ForumError::BadRequest(String::from_str("content contains blocked words")));
    }
    let canonical = canonicalize_censor_ranges(text, ranges);
    Ok(ModeratedText { canonical, is_queued: queued })
}

/// Whether every match spans whole characters of the text.
fn all_on_boundaries(bytes: &[u8], text: Ghost<Seq<char>>, ms: &Vec<(usize, usize, usize)>) -> (r: bool)
    requires
        bytes@ == encode_utf8(text@),
    ensures
        r == matches_on_boundaries(text@, ms@),
{
    let mut i: usize = 0;
    while i < ms.len()
        invariant
            bytes@ == encode_utf8(text@),
            i <= ms@.len(),
            forall|j: int| 0 <= j < i ==> {
                &&& #[trigger] ms@[j].1 <= ms@[j].2
                &&& is_char_boundary(encode_utf8(text@), ms@[j].1 as int)
                &&& is_char_boundary(encode_utf8(text@), ms@[j].2 as int)
            },
        decreases ms.len() - i,
    {
        let (_, s, e) = ms[i];
        if !(s <= e && byte_is_char_boundary(bytes, s) && byte_is_char_boundary(bytes, e)) {
            assert(!({
                &&& ms@[i as int].1 <= ms@[i as int].2
                &&& is_char_boundary(encode_utf8(text@), ms@[i as int].1 as int)
                &&& is_char_boundary(encode_utf8(text@), ms@[i as int].2 as int)
            }));
            return false;
        }
        assert(ms@[i as int].1 <= ms@[i as int].2);
        assert(is_char_boundary(encode_utf8(text@), ms@[i as int].1 as int));
        assert(is_char_boundary(encode_utf8(text@), ms@[i as int].2 as int));
        i = i + 1;
    }
    true
}

/// Moderate a text against the watched words: find every overlapping
/// occurrence with the word list's matcher, then apply
/// [`moderate_matches`]. When no watched word is empty every occurrence
/// spans whole characters; a match that does not (which only an empty
/// watched word can produce) is reported as an internal error.
pub fn moderate_text(words: &WatchedWords, text: &str) -> (r: Result<ModeratedText, ForumError>)
    ensures
        ({
            let ms = aho_corasick_overlapping(words.words(), text@);
            &&& all_nonempty(words.words()) ==> matches_on_boundaries(text@, ms)
            &&& matches_on_boundaries(text@, ms) ==> {
                &&& r is Err <==> has_action(words.words(), words.actions(), text@, ms, "block"@)
                &&& r matches Err(e) ==> is_bad_request(e, "content contains blocked words"@)
                &&& r matches Ok(m) ==> m.is_queued == has_action(words.words(), words.actions(), text@, ms, "queue"@)
                    && m.canonical@ == censored(text@, censor_ranges(words.words(), words.actions(), text@, ms))
            }
            &&& !matches_on_boundaries(text@, ms) ==> (r matches Err(e) && e is Internal)
        }),
{
    proof {
        use_type_invariant(words);
    }
    let ms = aho_corasick_find_overlapping(&words.words, text);
    proof {
        let w = words.words();
        if all_nonempty(w) {
            assert forall|i: int| 0 <= i < ms@.len() implies {
                &&& #[trigger] ms@[i].1 <= ms@[i].2
                &&& is_char_boundary(encode_utf8(text@), ms@[i].1 as int)
                &&& is_char_boundary(encode_utf8(text@), ms@[i].2 as int)
            } by {
                assert(is_occurrence(w, text@, ms@[i]));
                let word = w[ms@[i].0 as int];
                assert(word.len() > 0);
                assert(encode_utf8(word) =~= vstd::utf8::encode_scalar(word[0] as u32) + encode_utf8(word.drop_first()));
                assert(encode_utf8(word).len() > 0);
                lemma_occurrence_on_boundaries(encode_utf8(text@), encode_utf8(word), ms@[i].1 as int, ms@[i].2 as int);
            }
        }
    }
    if all_on_boundaries(utf8_bytes(text), Ghost(text@), &ms) {
        moderate_matches(words, text, &ms)
    } else {
        Err(ForumError::Internal(String::from_str("watched word match splits a character")))
    }
}

} // verus!
