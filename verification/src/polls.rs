//! Polls: the results view, and how a vote replaces earlier ones.

use vstd::prelude::*;
use crate::dto::{opt_i64_int, opt_seconds, opt_unix_seconds};
use crate::number::{decimal_text, i64_to_string};
use crate::queries::PollOptionRow;

verus! {

/// A poll as stored.
pub struct PollRow {
    pub id: i64,
    pub question: String,
    pub multi_select: bool,
    pub closes_at_micros: Option<i64>,
}

/// One option in the results.
pub struct PollOptionDto {
    pub id: String,
    pub label: String,
    pub vote_count: i32,
    pub position: i32,
}

/// A poll's results, with the viewer's own choices.
pub struct PollDto {
    pub id: String,
    pub question: String,
    pub multi_select: bool,
    pub closes_at: Option<i64>,
    pub options: Vec<PollOptionDto>,
    pub my_votes: Vec<String>,
}

pub open spec fn is_option_dto_of(d: PollOptionDto, o: PollOptionRow) -> bool {
    d.id@ == decimal_text(o.id as int) && d.label@ == o.label@ && d.vote_count == o.vote_count && d.position == o.position
}

/// The results view: ids as text, the closing instant in seconds, options
/// and the viewer's votes in stored order.
pub fn poll_dto(poll: &PollRow, options: &Vec<PollOptionRow>, my_votes: &Vec<i64>) -> (d: PollDto)
    ensures
        d.id@ == decimal_text(poll.id as int),
        d.question@ == poll.question@,
        d.multi_select == poll.multi_select,
        opt_i64_int(d.closes_at) == opt_seconds(poll.closes_at_micros),
        d.options@.len() == options@.len(),
        forall|i: int| 0 <= i < options@.len() ==> is_option_dto_of(#[trigger] d.options@[i], options@[i]),
        d.my_votes@.len() == my_votes@.len(),
        forall|i: int| 0 <= i < my_votes@.len() ==> (#[trigger] d.my_votes@[i])@ == decimal_text(my_votes@[i] as int),
{
    let mut out: Vec<PollOptionDto> = Vec::new();
    let mut i: usize = 0;
    while i < options.len()
        invariant
            i <= options@.len(),
            out@.len() == i,
            forall|j: int| 0 <= j < i ==> is_option_dto_of(#[trigger] out@[j], options@[j]),
        decreases options.len() - i,
    {
        let o = &options[i];
        out.push(PollOptionDto { id: i64_to_string(o.id), label: o.label.clone(), vote_count: o.vote_count, position: o.position });
        i = i + 1;
    }
    let mut votes: Vec<String> = Vec::new();
    let mut k: usize = 0;
    while k < my_votes.len()
        invariant
            k <= my_votes@.len(),
            votes@.len() == k,
            forall|j: int| 0 <= j < k ==> (#[trigger] votes@[j])@ == decimal_text(my_votes@[j] as int),
        decreases my_votes.len() - k,
    {
        votes.push(i64_to_string(my_votes[k]));
        k = k + 1;
    }
    PollDto {
        id: i64_to_string(poll.id),
        question: poll.question.clone(),
        multi_select: poll.multi_select,
        closes_at: opt_unix_seconds(poll.closes_at_micros),
        options: out,
        my_votes: votes,
    }
}

/// On a single-choice poll a vote first withdraws the voter's other votes.
pub fn vote_replaces_previous(multi_select: bool) -> (b: bool)
    ensures
        b == !multi_select,
{
    !multi_select
}

} // verus!
