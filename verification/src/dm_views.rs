//! The API views of conversations and message reports.

use vstd::prelude::*;
use crate::dto::{clone_opt_string, opt_i64_int, opt_id_string, opt_seconds, opt_unix_seconds, spec_unix_seconds, unix_seconds};
use crate::number::{decimal_text, i64_to_string};
use crate::text::opt_string_view;

verus! {

/// A conversation in the participant's list, with its participant-local state.
pub struct DmConversationListRow {
    pub id: i64,
    pub other_account_id: i64,
    pub other_handle: String,
    pub other_avatar_url: Option<String>,
    pub last_message_excerpt: Option<String>,
    pub last_message_at_micros: i64,
    pub unread_count: i64,
    pub is_archived: bool,
    pub is_muted: bool,
    pub is_deleted: bool,
    pub created_at_micros: i64,
}

/// A conversation as listed.
pub struct DmConversationDto {
    pub id: String,
    pub participant_id: String,
    pub participant_handle: String,
    pub participant_avatar_url: Option<String>,
    pub last_message_excerpt: Option<String>,
    pub last_message_at: i64,
    pub unread_count: i64,
    pub is_archived: bool,
    pub is_muted: bool,
    pub is_deleted: bool,
    pub created_at: i64,
}

pub fn conversation_to_dto(row: &DmConversationListRow) -> (d: DmConversationDto)
    ensures
        d.id@ == decimal_text(row.id as int),
        d.participant_id@ == decimal_text(row.other_account_id as int),
        d.participant_handle@ == row.other_handle@,
        opt_string_view(d.participant_avatar_url) == opt_string_view(row.other_avatar_url),
        opt_string_view(d.last_message_excerpt) == opt_string_view(row.last_message_excerpt),
        d.last_message_at == spec_unix_seconds(row.last_message_at_micros),
        d.unread_count == row.unread_count,
        d.is_archived == row.is_archived && d.is_muted == row.is_muted && d.is_deleted == row.is_deleted,
        d.created_at == spec_unix_seconds(row.created_at_micros),
{
    DmConversationDto {
        id: i64_to_string(row.id),
        participant_id: i64_to_string(row.other_account_id),
        participant_handle: row.other_handle.clone(),
        participant_avatar_url: clone_opt_string(&row.other_avatar_url),
        last_message_excerpt: clone_opt_string(&row.last_message_excerpt),
        last_message_at: unix_seconds(row.last_message_at_micros),
        unread_count: row.unread_count,
        is_archived: row.is_archived,
        is_muted: row.is_muted,
        is_deleted: row.is_deleted,
        created_at: unix_seconds(row.created_at_micros),
    }
}

/// A message report with the reported message and its sender.
pub struct DmMessageReportRow {
    pub id: i64,
    pub message_id: i64,
    pub conversation_id: i64,
    pub reported_by: i64,
    pub reporter_handle: String,
    pub sender_id: i64,
    pub sender_handle: String,
    pub message_excerpt: String,
    pub reason: String,
    pub note: Option<String>,
    pub status: String,
    pub handled_by: Option<i64>,
    pub handled_at_micros: Option<i64>,
    pub created_at_micros: i64,
}

/// A message report as staff see it.
pub struct DmMessageReportDto {
    pub id: String,
    pub message_id: String,
    pub conversation_id: String,
    pub reporter_id: String,
    pub reporter_handle: String,
    pub sender_id: String,
    pub sender_handle: String,
    pub message_excerpt: String,
    pub reason: String,
    pub note: Option<String>,
    pub status: String,
    pub handled_by: Option<String>,
    pub handled_at: Option<i64>,
    pub created_at: i64,
}

pub fn report_to_dto(row: &DmMessageReportRow) -> (d: DmMessageReportDto)
    ensures
        d.id@ == decimal_text(row.id as int),
        d.message_id@ == decimal_text(row.message_id as int),
        d.conversation_id@ == decimal_text(row.conversation_id as int),
        d.reporter_id@ == decimal_text(row.reported_by as int),
        d.reporter_handle@ == row.reporter_handle@,
        d.sender_id@ == decimal_text(row.sender_id as int),
        d.sender_handle@ == row.sender_handle@,
        d.message_excerpt@ == row.message_excerpt@,
        d.reason@ == row.reason@,
        opt_string_view(d.note) == opt_string_view(row.note),
        d.status@ == row.status@,
        (match row.handled_by {
            Some(h) => d.handled_by matches Some(s) && s@ == decimal_text(h as int),
            None => d.handled_by is None,
        }),
        opt_i64_int(d.handled_at) == opt_seconds(row.handled_at_micros),
        d.created_at == spec_unix_seconds(row.created_at_micros),
{
    DmMessageReportDto {
        id: i64_to_string(row.id),
        message_id: i64_to_string(row.message_id),
        conversation_id: i64_to_string(row.conversation_id),
        reporter_id: i64_to_string(row.reported_by),
        reporter_handle: row.reporter_handle.clone(),
        sender_id: i64_to_string(row.sender_id),
        sender_handle: row.sender_handle.clone(),
        message_excerpt: row.message_excerpt.clone(),
        reason: row.reason.clone(),
        note: clone_opt_string(&row.note),
        status: row.status.clone(),
        handled_by: opt_id_string(row.handled_by),
        handled_at: opt_unix_seconds(row.handled_at_micros),
        created_at: unix_seconds(row.created_at_micros),
    }
}

} // verus!
