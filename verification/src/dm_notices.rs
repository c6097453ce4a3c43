//! The notices private conversations queue: the deduplication key of each
//! and the payload the recipient's client renders.

use vstd::prelude::*;
use crate::discovery::excerpt_of;
use crate::number::{decimal_text, i64_to_string, lemma_parse_decimal_text};
use crate::payload::{text_field, text_member, JsonObject, JsonScalar};
use crate::text::take_chars;

verus! {

/// A notice for the outbox: at most one notice is queued per key.
pub struct DmNotice {
    pub dedupe_key: String,
    pub event_type: String,
    pub payload: JsonObject,
}

fn joined(a: &str, b: &str) -> (s: String)
    ensures
        s@ == a@ + b@,
{
    let mut s = String::from_str(a);
    s.append(b);
    s
}

/// A new message request: keyed by the conversation and the instant the
/// request was made, so a renewed request notifies again.
pub fn dm_request_notice(conversation_id: i64, requested_at_micros: i64, sender_handle: &str) -> (n: DmNotice)
    ensures
        n.dedupe_key@ == "dm-request:"@ + decimal_text(conversation_id as int) + ":"@
            + decimal_text(requested_at_micros as int),
        n.event_type@ == "dm_request"@,
        n.payload.is_object,
        n.payload.fields@.len() == 4,
        text_member(n.payload, 0, "conversationId"@, decimal_text(conversation_id as int)),
        text_member(n.payload, 1, "requestedAtMicros"@, decimal_text(requested_at_micros as int)),
        text_member(n.payload, 2, "senderHandle"@, sender_handle@),
        text_member(n.payload, 3, "title"@, sender_handle@ + " 发来消息请求"@),
{
    let cid = i64_to_string(conversation_id);
    let at = i64_to_string(requested_at_micros);
    let mut key = joined("dm-request:", cid.as_str());
    key.append(":");
    key.append(at.as_str());
    let mut fields: Vec<(String, JsonScalar)> = Vec::new();
    fields.push(text_field("conversationId", cid));
    fields.push(text_field("requestedAtMicros", at));
    fields.push(text_field("senderHandle", String::from_str(sender_handle)));
    fields.push(text_field("title", joined(sender_handle, " 发来消息请求")));
    DmNotice {
        dedupe_key: key,
        event_type: String::from_str("dm_request"),
        payload: JsonObject { is_object: true, fields },
    }
}

/// A message in a conversation: keyed by the message, with the first
/// hundred characters of its body.
pub fn dm_message_notice(conversation_id: i64, message_id: i64, sender_handle: &str, body: &str) -> (n: DmNotice)
    ensures
        n.dedupe_key@ == "dm-message:"@ + decimal_text(message_id as int),
        n.event_type@ == "dm"@,
        n.payload.is_object,
        n.payload.fields@.len() == 5,
        text_member(n.payload, 0, "conversationId"@, decimal_text(conversation_id as int)),
        text_member(n.payload, 1, "messageId"@, decimal_text(message_id as int)),
        text_member(n.payload, 2, "senderHandle"@, sender_handle@),
        text_member(n.payload, 3, "title"@, sender_handle@ + " 发来私信"@),
        text_member(n.payload, 4, "bodyExcerpt"@, excerpt_of(Some(body@))),
{
    let mid = i64_to_string(message_id);
    let key = joined("dm-message:", mid.as_str());
    let mut fields: Vec<(String, JsonScalar)> = Vec::new();
    fields.push(text_field("conversationId", i64_to_string(conversation_id)));
    fields.push(text_field("messageId", mid));
    fields.push(text_field("senderHandle", String::from_str(sender_handle)));
    fields.push(text_field("title", joined(sender_handle, " 发来私信")));
    fields.push(text_field("bodyExcerpt", take_chars(body, 100)));
    DmNotice {
        dedupe_key: key,
        event_type: String::from_str("dm"),
        payload: JsonObject { is_object: true, fields },
    }
}

/// The sender learns that the request was accepted; keyed like the request.
pub fn dm_request_accepted_notice(conversation_id: i64, requested_at_micros: i64) -> (n: DmNotice)
    ensures
        n.dedupe_key@ == "dm-request-accepted:"@ + decimal_text(conversation_id as int) + ":"@
            + decimal_text(requested_at_micros as int),
        n.event_type@ == "dm_request_accepted"@,
        n.payload.is_object,
        n.payload.fields@.len() == 3,
        text_member(n.payload, 0, "conversationId"@, decimal_text(conversation_id as int)),
        text_member(n.payload, 1, "requestedAtMicros"@, decimal_text(requested_at_micros as int)),
        text_member(n.payload, 2, "title"@, "对方已接受你的消息请求"@),
{
    let cid = i64_to_string(conversation_id);
    let at = i64_to_string(requested_at_micros);
    let mut key = joined("dm-request-accepted:", cid.as_str());
    key.append(":");
    key.append(at.as_str());
    let mut fields: Vec<(String, JsonScalar)> = Vec::new();
    fields.push(text_field("conversationId", cid));
    fields.push(text_field("requestedAtMicros", at));
    fields.push(text_field("title", String::from_str("对方已接受你的消息请求")));
    DmNotice {
        dedupe_key: key,
        event_type: String::from_str("dm_request_accepted"),
        payload: JsonObject { is_object: true, fields },
    }
}

/// Each message gets its own notice: the keys of two messages' notices
/// agree only when they are the same message.
pub proof fn lemma_message_notice_keys_distinct(first_message_id: i64, second_message_id: i64)
    ensures
        "dm-message:"@ + decimal_text(first_message_id as int) == "dm-message:"@ + decimal_text(second_message_id as int)
            ==> first_message_id == second_message_id,
{
    let prefix = "dm-message:"@;
    let a = prefix + decimal_text(first_message_id as int);
    let b = prefix + decimal_text(second_message_id as int);
    if a == b {
        assert(a.skip(prefix.len() as int) =~= decimal_text(first_message_id as int));
        assert(b.skip(prefix.len() as int) =~= decimal_text(second_message_id as int));
        lemma_parse_decimal_text(first_message_id);
        lemma_parse_decimal_text(second_message_id);
    }
}

} // verus!
