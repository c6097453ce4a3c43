//! Private 1:1 conversations: how a conversation is started, when a message
//! request is needed, and the lifecycle of requests and reports.

use vstd::prelude::*;
use crate::error::{bad_request, conflict, is_bad_request, is_conflict, ForumError};
use crate::text::{char_count, str_eq, trim, trimmed};

verus! {

/// How a newly initiated conversation is authorized by the recipient's policy.
#[derive(Debug, Clone, Copy, PartialEq, Eq, Structural)]
pub enum DmStartMode {
    Direct,
    Request,
}

/// Durable result of starting or replaying a conversation.
#[derive(Debug, Clone)]
pub struct DmStartResult {
    pub conversation_id: i64,
    pub request_status: String,
    pub request_created: bool,
    pub message_created: bool,
}

/// Counts used by the global private-message badge.
#[derive(Debug, Clone, Copy, PartialEq, Eq, Structural)]
pub struct DmCounts {
    pub unread_count: i64,
    pub request_count: i64,
}

/// Directional accounts for one pending request.
#[derive(Debug, Clone, Copy, PartialEq, Eq, Structural)]
pub struct DmRequestParties {
    pub sender_id: i64,
    pub recipient_id: i64,
}

/// Current request state retained after acceptance for idempotent response replay.
#[derive(Debug, Clone)]
pub struct DmRequestState {
    pub sender_id: i64,
    pub recipient_id: i64,
    pub request_status: String,
}

/// Result of accepting a request, including whether this call performed the transition.
#[derive(Debug, Clone, Copy, PartialEq, Eq, Structural)]
pub struct DmAcceptResult {
    pub sender_id: i64,
    pub changed: bool,
}

/// The stored conversation between the two accounts, if any.
#[derive(Debug, Clone)]
pub struct ExistingConversation {
    pub id: i64,
    pub request_status: String,
    pub request_sender_id: Option<i64>,
    pub is_in_cooldown: bool,
}

/// What starting a conversation does to the stored conversation.
#[derive(Debug, Clone, Copy, PartialEq, Eq, Structural)]
pub enum StartStep {
    /// Insert a new conversation that is accepted at once.
    InsertAccepted,
    /// Insert a new conversation holding a pending request.
    InsertPending,
    /// Leave the conversation as it is (`pending` tells its status).
    Keep { conversation_id: i64, pending: bool },
    /// Turn the conversation into an accepted one.
    AcceptExisting { conversation_id: i64 },
    /// Open a new request on a conversation that had none pending.
    ReopenRequest { conversation_id: i64 },
}

impl StartStep {
    /// The request status the conversation holds after this step.
    pub open spec fn spec_status_pending(self) -> bool {
        match self {
            StartStep::InsertPending | StartStep::ReopenRequest { .. } => true,
            StartStep::Keep { pending, .. } => pending,
            _ => false,
        }
    }

    /// Whether this step opens a new message request.
    pub open spec fn spec_creates_request(self) -> bool {
        self is InsertPending || self is ReopenRequest
    }

    /// Whether this step writes the conversation row.
    pub open spec fn spec_changes_conversation(self) -> bool {
        !(self is Keep)
    }

    pub fn status_pending(&self) -> (b: bool)
        ensures
            b == self.spec_status_pending(),
    {
        match self {
            StartStep::InsertPending | StartStep::ReopenRequest { .. } => true,
            StartStep::Keep { pending, .. } => *pending,
            _ => false,
        }
    }

    /// Opening a request consumes the sender's daily request budget.
    pub fn creates_request(&self) -> (b: bool)
        ensures
            b == self.spec_creates_request(),
    {
        match self {
            StartStep::InsertPending | StartStep::ReopenRequest { .. } => true,
            _ => false,
        }
    }

    pub fn changes_conversation(&self) -> (b: bool)
        ensures
            b == self.spec_changes_conversation(),
    {
        match self {
            StartStep::Keep { .. } => false,
            _ => true,
        }
    }

    /// The stored status text after this step.
    pub fn status_text(&self) -> (s: String)
        ensures
            s@ == (if self.spec_status_pending() { "pending"@ } else { "accepted"@ }),
    {
        if self.status_pending() {
            String::from_str("pending")
        } else {
            String::from_str("accepted")
        }
    }
}

/// The two accounts of a conversation in canonical order, refusing a
/// conversation with oneself.
pub fn conversation_pair(sender_id: i64, recipient_id: i64) -> (r: Result<(i64, i64), ForumError>)
    ensures
        sender_id == recipient_id ==> (r matches Err(e) && is_bad_request(e, "cannot start a conversation with yourself"@)),
        sender_id != recipient_id ==> r == Ok::<(i64, i64), ForumError>(
            (if sender_id < recipient_id { (sender_id, recipient_id) } else { (recipient_id, sender_id) }),
        ),
{
    if sender_id == recipient_id {
        return Err(bad_request("cannot start a conversation with yourself"));
    }
    if sender_id < recipient_id {
        Ok((sender_id, recipient_id))
    } else {
        Ok((recipient_id, sender_id))
    }
}

/// A replayed idempotency key must describe the same request.
pub fn check_start_replay(stored_hash: &str, request_hash: &str) -> (r: Result<(), ForumError>)
    ensures
        stored_hash@ == request_hash@ ==> r is Ok,
        stored_hash@ != request_hash@ ==> (r matches Err(e) && is_conflict(
            e,
            "idempotency key was already used for another message request"@,
        )),
{
    if !str_eq(stored_hash, request_hash) {
        return Err(conflict("idempotency key was already used for another message request"));
    }
    Ok(())
}

pub open spec fn spec_start_mode_for_policy(policy: Seq<char>, recipient_follows_sender: bool) -> Option<DmStartMode> {
    if policy == "nobody"@ {
        None
    } else if recipient_follows_sender {
        Some(DmStartMode::Direct)
    } else if policy == "everyone"@ {
        Some(DmStartMode::Request)
    } else {
        None
    }
}

/// How a conversation that is not yet accepted may be started under the
/// recipient's DM policy: never under `nobody`; directly when the recipient
/// follows the sender; as a request under `everyone`; otherwise refused.
pub fn start_mode_for_policy(recipient_policy: &str, recipient_follows_sender: bool) -> (r: Result<DmStartMode, ForumError>)
    ensures
        match spec_start_mode_for_policy(recipient_policy@, recipient_follows_sender) {
            Some(mode) => r == Ok::<DmStartMode, ForumError>(mode),
            None => r == Err::<DmStartMode, ForumError>(ForumError::Forbidden),
        },
{
    if str_eq(recipient_policy, "nobody") {
        return Err(ForumError::Forbidden);
    }
    if recipient_follows_sender {
        Ok(DmStartMode::Direct)
    } else if str_eq(recipient_policy, "everyone") {
        Ok(DmStartMode::Request)
    } else {
        Err(ForumError::Forbidden)
    }
}

/// Whether an existing conversation is already accepted (then the recipient's
/// policy is not consulted and the start is direct).
pub fn existing_is_accepted(existing: &Option<ExistingConversation>) -> (b: bool)
    ensures
        b == (existing matches Some(e) && e.request_status@ == "accepted"@),
{
    match existing {
        Some(e) => str_eq(e.request_status.as_str(), "accepted"),
        None => false,
    }
}

pub open spec fn spec_plan_start(
    existing: Option<ExistingConversation>,
    mode: DmStartMode,
    sender_id: i64,
    has_message: bool,
) -> Result<StartStep, Seq<char>> {
    if mode == DmStartMode::Request && !has_message {
        Err("requestMessage is required when the recipient has not accepted messages from you"@)
    } else {
        match existing {
            None => if mode == DmStartMode::Direct {
                Ok(StartStep::InsertAccepted)
            } else {
                Ok(StartStep::InsertPending)
            },
            Some(e) => if e.request_status@ == "accepted"@ {
                Ok(StartStep::Keep { conversation_id: e.id, pending: false })
            } else if e.request_status@ == "pending"@ && mode == DmStartMode::Request && e.request_sender_id
                == Some(sender_id) {
                Ok(StartStep::Keep { conversation_id: e.id, pending: true })
            } else if e.request_status@ == "pending"@ {
                Ok(StartStep::AcceptExisting { conversation_id: e.id })
            } else if mode == DmStartMode::Direct {
                Ok(StartStep::AcceptExisting { conversation_id: e.id })
            } else if e.is_in_cooldown {
                Err("a declined message request cannot be retried yet"@)
            } else {
                Ok(StartStep::ReopenRequest { conversation_id: e.id })
            },
        }
    }
}

/// Decide what starting a conversation does to the stored conversation.
///
/// A request needs a first message. An accepted conversation stays as it is;
/// a pending request the sender already sent stays pending; a pending
/// request in the other direction, or any conversation started directly,
/// becomes accepted; otherwise a new request is opened unless a declined
/// request is still in its cooldown.
pub fn plan_start(existing: &Option<ExistingConversation>, mode: DmStartMode, sender_id: i64, has_message: bool) -> (r: Result<StartStep, ForumError>)
    ensures
        match spec_plan_start(*existing, mode, sender_id, has_message) {
            Ok(step) => r == Ok::<StartStep, ForumError>(step),
            Err(msg) => r matches Err(e) && (if mode == DmStartMode::Request && !has_message {
                is_bad_request(e, msg)
            } else {
                is_conflict(e, msg)
            }),
        },
{
    if mode == DmStartMode::Request && !has_message {
        return Err(bad_request("requestMessage is required when the recipient has not accepted messages from you"));
    }
    match existing {
        None => if mode == DmStartMode::Direct {
            Ok(StartStep::InsertAccepted)
        } else {
            Ok(StartStep::InsertPending)
        },
        Some(e) => {
            let accepted = str_eq(e.request_status.as_str(), "accepted");
            let pending = str_eq(e.request_status.as_str(), "pending");
            if accepted {
                Ok(StartStep::Keep { conversation_id: e.id, pending: false })
            } else if pending && mode == DmStartMode::Request && e.request_sender_id == Some(sender_id) {
                Ok(StartStep::Keep { conversation_id: e.id, pending: true })
            } else if pending {
                Ok(StartStep::AcceptExisting { conversation_id: e.id })
            } else if mode == DmStartMode::Direct {
                Ok(StartStep::AcceptExisting { conversation_id: e.id })
            } else if e.is_in_cooldown {
                Err(conflict("a declined message request cannot be retried yet"))
            } else {
                Ok(StartStep::ReopenRequest { conversation_id: e.id })
            }
        },
    }
}

/// At most ten message requests per sender in 24 hours.
pub fn check_request_budget(recent_requests: i64) -> (r: Result<(), ForumError>)
    ensures
        recent_requests >= 10 ==> r == Err::<(), ForumError>(ForumError::RateLimited),
        recent_requests < 10 ==> r is Ok,
{
    if recent_requests >= 10 {
        return Err(ForumError::RateLimited);
    }
    Ok(())
}

pub open spec fn spec_should_insert_message(has_message: bool, status_pending: bool, request_created: bool) -> bool {
    has_message && (!status_pending || request_created)
}

/// The first message is stored unless it would be a second message on a
/// request that is still pending.
pub fn should_insert_message(has_message: bool, step: &StartStep) -> (b: bool)
    ensures
        b == spec_should_insert_message(has_message, step.spec_status_pending(), step.spec_creates_request()),
{
    has_message && (!step.status_pending() || step.creates_request())
}

/// The idempotency key is recorded only when the call changed something.
pub fn should_record_idempotency(has_idempotency: bool, step: &StartStep, message_created: bool) -> (b: bool)
    ensures
        b == (has_idempotency && (step.spec_changes_conversation() || message_created)),
{
    has_idempotency && (step.changes_conversation() || message_created)
}

/// Starting a conversation never downgrades an accepted one and never
/// re-sends a request the sender already has pending: a second start of the
/// same request keeps it pending and stores no second message.
pub proof fn lemma_start_is_idempotent(e: ExistingConversation, mode: DmStartMode, sender_id: i64, has_message: bool)
    requires
        spec_plan_start(Some(e), mode, sender_id, has_message) is Ok,
    ensures
        e.request_status@ == "accepted"@ ==> spec_plan_start(Some(e), mode, sender_id, has_message) == Ok::<StartStep, Seq<char>>(
            StartStep::Keep { conversation_id: e.id, pending: false },
        ),
        (e.request_status@ == "pending"@ && mode == DmStartMode::Request && e.request_sender_id == Some(sender_id))
            ==> ({
            let step = spec_plan_start(Some(e), mode, sender_id, has_message)->Ok_0;
            &&& step == StartStep::Keep { conversation_id: e.id, pending: true }
            &&& !step.spec_creates_request()
            &&& !spec_should_insert_message(has_message, step.spec_status_pending(), step.spec_creates_request())
        }),
{
    reveal_strlit("accepted");
    reveal_strlit("pending");
    assert("pending"@.len() != "accepted"@.len());
}

/// Whatever the stored conversation, a start that succeeds leaves it either
/// accepted or pending, keeps its id, and a request (pending status) is only
/// ever reached with a first message.
pub proof fn lemma_start_outcome_shape(existing: Option<ExistingConversation>, mode: DmStartMode, sender_id: i64, has_message: bool)
    requires
        spec_plan_start(existing, mode, sender_id, has_message) is Ok,
    ensures
        ({
            let step = spec_plan_start(existing, mode, sender_id, has_message)->Ok_0;
            &&& (step.spec_status_pending() && step.spec_creates_request()) ==> has_message
            &&& step.spec_creates_request() ==> mode == DmStartMode::Request
            &&& (existing matches Some(e) ==> (step matches StartStep::Keep { conversation_id, .. } ==> conversation_id == e.id)
                && (step matches StartStep::AcceptExisting { conversation_id } ==> conversation_id == e.id)
                && (step matches StartStep::ReopenRequest { conversation_id } ==> conversation_id == e.id))
            &&& (existing is None ==> (step is InsertAccepted || step is InsertPending))
        }),
{
}


/// Accepting is done by the request's recipient, once: an accepted request
/// replays as unchanged, any other non-pending state is a conflict. `None`
/// means the request is pending and the transition may proceed.
pub fn accept_precheck(state: &DmRequestState, recipient_id: i64) -> (r: Result<Option<DmAcceptResult>, ForumError>)
    ensures
        state.recipient_id != recipient_id ==> r == Err::<Option<DmAcceptResult>, ForumError>(ForumError::Forbidden),
        state.recipient_id == recipient_id && state.request_status@ == "accepted"@ ==> r == Ok::<Option<DmAcceptResult>, ForumError>(
            Some(DmAcceptResult { sender_id: state.sender_id, changed: false }),
        ),
        state.recipient_id == recipient_id && state.request_status@ != "accepted"@ && state.request_status@ != "pending"@
            ==> (r matches Err(e) && is_conflict(e, "message request is no longer pending"@)),
        state.recipient_id == recipient_id && state.request_status@ == "pending"@ ==> r == Ok::<Option<DmAcceptResult>, ForumError>(None),
{
    proof {
        reveal_strlit("accepted");
        assert("accepted"@ =~= seq!['a', 'c', 'c', 'e', 'p', 't', 'e', 'd']);
        reveal_strlit("pending");
        assert("pending"@ =~= seq!['p', 'e', 'n', 'd', 'i', 'n', 'g']);
    }
    if state.recipient_id != recipient_id {
        return Err(ForumError::Forbidden);
    }
    if str_eq(state.request_status.as_str(), "accepted") {
        return Ok(Some(DmAcceptResult { sender_id: state.sender_id, changed: false }));
    }
    if !str_eq(state.request_status.as_str(), "pending") {
        return Err(conflict("message request is no longer pending"));
    }
    Ok(None)
}

/// The outcome of the guarded `pending -> accepted` update.
pub fn accept_outcome(updated: bool, sender_id: i64) -> (r: Result<DmAcceptResult, ForumError>)
    ensures
        updated ==> r == Ok::<DmAcceptResult, ForumError>(DmAcceptResult { sender_id, changed: true }),
        !updated ==> (r matches Err(e) && is_conflict(e, "message request is no longer pending"@)),
{
    if !updated {
        return Err(conflict("message request is no longer pending"));
    }
    Ok(DmAcceptResult { sender_id, changed: true })
}

/// A recipient whose policy is `nobody` can neither receive nor accept requests.
pub fn require_policy_open(recipient_policy: &str) -> (r: Result<(), ForumError>)
    ensures
        recipient_policy@ == "nobody"@ ==> r == Err::<(), ForumError>(ForumError::Forbidden),
        recipient_policy@ != "nobody"@ ==> r is Ok,
{
    if str_eq(recipient_policy, "nobody") {
        return Err(ForumError::Forbidden);
    }
    Ok(())
}

/// Minutes before a declined request may be retried: thirty days when the
/// recipient declines, five minutes when the sender withdraws it.
pub fn decline_cooldown_minutes(request_recipient_id: i64, account_id: i64) -> (m: i64)
    ensures
        request_recipient_id == account_id ==> m == 43200,
        request_recipient_id != account_id ==> m == 5,
{
    if request_recipient_id == account_id { 43200 } else { 5 }
}

/// Page sizes of DM lists must lie in 1..=100.
pub fn validate_limit(limit: i64) -> (r: Result<i64, ForumError>)
    ensures
        1 <= limit <= 100 ==> r == Ok::<i64, ForumError>(limit),
        !(1 <= limit <= 100) ==> (r matches Err(e) && is_bad_request(e, "limit must be between 1 and 100"@)),
{
    if !(1 <= limit && limit <= 100) {
        return Err(bad_request("limit must be between 1 and 100"));
    }
    Ok(limit)
}

/// The conversation list view: `inbox` by default, else `archived` or `deleted`.
pub fn validate_conversation_view(view: Option<&str>) -> (r: Result<String, ForumError>)
    ensures
        ({
            let v = match view { Some(v) => v@, None => "inbox"@ };
            &&& (v == "inbox"@ || v == "archived"@ || v == "deleted"@) ==> (r matches Ok(s) && s@ == v)
            &&& !(v == "inbox"@ || v == "archived"@ || v == "deleted"@) ==> (r matches Err(e) && is_bad_request(
                e,
                "view must be inbox, archived, or deleted"@,
            ))
        }),
{
    let v: &str = match view {
        Some(v) => v,
        None => "inbox",
    };
    if str_eq(v, "inbox") || str_eq(v, "archived") || str_eq(v, "deleted") {
        Ok(String::from_str(v))
    } else {
        Err(bad_request("view must be inbox, archived, or deleted"))
    }
}

/// The optional inbox search text: trimmed, ignored when empty, else 2 to
/// 100 characters long.
pub fn validate_search_query(q: Option<&str>) -> (r: Result<Option<String>, ForumError>)
    ensures
        match q {
            None => r == Ok::<Option<String>, ForumError>(None),
            Some(text) => {
                let t = trimmed(text@);
                &&& t.len() == 0 ==> r == Ok::<Option<String>, ForumError>(None)
                &&& (2 <= t.len() <= 100) ==> (r matches Ok(Some(s)) && s@ == t)
                &&& (t.len() == 1 || t.len() > 100) ==> (r matches Err(e) && is_bad_request(e, "q must contain 2 to 100 characters"@))
            },
        },
{
    match q {
        None => Ok(None),
        Some(text) => {
            let t = trim(text);
            let n = char_count(t.as_str());
            if n == 0 {
                Ok(None)
            } else if !(2 <= n && n <= 100) {
                Err(bad_request("q must contain 2 to 100 characters"))
            } else {
                Ok(Some(t))
            }
        },
    }
}

/// The recipient handle of a new conversation: trimmed, 3 to 30 characters.
pub fn validate_recipient_handle(handle: &str) -> (r: Result<String, ForumError>)
    ensures
        (3 <= trimmed(handle@).len() <= 30) ==> (r matches Ok(s) && s@ == trimmed(handle@)),
        !(3 <= trimmed(handle@).len() <= 30) ==> (r matches Err(e) && is_bad_request(e, "recipientHandle must contain 3 to 30 characters"@)),
{
    let t = trim(handle);
    let n = char_count(t.as_str());
    if !(3 <= n && n <= 30) {
        return Err(bad_request("recipientHandle must contain 3 to 30 characters"));
    }
    Ok(t)
}

/// Only accounts above trust level 0 may open conversations.
pub fn require_trusted_sender(trust_level: i16) -> (r: Result<(), ForumError>)
    ensures
        trust_level == 0 ==> r == Err::<(), ForumError>(ForumError::Forbidden),
        trust_level != 0 ==> r is Ok,
{
    if trust_level == 0 {
        return Err(ForumError::Forbidden);
    }
    Ok(())
}

pub open spec fn spec_dm_policy_allows(policy: Seq<char>, recipient_follows_sender: bool) -> bool {
    if policy == "everyone"@ {
        true
    } else if policy == "following"@ {
        recipient_follows_sender
    } else {
        false
    }
}

/// Whether the recipient's DM policy lets the sender open a conversation.
pub fn dm_policy_allows(policy: &str, recipient_follows_sender: bool) -> (b: bool)
    ensures
        b == spec_dm_policy_allows(policy@, recipient_follows_sender),
{
    if str_eq(policy, "everyone") {
        true
    } else if str_eq(policy, "following") {
        recipient_follows_sender
    } else {
        false
    }
}

/// A message body is 1 to 16000 characters and not only white space.
pub fn validate_message_body(body: &str) -> (r: Result<(), ForumError>)
    ensures
        (trimmed(body@).len() > 0 && 1 <= body@.len() <= 16000) ==> r is Ok,
        !(trimmed(body@).len() > 0 && 1 <= body@.len() <= 16000) ==> (r matches Err(e) && is_bad_request(
            e,
            "message body must contain 1 to 16000 characters"@,
        )),
{
    let n = char_count(body);
    let t = trim(body);
    if char_count(t.as_str()) == 0 || !(1 <= n && n <= 16000) {
        return Err(bad_request("message body must contain 1 to 16000 characters"));
    }
    Ok(())
}

pub open spec fn is_dm_report_reason(r: Seq<char>) -> bool {
    r == "spam"@ || r == "abuse"@ || r == "harassment"@ || r == "fraud"@ || r == "illegal"@ || r == "other"@
}

/// A DM report names one of the known reasons (after trimming) and carries
/// a note of at most 1000 characters; returns the trimmed reason.
pub fn validate_dm_report(reason: &str, note: Option<&str>) -> (r: Result<String, ForumError>)
    ensures
        !is_dm_report_reason(trimmed(reason@)) ==> (r matches Err(e) && is_bad_request(e, "invalid DM report reason"@)),
        is_dm_report_reason(trimmed(reason@)) && (note matches Some(n) && n@.len() > 1000) ==> (r matches Err(e)
            && is_bad_request(e, "report note must not exceed 1000 characters"@)),
        is_dm_report_reason(trimmed(reason@)) && !(note matches Some(n) && n@.len() > 1000) ==> (r matches Ok(s) && s@
            == trimmed(reason@)),
{
    let t = trim(reason);
    let ts = t.as_str();
    if !(str_eq(ts, "spam") || str_eq(ts, "abuse") || str_eq(ts, "harassment") || str_eq(ts, "fraud")
        || str_eq(ts, "illegal") || str_eq(ts, "other")) {
        return Err(bad_request("invalid DM report reason"));
    }
    match note {
        Some(n) => if char_count(n) > 1000 {
            return Err(bad_request("report note must not exceed 1000 characters"));
        },
        None => {},
    }
    Ok(t)
}

/// The report queue filter: `open` by default, else `upheld` or `rejected`.
pub fn validate_report_status(status: Option<&str>) -> (r: Result<String, ForumError>)
    ensures
        ({
            let s = match status { Some(s) => s@, None => "open"@ };
            &&& (s == "open"@ || s == "upheld"@ || s == "rejected"@) ==> (r matches Ok(v) && v@ == s)
            &&& !(s == "open"@ || s == "upheld"@ || s == "rejected"@) ==> (r matches Err(e) && is_bad_request(e, "invalid DM report status"@))
        }),
{
    let s: &str = match status {
        Some(s) => s,
        None => "open",
    };
    if str_eq(s, "open") || str_eq(s, "upheld") || str_eq(s, "rejected") {
        Ok(String::from_str(s))
    } else {
        Err(bad_request("invalid DM report status"))
    }
}

/// A staff resolution: `uphold` or `reject`, with an optional trimmed note of
/// at most 1000 characters (an empty note counts as none).
pub fn validate_report_resolution(action: &str, note: Option<&str>) -> (r: Result<Option<String>, ForumError>)
    ensures
        !(action@ == "uphold"@ || action@ == "reject"@) ==> (r matches Err(e) && is_bad_request(e, "action must be uphold or reject"@)),
        (action@ == "uphold"@ || action@ == "reject"@) ==> match note {
            None => r == Ok::<Option<String>, ForumError>(None),
            Some(n) => {
                let t = trimmed(n@);
                &&& t.len() == 0 ==> r == Ok::<Option<String>, ForumError>(None)
                &&& (t.len() > 0 && t.len() <= 1000) ==> (r matches Ok(Some(s)) && s@ == t)
                &&& t.len() > 1000 ==> (r matches Err(e) && is_bad_request(e, "resolution note must not exceed 1000 characters"@))
            },
        },
{
    if !(str_eq(action, "uphold") || str_eq(action, "reject")) {
        return Err(bad_request("action must be uphold or reject"));
    }
    match note {
        None => Ok(None),
        Some(n) => {
            let t = trim(n);
            let len = char_count(t.as_str());
            if len == 0 {
                Ok(None)
            } else if len > 1000 {
                Err(bad_request("resolution note must not exceed 1000 characters"))
            } else {
                Ok(Some(t))
            }
        },
    }
}

/// The terminal status of a resolved DM report and the audit reason.
pub fn report_resolution(action: &str, note: Option<&str>) -> (r: Result<(String, String), ForumError>)
    ensures
        action@ == "uphold"@ ==> (r matches Ok((status, reason)) && status@ == "upheld"@
            && reason@ == (match note { Some(n) => n@, None => "DM report upheld"@ })),
        action@ == "reject"@ ==> (r matches Ok((status, reason)) && status@ == "rejected"@
            && reason@ == (match note { Some(n) => n@, None => "DM report rejected"@ })),
        !(action@ == "uphold"@ || action@ == "reject"@) ==> (r matches Err(e) && is_bad_request(e, "invalid DM report decision"@)),
{
    proof {
        reveal_strlit("uphold");
        assert("uphold"@ =~= seq!['u', 'p', 'h', 'o', 'l', 'd']);
        reveal_strlit("upheld");
        assert("upheld"@ =~= seq!['u', 'p', 'h', 'e', 'l', 'd']);
        reveal_strlit("DM report upheld");
        assert("DM report upheld"@ =~= seq!['D', 'M', ' ', 'r', 'e', 'p', 'o', 'r', 't', ' ', 'u', 'p', 'h', 'e', 'l', 'd']);
        reveal_strlit("reject");
        assert("reject"@ =~= seq!['r', 'e', 'j', 'e', 'c', 't']);
        reveal_strlit("rejected");
        assert("rejected"@ =~= seq!['r', 'e', 'j', 'e', 'c', 't', 'e', 'd']);
        reveal_strlit("DM report rejected");
        assert("DM report rejected"@ =~= seq!['D', 'M', ' ', 'r', 'e', 'p', 'o', 'r', 't', ' ', 'r', 'e', 'j', 'e', 'c', 't', 'e', 'd']);
    }
    if str_eq(action, "uphold") {
        let reason = match note { Some(n) => String::from_str(n), None => String::from_str("DM report upheld") };
        Ok((String::from_str("upheld"), reason))
    } else if str_eq(action, "reject") {
        let reason = match note { Some(n) => String::from_str(n), None => String::from_str("DM report rejected") };
        Ok((String::from_str("rejected"), reason))
    } else {
        Err(bad_request("invalid DM report decision"))
    }
}

/// A resolution that changed no row: the report is either already resolved
/// or missing.
pub fn report_not_open(exists: bool) -> (e: ForumError)
    ensures
        exists ==> is_conflict(e, "DM report is already resolved"@),
        !exists ==> e == ForumError::NotFound,
{
    if exists { conflict("DM report is already resolved") } else { ForumError::NotFound }
}

/// A replayed client message id must describe the same message.
pub fn check_send_replay(stored_conversation_id: i64, stored_body: &str, conversation_id: i64, body: &str) -> (r: Result<(), ForumError>)
    ensures
        (stored_conversation_id == conversation_id && stored_body@ == body@) ==> r is Ok,
        !(stored_conversation_id == conversation_id && stored_body@ == body@) ==> (r matches Err(e) && is_conflict(
            e,
            "client message identity was already used for another message"@,
        )),
{
    if stored_conversation_id != conversation_id || !str_eq(stored_body, body) {
        return Err(conflict("client message identity was already used for another message"));
    }
    Ok(())
}

/// What a start stored under an idempotency key: the request's hash, the
/// conversation, and that conversation's request status now.
pub struct StartReplayRecord {
    pub request_hash: String,
    pub conversation_id: i64,
    pub request_status: String,
}

/// A start under an idempotency key that was already used: the same
/// request gets the stored conversation back and creates nothing; another
/// request under the key is a conflict; a fresh key goes ahead (`None`).
pub fn replay_start(record: Option<&StartReplayRecord>, request_hash: &str) -> (r: Result<Option<DmStartResult>, ForumError>)
    ensures
        match record {
            None => r matches Ok(None),
            Some(rec) => if rec.request_hash@ == request_hash@ {
                r matches Ok(Some(res))
                    && res.conversation_id == rec.conversation_id
                    && res.request_status@ == rec.request_status@
                    && !res.request_created && !res.message_created
            } else {
                r matches Err(e) && is_conflict(e, "idempotency key was already used for another message request"@)
            },
        },
{
    match record {
        None => Ok(None),
        Some(rec) => {
            check_start_replay(rec.request_hash.as_str(), request_hash)?;
            Ok(Some(DmStartResult {
                conversation_id: rec.conversation_id,
                request_status: rec.request_status.clone(),
                request_created: false,
                message_created: false,
            }))
        },
    }
}

/// A message stored under a client message id.
pub struct SentMessageRecord {
    pub id: i64,
    pub conversation_id: i64,
    pub body: String,
    pub created_at_micros: i64,
}

/// A send under a client message id that was already used: the same
/// message gets the stored message's id and instant back and inserts
/// nothing; another message under the id is a conflict; a fresh id goes
/// ahead (`None`).
pub fn replay_send(record: Option<&SentMessageRecord>, conversation_id: i64, body: &str) -> (r: Result<Option<(i64, i64)>, ForumError>)
    ensures
        match record {
            None => r matches Ok(None),
            Some(rec) => if rec.conversation_id == conversation_id && rec.body@ == body@ {
                r == Ok::<Option<(i64, i64)>, ForumError>(Some((rec.id, rec.created_at_micros)))
            } else {
                r matches Err(e) && is_conflict(e, "client message identity was already used for another message"@)
            },
        },
{
    match record {
        None => Ok(None),
        Some(rec) => {
            check_send_replay(rec.conversation_id, rec.body.as_str(), conversation_id, body)?;
            Ok(Some((rec.id, rec.created_at_micros)))
        },
    }
}

/// A participant-scoped conversation action.
#[derive(Debug, Clone, Copy, PartialEq, Eq, Structural)]
pub enum ParticipantAction {
    Archive,
    Unarchive,
    Mute,
    Unmute,
    Delete,
    Recover,
}

/// The participant action a route names, if any.
pub fn participant_action_kind(action: &str) -> (r: Option<ParticipantAction>)
    ensures
        action@ == "archive"@ ==> r == Some(ParticipantAction::Archive),
        action@ == "unarchive"@ ==> r == Some(ParticipantAction::Unarchive),
        action@ == "mute"@ ==> r == Some(ParticipantAction::Mute),
        action@ == "unmute"@ ==> r == Some(ParticipantAction::Unmute),
        action@ == "delete"@ ==> r == Some(ParticipantAction::Delete),
        action@ == "recover"@ ==> r == Some(ParticipantAction::Recover),
        !(action@ == "archive"@ || action@ == "unarchive"@ || action@ == "mute"@ || action@ == "unmute"@
            || action@ == "delete"@ || action@ == "recover"@) ==> r is None,
{
    proof {
        reveal_strlit("archive");
        assert("archive"@ =~= seq!['a', 'r', 'c', 'h', 'i', 'v', 'e']);
        reveal_strlit("unarchive");
        assert("unarchive"@ =~= seq!['u', 'n', 'a', 'r', 'c', 'h', 'i', 'v', 'e']);
        reveal_strlit("mute");
        assert("mute"@ =~= seq!['m', 'u', 't', 'e']);
        reveal_strlit("unmute");
        assert("unmute"@ =~= seq!['u', 'n', 'm', 'u', 't', 'e']);
        reveal_strlit("delete");
        assert("delete"@ =~= seq!['d', 'e', 'l', 'e', 't', 'e']);
        reveal_strlit("recover");
        assert("recover"@ =~= seq!['r', 'e', 'c', 'o', 'v', 'e', 'r']);
    }
    if str_eq(action, "archive") {
        Some(ParticipantAction::Archive)
    } else if str_eq(action, "unarchive") {
        Some(ParticipantAction::Unarchive)
    } else if str_eq(action, "mute") {
        Some(ParticipantAction::Mute)
    } else if str_eq(action, "unmute") {
        Some(ParticipantAction::Unmute)
    } else if str_eq(action, "delete") {
        Some(ParticipantAction::Delete)
    } else if str_eq(action, "recover") {
        Some(ParticipantAction::Recover)
    } else {
        None
    }
}

/// A participant action that changed nothing (or an unknown action) is
/// answered as if the conversation did not exist.
pub fn participant_action_outcome(changed: bool) -> (r: Result<(), ForumError>)
    ensures
        changed ==> r is Ok,
        !changed ==> r == Err::<(), ForumError>(ForumError::NotFound),
{
    if !changed {
        return Err(ForumError::NotFound);
    }
    Ok(())
}

/// Starting a conversation answers a pending request from the other side:
/// whenever the stored conversation is pending and the start is not the
/// sender repeating their own request, a successful start accepts that
/// conversation. A request stays pending only when its own sender asks
/// again, and only then is the new first message withheld.
pub proof fn lemma_start_answers_pending_requests(existing: Option<ExistingConversation>, mode: DmStartMode, sender_id: i64, has_message: bool)
    requires
        spec_plan_start(existing, mode, sender_id, has_message) is Ok,
    ensures
        ({
            let step = spec_plan_start(existing, mode, sender_id, has_message)->Ok_0;
            &&& (existing matches Some(e) && e.request_status@ == "pending"@
                && !(mode == DmStartMode::Request && e.request_sender_id == Some(sender_id)))
                ==> step == StartStep::AcceptExisting { conversation_id: existing->0.id }
            &&& (step matches StartStep::Keep { pending: true, .. }) ==> (existing matches Some(e)
                && e.request_status@ == "pending"@ && mode == DmStartMode::Request
                && e.request_sender_id == Some(sender_id))
            &&& (existing matches Some(e) && e.request_status@ == "pending"@
                && !(mode == DmStartMode::Request && e.request_sender_id == Some(sender_id)))
                ==> spec_should_insert_message(has_message, step.spec_status_pending(), step.spec_creates_request())
                    == has_message
        }),
{
    reveal_strlit("accepted");
    reveal_strlit("pending");
    assert("pending"@.len() != "accepted"@.len());
}
} // verus!
