//! Preference rules of the direct (fire-and-forget) notification path.

use vstd::prelude::*;
use crate::notification_delivery::{preference_enabled_for, NotificationPrefs};
use crate::payload::get_bool;
use crate::text::{opt_str_view, str_eq};

verus! {

/// The preference category of the events this path creates; anything else
/// is always delivered.
pub open spec fn spec_hook_category(t: Seq<char>) -> Option<Seq<char>> {
    if t == "reply"@ {
        Some("replies"@)
    } else if t == "mention"@ {
        Some("mentions"@)
    } else if t == "quote"@ {
        Some("quotes"@)
    } else if t == "vote"@ {
        Some("votes"@)
    } else if t == "badge"@ {
        Some("badges"@)
    } else if t == "watching"@ {
        Some("subscriptions"@)
    } else if t == "dm"@ || t == "dm_request"@ || t == "dm_request_accepted"@ {
        Some("directMessages"@)
    } else {
        None
    }
}

pub fn in_app_category(event_type: &str) -> (r: Option<&'static str>)
    ensures
        opt_str_view(r) == spec_hook_category(event_type@),
{
    if str_eq(event_type, "reply") {
        Some("replies")
    } else if str_eq(event_type, "mention") {
        Some("mentions")
    } else if str_eq(event_type, "quote") {
        Some("quotes")
    } else if str_eq(event_type, "vote") {
        Some("votes")
    } else if str_eq(event_type, "badge") {
        Some("badges")
    } else if str_eq(event_type, "watching") {
        Some("subscriptions")
    } else if str_eq(event_type, "dm") || str_eq(event_type, "dm_request") || str_eq(event_type, "dm_request_accepted") {
        Some("directMessages")
    } else {
        None
    }
}

/// Whether the account's stored preferences allow a notification of this
/// type: no stored document, or no category, leaves it on.
pub fn notification_enabled(prefs: Option<&NotificationPrefs>, notification_type: &str) -> (enabled: bool)
    ensures
        enabled == preference_enabled_for(match prefs { Some(p) => Some(*p), None => None }, notification_type@, spec_hook_category(notification_type@)),
{
    let p = match prefs {
        Some(p) => p,
        None => return true,
    };
    let category = match in_app_category(notification_type) {
        Some(c) => c,
        None => return true,
    };
    match get_bool(&p.in_app, category) {
        Some(b) => b,
        None => match get_bool(&p.top, notification_type) {
            Some(b) => b,
            None => true,
        },
    }
}

/// Each interaction event of the hooks has its own in-app preference: no
/// two of reply, mention, quote, vote and watching share a category, and a
/// mention, quote or vote is filed under its name in the plural.
pub proof fn lemma_hook_categories_are_separate(t: Seq<char>, u: Seq<char>)
    ensures
        ({
            let interaction = |x: Seq<char>| x == "reply"@ || x == "mention"@ || x == "quote"@ || x == "vote"@ || x == "watching"@;
            &&& interaction(t) ==> spec_hook_category(t) is Some
            &&& interaction(t) && interaction(u) && t != u ==> spec_hook_category(t) != spec_hook_category(u)
        }),
        (t == "mention"@ || t == "quote"@ || t == "vote"@) ==> spec_hook_category(t) == Some(t + "s"@),
        t == "reply"@ ==> spec_hook_category(t) == Some("replies"@),
{
    reveal_strlit("badge");
    reveal_strlit("badges");
    reveal_strlit("directMessages");
    reveal_strlit("dm");
    reveal_strlit("dm_request");
    reveal_strlit("dm_request_accepted");
    reveal_strlit("mention");
    reveal_strlit("mentions");
    reveal_strlit("quote");
    reveal_strlit("quotes");
    reveal_strlit("replies");
    reveal_strlit("reply");
    reveal_strlit("s");
    reveal_strlit("subscriptions");
    reveal_strlit("vote");
    reveal_strlit("votes");
    reveal_strlit("watching");
    assert("badges"@ != "directMessages"@) by { assert("badges"@.len() != "directMessages"@.len()); }
    assert("mention"@ != "badge"@) by { assert("mention"@.len() != "badge"@.len()); }
    assert("mention"@ != "dm"@) by { assert("mention"@.len() != "dm"@.len()); }
    assert("mention"@ != "dm_request"@) by { assert("mention"@.len() != "dm_request"@.len()); }
    assert("mention"@ != "dm_request_accepted"@) by { assert("mention"@.len() != "dm_request_accepted"@.len()); }
    assert("mention"@ != "quote"@) by { assert("mention"@.len() != "quote"@.len()); }
    assert("mention"@ != "vote"@) by { assert("mention"@.len() != "vote"@.len()); }
    assert("mention"@ != "watching"@) by { assert("mention"@.len() != "watching"@.len()); }
    assert("mentions"@ != "badges"@) by { assert("mentions"@.len() != "badges"@.len()); }
    assert("mentions"@ != "directMessages"@) by { assert("mentions"@.len() != "directMessages"@.len()); }
    assert("mentions"@ != "quotes"@) by { assert("mentions"@.len() != "quotes"@.len()); }
    assert("mentions"@ != "subscriptions"@) by { assert("mentions"@.len() != "subscriptions"@.len()); }
    assert("mentions"@ != "votes"@) by { assert("mentions"@.len() != "votes"@.len()); }
    assert("quote"@ != "badge"@) by { assert("quote"@[0] != "badge"@[0]); }
    assert("quote"@ != "dm"@) by { assert("quote"@.len() != "dm"@.len()); }
    assert("quote"@ != "dm_request"@) by { assert("quote"@.len() != "dm_request"@.len()); }
    assert("quote"@ != "dm_request_accepted"@) by { assert("quote"@.len() != "dm_request_accepted"@.len()); }
    assert("quote"@ != "vote"@) by { assert("quote"@.len() != "vote"@.len()); }
    assert("quote"@ != "watching"@) by { assert("quote"@.len() != "watching"@.len()); }
    assert("quotes"@ != "badges"@) by { assert("quotes"@[0] != "badges"@[0]); }
    assert("quotes"@ != "directMessages"@) by { assert("quotes"@.len() != "directMessages"@.len()); }
    assert("quotes"@ != "subscriptions"@) by { assert("quotes"@.len() != "subscriptions"@.len()); }
    assert("quotes"@ != "votes"@) by { assert("quotes"@.len() != "votes"@.len()); }
    assert("replies"@ != "badges"@) by { assert("replies"@.len() != "badges"@.len()); }
    assert("replies"@ != "directMessages"@) by { assert("replies"@.len() != "directMessages"@.len()); }
    assert("replies"@ != "mentions"@) by { assert("replies"@.len() != "mentions"@.len()); }
    assert("replies"@ != "quotes"@) by { assert("replies"@.len() != "quotes"@.len()); }
    assert("replies"@ != "subscriptions"@) by { assert("replies"@.len() != "subscriptions"@.len()); }
    assert("replies"@ != "votes"@) by { assert("replies"@.len() != "votes"@.len()); }
    assert("reply"@ != "badge"@) by { assert("reply"@[0] != "badge"@[0]); }
    assert("reply"@ != "dm"@) by { assert("reply"@.len() != "dm"@.len()); }
    assert("reply"@ != "dm_request"@) by { assert("reply"@.len() != "dm_request"@.len()); }
    assert("reply"@ != "dm_request_accepted"@) by { assert("reply"@.len() != "dm_request_accepted"@.len()); }
    assert("reply"@ != "mention"@) by { assert("reply"@.len() != "mention"@.len()); }
    assert("reply"@ != "quote"@) by { assert("reply"@[0] != "quote"@[0]); }
    assert("reply"@ != "vote"@) by { assert("reply"@.len() != "vote"@.len()); }
    assert("reply"@ != "watching"@) by { assert("reply"@.len() != "watching"@.len()); }
    assert("subscriptions"@ != "badges"@) by { assert("subscriptions"@.len() != "badges"@.len()); }
    assert("subscriptions"@ != "directMessages"@) by { assert("subscriptions"@.len() != "directMessages"@.len()); }
    assert("vote"@ != "badge"@) by { assert("vote"@.len() != "badge"@.len()); }
    assert("vote"@ != "dm"@) by { assert("vote"@.len() != "dm"@.len()); }
    assert("vote"@ != "dm_request"@) by { assert("vote"@.len() != "dm_request"@.len()); }
    assert("vote"@ != "dm_request_accepted"@) by { assert("vote"@.len() != "dm_request_accepted"@.len()); }
    assert("vote"@ != "watching"@) by { assert("vote"@.len() != "watching"@.len()); }
    assert("votes"@ != "badges"@) by { assert("votes"@.len() != "badges"@.len()); }
    assert("votes"@ != "directMessages"@) by { assert("votes"@.len() != "directMessages"@.len()); }
    assert("votes"@ != "subscriptions"@) by { assert("votes"@.len() != "subscriptions"@.len()); }
    assert("watching"@ != "badge"@) by { assert("watching"@.len() != "badge"@.len()); }
    assert("watching"@ != "dm"@) by { assert("watching"@.len() != "dm"@.len()); }
    assert("watching"@ != "dm_request"@) by { assert("watching"@.len() != "dm_request"@.len()); }
    assert("watching"@ != "dm_request_accepted"@) by { assert("watching"@.len() != "dm_request_accepted"@.len()); }
    assert("mention"@ + "s"@ =~= "mentions"@);
    assert("quote"@ + "s"@ =~= "quotes"@);
    assert("vote"@ + "s"@ =~= "votes"@);
}
} // verus!
