//! Verified decision logic of the forum domain: boards, threads, nested
//! comments, votes, reports, private messages, notifications and search.

pub mod activity;
pub mod boards;
pub mod censor;
pub mod codec;
pub mod comments;
pub mod conversation_cursor;
pub mod cursor;
pub mod discovery;
pub mod dm;
pub mod dm_notices;
pub mod dm_views;
pub mod drafts;
pub mod dto;
pub mod error;
pub mod feed;
pub mod following;
pub mod mentions;
pub mod moderation;
pub mod notification_delivery;
pub mod notification_hooks;
pub mod notifications;
pub mod number;
pub mod payload;
pub mod polls;
pub mod posting;
pub mod profile_content;
pub mod queries;
pub mod relationships;
pub mod text;
pub mod requests;
pub mod search;
pub mod votes;
pub mod watched_words;
