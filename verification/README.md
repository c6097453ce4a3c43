# forum

The rules of a campus forum — boards, threads, nested comments, votes,
reports, private messages, notifications and search — as a Verus-verified
library, with a thin I/O layer around it.

- `src/` is the verified library. Every function states in its contract what
  it returns; the laws that relate several functions are public proof
  functions (`lemma_*`). Calls into outside crates (`base64`, `aho-corasick`,
  `regex`, `chrono`) sit behind small trusted wrappers whose contracts name
  their results.
- `tests/` runs the library on concrete values.
- `app/` holds the part of the I/O layer that stands on its own: reloading
  the watched words from the database, the search-index client, the ranking
  cache and its floating-point score, the live notification stream, and the
  JSON shapes of the HTTP API. The HTTP handlers, the router and the other
  repository queries are not rebuilt there: they stand on the project's
  account, media and platform crates, which are not part of this tree.

Main modules of `src/`:

| module | what it decides |
| --- | --- |
| `posting`, `comments` | whether a thread takes a comment or an edit, comment paths, who is notified |
| `moderation`, `watched_words`, `censor` | report weights and thresholds, report resolution, watched-word actions and censoring |
| `dm`, `dm_notices`, `dm_views`, `conversation_cursor` | starting, accepting and reporting private conversations, their notices and views |
| `notification_delivery`, `notification_hooks`, `notifications`, `payload` | preferences, delivery outcomes, source checks, notification links |
| `feed`, `following`, `cursor`, `codec` | feed selection, paging, cursors |
| `relationships`, `boards`, `discovery`, `search` | visibility, posting gates, user search, thread search |
| `dto`, `queries`, `polls`, `drafts`, `requests`, `activity`, `profile_content` | API views, request checks, drafts, polls, activity credit |
