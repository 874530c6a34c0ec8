# cc_switch

Verified core of the cc-switch terminal interface and session-usage sync,
written in Verus.

`src/` (verified):

- `text` — Unicode-whitespace trimming and ASCII case-insensitive matching.
- `icons` — icon mode parsing and selection, emoji detection and stripping.
- `prompt_form`, `prompt_list`, `prompt_actions` — the prompt metadata form
  with change tracking, the prompt list filter, and the interface effects of
  prompt actions.
- `usage_nav`, `usage_text`, `usage_layout` — keyboard navigation, text
  cells and layout decisions of the usage views.
- `overlay` — overlay and body rectangles.
- `session_scan` — the incremental JSONL scan: resume hints, FNV-1a
  fingerprints, line events and committed progress.
- `json`, `gemini` — a JSON document model and the Gemini provider
  bookkeeping (switch, backfill, snippet migration, live-write plan,
  incoming `settings.json` configuration).

`app/` holds the I/O around it: environment and terminal input, file access
for the scan, float formatting, JSON conversion and the interactive prompt.
