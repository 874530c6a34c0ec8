//! Verified core of the cc-switch terminal UI and session-usage sync:
//! label/icon handling, the prompt metadata form, usage-view navigation,
//! overlay geometry, usage text formatting, incremental JSONL scanning and
//! the Gemini provider bookkeeping decisions.

pub mod text;
pub mod icons;
pub mod session_scan;
pub mod usage_nav;
pub mod overlay;
pub mod prompt_form;
pub mod usage_text;
pub mod json;
pub mod gemini;
pub mod prompt_list;
pub mod usage_layout;
pub mod prompt_actions;
