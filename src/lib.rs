//! Decision logic of a local version-control workspace: status classification,
//! branch naming, history walking, index staging, content hashing, model-provider
//! settings and log rotation. Reading and writing the repository happens around it.

pub mod hashing;
pub mod history;
pub mod llm;
pub mod logfile;
pub mod process;
pub mod staging;
pub mod status;

pub use status::{
    classify_entry, classify_status, current_branch_name, lemma_clean_listing_reports_nothing,
    Change, EntryClass, GitFileEntry, GitStatusResult, StatusFlags, StatusRecord,
};
pub use hashing::{compute_file_hash, to_hex_lower};
pub use staging::{
    lemma_stage_then_unstage, stage_action, unstage_action, HeadEntry, Index, IndexEntry,
    StageAction, UnstageAction,
};
pub use history::{
    commit_parents, find_commit, walk_history, CommitRecord, GitLogEntry, LogWalk, AUTHOR_EMAIL,
    AUTHOR_NAME,
};
pub use llm::{
    chat_url, default_key_variable, looks_like_env_var, max_tokens_or_default, parse_provider,
    resolve_api_key, str_equals, token_count, unknown_provider_message, usage_from_counts,
    ChatMessage, LlmChatResponse, LlmUsage, Provider, DEFAULT_MAX_TOKENS,
};
pub use logfile::{needs_rotation, rotation_moves};
pub use process::{clone_failure_message, clone_outcome, exit_code_or_default, CommandOutput};
