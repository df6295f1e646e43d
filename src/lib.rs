//! Symbol lookup over a compiler-analysis index: query parsing, candidate
//! disambiguation, a prelude override table, one-line formatting, and the
//! command handling of a console and a chat front end.

mod command;
mod definition;
mod format;
mod lookup;
mod prelude;
mod provider;
mod text;

pub use command::{
    answer_query, console_from, console_query, extract_command, no_results_reply,
    no_results_text, reply_from, reply_target, reply_to_command,
};
pub use definition::{Definition, SourceSpan, SymbolKind};
pub use format::{
    format_console, format_def, format_reply, law_single_paragraph_reply,
    summarize_docs,
};
pub use lookup::{
    accepts, conclude_lookup, find_def, pick_candidate, resolve_candidates, law_qualified_query_acceptance, law_single_segment_takes_first_resolved,
    parse_query, select_candidate, Candidate, LookupError, ParentLink, QueryParts,
};
pub use prelude::{
    add_entry, build_prelude, build_table, dispatch, law_qualified_query_bypasses_prelude, prelude_hit,
    prelude_paths, PreludeError, PreludeTable,
};
pub use provider::AnalysisIndex;
pub use text::{contains, is_whitespace, same_text, split_on, trim};
