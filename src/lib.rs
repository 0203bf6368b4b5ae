//! Estimates how many language-model tokens a body of text files holds.
//!
//! The library holds the decisions of the pipeline: which sampled files count
//! as binary, which candidates are selected, how the version-control listing
//! becomes candidate paths, and how per-file token counts add up to a total.
//! Reading the filesystem and running commands is left to the caller.
mod aggregate;
mod binary;
mod cli;
mod pipeline;
mod selection;
mod tokens;
mod vcs;

pub use aggregate::{
    count_sum, lemma_sum_permutation, lemma_total_permutation, sum_counts, sum_of, total_spec,
    total_tokens,
};
pub use binary::{binary_spec, is_binary, lemma_empty_not_binary, PREFIX_LEN};
pub use cli::{check_invocation, CliError, Mode};
pub use pipeline::{file_probes, lemma_modes_agree, run_total};
pub use selection::{is_selected, keeps, lemma_nul_prefix_excluded, select, selected, Probe};
pub use tokens::{content_tokens, content_view, text_tokens, Tokenizer};
pub use vcs::{listed_paths, split_lines, tracked_files, VcsError};
