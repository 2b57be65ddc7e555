//! Abstract contracts between a text-generation consumer and pluggable
//! generation backends.
//!
//! The crate fixes three things every backend and every consumer must agree
//! on: an immutable per-request configuration value with documented defaults
//! (`TextGenerationOptions` and its builder), two capability contracts a
//! backend may satisfy (`TextGenerationStream`, the minimal raw-fragment
//! streamer, and `TextGeneration`, the rich generator whose fragments carry
//! an is-final marker), and the fixed "first final wins" algorithm that
//! derives a single-string result from the rich capability. An adapter lifts
//! any raw streamer to the rich contract, and a helper wraps an
//! already-computed string as a one-element fragment sequence.

pub mod helpers;

mod generation;
mod options;
mod streams;

pub use generation::first_final_step;
pub use generation::first_final_text;
pub use generation::lemma_first_final_of_merge;
pub use generation::make_text_generation;
pub use generation::merge_raw_stream;
pub use generation::spec_concat;
pub use generation::spec_first_final;
pub use generation::spec_merge;
pub use generation::FragmentMerger;
pub use generation::TextGeneration;
pub use generation::TextGenerationImpl;
pub use generation::TextGenerationStream;
pub use options::TextGenerationOptions;
pub use options::TextGenerationOptionsBuilder;
pub use streams::GenerationStream;
pub use streams::TextStream;
