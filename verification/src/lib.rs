//! A verified client core for driving a long-running command-line AI agent as
//! if it were a remote procedure endpoint.
//!
//! The library holds the logic of the process boundary: assembling the
//! invocation's argument vector, laying out the bytes fed to the subprocess's
//! standard input, decoding the buffered JSON response or the
//! newline-delimited event stream, and classifying every failure into one
//! error taxonomy. The live process, its pipes and the concurrent feeder task
//! are driven by a thin unverified shell around this crate.

mod builder;
mod collect;
mod error;
mod json;
mod response;
mod stream;

pub use crate::builder::Gemini;
pub use crate::builder::Invocation;
pub use crate::builder::spec_args;
pub use crate::builder::spec_join_comma;
pub use crate::builder::spec_payload;
pub use crate::builder::stdin_payload;
pub use crate::builder::lemma_args_shape;
pub use crate::collect::finish_text;
pub use crate::collect::finish_json;
pub use crate::collect::lossy_of;
pub use crate::collect::trim_of;
pub use crate::error::GeminiError;
pub use crate::json::JsonValue;
pub use crate::json::json_of;
pub use crate::json::parse_json;
pub use crate::json::obj_get;
pub use crate::json::spec_obj_get;
pub use crate::json::JsonView;
pub use crate::json::json_view;
pub use crate::json::fields_view;
pub use crate::json::clone_json;
pub use crate::response::decode_output;
pub use crate::response::decode_stats;
pub use crate::response::decode_model_stats;
pub use crate::response::decode_tool_stats;
pub use crate::response::decode_file_stats;
pub use crate::response::decode_error_detail;
pub use crate::stream::EventView;
pub use crate::response::OutputView;
pub use crate::response::StatsView;
pub use crate::response::ModelStatsView;
pub use crate::response::ErrorDetailView;
pub use crate::response::GeminiJsonOutput;
pub use crate::response::GeminiStats;
pub use crate::response::ModelStats;
pub use crate::response::ToolStats;
pub use crate::response::FileStats;
pub use crate::response::GeminiErrorDetail;
pub use crate::response::spec_decode_output;
pub use crate::response::spec_encode_output;
pub use crate::response::lemma_output_round_trip;
pub use crate::response::lemma_error_detail_round_trip;
pub use crate::stream::StreamEvent;
pub use crate::stream::decode_event;
pub use crate::stream::decode_stream_line;
pub use crate::stream::collect_events;
pub use crate::stream::lemma_stream_order;
pub use crate::stream::lemma_event_round_trip;
pub use crate::stream::spec_encode_event;
pub use crate::stream::spec_decode_event;
pub use crate::stream::spec_stream;
pub use crate::stream::events_view;
pub use crate::stream::lines_view;
pub use crate::stream::spec_line_event;
pub use crate::stream::spec_line_blank;
pub use crate::stream::non_blank_lines;
pub use crate::stream::lemma_blanks_skipped;
pub use crate::stream::lemma_stream_order_with_blanks;
