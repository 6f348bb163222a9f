//! Sends a DNS NOTIFY request to a secondary name server so that it refreshes a zone.
//!
//! The library holds everything that decides: reading the command-line values,
//! the wire form of the NOTIFY query, the judgement of a response, and the retry
//! controller that runs the attempts. Sockets and printing stay with the caller.
pub mod config;
pub mod exit;
pub mod record_type;
pub mod retry;
pub mod wire;

pub use config::{Config, parse_parameters, parse_u16};
pub use exit::ExitCodes;
pub use record_type::RecordType;
pub use retry::{Action, Event, Phase, RetryController};
pub use wire::{Evaluation, build_notify_query, encode_name, evaluate_response, split_labels};
