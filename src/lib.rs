//! Session registry and socket-lifecycle rules for line-oriented text servers.
//!
//! The library decides; the surrounding program performs the network and file
//! work and hands the library plain values.

mod config;
mod discovery;
mod error;
mod receive;
mod registry;
mod setup;
mod wire;

pub use config::{decimal, digit_char, endpoint_text, SessionConfig};
pub use discovery::{
    choose_log_target, collect_sessions, config_of, describes, found, is_descriptor_extension,
    loopback, Descriptor, LogTarget,
};
pub use error::SessionError;
pub use receive::{
    delivered, is_payload, lemma_end_of_stream_ends_loop, lemma_ended_loop_is_silent,
    lemma_payloads_delivered_in_order, lossy_text, next_state, run_deliveries, run_state,
    DataEvent, ReadOutcome, ReceiveAction, ReceiveLoop, ReceiveState,
};
pub use registry::{admits, after_create, lemma_one_session_per_name, Registry};
pub use setup::{setup_sequence, socket_setup, SocketOption, LINGER_SECS};
pub use wire::{frame, framed, lemma_framing_adds_only_terminator, line_terminator, Framing};
