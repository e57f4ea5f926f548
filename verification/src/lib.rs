//! A minimal UDP network-discovery library.
//!
//! Two roles share one wire protocol: a responder listens on a fixed port and
//! answers the exact 4-byte probe `PING` with its host identifier; a prober
//! broadcasts one probe and collects replies for a fixed window. This crate
//! holds the verified protocol logic: what counts as a probe, how a responder
//! decides whether and what to reply, and how a prober reacts to each receive
//! outcome during its collection window. The sockets themselves live outside.

mod endpoint;
mod errors;
mod prober;
mod protocol;
mod responder;
mod role;

pub use endpoint::Endpoint;
pub use errors::DiscoveryError;
pub use prober::COLLECTION_WINDOW_MS;
pub use prober::ProbeAction;
pub use prober::ProbeEvent;
pub use prober::lossy_decode;
pub use prober::ends_collection;
pub use prober::action_for;
pub use prober::prober_step;
pub use prober::broadcast_target;
pub use prober::ProberReport;
pub use prober::CollectionEnd;
pub use prober::report_views;
pub use prober::processed_len;
pub use prober::reported;
pub use prober::run_end;
pub use prober::reply_reports;
pub use prober::collect_window;
pub use prober::lemma_collection_bounded;
pub use prober::lemma_processed_within;
pub use prober::lemma_every_reply_reported;
pub use protocol::PROBE_LEN;
pub use protocol::RECV_BUFFER_LEN;
pub use protocol::RESPONDER_PORT;
pub use protocol::probe_seq;
pub use protocol::probe_payload;
pub use protocol::bytes_equal;
pub use responder::OutboundReply;
pub use responder::respond_spec;
pub use responder::reply_view;
pub use responder::responder_step;
pub use responder::resolve_identifier;
pub use responder::lemma_non_probe_ignored;
pub use responder::lemma_probe_answered;
pub use role::InvalidReason;
pub use role::Role;
pub use role::select_role;
