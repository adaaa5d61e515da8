//! Building blocks for a node of a simulated cluster that speaks a line-delimited
//! message protocol: message envelopes, the one-time handshake, and a broadcast
//! engine that replicates a set of values by periodic full-state gossip.
//!
//! Every item here is plain logic over plain values; reading and writing the
//! transport, encoding to text and running the timer are left to the caller.

mod broadcast;
mod cluster;
mod echo;
mod known;
mod message;
mod session;
mod topology;
mod unique_id;

pub use broadcast::{
    is_ack, is_gossip, is_reply, is_request, BroadcastNode, BroadcastPayload, Event, Step, Violation,
};
pub use cluster::{
    concat_rounds, deliver, informed, is_full_round, lemma_convergence, lemma_convergence_in_rounds,
    lemma_gossip_merges, lemma_run_bounds, reach_within, run, union_all, within,
};
pub use echo::{echo_reply, EchoPayload};
pub use known::{lemma_merge_grows, lemma_merge_laws, merge, KnownValues};
pub use message::{response_to, Body, Message};
pub use session::{peers_of, InitError, InitPayload, Maelstrom, NodeMetadata};
pub use topology::{lookup, Topology};
pub use unique_id::{generate_reply, unique_id_reply, UniqueIdPayload};
