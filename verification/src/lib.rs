//! Bridges a chat-platform slash command to a remote text-generation
//! service: builds the generation request, encodes it for the wire,
//! interprets the structured reply, splits oversized answers into
//! deliverable chunks, and decides the lifecycle of one inbound
//! interaction from acknowledgment to a terminal state.
pub mod api;
pub mod delivery;
pub mod errors;
pub mod lifecycle;
pub mod numerals;
pub mod wire;
