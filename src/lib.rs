//! Cross-chain token bridge controller: authorization of inbound messages,
//! the payload codec, deterministic account addressing, and the dispatch of
//! the single token movement that an accepted message calls for.
pub mod accounts;
pub mod address;
pub mod bytes;
pub mod codec;
pub mod constants;
pub mod error;
pub mod outbound;
pub mod receive;
pub mod setup;
pub mod state;
