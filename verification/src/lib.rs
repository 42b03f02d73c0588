//! A constant-product style pair of two cw20 tokens: liquidity providers
//! deposit both tokens for LP tokens and burn LP tokens for their share of the
//! reserves; traders swap one token for the other at the pool's quote, less a
//! fee. The library holds the pair's rules; its host runs storage, queries to
//! other contracts and the encoding of messages and answers.
pub mod amm;
pub mod contract;
pub mod encode;
pub mod error;
pub mod guard;
pub mod laws;
pub mod model;
pub mod msg;
pub mod response;
pub mod router;
pub mod state;
