//! Deterministic wallets on one shared signing service.
//!
//! A threshold signing service holds one secp256k1 root key and never shows
//! its private part. This library gives every caller identity a key pair
//! and an account address of its own, derived from the root key along a
//! path that encodes the identity, and turns the service's raw signatures
//! over 32-byte digests into recoverable signatures.
//!
//! - [`derivation`]: from an identity to its derivation path and key.
//! - [`ecdsa`]: public keys, derivation and verification.
//! - [`address`]: from a public key to its 20-byte address.
//! - [`recovery`]: recovery ids and the resolver that finds the one under
//!   which a signature recovers a given key.
//! - [`signing`]: the request to the signer and what is made of its reply.
//! - [`ethereum_wallet`]: the wallet of one owner.
//! - [`state`]: settings, the root key and the keys derived so far.
//! - [`error`]: the four ways in which an operation fails.
//!
//! The wallets serve a grid of squares, each named by a geohash and each
//! with a token of its own:
//!
//! - [`registry`]: the services that are asked, and the token of each
//!   square.
//! - [`types`], [`nft_mint`], [`nft_lookup`]: tokens and their metadata.
//! - [`ipns`]: the names and figures published for a square.
//! - [`square`], [`square_flow`]: the report on a square and the steps
//!   that lead to it.
//! - [`string_map`], [`bytes`]: helpers.
//!
//! Elliptic-curve arithmetic and hashing are done by outside crates. What
//! they compute is named by spec functions without a body ([`ecdsa::sec1_point`],
//! [`ecdsa::derived_subkey`], [`ecdsa::ecdsa_verifies`],
//! [`recovery::recovered_key`], [`address::keccak256_digest`],
//! [`ipns::sha256_digest`], [`ipns::base58_text`]); everything else is
//! proved relative to these names.

pub mod address;
pub mod bytes;
pub mod derivation;
pub mod ecdsa;
pub mod error;
pub mod ethereum_wallet;
pub mod ipns;
pub mod nft_lookup;
pub mod nft_mint;
pub mod recovery;
pub mod registry;
pub mod signing;
pub mod square;
pub mod square_flow;
pub mod state;
pub mod string_map;
pub mod types;
