//! Typed key handles for a Redis-style store: each key shape offers only the
//! operations that make sense for it, and each operation builds exactly one
//! `redis::Cmd` whose argument tokens are stated in its contract.
pub mod command;
pub mod keys;
pub mod laws;

pub use command::{cmd_args, decimal, signed_decimal, token};
pub use keys::{key_tokens, mget, GenericValue, IntKey, Key, SetKey, SingleValue, StringKey};
pub use laws::{
    lemma_key_tokens_empty, lemma_key_tokens_in_order, lemma_key_tokens_single,
    lemma_key_tokens_three, lemma_new_then_key,
};
