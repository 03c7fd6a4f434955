//! Facts about key handles and the commands built from them.
use vstd::prelude::*;

use crate::command::token;
use crate::keys::{key_tokens, Key};

verus! {

/// For every shape `S` and key name `n`, the handle `S::new(n)` gives back
/// exactly `n` from `key()`.
pub proof fn lemma_new_then_key<S: Key>(n: String)
    ensures
        S::spec_new(n).key_name() == n,
{
    S::lemma_new_key_name(n);
}

/// The argument tokens of a multi-key command follow the handles one for one
/// and in order: the i-th argument after the command name is the i-th key name.
pub proof fn lemma_key_tokens_in_order<V: Key>(keys: Seq<V>)
    ensures
        key_tokens(keys).len() == keys.len(),
        forall|i: int| 0 <= i < keys.len() ==> #[trigger] key_tokens(keys)[i] == token(keys[i].key_name()@),
{
}

/// With no handles a multi-key command holds its name alone.
pub proof fn lemma_key_tokens_empty<V: Key>()
    ensures
        key_tokens(Seq::<V>::empty()) == Seq::<Seq<u8>>::empty(),
{
    assert(key_tokens(Seq::<V>::empty()) =~= Seq::<Seq<u8>>::empty());
}

/// With one handle a multi-key command holds its name and that key name.
pub proof fn lemma_key_tokens_single<V: Key>(k: V)
    ensures
        key_tokens(seq![k]) == seq![token(k.key_name()@)],
{
    assert(key_tokens(seq![k]) =~= seq![token(k.key_name()@)]);
}

/// Three handles `[k1, k2, k3]` give the three key names in that order.
pub proof fn lemma_key_tokens_three<V: Key>(k1: V, k2: V, k3: V)
    ensures
        key_tokens(seq![k1, k2, k3]) == seq![
            token(k1.key_name()@),
            token(k2.key_name()@),
            token(k3.key_name()@),
        ],
{
    assert(key_tokens(seq![k1, k2, k3]) =~= seq![
        token(k1.key_name()@),
        token(k2.key_name()@),
        token(k3.key_name()@),
    ]);
}

} // verus!
