//! Key handles: a key name tagged with a shape, and the capabilities that
//! decide which commands each shape can build.
use vstd::prelude::*;

use crate::command::{
    cmd_args, cmd_del, cmd_get, cmd_incr, cmd_pttl, cmd_sadd, cmd_set, cmd_smembers, cmd_srem,
    cmd_ttl, empty_cmd, push_count, push_str, decimal, signed_decimal, token,
};

verus! {

/// A typed handle on one key of the store.
pub trait Key: Sized {
    /// The key name this handle stands for.
    spec fn key_name(&self) -> String;

    /// The handle that `new` builds from a key name.
    spec fn spec_new(key: String) -> Self;

    /// A handle built from a name gives that name back.
    proof fn lemma_new_key_name(key: String)
        ensures
            Self::spec_new(key).key_name() == key,
    ;

    fn new(key: String) -> (r: Self)
        ensures
            r == Self::spec_new(key),
    ;

    fn key(self) -> (r: String)
        ensures
            r == self.key_name(),
    ;

    /// `DEL key`: available on every shape.
    fn del(self) -> (r: redis::Cmd)
        ensures
            cmd_args(r) == seq![token("DEL"@), token(self.key_name()@)],
    {
        cmd_del(self.key())
    }
}

/// Commands that apply to a key whatever it holds: expiry.
pub trait GenericValue: Key {
    /// `TTL key`: the time left to live, in seconds.
    fn ttl(self) -> (r: redis::Cmd)
        ensures
            cmd_args(r) == seq![token("TTL"@), token(self.key_name()@)],
    {
        cmd_ttl(self.key())
    }

    /// `PTTL key`: the time left to live, in milliseconds.
    fn pttl(self) -> (r: redis::Cmd)
        ensures
            cmd_args(r) == seq![token("PTTL"@), token(self.key_name()@)],
    {
        cmd_pttl(self.key())
    }

    /// `EXPIRE key ttl_secs`: let the key expire `ttl_secs` seconds from now.
    fn expire(self, ttl_secs: usize) -> (r: redis::Cmd)
        ensures
            cmd_args(r) == seq![
                token("EXPIRE"@),
                token(self.key_name()@),
                decimal(ttl_secs as nat),
            ],
    {
        let key = self.key();
        let mut cmd = empty_cmd();
        push_str(&mut cmd, "EXPIRE");
        push_str(&mut cmd, key.as_str());
        push_count(&mut cmd, ttl_secs);
        cmd
    }
}

/// Commands for a key that holds one scalar value.
pub trait SingleValue: Key {
    /// `GET key`.
    fn get(self) -> (r: redis::Cmd)
        ensures
            cmd_args(r) == seq![token("GET"@), token(self.key_name()@)],
    {
        cmd_get(self.key())
    }

    /// `SET key val`: store `val`, overwriting what the key held.
    fn set(self, val: &str) -> (r: redis::Cmd)
        ensures
            cmd_args(r) == seq![token("SET"@), token(self.key_name()@), token(val@)],
    {
        cmd_set(self.key(), val)
    }
}

/// The name tokens of a sequence of handles, in order.
pub open spec fn key_tokens<V: Key>(keys: Seq<V>) -> Seq<Seq<u8>> {
    keys.map_values(|k: V| token(k.key_name()@))
}

/// A command named `name` whose arguments are the names of `keys`, in order.
fn multi_key_cmd<V: Key>(name: &str, keys: Vec<V>) -> (r: redis::Cmd)
    ensures
        cmd_args(r) == seq![token(name@)] + key_tokens(keys@),
{
    let ghost all = keys@;
    let mut cmd = empty_cmd();
    push_str(&mut cmd, name);
    let mut rest = keys;
    let n = rest.len();
    let mut i: usize = 0;
    while i < n
        invariant
            n == all.len(),
            i <= n,
            rest@ == all.subrange(i as int, n as int),
            cmd_args(cmd) == seq![token(name@)] + key_tokens(all.subrange(0, i as int)),
        decreases n - i,
    {
        let k = rest.remove(0);
        let k_name = k.key();
        push_str(&mut cmd, k_name.as_str());
        proof {
            assert(all.subrange(0, i + 1) =~= all.subrange(0, i as int).push(all[i as int]));
            assert(key_tokens(all.subrange(0, i + 1)) =~= key_tokens(all.subrange(0, i as int)).push(
                token(all[i as int].key_name()@),
            ));
        }
        i = i + 1;
    }
    assert(all.subrange(0, n as int) =~= all);
    cmd
}

/// `MGET k1 ... kn`: fetch several single-valued keys in one command.
pub fn mget<V: SingleValue>(keys: Vec<V>) -> (r: redis::Cmd)
    ensures
        cmd_args(r) == seq![token("MGET"@)] + key_tokens(keys@),
{
    multi_key_cmd("MGET", keys)
}

/// A key that holds a set of members.
pub struct SetKey {
    key: String,
}

impl Key for SetKey {
    closed spec fn key_name(&self) -> String {
        self.key
    }

    closed spec fn spec_new(key: String) -> Self {
        SetKey { key }
    }

    proof fn lemma_new_key_name(key: String) {
    }

    fn new(key: String) -> (r: Self) {
        SetKey { key }
    }

    fn key(self) -> (r: String) {
        self.key
    }
}

impl GenericValue for SetKey {

}

impl SetKey {
    /// `SADD key member`.
    pub fn sadd(self, member: &str) -> (r: redis::Cmd)
        ensures
            cmd_args(r) == seq![token("SADD"@), token(self.key_name()@), token(member@)],
    {
        cmd_sadd(self.key, member)
    }

    /// `SREM key member`.
    pub fn srem(self, member: &str) -> (r: redis::Cmd)
        ensures
            cmd_args(r) == seq![token("SREM"@), token(self.key_name()@), token(member@)],
    {
        cmd_srem(self.key, member)
    }

    /// `SMEMBERS key`.
    pub fn smembers(self) -> (r: redis::Cmd)
        ensures
            cmd_args(r) == seq![token("SMEMBERS"@), token(self.key_name()@)],
    {
        cmd_smembers(self.key)
    }

    /// `SUNION k1 ... kn`: the union of the sets at the given keys.
    pub fn sunion(keys: Vec<SetKey>) -> (r: redis::Cmd)
        ensures
            cmd_args(r) == seq![token("SUNION"@)] + key_tokens(keys@),
    {
        multi_key_cmd("SUNION", keys)
    }

    /// `SINTER k1 ... kn`: the intersection of the sets at the given keys.
    pub fn sinter(keys: Vec<SetKey>) -> (r: redis::Cmd)
        ensures
            cmd_args(r) == seq![token("SINTER"@)] + key_tokens(keys@),
    {
        multi_key_cmd("SINTER", keys)
    }
}

/// A key that holds one string value.
#[derive(Clone, Debug)]
pub struct StringKey {
    key: String,
}

impl Key for StringKey {
    closed spec fn key_name(&self) -> String {
        self.key
    }

    closed spec fn spec_new(key: String) -> Self {
        StringKey { key }
    }

    proof fn lemma_new_key_name(key: String) {
    }

    fn new(key: String) -> (r: Self) {
        StringKey { key }
    }

    fn key(self) -> (r: String) {
        self.key
    }
}

impl GenericValue for StringKey {

}

impl SingleValue for StringKey {

}

/// A key that holds one integer value.
pub struct IntKey {
    key: String,
}

impl Key for IntKey {
    closed spec fn key_name(&self) -> String {
        self.key
    }

    closed spec fn spec_new(key: String) -> Self {
        IntKey { key }
    }

    proof fn lemma_new_key_name(key: String) {
    }

    fn new(key: String) -> (r: Self) {
        IntKey { key }
    }

    fn key(self) -> (r: String) {
        self.key
    }
}

impl GenericValue for IntKey {

}

impl SingleValue for IntKey {

}

impl IntKey {
    /// `INCRBY key amount`: add `amount` to the stored integer.
    pub fn incr(self, amount: i64) -> (r: redis::Cmd)
        ensures
            cmd_args(r) == seq![
                token("INCRBY"@),
                token(self.key_name()@),
                signed_decimal(amount as int),
            ],
    {
        cmd_incr(self.key, amount)
    }
}

} // verus!
