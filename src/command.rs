//! The command value: a `redis::Cmd`, seen through the byte tokens it holds.
use vstd::prelude::*;
use vstd::string::StringSliceAdditionalSpecFns;
use vstd::utf8::encode_utf8;



verus! {

#[verifier::external_type_specification]
#[verifier::external_body]
pub struct ExCmd(redis::Cmd);

/// The argument tokens a command holds, the command name first, each as the
/// bytes that go on the wire.
pub uninterp spec fn cmd_args(c: redis::Cmd) -> Seq<Seq<u8>>;

/// Relies on `redis::Cmd::new`: a new command holds no arguments.
#[verifier::external_body]
pub(crate) fn empty_cmd() -> (r: redis::Cmd)
    ensures
        cmd_args(r) == Seq::<Seq<u8>>::empty(),
{
    redis::Cmd::new()
}

/// Relies on `redis::Cmd::arg` for a `&str`: the string's UTF-8 bytes become
/// one more argument.
#[verifier::external_body]
pub(crate) fn push_str(c: &mut redis::Cmd, s: &str)
    ensures
        cmd_args(*final(c)) == cmd_args(*old(c)).push(s.spec_bytes()),
{
    c.arg(s);
}

/// Relies on `redis::Cmd::arg` for a `usize`: its decimal digits become one
/// more argument.
#[verifier::external_body]
pub(crate) fn push_count(c: &mut redis::Cmd, n: usize)
    ensures
        cmd_args(*final(c)) == cmd_args(*old(c)).push(decimal(n as nat)),
{
    c.arg(n);
}

/// Relies on `redis::Cmd::del`: `DEL` followed by the key.
#[verifier::external_body]
pub(crate) fn cmd_del(key: String) -> (r: redis::Cmd)
    ensures
        cmd_args(r) == seq![token("DEL"@), token(key@)],
{
    redis::Cmd::del(key)
}

/// Relies on `redis::Cmd::ttl`: `TTL` followed by the key.
#[verifier::external_body]
pub(crate) fn cmd_ttl(key: String) -> (r: redis::Cmd)
    ensures
        cmd_args(r) == seq![token("TTL"@), token(key@)],
{
    redis::Cmd::ttl(key)
}

/// Relies on `redis::Cmd::pttl`: `PTTL` followed by the key.
#[verifier::external_body]
pub(crate) fn cmd_pttl(key: String) -> (r: redis::Cmd)
    ensures
        cmd_args(r) == seq![token("PTTL"@), token(key@)],
{
    redis::Cmd::pttl(key)
}

/// Relies on `redis::Cmd::get`: `GET` followed by the key.
#[verifier::external_body]
pub(crate) fn cmd_get(key: String) -> (r: redis::Cmd)
    ensures
        cmd_args(r) == seq![token("GET"@), token(key@)],
{
    redis::Cmd::get(key)
}

/// Relies on `redis::Cmd::set`: `SET`, the key, then the value.
#[verifier::external_body]
pub(crate) fn cmd_set(key: String, value: &str) -> (r: redis::Cmd)
    ensures
        cmd_args(r) == seq![token("SET"@), token(key@), token(value@)],
{
    redis::Cmd::set(key, value)
}

/// Relies on `redis::Cmd::sadd`: `SADD`, the key, then the member.
#[verifier::external_body]
pub(crate) fn cmd_sadd(key: String, member: &str) -> (r: redis::Cmd)
    ensures
        cmd_args(r) == seq![token("SADD"@), token(key@), token(member@)],
{
    redis::Cmd::sadd(key, member)
}

/// Relies on `redis::Cmd::srem`: `SREM`, the key, then the member.
#[verifier::external_body]
pub(crate) fn cmd_srem(key: String, member: &str) -> (r: redis::Cmd)
    ensures
        cmd_args(r) == seq![token("SREM"@), token(key@), token(member@)],
{
    redis::Cmd::srem(key, member)
}

/// Relies on `redis::Cmd::smembers`: `SMEMBERS` followed by the key.
#[verifier::external_body]
pub(crate) fn cmd_smembers(key: String) -> (r: redis::Cmd)
    ensures
        cmd_args(r) == seq![token("SMEMBERS"@), token(key@)],
{
    redis::Cmd::smembers(key)
}

/// Relies on `redis::Cmd::incr`: for an integer delta it issues `INCRBY`,
/// the key, then the delta in decimal.
#[verifier::external_body]
pub(crate) fn cmd_incr(key: String, delta: i64) -> (r: redis::Cmd)
    ensures
        cmd_args(r) == seq![token("INCRBY"@), token(key@), signed_decimal(delta as int)],
{
    redis::Cmd::incr(key, delta)
}

/// The bytes of a string as one token.
pub open spec fn token(s: Seq<char>) -> Seq<u8> {
    encode_utf8(s)
}

/// The ASCII decimal digits of a natural number, most significant first.
pub open spec fn decimal(n: nat) -> Seq<u8>
    decreases n,
{
    if n < 10 {
        seq![(48 + n) as u8]
    } else {
        decimal(n / 10).push((48 + n % 10) as u8)
    }
}

/// The ASCII decimal form of an integer, with a leading `-` when negative.
pub open spec fn signed_decimal(n: int) -> Seq<u8> {
    if n < 0 {
        seq![45u8] + decimal((-n) as nat)
    } else {
        decimal(n as nat)
    }
}

} // verus!
