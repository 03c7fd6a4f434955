use redis::{Arg, Cmd};
use typed_keys::{mget, GenericValue, IntKey, Key, SetKey, SingleValue, StringKey};

fn tokens(c: &Cmd) -> Vec<Vec<u8>> {
    c.args_iter()
        .map(|a| match a {
            Arg::Simple(b) => b.to_vec(),
            _ => panic!("unexpected cursor argument"),
        })
        .collect()
}

fn toks(words: &[&str]) -> Vec<Vec<u8>> {
    words.iter().map(|w| w.as_bytes().to_vec()).collect()
}

#[test]
fn new_then_key_gives_name_back() {
    assert_eq!(SetKey::new("a".to_string()).key(), "a");
    assert_eq!(StringKey::new("b:c".to_string()).key(), "b:c");
    assert_eq!(IntKey::new(String::new()).key(), "");
    assert_eq!(StringKey::new("ключ".to_string()).key(), "ключ");
}

#[test]
fn del_on_every_shape() {
    assert_eq!(tokens(&SetKey::new("s".to_string()).del()), toks(&["DEL", "s"]));
    assert_eq!(tokens(&StringKey::new("t".to_string()).del()), toks(&["DEL", "t"]));
    assert_eq!(tokens(&IntKey::new("i".to_string()).del()), toks(&["DEL", "i"]));
}

#[test]
fn del_packs_like_a_hand_built_command() {
    let packed = SetKey::new("myset1".to_string()).del().get_packed_command();
    assert_eq!(packed, b"*2\r\n$3\r\nDEL\r\n$6\r\nmyset1\r\n".to_vec());
}

#[test]
fn ttl_and_pttl() {
    assert_eq!(tokens(&StringKey::new("k".to_string()).ttl()), toks(&["TTL", "k"]));
    assert_eq!(tokens(&SetKey::new("k".to_string()).pttl()), toks(&["PTTL", "k"]));
}

#[test]
fn expire_writes_seconds_in_decimal() {
    assert_eq!(
        tokens(&StringKey::new("k".to_string()).expire(60)),
        toks(&["EXPIRE", "k", "60"])
    );
    assert_eq!(tokens(&SetKey::new("k".to_string()).expire(0)), toks(&["EXPIRE", "k", "0"]));
    let big = usize::MAX.to_string();
    assert_eq!(
        tokens(&IntKey::new("k".to_string()).expire(usize::MAX)),
        toks(&["EXPIRE", "k", big.as_str()])
    );
}

#[test]
fn mget_keeps_input_order() {
    let keys = vec![
        StringKey::new("k1".to_string()),
        StringKey::new("k2".to_string()),
        StringKey::new("k3".to_string()),
    ];
    assert_eq!(tokens(&mget(keys)), toks(&["MGET", "k1", "k2", "k3"]));
}

#[test]
fn mget_on_int_keys() {
    let keys = vec![IntKey::new("b".to_string()), IntKey::new("a".to_string())];
    assert_eq!(tokens(&mget(keys)), toks(&["MGET", "b", "a"]));
}

#[test]
fn mget_of_nothing_is_the_name_alone() {
    let keys: Vec<StringKey> = Vec::new();
    assert_eq!(tokens(&mget(keys)), toks(&["MGET"]));
}

#[test]
fn sunion_and_sinter_keep_input_order() {
    let names = ["x", "y", "z"];
    let union = SetKey::sunion(names.iter().map(|n| SetKey::new(n.to_string())).collect());
    let inter = SetKey::sinter(names.iter().rev().map(|n| SetKey::new(n.to_string())).collect());
    assert_eq!(tokens(&union), toks(&["SUNION", "x", "y", "z"]));
    assert_eq!(tokens(&inter), toks(&["SINTER", "z", "y", "x"]));
}

#[test]
fn sunion_and_sinter_degenerate_inputs() {
    assert_eq!(tokens(&SetKey::sunion(Vec::new())), toks(&["SUNION"]));
    assert_eq!(tokens(&SetKey::sinter(Vec::new())), toks(&["SINTER"]));
    assert_eq!(
        tokens(&SetKey::sunion(vec![SetKey::new("only".to_string())])),
        toks(&["SUNION", "only"])
    );
    assert_eq!(
        tokens(&SetKey::sinter(vec![SetKey::new("only".to_string())])),
        toks(&["SINTER", "only"])
    );
}

#[test]
fn set_and_get_on_a_string_key() {
    assert_eq!(
        tokens(&StringKey::new("name".to_string()).set("value")),
        toks(&["SET", "name", "value"])
    );
    assert_eq!(tokens(&StringKey::new("name".to_string()).get()), toks(&["GET", "name"]));
}

#[test]
fn sadd_srem_smembers() {
    assert_eq!(
        tokens(&SetKey::new("myset1".to_string()).sadd("first")),
        toks(&["SADD", "myset1", "first"])
    );
    assert_eq!(
        tokens(&SetKey::new("myset1".to_string()).srem("first")),
        toks(&["SREM", "myset1", "first"])
    );
    assert_eq!(
        tokens(&SetKey::new("myset1".to_string()).smembers()),
        toks(&["SMEMBERS", "myset1"])
    );
}

#[test]
fn incr_writes_a_signed_amount() {
    assert_eq!(
        tokens(&IntKey::new("n".to_string()).incr(5)),
        toks(&["INCRBY", "n", "5"])
    );
    assert_eq!(
        tokens(&IntKey::new("n".to_string()).incr(-12)),
        toks(&["INCRBY", "n", "-12"])
    );
    assert_eq!(
        tokens(&IntKey::new("n".to_string()).incr(i64::MIN)),
        toks(&["INCRBY", "n", "-9223372036854775808"])
    );
}

#[test]
fn key_names_go_out_as_utf8_bytes() {
    let c = StringKey::new("ключ".to_string()).get();
    assert_eq!(tokens(&c), vec![b"GET".to_vec(), "ключ".as_bytes().to_vec()]);
}

#[test]
fn int_keys_can_expire() {
    assert_eq!(tokens(&IntKey::new("n".to_string()).ttl()), toks(&["TTL", "n"]));
}
