use pdmake::cache::{fingerprint, Cache};

#[test]
fn known_checksum_value() {
    // The CRC32 check value: the checksum of the digits "123456789".
    assert_eq!(fingerprint(b"123456789"), 0xCBF4_3926);
}

#[test]
fn unchanged_file_rechecks_as_unchanged() {
    let mut cache = Cache::empty();
    let data = b"local x = 1".to_vec();
    assert!(!cache.check("source/a.lua", &data));
    cache.update("source/a.lua", &data);
    assert!(cache.check("source/a.lua", &data));
    // A second run over the same bytes still reports "unchanged".
    assert!(cache.check("source/a.lua", &data));
}

#[test]
fn flipping_one_byte_changes_only_that_file() {
    let mut cache = Cache::empty();
    let a = b"local x = 1".to_vec();
    let b = b"local y = 2".to_vec();
    cache.update("source/a.lua", &a);
    cache.update("source/b.lua", &b);

    let mut a_flipped = a.clone();
    a_flipped[0] ^= 0x01;
    assert!(!cache.check("source/a.lua", &a_flipped));
    assert!(cache.check("source/b.lua", &b));
}

#[test]
fn keys_are_separator_normalized() {
    let mut cache = Cache::empty();
    let data = b"bytes".to_vec();
    cache.update("source\\sub\\a.lua", &data);
    assert!(cache.check("source/sub/a.lua", &data));
}

#[test]
fn update_overwrites_prior_fingerprint() {
    let mut cache = Cache::empty();
    let old = b"old".to_vec();
    let new = b"new".to_vec();
    cache.update("f.lua", &old);
    cache.update("f.lua", &new);
    assert!(!cache.check("f.lua", &old));
    assert!(cache.check("f.lua", &new));
}

#[test]
fn store_round_trips() {
    let mut cache = Cache::empty();
    let a = b"alpha".to_vec();
    let b = b"beta".to_vec();
    cache.update("a.lua", &a);
    cache.update("dir/b.plua", &b);
    let text = cache.to_store_string().expect("serializing the cache store");
    let reloaded = Cache::from_store_string(&text).expect("reloading the cache store");
    assert!(reloaded.check("a.lua", &a));
    assert!(reloaded.check("dir/b.plua", &b));
    assert!(!reloaded.check("a.lua", &b));
    assert!(!reloaded.check("missing.lua", &a));
}

#[test]
fn malformed_store_is_a_parse_error() {
    assert!(Cache::from_store_string("not a store at all").is_err());
}

#[test]
fn duplicated_key_in_store_is_a_parse_error() {
    // A syntactically valid store that names the same path twice.
    let text = "[(\"a.lua\",1),(\"a.lua\",2)]";
    assert!(Cache::from_store_string(text).is_err());
}

#[test]
fn empty_cache_store_round_trips() {
    let cache = Cache::empty();
    let text = cache.to_store_string().expect("serializing the empty store");
    let reloaded = Cache::from_store_string(&text).expect("reloading the empty store");
    assert!(!reloaded.check("anything.lua", b"data".as_slice()));
}

#[test]
fn unreadable_file_counts_as_changed() {
    let mut cache = Cache::empty();
    let data = b"bytes".to_vec();
    cache.update("a.lua", &data);
    assert!(cache.check_read("a.lua", Some(&data)));
    assert!(!cache.check_read("a.lua", None));
    assert!(!cache.check_read("missing.lua", None));
}
