use datalayerapi_tidb::utils::pools::ConnectionPools;

#[test]
fn lookup_gives_back_what_was_registered() {
    let mut pools: ConnectionPools<u32> = ConnectionPools::new();
    assert_eq!(pools.get("a"), None);
    pools.insert("a".to_string(), 1);
    pools.insert("b".to_string(), 2);
    assert_eq!(pools.get("a"), Some(&1));
    assert_eq!(pools.get("b"), Some(&2));
    assert_eq!(pools.get("c"), None);
}

#[test]
fn registering_again_replaces() {
    let mut pools: ConnectionPools<u32> = ConnectionPools::new();
    pools.insert("a".to_string(), 1);
    pools.insert("a".to_string(), 5);
    assert_eq!(pools.get("a"), Some(&5));
}
