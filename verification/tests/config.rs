use bee::snapshot::config::{
    LocalSnapshotConfig, LocalSnapshotConfigBuilder, DEFAULT_DEPTH, DEFAULT_INTERVAL_SYNCED,
    DEFAULT_INTERVAL_UNSYNCED, DEFAULT_PATH,
};

#[test]
fn finish_without_settings_gives_defaults() {
    let config = LocalSnapshotConfig::build().finish();
    assert_eq!(config.path(), "./snapshots/mainnet/export.bin");
    assert_eq!(config.path(), DEFAULT_PATH);
    assert!(config.download_urls().is_empty());
    assert_eq!(config.depth(), 50);
    assert_eq!(config.depth(), DEFAULT_DEPTH);
    assert_eq!(config.interval_synced(), 50);
    assert_eq!(config.interval_synced(), DEFAULT_INTERVAL_SYNCED);
    assert_eq!(config.interval_unsynced(), 1000);
    assert_eq!(config.interval_unsynced(), DEFAULT_INTERVAL_UNSYNCED);
}

#[test]
fn finish_keeps_set_values() {
    let config = LocalSnapshotConfigBuilder::new()
        .path(String::from("/tmp/snapshot.bin"))
        .download_urls(vec![String::from("https://a"), String::from("https://b")])
        .depth(7)
        .interval_synced(8)
        .interval_unsynced(9)
        .finish();
    assert_eq!(config.path(), "/tmp/snapshot.bin");
    assert_eq!(config.download_urls(), &vec![String::from("https://a"), String::from("https://b")]);
    assert_eq!(config.depth(), 7);
    assert_eq!(config.interval_synced(), 8);
    assert_eq!(config.interval_unsynced(), 9);
}

#[test]
fn setting_one_value_keeps_other_defaults() {
    let config = LocalSnapshotConfigBuilder::default().depth(3).finish();
    assert_eq!(config.depth(), 3);
    assert_eq!(config.path(), DEFAULT_PATH);
    assert!(config.download_urls().is_empty());
    assert_eq!(config.interval_synced(), 50);
    assert_eq!(config.interval_unsynced(), 1000);
}

#[test]
fn last_set_value_wins() {
    let config = LocalSnapshotConfig::build().interval_synced(1).interval_synced(2).finish();
    assert_eq!(config.interval_synced(), 2);
}

#[test]
fn config_clone_keeps_values() {
    let config = LocalSnapshotConfig::build().path(String::from("x")).finish();
    let copy = config.clone();
    assert_eq!(copy.path(), "x");
    assert_eq!(copy.depth(), config.depth());
}

#[test]
fn any_setter_sequence_keeps_last_values() {
    let config = LocalSnapshotConfig::build()
        .path(String::from("a"))
        .depth(1)
        .download_urls(vec![String::from("u")])
        .path(String::from("b"))
        .interval_unsynced(5)
        .depth(2)
        .download_urls(vec![])
        .finish();
    assert_eq!(config.path(), "b");
    assert!(config.download_urls().is_empty());
    assert_eq!(config.depth(), 2);
    assert_eq!(config.interval_synced(), 50);
    assert_eq!(config.interval_unsynced(), 5);
}
