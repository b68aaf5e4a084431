use mz_rocksdb::{DBCompressionType, Options, RocksDBError, WriteOptions};

fn failure(message: &str) -> RocksDBError {
    RocksDBError {
        message: message.to_string(),
    }
}

#[test]
fn defaults_are_reasonable() {
    let options = Options::new_with_defaults(Ok("env")).unwrap();
    assert!(options.cleanup_on_new);
    assert!(!options.use_wal);
    assert_eq!(options.compression_type, DBCompressionType::Snappy);
    assert_eq!(options.env, "env");
}

#[test]
fn defaults_need_an_env() {
    match Options::<u8>::new_with_defaults(Err(failure("IO error: no env"))) {
        Ok(_) => panic!("there was no env"),
        Err(e) => assert_eq!(e.message, "IO error: no env"),
    }
}

#[test]
fn cleanup_happens_where_asked_for_and_needed() {
    let mut options = Options::new_with_defaults(Ok(())).unwrap();
    assert!(options.needs_cleanup(true));
    assert!(!options.needs_cleanup(false));
    options.cleanup_on_new = false;
    assert!(!options.needs_cleanup(true));
    assert!(!options.needs_cleanup(false));
}

#[test]
fn rocksdb_options_follow_the_options() {
    let options = Options {
        cleanup_on_new: false,
        use_wal: true,
        compression_type: DBCompressionType::Zstd,
        env: 9u8,
    };
    let rocksdb_options = options.as_rocksdb_options();
    assert!(rocksdb_options.create_if_missing);
    assert_eq!(rocksdb_options.compression_type, DBCompressionType::Zstd);
    assert_eq!(
        rocksdb_options.blob_compression_type,
        DBCompressionType::Zstd
    );
    assert_eq!(*rocksdb_options.env, 9);
}

#[test]
fn wal_is_disabled_unless_used() {
    let mut options = Options::new_with_defaults(Ok(())).unwrap();
    assert_eq!(
        options.as_rocksdb_write_options(),
        WriteOptions { disable_wal: true }
    );
    options.use_wal = true;
    assert_eq!(
        options.as_rocksdb_write_options(),
        WriteOptions { disable_wal: false }
    );
}
