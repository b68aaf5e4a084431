use mz_rocksdb::{Error, RocksDBError, RocksDBInstance};

fn join_error() -> tokio::task::JoinError {
    let runtime = tokio::runtime::Builder::new_current_thread()
        .build()
        .unwrap();
    runtime.block_on(async {
        let task = tokio::task::spawn(async { std::future::pending::<()>().await });
        task.abort();
        task.await.unwrap_err()
    })
}

fn bincode_error() -> bincode::Error {
    Box::new(bincode::ErrorKind::SizeLimit)
}

#[test]
fn errors_describe_themselves() {
    let rocksdb = Error::RocksDB(RocksDBError {
        message: "Corruption: bad block".to_string(),
    });
    assert_eq!(rocksdb.to_string(), "Corruption: bad block");
    assert_eq!(
        Error::RocksDBThreadGoneAway.to_string(),
        "RocksDB thread has been shut down or errored"
    );
    assert_eq!(
        Error::EncodeError(bincode_error()).to_string(),
        "failed to encode value"
    );
    assert_eq!(
        Error::DecodeError(bincode_error()).to_string(),
        "failed to decode value"
    );
    assert_eq!(
        Error::TokioPanic(join_error()).to_string(),
        "tokio thread panicked"
    );
}

#[test]
fn errors_come_from_their_causes() {
    let cause = RocksDBError {
        message: "Busy".to_string(),
    };
    match Error::from(cause) {
        Error::RocksDB(e) => assert_eq!(e.message, "Busy"),
        e => panic!("{:?}", e),
    }
    match Error::from(bincode_error()) {
        Error::DecodeError(e) => assert!(matches!(*e, bincode::ErrorKind::SizeLimit)),
        e => panic!("{:?}", e),
    }
    match Error::from(join_error()) {
        Error::TokioPanic(e) => assert!(e.is_cancelled()),
        e => panic!("{:?}", e),
    }
}

#[test]
fn failed_cleanup_fails_the_instance() {
    match RocksDBInstance::<Vec<u8>, Vec<u8>>::new(Some(Err(join_error()))) {
        Err(Error::TokioPanic(e)) => assert!(e.is_cancelled()),
        _ => panic!("the cleanup panicked"),
    }
    assert!(RocksDBInstance::<Vec<u8>, Vec<u8>>::new(Some(Ok(()))).is_ok());
    assert!(RocksDBInstance::<Vec<u8>, Vec<u8>>::new(None).is_ok());
}
