use mz_rocksdb::{Command, Error, Request, RocksDBError, RocksDBInstance};

type Instance = RocksDBInstance<Vec<u8>, u64>;

fn instance() -> Instance {
    match Instance::new(None) {
        Ok(instance) => instance,
        Err(e) => panic!("{:?}", e),
    }
}

fn rocksdb_error() -> Error {
    Error::RocksDB(RocksDBError {
        message: "IO error: disk".to_string(),
    })
}

#[test]
fn get_of_no_keys_sends_nothing() {
    let mut instance = instance();
    let results_out: Vec<&mut Option<u64>> = vec![];
    match instance.multi_get_request(vec![], &results_out) {
        Request::Done(size) => assert_eq!(size, 0),
        Request::Send { .. } => panic!("there is nothing to get"),
    }
}

#[test]
fn get_sends_its_keys_in_order() {
    let mut instance = instance();
    let (mut a, mut b) = (Some(1), None);
    let results_out = vec![&mut a, &mut b];
    match instance.multi_get_request(vec![b"b".to_vec(), b"a".to_vec()], &results_out) {
        Request::Send {
            command:
                Command::MultiGet {
                    batch,
                    results_scratch,
                },
            size,
        } => {
            assert_eq!(batch, vec![b"b".to_vec(), b"a".to_vec()]);
            assert!(results_scratch.is_empty());
            assert_eq!(size, 2);
        }
        _ => panic!("two keys to get"),
    }
}

#[test]
fn get_fills_each_place() {
    let mut instance = instance();
    let (mut a, mut b, mut c) = (Some(1), Some(2), None);
    let results_out = vec![&mut a, &mut b, &mut c];
    let response = Ok((Vec::new(), vec![Some(10), None, Some(30)]));
    let size = instance.multi_get_response(Some(response), results_out);
    assert!(matches!(size, Ok(3)));
    assert_eq!((a, b, c), (Some(10), None, Some(30)));
}

#[test]
fn failed_get_leaves_the_places_alone() {
    let mut instance = instance();
    let mut a = Some(1);
    match instance.multi_get_response(Some(Err(rocksdb_error())), vec![&mut a]) {
        Err(Error::RocksDB(e)) => assert_eq!(e.message, "IO error: disk"),
        r => panic!("{:?}", r),
    }
    assert_eq!(a, Some(1));
    assert!(matches!(
        instance.multi_get_response(None, vec![&mut a]),
        Err(Error::RocksDBThreadGoneAway)
    ));
    assert_eq!(a, Some(1));
}

#[test]
fn scratch_left_in_a_response_is_not_sent_again() {
    let mut instance = instance();
    let mut a = None;
    let response = Ok((vec![b"old".to_vec()], vec![Some(1)]));
    instance
        .multi_get_response(Some(response), vec![&mut a])
        .unwrap();
    instance
        .multi_put_response(1, Some(Ok(vec![(b"old".to_vec(), Some(1))])))
        .unwrap();
    match instance.multi_get_request(vec![b"new".to_vec()], &vec![&mut a]) {
        Request::Send {
            command:
                Command::MultiGet {
                    batch,
                    results_scratch,
                },
            ..
        } => {
            assert_eq!(batch, vec![b"new".to_vec()]);
            assert!(results_scratch.is_empty());
        }
        _ => panic!("one key to get"),
    }
    match instance.multi_put_request(vec![(b"new".to_vec(), None)]) {
        Request::Send {
            command: Command::MultiPut { batch },
            size,
        } => {
            assert_eq!(batch, vec![(b"new".to_vec(), None)]);
            assert_eq!(size, 1);
        }
        _ => panic!("one key to put"),
    }
}

#[test]
fn put_of_nothing_sends_nothing() {
    match instance().multi_put_request(vec![]) {
        Request::Done(size) => assert_eq!(size, 0),
        Request::Send { .. } => panic!("there is nothing to put"),
    }
}

#[test]
fn put_sends_its_puts_in_order() {
    let puts = vec![
        (b"a".to_vec(), Some(1)),
        (b"b".to_vec(), None),
        (b"a".to_vec(), Some(2)),
    ];
    match instance().multi_put_request(puts.clone()) {
        Request::Send {
            command: Command::MultiPut { batch },
            size,
        } => {
            assert_eq!(batch, puts);
            assert_eq!(size, 3);
        }
        _ => panic!("three puts"),
    }
}

#[test]
fn put_returns_the_number_of_puts() {
    let mut instance = instance();
    assert!(matches!(
        instance.multi_put_response(3, Some(Ok(Vec::new()))),
        Ok(3)
    ));
    assert!(matches!(
        instance.multi_put_response(3, Some(Err(rocksdb_error()))),
        Err(Error::RocksDB(_))
    ));
    assert!(matches!(
        instance.multi_put_response(3, None),
        Err(Error::RocksDBThreadGoneAway)
    ));
}

#[test]
fn close_asks_for_a_shutdown() {
    assert!(matches!(instance().close_request(), Command::Shutdown));
    assert!(Instance::close_response(true).is_ok());
    assert!(matches!(
        Instance::close_response(false),
        Err(Error::RocksDBThreadGoneAway)
    ));
}
