use mz_rocksdb::core_loop::{collect_gets, decode_values, encode_batch};
use mz_rocksdb::{
    Action, Command, CoreLoop, CoreState, Error, Event, Options, Request, RocksDBError,
    RocksDBInstance, Value, WriteOp, WriteOptions,
};

/// A number that is encoded in one byte; numbers from 100 on cannot be encoded, and bytes from 50 on
/// cannot be decoded.
#[derive(Debug, Clone, Copy, PartialEq)]
struct Small(u8);

impl Value for Small {
    type Model = u8;

    fn encode(&self) -> Result<Vec<u8>, bincode::Error> {
        if self.0 < 100 {
            Ok(vec![self.0])
        } else {
            Err(Box::new(bincode::ErrorKind::InvalidTagEncoding(
                self.0 as usize,
            )))
        }
    }

    fn decode(bytes: &[u8]) -> Result<Self, bincode::Error> {
        if bytes[0] < 50 {
            Ok(Small(bytes[0]))
        } else {
            Err(Box::new(bincode::ErrorKind::InvalidBoolEncoding(bytes[0])))
        }
    }
}

type Core = CoreLoop<u32, Small>;

fn thread(use_wal: bool) -> Core {
    let mut options = Options::new_with_defaults(Ok(())).unwrap();
    options.use_wal = use_wal;
    CoreLoop::new(&options)
}

fn failure(message: &str) -> RocksDBError {
    RocksDBError {
        message: message.to_string(),
    }
}

fn read(thread: &mut Core, keys: Vec<u32>) {
    let command = Command::MultiGet {
        batch: keys.clone(),
        results_scratch: Vec::new(),
    };
    match thread.step(Event::Received(command)) {
        Action::MultiGet { batch } => assert_eq!(batch, keys),
        _ => panic!("the keys are to be read"),
    }
    assert!(matches!(thread.state, CoreState::Reading { .. }));
}

fn put(thread: &mut Core, puts: Vec<(u32, Option<Small>)>) -> Action<u32, Small> {
    thread.step(Event::Received(Command::MultiPut { batch: puts }))
}

fn same(write: &WriteOp<u32>, key: u32, value: Option<&[u8]>) -> bool {
    match write {
        WriteOp::Put { key: k, value: v } => *k == key && Some(v.as_slice()) == value,
        WriteOp::Delete { key: k } => *k == key && value.is_none(),
    }
}

#[test]
fn put_is_written_in_order() {
    let mut thread = thread(false);
    let puts = vec![
        (1, Some(Small(4))),
        (2, None),
        (1, Some(Small(5))),
        (3, Some(Small(99))),
    ];
    match put(&mut thread, puts) {
        Action::Write { writes, options } => {
            assert_eq!(writes.len(), 4);
            assert!(same(&writes[0], 1, Some(&[4])));
            assert!(same(&writes[1], 2, None));
            assert!(same(&writes[2], 1, Some(&[5])));
            assert!(same(&writes[3], 3, Some(&[99])));
            assert_eq!(options, WriteOptions { disable_wal: true });
        }
        _ => panic!("the puts are to be written"),
    }
    match thread.step(Event::Written(Ok(()))) {
        Action::AnswerPut { observed, answer } => {
            assert_eq!(observed, Some(4));
            assert_eq!(answer.unwrap(), vec![]);
        }
        _ => panic!("the command is to be answered"),
    }
    assert!(matches!(thread.state, CoreState::Waiting));
}

#[test]
fn writes_use_the_wal_where_asked() {
    let mut thread = thread(true);
    match put(&mut thread, vec![(1, None)]) {
        Action::Write { options, .. } => {
            assert_eq!(options, WriteOptions { disable_wal: false })
        }
        _ => panic!("the put is to be written"),
    }
}

#[test]
fn failed_write_ends_the_thread() {
    let mut thread = thread(false);
    put(&mut thread, vec![(1, None)]);
    match thread.step(Event::Written(Err(failure("IO error: full")))) {
        Action::AnswerPut {
            observed,
            answer: Err(Error::RocksDB(e)),
        } => {
            assert_eq!(observed, None);
            assert_eq!(e.message, "IO error: full");
        }
        _ => panic!("the command is to be answered with the error"),
    }
    assert!(matches!(thread.state, CoreState::Stopped));
}

#[test]
fn unencodable_put_writes_nothing() {
    let mut thread = thread(false);
    let puts = vec![
        (1, Some(Small(1))),
        (2, Some(Small(120))),
        (3, Some(Small(130))),
    ];
    match put(&mut thread, puts) {
        Action::AnswerPut {
            observed,
            answer: Err(Error::EncodeError(e)),
        } => {
            assert_eq!(observed, None);
            assert!(matches!(*e, bincode::ErrorKind::InvalidTagEncoding(120)));
        }
        _ => panic!("the second value cannot be encoded"),
    }
    assert!(matches!(thread.state, CoreState::Stopped));
}

#[test]
fn unencodable_put_fails_with_an_encode_error() {
    let mut thread = thread(false);
    let mut instance: RocksDBInstance<u32, Small> =
        RocksDBInstance::new(None).unwrap_or_else(|e| panic!("{:?}", e));
    let (command, size) = match instance.multi_put_request(vec![(1, Some(Small(100)))]) {
        Request::Send { command, size } => (command, size),
        Request::Done(_) => panic!("one put"),
    };
    let answer = match thread.step(Event::Received(command)) {
        Action::AnswerPut { answer, .. } => answer,
        _ => panic!("the command is to be answered"),
    };
    match instance.multi_put_response(size, Some(answer)) {
        Err(Error::EncodeError(e)) => {
            assert!(matches!(*e, bincode::ErrorKind::InvalidTagEncoding(100)))
        }
        r => panic!("{:?}", r),
    }
}

#[test]
fn read_values_are_answered_in_order() {
    let mut thread = thread(false);
    read(&mut thread, vec![1, 2, 3]);
    let gets = vec![Ok(Some(vec![7])), Ok(None), Ok(Some(vec![49]))];
    // Whatever the batch vector holds, it is given back empty.
    match thread.step(Event::Gets {
        batch: vec![1],
        gets,
    }) {
        Action::AnswerGet { observed, answer } => {
            assert_eq!(observed, Some(3));
            let (batch, results) = answer.unwrap();
            assert!(batch.is_empty());
            assert_eq!(results, vec![Some(Small(7)), None, Some(Small(49))]);
        }
        _ => panic!("the command is to be answered"),
    }
    assert!(matches!(thread.state, CoreState::Waiting));
}

#[test]
fn failed_read_is_answered_with_the_first_error() {
    let mut thread = thread(false);
    read(&mut thread, vec![1, 2, 3, 4]);
    let gets = vec![
        Ok(Some(vec![200])),
        Err(failure("first")),
        Ok(None),
        Err(failure("second")),
    ];
    match thread.step(Event::Gets {
        batch: Vec::new(),
        gets,
    }) {
        Action::AnswerGet {
            observed,
            answer: Err(Error::RocksDB(e)),
        } => {
            assert_eq!(observed, None);
            assert_eq!(e.message, "first");
        }
        _ => panic!("the command is to be answered with the error"),
    }
    assert!(matches!(thread.state, CoreState::Stopped));
}

#[test]
fn undecodable_read_is_recorded_and_ends_the_thread() {
    let mut thread = thread(false);
    read(&mut thread, vec![1, 2, 3]);
    let gets = vec![Ok(Some(vec![1])), Ok(Some(vec![60])), Ok(Some(vec![70]))];
    match thread.step(Event::Gets {
        batch: Vec::new(),
        gets,
    }) {
        Action::AnswerGet {
            observed,
            answer: Err(Error::DecodeError(e)),
        } => {
            assert_eq!(observed, Some(3));
            assert!(matches!(*e, bincode::ErrorKind::InvalidBoolEncoding(60)));
        }
        _ => panic!("the second value cannot be decoded"),
    }
    assert!(matches!(thread.state, CoreState::Stopped));
}

#[test]
fn shutdown_closes_and_is_acknowledged() {
    let mut thread = thread(false);
    match thread.step(Event::Received(Command::Shutdown)) {
        Action::Close { acknowledge } => assert!(acknowledge),
        _ => panic!("the database is to be closed"),
    }
    assert!(matches!(thread.state, CoreState::Stopped));
}

#[test]
fn abandoned_thread_closes() {
    let mut thread = thread(false);
    match thread.step(Event::Disconnected) {
        Action::Close { acknowledge } => assert!(!acknowledge),
        _ => panic!("the database is to be closed"),
    }
    assert!(matches!(thread.state, CoreState::Stopped));
}

#[test]
fn batches_are_encoded_and_emptied() {
    let mut batch = vec![(1u32, Some(vec![9u8])), (2, None)];
    let writes = encode_batch(&mut batch).unwrap();
    assert!(batch.is_empty());
    assert_eq!(writes.len(), 2);
    assert!(same(&writes[0], 1, Some(&[1, 0, 0, 0, 0, 0, 0, 0, 9])));
    assert!(same(&writes[1], 2, None));

    let mut batch = vec![(1u32, Some(Small(100)))];
    assert!(encode_batch(&mut batch).is_err());
    assert!(batch.is_empty());
}

#[test]
fn gets_are_collected() {
    let stored = collect_gets(vec![Ok(None), Ok(Some(vec![1, 2]))]).unwrap();
    assert_eq!(stored, vec![None, Some(vec![1, 2])]);
    let error = collect_gets(vec![Ok(None), Err(failure("gone"))]).unwrap_err();
    assert_eq!(error.message, "gone");
}

#[test]
fn values_are_decoded_behind_the_scratch() {
    let stored = vec![Some(vec![3]), None];
    let results = decode_values(stored, vec![Some(Small(1))]).unwrap();
    assert_eq!(results, vec![Some(Small(1)), Some(Small(3)), None]);

    let bytes = vec![Some(vec![1, 0, 0, 0, 0, 0, 0, 0, 6]), None];
    let results: Vec<Option<Vec<u8>>> = decode_values(bytes, Vec::new()).unwrap();
    assert_eq!(results, vec![Some(vec![6]), None]);
}
