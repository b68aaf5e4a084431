use std::collections::BTreeMap;

use mz_rocksdb::{
    Action, Command, CoreLoop, CoreState, Error, Event, Options, Request, RocksDBInstance, WriteOp,
};

type Key = &'static [u8];
type Bytes = Vec<u8>;

/// A thread that runs over a map, and an instance that talks to it.
struct Service {
    store: BTreeMap<Bytes, Bytes>,
    core: CoreLoop<Key, Bytes>,
    instance: RocksDBInstance<Key, Bytes>,
}

enum Answer {
    Get(Result<(Vec<Key>, Vec<Option<Bytes>>), Error>),
    Put(Result<Vec<(Key, Option<Bytes>)>, Error>),
    Closed,
}

impl Service {
    fn new() -> Service {
        Service {
            store: BTreeMap::new(),
            core: CoreLoop::new(&Options::new_with_defaults(Ok(())).unwrap()),
            instance: RocksDBInstance::new(None).unwrap_or_else(|e| panic!("{:?}", e)),
        }
    }

    fn serve(&mut self, command: Command<Key, Bytes>) -> Option<Answer> {
        if matches!(self.core.state, CoreState::Stopped) {
            return None;
        }
        let mut event = Event::Received(command);
        loop {
            event = match self.core.step(event) {
                Action::MultiGet { mut batch } => {
                    let store = &self.store;
                    let gets = batch.drain(..).map(|k| Ok(store.get(k).cloned())).collect();
                    Event::Gets { batch, gets }
                }
                Action::Write { writes, .. } => {
                    for write in writes {
                        match write {
                            WriteOp::Put { key, value } => {
                                self.store.insert(key.to_vec(), value);
                            }
                            WriteOp::Delete { key } => {
                                self.store.remove(key);
                            }
                        }
                    }
                    Event::Written(Ok(()))
                }
                Action::AnswerGet { answer, .. } => return Some(Answer::Get(answer)),
                Action::AnswerPut { answer, .. } => return Some(Answer::Put(answer)),
                Action::Close { .. } => return Some(Answer::Closed),
            };
        }
    }

    fn multi_get(&mut self, keys: &[Key]) -> Result<Vec<Option<Bytes>>, Error> {
        let mut results = vec![None; keys.len()];
        let places: Vec<&mut Option<Bytes>> = results.iter_mut().collect();
        match self.instance.multi_get_request(keys.to_vec(), &places) {
            Request::Done(size) => assert_eq!(size, 0),
            Request::Send { command, .. } => {
                let response = match self.serve(command) {
                    Some(Answer::Get(answer)) => Some(answer),
                    None => None,
                    _ => panic!("not the answer to a read"),
                };
                let size = self.instance.multi_get_response(response, places)?;
                assert_eq!(size, keys.len() as u64);
            }
        }
        Ok(results)
    }

    fn multi_put(&mut self, puts: &[(Key, Option<Bytes>)]) -> Result<u64, Error> {
        match self.instance.multi_put_request(puts.to_vec()) {
            Request::Done(size) => Ok(size),
            Request::Send { command, size } => {
                let response = match self.serve(command) {
                    Some(Answer::Put(answer)) => Some(answer),
                    None => None,
                    _ => panic!("not the answer to a put"),
                };
                self.instance.multi_put_response(size, response)
            }
        }
    }
}

fn value(bytes: &[u8]) -> Option<Bytes> {
    Some(bytes.to_vec())
}

#[test]
fn get_gives_back_what_was_put() {
    let mut service = Service::new();
    assert_eq!(
        service
            .multi_put(&[(b"a", value(b"one")), (b"b", value(b""))])
            .unwrap(),
        2
    );
    assert_eq!(
        service.multi_get(&[b"b", b"c", b"a"]).unwrap(),
        vec![value(b""), None, value(b"one")]
    );
}

#[test]
fn last_value_of_a_key_wins() {
    let mut service = Service::new();
    let puts: [(Key, Option<Bytes>); 5] = [
        (b"a", value(b"1")),
        (b"b", value(b"2")),
        (b"a", None),
        (b"b", None),
        (b"a", value(b"3")),
    ];
    assert_eq!(service.multi_put(&puts).unwrap(), 5);
    assert_eq!(
        service.multi_get(&[b"a", b"b"]).unwrap(),
        vec![value(b"3"), None]
    );
}

#[test]
fn other_keys_are_kept() {
    let mut service = Service::new();
    service
        .multi_put(&[(b"a", value(b"1")), (b"b", value(b"2"))])
        .unwrap();
    service.multi_put(&[(b"b", None)]).unwrap();
    assert_eq!(
        service.multi_get(&[b"a", b"b"]).unwrap(),
        vec![value(b"1"), None]
    );
}

#[test]
fn repeated_keys_are_each_answered() {
    let mut service = Service::new();
    service.multi_put(&[(b"a", value(b"1"))]).unwrap();
    assert_eq!(
        service.multi_get(&[b"a", b"a"]).unwrap(),
        vec![value(b"1"), value(b"1")]
    );
}

#[test]
fn get_then_put_is_an_upsert() {
    let mut service = Service::new();
    service.multi_put(&[(b"a", value(b"old"))]).unwrap();
    let keys: [Key; 2] = [b"a", b"b"];
    assert_eq!(service.multi_get(&keys).unwrap(), vec![value(b"old"), None]);
    service
        .multi_put(&[(b"a", None), (b"b", value(b"new"))])
        .unwrap();
    assert_eq!(service.multi_get(&keys).unwrap(), vec![None, value(b"new")]);
}

#[test]
fn batches_join() {
    let first: [(Key, Option<Bytes>); 2] = [(b"a", value(b"1")), (b"b", value(b"2"))];
    let second: [(Key, Option<Bytes>); 2] = [(b"b", None), (b"c", value(b"3"))];
    let mut apart = Service::new();
    apart.multi_put(&first).unwrap();
    apart.multi_put(&second).unwrap();
    let mut joined = Service::new();
    joined
        .multi_put(&[first.to_vec(), second.to_vec()].concat())
        .unwrap();
    assert_eq!(apart.store, joined.store);
}

#[test]
fn values_are_stored_encoded() {
    let mut service = Service::new();
    service.multi_put(&[(b"a", value(b"xy"))]).unwrap();
    assert_eq!(
        service.store.get(b"a".as_slice()),
        Some(&vec![2, 0, 0, 0, 0, 0, 0, 0, b'x', b'y'])
    );
}

#[test]
fn undecodable_value_ends_the_thread() {
    let mut service = Service::new();
    service.store.insert(b"bad".to_vec(), vec![1, 2, 3]);
    assert!(matches!(
        service.multi_get(&[b"bad"]),
        Err(Error::DecodeError(_))
    ));
    assert!(matches!(
        service.multi_get(&[b"a"]),
        Err(Error::RocksDBThreadGoneAway)
    ));
    assert!(matches!(
        service.multi_put(&[(b"a", None)]),
        Err(Error::RocksDBThreadGoneAway)
    ));
    // Nothing is sent for an empty batch, so nothing is missed.
    assert!(matches!(service.multi_put(&[]), Ok(0)));
}

#[test]
fn bad_value_does_not_spoil_other_keys() {
    let mut service = Service::new();
    service.store.insert(b"bad".to_vec(), vec![1, 2, 3]);
    service.multi_put(&[(b"a", value(b"1"))]).unwrap();
    assert_eq!(service.multi_get(&[b"a"]).unwrap(), vec![value(b"1")]);
    service.multi_put(&[(b"bad", value(b"good"))]).unwrap();
    assert_eq!(service.multi_get(&[b"bad"]).unwrap(), vec![value(b"good")]);
}

#[test]
fn nothing_is_served_after_a_shutdown() {
    let mut service = Service::new();
    let command = service.instance.clone().close_request();
    assert!(matches!(service.serve(command), Some(Answer::Closed)));
    assert!(matches!(
        service.multi_get(&[b"a"]),
        Err(Error::RocksDBThreadGoneAway)
    ));
}

#[test]
fn commands_are_served_in_order() {
    let mut service = Service::new();
    let keys: [Key; 2] = [b"a", b"b"];
    assert_eq!(service.multi_get(&keys).unwrap(), vec![None, None]);
    assert_eq!(service.multi_put(&[(b"a", value(b"1"))]).unwrap(), 1);
    assert_eq!(service.multi_get(&keys).unwrap(), vec![value(b"1"), None]);
    assert_eq!(
        service
            .multi_put(&[(b"b", value(b"2")), (b"a", None)])
            .unwrap(),
        2
    );
    assert_eq!(service.multi_get(&keys).unwrap(), vec![None, value(b"2")]);
    assert_eq!(service.multi_put(&[(b"a", value(b"3"))]).unwrap(), 1);
    assert_eq!(
        service.multi_get(&keys).unwrap(),
        vec![value(b"3"), value(b"2")]
    );
    let stored = service.store.clone();
    let command = service.instance.clone().close_request();
    assert!(matches!(service.serve(command), Some(Answer::Closed)));
    assert!(matches!(
        service.multi_put(&[(b"a", None)]),
        Err(Error::RocksDBThreadGoneAway)
    ));
    assert_eq!(service.store, stored);
}
