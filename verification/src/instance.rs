//! An instance: what callers use to send commands to the RocksDB thread.
//!
//! Each operation has two halves. The first makes the [`Command`] to send, or finds that there is
//! nothing to send. The second takes what the RocksDB thread answered, or that it did not answer.

use vstd::prelude::*;

use crate::command::Command;
use crate::error::Error;

verus! {

/// A handle to a RocksDB thread.
#[derive(Clone)]
pub struct RocksDBInstance<K, V> {
    // Scratch vector to send keys to the RocksDB thread
    // during `MultiGet`.
    multi_get_scratch: Vec<K>,
    // Scratch vector to return results from the RocksDB thread
    // during `MultiGet`.
    multi_get_results_scratch: Vec<Option<V>>,
    // Scratch vector to send updates to the RocksDB thread
    // during `MultiPut`.
    multi_put_scratch: Vec<(K, Option<V>)>,
}

/// What the scratch vectors of an instance hold.
#[verifier::ext_equal]
pub struct Scratch<K, V> {
    /// The keys of `MultiGet`.
    pub multi_get: Seq<K>,
    /// The results of `MultiGet`.
    pub multi_get_results: Seq<Option<V>>,
    /// The puts of `MultiPut`.
    pub multi_put: Seq<(K, Option<V>)>,
}

impl<K, V> Scratch<K, V> {
    /// Nothing.
    pub open spec fn empty() -> Self {
        Scratch {
            multi_get: Seq::empty(),
            multi_get_results: Seq::empty(),
            multi_put: Seq::empty(),
        }
    }
}

impl<K, V> View for RocksDBInstance<K, V> {
    type V = Scratch<K, V>;

    closed spec fn view(&self) -> Scratch<K, V> {
        Scratch {
            multi_get: self.multi_get_scratch@,
            multi_get_results: self.multi_get_results_scratch@,
            multi_put: self.multi_put_scratch@,
        }
    }
}

/// What an operation does first.
pub enum Request<K, V> {
    /// Nothing is sent: the operation is done and returns `Ok` of this number.
    Done(u64),
    /// The command is sent to the RocksDB thread.
    Send {
        /// The command.
        command: Command<K, V>,
        /// The number of keys or puts in it.
        size: u64,
    },
}

impl<K, V> RocksDBInstance<K, V> {
    /// A new instance. `cleanup` is how the task ended that cleared the state at the instance path,
    /// where one ran.
    pub fn new(cleanup: Option<Result<(), tokio::task::JoinError>>) -> (result: Result<
        Self,
        Error,
    >)
        ensures
            match cleanup {
                Some(Err(e)) => result == Err::<Self, Error>(Error::TokioPanic(e)),
                _ => result matches Ok(instance) && instance@ == Scratch::<K, V>::empty(),
            },
    {
        match cleanup {
            Some(Err(e)) => Err(Error::from(e)),
            _ => Ok(
                RocksDBInstance {
                    multi_get_scratch: Vec::new(),
                    multi_get_results_scratch: Vec::new(),
                    multi_put_scratch: Vec::new(),
                },
            ),
        }
    }

    /// The first half of reading the values of keys: a `MultiGet` command with the keys, or nothing
    /// where there are none. `results_out` has one place for each key.
    pub fn multi_get_request(
        &mut self,
        gets: Vec<K>,
        results_out: &Vec<&mut Option<V>>,
    ) -> (request: Request<K, V>)
        requires
            gets@.len() == results_out@.len(),
        ensures
            final(self)@ == (Scratch {
                multi_get: Seq::empty(),
                multi_get_results: Seq::empty(),
                ..old(self)@
            }),
            match request {
                Request::Done(size) => gets@.len() == 0 && size == 0,
                Request::Send { command, size } => {
                    &&& gets@.len() > 0
                    &&& size == gets@.len()
                    &&& command matches Command::MultiGet { batch, results_scratch }
                    &&& batch@ == gets@
                    &&& results_scratch@ == Seq::<Option<V>>::empty()
                },
            },
    {
        let mut multi_get_vec: Vec<K> = Vec::new();
        std::mem::swap(&mut multi_get_vec, &mut self.multi_get_scratch);
        let mut results_vec: Vec<Option<V>> = Vec::new();
        std::mem::swap(&mut results_vec, &mut self.multi_get_results_scratch);
        multi_get_vec.clear();
        results_vec.clear();

        let mut gets = gets;
        multi_get_vec.append(&mut gets);
        if multi_get_vec.is_empty() {
            self.multi_get_scratch = multi_get_vec;
            self.multi_get_results_scratch = results_vec;
            return Request::Done(0);
        }
        let size = multi_get_vec.len() as u64;
        Request::Send {
            command: Command::MultiGet { batch: multi_get_vec, results_scratch: results_vec },
            size,
        }
    }

    /// The second half of reading the values of keys: puts the results that the RocksDB thread
    /// answered into `results_out`, each at its place, and returns their number. `response` is
    /// `None` where the thread could not be reached or went away without an answer.
    pub fn multi_get_response(
        &mut self,
        response: Option<Result<(Vec<K>, Vec<Option<V>>), Error>>,
        results_out: Vec<&mut Option<V>>,
    ) -> (result: Result<u64, Error>)
        requires
            response matches Some(Ok((_, results))) ==> results@.len() == results_out@.len(),
        ensures
            match response {
                Some(Ok((batch, results))) => {
                    &&& result == Ok::<u64, Error>(results@.len() as u64)
                    &&& forall|i: int|
                        0 <= i < results_out@.len() ==> *final(#[trigger] results_out@[i])
                            == results@[i]
                    &&& results_out@.map_values(|place: &mut Option<V>| *final(place)) == results@
                    &&& final(self)@ == Scratch {
                        multi_get: batch@,
                        multi_get_results: Seq::empty(),
                        ..old(self)@
                    }
                },
                Some(Err(e)) => {
                    &&& result == Err::<u64, Error>(e)
                    &&& forall|i: int|
                        0 <= i < results_out@.len() ==> *final(#[trigger] results_out@[i])
                            == *results_out@[i]
                    &&& results_out@.map_values(|place: &mut Option<V>| *final(place))
                        == results_out@.map_values(|place: &mut Option<V>| *place)
                    &&& final(self)@ == old(self)@
                },
                None => {
                    &&& result == Err::<u64, Error>(Error::RocksDBThreadGoneAway)
                    &&& forall|i: int|
                        0 <= i < results_out@.len() ==> *final(#[trigger] results_out@[i])
                            == *results_out@[i]
                    &&& results_out@.map_values(|place: &mut Option<V>| *final(place))
                        == results_out@.map_values(|place: &mut Option<V>| *place)
                    &&& final(self)@ == old(self)@
                },
            },
    {
        match response {
            Some(Ok((batch, mut results))) => {
                let size = results.len() as u64;
                place_results(results_out, &mut results);
                self.multi_get_scratch = batch;
                self.multi_get_results_scratch = results;
                Ok(size)
            },
            Some(Err(e)) => Err(e),
            None => Err(Error::RocksDBThreadGoneAway),
        }
    }

    /// The first half of storing values: a `MultiPut` command with the puts, or nothing where there
    /// are none.
    pub fn multi_put_request(&mut self, puts: Vec<(K, Option<V>)>) -> (request: Request<K, V>)
        ensures
            final(self)@ == (Scratch { multi_put: Seq::empty(), ..old(self)@ }),
            match request {
                Request::Done(size) => puts@.len() == 0 && size == 0,
                Request::Send { command, size } => {
                    &&& puts@.len() > 0
                    &&& size == puts@.len()
                    &&& command matches Command::MultiPut { batch }
                    &&& batch@ == puts@
                },
            },
    {
        let mut multi_put_vec: Vec<(K, Option<V>)> = Vec::new();
        std::mem::swap(&mut multi_put_vec, &mut self.multi_put_scratch);
        multi_put_vec.clear();

        let mut puts = puts;
        multi_put_vec.append(&mut puts);
        if multi_put_vec.is_empty() {
            self.multi_put_scratch = multi_put_vec;
            return Request::Done(0);
        }
        let size = multi_put_vec.len() as u64;
        Request::Send { command: Command::MultiPut { batch: multi_put_vec }, size }
    }

    /// The second half of storing values, of which `size` were sent: returns that number where the
    /// RocksDB thread stored them. `response` is `None` where the thread could not be reached or
    /// went away without an answer.
    pub fn multi_put_response(
        &mut self,
        size: u64,
        response: Option<Result<Vec<(K, Option<V>)>, Error>>,
    ) -> (result: Result<u64, Error>)
        ensures
            match response {
                Some(Ok(scratch)) => {
                    &&& result == Ok::<u64, Error>(size)
                    &&& final(self)@ == (Scratch { multi_put: scratch@, ..old(self)@ })
                },
                Some(Err(e)) => {
                    &&& result == Err::<u64, Error>(e)
                    &&& final(self)@ == old(self)@
                },
                None => {
                    &&& result == Err::<u64, Error>(Error::RocksDBThreadGoneAway)
                    &&& final(self)@ == old(self)@
                },
            },
    {
        match response {
            Some(Ok(scratch)) => {
                self.multi_put_scratch = scratch;
                Ok(size)
            },
            Some(Err(e)) => Err(e),
            None => Err(Error::RocksDBThreadGoneAway),
        }
    }

    /// The first half of shutting RocksDB down: a `Shutdown` command.
    pub fn close_request(self) -> (command: Command<K, V>)
        ensures
            command == Command::<K, V>::Shutdown,
    {
        Command::Shutdown
    }

    /// The second half of shutting RocksDB down: an error where the RocksDB thread could not be
    /// reached. Whether it acknowledged the shutdown makes no difference.
    pub fn close_response(reached: bool) -> (result: Result<(), Error>)
        ensures
            result == if reached {
                Ok::<(), Error>(())
            } else {
                Err::<(), Error>(Error::RocksDBThreadGoneAway)
            },
    {
        if reached {
            Ok(())
        } else {
            Err(Error::RocksDBThreadGoneAway)
        }
    }
}

/// Moves each result to its place.
fn place_results<V>(results_out: Vec<&mut Option<V>>, results: &mut Vec<Option<V>>)
    requires
        results_out@.len() == old(results)@.len(),
    ensures
        final(results)@ == Seq::<Option<V>>::empty(),
        forall|i: int|
            0 <= i < results_out@.len() ==> *final(#[trigger] results_out@[i]) == old(results)@[i],
{
    let mut places = results_out;
    while places.len() > 0
        invariant
            places@.len() == results@.len(),
            places@.len() <= results_out@.len(),
            results_out@.len() == old(results)@.len(),
            forall|i: int| 0 <= i < places@.len() ==> results@[i] == old(results)@[i],
            forall|i: int| 0 <= i < places@.len() ==> places@[i] == results_out@[i],
            forall|i: int|
                places@.len() <= i < results_out@.len() ==> *final(#[trigger] results_out@[i])
                    == old(results)@[i],
        decreases places@.len(),
    {
        if let (Some(place), Some(result)) = (places.pop(), results.pop()) {
            *place = result;
        }
    }
}

} // verus!
