//! What a caller gets from an instance: the laws of [`RocksDBInstance`]. `before` and `after` are
//! the instance before and after a call.

use vstd::prelude::*;

use crate::command::Command;
use crate::error::Error;
use crate::instance::{Request, RocksDBInstance};

verus! {

/// A new instance holds nothing. There is one where no state was to be cleared or clearing it ended
/// well.
pub proof fn new_instance_is_empty<K, V>(
    cleanup: Option<Result<(), tokio::task::JoinError>>,
    result: Result<RocksDBInstance<K, V>, Error>,
)
    requires
        cleanup matches Some(ended) ==> ended is Ok,
        call_ensures(RocksDBInstance::<K, V>::new, (cleanup,), result),
    ensures
        result matches Ok(instance) && {
            &&& instance@.multi_get.len() == 0
            &&& instance@.multi_get_results.len() == 0
            &&& instance@.multi_put.len() == 0
        },
{
}

/// Where the task that clears the state panicked there is no instance, only that panic.
pub proof fn failed_cleanup_is_reported<K, V>(
    e: tokio::task::JoinError,
    result: Result<RocksDBInstance<K, V>, Error>,
)
    requires
        call_ensures(RocksDBInstance::<K, V>::new, (Some(Err(e)),), result),
    ensures
        result matches Err(Error::TokioPanic(reported)) && reported == e,
{
}

/// A read is sent exactly where there are keys, as one command with all of them in order and an
/// empty vector for the results, whatever the instance was used for before. Without keys nothing is
/// read, and that succeeds.
pub proof fn get_sends_its_keys<K, V>(
    before: RocksDBInstance<K, V>,
    keys: Vec<K>,
    after: RocksDBInstance<K, V>,
    request: Request<K, V>,
)
    requires
        exists|instance: &mut RocksDBInstance<K, V>, places: &Vec<&mut Option<V>>|
            {
                &&& *instance == before
                &&& *final(instance) == after
                &&& places@.len() == keys@.len()
                &&& #[trigger] call_ensures(
                    RocksDBInstance::<K, V>::multi_get_request,
                    (instance, keys, places),
                    request,
                )
            },
    ensures
        keys@.len() == 0 ==> request == Request::<K, V>::Done(0),
        keys@.len() > 0 ==> {
            &&& request matches Request::Send {
                command: Command::MultiGet { batch, results_scratch },
                size,
            }
            &&& batch@ == keys@
            &&& results_scratch@.len() == 0
            &&& size == keys@.len()
        },
        after@.multi_get.len() == 0,
        after@.multi_get_results.len() == 0,
        after@.multi_put == before@.multi_put,
{
}

/// An answered read puts each result at its place, in order, and returns their number.
pub proof fn results_reach_their_places<K, V>(batch: Vec<K>, results: Vec<Option<V>>)
    requires
        results@.len() <= u64::MAX,
    ensures
        forall|
            instance: &mut RocksDBInstance<K, V>,
            places: Vec<&mut Option<V>>,
            result: Result<u64, Error>,
        |
            places@.len() == results@.len() && #[trigger] call_ensures(
                RocksDBInstance::<K, V>::multi_get_response,
                (instance, Some(Ok((batch, results))), places),
                result,
            ) ==> {
                &&& result matches Ok(size) && size == results@.len()
                &&& places@.map_values(|place: &mut Option<V>| *final(place)) == results@
                &&& final(instance)@.multi_get == batch@
                &&& final(instance)@.multi_get_results.len() == 0
                &&& final(instance)@.multi_put == instance@.multi_put
            },
{
}

/// A read that is answered with an error returns that error and leaves every place as it is.
pub proof fn failed_get_places_nothing<K, V>(e: Error)
    ensures
        forall|
            instance: &mut RocksDBInstance<K, V>,
            places: Vec<&mut Option<V>>,
            result: Result<u64, Error>,
        |
            #[trigger] call_ensures(
                RocksDBInstance::<K, V>::multi_get_response,
                (instance, Some(Err(e)), places),
                result,
            ) ==> {
                &&& result matches Err(reported) && reported == e
                &&& places@.map_values(|place: &mut Option<V>| *final(place))
                    == places@.map_values(|place: &mut Option<V>| *place)
                &&& final(instance)@ == instance@
            },
{
}

/// A read that is not answered returns that the thread is gone and leaves every place as it is.
pub proof fn unanswered_get_places_nothing<K, V>()
    ensures
        forall|
            instance: &mut RocksDBInstance<K, V>,
            places: Vec<&mut Option<V>>,
            result: Result<u64, Error>,
        |
            #[trigger] call_ensures(
                RocksDBInstance::<K, V>::multi_get_response,
                (instance, None, places),
                result,
            ) ==> {
                &&& result matches Err(Error::RocksDBThreadGoneAway)
                &&& places@.map_values(|place: &mut Option<V>| *final(place))
                    == places@.map_values(|place: &mut Option<V>| *place)
                &&& final(instance)@ == instance@
            },
{
}

/// Puts are sent exactly where there are some, as one command with all of them in order, whatever
/// the instance was used for before. Without puts nothing is stored, and that succeeds.
pub proof fn put_sends_its_puts<K, V>(
    before: RocksDBInstance<K, V>,
    puts: Vec<(K, Option<V>)>,
    after: RocksDBInstance<K, V>,
    request: Request<K, V>,
)
    requires
        puts@.len() <= u64::MAX,
        exists|instance: &mut RocksDBInstance<K, V>|
            {
                &&& *instance == before
                &&& *final(instance) == after
                &&& #[trigger] call_ensures(
                    RocksDBInstance::<K, V>::multi_put_request,
                    (instance, puts),
                    request,
                )
            },
    ensures
        puts@.len() == 0 ==> request == Request::<K, V>::Done(0),
        puts@.len() > 0 ==> {
            &&& request matches Request::Send { command: Command::MultiPut { batch }, size }
            &&& batch@ == puts@
            &&& size == puts@.len()
        },
        after@.multi_get == before@.multi_get,
        after@.multi_get_results == before@.multi_get_results,
        after@.multi_put.len() == 0,
{
}

/// Stored puts return their number.
pub proof fn stored_puts_are_counted<K, V>(
    before: RocksDBInstance<K, V>,
    size: u64,
    batch: Vec<(K, Option<V>)>,
    after: RocksDBInstance<K, V>,
    result: Result<u64, Error>,
)
    requires
        exists|instance: &mut RocksDBInstance<K, V>|
            {
                &&& *instance == before
                &&& *final(instance) == after
                &&& #[trigger] call_ensures(
                    RocksDBInstance::<K, V>::multi_put_response,
                    (instance, size, Some(Ok(batch))),
                    result,
                )
            },
    ensures
        result matches Ok(stored) && stored == size,
        after@.multi_get == before@.multi_get,
        after@.multi_get_results == before@.multi_get_results,
        after@.multi_put == batch@,
{
}

/// Puts that are answered with an error return that error, whatever their number.
pub proof fn failed_put_is_reported<K, V>(
    before: RocksDBInstance<K, V>,
    size: u64,
    e: Error,
    after: RocksDBInstance<K, V>,
    result: Result<u64, Error>,
)
    requires
        exists|instance: &mut RocksDBInstance<K, V>|
            {
                &&& *instance == before
                &&& *final(instance) == after
                &&& #[trigger] call_ensures(
                    RocksDBInstance::<K, V>::multi_put_response,
                    (instance, size, Some(Err(e))),
                    result,
                )
            },
    ensures
        result matches Err(reported) && reported == e,
        after@ == before@,
{
}

/// Puts that are not answered return that the thread is gone, whatever their number.
pub proof fn unanswered_put_is_reported<K, V>(
    before: RocksDBInstance<K, V>,
    size: u64,
    after: RocksDBInstance<K, V>,
    result: Result<u64, Error>,
)
    requires
        exists|instance: &mut RocksDBInstance<K, V>|
            {
                &&& *instance == before
                &&& *final(instance) == after
                &&& #[trigger] call_ensures(
                    RocksDBInstance::<K, V>::multi_put_response,
                    (instance, size, None),
                    result,
                )
            },
    ensures
        result matches Err(Error::RocksDBThreadGoneAway),
        after@ == before@,
{
}

/// Closing asks for a shutdown, whatever the instance was used for, and fails exactly where the
/// thread cannot be reached.
pub proof fn close_asks_for_a_shutdown<K, V>(
    instance: RocksDBInstance<K, V>,
    command: Command<K, V>,
    reached: bool,
    result: Result<(), Error>,
)
    requires
        call_ensures(RocksDBInstance::<K, V>::close_request, (instance,), command),
        call_ensures(RocksDBInstance::<K, V>::close_response, (reached,), result),
    ensures
        command is Shutdown,
        result is Ok <==> reached,
        result matches Err(e) ==> e is RocksDBThreadGoneAway,
{
}

/// An instance takes every call with as many places as keys and every answer with as many results
/// as places.
pub proof fn every_call_is_taken<K, V>()
    ensures
        forall|
            instance: &mut RocksDBInstance<K, V>,
            keys: Vec<K>,
            places: &Vec<&mut Option<V>>,
        |
            keys@.len() == places@.len() ==> #[trigger] call_requires(
                RocksDBInstance::<K, V>::multi_get_request,
                (instance, keys, places),
            ),
        forall|
            instance: &mut RocksDBInstance<K, V>,
            batch: Vec<K>,
            results: Vec<Option<V>>,
            places: Vec<&mut Option<V>>,
        |
            results@.len() == places@.len() ==> #[trigger] call_requires(
                RocksDBInstance::<K, V>::multi_get_response,
                (instance, Some(Ok((batch, results))), places),
            ),
        forall|
            instance: &mut RocksDBInstance<K, V>,
            e: Error,
            places: Vec<&mut Option<V>>,
        |
            #[trigger] call_requires(
                RocksDBInstance::<K, V>::multi_get_response,
                (instance, Some(Err(e)), places),
            ),
        forall|instance: &mut RocksDBInstance<K, V>, places: Vec<&mut Option<V>>|
            #[trigger] call_requires(
                RocksDBInstance::<K, V>::multi_get_response,
                (instance, None, places),
            ),
        forall|instance: &mut RocksDBInstance<K, V>, puts: Vec<(K, Option<V>)>|
            #[trigger] call_requires(RocksDBInstance::<K, V>::multi_put_request, (instance, puts)),
        forall|
            instance: &mut RocksDBInstance<K, V>,
            size: u64,
            response: Option<Result<Vec<(K, Option<V>)>, Error>>,
        |
            #[trigger] call_requires(
                RocksDBInstance::<K, V>::multi_put_response,
                (instance, size, response),
            ),
        forall|cleanup: Option<Result<(), tokio::task::JoinError>>|
            #[trigger] call_requires(RocksDBInstance::<K, V>::new, (cleanup,)),
        forall|instance: RocksDBInstance<K, V>|
            #[trigger] call_requires(RocksDBInstance::<K, V>::close_request, (instance,)),
        forall|reached: bool|
            #[trigger] call_requires(RocksDBInstance::<K, V>::close_response, (reached,)),
{
}

} // verus!
