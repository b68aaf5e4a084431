//! What the options ask of RocksDB: the laws of [`Options`].

use vstd::prelude::*;

use crate::error::RocksDBError;
use crate::options::{Options, RocksDBOptions, WriteOptions};

verus! {

/// In whatever environment, the defaults clear the state at the instance path, bypass the wal and
/// compress with Snappy.
pub proof fn defaults<Env>(env: Env, options: Result<Options<Env>, RocksDBError>)
    requires
        call_ensures(Options::<Env>::new_with_defaults, (Ok(env),), options),
    ensures
        options matches Ok(options) && {
            &&& options.cleanup_on_new
            &&& !options.use_wal
            &&& options.compression_type is Snappy
            &&& options.env == env
        },
{
}

/// Without an environment there are no options, only the error that RocksDB gave.
pub proof fn no_environment_is_reported<Env>(
    e: RocksDBError,
    options: Result<Options<Env>, RocksDBError>,
)
    requires
        call_ensures(Options::<Env>::new_with_defaults, (Err(e),), options),
    ensures
        options matches Err(reported) && reported.message@ == e.message@,
{
}

/// State is cleared where that is asked for and there is some, whatever else the options say.
pub proof fn only_existing_state_is_cleared<Env>(
    options: Options<Env>,
    path_exists: bool,
    cleanup: bool,
)
    requires
        call_ensures(Options::<Env>::needs_cleanup, (&options, path_exists), cleanup),
    ensures
        !options.cleanup_on_new ==> !cleanup,
        !path_exists ==> !cleanup,
        options.cleanup_on_new && path_exists ==> cleanup,
{
}

/// A database that is missing is created. Blocks and blobs are compressed alike, as the options
/// say, and the database runs in the environment of the options.
pub proof fn database_is_opened_as_configured<'a, Env>(
    options: &'a Options<Env>,
    opened: RocksDBOptions<'a, Env>,
)
    requires
        call_ensures(Options::<Env>::as_rocksdb_options, (options,), opened),
    ensures
        opened.create_if_missing,
        opened.compression_type == options.compression_type,
        opened.blob_compression_type == options.compression_type,
        *opened.env == options.env,
{
}

/// Writes go to the wal exactly where the options ask for it, whatever else they say.
pub proof fn wal_is_used_as_configured<Env>(options: Options<Env>, writes: WriteOptions)
    requires
        call_ensures(Options::<Env>::as_rocksdb_write_options, (&options,), writes),
    ensures
        options.use_wal ==> !writes.disable_wal,
        !options.use_wal ==> writes.disable_wal,
{
}

/// Options can be made of whatever environment and asked whatever they say.
pub proof fn every_call_is_taken<Env>(
    env: Result<Env, RocksDBError>,
    options: &Options<Env>,
    path_exists: bool,
)
    ensures
        call_requires(Options::<Env>::new_with_defaults, (env,)),
        call_requires(Options::<Env>::needs_cleanup, (options, path_exists)),
        call_requires(Options::<Env>::as_rocksdb_options, (options,)),
        call_requires(Options::<Env>::as_rocksdb_write_options, (options,)),
{
}

} // verus!
