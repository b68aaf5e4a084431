//! The options of an instance, and what they ask of RocksDB.

use vstd::prelude::*;

use crate::error::RocksDBError;

verus! {

/// The compression types that RocksDB knows.
#[derive(Debug, Clone, Copy, PartialEq, Eq, Structural)]
pub enum DBCompressionType {
    /// No compression.
    NoCompression,
    /// Snappy.
    Snappy,
    /// Zlib.
    Zlib,
    /// Bzip2.
    Bz2,
    /// LZ4.
    Lz4,
    /// LZ4HC.
    Lz4hc,
    /// Zstandard.
    Zstd,
}

/// Options to configure a [`RocksDBInstance`](crate::instance::RocksDBInstance), with a RocksDB
/// environment of type `Env`.
pub struct Options<Env> {
    /// Whether or not to clear state at the instance
    /// path before starting.
    pub cleanup_on_new: bool,
    /// Whether or not to write writes
    /// to the wal.
    pub use_wal: bool,
    /// Compression type for blocks and blobs.
    pub compression_type: DBCompressionType,
    /// A possibly shared RocksDB `Env`.
    pub env: Env,
}

/// What is set of RocksDB's options when the database is opened. Everything else keeps the default
/// that RocksDB gives it.
pub struct RocksDBOptions<'a, Env> {
    /// Whether a missing database is created.
    pub create_if_missing: bool,
    /// The compression type for blocks.
    pub compression_type: DBCompressionType,
    /// The compression type for blobs.
    pub blob_compression_type: DBCompressionType,
    /// The environment that the database runs in.
    pub env: &'a Env,
}

/// What is set of RocksDB's options for a write. Everything else keeps the default that RocksDB
/// gives it.
#[derive(Debug, Clone, Copy, PartialEq, Eq, Structural)]
pub struct WriteOptions {
    /// Whether the write bypasses the wal.
    pub disable_wal: bool,
}

impl<Env> Options<Env> {
    /// A new `Options` object with reasonable defaults, in the environment that was created for it.
    /// Where none could be created, the error.
    pub fn new_with_defaults(env: Result<Env, RocksDBError>) -> (options: Result<
        Self,
        RocksDBError,
    >)
        ensures
            match env {
                Ok(env) => options == Ok::<_, RocksDBError>(
                    (Options {
                        cleanup_on_new: true,
                        use_wal: false,
                        compression_type: DBCompressionType::Snappy,
                        env,
                    }),
                ),
                Err(e) => options == Err::<Self, _>(e),
            },
    {
        match env {
            Ok(env) => Ok(
                Options {
                    cleanup_on_new: true,
                    use_wal: false,
                    compression_type: DBCompressionType::Snappy,
                    env,
                },
            ),
            Err(e) => Err(e),
        }
    }

    /// Whether the state at the instance path is destroyed before the database is opened: where
    /// that is asked for and there is something at the path.
    pub fn needs_cleanup(&self, path_exists: bool) -> (cleanup: bool)
        ensures
            cleanup <==> self.cleanup_on_new && path_exists,
    {
        self.cleanup_on_new && path_exists
    }

    /// What the database is opened with.
    pub fn as_rocksdb_options(&self) -> (options: RocksDBOptions<'_, Env>)
        ensures
            options == (RocksDBOptions {
                create_if_missing: true,
                compression_type: self.compression_type,
                blob_compression_type: self.compression_type,
                env: &self.env,
            }),
    {
        RocksDBOptions {
            create_if_missing: true,
            compression_type: self.compression_type,
            blob_compression_type: self.compression_type,
            env: &self.env,
        }
    }

    /// What every write is made with.
    pub fn as_rocksdb_write_options(&self) -> (options: WriteOptions)
        ensures
            options.disable_wal == !self.use_wal,
    {
        WriteOptions { disable_wal: !self.use_wal }
    }
}

} // verus!
