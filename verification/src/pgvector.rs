//! The settings of a vector store kept in PostgreSQL with the pgvector
//! extension. The store is generic over its connection pool, which it only
//! carries (the service uses a `sqlx` PostgreSQL pool).
use vstd::prelude::*;

verus! {

/// The table that vectors go to unless another is chosen.
pub open spec fn default_table_name() -> Seq<char> {
    "swiftide_rag"@
}

/// A vector store in PostgreSQL, reached through the pool `P`.
#[derive(Debug, Clone)]
pub struct PgVector<P> {
    /// The database connection pool.
    pool: P,
    /// The table name to store the vectors in.
    table_name: String,
    /// The size of the vectors to store.
    vector_size: u32,
    /// The batch size to use when storing nodes.
    batch_size: usize,
}

impl<P> PgVector<P> {
    /// The pool this store was made with.
    pub closed spec fn pool_spec(&self) -> P {
        self.pool
    }

    /// The name of the table that holds the vectors.
    pub closed spec fn table_name_spec(&self) -> Seq<char> {
        self.table_name@
    }

    /// The size of the stored vectors.
    pub closed spec fn vector_size_spec(&self) -> u32 {
        self.vector_size
    }

    /// How many nodes are stored per batch.
    pub closed spec fn batch_size_spec(&self) -> usize {
        self.batch_size
    }

    /// A store over `pool` for vectors of `vector_size`, with the default
    /// table `swiftide_rag` and batches of 128 nodes: the configuration that
    /// `try_new` then sets up in the database.
    pub fn with_pool(pool: P, vector_size: u32) -> (store: Self)
        ensures
            store.pool_spec() == pool,
            store.table_name_spec() == default_table_name(),
            store.vector_size_spec() == vector_size,
            store.batch_size_spec() == 128,
    {
        PgVector { pool, table_name: String::from_str("swiftide_rag"), vector_size, batch_size: 128 }
    }

    /// The database connection pool.
    pub fn get_pool(&self) -> (pool: &P)
        ensures
            *pool == self.pool_spec(),
    {
        &self.pool
    }

    /// The name of the table that holds the vectors.
    pub fn table_name(&self) -> (name: &str)
        ensures
            name@ == self.table_name_spec(),
    {
        self.table_name.as_str()
    }

    /// The size of the stored vectors.
    pub fn vector_size(&self) -> (size: u32)
        ensures
            size == self.vector_size_spec(),
    {
        self.vector_size
    }

    /// How many nodes are stored per batch.
    pub fn batch_size(&self) -> (size: usize)
        ensures
            size == self.batch_size_spec(),
    {
        self.batch_size
    }
}

} // verus!
