//! Descriptions of the application's own tables and table functions.
use vstd::prelude::*;

verus! {

/// A table kept in an ordered map: its name and the column that keys it.
#[derive(Clone, Debug)]
pub struct MapTableConfig {
    table_name: String,
    primary_key: String,
}

impl MapTableConfig {
    pub fn new(table_name: String, primary_key: String) -> (r: Self)
        ensures
            r.table_name() == table_name,
            r.primary_key() == primary_key,
    {
        MapTableConfig { table_name, primary_key }
    }

    pub closed spec fn table_name(&self) -> String {
        self.table_name
    }

    pub closed spec fn primary_key(&self) -> String {
        self.primary_key
    }

    /// The table's name.
    pub fn name(&self) -> (r: &String)
        ensures
            *r == self.table_name(),
    {
        &self.table_name
    }

    /// The column that keys the table.
    pub fn key(&self) -> (r: &String)
        ensures
            *r == self.primary_key(),
    {
        &self.primary_key
    }
}

/// The `parquet_metadata` table function, which lists a Parquet file's row
/// groups and column chunks.
#[derive(Clone, Copy, Debug, Default)]
pub struct ParquetMetadataFunc {}

} // verus!
