//! The handles of the metadata stores and of the data export command.

use vstd::prelude::*;
use crate::payload::str_eq;
use crate::window::WindowQuery;

verus! {

/// The pipeline store kept in SQLite. It holds no state: each operation works
/// through the process-wide database client.
pub struct SqlitePipelineTable {}

impl SqlitePipelineTable {
    pub fn new() -> (r: SqlitePipelineTable)
        ensures
            r == (SqlitePipelineTable {}),
    {
        SqlitePipelineTable {}
    }
}

impl Default for SqlitePipelineTable {
    fn default() -> (r: SqlitePipelineTable)
        ensures
            r == (SqlitePipelineTable {}),
    {
        SqlitePipelineTable::new()
    }
}

/// The export command: writes every record of a stream in a time range to a file.
pub struct Export {}

/// The number of records an export asks for.
pub const EXPORT_PAGE_SIZE: i64 = 100;

/// `select * from <table> ORDER BY _timestamp ASC`.
pub open spec fn export_sql_of(table: Seq<char>) -> Seq<char> {
    "select * from "@ + table + " ORDER BY _timestamp ASC"@
}

impl Export {
    /// The SQL that reads a stream oldest first.
    pub fn export_sql(table: &str) -> (r: String)
        ensures
            r@ == export_sql_of(table@),
    {
        String::from_str("select * from ").concat(table).concat(" ORDER BY _timestamp ASC")
    }

    /// The query an export runs: the first records of `[start_time, end_time]`,
    /// oldest first, in every region and cluster, with no timeout, not tagged as an
    /// interactive search.
    pub fn query(table: &str, start_time: i64, end_time: i64) -> (r: WindowQuery)
        ensures
            r.sql@ == export_sql_of(table@),
            r.from == 0,
            r.size == EXPORT_PAGE_SIZE,
            r.start_time == start_time,
            r.end_time == end_time,
            !r.descending,
            r.transform is None,
            r.regions@.len() == 0,
            r.clusters@.len() == 0,
            r.timeout == 0,
            !r.interactive,
            !r.use_cache,
    {
        WindowQuery {
            sql: Export::export_sql(table),
            from: 0,
            size: EXPORT_PAGE_SIZE,
            start_time,
            end_time,
            descending: false,
            transform: None,
            regions: Vec::new(),
            clusters: Vec::new(),
            timeout: 0,
            interactive: false,
            use_cache: false,
        }
    }

    /// Whether the export can write files of this type; only `json` is implemented.
    pub fn supports_file_type(file_type: &str) -> (r: bool)
        ensures
            r == (file_type@ == "json"@),
    {
        str_eq(file_type, "json")
    }
}

} // verus!
