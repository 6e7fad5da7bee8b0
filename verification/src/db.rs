//! The statements that the database is sent, and the values that go with them.

use vstd::prelude::*;

use crate::queue::to_signed;
use crate::sync_update::JobUpdate;
use crate::text::decimal_text;
use crate::time::Elapsed;

verus! {

/// The statement that leases jobs, up to the largest number of them.
pub const FETCH_HEAD: &'static str = "
                WITH jobs AS (
                    SELECT 
                        file_sha -- Assuming you have a primary key like id, uuid, or file_sha
                    FROM 
                        files 
                    WHERE 
                        -- Parentheses fix the OR/AND bug
                        (pre_processing_status = 'pending' OR pre_processing_status = 'failed')
                        AND lease_until < now() 
                        AND pre_processing_attempts < 3
                    ORDER BY
                        created_at ASC   -- Fixed ordering syntax
                    LIMIT ";

/// The statement that leases jobs, from the largest number of them on.
pub const FETCH_TAIL: &'static str = "
                    FOR UPDATE SKIP LOCKED -- Added SKIP LOCKED for parallel workers
                )
                UPDATE 
                    files f
                SET 
                    pre_processing_status = 'processing', 
                    lease_until = now() + interval '15 minutes', 
                    pre_processing_attempts = f.pre_processing_attempts + 1
                FROM 
                    jobs j
                WHERE 
                    f.file_sha = j.file_sha -- Using a Join-Update (much faster than IN clause)
                RETURNING 
                    f.file_name, f.file_sha; -- Returns data directly to your application              
        ";

/// The statement that writes a batch of reports, one column of values per parameter.
pub const SYNC_QUERY: &'static str = "
            UPDATE 
                files AS f
            SET 
                output_file_path = sync_updates.output_file_path,
                is_transcoded = sync_updates.is_transcoded,
                error_faced = sync_updates.error_faced,
                processed_at = sync_updates.processed_at,
                output_file_size = sync_updates.output_file_size,
                time_to_process = sync_updates.time_to_process
            FROM (
                SELECT * FROM UNNEST($1::text[], $2::text[], $3::boolean[], $4::text[], $5::timestamp[], $6::bigint[], $7::double precision[])
            ) AS sync_updates(
                    file_sha, 
                    output_file_path, 
                    is_transcoded, 
                    error_faced, 
                    processed_at, 
                    output_file_size, 
                    time_to_process
                )
            WHERE f.file_sha = sync_updates.file_sha;
        ";

/// The statement that leases at most `limit` jobs.
pub open spec fn lease_statement(limit: usize) -> Seq<char> {
    FETCH_HEAD@ + crate::text::decimal(limit as nat) + FETCH_TAIL@
}

/// Writes the statement that leases at most `limit` jobs.
pub fn fetch_query(limit: usize) -> (query: String)
    ensures
        query@ == lease_statement(limit),
{
    let mut query = FETCH_HEAD.to_owned();
    query.append(decimal_text(limit as u64).as_str());
    query.append(FETCH_TAIL);
    query
}

/// The rows that could be turned into bytes, in order.
pub open spec fn serialized(rows: Seq<Result<Vec<u8>, ()>>) -> Seq<Vec<u8>>
    decreases rows.len(),
{
    if rows.len() == 0 {
        seq![]
    } else {
        let before = serialized(rows.drop_last());
        match rows.last() {
            Ok(bytes) => before.push(bytes),
            Err(_) => before,
        }
    }
}

/// Keeps the leased jobs that could be turned into bytes.
pub fn fetch_job(rows: Vec<Result<Vec<u8>, ()>>) -> (jobs: Vec<Vec<u8>>)
    ensures
        jobs@ == serialized(rows@),
{
    let ghost all = rows@;
    let mut jobs: Vec<Vec<u8>> = Vec::new();
    for row in iter: rows
        invariant
            iter.seq() == all,
            jobs@ == serialized(all.take(iter.index())),
    {
        let ghost seen = all.take(iter.index() + 1);
        proof {
            assert(seen.drop_last() =~= all.take(iter.index()));
            assert(seen.last() == row);
        }
        if let Ok(bytes) = row {
            jobs.push(bytes);
        }
    }
    proof {
        assert(all.take(all.len() as int) =~= all);
    }
    jobs
}

/// The values of a batch of reports, column by column.
#[derive(Debug)]
pub struct SyncColumns {
    pub file_sha: Vec<String>,
    pub output_file_path: Vec<Option<String>>,
    pub is_transcoded: Vec<bool>,
    pub error_faced: Vec<Option<String>>,
    /// In RFC 3339 notation.
    pub processed_at: Vec<String>,
    pub output_file_size: Vec<Option<i64>>,
    pub time_to_process: Vec<Elapsed>,
}

impl SyncColumns {
    /// Whether every column has a number of values.
    pub open spec fn has_rows(self, rows: nat) -> bool {
        &&& self.file_sha@.len() == rows
        &&& self.output_file_path@.len() == rows
        &&& self.is_transcoded@.len() == rows
        &&& self.error_faced@.len() == rows
        &&& self.processed_at@.len() == rows
        &&& self.output_file_size@.len() == rows
        &&& self.time_to_process@.len() == rows
    }

    /// Whether the values in a row are those of a report.
    pub open spec fn row_is(self, row: int, update: JobUpdate) -> bool {
        &&& self.file_sha@[row] == update.file_sha
        &&& self.output_file_path@[row] == update.output_file_path
        &&& self.is_transcoded@[row] == update.is_transcoded
        &&& self.error_faced@[row] == update.error_faced
        &&& self.processed_at@[row]@ == crate::time::rfc3339_text(
            update.processed_at.spec_secs(),
            update.processed_at.spec_nanos(),
        )
        &&& match (self.output_file_size@[row], update.output_file_size) {
            (Some(size), Some(count)) => size == crate::queue::signed(count),
            (None, None) => true,
            _ => false,
        }
        &&& self.time_to_process@[row] == update.time_to_process
    }
}

/// Turns a batch of reports into columns, one row per report.
pub fn sync_updates(job_updates: Vec<JobUpdate>) -> (columns: SyncColumns)
    ensures
        columns.has_rows(job_updates@.len()),
        forall|row: int|
            0 <= row < job_updates@.len() ==> #[trigger] columns.row_is(row, job_updates@[row]),
{
    let ghost all = job_updates@;
    let mut columns = SyncColumns {
        file_sha: Vec::with_capacity(job_updates.len()),
        output_file_path: Vec::with_capacity(job_updates.len()),
        is_transcoded: Vec::with_capacity(job_updates.len()),
        error_faced: Vec::with_capacity(job_updates.len()),
        processed_at: Vec::with_capacity(job_updates.len()),
        output_file_size: Vec::with_capacity(job_updates.len()),
        time_to_process: Vec::with_capacity(job_updates.len()),
    };
    for job_update in iter: job_updates
        invariant
            iter.seq() == all,
            columns.has_rows(iter.index() as nat),
            forall|row: int|
                0 <= row < iter.index() ==> #[trigger] columns.row_is(row, all[row]),
    {
        let ghost before = columns;
        columns.file_sha.push(job_update.file_sha);
        columns.output_file_path.push(job_update.output_file_path);
        columns.is_transcoded.push(job_update.is_transcoded);
        columns.error_faced.push(job_update.error_faced);
        columns.processed_at.push(job_update.processed_at.to_rfc3339());
        columns.time_to_process.push(job_update.time_to_process);
        if let Some(file_size) = job_update.output_file_size {
            columns.output_file_size.push(Some(to_signed(file_size)));
        } else {
            columns.output_file_size.push(None);
        }
        proof {
            assert forall|row: int| 0 <= row < iter.index() implies #[trigger] columns.row_is(
                row,
                all[row],
            ) by {
                assert(before.row_is(row, all[row]));
            }
            assert(columns.row_is(iter.index(), all[iter.index()]));
        }
    }
    columns
}

/// Rows are kept one by one: those of two lists one after the other are those of the first
/// followed by those of the second, and a row gives its bytes, whole, where it could be turned
/// into any.
pub proof fn law_rows_are_kept_one_by_one(
    first: Seq<Result<Vec<u8>, ()>>,
    second: Seq<Result<Vec<u8>, ()>>,
    bytes: Vec<u8>,
)
    ensures
        serialized(first + second) == serialized(first) + serialized(second),
        serialized(seq![Ok::<Vec<u8>, ()>(bytes)]) == seq![bytes],
        serialized(seq![Err::<Vec<u8>, ()>(())]) == Seq::<Vec<u8>>::empty(),
    decreases second.len(),
{
    let none = Seq::<Result<Vec<u8>, ()>>::empty();
    assert(serialized(none) =~= Seq::<Vec<u8>>::empty());
    assert(seq![Ok::<Vec<u8>, ()>(bytes)].drop_last() =~= none);
    assert(serialized(seq![Ok::<Vec<u8>, ()>(bytes)]) =~= seq![bytes]);
    assert(seq![Err::<Vec<u8>, ()>(())].drop_last() =~= none);
    if second.len() == 0 {
        assert(first + second =~= first);
        assert(serialized(first + second) =~= serialized(first) + serialized(second));
    } else {
        law_rows_are_kept_one_by_one(first, second.drop_last(), bytes);
        assert((first + second).drop_last() =~= first + second.drop_last());
        assert(serialized(first + second) =~= serialized(first) + serialized(second));
    }
}

/// A row of the columns holds one report: each value stands in the column of its own name, and a
/// size that fits in 63 bits is written as it is.
pub proof fn law_row_holds_its_report(columns: SyncColumns, row: int, update: JobUpdate)
    requires
        columns.row_is(row, update),
    ensures
        columns.file_sha@[row]@ == update.file_sha@,
        columns.output_file_path@[row] == update.output_file_path,
        columns.is_transcoded@[row] == update.is_transcoded,
        columns.error_faced@[row] == update.error_faced,
        columns.processed_at@[row]@ == crate::time::rfc3339_text(
            update.processed_at.spec_secs(),
            update.processed_at.spec_nanos(),
        ),
        columns.output_file_size@[row] is Some <==> update.output_file_size is Some,
        update.output_file_size matches Some(size) ==> (size <= i64::MAX
            ==> columns.output_file_size@[row]->Some_0 == size),
        columns.time_to_process@[row] == update.time_to_process,
{
}

/// The statement that leases jobs is a fixed text but for the largest number of them, which is
/// the one that was asked for: read back it gives that number.
pub proof fn law_statement_names_its_limit(limit: usize)
    ensures
        ({
            let statement = lease_statement(limit);
            let head = FETCH_HEAD@.len() as int;
            let tail = statement.len() - FETCH_TAIL@.len();
            &&& head < tail
            &&& statement.take(head) == FETCH_HEAD@
            &&& statement.skip(tail) == FETCH_TAIL@
            &&& crate::text::decimal_value(statement.subrange(head, tail)) == limit
        }),
{
    crate::text::law_decimal_reads_back(limit as nat);
    let statement = lease_statement(limit);
    let head = FETCH_HEAD@.len() as int;
    let tail = statement.len() - FETCH_TAIL@.len();
    assert(statement.subrange(head, tail) =~= crate::text::decimal(limit as nat));
}

} // verus!
