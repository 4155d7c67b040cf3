use vstd::prelude::*;
use vstd::utf8::encode_utf8;
use sha2::Digest;
use crate::tui::{entry_scores, filter_entries, filter_spec, lemma_filter_indices, skim_score};
use crate::filter::{lemma_ranking_is_ranking, ranks_before};
use crate::conn::{
    answered_entries, entries_answer, read_clip, read_first_i64, sql_values, Answer, Db, DbCall, SqlParam,
    SqlValue,
};

verus! {

/// A failure of the history database.
#[derive(Debug)]
pub enum StoreError {
    /// A query that had to return a row returned none.
    NoRows,
    /// Any other SQLite failure, with its message.
    Sqlite(String),
}

impl StoreError {
    /// The text of the error, as the database library words it.
    pub open spec fn message_spec(&self) -> Seq<char> {
        match self {
            StoreError::NoRows => "Query returned no rows"@,
            StoreError::Sqlite(m) => m@,
        }
    }

    /// The text of the error, as the database library words it.
    pub fn message(&self) -> (r: String)
        ensures
            r@ == self.message_spec(),
    {
        match self {
            StoreError::NoRows => "Query returned no rows".to_owned(),
            StoreError::Sqlite(m) => m.clone(),
        }
    }
}

/// One clipboard history entry. `timestamp` is in seconds since the Unix epoch.
#[derive(Debug, Clone)]
pub struct ClipEntry {
    pub id: i64,
    pub content: String,
    pub hash: String,
    pub timestamp: i64,
    pub app_name: Option<String>,
}

} // verus!

verus! {

// ---------------------------------------------------------------------------
// Content hashes
// ---------------------------------------------------------------------------

/// The SHA-256 digest of a byte string, as `sha2::Sha256` computes it.
pub uninterp spec fn sha256_digest(data: Seq<u8>) -> Seq<u8>;

/// `<sha2::Sha256 as Digest>::digest`: the SHA-256 digest of `data`, named [`sha256_digest`];
/// a SHA-256 digest has 32 bytes (`OutputSize = U32`).
#[verifier::external_body]
fn sha256(data: &[u8]) -> (r: Vec<u8>)
    ensures
        r@ == sha256_digest(data@),
        r@.len() == 32,
{
    sha2::Sha256::digest(data).to_vec()
}

/// The lower-case hexadecimal digit for `n < 16`.
pub open spec fn hex_digit(n: u8) -> char {
    if n < 10 {
        ((48 + n) as u8) as char
    } else {
        ((87 + n) as u8) as char
    }
}

/// Two lower-case hexadecimal digits per byte, high half first.
pub open spec fn hex_lower(bytes: Seq<u8>) -> Seq<char>
    decreases bytes.len(),
{
    if bytes.len() == 0 {
        Seq::empty()
    } else {
        seq![hex_digit(bytes[0] >> 4), hex_digit(bytes[0] & 0x0f)] + hex_lower(bytes.drop_first())
    }
}

proof fn lemma_hex_lower_len(bytes: Seq<u8>)
    ensures
        hex_lower(bytes).len() == 2 * bytes.len(),
    decreases bytes.len(),
{
    if bytes.len() > 0 {
        lemma_hex_lower_len(bytes.drop_first());
    }
}

/// `hex::encode`: each byte as two characters of `"0123456789abcdef"`, the high half first.
#[verifier::external_body]
fn hex_encode(data: &[u8]) -> (r: String)
    ensures
        r@ == hex_lower(data@),
{
    hex::encode(data)
}

/// The hash that identifies a clip's content: the SHA-256 digest of its UTF-8 bytes, in
/// lower-case hexadecimal.
pub open spec fn content_hash_spec(content: Seq<char>) -> Seq<char> {
    hex_lower(sha256_digest(encode_utf8(content)))
}

/// The hash that identifies a clip's content.
pub fn content_hash(content: &str) -> (r: String)
    ensures
        r@ == content_hash_spec(content@),
        r@.len() == 64,
{
    let digest = sha256(content.as_bytes());
    proof {
        lemma_hex_lower_len(digest@);
    }
    hex_encode(digest.as_slice())
}

} // verus!

verus! {

// ---------------------------------------------------------------------------
// The clock
// ---------------------------------------------------------------------------

/// `std::time::SystemTime`, a reading of the system clock; opaque here.
#[verifier::external_type_specification]
#[verifier::external_body]
pub struct ExSystemTime(std::time::SystemTime);

/// `std::time::SystemTimeError`, a clock reading earlier than the time it was compared with;
/// opaque here.
#[verifier::external_type_specification]
#[verifier::external_body]
pub struct ExSystemTimeError(std::time::SystemTimeError);

/// `SystemTime::now`: the system clock's current reading; nothing is stated of it.
#[verifier::external_body]
fn clock_now() -> (r: std::time::SystemTime) {
    std::time::SystemTime::now()
}

/// `SystemTime::duration_since(UNIX_EPOCH)`: how long after the Unix epoch the reading is, or
/// an error when it is before; it depends on the reading, so nothing is stated of it.
#[verifier::external_body]
fn since_epoch(t: &std::time::SystemTime) -> (r: Result<std::time::Duration, std::time::SystemTimeError>) {
    t.duration_since(std::time::UNIX_EPOCH)
}

/// `SystemTimeError::duration`: how far before the compared time the reading was; nothing is
/// stated of it.
#[verifier::external_body]
fn before_epoch(e: &std::time::SystemTimeError) -> (r: std::time::Duration) {
    e.duration()
}

/// `Duration::as_secs`: the whole seconds of a duration; nothing is stated of it.
#[verifier::external_body]
fn whole_seconds(d: &std::time::Duration) -> (r: u64) {
    d.as_secs()
}

/// `Duration::subsec_nanos`: the part of a duration below a whole second, in nanoseconds;
/// nothing is stated of it.
#[verifier::external_body]
fn sub_second_nanos(d: &std::time::Duration) -> (r: u32) {
    d.subsec_nanos()
}

/// Whole seconds since the Unix epoch of a reading `after` whole seconds and `nanos`
/// nanoseconds after the epoch, or, when `before`, that far before it: rounded down, so that a
/// reading a fraction of a second before the epoch is second -1.
pub open spec fn seconds_of(before: bool, secs: u64, nanos: u32) -> int {
    if !before {
        secs as int
    } else if nanos > 0 {
        -(secs as int) - 1
    } else {
        -(secs as int)
    }
}

/// [`seconds_of`] as an `i64`, held at the ends of its range.
pub open spec fn clamped_seconds(before: bool, secs: u64, nanos: u32) -> i64 {
    let t = seconds_of(before, secs, nanos);
    if t > i64::MAX {
        i64::MAX
    } else if t < i64::MIN {
        i64::MIN
    } else {
        t as i64
    }
}

/// The timestamp of a clock reading, as [`clamped_seconds`] gives it.
pub fn timestamp_of(before: bool, secs: u64, nanos: u32) -> (r: i64)
    ensures
        r == clamped_seconds(before, secs, nanos),
{
    if !before {
        if secs > i64::MAX as u64 {
            i64::MAX
        } else {
            secs as i64
        }
    } else if secs > i64::MAX as u64 {
        i64::MIN
    } else if nanos > 0 {
        -(secs as i64) - 1
    } else {
        -(secs as i64)
    }
}

/// The current time in whole seconds since the Unix epoch, rounded down (negative before it: a
/// clock set before 1970 is no failure).
fn now_timestamp() -> (r: i64) {
    let now = clock_now();
    match since_epoch(&now) {
        Ok(d) => timestamp_of(false, whole_seconds(&d), sub_second_nanos(&d)),
        Err(e) => {
            let d = before_epoch(&e);
            timestamp_of(true, whole_seconds(&d), sub_second_nanos(&d))
        },
    }
}

/// The result of a query that returns at most one row: a missing row is `Ok(None)`, other
/// errors stay errors.
pub open spec fn optional_spec<T>(r: Result<T, StoreError>) -> Result<Option<T>, StoreError> {
    match r {
        Ok(v) => Ok(Some(v)),
        Err(StoreError::NoRows) => Ok(None),
        Err(e) => Err(e),
    }
}

/// The result of a query that returns at most one row: a missing row is `Ok(None)`.
pub fn optional<T>(r: Result<T, StoreError>) -> (o: Result<Option<T>, StoreError>)
    ensures
        o == optional_spec(r),
{
    match r {
        Ok(v) => Ok(Some(v)),
        Err(StoreError::NoRows) => Ok(None),
        Err(e) => Err(e),
    }
}

/// The `LIMIT` bound that stands for `limit` entries (`limit as i64`: a limit beyond `i64::MAX`
/// wraps, as the cast does).
pub fn limit_param(limit: usize) -> (r: i64)
    ensures
        r == limit as i64,
{
    limit as i64
}

/// The number of entries that a row count stands for (`count as usize`).
pub fn count_of(count: i64) -> (r: usize)
    ensures
        r == count as usize,
{
    count as usize
}

/// How `insert` stores a clip, given whether its hash is already in the table.
#[derive(Debug)]
pub enum InsertPlan {
    /// The content is there already, with this id: move it to the top.
    MoveToTop(i64),
    /// The content is new: add a row.
    Add,
}

/// The plan for an insert from the lookup of the content's hash: an entry found means moving
/// it to the top; no entry, or a failed lookup, means adding a row.
pub open spec fn insert_plan_spec(existing: Result<i64, StoreError>) -> InsertPlan {
    match existing {
        Ok(id) => InsertPlan::MoveToTop(id),
        Err(_) => InsertPlan::Add,
    }
}

/// The result of an insert once its statement ran: the existing id after moving an entry to
/// the top, the new row's id after adding one, or the statement's error.
pub open spec fn insert_outcome_spec(plan: InsertPlan, executed: Result<usize, StoreError>, new_rowid: i64) -> Result<i64, StoreError> {
    match executed {
        Err(e) => Err(e),
        Ok(_) => match plan {
            InsertPlan::MoveToTop(id) => Ok(id),
            InsertPlan::Add => Ok(new_rowid),
        },
    }
}

/// The plan for an insert from the lookup of the content's hash.
pub fn insert_plan(existing: Result<i64, StoreError>) -> (r: InsertPlan)
    ensures
        r == insert_plan_spec(existing),
{
    match existing {
        Ok(id) => InsertPlan::MoveToTop(id),
        Err(_) => InsertPlan::Add,
    }
}

/// What `insert` returns once its statement ran.
pub fn insert_outcome(plan: &InsertPlan, executed: Result<usize, StoreError>, new_rowid: i64) -> (r: Result<i64, StoreError>)
    ensures
        r == insert_outcome_spec(*plan, executed, new_rowid),
{
    match executed {
        Err(e) => Err(e),
        Ok(_) => match plan {
            InsertPlan::MoveToTop(id) => Ok(*id),
            InsertPlan::Add => Ok(new_rowid),
        },
    }
}

/// What `delete` returns once its statement ran: whether it removed a row.
pub open spec fn delete_outcome_spec(executed: Result<usize, StoreError>) -> Result<bool, StoreError> {
    match executed {
        Ok(n) => Ok(n > 0),
        Err(e) => Err(e),
    }
}

/// What `delete` returns once its statement ran.
pub fn delete_outcome(executed: Result<usize, StoreError>) -> (r: Result<bool, StoreError>)
    ensures
        r == delete_outcome_spec(executed),
{
    match executed {
        Ok(n) => Ok(n > 0),
        Err(e) => Err(e),
    }
}

/// What `clear` returns once it counted `count` rows and ran its statement: the count.
pub open spec fn clear_outcome_spec(count: i64, executed: Result<usize, StoreError>) -> Result<usize, StoreError> {
    match executed {
        Ok(_) => Ok(count as usize),
        Err(e) => Err(e),
    }
}

/// What `clear` returns once it counted `count` rows and ran its statement.
pub fn clear_outcome(count: i64, executed: Result<usize, StoreError>) -> (r: Result<usize, StoreError>)
    ensures
        r == clear_outcome_spec(count, executed),
{
    match executed {
        Ok(_) => Ok(count_of(count)),
        Err(e) => Err(e),
    }
}

// ---------------------------------------------------------------------------
// The store and what it asks of the database
// ---------------------------------------------------------------------------

/// How many entries `all` returns at most.
pub const ALL_LIMIT: usize = 10000;

/// The schema that `open` makes sure of.
pub const SCHEMA_SQL: &'static str = "CREATE TABLE IF NOT EXISTS clips (
                id        INTEGER PRIMARY KEY AUTOINCREMENT,
                content   TEXT NOT NULL,
                hash      TEXT NOT NULL,
                timestamp INTEGER NOT NULL,
                app_name  TEXT
            );
            CREATE INDEX IF NOT EXISTS idx_clips_hash ON clips(hash);
            CREATE INDEX IF NOT EXISTS idx_clips_ts ON clips(timestamp DESC);
            CREATE INDEX IF NOT EXISTS idx_clips_content ON clips(content);";

/// Looks up the entry with a content hash.
pub const FIND_BY_HASH_SQL: &'static str = "SELECT id FROM clips WHERE hash = ?1 LIMIT 1";

/// Moves an entry to the top by giving it a new timestamp.
pub const TOUCH_SQL: &'static str = "UPDATE clips SET timestamp = ?1 WHERE id = ?2";

/// Adds an entry.
pub const ADD_SQL: &'static str = "INSERT INTO clips (content, hash, timestamp, app_name) VALUES (?1, ?2, ?3, ?4)";

/// The newest entries, newest first.
pub const RECENT_SQL: &'static str = "SELECT id, content, hash, timestamp, app_name FROM clips ORDER BY timestamp DESC LIMIT ?1";

/// Every entry, newest first.
pub const EVERY_ROW_SQL: &'static str = "SELECT id, content, hash, timestamp, app_name FROM clips ORDER BY timestamp DESC";

/// The entry with an id.
pub const GET_SQL: &'static str = "SELECT id, content, hash, timestamp, app_name FROM clips WHERE id = ?1";

/// Deletes the entry with an id.
pub const DELETE_SQL: &'static str = "DELETE FROM clips WHERE id = ?1";

/// Counts the entries.
pub const COUNT_SQL: &'static str = "SELECT COUNT(*) FROM clips";

/// Deletes every entry.
pub const DELETE_ALL_SQL: &'static str = "DELETE FROM clips";

/// A copy of an entry, field by field.
pub fn copy_entry(e: &ClipEntry) -> (r: ClipEntry)
    ensures
        r == *e,
{
    ClipEntry {
        id: e.id,
        content: e.content.clone(),
        hash: e.hash.clone(),
        timestamp: e.timestamp,
        app_name: match &e.app_name {
            Some(a) => Some(a.clone()),
            None => None,
        },
    }
}

/// The value bound for an optional application name.
pub open spec fn app_value(app_name: Option<&str>) -> SqlValue {
    match app_name {
        Some(a) => SqlValue::Text(a@),
        None => SqlValue::Null,
    }
}

/// The entries that a fuzzy search picks out of `rows` (newest first): those that match
/// `query`, best match first, at most `limit` of them.
pub open spec fn fuzzy_pick(rows: Seq<ClipEntry>, query: Seq<char>, limit: nat) -> Seq<ClipEntry> {
    let shown = filter_spec(rows, query);
    let n = if shown.len() < limit {
        shown.len()
    } else {
        limit
    };
    Seq::new(n, |k: int| rows[shown[k] as int])
}

/// The requests that an insert of `content` (with application value `app`) made, `new`, and
/// what it returned, `r`: first the lookup of the content's hash; when that found an id, the
/// update of that row's timestamp, and the id; otherwise the new row (content, hash, a
/// timestamp, app) and, when that ran, the id the database gave the row.
pub open spec fn insert_requests(content: Seq<char>, app: SqlValue, new: Seq<DbCall>, r: Result<i64, StoreError>) -> bool {
    let hash = content_hash_spec(content);
    &&& new.len() >= 2
    &&& new[0].sql == FIND_BY_HASH_SQL@
    &&& new[0].params == seq![SqlValue::Text(hash)]
    &&& new[0].answer is Id
    &&& new[1].answer is Changed
    &&& match insert_plan_spec(new[0].answer->Id_0) {
        InsertPlan::MoveToTop(id) => {
            &&& new.len() == 2
            &&& new[1].sql == TOUCH_SQL@
            &&& new[1].params == seq![SqlValue::Int(new[1].params[0]->Int_0), SqlValue::Int(id)]
            &&& r == insert_outcome_spec(InsertPlan::MoveToTop(id), new[1].answer->Changed_0, 0)
        },
        InsertPlan::Add => {
            &&& new[1].sql == ADD_SQL@
            &&& new[1].params == seq![
                SqlValue::Text(content),
                SqlValue::Text(hash),
                SqlValue::Int(new[1].params[2]->Int_0),
                app,
            ]
            &&& match new[1].answer->Changed_0 {
                Ok(_) => new.len() == 3 && new[2].answer is Rowid && r == Ok::<i64, StoreError>(
                    new[2].answer->Rowid_0,
                ),
                Err(e) => new.len() == 2 && r == Err::<i64, StoreError>(e),
            }
        },
    }
}

/// The history database: a table `clips` of entries, newest first by timestamp, with the
/// record of the requests made of it and of their answers.
pub struct Store {
    db: Db,
}

impl Store {
    /// The requests this store made of the database, oldest first, with their answers.
    pub closed spec fn calls(&self) -> Seq<DbCall> {
        self.db.calls()
    }

    /// The path the database was opened at.
    pub closed spec fn path(&self) -> Seq<char> {
        self.db.path()
    }

    /// Opens (creating when missing) the history database at `path` and makes sure its table
    /// and indexes exist. The store's record starts with that schema request.
    pub fn open(path: &str) -> (r: Result<Store, StoreError>)
        ensures
            r matches Ok(s) ==> s.path() == path@ && s.calls() == seq![
                DbCall { sql: SCHEMA_SQL@, params: Seq::empty(), answer: Answer::Done(Ok(())) },
            ],
    {
        let mut db = match Db::open(path) {
            Ok(d) => d,
            Err(e) => return Err(e),
        };
        let r = db.execute_batch(SCHEMA_SQL);
        assert(db.calls() =~= seq![DbCall { sql: SCHEMA_SQL@, params: Seq::empty(), answer: Answer::Done(r) }]);
        match r {
            Ok(u) => {
                assert(u == ());
                Ok(Store { db })
            },
            Err(e) => Err(e),
        }
    }

    /// Insert a new clip. If the same content already exists, move it to the top
    /// by updating its timestamp. Returns the entry id.
    ///
    /// It reads the clock and inserts with that time, as [`insert_at`](Store::insert_at) does.
    pub fn insert(&mut self, content: &str, app_name: Option<&str>) -> (r: Result<i64, StoreError>)
        ensures
            final(self).path() == old(self).path(),
            final(self).calls().take(old(self).calls().len() as int) == old(self).calls(),
            insert_requests(
                content@,
                app_value(app_name),
                final(self).calls().skip(old(self).calls().len() as int),
                r,
            ),
    {
        let now = now_timestamp();
        self.insert_at(content, app_name, now)
    }

    /// Inserts a clip at time `now`: it looks the content's hash up; when an entry has it, it
    /// sets that entry's timestamp to `now` and returns its id; otherwise it adds the row
    /// (content, hash, `now`, app name) and returns the new row's id.
    pub fn insert_at(&mut self, content: &str, app_name: Option<&str>, now: i64) -> (r: Result<i64, StoreError>)
        ensures
            final(self).path() == old(self).path(),
            final(self).calls().take(old(self).calls().len() as int) == old(self).calls(),
            insert_requests(
                content@,
                app_value(app_name),
                final(self).calls().skip(old(self).calls().len() as int),
                r,
            ),
            insert_time(final(self).calls().skip(old(self).calls().len() as int)) == now,
    {
        let ghost start = self.calls();
        let hash = content_hash(content);
        let mut by_hash: Vec<SqlParam> = Vec::new();
        by_hash.push(SqlParam::Text(hash.clone()));
        assert(sql_values(by_hash@) =~= seq![SqlValue::Text(content_hash_spec(content@))]);
        let existing: Result<i64, StoreError> = self.db.query_row(FIND_BY_HASH_SQL, by_hash.as_slice(), read_first_i64);
        let plan = insert_plan(existing);
        let r = match plan {
            InsertPlan::MoveToTop(id) => {
                let mut touch: Vec<SqlParam> = Vec::new();
                touch.push(SqlParam::Int(now));
                touch.push(SqlParam::Int(id));
                assert(sql_values(touch@) =~= seq![SqlValue::Int(now), SqlValue::Int(id)]);
                let executed = self.db.execute(TOUCH_SQL, touch.as_slice());
                insert_outcome(&plan, executed, 0)
            },
            InsertPlan::Add => {
                let mut row: Vec<SqlParam> = Vec::new();
                row.push(SqlParam::Text(content.to_owned()));
                row.push(SqlParam::Text(hash));
                row.push(SqlParam::Int(now));
                row.push(
                    match app_name {
                        Some(a) => SqlParam::Text(a.to_owned()),
                        None => SqlParam::Null,
                    },
                );
                assert(sql_values(row@) =~= seq![
                    SqlValue::Text(content@),
                    SqlValue::Text(content_hash_spec(content@)),
                    SqlValue::Int(now),
                    app_value(app_name),
                ]);
                let executed = self.db.execute(ADD_SQL, row.as_slice());
                match executed {
                    Ok(n) => {
                        let rowid = self.db.last_insert_rowid();
                        insert_outcome(&plan, Ok(n), rowid)
                    },
                    Err(e) => insert_outcome(&plan, Err(e), 0),
                }
            },
        };
        proof {
            let new = self.calls().skip(start.len() as int);
            assert(self.calls().take(start.len() as int) == start);
            assert(new[0] == self.calls()[start.len() as int]);
            assert(new[1] == self.calls()[start.len() as int + 1]);
            if new.len() > 2 {
                assert(new[2] == self.calls()[start.len() as int + 2]);
            }
            if new[1].sql != TOUCH_SQL@ {
                assert(new[1].params[2] == SqlValue::Int(now));
            } else if existing is Err {
                lemma_add_is_not_touch();
            }
        }
        r
    }

    /// The `limit` newest entries, newest first.
    pub fn recent(&mut self, limit: usize) -> (r: Result<Vec<ClipEntry>, StoreError>)
        ensures
            final(self).path() == old(self).path(),
            final(self).calls() == old(self).calls().push(
                DbCall {
                    sql: RECENT_SQL@,
                    params: seq![SqlValue::Int(limit as i64)],
                    answer: entries_answer(r),
                },
            ),
    {
        let mut ps: Vec<SqlParam> = Vec::new();
        ps.push(SqlParam::Int(limit_param(limit)));
        assert(sql_values(ps@) =~= seq![SqlValue::Int(limit as i64)]);
        self.db.query_entries(RECENT_SQL, ps.as_slice())
    }

    /// Every entry, newest first, up to [`ALL_LIMIT`].
    pub fn all(&mut self) -> (r: Result<Vec<ClipEntry>, StoreError>)
        ensures
            final(self).path() == old(self).path(),
            final(self).calls() == old(self).calls().push(
                DbCall {
                    sql: RECENT_SQL@,
                    params: seq![SqlValue::Int(ALL_LIMIT as i64)],
                    answer: entries_answer(r),
                },
            ),
    {
        self.recent(ALL_LIMIT)
    }

    /// Fuzzy search over every entry: those that match `query`, best match first (newer first
    /// among equal matches), at most `limit` of them.
    pub fn search(&mut self, query: &str, limit: usize) -> (r: Result<Vec<ClipEntry>, StoreError>)
        ensures
            ({
                let c = final(self).calls().last();
                &&& final(self).path() == old(self).path()
                &&& final(self).calls() == old(self).calls().push(c)
                &&& c.sql == EVERY_ROW_SQL@
                &&& c.params == Seq::<SqlValue>::empty()
                &&& match c.answer {
                    Answer::Entries(Ok(rows)) => r matches Ok(v) && v@ == fuzzy_pick(rows, query@, limit as nat),
                    Answer::Entries(Err(e)) => r == Err::<Vec<ClipEntry>, StoreError>(e),
                    _ => false,
                }
            }),
    {
        let none: Vec<SqlParam> = Vec::new();
        assert(sql_values(none@) =~= Seq::<SqlValue>::empty());
        let rows = match self.db.query_entries(EVERY_ROW_SQL, none.as_slice()) {
            Ok(v) => v,
            Err(e) => return Err(e),
        };
        let shown = filter_entries(rows.as_slice(), query);
        let total = rows.len();
        proof {
            assert(rows@.len() == total);
            lemma_filter_indices(rows@, query@);
        }
        let n = if shown.len() < limit {
            shown.len()
        } else {
            limit
        };
        let mut out: Vec<ClipEntry> = Vec::new();
        let mut k: usize = 0;
        while k < n
            invariant
                k <= n <= shown@.len(),
                shown@ == filter_spec(rows@, query@),
                forall|j: int| 0 <= j < shown@.len() ==> (#[trigger] shown@[j] as int) < rows@.len(),
                out@.len() == k,
                forall|j: int| 0 <= j < k ==> #[trigger] out@[j] == rows@[shown@[j] as int],
            decreases n - k,
        {
            out.push(copy_entry(&rows[shown[k]]));
            k = k + 1;
        }
        assert(out@ == fuzzy_pick(rows@, query@, limit as nat));
        Ok(out)
    }

    /// The entry with this id, if there is one: a missing row is `Ok(None)`.
    pub fn get(&mut self, id: i64) -> (r: Result<Option<ClipEntry>, StoreError>)
        ensures
            ({
                let c = final(self).calls().last();
                &&& final(self).path() == old(self).path()
                &&& final(self).calls() == old(self).calls().push(c)
                &&& c.sql == GET_SQL@
                &&& c.params == seq![SqlValue::Int(id)]
                &&& c.answer is Entry
                &&& r == optional_spec(c.answer->Entry_0)
            }),
    {
        let mut ps: Vec<SqlParam> = Vec::new();
        ps.push(SqlParam::Int(id));
        assert(sql_values(ps@) =~= seq![SqlValue::Int(id)]);
        let found: Result<ClipEntry, StoreError> = self.db.query_row(GET_SQL, ps.as_slice(), read_clip);
        optional(found)
    }

    /// Deletes the entry with this id; `true` when there was one.
    pub fn delete(&mut self, id: i64) -> (r: Result<bool, StoreError>)
        ensures
            ({
                let c = final(self).calls().last();
                &&& final(self).path() == old(self).path()
                &&& final(self).calls() == old(self).calls().push(c)
                &&& c.sql == DELETE_SQL@
                &&& c.params == seq![SqlValue::Int(id)]
                &&& c.answer is Changed
                &&& r == delete_outcome_spec(c.answer->Changed_0)
            }),
    {
        let mut ps: Vec<SqlParam> = Vec::new();
        ps.push(SqlParam::Int(id));
        assert(sql_values(ps@) =~= seq![SqlValue::Int(id)]);
        let executed = self.db.execute(DELETE_SQL, ps.as_slice());
        delete_outcome(executed)
    }

    /// Deletes every entry; gives how many there were. It counts the entries, and only when
    /// that worked deletes them.
    pub fn clear(&mut self) -> (r: Result<usize, StoreError>)
        ensures
            final(self).path() == old(self).path(),
            final(self).calls().take(old(self).calls().len() as int) == old(self).calls(),
            clear_requests(final(self).calls().skip(old(self).calls().len() as int), r),
    {
        let ghost start = self.calls();
        let none: Vec<SqlParam> = Vec::new();
        assert(sql_values(none@) =~= Seq::<SqlValue>::empty());
        let counted: Result<i64, StoreError> = self.db.query_row(COUNT_SQL, none.as_slice(), read_first_i64);
        let count = match counted {
            Ok(c) => c,
            Err(e) => {
                proof {
                    assert(self.calls().take(start.len() as int) == start);
                    assert(self.calls().skip(start.len() as int)[0] == self.calls()[start.len() as int]);
                }
                return Err(e);
            },
        };
        let executed = self.db.execute(DELETE_ALL_SQL, none.as_slice());
        proof {
            let new = self.calls().skip(start.len() as int);
            assert(self.calls().take(start.len() as int) == start);
            assert(new[0] == self.calls()[start.len() as int]);
            assert(new[1] == self.calls()[start.len() as int + 1]);
        }
        clear_outcome(count, executed)
    }
}

/// The statement that adds a row is not the one that moves a row to the top.
proof fn lemma_add_is_not_touch()
    ensures
        ADD_SQL@ != TOUCH_SQL@,
{
    reveal_strlit("INSERT INTO clips (content, hash, timestamp, app_name) VALUES (?1, ?2, ?3, ?4)");
    reveal_strlit("UPDATE clips SET timestamp = ?1 WHERE id = ?2");
    assert(ADD_SQL@[0] != TOUCH_SQL@[0]);
}

/// The requests that a `clear` made, `new`, and what it returned, `r`: the count of the
/// entries; when that worked, the deletion of every entry, and the count.
pub open spec fn clear_requests(new: Seq<DbCall>, r: Result<usize, StoreError>) -> bool {
    &&& new.len() >= 1
    &&& new[0].sql == COUNT_SQL@
    &&& new[0].params == Seq::<SqlValue>::empty()
    &&& new[0].answer is Id
    &&& match new[0].answer->Id_0 {
        Ok(count) => {
            &&& new.len() == 2
            &&& new[1].sql == DELETE_ALL_SQL@
            &&& new[1].params == Seq::<SqlValue>::empty()
            &&& new[1].answer is Changed
            &&& r == clear_outcome_spec(count, new[1].answer->Changed_0)
        },
        Err(e) => new.len() == 1 && r == Err::<usize, StoreError>(e),
    }
}

/// Adding content that is already stored gives back the id it has.
pub proof fn law_reinsert_keeps_id(id: i64, changed: usize, new_rowid: i64)
    ensures
        insert_outcome_spec(insert_plan_spec(Ok(id)), Ok(changed), new_rowid) == Ok::<i64, StoreError>(id),
{
}

// ---------------------------------------------------------------------------
// What an insert does to the table
// ---------------------------------------------------------------------------

/// A row of the `clips` table: content, hash, timestamp and application value.
pub struct ClipRow {
    pub content: Seq<char>,
    pub hash: Seq<char>,
    pub timestamp: i64,
    pub app: SqlValue,
}

/// The time an insert handed the database: the new timestamp of the row it moved to the top,
/// or that of the row it added.
pub open spec fn insert_time(new: Seq<DbCall>) -> i64 {
    if new[1].sql == TOUCH_SQL@ {
        new[1].params[0]->Int_0
    } else {
        new[1].params[2]->Int_0
    }
}

/// The table `t` with the timestamp of row `id` set to `time`.
pub open spec fn touched(t: Map<i64, ClipRow>, id: i64, time: i64) -> Map<i64, ClipRow> {
    if t.contains_key(id) {
        t.insert(id, ClipRow { content: t[id].content, hash: t[id].hash, timestamp: time, app: t[id].app })
    } else {
        t
    }
}

/// What the statements of an insert, `new`, do to the table `t` (keyed by id), read as SQL:
/// the `UPDATE` sets the timestamp of the row with the id; the `INSERT` adds a row under the id
/// the database then reports; a statement that failed changes nothing.
pub open spec fn insert_effect(t: Map<i64, ClipRow>, new: Seq<DbCall>) -> Map<i64, ClipRow> {
    let c = new[1];
    match c.answer {
        Answer::Changed(Ok(_)) => if c.sql == TOUCH_SQL@ {
            touched(t, c.params[1]->Int_0, c.params[0]->Int_0)
        } else {
            t.insert(
                new[2].answer->Rowid_0,
                ClipRow {
                    content: c.params[0]->Text_0,
                    hash: c.params[1]->Text_0,
                    timestamp: c.params[2]->Int_0,
                    app: c.params[3],
                },
            )
        },
        _ => t,
    }
}

/// Whether the answer to the lookup of `hash` is true of the table `t`: an id whose row has the
/// hash, or no row when none has it.
pub open spec fn lookup_agrees(t: Map<i64, ClipRow>, hash: Seq<char>, a: Answer) -> bool {
    match a {
        Answer::Id(Ok(id)) => t.contains_key(id) && t[id].hash == hash,
        Answer::Id(Err(StoreError::NoRows)) => forall|k: i64| t.contains_key(k) ==> t[k].hash != hash,
        _ => false,
    }
}

/// Whether no two rows of `t` have the same hash.
pub open spec fn unique_hashes(t: Map<i64, ClipRow>) -> bool {
    forall|j: i64, k: i64| t.contains_key(j) && t.contains_key(k) && t[j].hash == t[k].hash ==> j == k
}

/// Inserting content that no row holds adds one row, under the id returned, with the content,
/// its hash, the time handed to the database and the application value; no other row changes.
pub proof fn law_insert_adds_row(t: Map<i64, ClipRow>, content: Seq<char>, app: SqlValue, new: Seq<DbCall>, id: i64)
    requires
        insert_requests(content, app, new, Ok(id)),
        lookup_agrees(t, content_hash_spec(content), new[0].answer),
        forall|k: i64| t.contains_key(k) ==> t[k].hash != content_hash_spec(content),
    ensures
        insert_effect(t, new) == t.insert(
            id,
            ClipRow { content, hash: content_hash_spec(content), timestamp: insert_time(new), app },
        ),
{
    if let Answer::Id(Ok(found)) = new[0].answer {
        assert(t.contains_key(found) && t[found].hash == content_hash_spec(content));
    }
    assert(new[1].sql != TOUCH_SQL@) by {
        reveal_strlit("INSERT INTO clips (content, hash, timestamp, app_name) VALUES (?1, ?2, ?3, ?4)");
        reveal_strlit("UPDATE clips SET timestamp = ?1 WHERE id = ?2");
        assert(ADD_SQL@[0] != TOUCH_SQL@[0]);
    }
}

/// Inserting content that a row holds already gives back that row's id and changes only that
/// row's timestamp, to the time handed to the database: the content, hash and application of
/// the row stay, and no row is added or removed.
pub proof fn law_reinsert_touches_timestamp(t: Map<i64, ClipRow>, content: Seq<char>, app: SqlValue, new: Seq<DbCall>, r: Result<i64, StoreError>, id: i64)
    requires
        insert_requests(content, app, new, r),
        lookup_agrees(t, content_hash_spec(content), new[0].answer),
        unique_hashes(t),
        t.contains_key(id),
        t[id].hash == content_hash_spec(content),
    ensures
        new[1].answer matches Answer::Changed(Ok(_)) ==> r == Ok::<i64, StoreError>(id),
        r is Ok ==> insert_effect(t, new) == t.insert(
            id,
            ClipRow { content: t[id].content, hash: t[id].hash, timestamp: insert_time(new), app: t[id].app },
        ),
        insert_effect(t, new).dom() == t.dom(),
{
    assert(new[0].answer->Id_0 == Ok::<i64, StoreError>(id));
    assert(t.insert(id, ClipRow { content: t[id].content, hash: t[id].hash, timestamp: insert_time(new), app: t[id].app }).dom() =~= t.dom());
}

/// When the clock has not gone back, a successful insert leaves its row the newest: no row of
/// the table has a later timestamp.
pub proof fn law_insert_is_newest(t: Map<i64, ClipRow>, content: Seq<char>, app: SqlValue, new: Seq<DbCall>, id: i64)
    requires
        insert_requests(content, app, new, Ok(id)),
        lookup_agrees(t, content_hash_spec(content), new[0].answer),
        forall|k: i64| t.contains_key(k) ==> t[k].timestamp <= insert_time(new),
    ensures
        insert_effect(t, new).contains_key(id),
        insert_effect(t, new)[id].timestamp == insert_time(new),
        forall|k: i64| #[trigger] insert_effect(t, new).contains_key(k) ==> insert_effect(t, new)[k].timestamp <= insert_effect(t, new)[id].timestamp,
{
    if let Answer::Id(Ok(found)) = new[0].answer {
        assert(found == id);
    } else {
        assert(new[1].sql != TOUCH_SQL@) by {
            reveal_strlit("INSERT INTO clips (content, hash, timestamp, app_name) VALUES (?1, ?2, ?3, ?4)");
            reveal_strlit("UPDATE clips SET timestamp = ?1 WHERE id = ?2");
            assert(ADD_SQL@[0] != TOUCH_SQL@[0]);
        }
    }
}

/// An insert keeps the table free of two rows with one hash, and afterwards, when it succeeded,
/// the row with the content's hash is the one whose id it returned.
pub proof fn law_insert_keeps_hashes_unique(t: Map<i64, ClipRow>, content: Seq<char>, app: SqlValue, new: Seq<DbCall>, r: Result<i64, StoreError>)
    requires
        insert_requests(content, app, new, r),
        lookup_agrees(t, content_hash_spec(content), new[0].answer),
        unique_hashes(t),
    ensures
        unique_hashes(insert_effect(t, new)),
        r matches Ok(id) ==> insert_effect(t, new).contains_key(id) && insert_effect(t, new)[id].hash == content_hash_spec(content),
{
    if !(new[0].answer matches Answer::Id(Ok(_))) {
        assert(new[1].sql != TOUCH_SQL@) by {
            reveal_strlit("INSERT INTO clips (content, hash, timestamp, app_name) VALUES (?1, ?2, ?3, ?4)");
            reveal_strlit("UPDATE clips SET timestamp = ?1 WHERE id = ?2");
            assert(ADD_SQL@[0] != TOUCH_SQL@[0]);
        }
    }
}

/// The row that an entry read from the table stands for.
pub open spec fn row_of(e: ClipEntry) -> ClipRow {
    ClipRow {
        content: e.content@,
        hash: e.hash@,
        timestamp: e.timestamp,
        app: match e.app_name {
            Some(a) => SqlValue::Text(a@),
            None => SqlValue::Null,
        },
    }
}

/// Whether the answer to the query for entry `id` is true of the table `t`: that row, or no row
/// when there is none.
pub open spec fn entry_agrees(t: Map<i64, ClipRow>, id: i64, a: Answer) -> bool {
    match a {
        Answer::Entry(Ok(e)) => e.id == id && t.contains_key(id) && row_of(e) == t[id],
        Answer::Entry(Err(StoreError::NoRows)) => !t.contains_key(id),
        _ => false,
    }
}

/// What a `DELETE` of one entry, `c`, does to the table `t`, read as SQL: when it ran, the row
/// with the id is gone.
pub open spec fn delete_effect(t: Map<i64, ClipRow>, c: DbCall) -> Map<i64, ClipRow> {
    match c.answer {
        Answer::Changed(Ok(_)) => t.remove(c.params[0]->Int_0),
        _ => t,
    }
}

/// Reading an entry back after an insert gives the row it stored: its id, the content's hash
/// and the time handed to the database; for new content, the content and application too.
pub proof fn law_get_after_insert(t: Map<i64, ClipRow>, content: Seq<char>, app: SqlValue, new: Seq<DbCall>, id: i64, read: Answer)
    requires
        insert_requests(content, app, new, Ok(id)),
        lookup_agrees(t, content_hash_spec(content), new[0].answer),
        entry_agrees(insert_effect(t, new), id, read),
    ensures
        optional_spec(read->Entry_0) matches Ok(Some(e)) && e.id == id && e.hash@ == content_hash_spec(content)
            && e.timestamp == insert_time(new),
        new[0].answer is Id && new[0].answer->Id_0 is Err ==> (optional_spec(read->Entry_0) matches Ok(Some(e))
            && e.content@ == content && row_of(e).app == app),
{
    if let Answer::Id(Ok(found)) = new[0].answer {
        assert(found == id);
    } else {
        assert(new[1].sql != TOUCH_SQL@) by {
            reveal_strlit("INSERT INTO clips (content, hash, timestamp, app_name) VALUES (?1, ?2, ?3, ?4)");
            reveal_strlit("UPDATE clips SET timestamp = ?1 WHERE id = ?2");
            assert(ADD_SQL@[0] != TOUCH_SQL@[0]);
        }
    }
}

/// After an entry is deleted, reading it gives no entry; `delete` reports `true` exactly when
/// the table held the entry (when the database reports the rows it removed).
pub proof fn law_get_after_delete(t: Map<i64, ClipRow>, id: i64, c: DbCall, read: Answer)
    requires
        c.sql == DELETE_SQL@,
        c.params == seq![SqlValue::Int(id)],
        c.answer matches Answer::Changed(Ok(n)) && n == (if t.contains_key(id) { 1usize } else { 0usize }),
        entry_agrees(delete_effect(t, c), id, read),
    ensures
        optional_spec(read->Entry_0) == Ok::<Option<ClipEntry>, StoreError>(None),
        delete_outcome_spec(c.answer->Changed_0) == Ok::<bool, StoreError>(t.contains_key(id)),
{
}

/// Whether the answer to a query for the `limit` newest entries is true of the table `t`: rows
/// of the table, each once, newest first, at most `limit` of them; a row left out means the
/// answer is full and the row is no newer than the last one given.
pub open spec fn recent_agrees(t: Map<i64, ClipRow>, limit: int, a: Answer) -> bool {
    match a {
        Answer::Entries(Ok(v)) => {
            &&& v.len() <= limit
            &&& forall|i: int| 0 <= i < v.len() ==> t.contains_key(#[trigger] v[i].id) && row_of(v[i]) == t[v[i].id]
            &&& forall|i: int, j: int| 0 <= i < j < v.len() ==> v[i].id != v[j].id && v[i].timestamp >= v[j].timestamp
            &&& forall|k: i64| #[trigger] t.contains_key(k) && !(exists|i: int| 0 <= i < v.len() && v[i].id == k) ==> v.len() == limit
                && (v.len() > 0 ==> t[k].timestamp <= v.last().timestamp)
        },
        _ => false,
    }
}

/// When the clock has not gone back, the newest entry after a successful insert has the
/// insert's time: the entry inserted, or one stamped in the same second.
pub proof fn law_recent_after_insert(t: Map<i64, ClipRow>, content: Seq<char>, app: SqlValue, new: Seq<DbCall>, id: i64, read: Answer)
    requires
        insert_requests(content, app, new, Ok(id)),
        lookup_agrees(t, content_hash_spec(content), new[0].answer),
        forall|k: i64| t.contains_key(k) ==> t[k].timestamp <= insert_time(new),
        recent_agrees(insert_effect(t, new), 1, read),
    ensures
        read->Entries_0 matches Ok(v) && v.len() == 1 && v[0].timestamp == insert_time(new),
{
    law_insert_is_newest(t, content, app, new, id);
    let after = insert_effect(t, new);
    let v = read->Entries_0->Ok_0;
    if v.len() == 0 {
        assert(after.contains_key(id));
        assert(!(exists|i: int| 0 <= i < v.len() && v[i].id == id));
    } else {
        assert(after.contains_key(v[0].id));
        assert(row_of(v[0]) == after[v[0].id]);
        if v[0].id != id {
            assert(!(exists|i: int| 0 <= i < v.len() && v[i].id == id));
        }
    }
}

/// What the statements of a `clear`, `new`, do to the table `t`, read as SQL: when the
/// `DELETE` ran, no row is left.
pub open spec fn clear_effect(t: Map<i64, ClipRow>, new: Seq<DbCall>) -> Map<i64, ClipRow> {
    if new.len() == 2 && new[1].answer matches Answer::Changed(Ok(_)) {
        Map::empty()
    } else {
        t
    }
}

/// Whether the answer to the count of the entries is true of the table `t`.
pub open spec fn count_agrees(t: Map<i64, ClipRow>, a: Answer) -> bool {
    match a {
        Answer::Id(Ok(n)) => n as int == t.dom().len(),
        Answer::Id(Err(_)) => true,
        _ => false,
    }
}

/// A `clear` that succeeded leaves no entry and gives the number of entries there were.
pub proof fn law_clear_empties(t: Map<i64, ClipRow>, new: Seq<DbCall>, r: Result<usize, StoreError>)
    requires
        clear_requests(new, r),
        count_agrees(t, new[0].answer),
        t.dom().len() <= usize::MAX,
    ensures
        r matches Ok(n) ==> n == t.dom().len() && clear_effect(t, new) == Map::<i64, ClipRow>::empty(),
        r is Err ==> clear_effect(t, new) == t,
{
}

/// One call of the store that changes the table, with the requests it made and its result.
pub enum StoreStep {
    Insert { content: Seq<char>, app: SqlValue, new: Seq<DbCall>, r: Result<i64, StoreError> },
    Delete { call: DbCall },
    Clear { new: Seq<DbCall>, r: Result<usize, StoreError> },
}

/// What a step does to the table `t`, read as SQL.
pub open spec fn step_effect(t: Map<i64, ClipRow>, step: StoreStep) -> Map<i64, ClipRow> {
    match step {
        StoreStep::Insert { new, .. } => insert_effect(t, new),
        StoreStep::Delete { call } => delete_effect(t, call),
        StoreStep::Clear { new, .. } => clear_effect(t, new),
    }
}

/// Whether a step is one that `insert`, `delete` or `clear` makes, as their contracts state,
/// with the lookup of an insert answered truly of the table `t` it starts from.
pub open spec fn step_fits(t: Map<i64, ClipRow>, step: StoreStep) -> bool {
    match step {
        StoreStep::Insert { content, app, new, r } => insert_requests(content, app, new, r) && lookup_agrees(
            t,
            content_hash_spec(content),
            new[0].answer,
        ),
        StoreStep::Delete { call } => call.sql == DELETE_SQL@ && call.params.len() == 1 && call.params[0] is Int
            && call.answer is Changed,
        StoreStep::Clear { new, r } => clear_requests(new, r),
    }
}

/// The table after the steps, in order, starting from `t`.
pub open spec fn replay(t: Map<i64, ClipRow>, steps: Seq<StoreStep>) -> Map<i64, ClipRow>
    decreases steps.len(),
{
    if steps.len() == 0 {
        t
    } else {
        step_effect(replay(t, steps.drop_last()), steps.last())
    }
}

/// Whether every step fits the table that the steps before it left.
pub open spec fn replay_fits(t: Map<i64, ClipRow>, steps: Seq<StoreStep>) -> bool {
    forall|i: int| 0 <= i < steps.len() ==> step_fits(replay(t, steps.take(i)), #[trigger] steps[i])
}

/// However inserts, deletes and clears follow one another, no two entries share a hash: a clip
/// is stored once.
pub proof fn law_history_keeps_hashes_unique(t: Map<i64, ClipRow>, steps: Seq<StoreStep>)
    requires
        unique_hashes(t),
        replay_fits(t, steps),
    ensures
        unique_hashes(replay(t, steps)),
    decreases steps.len(),
{
    if steps.len() > 0 {
        let n = steps.len() - 1;
        let prev = steps.drop_last();
        assert forall|i: int| 0 <= i < prev.len() implies step_fits(replay(t, prev.take(i)), #[trigger] prev[i]) by {
            assert(prev.take(i) =~= steps.take(i));
            assert(prev[i] == steps[i]);
        }
        law_history_keeps_hashes_unique(t, prev);
        assert(steps.take(n) =~= prev);
        let before = replay(t, prev);
        assert(step_fits(before, steps[n]));
        match steps.last() {
            StoreStep::Insert { content, app, new, r } => {
                law_insert_keeps_hashes_unique(before, content, app, new, r);
            },
            StoreStep::Delete { call } => {
                let after = delete_effect(before, call);
                assert forall|j: i64, k: i64| after.contains_key(j) && after.contains_key(k) && after[j].hash == after[k].hash implies j == k by {
                    assert(before.contains_key(j) && before.contains_key(k));
                }
            },
            StoreStep::Clear { new, r } => {},
        }
    }
}

/// Search keeps the head of the ranking: the result for a limit is the start of the result
/// for any larger limit, as long as the limit and the matches allow; an empty query gives the
/// newest entries in order; otherwise each entry given matches the query, better matches come
/// first, and an entry that matches but is left out is left out because the limit was reached
/// and matches no better than the last entry given.
pub proof fn law_search_keeps_the_best(rows: Seq<ClipEntry>, query: Seq<char>, limit: nat, larger: nat)
    requires
        rows.len() <= usize::MAX,
        limit <= larger,
    ensures
        ({
            let shown = filter_spec(rows, query);
            let picked = fuzzy_pick(rows, query, limit);
            let n = picked.len();
            &&& n == if shown.len() < limit { shown.len() } else { limit }
            &&& picked == fuzzy_pick(rows, query, larger).take(n as int)
            &&& query.len() == 0 ==> forall|k: int| 0 <= k < n ==> #[trigger] picked[k] == rows[k]
            &&& query.len() > 0 ==> forall|k: int| 0 <= k < n ==> (#[trigger] skim_score(picked[k].content@, query)) is Some
            &&& query.len() > 0 ==> forall|k: int, j: int| 0 <= k < j < n ==> skim_score(
                (#[trigger] picked[k]).content@,
                query,
            )->0 >= skim_score((#[trigger] picked[j]).content@, query)->0
            &&& query.len() > 0 ==> forall|i: int| 0 <= i < rows.len() && (#[trigger] skim_score(rows[i].content@, query)) is Some
                && !shown.take(n as int).contains(i as usize) ==> n == limit && (n > 0 ==> skim_score(
                rows[i].content@,
                query,
            )->0 <= skim_score(picked[n - 1].content@, query)->0)
        }),
{
    let shown = filter_spec(rows, query);
    let picked = fuzzy_pick(rows, query, limit);
    let n = picked.len();
    assert(picked =~= fuzzy_pick(rows, query, larger).take(n as int));
    if query.len() > 0 {
        let scores = entry_scores(rows, query);
        lemma_ranking_is_ranking(scores);
        assert forall|k: int, j: int| 0 <= k < j < n implies skim_score((#[trigger] picked[k]).content@, query)->0
            >= skim_score((#[trigger] picked[j]).content@, query)->0 by {
            assert(ranks_before(scores, shown[k], shown[j]));
        }
        assert forall|i: int| 0 <= i < rows.len() && (#[trigger] skim_score(rows[i].content@, query)) is Some
            && !shown.take(n as int).contains(i as usize) implies n == limit && (n > 0 ==> skim_score(
            rows[i].content@,
            query,
        )->0 <= skim_score(picked[n - 1].content@, query)->0) by {
            assert(scores[i] is Some);
            assert(shown.contains(i as usize));
            let m = choose|m: int| 0 <= m < shown.len() && shown[m] == i as usize;
            if m < n {
                assert(shown.take(n as int)[m] == i as usize);
            }
            assert(m >= n);
            if n > 0 && m > n - 1 {
                assert(ranks_before(scores, shown[n - 1], shown[m]));
            }
        }
    }
}

} // verus!
