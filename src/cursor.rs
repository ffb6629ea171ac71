//! The cursor protocol: creating a cursor for a query, reading its next
//! batch, deleting it, and the typed cursor that each response decodes to.

use vstd::prelude::*;
use vstd::string::*;
use crate::error::{decoding_error, is_decoding_error, Error};
use crate::json::{
    as_u64, field, from_u32, get, put, take, u64_of, Json, Number,
};
use crate::method::{
    FIELD_CODE, FIELD_ERROR,
};
use crate::query::{is_rules_wire, OptimizerRule, OptimizerRuleSet, Query};

verus! {

pub const FIELD_QUERY: &'static str = "query";
pub const FIELD_BIND_VARS: &'static str = "bindVars";
pub const FIELD_BATCH_SIZE: &'static str = "batchSize";
pub const FIELD_COUNT: &'static str = "count";
pub const FIELD_OPTIONS: &'static str = "options";
pub const FIELD_OPTIMIZER: &'static str = "optimizer";
pub const FIELD_RULES: &'static str = "rules";
pub const FIELD_RESULT: &'static str = "result";
pub const FIELD_HAS_MORE: &'static str = "hasMore";
pub const FIELD_ID: &'static str = "id";
pub const FIELD_CACHED: &'static str = "cached";
pub const FIELD_EXTRA: &'static str = "extra";
pub const FIELD_STATS: &'static str = "stats";
pub const FIELD_WARNINGS: &'static str = "warnings";
pub const FIELD_WRITES_EXECUTED: &'static str = "writesExecuted";
pub const FIELD_WRITES_IGNORED: &'static str = "writesIgnored";
pub const FIELD_SCANNED_FULL: &'static str = "scannedFull";
pub const FIELD_SCANNED_INDEX: &'static str = "scannedIndex";
pub const FIELD_FILTERED: &'static str = "filtered";

/// Tells the member names of requests and batches apart.
pub proof fn lemma_cursor_keys()
    ensures
        FIELD_CODE@.len() == 4 && FIELD_CODE@[0] == 'c' && FIELD_CODE@[3] == 'e',
        FIELD_ERROR@.len() == 5 && FIELD_ERROR@[0] == 'e' && FIELD_ERROR@[4] == 'r',
        FIELD_QUERY@.len() == 5 && FIELD_QUERY@[0] == 'q' && FIELD_QUERY@[4] == 'y',
        FIELD_BIND_VARS@.len() == 8 && FIELD_BIND_VARS@[0] == 'b' && FIELD_BIND_VARS@[7] == 's',
        FIELD_BATCH_SIZE@.len() == 9 && FIELD_BATCH_SIZE@[0] == 'b' && FIELD_BATCH_SIZE@[8] == 'e',
        FIELD_COUNT@.len() == 5 && FIELD_COUNT@[0] == 'c' && FIELD_COUNT@[4] == 't',
        FIELD_OPTIONS@.len() == 7 && FIELD_OPTIONS@[0] == 'o' && FIELD_OPTIONS@[6] == 's',
        FIELD_OPTIMIZER@.len() == 9 && FIELD_OPTIMIZER@[0] == 'o' && FIELD_OPTIMIZER@[8] == 'r',
        FIELD_RULES@.len() == 5 && FIELD_RULES@[0] == 'r' && FIELD_RULES@[4] == 's',
        FIELD_RESULT@.len() == 6 && FIELD_RESULT@[0] == 'r' && FIELD_RESULT@[5] == 't',
        FIELD_HAS_MORE@.len() == 7 && FIELD_HAS_MORE@[0] == 'h' && FIELD_HAS_MORE@[6] == 'e',
        FIELD_ID@.len() == 2 && FIELD_ID@[0] == 'i' && FIELD_ID@[1] == 'd',
        FIELD_CACHED@.len() == 6 && FIELD_CACHED@[0] == 'c' && FIELD_CACHED@[5] == 'd',
        FIELD_EXTRA@.len() == 5 && FIELD_EXTRA@[0] == 'e' && FIELD_EXTRA@[4] == 'a',
        FIELD_STATS@.len() == 5 && FIELD_STATS@[0] == 's' && FIELD_STATS@[4] == 's',
        FIELD_WARNINGS@.len() == 8 && FIELD_WARNINGS@[0] == 'w' && FIELD_WARNINGS@[7] == 's',
        FIELD_WRITES_EXECUTED@.len() == 14 && FIELD_WRITES_EXECUTED@[0] == 'w' && FIELD_WRITES_EXECUTED@[13] == 'd',
        FIELD_WRITES_IGNORED@.len() == 13 && FIELD_WRITES_IGNORED@[0] == 'w' && FIELD_WRITES_IGNORED@[12] == 'd',
        FIELD_SCANNED_FULL@.len() == 11 && FIELD_SCANNED_FULL@[0] == 's' && FIELD_SCANNED_FULL@[10] == 'l',
        FIELD_SCANNED_INDEX@.len() == 12 && FIELD_SCANNED_INDEX@[0] == 's' && FIELD_SCANNED_INDEX@[11] == 'x',
        FIELD_FILTERED@.len() == 8 && FIELD_FILTERED@[0] == 'f' && FIELD_FILTERED@[7] == 'd',
{
    reveal_strlit("code");
    reveal_strlit("error");
    reveal_strlit("query");
    reveal_strlit("bindVars");
    reveal_strlit("batchSize");
    reveal_strlit("count");
    reveal_strlit("options");
    reveal_strlit("optimizer");
    reveal_strlit("rules");
    reveal_strlit("result");
    reveal_strlit("hasMore");
    reveal_strlit("id");
    reveal_strlit("cached");
    reveal_strlit("extra");
    reveal_strlit("stats");
    reveal_strlit("warnings");
    reveal_strlit("writesExecuted");
    reveal_strlit("writesIgnored");
    reveal_strlit("scannedFull");
    reveal_strlit("scannedIndex");
    reveal_strlit("filtered");
}

/// The request for a new cursor: the query, its bind parameters, how many
/// rows a batch should hold, and the optimizer-rule filter.
#[derive(Debug, PartialEq)]
pub struct NewCursor {
    pub query: String,
    pub bind_vars: Vec<(String, Json)>,
    pub count: Option<bool>,
    pub batch_size: Option<u32>,
    pub rules: OptimizerRuleSet,
}

/// `j` is the number `n`, where there is one.
pub open spec fn is_opt_u32(j: Option<Json>, n: Option<u32>) -> bool {
    match n {
        Some(n) => j == Some(Json::Number(Number::Int(n as i64))),
        None => j is None,
    }
}

/// `j` is the boolean `b`, where there is one.
pub open spec fn is_opt_bool(j: Option<Json>, b: Option<bool>) -> bool {
    match b {
        Some(b) => j == Some(Json::Bool(b)),
        None => j is None,
    }
}

/// `j` is the wire shape of the cursor request `c`.
pub open spec fn is_new_cursor_wire(c: NewCursor, j: Json) -> bool {
    &&& j is Object
    &&& field(j, FIELD_QUERY@) == Some(Json::Str(c.query))
    &&& field(j, FIELD_BIND_VARS@) == Some(Json::Object(c.bind_vars))
    &&& is_opt_bool(field(j, FIELD_COUNT@), c.count)
    &&& is_opt_u32(field(j, FIELD_BATCH_SIZE@), c.batch_size)
    &&& field(j, FIELD_OPTIONS@) matches Some(o) && field(o, FIELD_OPTIMIZER@) matches Some(opt)
        && field(opt, FIELD_RULES@) matches Some(Json::Array(rules)) && is_rules_wire(
        c.rules,
        rules@,
    )
}

impl NewCursor {
    /// A request for the query text alone.
    pub fn new(query: String) -> (r: NewCursor)
        ensures
            r.query == query,
            r.bind_vars@.len() == 0,
            r.count is None,
            r.batch_size is None,
            r.rules.enabled@.len() == 0,
            r.rules.disabled@.len() == 0,
    {
        NewCursor {
            query,
            bind_vars: Vec::new(),
            count: None,
            batch_size: None,
            rules: OptimizerRuleSet::new(),
        }
    }

    /// A request for a query with its bind parameters.
    pub fn from_query(query: Query) -> (r: NewCursor)
        ensures
            r.query == query.string,
            r.bind_vars == query.params,
            r.count is None,
            r.batch_size is None,
            r.rules.enabled@.len() == 0,
            r.rules.disabled@.len() == 0,
    {
        NewCursor {
            query: query.string,
            bind_vars: query.params,
            count: None,
            batch_size: None,
            rules: OptimizerRuleSet::new(),
        }
    }

    /// Asks for batches of `batch_size` rows.
    pub fn set_batch_size(&mut self, batch_size: u32)
        ensures
            final(self).batch_size == Some(batch_size),
            final(self).query == old(self).query,
            final(self).bind_vars == old(self).bind_vars,
            final(self).count == old(self).count,
            final(self).rules == old(self).rules,
    {
        self.batch_size = Some(batch_size);
    }

    /// The requested batch size.
    pub fn batch_size(&self) -> (r: Option<u32>)
        ensures
            r == self.batch_size,
    {
        self.batch_size
    }

    /// Asks for the total number of rows.
    pub fn set_count(&mut self, count: bool)
        ensures
            final(self).count == Some(count),
            final(self).query == old(self).query,
            final(self).bind_vars == old(self).bind_vars,
            final(self).batch_size == old(self).batch_size,
            final(self).rules == old(self).rules,
    {
        self.count = Some(count);
    }

    /// Switches an optimizer rule on.
    pub fn enable_rule(&mut self, rule: OptimizerRule)
        ensures
            final(self).rules.enabled@ == old(self).rules.enabled@.push(rule),
            final(self).rules.disabled@ == old(self).rules.disabled@,
            final(self).query == old(self).query,
            final(self).batch_size == old(self).batch_size,
    {
        self.rules.enable(rule);
    }

    /// Switches an optimizer rule off.
    pub fn disable_rule(&mut self, rule: OptimizerRule)
        ensures
            final(self).rules.disabled@ == old(self).rules.disabled@.push(rule),
            final(self).rules.enabled@ == old(self).rules.enabled@,
            final(self).query == old(self).query,
            final(self).batch_size == old(self).batch_size,
    {
        self.rules.disable(rule);
    }

    /// The request body as the remote side reads it.
    pub fn to_json(self) -> (r: Json)
        ensures
            is_new_cursor_wire(self, r),
    {
        proof {
            lemma_cursor_keys();
        }
        let rules = self.rules.to_wire();
        let mut rule_members: Vec<(String, Json)> = Vec::new();
        put(&mut rule_members, FIELD_RULES, Json::Array(rules));
        let mut optimizer: Vec<(String, Json)> = Vec::new();
        put(&mut optimizer, FIELD_OPTIMIZER, Json::Object(rule_members));
        let mut members: Vec<(String, Json)> = Vec::new();
        put(&mut members, FIELD_QUERY, Json::Str(self.query));
        put(&mut members, FIELD_BIND_VARS, Json::Object(self.bind_vars));
        if let Some(c) = self.count {
            put(&mut members, FIELD_COUNT, Json::Bool(c));
        }
        if let Some(b) = self.batch_size {
            put(&mut members, FIELD_BATCH_SIZE, from_u32(b));
        }
        put(&mut members, FIELD_OPTIONS, Json::Object(optimizer));
        Json::Object(members)
    }
}

/// Counters of the work a query did.
#[derive(Debug, Clone, Copy, PartialEq, Eq)]
pub struct CursorStatistics {
    pub writes_executed: u64,
    pub writes_ignored: u64,
    pub scanned_full: u64,
    pub scanned_index: u64,
    pub filtered: u64,
}

/// What the remote side adds to a batch beside its rows.
#[derive(Debug, PartialEq)]
pub struct CursorExtra {
    pub stats: CursorStatistics,
    pub warnings: Vec<Json>,
}

impl CursorExtra {
    /// The statistics of the query.
    pub fn stats(&self) -> (r: CursorStatistics)
        ensures
            r == self.stats,
    {
        self.stats
    }
}

impl CursorStatistics {
    /// The number of writes done.
    pub fn writes_executed(&self) -> (r: u64)
        ensures
            r == self.writes_executed,
    {
        self.writes_executed
    }

    /// The number of writes ignored.
    pub fn writes_ignored(&self) -> (r: u64)
        ensures
            r == self.writes_ignored,
    {
        self.writes_ignored
    }

    /// The number of documents read by full scans.
    pub fn scanned_full(&self) -> (r: u64)
        ensures
            r == self.scanned_full,
    {
        self.scanned_full
    }

    /// The number of documents read through indexes.
    pub fn scanned_index(&self) -> (r: u64)
        ensures
            r == self.scanned_index,
    {
        self.scanned_index
    }

    /// The number of documents that filters removed.
    pub fn filtered(&self) -> (r: u64)
        ensures
            r == self.filtered,
    {
        self.filtered
    }
}

/// The member `key` of `j` read as a count.
pub open spec fn u64_field(j: Json, key: Seq<char>) -> Option<u64> {
    match field(j, key) {
        Some(v) => u64_of(v),
        None => None,
    }
}

/// The statistics that `j` holds, where it holds all five counters.
pub open spec fn stats_of(j: Json) -> Option<CursorStatistics> {
    match (
        u64_field(j, FIELD_WRITES_EXECUTED@),
        u64_field(j, FIELD_WRITES_IGNORED@),
        u64_field(j, FIELD_SCANNED_FULL@),
        u64_field(j, FIELD_SCANNED_INDEX@),
        u64_field(j, FIELD_FILTERED@),
    ) {
        (Some(a), Some(b), Some(c), Some(d), Some(e)) => Some(
            CursorStatistics {
                writes_executed: a,
                writes_ignored: b,
                scanned_full: c,
                scanned_index: d,
                filtered: e,
            },
        ),
        _ => None,
    }
}

/// `j` has the shape of the extra part of a batch.
pub open spec fn is_extra_shape(j: Json) -> bool {
    &&& field(j, FIELD_STATS@) matches Some(s) && stats_of(s) is Some
    &&& (field(j, FIELD_WARNINGS@) is None || field(j, FIELD_WARNINGS@) matches Some(Json::Array(_)))
}

/// `x` is what the extra part `j` decodes to.
pub open spec fn is_extra_of(j: Json, x: CursorExtra) -> bool {
    &&& field(j, FIELD_STATS@) matches Some(s) && stats_of(s) == Some(x.stats)
    &&& match field(j, FIELD_WARNINGS@) {
        Some(w) => w == Json::Array(x.warnings),
        None => x.warnings@.len() == 0,
    }
}

fn decode_stats(j: &Json) -> (r: Option<CursorStatistics>)
    ensures
        r == stats_of(*j),
{
    let a = match crate::json::get_field(j, FIELD_WRITES_EXECUTED) {
        Some(v) => as_u64(v),
        None => None,
    };
    let b = match crate::json::get_field(j, FIELD_WRITES_IGNORED) {
        Some(v) => as_u64(v),
        None => None,
    };
    let c = match crate::json::get_field(j, FIELD_SCANNED_FULL) {
        Some(v) => as_u64(v),
        None => None,
    };
    let d = match crate::json::get_field(j, FIELD_SCANNED_INDEX) {
        Some(v) => as_u64(v),
        None => None,
    };
    let e = match crate::json::get_field(j, FIELD_FILTERED) {
        Some(v) => as_u64(v),
        None => None,
    };
    match (a, b, c, d, e) {
        (Some(a), Some(b), Some(c), Some(d), Some(e)) => Some(
            CursorStatistics {
                writes_executed: a,
                writes_ignored: b,
                scanned_full: c,
                scanned_index: d,
                filtered: e,
            },
        ),
        _ => None,
    }
}

fn decode_extra(j: Json) -> (r: Result<CursorExtra, Error>)
    ensures
        r is Ok <==> is_extra_shape(j),
        !is_extra_shape(j) ==> is_decoding_error(r),
        r matches Ok(x) ==> is_extra_of(j, x),
{
    let stats = match crate::json::get_field(&j, FIELD_STATS) {
        Some(s) => decode_stats(s),
        None => None,
    };
    let stats = match stats {
        Some(s) => s,
        None => {
            return decoding_error("the statistics of the batch are missing or malformed");
        },
    };
    let mut members = match j {
        Json::Object(m) => m,
        _ => {
            return decoding_error("the extra part of the batch is not an object");
        },
    };
    match take(&mut members, FIELD_WARNINGS) {
        None => Ok(CursorExtra { stats, warnings: Vec::new() }),
        Some(Json::Array(w)) => Ok(CursorExtra { stats, warnings: w }),
        Some(_) => decoding_error("the warnings of the batch are not a list"),
    }
}

/// One batch of a query's rows, with the identifier under which the remote
/// side keeps the rest.
#[derive(Debug, PartialEq)]
pub struct Cursor {
    pub result: Vec<Json>,
    pub has_more: bool,
    /// Present exactly while more rows remain.
    pub id: Option<String>,
    pub count: Option<u64>,
    pub cached: bool,
    pub extra: Option<CursorExtra>,
}

/// `j` has the shape of a batch: a list of rows, the more-available flag,
/// an identifier exactly when more rows remain, and well-formed optional
/// members.
pub open spec fn is_cursor_shape(j: Json) -> bool {
    &&& j is Object
    &&& field(j, FIELD_RESULT@) matches Some(Json::Array(_))
    &&& field(j, FIELD_HAS_MORE@) matches Some(Json::Bool(more)) && match field(j, FIELD_ID@) {
        None => !more,
        Some(Json::Str(_)) => more,
        Some(_) => false,
    }
        &&& (field(j, FIELD_COUNT@) matches Some(v) ==> u64_of(v) is Some)
    &&& (field(j, FIELD_CACHED@) is None || field(j, FIELD_CACHED@) matches Some(Json::Bool(_)))
    &&& (field(j, FIELD_EXTRA@) matches Some(x) ==> is_extra_shape(x) && x is Object)
}

/// `c` is what the batch `j` decodes to: every member kept as received.
pub open spec fn is_cursor_of(j: Json, c: Cursor) -> bool {
    &&& field(j, FIELD_RESULT@) == Some(Json::Array(c.result))
    &&& field(j, FIELD_HAS_MORE@) == Some(Json::Bool(c.has_more))
    &&& match c.id {
        Some(s) => field(j, FIELD_ID@) == Some(Json::Str(s)),
        None => field(j, FIELD_ID@) is None,
    }
    &&& match field(j, FIELD_COUNT@) {
        Some(v) => c.count == u64_of(v),
        None => c.count is None,
    }
    &&& c.cached == (field(j, FIELD_CACHED@) == Some(Json::Bool(true)))
    &&& match field(j, FIELD_EXTRA@) {
        Some(x) => c.extra matches Some(e) && is_extra_of(x, e),
        None => c.extra is None,
    }
}

/// The wire members of a batch that carry the paging state: its rows, the
/// more-available flag and the identifier.
pub open spec fn is_cursor_wire(c: Cursor, j: Json) -> bool {
    &&& j is Object
    &&& field(j, FIELD_RESULT@) == Some(Json::Array(c.result))
    &&& field(j, FIELD_HAS_MORE@) == Some(Json::Bool(c.has_more))
    &&& match c.id {
        Some(s) => field(j, FIELD_ID@) == Some(Json::Str(s)),
        None => field(j, FIELD_ID@) is None,
    }
    &&& field(j, FIELD_CACHED@) == Some(Json::Bool(c.cached))
}

impl Cursor {
    /// Decodes one batch.
    pub fn from_json(j: Json) -> (r: Result<Cursor, Error>)
        ensures
            r is Ok <==> is_cursor_shape(j),
            !is_cursor_shape(j) ==> is_decoding_error(r),
            r matches Ok(c) ==> is_cursor_of(j, c),
    {
        proof {
            lemma_cursor_keys();
        }
        let mut members = match j {
            Json::Object(m) => m,
            _ => {
                return decoding_error("the batch is not an object");
            },
        };
        let has_more = match get(&members, FIELD_HAS_MORE) {
            Some(Json::Bool(b)) => *b,
            _ => {
                return decoding_error("the batch has no more-available flag");
            },
        };
        let id = match get(&members, FIELD_ID) {
            None => None,
            Some(Json::Str(s)) => Some(s.clone()),
            Some(_) => {
                return decoding_error("the cursor identifier is not a string");
            },
        };
        if has_more != id.is_some() {
            return decoding_error("the cursor identifier must be present exactly while more rows remain");
        }
        let count = match get(&members, FIELD_COUNT) {
            None => None,
            Some(v) => match as_u64(v) {
                Some(n) => Some(n),
                None => {
                    return decoding_error("the row count is not a count");
                },
            },
        };
        let cached = match get(&members, FIELD_CACHED) {
            None => false,
            Some(Json::Bool(b)) => *b,
            Some(_) => {
                return decoding_error("the cached flag is not a boolean");
            },
        };
        let extra = match take(&mut members, FIELD_EXTRA) {
            None => None,
            Some(x) => {
                if !matches!(x, Json::Object(_)) {
                    return decoding_error("the extra part of the batch is not an object");
                }
                match decode_extra(x) {
                    Ok(e) => Some(e),
                    Err(e) => {
                        return Err(e);
                    },
                }
            },
        };
        let result = match take(&mut members, FIELD_RESULT) {
            Some(Json::Array(rows)) => rows,
            _ => {
                return decoding_error("the rows of the batch are missing");
            },
        };
        Ok(Cursor { result, has_more, id, count, cached, extra })
    }

    /// The paging members of this batch in their wire shape.
    pub fn to_json(self) -> (r: Json)
        ensures
            is_cursor_wire(self, r),
    {
        proof {
            lemma_cursor_keys();
        }
        let mut members: Vec<(String, Json)> = Vec::new();
        put(&mut members, FIELD_RESULT, Json::Array(self.result));
        put(&mut members, FIELD_HAS_MORE, Json::Bool(self.has_more));
        if let Some(id) = self.id {
            put(&mut members, FIELD_ID, Json::Str(id));
        }
        put(&mut members, FIELD_CACHED, Json::Bool(self.cached));
        Json::Object(members)
    }

    /// The rows of this batch.
    pub fn result(&self) -> (r: &Vec<Json>)
        ensures
            r == self.result,
    {
        &self.result
    }

    /// Whether more rows remain after this batch.
    pub fn has_more(&self) -> (r: bool)
        ensures
            r == self.has_more,
    {
        self.has_more
    }

    /// The identifier of the cursor, present while more rows remain.
    pub fn id(&self) -> (r: Option<&str>)
        ensures
            match self.id {
                Some(s) => r matches Some(t) && t@ == s@,
                None => r is None,
            },
    {
        match &self.id {
            Some(s) => Some(s.as_str()),
            None => None,
        }
    }

    /// The total number of rows, where it was asked for.
    pub fn count(&self) -> (r: Option<u64>)
        ensures
            r == self.count,
    {
        self.count
    }

    /// Whether the rows came from the query cache.
    pub fn cached(&self) -> (r: bool)
        ensures
            r == self.cached,
    {
        self.cached
    }

    /// What the remote side sent beside the rows.
    pub fn extra(&self) -> (r: Option<&CursorExtra>)
        ensures
            match self.extra {
                Some(x) => r == Some(&x),
                None => r is None,
            },
    {
        match &self.extra {
            Some(x) => Some(x),
            None => None,
        }
    }
}

} // verus!
