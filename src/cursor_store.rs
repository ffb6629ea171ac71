//! An in-memory cursor service with the remote side's semantics: it hands out
//! a result set in batches under an identifier, answers in response
//! envelopes, and reports unknown identifiers as not found.

use vstd::prelude::*;
use vstd::string::*;
use crate::cursor::{lemma_cursor_keys, Cursor, FIELD_HAS_MORE, FIELD_ID, FIELD_RESULT};
use crate::cursor_methods::is_cursor_response;
use crate::error::Error;
use crate::json::{field, put, Json, Number};
use crate::method::{
    lemma_envelope_keys, string_field, u16_field, FIELD_CODE, FIELD_ERROR, FIELD_ERROR_MESSAGE,
    FIELD_ERROR_NUMBER,
};

verus! {

/// The remote error number of an unknown cursor.
pub const ERROR_CURSOR_NOT_FOUND: u16 = 1600;
/// The status code of an unknown resource.
pub const STATUS_NOT_FOUND: u16 = 404;
/// The status code of a success.
pub const STATUS_OK: u16 = 200;
/// The status code of an accepted deletion.
pub const STATUS_ACCEPTED: u16 = 202;

/// The number of rows in the next batch when `n` rows are left and batches
/// hold `b` rows.
pub open spec fn batch_len(n: nat, b: nat) -> nat {
    if n <= b {
        n
    } else {
        b
    }
}

/// The batches in which a result set is handed out, each of `b` rows but
/// the last; an empty result set is one empty batch.
pub open spec fn batches(rows: Seq<Json>, b: nat) -> Seq<Seq<Json>>
    decreases rows.len(),
{
    if b == 0 || rows.len() <= b {
        seq![rows]
    } else {
        seq![rows.subrange(0, b as int)] + batches(rows.subrange(b as int, rows.len() as int), b)
    }
}

/// Handing out a result set in batches yields every row exactly once and in
/// order: the batches put together are the result set. Each batch but the
/// last holds `b` rows, the last at most `b`, and there are as many as it
/// takes.
pub proof fn lemma_batches_cover(rows: Seq<Json>, b: nat)
    requires
        b > 0,
    ensures
        batches(rows, b).flatten() == rows,
        forall|i: int| 0 <= i < batches(rows, b).len() - 1 ==> #[trigger] batches(rows, b)[i].len() == b,
        batches(rows, b).last().len() <= b,
        batches(rows, b).len() == if rows.len() == 0 {
            1
        } else {
            (rows.len() + b - 1) / b as int
        },
    decreases rows.len(),
{
    let bs = batches(rows, b);
    if rows.len() <= b {
        assert(bs.drop_first() =~= Seq::<Seq<Json>>::empty());
        assert(bs.drop_first().flatten() =~= Seq::<Json>::empty());
        assert(bs.flatten() =~= rows);
        if rows.len() > 0 {
            assert((rows.len() + b - 1) / b as int == 1) by (nonlinear_arith)
                requires
                    0 < rows.len() <= b,
            ;
        }
    } else {
        let tail = rows.subrange(b as int, rows.len() as int);
        lemma_batches_cover(tail, b);
        assert(bs.drop_first() =~= batches(tail, b));
        assert(rows =~= rows.subrange(0, b as int) + tail);
        assert forall|i: int| 0 <= i < bs.len() - 1 implies #[trigger] bs[i].len() == b by {
            if i > 0 {
                assert(bs[i] == batches(tail, b)[i - 1]);
            }
        }
        let t = tail.len() as int;
        assert(t > 0);
        assert((rows.len() + b - 1) / b as int == (t + b - 1) / b as int + 1) by (nonlinear_arith)
            requires
                rows.len() == t + b,
                b > 0,
        ;
    }
}

/// A cursor the service keeps open: the rows not yet handed out and the
/// batch size.
#[derive(Debug)]
pub struct OpenCursor {
    pub id: String,
    pub rest: Vec<Json>,
    pub batch_size: usize,
}

/// The open cursors of a service.
#[derive(Debug)]
pub struct CursorStore {
    pub open: Vec<OpenCursor>,
}

/// The cursor at `i` of `s` has the identifier `id`.
pub open spec fn is_open_at(s: Seq<OpenCursor>, id: Seq<char>, i: int) -> bool {
    0 <= i < s.len() && s[i].id@ == id
}

/// Some cursor of `s` has the identifier `id`.
pub open spec fn is_open(s: Seq<OpenCursor>, id: Seq<char>) -> bool {
    exists|i: int| is_open_at(s, id, i)
}

/// Identifiers are unique, batch sizes positive, and every open cursor has
/// rows left.
pub open spec fn is_store_wf(s: Seq<OpenCursor>) -> bool {
    &&& forall|i: int, j: int|
        0 <= i < s.len() && 0 <= j < s.len() && #[trigger] s[i].id@ == #[trigger] s[j].id@ ==> i
            == j
    &&& forall|i: int| 0 <= i < s.len() ==> (#[trigger] s[i]).batch_size > 0 && s[i].rest@.len() > 0
}

/// `j` reports an unknown cursor: status 404, error number 1600.
pub open spec fn is_not_found_envelope(j: Json) -> bool {
    &&& j is Object
    &&& u16_field(j, FIELD_CODE@) == Some(STATUS_NOT_FOUND)
    &&& u16_field(j, FIELD_ERROR_NUMBER@) == Some(ERROR_CURSOR_NOT_FOUND)
    &&& string_field(j, FIELD_ERROR_MESSAGE@) matches Some(m) && m@ == "cursor not found"@
}

/// `j` reports a batch holding `batch`, with `id` present exactly while more
/// rows remain.
pub open spec fn is_batch_envelope(j: Json, batch: Seq<Json>, id: Option<String>) -> bool {
    &&& j is Object
    &&& u16_field(j, FIELD_CODE@) == Some(STATUS_OK)
    &&& field(j, FIELD_RESULT@) matches Some(Json::Array(v)) && v@ == batch
    &&& field(j, FIELD_HAS_MORE@) == Some(Json::Bool(id is Some))
    &&& match id {
        Some(s) => field(j, FIELD_ID@) == Some(Json::Str(s)),
        None => field(j, FIELD_ID@) is None,
    }
    &&& field(j, crate::cursor::FIELD_COUNT@) is None
    &&& field(j, crate::cursor::FIELD_CACHED@) is None
    &&& field(j, crate::cursor::FIELD_EXTRA@) is None
}

/// `j` reports an accepted deletion.
pub open spec fn is_deleted_envelope(j: Json) -> bool {
    j is Object && u16_field(j, FIELD_CODE@) == Some(STATUS_ACCEPTED)
}

/// The response `r` and the cursors `after` are what reading the next batch
/// of `id` from `before` gives: the next batch, the cursor closed once it is
/// exhausted, or not found.
pub open spec fn is_read_next(before: Seq<OpenCursor>, id: Seq<char>, r: Json, after: Seq<OpenCursor>) -> bool {
    if is_open(before, id) {
        let i = choose|i: int| is_open_at(before, id, i);
        let c = before[i];
        let k = batch_len(c.rest@.len(), c.batch_size as nat);
        let more = c.rest@.len() > c.batch_size;
        &&& is_batch_envelope(
            r,
            c.rest@.subrange(0, k as int),
            if more {
                Some(c.id)
            } else {
                None
            },
        )
        &&& if more {
            &&& after.len() == before.len()
            &&& forall|j: int| 0 <= j < before.len() && j != i ==> after[j] == before[j]
            &&& after[i].id == c.id
            &&& after[i].batch_size == c.batch_size
            &&& after[i].rest@ == c.rest@.subrange(k as int, c.rest@.len() as int)
        } else {
            after == before.remove(i)
        }
    } else {
        is_not_found_envelope(r) && after == before
    }
}

/// The response `r` and the cursors `after` are what deleting `id` from
/// `before` gives.
pub open spec fn is_delete(before: Seq<OpenCursor>, id: Seq<char>, r: Json, after: Seq<OpenCursor>) -> bool {
    if is_open(before, id) {
        let i = choose|i: int| is_open_at(before, id, i);
        is_deleted_envelope(r) && after == before.remove(i)
    } else {
        is_not_found_envelope(r) && after == before
    }
}

fn status_code(code: u16) -> (r: Json)
    ensures
        r == Json::Number(Number::Int(code as i64)),
{
    Json::Number(Number::Int(code as i64))
}

fn not_found_envelope() -> (r: Json)
    ensures
        is_not_found_envelope(r),
{
    proof {
        lemma_envelope_keys();
    }
    let mut members: Vec<(String, Json)> = Vec::new();
    put(&mut members, FIELD_CODE, status_code(STATUS_NOT_FOUND));
    put(&mut members, FIELD_ERROR, Json::Bool(true));
    put(&mut members, FIELD_ERROR_NUMBER, status_code(ERROR_CURSOR_NOT_FOUND));
    put(&mut members, FIELD_ERROR_MESSAGE, Json::Str(String::from_str("cursor not found")));
    Json::Object(members)
}

fn batch_envelope(batch: Vec<Json>, id: Option<String>) -> (r: Json)
    ensures
        is_batch_envelope(r, batch@, id),
{
    proof {
        lemma_cursor_keys();
    }
    let more = id.is_some();
    let mut members: Vec<(String, Json)> = Vec::new();
    put(&mut members, FIELD_CODE, status_code(STATUS_OK));
    put(&mut members, FIELD_ERROR, Json::Bool(false));
    put(&mut members, FIELD_RESULT, Json::Array(batch));
    put(&mut members, FIELD_HAS_MORE, Json::Bool(more));
    if let Some(s) = id {
        put(&mut members, FIELD_ID, Json::Str(s));
    }
    Json::Object(members)
}

fn deleted_envelope() -> (r: Json)
    ensures
        is_deleted_envelope(r),
{
    proof {
        lemma_envelope_keys();
    }
    let mut members: Vec<(String, Json)> = Vec::new();
    put(&mut members, FIELD_CODE, status_code(STATUS_ACCEPTED));
    put(&mut members, FIELD_ERROR, Json::Bool(false));
    Json::Object(members)
}

impl CursorStore {
    /// A service with no open cursor.
    pub fn new() -> (r: CursorStore)
        ensures
            r.open@.len() == 0,
            is_store_wf(r.open@),
    {
        CursorStore { open: Vec::new() }
    }

    /// Whether a cursor with identifier `id` is open.
    pub fn is_open(&self, id: &str) -> (r: bool)
        requires
            is_store_wf(self.open@),
        ensures
            r == is_open(self.open@, id@),
    {
        match self.position(id) {
            Some(_) => true,
            None => false,
        }
    }

    fn position(&self, id: &str) -> (r: Option<usize>)
        requires
            is_store_wf(self.open@),
        ensures
            match r {
                Some(i) => is_open_at(self.open@, id@, i as int) && i as int == choose|k: int|
                    is_open_at(self.open@, id@, k),
                None => !is_open(self.open@, id@),
            },
    {
        let key = id.to_owned();
        let mut i: usize = 0;
        while i < self.open.len()
            invariant
                i <= self.open.len(),
                key@ == id@,
                is_store_wf(self.open@),
                forall|j: int| 0 <= j < i ==> !is_open_at(self.open@, id@, j),
            decreases self.open.len() - i,
        {
            if self.open[i].id == key {
                proof {
                    assert(is_open_at(self.open@, id@, i as int));
                    let c = choose|k: int| is_open_at(self.open@, id@, k);
                    assert(self.open@[c].id@ == self.open@[i as int].id@);
                    assert(is_open_at(self.open@, id@, c));
                    assert(c == i as int);
                }
                return Some(i);
            }
            i = i + 1;
        }
        None
    }

    /// Opens a cursor over `rows` under the fresh identifier `id` and answers
    /// with the first batch; a result set that fits one batch leaves no
    /// cursor open.
    pub fn create(&mut self, id: String, rows: Vec<Json>, batch_size: usize) -> (r: Json)
        requires
            is_store_wf(old(self).open@),
            batch_size > 0,
            !is_open(old(self).open@, id@),
        ensures
            is_store_wf(final(self).open@),
            ({
                let k = batch_len(rows@.len(), batch_size as nat);
                let more = rows@.len() > batch_size;
                &&& is_batch_envelope(
                    r,
                    rows@.subrange(0, k as int),
                    if more {
                        Some(id)
                    } else {
                        None
                    },
                )
                &&& if more {
                    &&& final(self).open@.len() == old(self).open@.len() + 1
                    &&& final(self).open@.subrange(0, old(self).open@.len() as int)
                        == old(self).open@
                    &&& final(self).open@.last().id == id
                    &&& final(self).open@.last().batch_size == batch_size
                    &&& final(self).open@.last().rest@ == rows@.subrange(
                        k as int,
                        rows@.len() as int,
                    )
                } else {
                    final(self).open@ == old(self).open@
                }
            }),
    {
        let mut batch = rows;
        let ghost all = batch@;
        if batch.len() <= batch_size {
            proof {
                assert(all.subrange(0, all.len() as int) =~= all);
            }
            return batch_envelope(batch, None);
        }
        let rest = batch.split_off(batch_size);
        let ghost before = self.open@;
        let cursor = OpenCursor { id: id.clone(), rest, batch_size };
        self.open.push(cursor);
        proof {
            assert(self.open@.subrange(0, before.len() as int) =~= before);
            assert forall|i: int, j: int|
                0 <= i < self.open@.len() && 0 <= j < self.open@.len() && #[trigger] self.open@[i].id@
                    == #[trigger] self.open@[j].id@ implies i == j by {
                if i != j && (i == before.len() || j == before.len()) {
                    let o = if i == before.len() {
                        j
                    } else {
                        i
                    };
                    assert(is_open_at(before, id@, o));
                }
            }
        }
        batch_envelope(batch, Some(id))
    }

    /// Answers with the next batch of cursor `id`, closing the cursor once it
    /// is exhausted; an identifier that is not open is not found.
    pub fn read_next(&mut self, id: &str) -> (r: Json)
        requires
            is_store_wf(old(self).open@),
        ensures
            is_store_wf(final(self).open@),
            is_read_next(old(self).open@, id@, r, final(self).open@),
    {
        let i = match self.position(id) {
            Some(i) => i,
            None => {
                return not_found_envelope();
            },
        };
        let ghost before = self.open@;
        let mut c = self.open.remove(i);
        let n = c.rest.len();
        if n <= c.batch_size {
            proof {
                assert(c.rest@.subrange(0, n as int) =~= c.rest@);
                assert forall|a: int, b: int|
                    0 <= a < self.open@.len() && 0 <= b < self.open@.len()
                        && #[trigger] self.open@[a].id@ == #[trigger] self.open@[b].id@ implies a
                    == b by {
                    let a0 = if a < i {
                        a
                    } else {
                        a + 1
                    };
                    let b0 = if b < i {
                        b
                    } else {
                        b + 1
                    };
                    assert(self.open@[a] == before[a0]);
                    assert(self.open@[b] == before[b0]);
                }
                assert forall|a: int| 0 <= a < self.open@.len() implies (#[trigger] self.open@[a]).batch_size
                    > 0 && self.open@[a].rest@.len() > 0 by {
                    let a0 = if a < i {
                        a
                    } else {
                        a + 1
                    };
                    assert(self.open@[a] == before[a0]);
                }
            }
            return batch_envelope(c.rest, None);
        }
        let tail = c.rest.split_off(c.batch_size);
        let batch = c.rest;
        let cid = c.id.clone();
        let reopened = OpenCursor { id: c.id, rest: tail, batch_size: c.batch_size };
        self.open.insert(i, reopened);
        proof {
            assert forall|j: int| 0 <= j < before.len() && j != i implies self.open@[j] == before[j] by {}
            assert forall|a: int, b: int|
                0 <= a < self.open@.len() && 0 <= b < self.open@.len() && #[trigger] self.open@[a].id@
                    == #[trigger] self.open@[b].id@ implies a == b by {
                assert(self.open@[a].id@ == before[a].id@);
                assert(self.open@[b].id@ == before[b].id@);
            }
            assert forall|a: int| 0 <= a < self.open@.len() implies (#[trigger] self.open@[a]).batch_size
                > 0 && self.open@[a].rest@.len() > 0 by {
                if a != i {
                    assert(self.open@[a] == before[a]);
                }
            }
        }
        batch_envelope(batch, Some(cid))
    }

    /// Deletes cursor `id`; an identifier that is not open is not found.
    pub fn delete(&mut self, id: &str) -> (r: Json)
        requires
            is_store_wf(old(self).open@),
        ensures
            is_store_wf(final(self).open@),
            is_delete(old(self).open@, id@, r, final(self).open@),
    {
        let i = match self.position(id) {
            Some(i) => i,
            None => {
                return not_found_envelope();
            },
        };
        let ghost before = self.open@;
        self.open.remove(i);
        proof {
            assert forall|a: int, b: int|
                0 <= a < self.open@.len() && 0 <= b < self.open@.len() && #[trigger] self.open@[a].id@
                    == #[trigger] self.open@[b].id@ implies a == b by {
                let a0 = if a < i {
                    a
                } else {
                    a + 1
                };
                let b0 = if b < i {
                    b
                } else {
                    b + 1
                };
                assert(self.open@[a] == before[a0]);
                assert(self.open@[b] == before[b0]);
            }
            assert forall|a: int| 0 <= a < self.open@.len() implies (#[trigger] self.open@[a]).batch_size
                > 0 && self.open@[a].rest@.len() > 0 by {
                let a0 = if a < i {
                    a
                } else {
                    a + 1
                };
                assert(self.open@[a] == before[a0]);
            }
        }
        deleted_envelope()
    }
}

/// A batch that the service answers with decodes, on the client side, to a
/// cursor holding exactly that batch, with the identifier present exactly
/// while more rows remain.
pub proof fn lemma_batch_envelope_decodes(
    envelope: Json,
    batch: Seq<Json>,
    id: Option<String>,
    r: Result<Cursor, Error>,
)
    requires
        is_batch_envelope(envelope, batch, id),
        is_cursor_response(envelope, r),
    ensures
        r matches Ok(c) && c.result@ == batch && c.has_more == (id is Some) && c.id == id,
{
    lemma_cursor_keys();
}

/// Each read of a cursor hands out the first of the batches of the rows it
/// has left, and leaves open exactly the rest of them; the last batch
/// reports no more rows and carries no identifier.
pub proof fn lemma_read_next_serves_next_batch(
    before: Seq<OpenCursor>,
    id: Seq<char>,
    r: Json,
    after: Seq<OpenCursor>,
    i: int,
)
    requires
        is_store_wf(before),
        is_open_at(before, id, i),
        is_read_next(before, id, r, after),
    ensures
        ({
            let c = before[i];
            let bs = batches(c.rest@, c.batch_size as nat);
            let more = bs.len() > 1;
            &&& is_batch_envelope(
                r,
                bs[0],
                if more {
                    Some(c.id)
                } else {
                    None
                },
            )
            &&& more ==> is_open_at(after, id, i) && batches(after[i].rest@, c.batch_size as nat)
                == bs.drop_first()
            &&& !more ==> !is_open(after, id)
        }),
{
    let k = choose|k: int| is_open_at(before, id, k);
    assert(before[k].id@ == before[i].id@);
    assert(k == i);
    let c = before[i];
    let b = c.batch_size as nat;
    let bs = batches(c.rest@, b);
    if c.rest@.len() > b {
        assert(bs.drop_first() =~= batches(c.rest@.subrange(b as int, c.rest@.len() as int), b));
    } else {
        assert(c.rest@.subrange(0, c.rest@.len() as int) =~= c.rest@);
        if is_open(after, id) {
            let j = choose|j: int| is_open_at(after, id, j);
            let j0 = if j < i {
                j
            } else {
                j + 1
            };
            assert(after[j] == before[j0]);
            assert(before[j0].id@ == before[i].id@);
        }
    }
}

/// Once a cursor is deleted, reading from it yields the remote not-found
/// failure, status 404 and error number 1600, never a transport or a
/// decoding error.
pub proof fn lemma_read_after_delete_not_found(
    s0: Seq<OpenCursor>,
    id: Seq<char>,
    deleted: Json,
    s1: Seq<OpenCursor>,
    answer: Json,
    s2: Seq<OpenCursor>,
    r: Result<Cursor, Error>,
)
    requires
        is_store_wf(s0),
        is_delete(s0, id, deleted, s1),
        is_read_next(s1, id, answer, s2),
        is_cursor_response(answer, r),
    ensures
        r matches Err(Error::Method(e)) && e.status_code == STATUS_NOT_FOUND && e.error_code
            == ERROR_CURSOR_NOT_FOUND && e.message@ == "cursor not found"@,
{
    if is_open(s0, id) {
        let i = choose|i: int| is_open_at(s0, id, i);
        if is_open(s1, id) {
            let j = choose|j: int| is_open_at(s1, id, j);
            let j0 = if j < i {
                j
            } else {
                j + 1
            };
            assert(s1[j] == s0[j0]);
            assert(s0[j0].id@ == s0[i].id@);
        }
    }
    assert(!is_open(s1, id));
}

} // verus!
