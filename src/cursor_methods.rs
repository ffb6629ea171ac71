//! The three calls of the cursor protocol as method values.

use vstd::prelude::*;
use vstd::string::*;
use vstd::std_specs::convert::IntoSpec;
use crate::cursor::{
    is_cursor_of, is_cursor_shape, is_cursor_wire, lemma_cursor_keys, Cursor, NewCursor,
    FIELD_HAS_MORE, FIELD_ID,
};
use crate::error::{is_decoding_error, Error};
use crate::json::{field, Json};
use crate::method::{
    decode_envelope, is_error_status, reported_failure, u16_field, Operation, Parameters, Prepare,
    RpcReturnType, FIELD_CODE, PATH_API_CURSOR,
};
use crate::query::Query;

verus! {

/// How every cursor call reads its envelope: the status code under `code`,
/// the payload being the envelope itself.
pub open spec fn cursor_return_type() -> RpcReturnType {
    RpcReturnType { result_field: None, code_field: Some(FIELD_CODE) }
}

/// `r` is what a create or read-next call makes of the response `envelope`:
/// the remote failure it reports, the batch it holds, or a decoding error.
pub open spec fn is_cursor_response(envelope: Json, r: Result<Cursor, Error>) -> bool {
    if !(envelope is Object) {
        is_decoding_error(r)
    } else {
        match u16_field(envelope, FIELD_CODE@) {
            None => is_decoding_error(r),
            Some(status) => if is_error_status(status) {
                match reported_failure(envelope, status) {
                    Some(e) => r == Err::<Cursor, Error>(Error::Method(e)),
                    None => is_decoding_error(r),
                }
            } else {
                &&& (r is Ok <==> is_cursor_shape(envelope))
                &&& (!is_cursor_shape(envelope) ==> is_decoding_error(r))
                &&& (r matches Ok(c) ==> is_cursor_of(envelope, c))
            },
        }
    }
}

/// `r` is what a delete call makes of the response `envelope`.
pub open spec fn is_delete_response(envelope: Json, r: Result<(), Error>) -> bool {
    if !(envelope is Object) {
        is_decoding_error(r)
    } else {
        match u16_field(envelope, FIELD_CODE@) {
            None => is_decoding_error(r),
            Some(status) => if is_error_status(status) {
                match reported_failure(envelope, status) {
                    Some(e) => r == Err::<(), Error>(Error::Method(e)),
                    None => is_decoding_error(r),
                }
            } else {
                r == Ok::<(), Error>(())
            },
        }
    }
}

fn cursor_return() -> (r: RpcReturnType)
    ensures
        r == cursor_return_type(),
{
    RpcReturnType { result_field: None, code_field: Some(FIELD_CODE) }
}

/// Reads the response to a create or read-next call.
pub fn decode_cursor_response(envelope: Json) -> (r: Result<Cursor, Error>)
    ensures
        is_cursor_response(envelope, r),
{
    proof {
        lemma_cursor_keys();
    }
    let ghost env = envelope;
    let rt = cursor_return();
    match decode_envelope(&rt, envelope) {
        Ok(payload) => {
            let ghost p = payload;
            let r = Cursor::from_json(payload);
            proof {
                assert(is_cursor_shape(p) == is_cursor_shape(env));
                if r is Ok {
                    assert(is_cursor_of(env, r->Ok_0));
                }
            }
            r
        },
        Err(e) => Err(e),
    }
}

/// Reads the response to a delete call.
pub fn decode_delete_response(envelope: Json) -> (r: Result<(), Error>)
    ensures
        is_delete_response(envelope, r),
{
    let rt = cursor_return();
    match decode_envelope(&rt, envelope) {
        Ok(_) => Ok(()),
        Err(e) => Err(e),
    }
}

/// The path of the cursor with the given identifier.
pub open spec fn cursor_path(id: Seq<char>) -> Seq<char> {
    PATH_API_CURSOR@ + "/"@ + id
}

fn path_of(id: &String) -> (r: String)
    ensures
        r@ == cursor_path(id@),
{
    let mut p = String::from_str(PATH_API_CURSOR);
    p.append("/");
    p.append(id.as_str());
    p
}

/// Runs a query and returns a cursor over its first batch.
#[derive(Debug, PartialEq)]
pub struct CreateCursor {
    pub query: NewCursor,
}

impl CreateCursor {
    /// The call for the given cursor request.
    pub fn new(query: NewCursor) -> (r: CreateCursor)
        ensures
            r.query == query,
    {
        CreateCursor { query }
    }

    /// The call for a query with its bind parameters and default options.
    pub fn from_query(query: Query) -> (r: CreateCursor)
        ensures
            r.query.query == query.string,
            r.query.bind_vars == query.params,
            r.query.batch_size is None,
            r.query.count is None,
            r.query.rules.enabled@.len() == 0,
            r.query.rules.disabled@.len() == 0,
    {
        CreateCursor { query: NewCursor::from_query(query) }
    }

    /// The cursor request.
    pub fn query(&self) -> (r: &NewCursor)
        ensures
            *r == self.query,
    {
        &self.query
    }

    /// Where the envelope keeps payload and status.
    pub fn return_type(&self) -> (r: RpcReturnType)
        ensures
            r == cursor_return_type(),
    {
        cursor_return()
    }

    /// Reads the response to this call.
    pub fn decode_response(&self, envelope: Json) -> (r: Result<Cursor, Error>)
        ensures
            is_cursor_response(envelope, r),
    {
        decode_cursor_response(envelope)
    }
}

impl Prepare for CreateCursor {
    type Content = NewCursor;

    open spec fn spec_operation(&self) -> Operation {
        Operation::Create
    }

    open spec fn spec_path(&self) -> Seq<char> {
        PATH_API_CURSOR@
    }

    open spec fn spec_parameters(&self) -> Seq<(String, Json)> {
        Seq::empty()
    }

    open spec fn spec_header(&self) -> Seq<(String, Json)> {
        Seq::empty()
    }

    open spec fn spec_content(&self) -> Option<NewCursor> {
        Some(self.query)
    }

    fn operation(&self) -> (r: Operation) {
        Operation::Create
    }

    fn path(&self) -> (r: String) {
        String::from_str(PATH_API_CURSOR)
    }

    fn parameters(&self) -> (r: Parameters) {
        Parameters::empty()
    }

    fn header(&self) -> (r: Parameters) {
        Parameters::empty()
    }

    fn content(&self) -> (r: Option<&NewCursor>) {
        Some(&self.query)
    }
}

/// Reads the next batch from a cursor.
#[derive(Debug, PartialEq)]
pub struct ReadNextBatchFromCursor {
    /// The identifier of the cursor to read from.
    pub cursor_id: String,
}

impl ReadNextBatchFromCursor {
    /// The call for the cursor with the given identifier.
    pub fn new(cursor_id: String) -> (r: ReadNextBatchFromCursor)
        ensures
            r.cursor_id == cursor_id,
    {
        ReadNextBatchFromCursor { cursor_id }
    }

    /// The call for the cursor with the given identifier.
    pub fn with_id<I: Into<String>>(cursor_id: I) -> (r: ReadNextBatchFromCursor)
        ensures
            I::obeys_into_spec() ==> r.cursor_id == cursor_id.into_spec(),
    {
        ReadNextBatchFromCursor { cursor_id: cursor_id.into() }
    }

    /// The call for the cursor with the given identifier, copying it.
    pub fn with_id_ref(cursor_id: &str) -> (r: ReadNextBatchFromCursor)
        ensures
            r.cursor_id@ == cursor_id@,
    {
        ReadNextBatchFromCursor { cursor_id: cursor_id.to_owned() }
    }

    /// The identifier of the cursor to read from.
    pub fn cursor_id(&self) -> (r: &str)
        ensures
            r@ == self.cursor_id@,
    {
        self.cursor_id.as_str()
    }

    /// Where the envelope keeps payload and status.
    pub fn return_type(&self) -> (r: RpcReturnType)
        ensures
            r == cursor_return_type(),
    {
        cursor_return()
    }

    /// Reads the response to this call.
    pub fn decode_response(&self, envelope: Json) -> (r: Result<Cursor, Error>)
        ensures
            is_cursor_response(envelope, r),
    {
        decode_cursor_response(envelope)
    }
}

impl Prepare for ReadNextBatchFromCursor {
    type Content = ();

    open spec fn spec_operation(&self) -> Operation {
        Operation::Replace
    }

    open spec fn spec_path(&self) -> Seq<char> {
        cursor_path(self.cursor_id@)
    }

    open spec fn spec_parameters(&self) -> Seq<(String, Json)> {
        Seq::empty()
    }

    open spec fn spec_header(&self) -> Seq<(String, Json)> {
        Seq::empty()
    }

    open spec fn spec_content(&self) -> Option<()> {
        None
    }

    fn operation(&self) -> (r: Operation) {
        Operation::Replace
    }

    fn path(&self) -> (r: String) {
        path_of(&self.cursor_id)
    }

    fn parameters(&self) -> (r: Parameters) {
        Parameters::empty()
    }

    fn header(&self) -> (r: Parameters) {
        Parameters::empty()
    }

    fn content(&self) -> (r: Option<&()>) {
        None
    }
}

/// Deletes a cursor and frees what the remote side holds for it.
#[derive(Debug, PartialEq)]
pub struct DeleteCursor {
    /// The identifier of the cursor to delete.
    pub cursor_id: String,
}

impl DeleteCursor {
    /// The call for the cursor with the given identifier.
    pub fn new(cursor_id: String) -> (r: DeleteCursor)
        ensures
            r.cursor_id == cursor_id,
    {
        DeleteCursor { cursor_id }
    }

    /// The call for the cursor with the given identifier.
    pub fn with_id<I: Into<String>>(cursor_id: I) -> (r: DeleteCursor)
        ensures
            I::obeys_into_spec() ==> r.cursor_id == cursor_id.into_spec(),
    {
        DeleteCursor { cursor_id: cursor_id.into() }
    }

    /// The call for the cursor with the given identifier, copying it.
    pub fn with_id_ref(cursor_id: &str) -> (r: DeleteCursor)
        ensures
            r.cursor_id@ == cursor_id@,
    {
        DeleteCursor { cursor_id: cursor_id.to_owned() }
    }

    /// The identifier of the cursor to delete.
    pub fn cursor_id(&self) -> (r: &str)
        ensures
            r@ == self.cursor_id@,
    {
        self.cursor_id.as_str()
    }

    /// Where the envelope keeps payload and status.
    pub fn return_type(&self) -> (r: RpcReturnType)
        ensures
            r == cursor_return_type(),
    {
        cursor_return()
    }

    /// Reads the response to this call.
    pub fn decode_response(&self, envelope: Json) -> (r: Result<(), Error>)
        ensures
            is_delete_response(envelope, r),
    {
        decode_delete_response(envelope)
    }
}

impl Prepare for DeleteCursor {
    type Content = ();

    open spec fn spec_operation(&self) -> Operation {
        Operation::Delete
    }

    open spec fn spec_path(&self) -> Seq<char> {
        cursor_path(self.cursor_id@)
    }

    open spec fn spec_parameters(&self) -> Seq<(String, Json)> {
        Seq::empty()
    }

    open spec fn spec_header(&self) -> Seq<(String, Json)> {
        Seq::empty()
    }

    open spec fn spec_content(&self) -> Option<()> {
        None
    }

    fn operation(&self) -> (r: Operation) {
        Operation::Delete
    }

    fn path(&self) -> (r: String) {
        path_of(&self.cursor_id)
    }

    fn parameters(&self) -> (r: Parameters) {
        Parameters::empty()
    }

    fn header(&self) -> (r: Parameters) {
        Parameters::empty()
    }

    fn content(&self) -> (r: Option<&()>) {
        None
    }
}

impl Cursor {
    /// The call that reads the batch after this one, while more rows remain.
    pub fn next_batch(&self) -> (r: Option<ReadNextBatchFromCursor>)
        ensures
            r is Some == (self.has_more && self.id is Some),
            r matches Some(m) ==> Some(m.cursor_id) == self.id,
    {
        if !self.has_more {
            return None;
        }
        match &self.id {
            Some(id) => Some(ReadNextBatchFromCursor { cursor_id: id.clone() }),
            None => None,
        }
    }

    /// The call that deletes this cursor early, while more rows remain. The
    /// cursor is used up: its identifier cannot be read from again through it.
    pub fn delete(self) -> (r: Option<DeleteCursor>)
        ensures
            r is Some == (self.has_more && self.id is Some),
            r matches Some(m) ==> Some(m.cursor_id) == self.id,
    {
        if !self.has_more {
            return None;
        }
        match self.id {
            Some(id) => Some(DeleteCursor { cursor_id: id }),
            None => None,
        }
    }
}

/// Decoding a batch and deriving its wire shape again gives back the same
/// more-available flag and the same identifier; the identifier is there
/// exactly when more rows remain.
pub proof fn lemma_cursor_round_trip(j: Json, c: Cursor, w: Json)
    requires
        is_cursor_shape(j),
        is_cursor_of(j, c),
        is_cursor_wire(c, w),
    ensures
        field(w, FIELD_HAS_MORE@) == field(j, FIELD_HAS_MORE@),
        field(w, FIELD_ID@) == field(j, FIELD_ID@),
        field(w, FIELD_ID@) is Some <==> c.has_more,
{
}

} // verus!
