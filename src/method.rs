//! Method calls as data: what a call does, where it goes, what it carries,
//! and how its response envelope is read.

use vstd::prelude::*;
use crate::error::{decoding_error, is_decoding_error, Error, MethodError};
use crate::json::{field, take, Json, Number};

verus! {

/// The envelope member that holds the status code.
pub const FIELD_CODE: &'static str = "code";
/// The envelope member that flags a failure.
pub const FIELD_ERROR: &'static str = "error";
/// The envelope member that holds the remote error number.
pub const FIELD_ERROR_NUMBER: &'static str = "errorNum";
/// The envelope member that holds the remote error message.
pub const FIELD_ERROR_MESSAGE: &'static str = "errorMessage";
/// The resource path of cursors.
pub const PATH_API_CURSOR: &'static str = "/_api/cursor";
/// The resource path for explaining queries.
pub const PATH_API_EXPLAIN: &'static str = "/_api/explain";
/// The resource path for parsing queries.
pub const PATH_API_QUERY: &'static str = "/_api/query";

/// The kind of a call, abstract over the verbs of the transport.
#[derive(Debug, Clone, Copy, PartialEq, Eq, Structural)]
pub enum Operation {
    /// Create a new entity.
    Create,
    /// Get an entity or resource.
    Read,
    /// Modify an existing entity.
    Modify,
    /// Replace an existing entity.
    Replace,
    /// Delete an entity.
    Delete,
    /// Get the header data or short info about an entity.
    ReadHeader,
}

/// An ordered list of name/value pairs.
#[derive(Debug, PartialEq)]
pub struct Parameters {
    list: Vec<(String, Json)>,
}

impl View for Parameters {
    type V = Seq<(String, Json)>;

    closed spec fn view(&self) -> Seq<(String, Json)> {
        self.list@
    }
}

impl Parameters {
    /// An empty list.
    pub fn empty() -> (r: Parameters)
        ensures
            r@ == Seq::<(String, Json)>::empty(),
    {
        Parameters { list: Vec::new() }
    }

    /// An empty list.
    pub fn new() -> (r: Parameters)
        ensures
            r@ == Seq::<(String, Json)>::empty(),
    {
        Parameters { list: Vec::new() }
    }

    /// Whether the list holds no pair.
    pub fn is_empty(&self) -> (r: bool)
        ensures
            r == (self@.len() == 0),
    {
        self.list.len() == 0
    }

    /// The number of pairs.
    pub fn len(&self) -> (r: usize)
        ensures
            r == self@.len(),
    {
        self.list.len()
    }

    /// Appends a pair.
    pub fn insert(&mut self, name: String, value: Json)
        ensures
            final(self)@ == old(self)@.push((name, value)),
    {
        self.list.push((name, value));
    }

    /// The pairs, in the order they were inserted.
    pub fn pairs(&self) -> (r: &Vec<(String, Json)>)
        ensures
            r@ == self@,
    {
        &self.list
    }
}

/// Where a response envelope keeps the payload of a success and the status
/// code.
#[derive(Debug, Clone, Copy, PartialEq, Eq)]
pub struct RpcReturnType {
    /// The member that holds the payload, or none when the envelope itself,
    /// without its status members, is the payload.
    pub result_field: Option<&'static str>,
    /// The member that holds the status code, or none when the envelope never
    /// carries one.
    pub code_field: Option<&'static str>,
}

/// The description of one remote call that a typed method value derives.
pub trait Prepare {
    /// The type of the body.
    type Content;

    /// The operation of the call.
    spec fn spec_operation(&self) -> Operation;

    /// The resource path of the call.
    spec fn spec_path(&self) -> Seq<char>;

    /// The query parameters of the call.
    spec fn spec_parameters(&self) -> Seq<(String, Json)>;

    /// The header parameters of the call.
    spec fn spec_header(&self) -> Seq<(String, Json)>;

    /// The body of the call, if it carries one.
    spec fn spec_content(&self) -> Option<Self::Content>;

    /// The operation of the call.
    fn operation(&self) -> (r: Operation)
        ensures
            r == self.spec_operation(),
    ;

    /// The resource path of the call.
    fn path(&self) -> (r: String)
        ensures
            r@ == self.spec_path(),
    ;

    /// The query parameters of the call.
    fn parameters(&self) -> (r: Parameters)
        ensures
            r@ == self.spec_parameters(),
    ;

    /// The header parameters of the call.
    fn header(&self) -> (r: Parameters)
        ensures
            r@ == self.spec_header(),
    ;

    /// The body of the call; a deletion never carries one.
    fn content(&self) -> (r: Option<&Self::Content>)
        ensures
            match r {
                Some(c) => self.spec_content() == Some(*c),
                None => self.spec_content() is None,
            },
            self.spec_operation() == Operation::Delete ==> r is None,
    ;
}

/// The value of `v` where it is an integer that fits a status code.
pub open spec fn u16_of(v: Json) -> Option<u16> {
    match v {
        Json::Number(Number::Int(n)) => if 0 <= n <= u16::MAX {
            Some(n as u16)
        } else {
            None
        },
        _ => None,
    }
}

/// The text of `v` where it is a string.
pub open spec fn string_of(v: Json) -> Option<String> {
    match v {
        Json::Str(s) => Some(s),
        _ => None,
    }
}

/// A status code that reports a failure.
pub open spec fn is_error_status(code: u16) -> bool {
    code >= 400
}

/// The member `key` of `j` read as a status code or error number.
pub open spec fn u16_field(j: Json, key: Seq<char>) -> Option<u16> {
    match field(j, key) {
        Some(v) => u16_of(v),
        None => None,
    }
}

/// The member `key` of `j` read as a string.
pub open spec fn string_field(j: Json, key: Seq<char>) -> Option<String> {
    match field(j, key) {
        Some(v) => string_of(v),
        None => None,
    }
}

/// The remote failure that `envelope` reports, if it reports one in the
/// uniform shape.
pub open spec fn reported_failure(envelope: Json, status: u16) -> Option<MethodError> {
    match (
        u16_field(envelope, FIELD_ERROR_NUMBER@),
        string_field(envelope, FIELD_ERROR_MESSAGE@),
    ) {
        (Some(n), Some(m)) => Some(MethodError { status_code: status, error_code: n, message: m }),
        _ => None,
    }
}

/// `r` is the success payload of `envelope` under `rt`: the member named by
/// the result field, or else the envelope without its status members.
pub open spec fn is_success_payload(rt: RpcReturnType, envelope: Json, r: Result<Json, Error>) -> bool {
    match rt.result_field {
        Some(rf) => match field(envelope, rf@) {
            Some(p) => r == Ok::<Json, Error>(p),
            None => is_decoding_error(r),
        },
        None => {
            &&& r matches Ok(Json::Object(_))
            &&& forall|k: Seq<char>|
                k != FIELD_ERROR@ && (rt.code_field matches Some(cf) ==> k != cf@) ==> #[trigger] field(
                    r->Ok_0,
                    k,
                ) == field(envelope, k)
        },
    }
}

/// `r` is what a response `envelope` amounts to under `rt`.
pub open spec fn envelope_outcome(rt: RpcReturnType, envelope: Json, r: Result<Json, Error>) -> bool {
    if !(envelope is Object) {
        is_decoding_error(r)
    } else {
        match rt.code_field {
            None => is_success_payload(rt, envelope, r),
            Some(cf) => match u16_field(envelope, cf@) {
                None => is_decoding_error(r),
                Some(status) => if is_error_status(status) {
                    match reported_failure(envelope, status) {
                        Some(e) => r == Err::<Json, Error>(Error::Method(e)),
                        None => is_decoding_error(r),
                    }
                } else {
                    is_success_payload(rt, envelope, r)
                },
            },
        }
    }
}

fn into_u16(v: Option<&Json>) -> (r: Option<u16>)
    ensures
        r == match v {
            Some(j) => u16_of(*j),
            None => None,
        },
{
    match v {
        Some(Json::Number(Number::Int(n))) => if 0 <= *n && *n <= 65535 {
            Some(*n as u16)
        } else {
            None
        },
        _ => None,
    }
}

/// Reads a response envelope: the success payload, the remote failure it
/// reports, or a decoding error where it has neither shape.
pub fn decode_envelope(rt: &RpcReturnType, envelope: Json) -> (r: Result<Json, Error>)
    ensures
        envelope_outcome(*rt, envelope, r),
{
    let mut members = match envelope {
        Json::Object(members) => members,
        _ => {
            return decoding_error("the response is not an object");
        },
    };
    if let Some(cf) = rt.code_field {
        match into_u16(crate::json::get(&members, cf)) {
            None => {
                return decoding_error("the response carries no status code");
            },
            Some(status) => {
                if status >= 400 {
                    let number = into_u16(crate::json::get(&members, FIELD_ERROR_NUMBER));
                    let message = take(&mut members, FIELD_ERROR_MESSAGE);
                    return match (number, message) {
                        (Some(n), Some(Json::Str(m))) => Err(
                            Error::Method(MethodError::new(status, n, m)),
                        ),
                        _ => decoding_error("the failure does not have the expected shape"),
                    };
                }
            },
        }
    }
    match rt.result_field {
        Some(rf) => match take(&mut members, rf) {
            Some(p) => Ok(p),
            None => decoding_error("the response carries no result"),
        },
        None => {
            if let Some(cf) = rt.code_field {
                take(&mut members, cf);
            }
            take(&mut members, FIELD_ERROR);
            Ok(Json::Object(members))
        },
    }
}

/// Tells the status members of an envelope apart from the members of
/// payloads.
pub proof fn lemma_envelope_keys()
    ensures
        FIELD_CODE@.len() == 4 && FIELD_CODE@[0] == 'c' && FIELD_CODE@[3] == 'e',
        FIELD_ERROR@.len() == 5 && FIELD_ERROR@[0] == 'e' && FIELD_ERROR@[4] == 'r',
        FIELD_ERROR_NUMBER@.len() == 8 && FIELD_ERROR_NUMBER@[0] == 'e',
        FIELD_ERROR_MESSAGE@.len() == 12 && FIELD_ERROR_MESSAGE@[0] == 'e',
{
    reveal_strlit("code");
    reveal_strlit("error");
    reveal_strlit("errorNum");
    reveal_strlit("errorMessage");
}

/// `r` is what a call whose envelope keeps its status under `code` and whose
/// payload is the envelope itself makes of `envelope`: the remote failure it
/// reports, the value that `shape` and `decoded` describe, or a decoding
/// error.
pub open spec fn is_method_response<T>(
    envelope: Json,
    r: Result<T, Error>,
    shape: spec_fn(Json) -> bool,
    decoded: spec_fn(Json, T) -> bool,
) -> bool {
    if !(envelope is Object) {
        is_decoding_error(r)
    } else {
        match u16_field(envelope, FIELD_CODE@) {
            None => is_decoding_error(r),
            Some(status) => if is_error_status(status) {
                match reported_failure(envelope, status) {
                    Some(e) => r == Err::<T, Error>(Error::Method(e)),
                    None => is_decoding_error(r),
                }
            } else {
                &&& (r is Ok <==> shape(envelope))
                &&& (!shape(envelope) ==> is_decoding_error(r))
                &&& (r matches Ok(v) ==> decoded(envelope, v))
            },
        }
    }
}

/// How the calls on queries read their envelope: the status code under
/// `code`, the payload being the envelope itself.
pub open spec fn default_return_type() -> RpcReturnType {
    RpcReturnType { result_field: None, code_field: Some(FIELD_CODE) }
}

/// The return type of calls whose payload is the envelope itself.
pub fn default_return() -> (r: RpcReturnType)
    ensures
        r == default_return_type(),
{
    RpcReturnType { result_field: None, code_field: Some(FIELD_CODE) }
}

} // verus!
