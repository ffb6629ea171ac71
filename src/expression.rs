//! The expression trees inside execution nodes, decoded without loss.

use vstd::prelude::*;
use vstd::string::*;
use crate::error::{decoding_error, is_decoding_error, Error};
use crate::json::{as_u64, field, lemma_field_decreases, lookup, take, u64_of, Json};
use crate::plan::{count_field, FIELD_ID, FIELD_NAME, FIELD_TYPE};

verus! {

pub const FIELD_VALUE: &'static str = "value";
pub const FIELD_SUB_NODES: &'static str = "subNodes";

/// Tells the member names of expression nodes apart.
pub proof fn lemma_expression_keys()
    ensures
        FIELD_TYPE@.len() == 4 && FIELD_TYPE@[0] == 't',
        FIELD_ID@.len() == 2 && FIELD_ID@[0] == 'i',
        FIELD_NAME@.len() == 4 && FIELD_NAME@[0] == 'n',
        FIELD_VALUE@.len() == 5 && FIELD_VALUE@[0] == 'v',
        FIELD_SUB_NODES@.len() == 8 && FIELD_SUB_NODES@[0] == 's',
{
    crate::plan::lemma_plan_keys();
    reveal_strlit("value");
    reveal_strlit("subNodes");
}

/// One node of an expression: its kind (a comparison, an attribute access,
/// a reference, a value, an n-ary combinator and so on), the name, variable
/// identifier and value that some kinds carry, its operands, and the other
/// members as received.
#[derive(Debug, PartialEq)]
pub struct ExpressionNode {
    pub kind: String,
    pub name: Option<String>,
    pub id: Option<u64>,
    pub value: Option<Json>,
    pub sub_nodes: Vec<ExpressionNode>,
    pub details: Vec<(String, Json)>,
}

/// A member that expression nodes decode into their own fields.
pub open spec fn is_expression_key(k: Seq<char>) -> bool {
    k == FIELD_TYPE@ || k == FIELD_NAME@ || k == FIELD_ID@ || k == FIELD_VALUE@ || k
        == FIELD_SUB_NODES@
}

/// `j` has the shape of an expression node, down to its leaves.
pub open spec fn is_expression_shape(j: Json) -> bool
    decreases j,
{
    proof {
        lemma_field_decreases(j, FIELD_SUB_NODES@);
    }
    &&& j is Object
    &&& field(j, FIELD_TYPE@) matches Some(Json::Str(_))
    &&& (field(j, FIELD_NAME@) is None || field(j, FIELD_NAME@) matches Some(Json::Str(_)))
    &&& (field(j, FIELD_ID@) is None || count_field(j, FIELD_ID@) is Some)
    &&& match field(j, FIELD_SUB_NODES@) {
        None => true,
        Some(Json::Array(items)) => forall|i: int|
            0 <= i < items@.len() ==> is_expression_shape(#[trigger] items@[i]),
        Some(_) => false,
    }
}

/// `e` is what the expression node `j` decodes to, down to its leaves.
pub open spec fn is_expression_of(j: Json, e: ExpressionNode) -> bool
    decreases j,
{
    proof {
        lemma_field_decreases(j, FIELD_SUB_NODES@);
    }
    &&& field(j, FIELD_TYPE@) == Some(Json::Str(e.kind))
    &&& match e.name {
        Some(s) => field(j, FIELD_NAME@) == Some(Json::Str(s)),
        None => field(j, FIELD_NAME@) is None,
    }
    &&& match field(j, FIELD_ID@) {
        Some(v) => e.id == u64_of(v),
        None => e.id is None,
    }
    &&& e.value == field(j, FIELD_VALUE@)
    &&& match field(j, FIELD_SUB_NODES@) {
        None => e.sub_nodes@.len() == 0,
        Some(Json::Array(items)) => {
            &&& items@.len() == e.sub_nodes@.len()
            &&& forall|i: int|
                0 <= i < items@.len() ==> is_expression_of(#[trigger] items@[i], e.sub_nodes@[i])
        },
        Some(_) => false,
    }
    &&& forall|k: Seq<char>|
        !is_expression_key(k) ==> #[trigger] lookup(e.details@, k) == field(j, k)
}

impl ExpressionNode {
    /// Decodes an expression node and all its operands; it fails as a whole
    /// where any operand fails.
    pub fn from_json(j: Json) -> (r: Result<ExpressionNode, Error>)
        ensures
            r is Ok <==> is_expression_shape(j),
            !is_expression_shape(j) ==> is_decoding_error(r),
            r matches Ok(e) ==> is_expression_of(j, e),
        decreases j,
    {
        proof {
            lemma_expression_keys();
            lemma_field_decreases(j, FIELD_SUB_NODES@);
        }
        let ghost j0 = j;
        let mut members = match j {
            Json::Object(m) => m,
            _ => {
                return decoding_error("the expression node is not an object");
            },
        };
        let kind = match take(&mut members, FIELD_TYPE) {
            Some(Json::Str(t)) => t,
            _ => {
                return decoding_error("the expression node has no type");
            },
        };
        let name = match take(&mut members, FIELD_NAME) {
            None => None,
            Some(Json::Str(s)) => Some(s),
            Some(_) => {
                return decoding_error("the name of the expression node is not a string");
            },
        };
        let id = match take(&mut members, FIELD_ID) {
            None => None,
            Some(v) => match as_u64(&v) {
                Some(n) => Some(n),
                None => {
                    return decoding_error("the variable identifier is not a count");
                },
            },
        };
        let value = take(&mut members, FIELD_VALUE);
        let sub_nodes = match take(&mut members, FIELD_SUB_NODES) {
            None => Vec::new(),
            Some(Json::Array(items)) => {
                let ghost orig = items@;
                let mut rest = items;
                let mut out: Vec<ExpressionNode> = Vec::new();
                while rest.len() > 0
                    invariant
                        j0 == j,
                        field(j0, FIELD_SUB_NODES@) matches Some(Json::Array(v)) && v@ == orig,
                        forall|i: int| 0 <= i < orig.len() ==> decreases_to!(j0 => #[trigger] orig[i]),
                        out@.len() + rest@.len() == orig.len(),
                        rest@ == orig.subrange(out@.len() as int, orig.len() as int),
                        forall|i: int|
                            0 <= i < out@.len() ==> is_expression_shape(#[trigger] orig[i])
                                && is_expression_of(orig[i], out@[i]),
                    decreases rest.len(),
                {
                    let ghost k = out@.len() as int;
                    let item = rest.remove(0);
                    proof {
                        assert(item == orig[k]);
                        assert(decreases_to!(j0 => item));
                    }
                    match ExpressionNode::from_json(item) {
                        Ok(e) => out.push(e),
                        Err(e) => {
                            proof {
                                assert(0 <= k < orig.len());
                                assert(!is_expression_shape(orig[k]));
                                assert(!is_expression_shape(j0));
                            }
                            return Err(e);
                        },
                    }
                    proof {
                        assert(rest@ =~= orig.subrange(out@.len() as int, orig.len() as int));
                    }
                }
                out
            },
            Some(_) => {
                return decoding_error("the operands of the expression node are not a list");
            },
        };
        Ok(ExpressionNode { kind, name, id, value, sub_nodes, details: members })
    }
}

} // verus!
