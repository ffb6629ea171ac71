//! The execution plans that the remote planner reports, decoded without loss.

use vstd::prelude::*;
use vstd::string::*;
use crate::error::{decoding_error, is_decoding_error, Error};
use crate::expression::{is_expression_of, is_expression_shape, ExpressionNode};
use crate::json::{as_u64, field, get, get_field, lookup, take, u64_of, Json, Number};

verus! {

pub const FIELD_TYPE: &'static str = "type";
pub const FIELD_ID: &'static str = "id";
pub const FIELD_NAME: &'static str = "name";
pub const FIELD_DEPENDENCIES: &'static str = "dependencies";
pub const FIELD_ESTIMATED_COST: &'static str = "estimatedCost";
pub const FIELD_ESTIMATED_NR_ITEMS: &'static str = "estimatedNrItems";
pub const FIELD_NODES: &'static str = "nodes";
pub const FIELD_RULES: &'static str = "rules";
pub const FIELD_COLLECTIONS: &'static str = "collections";
pub const FIELD_VARIABLES: &'static str = "variables";
pub const FIELD_EXPRESSION: &'static str = "expression";
pub const FIELD_PLAN: &'static str = "plan";
pub const FIELD_PLANS: &'static str = "plans";
pub const FIELD_WARNINGS: &'static str = "warnings";
pub const FIELD_STATS: &'static str = "stats";
pub const FIELD_CACHEABLE: &'static str = "cacheable";
pub const FIELD_RULES_EXECUTED: &'static str = "rulesExecuted";
pub const FIELD_RULES_SKIPPED: &'static str = "rulesSkipped";
pub const FIELD_PLANS_CREATED: &'static str = "plansCreated";

/// Tells the member names of plans and nodes apart.
pub proof fn lemma_plan_keys()
    ensures
        FIELD_TYPE@.len() == 4 && FIELD_TYPE@[0] == 't',
        FIELD_ID@.len() == 2 && FIELD_ID@[0] == 'i',
        FIELD_NAME@.len() == 4 && FIELD_NAME@[0] == 'n',
        FIELD_DEPENDENCIES@.len() == 12 && FIELD_DEPENDENCIES@[0] == 'd',
        FIELD_ESTIMATED_COST@.len() == 13 && FIELD_ESTIMATED_COST@[0] == 'e',
        FIELD_ESTIMATED_NR_ITEMS@.len() == 16 && FIELD_ESTIMATED_NR_ITEMS@[0] == 'e',
        FIELD_NODES@.len() == 5 && FIELD_NODES@[0] == 'n',
        FIELD_RULES@.len() == 5 && FIELD_RULES@[0] == 'r',
        FIELD_COLLECTIONS@.len() == 11 && FIELD_COLLECTIONS@[0] == 'c',
        FIELD_VARIABLES@.len() == 9 && FIELD_VARIABLES@[0] == 'v',
        FIELD_EXPRESSION@.len() == 10 && FIELD_EXPRESSION@[0] == 'e',
        FIELD_PLAN@.len() == 4 && FIELD_PLAN@[0] == 'p',
        FIELD_PLANS@.len() == 5 && FIELD_PLANS@[0] == 'p',
        FIELD_WARNINGS@.len() == 8 && FIELD_WARNINGS@[0] == 'w',
        FIELD_STATS@.len() == 5 && FIELD_STATS@[0] == 's',
        FIELD_CACHEABLE@.len() == 9 && FIELD_CACHEABLE@[0] == 'c',
        FIELD_RULES_EXECUTED@.len() == 13 && FIELD_RULES_EXECUTED@[0] == 'r',
        FIELD_RULES_SKIPPED@.len() == 12 && FIELD_RULES_SKIPPED@[0] == 'r',
        FIELD_PLANS_CREATED@.len() == 12 && FIELD_PLANS_CREATED@[0] == 'p',
{
    reveal_strlit("expression");
    reveal_strlit("plan");
    reveal_strlit("plans");
    reveal_strlit("warnings");
    reveal_strlit("stats");
    reveal_strlit("cacheable");
    reveal_strlit("rulesExecuted");
    reveal_strlit("rulesSkipped");
    reveal_strlit("plansCreated");
    reveal_strlit("type");
    reveal_strlit("id");
    reveal_strlit("name");
    reveal_strlit("dependencies");
    reveal_strlit("estimatedCost");
    reveal_strlit("estimatedNrItems");
    reveal_strlit("nodes");
    reveal_strlit("rules");
    reveal_strlit("collections");
    reveal_strlit("variables");
}

/// The kinds of execution node, told apart by the `type` member.
#[derive(Debug, Clone, Copy, PartialEq, Eq, Structural)]
pub enum ExecutionNodeKind {
    Singleton,
    EnumerateCollection,
    EnumerateList,
    Index,
    Calculation,
    Filter,
    Limit,
    Sort,
    Collect,
    Return,
    Insert,
    Remove,
    Update,
    Replace,
    Upsert,
    Subquery,
    NoResults,
}

/// The kind that the discriminant `t` names, if it names one.
pub open spec fn node_kind_of(t: Seq<char>) -> Option<ExecutionNodeKind> {
    if t == "SingletonNode"@ {
        Some(ExecutionNodeKind::Singleton)
    } else if t == "EnumerateCollectionNode"@ {
        Some(ExecutionNodeKind::EnumerateCollection)
    } else if t == "EnumerateListNode"@ {
        Some(ExecutionNodeKind::EnumerateList)
    } else if t == "IndexNode"@ {
        Some(ExecutionNodeKind::Index)
    } else if t == "CalculationNode"@ {
        Some(ExecutionNodeKind::Calculation)
    } else if t == "FilterNode"@ {
        Some(ExecutionNodeKind::Filter)
    } else if t == "LimitNode"@ {
        Some(ExecutionNodeKind::Limit)
    } else if t == "SortNode"@ {
        Some(ExecutionNodeKind::Sort)
    } else if t == "CollectNode"@ {
        Some(ExecutionNodeKind::Collect)
    } else if t == "ReturnNode"@ {
        Some(ExecutionNodeKind::Return)
    } else if t == "InsertNode"@ {
        Some(ExecutionNodeKind::Insert)
    } else if t == "RemoveNode"@ {
        Some(ExecutionNodeKind::Remove)
    } else if t == "UpdateNode"@ {
        Some(ExecutionNodeKind::Update)
    } else if t == "ReplaceNode"@ {
        Some(ExecutionNodeKind::Replace)
    } else if t == "UpsertNode"@ {
        Some(ExecutionNodeKind::Upsert)
    } else if t == "SubqueryNode"@ {
        Some(ExecutionNodeKind::Subquery)
    } else if t == "NoResultsNode"@ {
        Some(ExecutionNodeKind::NoResults)
    } else {
        None
    }
}

fn is_named(t: &String, name: &str) -> (r: bool)
    ensures
        r == (t@ == name@),
{
    *t == String::from_str(name)
}

/// Reads the discriminant of an execution node.
pub fn node_kind(t: &String) -> (r: Option<ExecutionNodeKind>)
    ensures
        r == node_kind_of(t@),
{
    if is_named(t, "SingletonNode") {
        Some(ExecutionNodeKind::Singleton)
    } else if is_named(t, "EnumerateCollectionNode") {
        Some(ExecutionNodeKind::EnumerateCollection)
    } else if is_named(t, "EnumerateListNode") {
        Some(ExecutionNodeKind::EnumerateList)
    } else if is_named(t, "IndexNode") {
        Some(ExecutionNodeKind::Index)
    } else if is_named(t, "CalculationNode") {
        Some(ExecutionNodeKind::Calculation)
    } else if is_named(t, "FilterNode") {
        Some(ExecutionNodeKind::Filter)
    } else if is_named(t, "LimitNode") {
        Some(ExecutionNodeKind::Limit)
    } else if is_named(t, "SortNode") {
        Some(ExecutionNodeKind::Sort)
    } else if is_named(t, "CollectNode") {
        Some(ExecutionNodeKind::Collect)
    } else if is_named(t, "ReturnNode") {
        Some(ExecutionNodeKind::Return)
    } else if is_named(t, "InsertNode") {
        Some(ExecutionNodeKind::Insert)
    } else if is_named(t, "RemoveNode") {
        Some(ExecutionNodeKind::Remove)
    } else if is_named(t, "UpdateNode") {
        Some(ExecutionNodeKind::Update)
    } else if is_named(t, "ReplaceNode") {
        Some(ExecutionNodeKind::Replace)
    } else if is_named(t, "UpsertNode") {
        Some(ExecutionNodeKind::Upsert)
    } else if is_named(t, "SubqueryNode") {
        Some(ExecutionNodeKind::Subquery)
    } else if is_named(t, "NoResultsNode") {
        Some(ExecutionNodeKind::NoResults)
    } else {
        None
    }
}

/// Every item of `items` is a non-negative integer.
pub open spec fn all_u64(items: Seq<Json>) -> bool {
    forall|i: int| 0 <= i < items.len() ==> (#[trigger] u64_of(items[i])) is Some
}

/// `ids` are the integers that `items` holds, in order.
pub open spec fn is_ids_of(items: Seq<Json>, ids: Seq<u64>) -> bool {
    &&& items.len() == ids.len()
    &&& forall|i: int| 0 <= i < items.len() ==> #[trigger] u64_of(items[i]) == Some(ids[i])
}

fn decode_ids(items: &Vec<Json>) -> (r: Option<Vec<u64>>)
    ensures
        r is Some <==> all_u64(items@),
        r matches Some(v) ==> is_ids_of(items@, v@),
{
    let mut out: Vec<u64> = Vec::new();
    let mut i: usize = 0;
    while i < items.len()
        invariant
            i <= items.len(),
            out@.len() == i,
            forall|j: int| 0 <= j < i ==> #[trigger] u64_of(items@[j]) == Some(out@[j]),
        decreases items.len() - i,
    {
        match as_u64(&items[i]) {
            Some(n) => out.push(n),
            None => {
                return None;
            },
        }
        i = i + 1;
    }
    Some(out)
}

/// One node of an execution plan: its kind, identifier, the identifiers of
/// the nodes it depends on, the planner's estimates, the expression it
/// computes where it has one, and the other members particular to its kind
/// as received.
#[derive(Debug, PartialEq)]
pub struct ExecutionNode {
    pub kind: ExecutionNodeKind,
    pub id: u64,
    pub dependencies: Vec<u64>,
    pub estimated_cost: Number,
    pub estimated_nr_items: u64,
    pub expression: Option<ExpressionNode>,
    pub details: Vec<(String, Json)>,
}

/// A member that every node carries.
pub open spec fn is_common_node_key(k: Seq<char>) -> bool {
    k == FIELD_TYPE@ || k == FIELD_ID@ || k == FIELD_DEPENDENCIES@ || k == FIELD_ESTIMATED_COST@
        || k == FIELD_ESTIMATED_NR_ITEMS@ || k == FIELD_EXPRESSION@
}

/// The kind that the discriminant member of `j` names.
pub open spec fn kind_field(j: Json) -> Option<ExecutionNodeKind> {
    match field(j, FIELD_TYPE@) {
        Some(Json::Str(t)) => node_kind_of(t@),
        _ => None,
    }
}

/// The member `key` of `j` read as a count.
pub open spec fn count_field(j: Json, key: Seq<char>) -> Option<u64> {
    match field(j, key) {
        Some(v) => u64_of(v),
        None => None,
    }
}

/// `j` has the shape of an execution node of a known kind.
pub open spec fn is_node_shape(j: Json) -> bool {
    &&& j is Object
    &&& kind_field(j) is Some
    &&& count_field(j, FIELD_ID@) is Some
    &&& field(j, FIELD_DEPENDENCIES@) matches Some(Json::Array(d)) && all_u64(d@)
    &&& field(j, FIELD_ESTIMATED_COST@) matches Some(Json::Number(_))
    &&& count_field(j, FIELD_ESTIMATED_NR_ITEMS@) is Some
    &&& match field(j, FIELD_EXPRESSION@) {
        Some(x) => is_expression_shape(x),
        None => true,
    }
}

/// `n` is what the node `j` decodes to.
pub open spec fn is_node_of(j: Json, n: ExecutionNode) -> bool {
    &&& kind_field(j) == Some(n.kind)
    &&& count_field(j, FIELD_ID@) == Some(n.id)
    &&& field(j, FIELD_DEPENDENCIES@) matches Some(Json::Array(d)) && is_ids_of(
        d@,
        n.dependencies@,
    )
    &&& field(j, FIELD_ESTIMATED_COST@) == Some(Json::Number(n.estimated_cost))
    &&& count_field(j, FIELD_ESTIMATED_NR_ITEMS@) == Some(n.estimated_nr_items)
    &&& match field(j, FIELD_EXPRESSION@) {
        Some(x) => n.expression matches Some(e) && is_expression_of(x, e),
        None => n.expression is None,
    }
    &&& forall|k: Seq<char>|
        !is_common_node_key(k) ==> #[trigger] lookup(n.details@, k) == field(j, k)
}

impl ExecutionNode {
    /// Decodes one node; a discriminant that names no known kind is a
    /// decoding error.
    pub fn from_json(j: Json) -> (r: Result<ExecutionNode, Error>)
        ensures
            r is Ok <==> is_node_shape(j),
            !is_node_shape(j) ==> is_decoding_error(r),
            r matches Ok(n) ==> is_node_of(j, n),
    {
        proof {
            lemma_plan_keys();
        }
        let mut members = match j {
            Json::Object(m) => m,
            _ => {
                return decoding_error("the execution node is not an object");
            },
        };
        let kind = match take(&mut members, FIELD_TYPE) {
            Some(Json::Str(t)) => match node_kind(&t) {
                Some(k) => k,
                None => {
                    return decoding_error("unknown kind of execution node");
                },
            },
            _ => {
                return decoding_error("the execution node has no type");
            },
        };
        let id = match take(&mut members, FIELD_ID) {
            Some(v) => match as_u64(&v) {
                Some(n) => n,
                None => {
                    return decoding_error("the node identifier is not a count");
                },
            },
            None => {
                return decoding_error("the execution node has no identifier");
            },
        };
        let dependencies = match take(&mut members, FIELD_DEPENDENCIES) {
            Some(Json::Array(items)) => match decode_ids(&items) {
                Some(ids) => ids,
                None => {
                    return decoding_error("a dependency is not a node identifier");
                },
            },
            _ => {
                return decoding_error("the execution node has no dependency list");
            },
        };
        let estimated_cost = match take(&mut members, FIELD_ESTIMATED_COST) {
            Some(Json::Number(n)) => n,
            _ => {
                return decoding_error("the execution node has no estimated cost");
            },
        };
        let estimated_nr_items = match take(&mut members, FIELD_ESTIMATED_NR_ITEMS) {
            Some(v) => match as_u64(&v) {
                Some(n) => n,
                None => {
                    return decoding_error("the estimated item count is not a count");
                },
            },
            None => {
                return decoding_error("the execution node has no estimated item count");
            },
        };
        let expression = match take(&mut members, FIELD_EXPRESSION) {
            None => None,
            Some(x) => match ExpressionNode::from_json(x) {
                Ok(e) => Some(e),
                Err(e) => {
                    return Err(e);
                },
            },
        };
        Ok(
            ExecutionNode {
                kind,
                id,
                dependencies,
                estimated_cost,
                estimated_nr_items,
                expression,
                details: members,
            },
        )
    }
}

/// Every item of `items` has the shape of an execution node.
pub open spec fn all_nodes(items: Seq<Json>) -> bool {
    forall|i: int| 0 <= i < items.len() ==> is_node_shape(#[trigger] items[i])
}

/// `nodes` are what `items` decode to, in order.
pub open spec fn is_nodes_of(items: Seq<Json>, nodes: Seq<ExecutionNode>) -> bool {
    &&& items.len() == nodes.len()
    &&& forall|i: int| 0 <= i < items.len() ==> is_node_of(#[trigger] items[i], nodes[i])
}

fn decode_nodes(items: Vec<Json>) -> (r: Result<Vec<ExecutionNode>, Error>)
    ensures
        r is Ok <==> all_nodes(items@),
        !all_nodes(items@) ==> is_decoding_error(r),
        r matches Ok(v) ==> is_nodes_of(items@, v@),
{
    let ghost orig = items@;
    let mut rest = items;
    let mut out: Vec<ExecutionNode> = Vec::new();
    while rest.len() > 0
        invariant
            orig == items@,
            out@.len() + rest@.len() == orig.len(),
            rest@ == orig.subrange(out@.len() as int, orig.len() as int),
            forall|i: int|
                0 <= i < out@.len() ==> is_node_shape(#[trigger] orig[i]) && is_node_of(
                    orig[i],
                    out@[i],
                ),
        decreases rest.len(),
    {
        let ghost k = out@.len() as int;
        let j = rest.remove(0);
        proof {
            assert(j == orig[k]);
        }
        match ExecutionNode::from_json(j) {
            Ok(n) => out.push(n),
            Err(e) => {
                proof {
                    assert(0 <= k < orig.len());
                    assert(!is_node_shape(orig[k]));
                    assert(!all_nodes(orig));
                }
                return Err(e);
            },
        }
        proof {
            assert(rest@ =~= orig.subrange(out@.len() as int, orig.len() as int));
        }
    }
    Ok(out)
}

/// Every item of `items` is a string.
pub open spec fn all_strings(items: Seq<Json>) -> bool {
    forall|i: int| 0 <= i < items.len() ==> (#[trigger] items[i]) is Str
}

/// `v` are the strings that `items` holds, in order.
pub open spec fn is_strings_of(items: Seq<Json>, v: Seq<String>) -> bool {
    &&& items.len() == v.len()
    &&& forall|i: int| 0 <= i < items.len() ==> #[trigger] items[i] == Json::Str(v[i])
}

/// Decodes a list of strings.
pub fn decode_strings(items: Vec<Json>) -> (r: Option<Vec<String>>)
    ensures
        r is Some <==> all_strings(items@),
        r matches Some(v) ==> is_strings_of(items@, v@),
{
    let ghost orig = items@;
    let mut rest = items;
    let mut out: Vec<String> = Vec::new();
    while rest.len() > 0
        invariant
            orig == items@,
            out@.len() + rest@.len() == orig.len(),
            rest@ == orig.subrange(out@.len() as int, orig.len() as int),
            forall|i: int| 0 <= i < out@.len() ==> #[trigger] orig[i] == Json::Str(out@[i]),
        decreases rest.len(),
    {
        let ghost k = out@.len() as int;
        let j = rest.remove(0);
        proof {
            assert(j == orig[k]);
        }
        match j {
            Json::Str(t) => out.push(t),
            _ => {
                proof {
                    assert(0 <= k < orig.len());
                    assert(!(orig[k] is Str));
                    assert(!all_strings(orig));
                }
                return None;
            },
        }
        proof {
            assert(rest@ =~= orig.subrange(out@.len() as int, orig.len() as int));
        }
    }
    Some(out)
}

/// A collection that a plan touches, and how.
#[derive(Debug, PartialEq)]
pub struct ExecutionCollection {
    pub kind: String,
    pub name: String,
}

/// A variable of a plan.
#[derive(Debug, PartialEq)]
pub struct ExecutionVariable {
    pub id: u64,
    pub name: String,
}

/// `c` is what the collection entry `j` decodes to.
pub open spec fn is_collection_of(j: Json, c: ExecutionCollection) -> bool {
    field(j, FIELD_TYPE@) == Some(Json::Str(c.kind)) && field(j, FIELD_NAME@) == Some(
        Json::Str(c.name),
    )
}

/// `j` has the shape of a collection entry.
pub open spec fn is_collection_shape(j: Json) -> bool {
    field(j, FIELD_TYPE@) matches Some(Json::Str(_)) && field(j, FIELD_NAME@) matches Some(
        Json::Str(_),
    )
}

/// `v` is what the variable entry `j` decodes to.
pub open spec fn is_variable_of(j: Json, v: ExecutionVariable) -> bool {
    count_field(j, FIELD_ID@) == Some(v.id) && field(j, FIELD_NAME@) == Some(Json::Str(v.name))
}

/// `j` has the shape of a variable entry.
pub open spec fn is_variable_shape(j: Json) -> bool {
    count_field(j, FIELD_ID@) is Some && field(j, FIELD_NAME@) matches Some(Json::Str(_))
}

fn decode_collection(j: Json) -> (r: Option<ExecutionCollection>)
    ensures
        r is Some <==> is_collection_shape(j),
        r matches Some(c) ==> is_collection_of(j, c),
{
    proof {
        lemma_plan_keys();
    }
    let mut members = match j {
        Json::Object(m) => m,
        _ => {
            return None;
        },
    };
    let kind = match take(&mut members, FIELD_TYPE) {
        Some(Json::Str(t)) => t,
        _ => {
            return None;
        },
    };
    match take(&mut members, FIELD_NAME) {
        Some(Json::Str(name)) => Some(ExecutionCollection { kind, name }),
        _ => None,
    }
}

fn decode_variable(j: Json) -> (r: Option<ExecutionVariable>)
    ensures
        r is Some <==> is_variable_shape(j),
        r matches Some(v) ==> is_variable_of(j, v),
{
    proof {
        lemma_plan_keys();
    }
    let mut members = match j {
        Json::Object(m) => m,
        _ => {
            return None;
        },
    };
    let id = match take(&mut members, FIELD_ID) {
        Some(v) => match as_u64(&v) {
            Some(n) => n,
            None => {
                return None;
            },
        },
        None => {
            return None;
        },
    };
    match take(&mut members, FIELD_NAME) {
        Some(Json::Str(name)) => Some(ExecutionVariable { id, name }),
        _ => None,
    }
}

/// Every item of `items` has the shape of a collection entry.
pub open spec fn all_collections(items: Seq<Json>) -> bool {
    forall|i: int| 0 <= i < items.len() ==> is_collection_shape(#[trigger] items[i])
}

/// `v` are what `items` decode to, in order.
pub open spec fn is_collections_of(items: Seq<Json>, v: Seq<ExecutionCollection>) -> bool {
    &&& items.len() == v.len()
    &&& forall|i: int| 0 <= i < items.len() ==> is_collection_of(#[trigger] items[i], v[i])
}

fn decode_collections(items: Vec<Json>) -> (r: Option<Vec<ExecutionCollection>>)
    ensures
        r is Some <==> all_collections(items@),
        r matches Some(v) ==> is_collections_of(items@, v@),
{
    let ghost orig = items@;
    let mut rest = items;
    let mut out: Vec<ExecutionCollection> = Vec::new();
    while rest.len() > 0
        invariant
            orig == items@,
            out@.len() + rest@.len() == orig.len(),
            rest@ == orig.subrange(out@.len() as int, orig.len() as int),
            forall|i: int|
                0 <= i < out@.len() ==> is_collection_shape(#[trigger] orig[i])
                    && is_collection_of(orig[i], out@[i]),
        decreases rest.len(),
    {
        let ghost k = out@.len() as int;
        let j = rest.remove(0);
        proof {
            assert(j == orig[k]);
        }
        match decode_collection(j) {
            Some(c) => out.push(c),
            None => {
                proof {
                    assert(0 <= k < orig.len());
                    assert(!is_collection_shape(orig[k]));
                    assert(!all_collections(orig));
                }
                return None;
            },
        }
        proof {
            assert(rest@ =~= orig.subrange(out@.len() as int, orig.len() as int));
        }
    }
    Some(out)
}

/// Every item of `items` has the shape of a variable entry.
pub open spec fn all_variables(items: Seq<Json>) -> bool {
    forall|i: int| 0 <= i < items.len() ==> is_variable_shape(#[trigger] items[i])
}

/// `v` are what `items` decode to, in order.
pub open spec fn is_variables_of(items: Seq<Json>, v: Seq<ExecutionVariable>) -> bool {
    &&& items.len() == v.len()
    &&& forall|i: int| 0 <= i < items.len() ==> is_variable_of(#[trigger] items[i], v[i])
}

fn decode_variables(items: Vec<Json>) -> (r: Option<Vec<ExecutionVariable>>)
    ensures
        r is Some <==> all_variables(items@),
        r matches Some(v) ==> is_variables_of(items@, v@),
{
    let ghost orig = items@;
    let mut rest = items;
    let mut out: Vec<ExecutionVariable> = Vec::new();
    while rest.len() > 0
        invariant
            orig == items@,
            out@.len() + rest@.len() == orig.len(),
            rest@ == orig.subrange(out@.len() as int, orig.len() as int),
            forall|i: int|
                0 <= i < out@.len() ==> is_variable_shape(#[trigger] orig[i]) && is_variable_of(
                    orig[i],
                    out@[i],
                ),
        decreases rest.len(),
    {
        let ghost k = out@.len() as int;
        let j = rest.remove(0);
        proof {
            assert(j == orig[k]);
        }
        match decode_variable(j) {
            Some(v) => out.push(v),
            None => {
                proof {
                    assert(0 <= k < orig.len());
                    assert(!is_variable_shape(orig[k]));
                    assert(!all_variables(orig));
                }
                return None;
            },
        }
        proof {
            assert(rest@ =~= orig.subrange(out@.len() as int, orig.len() as int));
        }
    }
    Some(out)
}

/// One plan: its nodes, the optimizer rules applied, the collections and
/// variables it uses, and the planner's estimates for the whole.
#[derive(Debug, PartialEq)]
pub struct ExecutionPlan {
    pub nodes: Vec<ExecutionNode>,
    pub rules: Vec<String>,
    pub collections: Vec<ExecutionCollection>,
    pub variables: Vec<ExecutionVariable>,
    pub estimated_cost: Number,
    pub estimated_nr_items: u64,
}

/// `j` has the shape of a plan whose every node is of a known kind.
pub open spec fn is_plan_shape(j: Json) -> bool {
    &&& j is Object
    &&& field(j, FIELD_NODES@) matches Some(Json::Array(ns)) && all_nodes(ns@)
    &&& field(j, FIELD_RULES@) matches Some(Json::Array(rs)) && all_strings(rs@)
    &&& field(j, FIELD_COLLECTIONS@) matches Some(Json::Array(cs)) && all_collections(cs@)
    &&& field(j, FIELD_VARIABLES@) matches Some(Json::Array(vs)) && all_variables(vs@)
    &&& field(j, FIELD_ESTIMATED_COST@) matches Some(Json::Number(_))
    &&& count_field(j, FIELD_ESTIMATED_NR_ITEMS@) is Some
}

/// `p` is what the plan `j` decodes to.
pub open spec fn is_plan_of(j: Json, p: ExecutionPlan) -> bool {
    &&& field(j, FIELD_NODES@) matches Some(Json::Array(ns)) && is_nodes_of(ns@, p.nodes@)
    &&& field(j, FIELD_RULES@) matches Some(Json::Array(rs)) && is_strings_of(rs@, p.rules@)
    &&& field(j, FIELD_COLLECTIONS@) matches Some(Json::Array(cs)) && is_collections_of(
        cs@,
        p.collections@,
    )
    &&& field(j, FIELD_VARIABLES@) matches Some(Json::Array(vs)) && is_variables_of(
        vs@,
        p.variables@,
    )
    &&& field(j, FIELD_ESTIMATED_COST@) == Some(Json::Number(p.estimated_cost))
    &&& count_field(j, FIELD_ESTIMATED_NR_ITEMS@) == Some(p.estimated_nr_items)
}

impl ExecutionPlan {
    /// Decodes one plan; it fails as a whole where any node fails.
    pub fn from_json(j: Json) -> (r: Result<ExecutionPlan, Error>)
        ensures
            r is Ok <==> is_plan_shape(j),
            !is_plan_shape(j) ==> is_decoding_error(r),
            r matches Ok(p) ==> is_plan_of(j, p),
    {
        proof {
            lemma_plan_keys();
        }
        let mut members = match j {
            Json::Object(m) => m,
            _ => {
                return decoding_error("the plan is not an object");
            },
        };
        let estimated_cost = match get(&members, FIELD_ESTIMATED_COST) {
            Some(Json::Number(n)) => n.clone(),
            _ => {
                return decoding_error("the plan has no estimated cost");
            },
        };
        let estimated_nr_items = match get(&members, FIELD_ESTIMATED_NR_ITEMS) {
            Some(v) => match as_u64(v) {
                Some(n) => n,
                None => {
                    return decoding_error("the estimated item count is not a count");
                },
            },
            None => {
                return decoding_error("the plan has no estimated item count");
            },
        };
        let nodes = match take(&mut members, FIELD_NODES) {
            Some(Json::Array(items)) => match decode_nodes(items) {
                Ok(v) => v,
                Err(e) => {
                    return Err(e);
                },
            },
            _ => {
                return decoding_error("the plan has no node list");
            },
        };
        let rules = match take(&mut members, FIELD_RULES) {
            Some(Json::Array(items)) => match decode_strings(items) {
                Some(v) => v,
                None => {
                    return decoding_error("an optimizer rule is not a string");
                },
            },
            _ => {
                return decoding_error("the plan has no rule list");
            },
        };
        let collections = match take(&mut members, FIELD_COLLECTIONS) {
            Some(Json::Array(items)) => match decode_collections(items) {
                Some(v) => v,
                None => {
                    return decoding_error("a collection entry is malformed");
                },
            },
            _ => {
                return decoding_error("the plan has no collection list");
            },
        };
        let variables = match take(&mut members, FIELD_VARIABLES) {
            Some(Json::Array(items)) => match decode_variables(items) {
                Some(v) => v,
                None => {
                    return decoding_error("a variable entry is malformed");
                },
            },
            _ => {
                return decoding_error("the plan has no variable list");
            },
        };
        Ok(ExecutionPlan { nodes, rules, collections, variables, estimated_cost, estimated_nr_items })
    }
}

/// Every item of `items` has the shape of a plan.
pub open spec fn all_plans(items: Seq<Json>) -> bool {
    forall|i: int| 0 <= i < items.len() ==> is_plan_shape(#[trigger] items[i])
}

/// `v` are what `items` decode to, in order.
pub open spec fn is_plans_of(items: Seq<Json>, v: Seq<ExecutionPlan>) -> bool {
    &&& items.len() == v.len()
    &&& forall|i: int| 0 <= i < items.len() ==> is_plan_of(#[trigger] items[i], v[i])
}

fn decode_plans(items: Vec<Json>) -> (r: Result<Vec<ExecutionPlan>, Error>)
    ensures
        r is Ok <==> all_plans(items@),
        !all_plans(items@) ==> is_decoding_error(r),
        r matches Ok(v) ==> is_plans_of(items@, v@),
{
    let ghost orig = items@;
    let mut rest = items;
    let mut out: Vec<ExecutionPlan> = Vec::new();
    while rest.len() > 0
        invariant
            orig == items@,
            out@.len() + rest@.len() == orig.len(),
            rest@ == orig.subrange(out@.len() as int, orig.len() as int),
            forall|i: int|
                0 <= i < out@.len() ==> is_plan_shape(#[trigger] orig[i]) && is_plan_of(
                    orig[i],
                    out@[i],
                ),
        decreases rest.len(),
    {
        let ghost k = out@.len() as int;
        let j = rest.remove(0);
        proof {
            assert(j == orig[k]);
        }
        match ExecutionPlan::from_json(j) {
            Ok(p) => out.push(p),
            Err(e) => {
                proof {
                    assert(0 <= k < orig.len());
                    assert(!is_plan_shape(orig[k]));
                }
                return Err(e);
            },
        }
        proof {
            assert(rest@ =~= orig.subrange(out@.len() as int, orig.len() as int));
        }
    }
    Ok(out)
}

/// The plans of an explanation: the best one alone, or every candidate.
#[derive(Debug, PartialEq)]
pub enum ExplainedPlans {
    Best(ExecutionPlan),
    Candidates(Vec<ExecutionPlan>),
}

/// Counters of the planner's work.
#[derive(Debug, Clone, Copy, PartialEq, Eq, Structural)]
pub struct ExecutionStats {
    pub rules_executed: u64,
    pub rules_skipped: u64,
    pub plans_created: u64,
}

/// The planner's report on a query.
#[derive(Debug, PartialEq)]
pub struct ExplainedQuery {
    pub plans: ExplainedPlans,
    pub warnings: Vec<Json>,
    pub stats: ExecutionStats,
    pub cacheable: bool,
}

/// The planner counters that `j` holds, where it holds all three.
pub open spec fn execution_stats_of(j: Json) -> Option<ExecutionStats> {
    match (
        count_field(j, FIELD_RULES_EXECUTED@),
        count_field(j, FIELD_RULES_SKIPPED@),
        count_field(j, FIELD_PLANS_CREATED@),
    ) {
        (Some(a), Some(b), Some(c)) => Some(
            ExecutionStats { rules_executed: a, rules_skipped: b, plans_created: c },
        ),
        _ => None,
    }
}

/// `j` has the shape of an explanation: exactly one of `plan` and `plans`,
/// every plan well-formed, the planner counters, and well-formed optional
/// members.
pub open spec fn is_explain_shape(j: Json) -> bool {
    &&& j is Object
    &&& match (field(j, FIELD_PLAN@), field(j, FIELD_PLANS@)) {
        (Some(p), None) => is_plan_shape(p),
        (None, Some(Json::Array(ps))) => all_plans(ps@),
        _ => false,
    }
    &&& field(j, FIELD_STATS@) matches Some(s) && execution_stats_of(s) is Some
    &&& (field(j, FIELD_WARNINGS@) is None || field(j, FIELD_WARNINGS@) matches Some(Json::Array(_)))
    &&& (field(j, FIELD_CACHEABLE@) is None || field(j, FIELD_CACHEABLE@) matches Some(Json::Bool(_)))
}

/// `q` is what the explanation `j` decodes to.
pub open spec fn is_explained_of(j: Json, q: ExplainedQuery) -> bool {
    &&& match q.plans {
        ExplainedPlans::Best(p) => field(j, FIELD_PLAN@) matches Some(pj) && is_plan_of(pj, p),
        ExplainedPlans::Candidates(v) => field(j, FIELD_PLANS@) matches Some(Json::Array(ps))
            && is_plans_of(ps@, v@),
    }
    &&& field(j, FIELD_STATS@) matches Some(s) && execution_stats_of(s) == Some(q.stats)
    &&& match field(j, FIELD_WARNINGS@) {
        Some(w) => w == Json::Array(q.warnings),
        None => q.warnings@.len() == 0,
    }
    &&& q.cacheable == (field(j, FIELD_CACHEABLE@) == Some(Json::Bool(true)))
}

/// `r` is what decoding the explanation `j` gives.
pub open spec fn is_explain_result(j: Json, r: Result<ExplainedQuery, Error>) -> bool {
    &&& (r is Ok <==> is_explain_shape(j))
    &&& (!is_explain_shape(j) ==> is_decoding_error(r))
    &&& (r matches Ok(q) ==> is_explained_of(j, q))
}

fn decode_execution_stats(j: &Json) -> (r: Option<ExecutionStats>)
    ensures
        r == execution_stats_of(*j),
{
    let a = match get_field(j, FIELD_RULES_EXECUTED) {
        Some(v) => as_u64(v),
        None => None,
    };
    let b = match get_field(j, FIELD_RULES_SKIPPED) {
        Some(v) => as_u64(v),
        None => None,
    };
    let c = match get_field(j, FIELD_PLANS_CREATED) {
        Some(v) => as_u64(v),
        None => None,
    };
    match (a, b, c) {
        (Some(a), Some(b), Some(c)) => Some(
            ExecutionStats { rules_executed: a, rules_skipped: b, plans_created: c },
        ),
        _ => None,
    }
}

impl ExplainedQuery {
    /// An explanation that reports the best plan alone.
    pub fn from_best_plan(plan: ExecutionPlan, warnings: Vec<Json>, stats: ExecutionStats, cacheable: bool) -> (r: ExplainedQuery)
        ensures
            r.plans == ExplainedPlans::Best(plan),
            r.warnings == warnings,
            r.stats == stats,
            r.cacheable == cacheable,
    {
        ExplainedQuery { plans: ExplainedPlans::Best(plan), warnings, stats, cacheable }
    }

    /// An explanation that reports every candidate plan.
    pub fn from_multiple_plans(plans: Vec<ExecutionPlan>, warnings: Vec<Json>, stats: ExecutionStats, cacheable: bool) -> (r: ExplainedQuery)
        ensures
            r.plans == ExplainedPlans::Candidates(plans),
            r.warnings == warnings,
            r.stats == stats,
            r.cacheable == cacheable,
    {
        ExplainedQuery { plans: ExplainedPlans::Candidates(plans), warnings, stats, cacheable }
    }

    /// Decodes an explanation: the `plan` member gives the best plan, the
    /// `plans` member every candidate; one of them must be there, not both.
    pub fn from_json(j: Json) -> (r: Result<ExplainedQuery, Error>)
        ensures
            is_explain_result(j, r),
    {
        proof {
            lemma_plan_keys();
        }
        let mut members = match j {
            Json::Object(m) => m,
            _ => {
                return decoding_error("the explanation is not an object");
            },
        };
        let stats = match get(&members, FIELD_STATS) {
            Some(s) => match decode_execution_stats(s) {
                Some(s) => s,
                None => {
                    return decoding_error("the planner counters are malformed");
                },
            },
            None => {
                return decoding_error("the explanation has no planner counters");
            },
        };
        let cacheable = match get(&members, FIELD_CACHEABLE) {
            None => false,
            Some(Json::Bool(b)) => *b,
            Some(_) => {
                return decoding_error("the cacheable flag is not a boolean");
            },
        };
        let warnings = match take(&mut members, FIELD_WARNINGS) {
            None => Vec::new(),
            Some(Json::Array(w)) => w,
            Some(_) => {
                return decoding_error("the warnings are not a list");
            },
        };
        let plan = take(&mut members, FIELD_PLAN);
        let plans = take(&mut members, FIELD_PLANS);
        let explained = match (plan, plans) {
            (Some(p), None) => match ExecutionPlan::from_json(p) {
                Ok(p) => ExplainedPlans::Best(p),
                Err(e) => {
                    return Err(e);
                },
            },
            (None, Some(Json::Array(ps))) => match decode_plans(ps) {
                Ok(v) => ExplainedPlans::Candidates(v),
                Err(e) => {
                    return Err(e);
                },
            },
            (None, None) => {
                return decoding_error("the explanation holds neither a plan nor a list of plans");
            },
            (Some(_), Some(_)) => {
                return decoding_error("the explanation holds both a plan and a list of plans");
            },
            (None, Some(_)) => {
                return decoding_error("the list of plans is not a list");
            },
        };
        Ok(ExplainedQuery { plans: explained, warnings, stats, cacheable })
    }
}

/// An explanation is accepted only with exactly one of `plan` and `plans`:
/// with neither, or with both, decoding fails with a decoding error.
pub proof fn lemma_explain_needs_one_plan_member(j: Json, r: Result<ExplainedQuery, Error>)
    requires
        is_explain_result(j, r),
    ensures
        r is Ok ==> (field(j, FIELD_PLAN@) is Some) != (field(j, FIELD_PLANS@) is Some),
        (field(j, FIELD_PLAN@) is Some) == (field(j, FIELD_PLANS@) is Some) ==> is_decoding_error(r),
{
}

/// A node whose discriminant names no known kind, anywhere in the reported
/// plans, makes the whole explanation fail with a decoding error.
pub proof fn lemma_unknown_node_kind_fails(
    j: Json,
    r: Result<ExplainedQuery, Error>,
    plan: Json,
    nodes: Vec<Json>,
    i: int,
)
    requires
        is_explain_result(j, r),
        field(j, FIELD_PLAN@) == Some(plan) || (field(j, FIELD_PLANS@) matches Some(
            Json::Array(ps),
        ) && ps@.contains(plan)),
        field(plan, FIELD_NODES@) == Some(Json::Array(nodes)),
        0 <= i < nodes@.len(),
        kind_field(nodes@[i]) is None,
    ensures
        is_decoding_error(r),
{
    assert(!is_node_shape(nodes@[i]));
    assert(!is_plan_shape(plan));
    if let Some(Json::Array(ps)) = field(j, FIELD_PLANS@) {
        if ps@.contains(plan) {
            let k = choose|k: int| 0 <= k < ps@.len() && ps@[k] == plan;
            assert(!is_plan_shape(ps@[k]));
        }
    }
}

} // verus!
