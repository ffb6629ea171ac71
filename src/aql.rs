//! Parsing and explaining queries.

use vstd::prelude::*;
use vstd::string::*;
use crate::error::{decoding_error, is_decoding_error, Error};
use crate::json::{field, from_u32, put, take, Json};
use crate::method::{
    decode_envelope, default_return, default_return_type, is_method_response,
    lemma_envelope_keys, Operation, Parameters, Prepare, RpcReturnType, PATH_API_EXPLAIN, PATH_API_QUERY,
};
use crate::plan::{
    all_strings, decode_strings, is_explain_shape, is_explained_of,
    is_strings_of, lemma_plan_keys, ExplainedQuery,
};
use crate::query::{is_rules_wire, OptimizerRuleSet, Query};
use crate::cursor::{is_opt_bool, is_opt_u32};

verus! {

pub const FIELD_QUERY: &'static str = "query";
pub const FIELD_BIND_VARS: &'static str = "bindVars";
pub const FIELD_OPTIONS: &'static str = "options";
pub const FIELD_OPTIMIZER: &'static str = "optimizer";
pub const FIELD_RULES: &'static str = "rules";
pub const FIELD_ALL_PLANS: &'static str = "allPlans";
pub const FIELD_MAX_NUMBER_OF_PLANS: &'static str = "maxNumberOfPlans";
pub const FIELD_COLLECTIONS: &'static str = "collections";
pub const FIELD_AST: &'static str = "ast";

/// Tells the member names of parse and explain requests and results apart.
pub proof fn lemma_aql_keys()
    ensures
        FIELD_QUERY@.len() == 5 && FIELD_QUERY@[0] == 'q',
        FIELD_BIND_VARS@.len() == 8 && FIELD_BIND_VARS@[0] == 'b',
        FIELD_OPTIONS@.len() == 7 && FIELD_OPTIONS@[0] == 'o' && FIELD_OPTIONS@[1] == 'p'
            && FIELD_OPTIONS@[2] == 't' && FIELD_OPTIONS@[3] == 'i',
        FIELD_OPTIMIZER@.len() == 9 && FIELD_OPTIMIZER@[0] == 'o',
        FIELD_RULES@.len() == 5 && FIELD_RULES@[0] == 'r',
        FIELD_ALL_PLANS@.len() == 8 && FIELD_ALL_PLANS@[0] == 'a',
        FIELD_MAX_NUMBER_OF_PLANS@.len() == 16 && FIELD_MAX_NUMBER_OF_PLANS@[0] == 'm',
        FIELD_COLLECTIONS@.len() == 11 && FIELD_COLLECTIONS@[0] == 'c',
        FIELD_AST@.len() == 3 && FIELD_AST@[0] == 'a',
{
    reveal_strlit("query");
    reveal_strlit("bindVars");
    reveal_strlit("options");
    reveal_strlit("optimizer");
    reveal_strlit("rules");
    reveal_strlit("allPlans");
    reveal_strlit("maxNumberOfPlans");
    reveal_strlit("collections");
    reveal_strlit("ast");
}

/// The request to parse a query text.
#[derive(Debug, PartialEq)]
pub struct NewParseQuery {
    pub query: String,
}

impl NewParseQuery {
    /// The request for the given query text.
    pub fn new(query: String) -> (r: NewParseQuery)
        ensures
            r.query == query,
    {
        NewParseQuery { query }
    }

    /// The query text.
    pub fn query(&self) -> (r: &str)
        ensures
            r@ == self.query@,
    {
        self.query.as_str()
    }

    /// The request body as the remote side reads it.
    pub fn to_json(self) -> (r: Json)
        ensures
            r is Object,
            field(r, FIELD_QUERY@) == Some(Json::Str(self.query)),
    {
        let mut members: Vec<(String, Json)> = Vec::new();
        put(&mut members, FIELD_QUERY, Json::Str(self.query));
        Json::Object(members)
    }
}

/// What parsing a query reports: the collections and bind parameters it
/// names, and its syntax tree as received.
#[derive(Debug, PartialEq)]
pub struct ParsedQuery {
    pub collections: Vec<String>,
    pub bind_vars: Vec<String>,
    pub ast: Vec<Json>,
}

/// `j` has the shape of a parse result.
pub open spec fn is_parsed_shape(j: Json) -> bool {
    &&& j is Object
    &&& field(j, FIELD_COLLECTIONS@) matches Some(Json::Array(cs)) && all_strings(cs@)
    &&& field(j, FIELD_BIND_VARS@) matches Some(Json::Array(bs)) && all_strings(bs@)
    &&& field(j, FIELD_AST@) matches Some(Json::Array(_))
}

/// `q` is what the parse result `j` decodes to.
pub open spec fn is_parsed_of(j: Json, q: ParsedQuery) -> bool {
    &&& field(j, FIELD_COLLECTIONS@) matches Some(Json::Array(cs)) && is_strings_of(
        cs@,
        q.collections@,
    )
    &&& field(j, FIELD_BIND_VARS@) matches Some(Json::Array(bs)) && is_strings_of(
        bs@,
        q.bind_vars@,
    )
    &&& field(j, FIELD_AST@) == Some(Json::Array(q.ast))
}

impl ParsedQuery {
    /// Decodes a parse result.
    pub fn from_json(j: Json) -> (r: Result<ParsedQuery, Error>)
        ensures
            r is Ok <==> is_parsed_shape(j),
            !is_parsed_shape(j) ==> is_decoding_error(r),
            r matches Ok(q) ==> is_parsed_of(j, q),
    {
        proof {
            lemma_aql_keys();
        }
        let mut members = match j {
            Json::Object(m) => m,
            _ => {
                return decoding_error("the parse result is not an object");
            },
        };
        let collections = match take(&mut members, FIELD_COLLECTIONS) {
            Some(Json::Array(items)) => match decode_strings(items) {
                Some(v) => v,
                None => {
                    return decoding_error("a collection name is not a string");
                },
            },
            _ => {
                return decoding_error("the parse result has no collection list");
            },
        };
        let bind_vars = match take(&mut members, FIELD_BIND_VARS) {
            Some(Json::Array(items)) => match decode_strings(items) {
                Some(v) => v,
                None => {
                    return decoding_error("a bind parameter name is not a string");
                },
            },
            _ => {
                return decoding_error("the parse result has no bind parameter list");
            },
        };
        let ast = match take(&mut members, FIELD_AST) {
            Some(Json::Array(items)) => items,
            _ => {
                return decoding_error("the parse result has no syntax tree");
            },
        };
        Ok(ParsedQuery { collections, bind_vars, ast })
    }
}

/// Parses a query without running it.
#[derive(Debug, PartialEq)]
pub struct ParseQuery {
    pub options: NewParseQuery,
}

impl ParseQuery {
    /// The call for the given request.
    pub fn new(options: NewParseQuery) -> (r: ParseQuery)
        ensures
            r.options == options,
    {
        ParseQuery { options }
    }

    /// The call for the given query text.
    pub fn from_query(query: String) -> (r: ParseQuery)
        ensures
            r.options.query == query,
    {
        ParseQuery::new(NewParseQuery::new(query))
    }

    /// The request.
    pub fn options(&self) -> (r: &NewParseQuery)
        ensures
            *r == self.options,
    {
        &self.options
    }

    /// Where the envelope keeps payload and status.
    pub fn return_type(&self) -> (r: RpcReturnType)
        ensures
            r == default_return_type(),
    {
        default_return()
    }

    /// Reads the response to this call.
    pub fn decode_response(&self, envelope: Json) -> (r: Result<ParsedQuery, Error>)
        ensures
            is_method_response(
                envelope,
                r,
                |j: Json| is_parsed_shape(j),
                |j: Json, q: ParsedQuery| is_parsed_of(j, q),
            ),
    {
        proof {
            lemma_envelope_keys();
            lemma_aql_keys();
        }
        let ghost env = envelope;
        let rt = default_return();
        match decode_envelope(&rt, envelope) {
            Ok(payload) => {
                let ghost p = payload;
                let r = ParsedQuery::from_json(payload);
                proof {
                    assert(is_parsed_shape(p) == is_parsed_shape(env));
                    if r is Ok {
                        assert(is_parsed_of(env, r->Ok_0));
                    }
                }
                r
            },
            Err(e) => Err(e),
        }
    }
}

impl Prepare for ParseQuery {
    type Content = NewParseQuery;

    open spec fn spec_operation(&self) -> Operation {
        Operation::Create
    }

    open spec fn spec_path(&self) -> Seq<char> {
        PATH_API_QUERY@
    }

    open spec fn spec_parameters(&self) -> Seq<(String, Json)> {
        Seq::empty()
    }

    open spec fn spec_header(&self) -> Seq<(String, Json)> {
        Seq::empty()
    }

    open spec fn spec_content(&self) -> Option<NewParseQuery> {
        Some(self.options)
    }

    fn operation(&self) -> (r: Operation) {
        Operation::Create
    }

    fn path(&self) -> (r: String) {
        String::from_str(PATH_API_QUERY)
    }

    fn parameters(&self) -> (r: Parameters) {
        Parameters::empty()
    }

    fn header(&self) -> (r: Parameters) {
        Parameters::empty()
    }

    fn content(&self) -> (r: Option<&NewParseQuery>) {
        Some(&self.options)
    }
}

/// How the planner is asked to explain a query.
#[derive(Debug, PartialEq)]
pub struct ExplainOptions {
    /// Whether to report every candidate plan instead of the best one.
    pub all_plans: Option<bool>,
    /// The most plans to report.
    pub max_number_of_plans: Option<u32>,
    pub rules: OptimizerRuleSet,
}

impl ExplainOptions {
    /// The planner's defaults.
    pub fn new() -> (r: ExplainOptions)
        ensures
            r.all_plans is None,
            r.max_number_of_plans is None,
            r.rules.enabled@.len() == 0,
            r.rules.disabled@.len() == 0,
    {
        ExplainOptions { all_plans: None, max_number_of_plans: None, rules: OptimizerRuleSet::new() }
    }
}

/// The request to explain a query.
#[derive(Debug, PartialEq)]
pub struct NewExplainQuery {
    pub query: String,
    pub bind_vars: Vec<(String, Json)>,
    pub options: ExplainOptions,
}

/// `j` is the wire shape of the explain request `e`.
pub open spec fn is_new_explain_wire(e: NewExplainQuery, j: Json) -> bool {
    &&& j is Object
    &&& field(j, FIELD_QUERY@) == Some(Json::Str(e.query))
    &&& field(j, FIELD_BIND_VARS@) == Some(Json::Object(e.bind_vars))
    &&& field(j, FIELD_OPTIONS@) matches Some(o) && {
        &&& is_opt_bool(field(o, FIELD_ALL_PLANS@), e.options.all_plans)
        &&& is_opt_u32(field(o, FIELD_MAX_NUMBER_OF_PLANS@), e.options.max_number_of_plans)
        &&& field(o, FIELD_OPTIMIZER@) matches Some(opt) && field(opt, FIELD_RULES@) matches Some(
            Json::Array(rules),
        ) && is_rules_wire(e.options.rules, rules@)
    }
}

impl NewExplainQuery {
    /// The request for a query with the planner's defaults.
    pub fn with_defaults(query: Query) -> (r: NewExplainQuery)
        ensures
            r.query == query.string,
            r.bind_vars == query.params,
            r.options.all_plans is None,
            r.options.max_number_of_plans is None,
            r.options.rules.enabled@.len() == 0,
            r.options.rules.disabled@.len() == 0,
    {
        NewExplainQuery { query: query.string, bind_vars: query.params, options: ExplainOptions::new() }
    }

    /// The request for a query with the given options.
    pub fn with_options(query: Query, options: ExplainOptions) -> (r: NewExplainQuery)
        ensures
            r.query == query.string,
            r.bind_vars == query.params,
            r.options == options,
    {
        NewExplainQuery { query: query.string, bind_vars: query.params, options }
    }

    /// The request body as the remote side reads it.
    pub fn to_json(self) -> (r: Json)
        ensures
            is_new_explain_wire(self, r),
    {
        proof {
            lemma_aql_keys();
        }
        let rules = self.options.rules.to_wire();
        let mut rule_members: Vec<(String, Json)> = Vec::new();
        put(&mut rule_members, FIELD_RULES, Json::Array(rules));
        let mut options: Vec<(String, Json)> = Vec::new();
        if let Some(a) = self.options.all_plans {
            put(&mut options, FIELD_ALL_PLANS, Json::Bool(a));
        }
        if let Some(m) = self.options.max_number_of_plans {
            put(&mut options, FIELD_MAX_NUMBER_OF_PLANS, from_u32(m));
        }
        put(&mut options, FIELD_OPTIMIZER, Json::Object(rule_members));
        let mut members: Vec<(String, Json)> = Vec::new();
        put(&mut members, FIELD_QUERY, Json::Str(self.query));
        put(&mut members, FIELD_BIND_VARS, Json::Object(self.bind_vars));
        put(&mut members, FIELD_OPTIONS, Json::Object(options));
        Json::Object(members)
    }
}

/// Asks the planner how it would run a query.
#[derive(Debug, PartialEq)]
pub struct ExplainQuery {
    pub query_options: NewExplainQuery,
}

impl ExplainQuery {
    /// The call for the given request.
    pub fn new(query_options: NewExplainQuery) -> (r: ExplainQuery)
        ensures
            r.query_options == query_options,
    {
        ExplainQuery { query_options }
    }

    /// The call for a query with the planner's defaults.
    pub fn with_defaults(query: Query) -> (r: ExplainQuery)
        ensures
            r.query_options.query == query.string,
            r.query_options.bind_vars == query.params,
            r.query_options.options.all_plans is None,
            r.query_options.options.max_number_of_plans is None,
            r.query_options.options.rules.enabled@.len() == 0,
            r.query_options.options.rules.disabled@.len() == 0,
    {
        ExplainQuery::new(NewExplainQuery::with_defaults(query))
    }

    /// The call for a query with the given options.
    pub fn with_options(query: Query, options: ExplainOptions) -> (r: ExplainQuery)
        ensures
            r.query_options.query == query.string,
            r.query_options.bind_vars == query.params,
            r.query_options.options == options,
    {
        ExplainQuery::new(NewExplainQuery::with_options(query, options))
    }

    /// The request.
    pub fn query_options(&self) -> (r: &NewExplainQuery)
        ensures
            *r == self.query_options,
    {
        &self.query_options
    }

    /// Where the envelope keeps payload and status.
    pub fn return_type(&self) -> (r: RpcReturnType)
        ensures
            r == default_return_type(),
    {
        default_return()
    }

    /// Reads the response to this call.
    pub fn decode_response(&self, envelope: Json) -> (r: Result<ExplainedQuery, Error>)
        ensures
            is_method_response(
                envelope,
                r,
                |j: Json| is_explain_shape(j),
                |j: Json, q: ExplainedQuery| is_explained_of(j, q),
            ),
    {
        proof {
            lemma_envelope_keys();
            lemma_plan_keys();
        }
        let ghost env = envelope;
        let rt = default_return();
        match decode_envelope(&rt, envelope) {
            Ok(payload) => {
                let ghost p = payload;
                let r = ExplainedQuery::from_json(payload);
                proof {
                    assert(is_explain_shape(p) == is_explain_shape(env));
                    if r is Ok {
                        assert(is_explained_of(env, r->Ok_0));
                    }
                }
                r
            },
            Err(e) => Err(e),
        }
    }
}

impl Prepare for ExplainQuery {
    type Content = NewExplainQuery;

    open spec fn spec_operation(&self) -> Operation {
        Operation::Create
    }

    open spec fn spec_path(&self) -> Seq<char> {
        PATH_API_EXPLAIN@
    }

    open spec fn spec_parameters(&self) -> Seq<(String, Json)> {
        Seq::empty()
    }

    open spec fn spec_header(&self) -> Seq<(String, Json)> {
        Seq::empty()
    }

    open spec fn spec_content(&self) -> Option<NewExplainQuery> {
        Some(self.query_options)
    }

    fn operation(&self) -> (r: Operation) {
        Operation::Create
    }

    fn path(&self) -> (r: String) {
        String::from_str(PATH_API_EXPLAIN)
    }

    fn parameters(&self) -> (r: Parameters) {
        Parameters::empty()
    }

    fn header(&self) -> (r: Parameters) {
        Parameters::empty()
    }

    fn content(&self) -> (r: Option<&NewExplainQuery>) {
        Some(&self.query_options)
    }
}

} // verus!
