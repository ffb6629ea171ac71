use rincon_client::aql::{ExplainOptions, ExplainQuery, NewParseQuery, ParseQuery, ParsedQuery};
use rincon_client::error::Error;
use rincon_client::json::{Json, Number};
use rincon_client::method::{Operation, Prepare};
use rincon_client::plan::{
    ExecutionNode, ExecutionNodeKind, ExecutionStats, ExplainedPlans, ExplainedQuery,
};
use rincon_client::query::{OptimizerRule, Query};

fn text(s: &str) -> Json {
    Json::Str(s.to_string())
}

fn num(n: i64) -> Json {
    Json::Number(Number::Int(n))
}

fn decimal(s: &str) -> Json {
    Json::Number(Number::Decimal(s.to_string()))
}

fn object(members: Vec<(&str, Json)>) -> Json {
    Json::Object(members.into_iter().map(|(k, v)| (k.to_string(), v)).collect())
}

fn member<'a>(j: &'a Json, key: &str) -> Option<&'a Json> {
    match j {
        Json::Object(m) => m.iter().find(|(k, _)| k == key).map(|(_, v)| v),
        _ => None,
    }
}

fn node(kind: &str, id: i64, deps: Vec<i64>, cost: Json, items: i64, extra: Vec<(&str, Json)>) -> Json {
    let mut members = vec![
        ("type", text(kind)),
        ("id", num(id)),
        ("dependencies", Json::Array(deps.into_iter().map(num).collect())),
        ("estimatedCost", cost),
        ("estimatedNrItems", num(items)),
    ];
    members.extend(extra);
    object(members)
}

fn variable(id: i64, name: &str) -> Json {
    object(vec![("id", num(id)), ("name", text(name))])
}

fn plan_of_customers(node_kind_of_last: &str) -> Json {
    object(vec![
        (
            "nodes",
            Json::Array(vec![
                node("SingletonNode", 1, vec![], num(1), 1, vec![]),
                node(
                    "EnumerateCollectionNode",
                    2,
                    vec![1],
                    num(23),
                    21,
                    vec![
                        ("database", text("test")),
                        ("collection", text("aql_customers03")),
                        ("outVariable", variable(0, "c")),
                        ("random", Json::Bool(false)),
                    ],
                ),
                node(node_kind_of_last, 3, vec![2], num(44), 21, vec![("inVariable", variable(0, "c"))]),
            ]),
        ),
        ("rules", Json::Array(vec![])),
        ("collections", Json::Array(vec![object(vec![("name", text("aql_customers03")), ("type", text("read"))])])),
        ("variables", Json::Array(vec![variable(0, "c")])),
        ("estimatedCost", num(44)),
        ("estimatedNrItems", num(21)),
    ])
}

fn stats() -> Json {
    object(vec![("rulesExecuted", num(29)), ("rulesSkipped", num(0)), ("plansCreated", num(1))])
}

fn envelope(mut members: Vec<(&str, Json)>) -> Json {
    members.push(("error", Json::Bool(false)));
    members.push(("code", num(200)));
    object(members)
}

#[test]
fn explain_best_plan_decodes_every_node() {
    let env = envelope(vec![
        ("plan", plan_of_customers("ReturnNode")),
        ("warnings", Json::Array(vec![])),
        ("stats", stats()),
        ("cacheable", Json::Bool(true)),
    ]);
    let method = ExplainQuery::with_defaults(Query::new("FOR c IN aql_customers03 RETURN c".to_string()));
    let explained = method.decode_response(env).unwrap();
    assert_eq!(ExecutionStats { rules_executed: 29, rules_skipped: 0, plans_created: 1 }, explained.stats);
    assert!(explained.cacheable);
    let plan = match &explained.plans {
        ExplainedPlans::Best(p) => p,
        other => panic!("the best plan expected but got {:?}", other),
    };
    let kinds: Vec<ExecutionNodeKind> = plan.nodes.iter().map(|n| n.kind).collect();
    assert_eq!(
        vec![ExecutionNodeKind::Singleton, ExecutionNodeKind::EnumerateCollection, ExecutionNodeKind::Return],
        kinds
    );
    assert_eq!(vec![1u64], plan.nodes[1].dependencies);
    assert_eq!(Number::Int(44), plan.nodes[2].estimated_cost);
    assert_eq!(21, plan.nodes[2].estimated_nr_items);
    let details = &plan.nodes[1].details;
    assert_eq!(4, details.len());
    assert!(details.contains(&("collection".to_string(), text("aql_customers03"))));
    assert_eq!("read", plan.collections[0].kind);
    assert_eq!("c", plan.variables[0].name);
    assert_eq!(3, plan.nodes[2].id);
}

#[test]
fn explain_candidate_plans() {
    let env = envelope(vec![
        ("plans", Json::Array(vec![plan_of_customers("ReturnNode"), plan_of_customers("ReturnNode")])),
        ("stats", stats()),
    ]);
    let explained = ExplainedQuery::from_json(env).unwrap();
    match explained.plans {
        ExplainedPlans::Candidates(v) => assert_eq!(2, v.len()),
        other => panic!("candidate plans expected but got {:?}", other),
    }
    assert!(!explained.cacheable);
    assert!(explained.warnings.is_empty());
}

#[test]
fn explain_without_plan_is_a_decoding_error() {
    let env = envelope(vec![("stats", stats()), ("cacheable", Json::Bool(true))]);
    let method = ExplainQuery::new(rincon_client::aql::NewExplainQuery::with_defaults(Query::new("RETURN 1".to_string())));
    assert!(matches!(method.decode_response(env), Err(Error::Deserialization(_))));
}

#[test]
fn explain_with_plan_and_plans_is_a_decoding_error() {
    let env = envelope(vec![
        ("plan", plan_of_customers("ReturnNode")),
        ("plans", Json::Array(vec![plan_of_customers("ReturnNode")])),
        ("stats", stats()),
    ]);
    assert!(matches!(ExplainedQuery::from_json(env), Err(Error::Deserialization(_))));
}

#[test]
fn unknown_node_kind_fails_the_whole_explanation() {
    let env = envelope(vec![("plan", plan_of_customers("TeleportNode")), ("stats", stats())]);
    assert!(matches!(ExplainedQuery::from_json(env), Err(Error::Deserialization(_))));
    let env = envelope(vec![
        ("plans", Json::Array(vec![plan_of_customers("ReturnNode"), plan_of_customers("TeleportNode")])),
        ("stats", stats()),
    ]);
    assert!(matches!(ExplainedQuery::from_json(env), Err(Error::Deserialization(_))));
}

#[test]
fn node_with_decimal_cost_keeps_its_text() {
    let n = ExecutionNode::from_json(node("FilterNode", 4, vec![3], decimal("23.5"), 5, vec![])).unwrap();
    assert_eq!(ExecutionNodeKind::Filter, n.kind);
    assert_eq!(Number::Decimal("23.5".to_string()), n.estimated_cost);
    assert!(n.details.is_empty());
    let bad = node("FilterNode", 4, vec![-3], num(1), 5, vec![]);
    assert!(matches!(ExecutionNode::from_json(bad), Err(Error::Deserialization(_))));
}

#[test]
fn every_known_node_kind_is_recognised() {
    let kinds = [
        ("SingletonNode", ExecutionNodeKind::Singleton),
        ("EnumerateCollectionNode", ExecutionNodeKind::EnumerateCollection),
        ("EnumerateListNode", ExecutionNodeKind::EnumerateList),
        ("IndexNode", ExecutionNodeKind::Index),
        ("CalculationNode", ExecutionNodeKind::Calculation),
        ("FilterNode", ExecutionNodeKind::Filter),
        ("LimitNode", ExecutionNodeKind::Limit),
        ("SortNode", ExecutionNodeKind::Sort),
        ("CollectNode", ExecutionNodeKind::Collect),
        ("ReturnNode", ExecutionNodeKind::Return),
        ("InsertNode", ExecutionNodeKind::Insert),
        ("RemoveNode", ExecutionNodeKind::Remove),
        ("UpdateNode", ExecutionNodeKind::Update),
        ("ReplaceNode", ExecutionNodeKind::Replace),
        ("UpsertNode", ExecutionNodeKind::Upsert),
        ("SubqueryNode", ExecutionNodeKind::Subquery),
        ("NoResultsNode", ExecutionNodeKind::NoResults),
    ];
    for (name, kind) in kinds {
        let n = ExecutionNode::from_json(node(name, 1, vec![], num(1), 1, vec![])).unwrap();
        assert_eq!(kind, n.kind);
    }
}

#[test]
fn parse_query_decodes_collections_and_bind_parameters() {
    let env = envelope(vec![
        ("collections", Json::Array(vec![text("aql_customers01")])),
        ("bindVars", Json::Array(vec![text("age")])),
        ("ast", Json::Array(vec![object(vec![("type", text("root"))])])),
        ("parsed", Json::Bool(true)),
    ]);
    let method = ParseQuery::from_query("FOR c IN aql_customers01 FILTER c.age <= @age RETURN c.name".to_string());
    let parsed: ParsedQuery = method.decode_response(env).unwrap();
    assert_eq!(vec!["aql_customers01".to_string()], parsed.collections);
    assert_eq!(vec!["age".to_string()], parsed.bind_vars);
    assert_eq!(1, parsed.ast.len());
}

#[test]
fn parse_invalid_query_reports_the_remote_failure() {
    let env = object(vec![
        ("error", Json::Bool(true)),
        ("code", num(400)),
        ("errorNum", num(1501)),
        ("errorMessage", text("syntax error, unexpected assignment near '= @age LIMIT 2 SORT c.name RETUR...' at position 1:39")),
    ]);
    let method = ParseQuery::new(NewParseQuery::new("FOR c IN aql_customers02 FILTER c.age = @age".to_string()));
    match method.decode_response(env) {
        Err(Error::Method(error)) => {
            assert_eq!(400, error.status_code());
            assert_eq!(1501, error.error_code());
            assert_eq!(
                "syntax error, unexpected assignment near '= @age LIMIT 2 SORT c.name RETUR...' at position 1:39",
                error.message()
            );
        },
        other => panic!("Error::Method expected but got {:?}", other),
    }
}

#[test]
fn aql_methods_describe_their_calls() {
    let parse = ParseQuery::from_query("RETURN 1".to_string());
    assert_eq!(Operation::Create, parse.operation());
    assert_eq!("/_api/query", parse.path());
    assert_eq!("RETURN 1", parse.content().unwrap().query());
    assert_eq!("RETURN 1", parse.options().query());

    let mut options = ExplainOptions::new();
    options.all_plans = Some(true);
    options.max_number_of_plans = Some(2);
    options.rules.disable(OptimizerRule::All);
    options.rules.enable(OptimizerRule::Named("use-indexes".to_string()));
    let explain = ExplainQuery::with_options(Query::new("RETURN 2".to_string()), options);
    assert_eq!(Operation::Create, explain.operation());
    assert_eq!("/_api/explain", explain.path());
    assert_eq!("RETURN 2", explain.query_options().query);
    assert!(explain.content().is_some());
}

#[test]
fn explain_request_wire_shape() {
    let mut options = ExplainOptions::new();
    options.all_plans = Some(true);
    options.max_number_of_plans = Some(2);
    options.rules.disable(OptimizerRule::All);
    options.rules.enable(OptimizerRule::Named("use-indexes".to_string()));
    options.rules.enable(OptimizerRule::Named("use-index-for-sort".to_string()));
    let method = ExplainQuery::with_options(Query::new("RETURN 2".to_string()), options);
    let j = method.query_options.to_json();
    assert_eq!(Some(&text("RETURN 2")), member(&j, "query"));
    let o = member(&j, "options").unwrap();
    assert_eq!(Some(&Json::Bool(true)), member(o, "allPlans"));
    assert_eq!(Some(&num(2)), member(o, "maxNumberOfPlans"));
    let rules = member(member(o, "optimizer").unwrap(), "rules").unwrap();
    assert_eq!(&Json::Array(vec![text("-all"), text("+use-indexes"), text("+use-index-for-sort")]), rules);
}

fn expression(kind: &str, extra: Vec<(&str, Json)>, subs: Vec<Json>) -> Json {
    let mut members = vec![("type", text(kind))];
    members.extend(extra);
    if !subs.is_empty() {
        members.push(("subNodes", Json::Array(subs)));
    }
    object(members)
}

#[test]
fn calculation_node_decodes_its_expression_tree() {
    let tree = expression(
        "compare <=",
        vec![("typeID", num(29))],
        vec![
            expression(
                "attribute access",
                vec![("name", text("age"))],
                vec![expression("reference", vec![("name", text("c")), ("id", num(0))], vec![])],
            ),
            expression("parameter", vec![("name", text("age"))], vec![]),
        ],
    );
    let j = node("CalculationNode", 3, vec![2], num(44), 21, vec![("expression", tree), ("canThrow", Json::Bool(false))]);
    let n = ExecutionNode::from_json(j).unwrap();
    let e = n.expression.unwrap();
    assert_eq!("compare <=", e.kind);
    assert_eq!(2, e.sub_nodes.len());
    assert_eq!(vec![("typeID".to_string(), num(29))], e.details);
    let access = &e.sub_nodes[0];
    assert_eq!("attribute access", access.kind);
    assert_eq!(Some("age".to_string()), access.name);
    let reference = &access.sub_nodes[0];
    assert_eq!(Some(0), reference.id);
    assert_eq!(Some("c".to_string()), reference.name);
    assert_eq!("parameter", e.sub_nodes[1].kind);
    assert_eq!(vec![("canThrow".to_string(), Json::Bool(false))], n.details);
}

#[test]
fn malformed_operand_fails_the_whole_node() {
    let tree = expression(
        "n-ary or",
        vec![],
        vec![expression("n-ary and", vec![], vec![object(vec![("name", text("no type"))])])],
    );
    let j = node("FilterNode", 3, vec![2], num(1), 1, vec![("expression", tree)]);
    assert!(matches!(ExecutionNode::from_json(j), Err(Error::Deserialization(_))));
    let value = expression("value", vec![("value", text("Jane Doe"))], vec![]);
    let n = ExecutionNode::from_json(node("CalculationNode", 1, vec![], num(1), 1, vec![("expression", value)])).unwrap();
    assert_eq!(Some(text("Jane Doe")), n.expression.unwrap().value);
}
