use rincon_client::error::{Error, MethodError};
use rincon_client::json::{get, take, Json, Number};
use rincon_client::method::{decode_envelope, Parameters, RpcReturnType};
use rincon_client::query::{OptimizerRule, OptimizerRuleSet, Query};

fn text(s: &str) -> Json {
    Json::Str(s.to_string())
}

fn num(n: i64) -> Json {
    Json::Number(Number::Int(n))
}

fn object(members: Vec<(&str, Json)>) -> Json {
    Json::Object(members.into_iter().map(|(k, v)| (k.to_string(), v)).collect())
}

const WHOLE: RpcReturnType = RpcReturnType { result_field: None, code_field: Some("code") };

#[test]
fn success_payload_is_the_envelope_without_status_members() {
    let env = object(vec![("error", Json::Bool(false)), ("code", num(200)), ("name", text("x"))]);
    assert_eq!(Ok(object(vec![("name", text("x"))])), decode_envelope(&WHOLE, env));
}

#[test]
fn result_field_selects_the_payload() {
    let rt = RpcReturnType { result_field: Some("result"), code_field: Some("code") };
    let env = object(vec![("result", Json::Array(vec![num(1)])), ("code", num(200))]);
    assert_eq!(Ok(Json::Array(vec![num(1)])), decode_envelope(&rt, env));
    let env = object(vec![("code", num(200))]);
    assert!(matches!(decode_envelope(&rt, env), Err(Error::Deserialization(_))));
}

#[test]
fn error_status_gives_the_remote_failure_verbatim() {
    let env = object(vec![
        ("error", Json::Bool(true)),
        ("code", num(404)),
        ("errorNum", num(4242)),
        ("errorMessage", text("no such thing")),
    ]);
    assert_eq!(
        Err(Error::Method(MethodError::new(404, 4242, "no such thing".to_string()))),
        decode_envelope(&WHOLE, env)
    );
}

#[test]
fn malformed_envelopes_are_decoding_errors() {
    assert!(matches!(decode_envelope(&WHOLE, Json::Null), Err(Error::Deserialization(_))));
    let no_code = object(vec![("name", text("x"))]);
    assert!(matches!(decode_envelope(&WHOLE, no_code), Err(Error::Deserialization(_))));
    let bad_code = object(vec![("code", text("200"))]);
    assert!(matches!(decode_envelope(&WHOLE, bad_code), Err(Error::Deserialization(_))));
    let failure_without_message = object(vec![("code", num(500)), ("errorNum", num(4))]);
    assert!(matches!(decode_envelope(&WHOLE, failure_without_message), Err(Error::Deserialization(_))));
}

#[test]
fn envelope_without_code_field_is_a_success() {
    let rt = RpcReturnType { result_field: None, code_field: None };
    let env = object(vec![("error", Json::Bool(false)), ("version", text("3.2.11"))]);
    assert_eq!(Ok(object(vec![("version", text("3.2.11"))])), decode_envelope(&rt, env));
}

#[test]
fn method_error_accessors() {
    let e = MethodError::new(400, 1501, "syntax error".to_string());
    assert_eq!(400, e.status_code());
    assert_eq!(1501, e.error_code());
    assert_eq!("syntax error", e.message());
}

#[test]
fn query_parameters_are_replaced_by_name() {
    let mut q = Query::new("FOR c IN x FILTER c.age <= @age RETURN c".to_string());
    q.set_parameter("age".to_string(), num(30));
    q.set_parameter("name".to_string(), text("Jane"));
    q.set_parameter("age".to_string(), num(37));
    assert_eq!(Some(&num(37)), q.parameter("age"));
    assert_eq!(Some(&text("Jane")), q.parameter("name"));
    assert_eq!(None, q.parameter("city"));
    assert_eq!(2, q.params.len());
    assert_eq!("FOR c IN x FILTER c.age <= @age RETURN c", q.str());
}

#[test]
fn parameters_keep_insertion_order() {
    let mut p = Parameters::new();
    assert!(p.is_empty());
    p.insert("b".to_string(), num(1));
    p.insert("a".to_string(), num(2));
    assert_eq!(2, p.len());
    assert_eq!("b", p.pairs()[0].0);
    assert!(Parameters::empty().is_empty());
}

#[test]
fn rule_filter_lists_exclusions_then_inclusions() {
    let mut rules = OptimizerRuleSet::new();
    rules.disable(OptimizerRule::All);
    rules.enable(OptimizerRule::Named("interchange-adjacent-enumerations".to_string()));
    rules.enable(OptimizerRule::Named("inline-subqueries".to_string()));
    rules.enable(OptimizerRule::Named("move-filters-up".to_string()));
    rules.disable(OptimizerRule::Named("propagate-constant-attributes".to_string()));
    assert_eq!(
        vec![
            text("-all"),
            text("-propagate-constant-attributes"),
            text("+interchange-adjacent-enumerations"),
            text("+inline-subqueries"),
            text("+move-filters-up"),
        ],
        rules.to_wire()
    );
}

#[test]
fn members_are_found_and_taken_by_name() {
    let mut members = vec![("a".to_string(), num(1)), ("b".to_string(), num(2)), ("a".to_string(), num(3))];
    assert_eq!(Some(&num(1)), get(&members, "a"));
    assert_eq!(Some(num(1)), take(&mut members, "a"));
    assert_eq!(Some(&num(3)), get(&members, "a"));
    assert_eq!(None, take(&mut members, "c"));
    assert_eq!(2, members.len());
}

#[test]
fn deep_copy_is_equal() {
    let j = object(vec![("a", Json::Array(vec![num(1), text("x"), Json::Null])), ("b", Json::Bool(true))]);
    assert_eq!(j, j.clone());
}
