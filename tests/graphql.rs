use nnmbackend::query::{GraphQLAction, GraphQLQuery};
use nnmbackend::selection::{add_tabs_to_lines, CartAPIRepresentation, GraphQLRepresentable, UserError};
use nnmbackend::value::ShopifyGraphQLType;

fn s(t: &str) -> String {
    t.to_string()
}

fn record(fields: Vec<(&str, ShopifyGraphQLType)>) -> ShopifyGraphQLType {
    ShopifyGraphQLType::Object(fields.into_iter().map(|(k, v)| (s(k), v)).collect())
}

fn sample_values() -> Vec<ShopifyGraphQLType> {
    vec![
        ShopifyGraphQLType::ID(s("gid://shopify/Cart/1")),
        ShopifyGraphQLType::String(s("say \"hi\"\n\tback\\slash\u{7}é")),
        ShopifyGraphQLType::Boolean(true),
        ShopifyGraphQLType::Boolean(false),
        ShopifyGraphQLType::Int(0),
        ShopifyGraphQLType::Int(-42),
        ShopifyGraphQLType::Int(i64::MIN),
        ShopifyGraphQLType::Int(i64::MAX),
        ShopifyGraphQLType::Float(s("19.99")),
        ShopifyGraphQLType::Json(s("{\"a\": [1, 2]}")),
        ShopifyGraphQLType::Array(vec![]),
        ShopifyGraphQLType::Array(vec![ShopifyGraphQLType::Int(1), ShopifyGraphQLType::String(s("x"))]),
        record(vec![]),
        record(vec![("a", ShopifyGraphQLType::Int(1)), ("b", ShopifyGraphQLType::Array(vec![]))]),
        ShopifyGraphQLType::Custom(
            s("CartLineInput"),
            Box::new(record(vec![("quantity", ShopifyGraphQLType::Int(3))])),
        ),
    ]
}

#[test]
fn literal_renderings() {
    assert_eq!(ShopifyGraphQLType::ID(s("123")).to_value_string(), "\"123\"");
    assert_eq!(ShopifyGraphQLType::String(s("a\"b")).to_value_string(), "\"a\\\"b\"");
    assert_eq!(ShopifyGraphQLType::Boolean(true).to_value_string(), "true");
    assert_eq!(ShopifyGraphQLType::Int(-42).to_value_string(), "-42");
    assert_eq!(ShopifyGraphQLType::Int(i64::MIN).to_value_string(), "-9223372036854775808");
    assert_eq!(ShopifyGraphQLType::Int(1234567).to_value_string(), "1234567");
    assert_eq!(ShopifyGraphQLType::Float(s("2.5")).to_value_string(), "2.5");
    assert_eq!(ShopifyGraphQLType::Json(s("{\"k\": 1}")).to_value_string(), "{\"k\": 1}");
    assert_eq!(ShopifyGraphQLType::Array(vec![]).to_value_string(), "[]");
    assert_eq!(
        ShopifyGraphQLType::Array(vec![ShopifyGraphQLType::Int(1), ShopifyGraphQLType::Boolean(false)])
            .to_value_string(),
        "[1, false]"
    );
    assert_eq!(
        record(vec![("k1", ShopifyGraphQLType::Int(1)), ("k2", ShopifyGraphQLType::String(s("v")))])
            .to_value_string(),
        "{\"k1\": 1, \"k2\": \"v\"}"
    );
    assert_eq!(record(vec![]).to_value_string(), "{}");
}

#[test]
fn control_characters_are_escaped() {
    let v = ShopifyGraphQLType::String(s("a\u{1}b\u{1f}c\td"));
    assert_eq!(v.to_value_string(), "\"a\\u0001b\\u001fc\\td\"");
    let parsed: serde_json::Value = serde_json::from_str(&v.to_value_string()).unwrap();
    assert_eq!(parsed, "a\u{1}b\u{1f}c\td");
}

#[test]
fn literal_is_json_and_matches_payload_member() {
    for v in sample_values() {
        let lit = v.to_value_string();
        let parsed: serde_json::Value = serde_json::from_str(&lit).unwrap();
        // Wrapped in an array the value is not a top-level variable, so the
        // payload renders it exactly as its literal.
        let mut q = GraphQLQuery::query(UserError { field: s(""), message: s("") });
        q.add_variable(s("v"), ShopifyGraphQLType::Array(vec![v.duplicate()]));
        let vars: serde_json::Value = serde_json::from_str(&q.get_fmt_variables()).unwrap();
        assert_eq!(vars["v"][0], parsed);
        match v {
            ShopifyGraphQLType::Object(_) => {}
            _ => {
                let mut top = GraphQLQuery::query(UserError { field: s(""), message: s("") });
                top.add_variable(s("v"), v.duplicate());
                let vars: serde_json::Value = serde_json::from_str(&top.get_fmt_variables()).unwrap();
                assert_eq!(vars["v"], parsed);
            }
        }
    }
}

#[test]
fn record_variables_are_flattened() {
    let mut q = GraphQLQuery::query(UserError { field: s(""), message: s("") });
    q.add_variable(s("input"), record(vec![("a", ShopifyGraphQLType::Int(1)), ("b", ShopifyGraphQLType::String(s("x")))]));
    q.add_variable(s("n"), ShopifyGraphQLType::Int(2));
    assert_eq!(q.get_fmt_variables(), "{\"a\": 1, \"b\": \"x\", \"n\": 2}");
    let mut empty = GraphQLQuery::query(UserError { field: s(""), message: s("") });
    empty.add_variable(s("input"), record(vec![]));
    empty.add_variable(s("n"), ShopifyGraphQLType::Int(2));
    assert_eq!(empty.get_fmt_variables(), "{\"n\": 2}");
}

#[test]
fn signatures() {
    assert_eq!(ShopifyGraphQLType::ID(s("anything")).to_string(), "ID!");
    assert_eq!(ShopifyGraphQLType::ID(s("")).to_string(), "ID!");
    assert_eq!(ShopifyGraphQLType::Array(vec![]).to_string(), "[]!");
    assert_eq!(ShopifyGraphQLType::String(s("x")).to_string(), "String!");
    assert_eq!(ShopifyGraphQLType::Boolean(true).to_string(), "Boolean!");
    assert_eq!(ShopifyGraphQLType::Int(1).to_string(), "Int!");
    assert_eq!(ShopifyGraphQLType::Float(s("1.0")).to_string(), "Float!");
    assert_eq!(ShopifyGraphQLType::Json(s("1")).to_string(), "JSON!");
    assert_eq!(
        ShopifyGraphQLType::Array(vec![ShopifyGraphQLType::ID(s("a")), ShopifyGraphQLType::Int(1)]).to_string(),
        "[ID!]!"
    );
    assert_eq!(
        record(vec![("a", ShopifyGraphQLType::Int(1)), ("b", ShopifyGraphQLType::ID(s("x")))]).to_string(),
        "{a: Int!, b: ID!}"
    );
}

#[test]
fn named_values() {
    for v in sample_values() {
        let named = ShopifyGraphQLType::Custom(s("CartLineUpdateInput"), Box::new(v.duplicate()));
        assert_eq!(named.to_string(), "CartLineUpdateInput!");
        assert_eq!(named.to_value_string(), v.to_value_string());
    }
}

#[test]
fn to_object_wraps_or_keeps() {
    let r = record(vec![("a", ShopifyGraphQLType::Int(1))]).to_object("key");
    assert_eq!(r.len(), 1);
    assert_eq!(r[0].0, "a");
    let w = ShopifyGraphQLType::ID(s("x")).to_object("key");
    assert_eq!(w.len(), 1);
    assert_eq!(w[0].0, "key");
    assert_eq!(w[0].1.to_value_string(), "\"x\"");
}

#[test]
fn add_variable_overwrites() {
    let mut q = GraphQLQuery::query(UserError { field: s(""), message: s("") });
    q.add_variable(s("a"), ShopifyGraphQLType::Int(1));
    q.add_variable(s("b"), ShopifyGraphQLType::Int(2));
    q.add_variable(s("a"), ShopifyGraphQLType::Int(3));
    assert_eq!(q.variables.len(), 2);
    assert_eq!(q.get_fmt_variables(), "{\"a\": 3, \"b\": 2}");
}

#[test]
fn new_keeps_last_binding() {
    let q = GraphQLQuery::new(
        GraphQLAction::Query,
        UserError { field: s(""), message: s("") },
        vec![(s("a"), ShopifyGraphQLType::Int(1)), (s("b"), ShopifyGraphQLType::Int(2)), (s("a"), ShopifyGraphQLType::Int(3))],
    );
    assert_eq!(q.variables.len(), 2);
    assert_eq!(q.get_fmt_variables(), "{\"a\": 3, \"b\": 2}");
}

#[test]
fn query_document() {
    let mut q = GraphQLQuery::query(UserError { field: s(""), message: s("") });
    assert_eq!(q.query_to_graphql(&vec![]).unwrap(), "query {\n{ field\nmessage }\n}");
    q.add_variable(s("id"), ShopifyGraphQLType::ID(s("1")));
    assert_eq!(q.query_to_graphql(&vec![]).unwrap(), "query ($id: ID!) {\n{ field\nmessage }\n}");
    assert!(q.mutation_to_graphql().is_none());
    assert_eq!(q.label(), "userError");
}

#[test]
fn mutation_documents() {
    let mut m = GraphQLQuery::mutation(UserError { field: s(""), message: s("") }, Some(s("doIt")));
    assert!(m.query_to_graphql(&vec![]).is_none());
    assert_eq!(m.mutation_to_graphql().unwrap(), "mutation {\n doIt {\n{ field\nmessage }\n}\n}");
    m.add_variable(s("x"), ShopifyGraphQLType::Int(1));
    assert_eq!(
        m.mutation_to_graphql().unwrap(),
        "mutation ($x: Int!) {\n doIt(x: $x) {\n{ field\nmessage }\n}\n}"
    );
    assert_eq!(m.label(), "doIt");
    let mut anon = GraphQLQuery::mutation(UserError { field: s(""), message: s("") }, None);
    anon.add_variable(s("x"), ShopifyGraphQLType::Int(1));
    assert_eq!(
        anon.mutation_to_graphql().unwrap(),
        "mutation ($x: Int!) {\n(x: $x) {\n{ field\nmessage }\n}\n}"
    );
    assert_eq!(anon.label(), "mutation");
    let explicit = GraphQLQuery::new(GraphQLAction::Query, UserError { field: s(""), message: s("") }, vec![]);
    assert_eq!(explicit.to_graphql(&vec![]), "query {\n{ field\nmessage }\n}");
}

#[test]
fn root_label_variable_supplies_arguments() {
    let mut q = GraphQLQuery::query(CartAPIRepresentation::default());
    q.add_variable(s("cart"), ShopifyGraphQLType::ID(s("c1")));
    let doc = q.query_to_graphql(&vec![]).unwrap();
    assert!(doc.starts_with("query ($cart: ID!) {\ncart(cart: $cart) {\n\tid\n\tcheckoutUrl\n"));
}

#[test]
fn payload_is_json() {
    let mut q = GraphQLQuery::query(CartAPIRepresentation::default());
    q.add_variable(s("id"), ShopifyGraphQLType::ID(s("gid://shopify/Cart/q\"1")));
    let payload = q.to_payload();
    let parsed: serde_json::Value = serde_json::from_str(&payload).unwrap();
    assert_eq!(parsed["query"].as_str().unwrap(), q.query_to_graphql(&q.variables).unwrap());
    assert_eq!(parsed["variables"]["id"], "gid://shopify/Cart/q\"1");
}

#[test]
fn tabs_before_lines() {
    assert_eq!(add_tabs_to_lines("a\nb", 1), "\ta\n\tb\n");
    assert_eq!(add_tabs_to_lines("a\r\nb\n", 2), "\t\ta\n\t\tb\n");
    assert_eq!(add_tabs_to_lines("", 3), "");
    assert_eq!(add_tabs_to_lines("\n", 1), "\t\n");
    assert_eq!(add_tabs_to_lines("x", 0), "x\n");
}
