use nnmbackend::cart::{
    add_item_mutation, add_items_mutation, create_cart_mutation, create_shopify_line_entry,
    create_shopify_update_entry, get_cart_query, remove_item_mutation, update_item_mutation,
    CartItemPayload, ItemPayload, MultiItemPayload,
};
use nnmbackend::responses::{
    add_items_outcome, after_cart_created, cart_id_from_gid, create_cart_outcome, get_cart_outcome,
    remove_item_outcome, update_item_outcome, AddItemAPIResponse, AddItemResponse,
    CartCreateAPIResponse, CartCreateResponse, CartGetAPIResponse, CartOutcome, CheckoutStep,
    FullAddItemResponse, FullCartCreateResponse, FullCartGetResponse, FullRemoveItemResponse,
    FullUpdateItemResponse, RemoveItemAPIResponse, RemoveItemResponse, UpdateItemAPIResponse,
    UpdateItemResponse,
};
use nnmbackend::selection::{CartAPIRepresentation, GraphQLError, GraphQLRepresentable, UserError};

fn s(t: &str) -> String {
    t.to_string()
}

fn item(id: &str, qty: u32) -> ItemPayload {
    ItemPayload {
        product_id: s(id),
        title: s("Issue"),
        handle: s("issue"),
        description: s("A magazine issue"),
        price: s("12.5"),
        currency: s("USD"),
        quantity: qty,
    }
}

fn json(t: &str) -> serde_json::Value {
    serde_json::from_str(t).unwrap()
}

fn cart_with_id(id: &str) -> CartAPIRepresentation {
    let mut c = CartAPIRepresentation::default();
    c.id = s(id);
    c
}

fn user_error() -> UserError {
    UserError { field: s("lines"), message: s("Merchandise does not exist") }
}

#[test]
fn create_cart_payload() {
    let q = create_cart_mutation();
    let payload = q.to_payload();
    let parsed = json(&payload);
    let doc = parsed["query"].as_str().unwrap().to_string();
    assert!(doc.starts_with("mutation {\n cartCreate {\ncart {\n\tid\n\tcheckoutUrl\n"));
    for field in [
        "checkoutChargeAmount",
        "subtotalAmount",
        "subtotalAmountEstimated",
        "totalAmount",
        "totalAmountEstimated",
        "totalDutyAmount",
        "totalDutyAmountEstimated",
        "totalTaxAmount",
        "totalTaxAmountEstimated",
        "totalQuantity",
        "currencyCode",
    ] {
        assert!(doc.contains(field), "missing {}", field);
    }
    assert_eq!(parsed["variables"], json("{}"));
    assert!(payload.ends_with("\"variables\": {}}"));
    assert_eq!(q.label(), "cartCreate");
}

#[test]
fn add_items_payload() {
    let payload = MultiItemPayload { items: vec![item("gid://shopify/ProductVariant/1", 3)] };
    let q = add_items_mutation("abc", &payload);
    let parsed = json(&q.to_payload());
    assert_eq!(parsed["variables"]["cartId"], "gid://shopify/Cart/abc");
    let lines = parsed["variables"]["lines"].as_array().unwrap();
    assert_eq!(lines.len(), 1);
    assert_eq!(lines[0]["merchandiseId"], "gid://shopify/ProductVariant/1");
    assert_eq!(lines[0]["quantity"], 3);
    let doc = parsed["query"].as_str().unwrap();
    assert!(doc.starts_with("mutation ($cartId: ID!, $lines: [CartLineInput!]!) {\n cartLinesAdd(cartId: $cartId, lines: $lines) {\n"));
    assert_eq!(
        add_item_mutation("abc", &payload.items).to_payload(),
        q.to_payload()
    );
}

#[test]
fn add_items_several_and_none() {
    let payload = MultiItemPayload { items: vec![item("prod-a", 1), item("prod-b", 2)] };
    let parsed = json(&add_items_mutation("c", &payload).to_payload());
    assert_eq!(parsed["variables"]["lines"][1]["merchandiseId"], "prod-b");
    assert_eq!(parsed["variables"]["lines"][1]["quantity"], 2);
    let empty = MultiItemPayload { items: vec![] };
    let q = add_items_mutation("c", &empty);
    assert_eq!(q.get_fmt_variables(), "{\"cartId\": \"gid://shopify/Cart/c\", \"lines\": []}");
    assert!(q.mutation_to_graphql().unwrap().starts_with("mutation ($cartId: ID!, $lines: []!)"));
}

#[test]
fn line_entries() {
    let e = create_shopify_line_entry("m1", 4);
    assert_eq!(e.to_string(), "CartLineInput!");
    assert_eq!(e.to_value_string(), "{\"merchandiseId\": \"m1\", \"quantity\": 4}");
    let u = create_shopify_update_entry("m1", "l1", 2);
    assert_eq!(u.to_string(), "CartLineUpdateInput!");
    assert_eq!(u.to_value_string(), "{\"id\": \"l1\", \"merchandiseId\": \"m1\", \"quantity\": 2}");
}

#[test]
fn remove_and_update_payloads() {
    let r = remove_item_mutation("c9", "gid://shopify/CartLine/7");
    let parsed = json(&r.to_payload());
    assert_eq!(parsed["variables"]["cartId"], "gid://shopify/Cart/c9");
    assert_eq!(parsed["variables"]["lineIds"][0], "gid://shopify/CartLine/7");
    assert!(parsed["query"].as_str().unwrap().contains("cartLinesRemove(cartId: $cartId, lineIds: $lineIds)"));
    let item = CartItemPayload {
        product_id: s("m2"),
        title: s("t"),
        handle: s("h"),
        description: s("d"),
        price: s("1"),
        currency: s("EUR"),
        quantity: 5,
        line_id: s("l2"),
    };
    let u = update_item_mutation("c9", &item);
    let parsed = json(&u.to_payload());
    assert_eq!(parsed["variables"]["lines"][0]["id"], "l2");
    assert_eq!(parsed["variables"]["lines"][0]["merchandiseId"], "m2");
    assert_eq!(parsed["variables"]["lines"][0]["quantity"], 5);
    assert!(parsed["query"].as_str().unwrap().contains("$lines: [CartLineUpdateInput!]!"));
}

#[test]
fn get_cart_payload() {
    let q = get_cart_query("xyz");
    let parsed = json(&q.to_payload());
    assert_eq!(parsed["variables"]["id"], "gid://shopify/Cart/xyz");
    let doc = parsed["query"].as_str().unwrap();
    assert!(doc.starts_with("query ($id: ID!) {\ncart(id: $id) {\n\tid\n\tcheckoutUrl\n"));
    assert!(doc.contains("lines(first: 250) {\nnodes {\nid\nquantity\nmerchandise {\n... on ProductVariant {"));
    assert!(doc.contains("\t\tcurrencyCode\n"));
}

#[test]
fn user_errors_are_client_errors() {
    let create = FullCartCreateResponse {
        data: CartCreateResponse {
            cart_create: CartCreateAPIResponse { cart: cart_with_id("gid://shopify/Cart/1"), user_errors: Some(vec![user_error()]) },
        },
    };
    let o = create_cart_outcome(create);
    assert!(o.is_client_error());
    assert!(!o.is_success());
    let add = FullAddItemResponse {
        data: AddItemResponse {
            add_item: Some(AddItemAPIResponse { cart: cart_with_id("gid://shopify/Cart/1"), user_errors: Some(vec![user_error()]) }),
        },
        errors: None,
    };
    assert!(matches!(add_items_outcome(add), CartOutcome::UserErrors(v) if v.len() == 1));
    let remove = FullRemoveItemResponse {
        data: RemoveItemResponse {
            remove_item: RemoveItemAPIResponse { cart: cart_with_id("x"), user_errors: Some(vec![user_error()]) },
        },
    };
    assert!(remove_item_outcome(remove).is_client_error());
    let update = FullUpdateItemResponse {
        data: UpdateItemResponse {
            add_item: Some(UpdateItemAPIResponse { cart: cart_with_id("x"), user_errors: Some(vec![user_error()]) }),
        },
        errors: None,
    };
    assert!(update_item_outcome(update).is_client_error());
}

#[test]
fn successes_and_missing_results() {
    let add = FullAddItemResponse {
        data: AddItemResponse { add_item: Some(AddItemAPIResponse { cart: cart_with_id("c"), user_errors: Some(vec![]) }) },
        errors: None,
    };
    match add_items_outcome(add) {
        CartOutcome::Cart(c) => assert_eq!(c.id, "c"),
        _ => panic!("expected a cart"),
    }
    let missing = FullAddItemResponse {
        data: AddItemResponse { add_item: None },
        errors: Some(vec![GraphQLError { message: s("bad"), path: vec![], locations: vec![] }]),
    };
    let o = add_items_outcome(missing);
    assert!(o.is_client_error());
    assert!(matches!(o, CartOutcome::MissingResult(Some(ref e)) if e[0].message == "bad"));
    let update = FullUpdateItemResponse { data: UpdateItemResponse { add_item: None }, errors: None };
    assert!(matches!(update_item_outcome(update), CartOutcome::MissingResult(None)));
    let get = FullCartGetResponse { data: CartGetAPIResponse { cart: cart_with_id("g") } };
    assert!(get_cart_outcome(get).is_success());
}

#[test]
fn cart_ids() {
    assert_eq!(cart_id_from_gid("gid://shopify/Cart/abc?key=1").unwrap(), "abc?key=1");
    assert_eq!(cart_id_from_gid("gid://shopify/Cart/").unwrap(), "");
    assert!(cart_id_from_gid("gid://shopify/Order/abc").is_none());
    assert!(cart_id_from_gid("abc").is_none());
}

#[test]
fn checkout_after_cart_created() {
    let payload = MultiItemPayload { items: vec![item("m", 1)] };
    let ok = FullCartCreateResponse {
        data: CartCreateResponse { cart_create: CartCreateAPIResponse { cart: cart_with_id("gid://shopify/Cart/Z9"), user_errors: None } },
    };
    match after_cart_created(ok, &payload) {
        CheckoutStep::AddItems(q) => {
            assert_eq!(json(&q.to_payload())["variables"]["cartId"], "gid://shopify/Cart/Z9")
        }
        CheckoutStep::Stop(_) => panic!("expected to add items"),
    }
    let odd = FullCartCreateResponse {
        data: CartCreateResponse { cart_create: CartCreateAPIResponse { cart: cart_with_id("Z9"), user_errors: None } },
    };
    assert!(matches!(after_cart_created(odd, &payload), CheckoutStep::Stop(CartOutcome::UnexpectedCartId(ref g)) if g == "Z9"));
    let rejected = FullCartCreateResponse {
        data: CartCreateResponse { cart_create: CartCreateAPIResponse { cart: cart_with_id("gid://shopify/Cart/Z9"), user_errors: Some(vec![user_error()]) } },
    };
    assert!(matches!(after_cart_created(rejected, &payload), CheckoutStep::Stop(CartOutcome::UserErrors(_))));
}
