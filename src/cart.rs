//! Requests for the storefront cart: create a cart, add, remove and update
//! its lines, and read it back.
use vstd::prelude::*;
use crate::query::{
    declaration, declarations, flat_pairs, has_key, header, lemma_variables_payload_is_literal,
    root_args, upsert, variables_json, GraphQLAction, GraphQLQuery,
};
use crate::selection::{
    bindings, cart_selection, cost_selection, indented, is_blank_cart, line_item_selection,
    CartAPIRepresentation, GraphQLRepresentable,
};
use crate::value::{
    escaped, fields_literal, fields_view, int_text, items_literal, items_view, lemma_fields_view_push,
    lemma_items_view_push, literal_of, member_literal, quoted, GValue, ShopifyGraphQLType,
};

verus! {

broadcast use vstd::seq::group_seq_axioms;

/// A product a shopper asks to add. `price` is the decimal text of the price.
#[derive(Debug, Clone)]
pub struct ItemPayload {
    pub product_id: String,
    pub title: String,
    pub handle: String,
    pub description: String,
    pub price: String,
    pub currency: String,
    pub quantity: u32,
}

#[derive(Debug, Clone)]
pub struct MultiItemPayload {
    pub items: Vec<ItemPayload>,
}

/// A product already in a cart, with the id of the cart line holding it.
#[derive(Debug, Clone)]
pub struct CartItemPayload {
    pub product_id: String,
    pub title: String,
    pub handle: String,
    pub description: String,
    pub price: String,
    pub currency: String,
    pub quantity: u32,
    pub line_id: String,
}

#[derive(Debug, Clone)]
pub struct MultiCartItemPayload {
    pub items: Vec<CartItemPayload>,
}

/// The global id of cart `id`.
pub open spec fn cart_gid(id: Seq<char>) -> Seq<char> {
    "gid://shopify/Cart/"@ + id
}

/// A `CartLineInput` adding `qty` of merchandise `item_id`.
pub open spec fn line_entry(item_id: Seq<char>, qty: u32) -> GValue {
    GValue::Named(
        "CartLineInput"@,
        Box::new(
            GValue::Record(
                seq![
                    ("merchandiseId"@, GValue::Identifier(item_id)),
                    ("quantity"@, GValue::Integer(qty as int)),
                ],
            ),
        ),
    )
}

/// A `CartLineUpdateInput` setting line `line_id` to `qty` of `item_id`.
pub open spec fn update_entry(item_id: Seq<char>, line_id: Seq<char>, qty: u32) -> GValue {
    GValue::Named(
        "CartLineUpdateInput"@,
        Box::new(
            GValue::Record(
                seq![
                    ("id"@, GValue::Identifier(line_id)),
                    ("merchandiseId"@, GValue::Identifier(item_id)),
                    ("quantity"@, GValue::Integer(qty as int)),
                ],
            ),
        ),
    )
}

/// One `CartLineInput` per requested item, in order.
pub open spec fn line_entries(items: Seq<ItemPayload>) -> Seq<GValue>
    decreases items.len(),
{
    if items.len() == 0 {
        seq![]
    } else {
        line_entries(items.drop_last()).push(
            line_entry(items.last().product_id@, items.last().quantity),
        )
    }
}

/// The mutation is of root field `name`.
pub open spec fn is_mutation_of<T: GraphQLRepresentable>(
    q: GraphQLQuery<T>,
    name: Seq<char>,
) -> bool {
    q.action matches GraphQLAction::Mutation(Some(n)) && n@ == name
}

fn text(s: &str) -> (r: String)
    ensures
        r@ == s@,
{
    String::from_str(s)
}

fn cart_id_value(cart_id: &str) -> (r: ShopifyGraphQLType)
    ensures
        r@ == GValue::Identifier(cart_gid(cart_id@)),
{
    let mut s = String::from_str("gid://shopify/Cart/");
    s.append(cart_id);
    ShopifyGraphQLType::ID(s)
}

/// The `CartLineInput` for `item_qty` of `item_id`.
pub fn create_shopify_line_entry(item_id: &str, item_qty: u32) -> (r: ShopifyGraphQLType)
    ensures
        r@ == line_entry(item_id@, item_qty),
{
    let mut fields: Vec<(String, ShopifyGraphQLType)> = Vec::new();
    let a = (text("merchandiseId"), ShopifyGraphQLType::ID(text(item_id)));
    let b = (text("quantity"), ShopifyGraphQLType::Int(item_qty as i64));
    proof {
        lemma_fields_view_push(fields@, a);
        lemma_fields_view_push(fields@.push(a), b);
        assert(fields_view(Seq::empty()) =~= Seq::<(Seq<char>, GValue)>::empty());
    }
    fields.push(a);
    fields.push(b);
    assert(fields_view(fields@) =~= seq![
        ("merchandiseId"@, GValue::Identifier(item_id@)),
        ("quantity"@, GValue::Integer(item_qty as int)),
    ]);
    let obj = ShopifyGraphQLType::Object(fields);
    assert(obj@ == GValue::Record(fields_view(fields@)));
    ShopifyGraphQLType::Custom(text("CartLineInput"), Box::new(obj))
}

/// The `CartLineUpdateInput` setting line `line_id` to `quantity` of `item_id`.
pub fn create_shopify_update_entry(item_id: &str, line_id: &str, quantity: u32) -> (r: ShopifyGraphQLType)
    ensures
        r@ == update_entry(item_id@, line_id@, quantity),
{
    let mut fields: Vec<(String, ShopifyGraphQLType)> = Vec::new();
    let a = (text("id"), ShopifyGraphQLType::ID(text(line_id)));
    let b = (text("merchandiseId"), ShopifyGraphQLType::ID(text(item_id)));
    let c = (text("quantity"), ShopifyGraphQLType::Int(quantity as i64));
    proof {
        lemma_fields_view_push(fields@, a);
        lemma_fields_view_push(fields@.push(a), b);
        lemma_fields_view_push(fields@.push(a).push(b), c);
        assert(fields_view(Seq::empty()) =~= Seq::<(Seq<char>, GValue)>::empty());
    }
    fields.push(a);
    fields.push(b);
    fields.push(c);
    assert(fields_view(fields@) =~= seq![
        ("id"@, GValue::Identifier(line_id@)),
        ("merchandiseId"@, GValue::Identifier(item_id@)),
        ("quantity"@, GValue::Integer(quantity as int)),
    ]);
    let obj = ShopifyGraphQLType::Object(fields);
    assert(obj@ == GValue::Record(fields_view(fields@)));
    ShopifyGraphQLType::Custom(text("CartLineUpdateInput"), Box::new(obj))
}

fn line_entry_list(items: &Vec<ItemPayload>) -> (r: ShopifyGraphQLType)
    ensures
        r@ == GValue::List(line_entries(items@)),
{
    let mut out: Vec<ShopifyGraphQLType> = Vec::new();
    let mut i: usize = 0;
    assert(items_view(out@) =~= line_entries(items@.subrange(0, 0)));
    while i < items.len()
        invariant
            i <= items@.len(),
            items_view(out@) == line_entries(items@.subrange(0, i as int)),
        decreases items.len() - i,
    {
        let e = create_shopify_line_entry(items[i].product_id.as_str(), items[i].quantity);
        proof {
            lemma_items_view_push(out@, e);
            assert(items@.subrange(0, i as int + 1).drop_last() =~= items@.subrange(0, i as int));
        }
        out.push(e);
        i = i + 1;
    }
    assert(items@.subrange(0, items@.len() as int) =~= items@);
    ShopifyGraphQLType::Array(out)
}

/// Binding two distinct names on a query without variables.
proof fn lemma_two_bindings(k1: Seq<char>, v1: GValue, k2: Seq<char>, v2: GValue)
    requires
        k1.len() > 0,
        k2.len() > 0,
        k1[0] != k2[0],
    ensures
        upsert(upsert(seq![], k1, v1), k2, v2) == seq![(k1, v1), (k2, v2)],
{
    let s0 = Seq::<(Seq<char>, GValue)>::empty();
    assert(upsert(s0, k1, v1) == s0.push((k1, v1)));
    let s1 = s0.push((k1, v1));
    assert(s1[0].0[0] != k2[0]);
    assert(upsert(s1, k2, v2) =~= seq![(k1, v1), (k2, v2)]);
}

/// A mutation creating an empty cart.
pub fn create_cart_mutation() -> (r: GraphQLQuery<CartAPIRepresentation>)
    ensures
        is_mutation_of(r, "cartCreate"@),
        is_blank_cart(r.query),
        r.vars().len() == 0,
{
    let none: Vec<(String, ShopifyGraphQLType)> = Vec::new();
    let r = GraphQLQuery::new(
        GraphQLAction::Mutation(Some(text("cartCreate"))),
        CartAPIRepresentation::default(),
        none,
    );
    assert(fields_view(r.variables@) =~= Seq::<(Seq<char>, GValue)>::empty());
    r
}

/// A mutation adding `items` to cart `cart_id`.
pub fn add_item_mutation(cart_id: &str, items: &Vec<ItemPayload>) -> (r: GraphQLQuery<
    CartAPIRepresentation,
>)
    ensures
        is_mutation_of(r, "cartLinesAdd"@),
        is_blank_cart(r.query),
        r.vars() == seq![
            ("cartId"@, GValue::Identifier(cart_gid(cart_id@))),
            ("lines"@, GValue::List(line_entries(items@))),
        ],
{
    let mut aim = GraphQLQuery::mutation(CartAPIRepresentation::default(), Some(text("cartLinesAdd")));
    let id = cart_id_value(cart_id);
    aim.add_variable(text("cartId"), id);
    let lines = line_entry_list(items);
    aim.add_variable(text("lines"), lines);
    proof {
        reveal_strlit("cartId");
        reveal_strlit("lines");
        assert(Seq::<(Seq<char>, GValue)>::empty() =~= seq![]);
        lemma_two_bindings(
            "cartId"@,
            GValue::Identifier(cart_gid(cart_id@)),
            "lines"@,
            GValue::List(line_entries(items@)),
        );
    }
    aim
}

/// A mutation adding the items of `item` to cart `cart_id`.
pub fn add_items_mutation(cart_id: &str, item: &MultiItemPayload) -> (r: GraphQLQuery<
    CartAPIRepresentation,
>)
    ensures
        is_mutation_of(r, "cartLinesAdd"@),
        is_blank_cart(r.query),
        r.vars() == seq![
            ("cartId"@, GValue::Identifier(cart_gid(cart_id@))),
            ("lines"@, GValue::List(line_entries(item.items@))),
        ],
{
    add_item_mutation(cart_id, &item.items)
}

/// A mutation removing line `item_id` from cart `cart_id`.
pub fn remove_item_mutation(cart_id: &str, item_id: &str) -> (r: GraphQLQuery<CartAPIRepresentation>)
    ensures
        is_mutation_of(r, "cartLinesRemove"@),
        is_blank_cart(r.query),
        r.vars() == seq![
            ("cartId"@, GValue::Identifier(cart_gid(cart_id@))),
            ("lineIds"@, GValue::List(seq![GValue::Identifier(item_id@)])),
        ],
{
    let mut rim = GraphQLQuery::mutation(CartAPIRepresentation::default(), Some(text("cartLinesRemove")));
    let id = cart_id_value(cart_id);
    rim.add_variable(text("cartId"), id);
    let mut ids: Vec<ShopifyGraphQLType> = Vec::new();
    let line = ShopifyGraphQLType::ID(text(item_id));
    proof {
        lemma_items_view_push(ids@, line);
        assert(items_view(Seq::empty()) =~= Seq::<GValue>::empty());
    }
    ids.push(line);
    assert(items_view(ids@) =~= seq![GValue::Identifier(item_id@)]);
    rim.add_variable(text("lineIds"), ShopifyGraphQLType::Array(ids));
    proof {
        reveal_strlit("cartId");
        reveal_strlit("lineIds");
        lemma_two_bindings(
            "cartId"@,
            GValue::Identifier(cart_gid(cart_id@)),
            "lineIds"@,
            GValue::List(seq![GValue::Identifier(item_id@)]),
        );
    }
    rim
}

/// A mutation setting the line of `item` in cart `cart_id` to its quantity.
pub fn update_item_mutation(cart_id: &str, item: &CartItemPayload) -> (r: GraphQLQuery<
    CartAPIRepresentation,
>)
    ensures
        is_mutation_of(r, "cartLinesUpdate"@),
        is_blank_cart(r.query),
        r.vars() == seq![
            ("cartId"@, GValue::Identifier(cart_gid(cart_id@))),
            (
                "lines"@,
                GValue::List(
                    seq![update_entry(item.product_id@, item.line_id@, item.quantity)],
                ),
            ),
        ],
{
    let mut uim = GraphQLQuery::mutation(CartAPIRepresentation::default(), Some(text("cartLinesUpdate")));
    let id = cart_id_value(cart_id);
    uim.add_variable(text("cartId"), id);
    let mut lines: Vec<ShopifyGraphQLType> = Vec::new();
    let e = create_shopify_update_entry(item.product_id.as_str(), item.line_id.as_str(), item.quantity);
    proof {
        lemma_items_view_push(lines@, e);
        assert(items_view(Seq::empty()) =~= Seq::<GValue>::empty());
    }
    lines.push(e);
    assert(items_view(lines@) =~= seq![update_entry(item.product_id@, item.line_id@, item.quantity)]);
    uim.add_variable(text("lines"), ShopifyGraphQLType::Array(lines));
    proof {
        reveal_strlit("cartId");
        reveal_strlit("lines");
        lemma_two_bindings(
            "cartId"@,
            GValue::Identifier(cart_gid(cart_id@)),
            "lines"@,
            GValue::List(seq![update_entry(item.product_id@, item.line_id@, item.quantity)]),
        );
    }
    uim
}

/// A query reading cart `id`.
pub fn get_cart_query(id: &str) -> (r: GraphQLQuery<CartAPIRepresentation>)
    ensures
        r.action is Query,
        is_blank_cart(r.query),
        r.vars() == seq![("id"@, GValue::Identifier(cart_gid(id@)))],
{
    let mut query = GraphQLQuery::query(CartAPIRepresentation::default());
    let v = cart_id_value(id);
    query.add_variable(text("id"), v);
    proof {
        let s0 = Seq::<(Seq<char>, GValue)>::empty();
        assert(upsert(s0, "id"@, GValue::Identifier(cart_gid(id@))) =~= seq![
            ("id"@, GValue::Identifier(cart_gid(id@))),
        ]);
    }
    query
}

/// The create-cart mutation invokes `cartCreate` and selects the whole cart,
/// with its cost fields, and sends an empty variables object.
pub proof fn lemma_create_cart_document(q: GraphQLQuery<CartAPIRepresentation>)
    requires
        is_mutation_of(q, "cartCreate"@),
        q.vars().len() == 0,
    ensures
        q.document(q.vars()) == "mutation"@ + " {\n"@ + " "@ + "cartCreate"@ + " {\n"@ + cart_selection(
            seq![],
        ) + "\n}"@ + "\n}"@,
        variables_json(q.vars()) == "{}"@,
        q.payload() == "{\"query\":\""@ + escaped(q.document(q.vars())) + "\", \"variables\": "@ + "{}"@
            + "}"@,
{
    reveal_strlit("{");
    reveal_strlit("}");
    reveal_strlit("{}");
    assert(header(q.vars()) =~= Seq::<char>::empty());
    assert(q.vars() =~= Seq::<(Seq<char>, GValue)>::empty());
    assert(q.document(q.vars()) =~= "mutation"@ + " {\n"@ + " "@ + "cartCreate"@ + " {\n"@
        + cart_selection(seq![]) + "\n}"@ + "\n}"@);
    assert(variables_json(q.vars()) =~= "{}"@);
}

/// The add-items variables send the cart's global id and, for each item, an
/// object with its merchandise id and quantity.
#[verifier::rlimit(40)]
pub proof fn lemma_add_items_variables(cart_id: Seq<char>, items: Seq<ItemPayload>)
    ensures
        variables_json(
            seq![
                ("cartId"@, GValue::Identifier(cart_gid(cart_id))),
                ("lines"@, GValue::List(line_entries(items))),
            ],
        ) == "{"@ + quoted("cartId"@) + ": "@ + quoted(cart_gid(cart_id)) + ", "@ + quoted("lines"@)
            + ": "@ + "["@ + items_literal(line_entries(items)) + "]"@ + "}"@,
        line_entries(items).len() == items.len(),
        forall|i: int|
            0 <= i < items.len() ==> literal_of(#[trigger] line_entries(items)[i]) == "{"@ + quoted(
                "merchandiseId"@,
            ) + ": "@ + quoted(items[i].product_id@) + ", "@ + quoted("quantity"@) + ": "@
                + int_text(items[i].quantity as int) + "}"@,
{
    let vars = seq![
        ("cartId"@, GValue::Identifier(cart_gid(cart_id))),
        ("lines"@, GValue::List(line_entries(items))),
    ];
    let d = seq![vars[0]];
    assert(vars.drop_last() =~= d);
    assert(d.drop_last() =~= Seq::<(Seq<char>, GValue)>::empty());
    assert(flat_pairs(Seq::<(Seq<char>, GValue)>::empty()) =~= Seq::<(Seq<char>, GValue)>::empty());
    assert(d.last().1 is Identifier);
    assert(flat_pairs(d) == flat_pairs(d.drop_last()) + seq![d.last()]);
    assert(flat_pairs(d) =~= d);
    assert(flat_pairs(vars) =~= vars);
    assert(fields_literal(d) == member_literal(vars[0]));
    assert(fields_literal(vars) == member_literal(vars[0]) + ", "@ + member_literal(vars[1]));
    assert(variables_json(vars) =~= "{"@ + quoted("cartId"@) + ": "@ + quoted(cart_gid(cart_id)) + ", "@
        + quoted("lines"@) + ": "@ + "["@ + items_literal(line_entries(items)) + "]"@ + "}"@);
    lemma_line_entries(items);
}

proof fn lemma_line_entries(items: Seq<ItemPayload>)
    ensures
        line_entries(items).len() == items.len(),
        forall|i: int|
            0 <= i < items.len() ==> #[trigger] line_entries(items)[i] == line_entry(
                items[i].product_id@,
                items[i].quantity,
            ),
        forall|i: int|
            0 <= i < items.len() ==> literal_of(#[trigger] line_entries(items)[i]) == "{"@ + quoted(
                "merchandiseId"@,
            ) + ": "@ + quoted(items[i].product_id@) + ", "@ + quoted("quantity"@) + ": "@
                + int_text(items[i].quantity as int) + "}"@,
    decreases items.len(),
{
    if items.len() > 0 {
        lemma_line_entries(items.drop_last());
    }
    assert forall|i: int| 0 <= i < items.len() implies literal_of(#[trigger] line_entries(items)[i])
        == "{"@ + quoted("merchandiseId"@) + ": "@ + quoted(items[i].product_id@) + ", "@ + quoted(
        "quantity"@,
    ) + ": "@ + int_text(items[i].quantity as int) + "}"@ by {
        if i < items.len() - 1 {
            assert(items.drop_last()[i] == items[i]);
        }
        if i == items.len() - 1 {
            assert(line_entries(items)[i] == line_entry(items[i].product_id@, items[i].quantity));
        }
        let f = seq![
            ("merchandiseId"@, GValue::Identifier(items[i].product_id@)),
            ("quantity"@, GValue::Integer(items[i].quantity as int)),
        ];
        let e = line_entries(items)[i];
        assert(e == line_entry(items[i].product_id@, items[i].quantity));
        assert(literal_of(e) == literal_of(GValue::Record(f)));
        assert(f.drop_last() =~= seq![f[0]]);
        assert(fields_literal(f.drop_last()) == member_literal(f[0]));
        assert(fields_literal(f) == member_literal(f[0]) + ", "@ + member_literal(f[1]));
        assert(literal_of(e) =~= "{"@ + quoted("merchandiseId"@) + ": "@ + quoted(items[i].product_id@)
            + ", "@ + quoted("quantity"@) + ": "@ + int_text(items[i].quantity as int) + "}"@);
    }
}

/// The get-cart query declares and binds `$id`, selects the whole cart with
/// its first 250 lines, and sends the cart's global id as `id`.
pub proof fn lemma_get_cart_document(q: GraphQLQuery<CartAPIRepresentation>, id: Seq<char>)
    requires
        q.action is Query,
        q.vars() == seq![("id"@, GValue::Identifier(cart_gid(id)))],
    ensures
        q.document(q.vars()) == "query"@ + " ("@ + "$"@ + "id"@ + ": "@ + "ID!"@ + ")"@ + " {\n"@
            + cart_selection(q.vars()) + "\n}"@,
        cart_selection(q.vars()) == "cart("@ + "id"@ + ": $"@ + "id"@ + ") {\n\tid\n\tcheckoutUrl\n"@
            + indented(cost_selection(seq![]), 1) + "\ntotalQuantity\nlines(first: 250) {\nnodes "@
            + line_item_selection() + "\n}\n}"@,
        variables_json(q.vars()) == "{"@ + quoted("id"@) + ": "@ + quoted(cart_gid(id)) + "}"@,
{
    let vars = q.vars();
    reveal_strlit("id");
    reveal_strlit("cart");
    assert(q.query.label_of() == "cart"@);
    assert(vars[0].0 != "cart"@) by {
        assert(vars[0].0.len() != "cart"@.len());
    }
    assert(!has_key(vars, "cart"@));
    assert(root_args(vars, "cart"@, vars) == vars);
    assert(declarations(vars) == declaration(vars[0]));
    assert(bindings(vars) == vars[0].0 + ": $"@ + vars[0].0);
    assert(q.document(vars) =~= "query"@ + " ("@ + "$"@ + "id"@ + ": "@ + "ID!"@ + ")"@ + " {\n"@
        + cart_selection(vars) + "\n}"@);
    assert(cart_selection(vars) =~= "cart("@ + "id"@ + ": $"@ + "id"@ + ") {\n\tid\n\tcheckoutUrl\n"@
        + indented(cost_selection(seq![]), 1) + "\ntotalQuantity\nlines(first: 250) {\nnodes "@
        + line_item_selection() + "\n}\n}"@);
    lemma_variables_payload_is_literal(vars, "id"@, GValue::Identifier(cart_gid(id)));
}

} // verus!
