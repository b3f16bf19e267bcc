//! The decoded shapes of storefront responses and what each means for the
//! caller: the cart, or a client error carrying what the storefront said.
use vstd::prelude::*;
use crate::cart::{add_items_mutation, cart_gid, is_mutation_of, line_entries, MultiItemPayload};
use crate::query::GraphQLQuery;
use crate::selection::{is_blank_cart, CartAPIRepresentation, GraphQLError, UserError};
use crate::value::GValue;

verus! {

#[derive(Debug, Clone)]
pub struct CartCreateAPIResponse {
    pub cart: CartAPIRepresentation,
    pub user_errors: Option<Vec<UserError>>,
}

#[derive(Debug, Clone)]
pub struct CartCreateResponse {
    pub cart_create: CartCreateAPIResponse,
}

/// The response to the create-cart mutation.
#[derive(Debug, Clone)]
pub struct FullCartCreateResponse {
    pub data: CartCreateResponse,
}

#[derive(Debug, Clone)]
pub struct AddItemAPIResponse {
    pub cart: CartAPIRepresentation,
    pub user_errors: Option<Vec<UserError>>,
}

#[derive(Debug, Clone)]
pub struct AddItemResponse {
    pub add_item: Option<AddItemAPIResponse>,
}

/// The response to the add-items mutation.
#[derive(Debug, Clone)]
pub struct FullAddItemResponse {
    pub data: AddItemResponse,
    pub errors: Option<Vec<GraphQLError>>,
}

#[derive(Debug, Clone)]
pub struct RemoveItemAPIResponse {
    pub cart: CartAPIRepresentation,
    pub user_errors: Option<Vec<UserError>>,
}

#[derive(Debug, Clone)]
pub struct RemoveItemResponse {
    pub remove_item: RemoveItemAPIResponse,
}

/// The response to the remove-item mutation.
#[derive(Debug, Clone)]
pub struct FullRemoveItemResponse {
    pub data: RemoveItemResponse,
}

#[derive(Debug, Clone)]
pub struct UpdateItemAPIResponse {
    pub cart: CartAPIRepresentation,
    pub user_errors: Option<Vec<UserError>>,
}

#[derive(Debug, Clone)]
pub struct UpdateItemResponse {
    pub add_item: Option<UpdateItemAPIResponse>,
}

/// The response to the update-item mutation.
#[derive(Debug, Clone)]
pub struct FullUpdateItemResponse {
    pub data: UpdateItemResponse,
    pub errors: Option<Vec<GraphQLError>>,
}

#[derive(Debug, Clone)]
pub struct CartGetAPIResponse {
    pub cart: CartAPIRepresentation,
}

/// The response to the get-cart query.
#[derive(Debug, Clone)]
pub struct FullCartGetResponse {
    pub data: CartGetAPIResponse,
}

/// What a cart operation came to.
#[derive(Debug)]
pub enum CartOutcome {
    /// The operation succeeded; the cart as it now stands.
    Cart(CartAPIRepresentation),
    /// The storefront rejected the input; a client error.
    UserErrors(Vec<UserError>),
    /// No result came back for the operation, with the request-level errors
    /// if there were any; a client error.
    MissingResult(Option<Vec<GraphQLError>>),
    /// The storefront returned a cart id not of the form `gid://shopify/Cart/<id>`;
    /// a server error.
    UnexpectedCartId(String),
}

impl CartOutcome {
    /// The caller asked for something the storefront would not do.
    pub open spec fn client_error(&self) -> bool {
        self is UserErrors || self is MissingResult
    }

    pub fn is_client_error(&self) -> (r: bool)
        ensures
            r == self.client_error(),
    {
        match self {
            CartOutcome::UserErrors(_) => true,
            CartOutcome::MissingResult(_) => true,
            _ => false,
        }
    }

    pub fn is_success(&self) -> (r: bool)
        ensures
            r == self is Cart,
    {
        match self {
            CartOutcome::Cart(_) => true,
            _ => false,
        }
    }
}

/// A `userErrors` list that reports at least one error.
pub open spec fn reports_errors(e: Option<Vec<UserError>>) -> bool {
    e matches Some(v) && v@.len() > 0
}

/// The outcome of an operation that returned `cart` and `user_errors`.
pub open spec fn cart_result(cart: CartAPIRepresentation, user_errors: Option<Vec<UserError>>) -> CartOutcome {
    if reports_errors(user_errors) {
        CartOutcome::UserErrors(user_errors->0)
    } else {
        CartOutcome::Cart(cart)
    }
}

pub open spec fn create_cart_result(resp: FullCartCreateResponse) -> CartOutcome {
    cart_result(resp.data.cart_create.cart, resp.data.cart_create.user_errors)
}

pub open spec fn add_items_result(resp: FullAddItemResponse) -> CartOutcome {
    match resp.data.add_item {
        Some(p) => cart_result(p.cart, p.user_errors),
        None => CartOutcome::MissingResult(resp.errors),
    }
}

pub open spec fn remove_item_result(resp: FullRemoveItemResponse) -> CartOutcome {
    cart_result(resp.data.remove_item.cart, resp.data.remove_item.user_errors)
}

pub open spec fn update_item_result(resp: FullUpdateItemResponse) -> CartOutcome {
    match resp.data.add_item {
        Some(p) => cart_result(p.cart, p.user_errors),
        None => CartOutcome::MissingResult(resp.errors),
    }
}

fn outcome_of(cart: CartAPIRepresentation, user_errors: Option<Vec<UserError>>) -> (r: CartOutcome)
    ensures
        r == cart_result(cart, user_errors),
{
    match user_errors {
        Some(errors) => {
            if errors.len() > 0 {
                CartOutcome::UserErrors(errors)
            } else {
                CartOutcome::Cart(cart)
            }
        },
        None => CartOutcome::Cart(cart),
    }
}

/// What a create-cart response means.
pub fn create_cart_outcome(resp: FullCartCreateResponse) -> (r: CartOutcome)
    ensures
        r == create_cart_result(resp),
{
    outcome_of(resp.data.cart_create.cart, resp.data.cart_create.user_errors)
}

/// What an add-items response means.
pub fn add_items_outcome(resp: FullAddItemResponse) -> (r: CartOutcome)
    ensures
        r == add_items_result(resp),
{
    match resp.data.add_item {
        Some(p) => outcome_of(p.cart, p.user_errors),
        None => CartOutcome::MissingResult(resp.errors),
    }
}

/// What a remove-item response means.
pub fn remove_item_outcome(resp: FullRemoveItemResponse) -> (r: CartOutcome)
    ensures
        r == remove_item_result(resp),
{
    outcome_of(resp.data.remove_item.cart, resp.data.remove_item.user_errors)
}

/// What an update-item response means.
pub fn update_item_outcome(resp: FullUpdateItemResponse) -> (r: CartOutcome)
    ensures
        r == update_item_result(resp),
{
    match resp.data.add_item {
        Some(p) => outcome_of(p.cart, p.user_errors),
        None => CartOutcome::MissingResult(resp.errors),
    }
}

/// What a get-cart response means: the cart it holds.
pub fn get_cart_outcome(resp: FullCartGetResponse) -> (r: CartOutcome)
    ensures
        r == CartOutcome::Cart(resp.data.cart),
{
    CartOutcome::Cart(resp.data.cart)
}

/// A non-empty `userErrors` list makes every cart operation a client error,
/// never a success, whatever cart came with it.
pub proof fn lemma_user_errors_are_client_errors(
    cart: CartAPIRepresentation,
    user_errors: Option<Vec<UserError>>,
    create: FullCartCreateResponse,
    add: FullAddItemResponse,
    remove: FullRemoveItemResponse,
    update: FullUpdateItemResponse,
)
    requires
        reports_errors(user_errors),
    ensures
        cart_result(cart, user_errors).client_error(),
        !(cart_result(cart, user_errors) is Cart),
        reports_errors(create.data.cart_create.user_errors) ==> create_cart_result(create).client_error(),
        add.data.add_item matches Some(p) && reports_errors(p.user_errors) ==> add_items_result(add).client_error(),
        reports_errors(remove.data.remove_item.user_errors) ==> remove_item_result(remove).client_error(),
        update.data.add_item matches Some(p) && reports_errors(p.user_errors) ==> update_item_result(update).client_error(),
{
}

/// The characters of `gid` after `prefix`, when `gid` starts with it.
pub open spec fn strip_prefix(gid: Seq<char>, prefix: Seq<char>) -> Option<Seq<char>> {
    if prefix.len() <= gid.len() && gid.subrange(0, prefix.len() as int) == prefix {
        Some(gid.subrange(prefix.len() as int, gid.len() as int))
    } else {
        None
    }
}

/// The cart id inside a cart's global id `gid://shopify/Cart/<id>`.
pub fn cart_id_from_gid(gid: &str) -> (r: Option<String>)
    ensures
        r matches Some(id) ==> gid@ == cart_gid(id@),
        r matches Some(id) ==> strip_prefix(gid@, "gid://shopify/Cart/"@) == Some(id@),
        r is None <==> strip_prefix(gid@, "gid://shopify/Cart/"@) is None,
{
    let prefix = "gid://shopify/Cart/";
    let p = prefix.unicode_len();
    let n = gid.unicode_len();
    if p > n {
        return None;
    }
    let mut i: usize = 0;
    while i < p
        invariant
            prefix@ == "gid://shopify/Cart/"@,
            p == prefix@.len(),
            n == gid@.len(),
            p <= n,
            i <= p,
            forall|j: int| 0 <= j < i ==> gid@[j] == prefix@[j],
        decreases p - i,
    {
        if gid.get_char(i) != prefix.get_char(i) {
            assert(gid@.subrange(0, p as int)[i as int] != prefix@[i as int]);
            assert(gid@.subrange(0, p as int) != prefix@);
            return None;
        }
        i = i + 1;
    }
    assert(gid@.subrange(0, p as int) =~= prefix@);
    let rest = gid.substring_char(p, n);
    assert(gid@ =~= cart_gid(rest@));
    Some(String::from_str(rest))
}

/// The next move of a checkout after its cart was created.
pub enum CheckoutStep {
    /// Send this mutation to add the requested items to the new cart.
    AddItems(GraphQLQuery<CartAPIRepresentation>),
    /// Stop and answer with this outcome.
    Stop(CartOutcome),
}

/// Decides how a checkout goes on once the create-cart response is in: stop on
/// its errors, otherwise add the requested items to the cart it created.
pub fn after_cart_created(resp: FullCartCreateResponse, payload: &MultiItemPayload) -> (r: CheckoutStep)
    ensures
        !(create_cart_result(resp) is Cart) ==> r == CheckoutStep::Stop(create_cart_result(resp)),
        create_cart_result(resp) matches CartOutcome::Cart(c) ==> match strip_prefix(c.id@, "gid://shopify/Cart/"@) {
            Some(id) => r matches CheckoutStep::AddItems(q) && is_mutation_of(q, "cartLinesAdd"@)
                && is_blank_cart(q.query) && q.vars() == seq![
                ("cartId"@, GValue::Identifier(cart_gid(id))),
                ("lines"@, GValue::List(line_entries(payload.items@))),
            ],
            None => r matches CheckoutStep::Stop(CartOutcome::UnexpectedCartId(g)) && g@ == c.id@,
        },
{
    let outcome = create_cart_outcome(resp);
    match outcome {
        CartOutcome::Cart(cart) => match cart_id_from_gid(cart.id.as_str()) {
            Some(id) => CheckoutStep::AddItems(add_items_mutation(id.as_str(), payload)),
            None => CheckoutStep::Stop(CartOutcome::UnexpectedCartId(cart.id)),
        },
        _ => CheckoutStep::Stop(outcome),
    }
}

} // verus!
