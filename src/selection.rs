//! Field selections: the shapes of storefront objects that a query asks for,
//! each rendering a fixed field list, with arguments interpolated at the head
//! of the block where a selection takes them.
use vstd::prelude::*;
use crate::value::{
    fields_view, field_view, lemma_fields_view_len, lemma_fields_view_step, signature_of, GValue,
    ShopifyGraphQLType,
};

verus! {

broadcast use vstd::seq::group_seq_axioms;

/// Something that renders as a GraphQL field selection.
pub trait GraphQLRepresentable: Sized {
    /// The selection text under the given arguments.
    spec fn graphql_of(&self, args: Seq<(Seq<char>, GValue)>) -> Seq<char>;

    /// The field name this selection occupies in its parent.
    spec fn label_of(&self) -> Seq<char>;

    fn to_graphql(&self, args: &Vec<(String, ShopifyGraphQLType)>) -> (r: String)
        ensures
            r@ == self.graphql_of(fields_view(args@)),
    ;

    fn label(&self) -> (r: String)
        ensures
            r@ == self.label_of(),
    ;
}

// ---------------------------------------------------------------------------
// Indentation
// ---------------------------------------------------------------------------
/// `n` tab characters.
pub open spec fn tab_run(n: nat) -> Seq<char>
    decreases n,
{
    if n == 0 {
        seq![]
    } else {
        tab_run((n - 1) as nat) + "\t"@
    }
}

/// The rest of `s` with `tabs` tabs before each line and each line ended by
/// `\n`; `at_start` tells whether a line begins here. Lines end at `\n` or at
/// `\r\n`; a final line without an ending still gets one.
pub open spec fn indent_from(s: Seq<char>, tabs: nat, at_start: bool) -> Seq<char>
    decreases s.len(),
{
    if s.len() == 0 {
        if at_start {
            seq![]
        } else {
            "\n"@
        }
    } else {
        let lead = if at_start {
            tab_run(tabs)
        } else {
            seq![]
        };
        if s[0] == '\n' {
            lead + "\n"@ + indent_from(s.drop_first(), tabs, true)
        } else if s[0] == '\r' && s.len() > 1 && s[1] == '\n' {
            lead + "\n"@ + indent_from(s.subrange(2, s.len() as int), tabs, true)
        } else {
            lead + seq![s[0]] + indent_from(s.drop_first(), tabs, false)
        }
    }
}

/// Every line of `s` indented by `tabs` tabs and ended by `\n`.
pub open spec fn indented(s: Seq<char>, tabs: nat) -> Seq<char> {
    indent_from(s, tabs, true)
}

fn append_tabs(out: &mut String, tabs: u32)
    ensures
        final(out)@ == old(out)@ + tab_run(tabs as nat),
{
    let mut k: u32 = 0;
    while k < tabs
        invariant
            k <= tabs,
            out@ == old(out)@ + tab_run(k as nat),
        decreases tabs - k,
    {
        out.append("\t");
        k = k + 1;
        assert(out@ =~= old(out)@ + tab_run(k as nat));
    }
}

/// Puts `tabs` tabs before every line of `s` and ends every line with `\n`.
pub fn add_tabs_to_lines(s: &str, tabs: u32) -> (r: String)
    ensures
        r@ == indented(s@, tabs as nat),
{
    let n = s.unicode_len();
    let mut out = String::new();
    let mut i: usize = 0;
    let mut at_start = true;
    assert(s@.subrange(0, n as int) =~= s@);
    assert(out@ + indent_from(s@, tabs as nat, true) =~= indented(s@, tabs as nat));
    while i < n
        invariant
            n == s@.len(),
            i <= n,
            out@ + indent_from(s@.subrange(i as int, n as int), tabs as nat, at_start)
                == indented(s@, tabs as nat),
        decreases n - i,
    {
        let ghost rest = s@.subrange(i as int, n as int);
        let ghost before = out@;
        let ghost was_start = at_start;
        let c = s.get_char(i);
        assert(rest[0] == c);
        if at_start {
            append_tabs(&mut out, tabs);
        }
        if c == '\n' {
            out.append("\n");
            assert(rest.drop_first() =~= s@.subrange(i as int + 1, n as int));
            i = i + 1;
            at_start = true;
        } else if c == '\r' && i + 1 < n && s.get_char(i + 1) == '\n' {
            out.append("\n");
            assert(rest.subrange(2, rest.len() as int) =~= s@.subrange(i as int + 2, n as int));
            i = i + 2;
            at_start = true;
        } else {
            let one = s.substring_char(i, i + 1);
            assert(one@ =~= seq![c]);
            out.append(one);
            assert(rest.drop_first() =~= s@.subrange(i as int + 1, n as int));
            i = i + 1;
            at_start = false;
        }
        assert(out@ + indent_from(s@.subrange(i as int, n as int), tabs as nat, at_start)
            =~= before + indent_from(rest, tabs as nat, was_start));
    }
    assert(s@.subrange(n as int, n as int) =~= Seq::<char>::empty());
    if !at_start {
        out.append("\n");
    }
    assert(out@ =~= indented(s@, tabs as nat));
    out
}

// ---------------------------------------------------------------------------
// Static field lists
// ---------------------------------------------------------------------------
pub open spec fn money_selection() -> Seq<char> {
    "{\n\tamount\n\tcurrencyCode\n}"@
}

/// The eight fields of a cart's cost breakdown, closing the block.
pub open spec fn cost_fields() -> Seq<char> {
    "checkoutChargeAmount {\n\tamount\n\tcurrencyCode\n}\n"@
        + "subtotalAmount {\n\tamount\n\tcurrencyCode\n}\n"@
        + "subtotalAmountEstimated\n"@
        + "totalAmount {\n\tamount\n\tcurrencyCode\n}\n"@
        + "totalAmountEstimated\n"@
        + "totalDutyAmount {\n\tamount\n\tcurrencyCode\n}\n"@
        + "totalDutyAmountEstimated\n"@
        + "totalTaxAmount {\n\tamount\n\tcurrencyCode\n}\n"@
        + "totalTaxAmountEstimated\n}"@
}

/// Each argument as `name: signature, `.
pub open spec fn cost_arg_list(args: Seq<(Seq<char>, GValue)>) -> Seq<char>
    decreases args.len(),
{
    if args.len() == 0 {
        seq![]
    } else {
        cost_arg_list(args.drop_last()) + args.last().0 + ": "@ + signature_of(args.last().1)
            + ", "@
    }
}

pub open spec fn cost_selection(args: Seq<(Seq<char>, GValue)>) -> Seq<char> {
    (if args.len() > 0 {
        "cost("@ + cost_arg_list(args) + ") {\n"@
    } else {
        "cost {\n"@
    }) + cost_fields()
}

pub open spec fn line_cost_selection() -> Seq<char> {
    "{\n\tamountPerQuantity "@ + money_selection() + "\n\tsubtotalAmount "@ + money_selection()
        + "\n\ttotalAmount "@ + money_selection() + "\n}"@
}

pub open spec fn merchandise_selection() -> Seq<char> {
    "{\n... on ProductVariant {\nid\ntitle\n}\n}"@
}

pub open spec fn line_item_selection() -> Seq<char> {
    "{\nid\nquantity\nmerchandise "@ + merchandise_selection() + "\ncost "@ + line_cost_selection()
        + "}"@
}

pub open spec fn user_error_selection() -> Seq<char> {
    "{ field\nmessage }"@
}

/// Each name bound to the same-named variable, `name: $name`, joined by `", "`.
pub open spec fn bindings(args: Seq<(Seq<char>, GValue)>) -> Seq<char>
    decreases args.len(),
{
    if args.len() == 0 {
        seq![]
    } else if args.len() == 1 {
        args[0].0 + ": $"@ + args[0].0
    } else {
        bindings(args.drop_last()) + ", "@ + args.last().0 + ": $"@ + args.last().0
    }
}

pub open spec fn cart_selection(args: Seq<(Seq<char>, GValue)>) -> Seq<char> {
    (if args.len() > 0 {
        "cart("@ + bindings(args) + ") {\n\tid\n\tcheckoutUrl\n"@
    } else {
        "cart {\n\tid\n\tcheckoutUrl\n"@
    }) + indented(cost_selection(seq![]), 1) + "\ntotalQuantity\nlines(first: 250) {\nnodes "@
        + line_item_selection() + "\n}\n}"@
}

fn money_text() -> (r: String)
    ensures
        r@ == money_selection(),
{
    String::from_str("{\n\tamount\n\tcurrencyCode\n}")
}

fn cost_text(args: &Vec<(String, ShopifyGraphQLType)>) -> (r: String)
    ensures
        r@ == cost_selection(fields_view(args@)),
{
    let mut s = String::new();
    proof {
        lemma_fields_view_len(args@);
    }
    if args.len() > 0 {
        s.append("cost(");
        let mut i: usize = 0;
        while i < args.len()
            invariant
                i <= args@.len(),
                s@ == "cost("@ + cost_arg_list(fields_view(args@.subrange(0, i as int))),
            decreases args.len() - i,
        {
            let t = args[i].1.to_string();
            proof {
                lemma_fields_view_step(args@, i as int);
                let q = fields_view(args@.subrange(0, i as int + 1));
                assert(q.drop_last() =~= fields_view(args@.subrange(0, i as int)));
                assert(q.last() == field_view(args@[i as int]));
            }
            s.append(args[i].0.as_str());
            s.append(": ");
            s.append(t.as_str());
            s.append(", ");
            i = i + 1;
            proof {
                let q = fields_view(args@.subrange(0, i as int));
                assert(s@ =~= "cost("@ + cost_arg_list(q));
            }
        }
        assert(args@.subrange(0, args@.len() as int) =~= args@);
        s.append(") {\n");
    } else {
        s.append("cost {\n");
    }
    s.append("checkoutChargeAmount {\n\tamount\n\tcurrencyCode\n}\n");
    s.append("subtotalAmount {\n\tamount\n\tcurrencyCode\n}\n");
    s.append("subtotalAmountEstimated\n");
    s.append("totalAmount {\n\tamount\n\tcurrencyCode\n}\n");
    s.append("totalAmountEstimated\n");
    s.append("totalDutyAmount {\n\tamount\n\tcurrencyCode\n}\n");
    s.append("totalDutyAmountEstimated\n");
    s.append("totalTaxAmount {\n\tamount\n\tcurrencyCode\n}\n");
    s.append("totalTaxAmountEstimated\n}");
    assert(s@ =~= cost_selection(fields_view(args@)));
    s
}

fn line_cost_text() -> (r: String)
    ensures
        r@ == line_cost_selection(),
{
    let m = money_text();
    let mut s = String::from_str("{\n\tamountPerQuantity ");
    s.append(m.as_str());
    s.append("\n\tsubtotalAmount ");
    s.append(m.as_str());
    s.append("\n\ttotalAmount ");
    s.append(m.as_str());
    s.append("\n}");
    assert(s@ =~= line_cost_selection());
    s
}

fn merchandise_text() -> (r: String)
    ensures
        r@ == merchandise_selection(),
{
    String::from_str("{\n... on ProductVariant {\nid\ntitle\n}\n}")
}

fn line_item_text() -> (r: String)
    ensures
        r@ == line_item_selection(),
{
    let mut s = String::from_str("{\nid\nquantity\nmerchandise ");
    let m = merchandise_text();
    s.append(m.as_str());
    s.append("\ncost ");
    let c = line_cost_text();
    s.append(c.as_str());
    s.append("}");
    assert(s@ =~= line_item_selection());
    s
}

/// Appends each name bound to the same-named variable (see [`bindings`]).
pub fn append_bindings(out: &mut String, args: &Vec<(String, ShopifyGraphQLType)>)
    ensures
        final(out)@ == old(out)@ + bindings(fields_view(args@)),
{
    let mut i: usize = 0;
    while i < args.len()
        invariant
            i <= args@.len(),
            out@ == old(out)@ + bindings(fields_view(args@.subrange(0, i as int))),
        decreases args.len() - i,
    {
        proof {
            lemma_fields_view_step(args@, i as int);
            lemma_fields_view_len(args@.subrange(0, i as int));
            let q = fields_view(args@.subrange(0, i as int + 1));
            assert(q.drop_last() =~= fields_view(args@.subrange(0, i as int)));
            assert(q.last() == field_view(args@[i as int]));
            if i == 0 {
                assert(q[0] == q.last());
            }
        }
        if i > 0 {
            out.append(", ");
        }
        out.append(args[i].0.as_str());
        out.append(": $");
        out.append(args[i].0.as_str());
        i = i + 1;
        proof {
            let q = fields_view(args@.subrange(0, i as int));
            assert(out@ =~= old(out)@ + bindings(q));
        }
    }
    assert(args@.subrange(0, args@.len() as int) =~= args@);
}

fn cart_text(args: &Vec<(String, ShopifyGraphQLType)>) -> (r: String)
    ensures
        r@ == cart_selection(fields_view(args@)),
{
    let mut s = String::new();
    proof {
        lemma_fields_view_len(args@);
    }
    if args.len() > 0 {
        s.append("cart(");
        append_bindings(&mut s, args);
        s.append(") {\n\tid\n\tcheckoutUrl\n");
    } else {
        s.append("cart {\n\tid\n\tcheckoutUrl\n");
    }
    let none: Vec<(String, ShopifyGraphQLType)> = Vec::new();
    let c = cost_text(&none);
    assert(fields_view(none@) =~= Seq::<(Seq<char>, GValue)>::empty());
    let t = add_tabs_to_lines(c.as_str(), 1);
    s.append(t.as_str());
    s.append("\ntotalQuantity\nlines(first: 250) {\nnodes ");
    let l = line_item_text();
    s.append(l.as_str());
    s.append("\n}\n}");
    assert(s@ =~= cart_selection(fields_view(args@)));
    s
}

// ---------------------------------------------------------------------------
// Selection types
// ---------------------------------------------------------------------------
/// An amount of money in a currency.
#[derive(Debug, Clone, Default)]
pub struct MoneyV2 {
    pub amount: String,
    pub currency_code: String,
}

impl GraphQLRepresentable for MoneyV2 {
    open spec fn graphql_of(&self, args: Seq<(Seq<char>, GValue)>) -> Seq<char> {
        money_selection()
    }

    open spec fn label_of(&self) -> Seq<char> {
        "cost"@
    }

    fn to_graphql(&self, args: &Vec<(String, ShopifyGraphQLType)>) -> (r: String) {
        money_text()
    }

    fn label(&self) -> (r: String) {
        String::from_str("cost")
    }
}

/// The cost breakdown of a cart.
#[derive(Debug, Clone)]
pub struct CostRepresentation {
    pub checkout_charge_amount: MoneyV2,
    pub subtotal_amount: MoneyV2,
    pub subtotal_amount_estimated: bool,
    pub total_amount: MoneyV2,
    pub total_amount_estimated: bool,
    pub total_duty_amount: Option<MoneyV2>,
    pub total_duty_amount_estimated: bool,
    pub total_tax_amount: Option<MoneyV2>,
    pub total_tax_amount_estimated: bool,
}

impl GraphQLRepresentable for CostRepresentation {
    open spec fn graphql_of(&self, args: Seq<(Seq<char>, GValue)>) -> Seq<char> {
        cost_selection(args)
    }

    open spec fn label_of(&self) -> Seq<char> {
        "cost"@
    }

    fn to_graphql(&self, args: &Vec<(String, ShopifyGraphQLType)>) -> (r: String) {
        cost_text(args)
    }

    fn label(&self) -> (r: String) {
        String::from_str("cost")
    }
}

/// The cost of one cart line.
#[derive(Debug, Clone, Default)]
pub struct CartLineCost {
    pub amount_per_quantity: MoneyV2,
    pub subtotal_amount: MoneyV2,
    pub total_amount: MoneyV2,
}

impl GraphQLRepresentable for CartLineCost {
    open spec fn graphql_of(&self, args: Seq<(Seq<char>, GValue)>) -> Seq<char> {
        line_cost_selection()
    }

    open spec fn label_of(&self) -> Seq<char> {
        "cost"@
    }

    fn to_graphql(&self, args: &Vec<(String, ShopifyGraphQLType)>) -> (r: String) {
        line_cost_text()
    }

    fn label(&self) -> (r: String) {
        String::from_str("cost")
    }
}

/// The product variant a cart line holds.
#[derive(Debug, Clone, Default)]
pub struct Merchandise {
    pub id: String,
    pub title: String,
}

impl GraphQLRepresentable for Merchandise {
    open spec fn graphql_of(&self, args: Seq<(Seq<char>, GValue)>) -> Seq<char> {
        merchandise_selection()
    }

    open spec fn label_of(&self) -> Seq<char> {
        "merchandise"@
    }

    fn to_graphql(&self, args: &Vec<(String, ShopifyGraphQLType)>) -> (r: String) {
        merchandise_text()
    }

    fn label(&self) -> (r: String) {
        String::from_str("merchandise")
    }
}

/// One line of a cart.
#[derive(Debug, Clone, Default)]
pub struct LineItem {
    pub id: String,
    pub quantity: u32,
    pub merchandise: Merchandise,
    pub cost: CartLineCost,
}

impl GraphQLRepresentable for LineItem {
    open spec fn graphql_of(&self, args: Seq<(Seq<char>, GValue)>) -> Seq<char> {
        line_item_selection()
    }

    open spec fn label_of(&self) -> Seq<char> {
        "lines"@
    }

    fn to_graphql(&self, args: &Vec<(String, ShopifyGraphQLType)>) -> (r: String) {
        line_item_text()
    }

    fn label(&self) -> (r: String) {
        String::from_str("lines")
    }
}

/// The lines of a cart.
#[derive(Debug, Clone, Default)]
pub struct LineItemAPIRepresentation {
    pub nodes: Vec<LineItem>,
}

/// A cart as the storefront returns it.
#[derive(Debug, Clone)]
pub struct CartAPIRepresentation {
    pub id: String,
    pub checkout_url: String,
    pub cost: CostRepresentation,
    pub total_quantity: u32,
    pub lines: LineItemAPIRepresentation,
}

/// Money with no amount and no currency.
pub open spec fn is_blank_money(m: MoneyV2) -> bool {
    m.amount@.len() == 0 && m.currency_code@.len() == 0
}

/// A cart with empty texts, zero quantity, no lines and a blank cost.
pub open spec fn is_blank_cart(c: CartAPIRepresentation) -> bool {
    &&& c.id@.len() == 0
    &&& c.checkout_url@.len() == 0
    &&& c.total_quantity == 0
    &&& c.lines.nodes@.len() == 0
    &&& is_blank_money(c.cost.checkout_charge_amount)
    &&& is_blank_money(c.cost.subtotal_amount)
    &&& is_blank_money(c.cost.total_amount)
    &&& c.cost.total_duty_amount is None
    &&& c.cost.total_tax_amount is None
    &&& !c.cost.subtotal_amount_estimated
    &&& !c.cost.total_amount_estimated
    &&& !c.cost.total_duty_amount_estimated
    &&& !c.cost.total_tax_amount_estimated
}

fn blank_money() -> (r: MoneyV2)
    ensures
        is_blank_money(r),
{
    MoneyV2 { amount: String::new(), currency_code: String::new() }
}

impl Default for CartAPIRepresentation {
    fn default() -> (r: Self)
        ensures
            is_blank_cart(r),
    {
        CartAPIRepresentation {
            id: String::new(),
            checkout_url: String::new(),
            cost: CostRepresentation {
                checkout_charge_amount: blank_money(),
                subtotal_amount: blank_money(),
                subtotal_amount_estimated: false,
                total_amount: blank_money(),
                total_amount_estimated: false,
                total_duty_amount: None,
                total_duty_amount_estimated: false,
                total_tax_amount: None,
                total_tax_amount_estimated: false,
            },
            total_quantity: 0,
            lines: LineItemAPIRepresentation { nodes: Vec::new() },
        }
    }
}

impl GraphQLRepresentable for CartAPIRepresentation {
    open spec fn graphql_of(&self, args: Seq<(Seq<char>, GValue)>) -> Seq<char> {
        cart_selection(args)
    }

    open spec fn label_of(&self) -> Seq<char> {
        "cart"@
    }

    fn to_graphql(&self, args: &Vec<(String, ShopifyGraphQLType)>) -> (r: String) {
        cart_text(args)
    }

    fn label(&self) -> (r: String) {
        String::from_str("cart")
    }
}

/// A validation failure the storefront reports for a cart operation.
#[derive(Debug, Clone)]
pub struct UserError {
    pub field: String,
    pub message: String,
}

impl GraphQLRepresentable for UserError {
    open spec fn graphql_of(&self, args: Seq<(Seq<char>, GValue)>) -> Seq<char> {
        user_error_selection()
    }

    open spec fn label_of(&self) -> Seq<char> {
        "userError"@
    }

    fn to_graphql(&self, args: &Vec<(String, ShopifyGraphQLType)>) -> (r: String) {
        String::from_str("{ field\nmessage }")
    }

    fn label(&self) -> (r: String) {
        String::from_str("userError")
    }
}

/// A request-level error from the GraphQL endpoint.
#[derive(Debug, Clone)]
pub struct GraphQLError {
    pub message: String,
    pub path: Vec<String>,
    pub locations: Vec<String>,
}

} // verus!
