//! The JSON grammar, as a predicate on text, and the fact that value
//! literals are JSON.
use vstd::prelude::*;
use crate::value::{
    digit_text, escape_char, escaped, hex_text, int_text, items_literal, fields_literal,
    literal_of, member_literal, nat_text, needs_escape, quoted, GValue,
};

use crate::query::{flat_pairs, lemma_variables_payload_is_literal, variables_json, GraphQLQuery};
use crate::selection::GraphQLRepresentable;

verus! {

broadcast use vstd::seq::group_seq_axioms;

pub open spec fn is_ws(c: char) -> bool {
    c == ' ' || c == '\t' || c == '\n' || c == '\r'
}

pub open spec fn all_ws(s: Seq<char>) -> bool {
    forall|i: int| 0 <= i < s.len() ==> is_ws(#[trigger] s[i])
}

pub open spec fn is_dec_digit(c: char) -> bool {
    '0' <= c && c <= '9'
}

pub open spec fn all_digits(s: Seq<char>) -> bool {
    forall|i: int| 0 <= i < s.len() ==> is_dec_digit(#[trigger] s[i])
}

pub open spec fn is_hex_digit(c: char) -> bool {
    ('0' <= c && c <= '9') || ('a' <= c && c <= 'f') || ('A' <= c && c <= 'F')
}

/// A character a JSON string may hold as itself.
pub open spec fn is_plain_char(c: char) -> bool {
    c != '"' && c != '\\' && (c as u32) >= 0x20
}

/// An escape sequence inside a JSON string.
pub open spec fn is_escape_unit(u: Seq<char>) -> bool {
    ||| (u.len() == 2 && u[0] == '\\' && (u[1] == '"' || u[1] == '\\' || u[1] == '/' || u[1] == 'b'
        || u[1] == 'f' || u[1] == 'n' || u[1] == 'r' || u[1] == 't'))
    ||| (u.len() == 6 && u[0] == '\\' && u[1] == 'u' && is_hex_digit(u[2]) && is_hex_digit(u[3])
        && is_hex_digit(u[4]) && is_hex_digit(u[5]))
}

/// The characters between the quotes of a JSON string: a run of plain
/// characters and escape sequences.
pub open spec fn is_string_body(b: Seq<char>) -> bool
    decreases b.len(),
{
    ||| b.len() == 0
    ||| (is_plain_char(b.last()) && is_string_body(b.drop_last()))
    ||| (b.len() >= 2 && is_escape_unit(b.subrange(b.len() - 2, b.len() as int)) && is_string_body(
        b.subrange(0, b.len() - 2),
    ))
    ||| (b.len() >= 6 && is_escape_unit(b.subrange(b.len() - 6, b.len() as int)) && is_string_body(
        b.subrange(0, b.len() - 6),
    ))
}

pub open spec fn is_json_string(t: Seq<char>) -> bool {
    t.len() >= 2 && t[0] == '"' && t.last() == '"' && is_string_body(t.subrange(1, t.len() - 1))
}

/// The integer part of a number: `0`, or digits not starting with `0`.
pub open spec fn is_int_part(s: Seq<char>) -> bool {
    s == seq!['0'] || (s.len() >= 1 && '1' <= s[0] && s[0] <= '9' && all_digits(s))
}

pub open spec fn is_frac_part(s: Seq<char>) -> bool {
    s.len() == 0 || (s.len() >= 2 && s[0] == '.' && all_digits(s.drop_first()))
}

pub open spec fn is_exp_part(s: Seq<char>) -> bool {
    ||| s.len() == 0
    ||| (s.len() >= 2 && (s[0] == 'e' || s[0] == 'E') && all_digits(s.drop_first()))
    ||| (s.len() >= 3 && (s[0] == 'e' || s[0] == 'E') && (s[1] == '+' || s[1] == '-') && all_digits(
        s.subrange(2, s.len() as int),
    ))
}

pub open spec fn is_json_number(t: Seq<char>) -> bool {
    exists|i: int, j: int, k: int|
        0 <= i <= 1 && i <= j <= k <= t.len() && (i == 1 ==> t[0] == '-') && is_int_part(
            #[trigger] t.subrange(i, j),
        ) && is_frac_part(t.subrange(j, k)) && is_exp_part(#[trigger] t.subrange(k, t.len() as int))
}

/// A JSON value.
pub open spec fn is_json_value(t: Seq<char>) -> bool
    decreases t.len(), 0nat,
{
    ||| is_json_string(t)
    ||| is_json_number(t)
    ||| t == "true"@
    ||| t == "false"@
    ||| t == "null"@
    ||| (t.len() >= 2 && t[0] == '[' && t.last() == ']' && is_elements(t.subrange(1, t.len() - 1)))
    ||| (t.len() >= 2 && t[0] == '{' && t.last() == '}' && is_members(t.subrange(1, t.len() - 1)))
}

/// A JSON value with whitespace around it.
pub open spec fn is_padded_value(t: Seq<char>) -> bool
    decreases t.len(), 1nat,
{
    exists|i: int, j: int|
        0 <= i <= j <= t.len() && all_ws(t.subrange(0, i)) && all_ws(t.subrange(j, t.len() as int))
            && is_json_value(#[trigger] t.subrange(i, j))
}

/// Padded values separated by commas.
pub open spec fn is_value_list(e: Seq<char>) -> bool
    decreases e.len(), 2nat,
{
    ||| is_padded_value(e)
    ||| exists|k: int|
        0 <= k < e.len() && e[k] == ',' && is_value_list(#[trigger] e.subrange(0, k)) && is_padded_value(
            e.subrange(k + 1, e.len() as int),
        )
}

/// The inside of an array.
pub open spec fn is_elements(e: Seq<char>) -> bool
    decreases e.len(), 3nat,
{
    all_ws(e) || is_value_list(e)
}

/// A JSON string with whitespace around it.
pub open spec fn is_padded_string(t: Seq<char>) -> bool {
    exists|i: int, j: int|
        0 <= i <= j <= t.len() && all_ws(t.subrange(0, i)) && all_ws(t.subrange(j, t.len() as int))
            && is_json_string(#[trigger] t.subrange(i, j))
}

/// A member `name: value` of an object.
pub open spec fn is_member(m: Seq<char>) -> bool
    decreases m.len(), 2nat,
{
    exists|k: int|
        0 <= k < m.len() && m[k] == ':' && is_padded_string(#[trigger] m.subrange(0, k))
            && is_padded_value(m.subrange(k + 1, m.len() as int))
}

/// Members separated by commas.
pub open spec fn is_member_list(m: Seq<char>) -> bool
    decreases m.len(), 3nat,
{
    ||| is_member(m)
    ||| exists|k: int|
        0 <= k < m.len() && m[k] == ',' && is_member_list(#[trigger] m.subrange(0, k)) && is_member(
            m.subrange(k + 1, m.len() as int),
        )
}

/// The inside of an object.
pub open spec fn is_members(m: Seq<char>) -> bool
    decreases m.len(), 4nat,
{
    all_ws(m) || is_member_list(m)
}

// ---------------------------------------------------------------------------
// Literals are JSON
// ---------------------------------------------------------------------------
/// Every raw JSON text and decimal text within `v` is itself a JSON value.
pub open spec fn raw_texts_are_json(v: GValue) -> bool
    decreases v,
{
    match v {
        GValue::Decimal(t) => is_json_value(t),
        GValue::RawJSON(t) => is_json_value(t),
        GValue::List(items) => forall|i: int|
            0 <= i < items.len() ==> raw_texts_are_json(#[trigger] items[i]),
        GValue::Record(fields) => forall|i: int|
            0 <= i < fields.len() ==> raw_texts_are_json(#[trigger] fields[i].1),
        GValue::Named(_, inner) => raw_texts_are_json(*inner),
        _ => true,
    }
}

proof fn lemma_digit_text(d: nat)
    requires
        d < 10,
    ensures
        digit_text(d).len() == 1,
        is_dec_digit(digit_text(d)[0]),
        is_hex_digit(digit_text(d)[0]),
        d > 0 ==> digit_text(d)[0] != '0',
        d == 0 ==> digit_text(d) == seq!['0'],
{
    reveal_strlit("0");
    reveal_strlit("1");
    reveal_strlit("2");
    reveal_strlit("3");
    reveal_strlit("4");
    reveal_strlit("5");
    reveal_strlit("6");
    reveal_strlit("7");
    reveal_strlit("8");
    reveal_strlit("9");
    if d == 0 {
        assert(digit_text(d) =~= seq!['0']);
    }
}

proof fn lemma_hex_text(d: nat)
    requires
        d < 16,
    ensures
        hex_text(d).len() == 1,
        is_hex_digit(hex_text(d)[0]),
{
    reveal_strlit("a");
    reveal_strlit("b");
    reveal_strlit("c");
    reveal_strlit("d");
    reveal_strlit("e");
    reveal_strlit("f");
    if d < 10 {
        lemma_digit_text(d);
    }
}

/// The JSON escape of a character is a plain character or an escape sequence.
proof fn lemma_escape_char(c: char)
    ensures
        !needs_escape(c) ==> escape_char(c) == seq![c] && is_plain_char(c),
        c == '"' || c == '\\' || c == '\n' || c == '\r' || c == '\t' ==> is_escape_unit(
            escape_char(c),
        ),
        needs_escape(c) && !(c == '"' || c == '\\' || c == '\n' || c == '\r' || c == '\t')
            ==> is_escape_unit(escape_char(c)),
{
    reveal_strlit("\\\"");
    reveal_strlit("\\\\");
    reveal_strlit("\\n");
    reveal_strlit("\\r");
    reveal_strlit("\\t");
    reveal_strlit("\\u00");
    if needs_escape(c) && !(c == '"' || c == '\\' || c == '\n' || c == '\r' || c == '\t') {
        let hi = (c as u32 / 16) as nat;
        let lo = (c as u32 % 16) as nat;
        lemma_hex_text(hi);
        lemma_hex_text(lo);
        let u = escape_char(c);
        assert(u == "\\u00"@ + hex_text(hi) + hex_text(lo));
        assert(u.len() == 6);
        assert(u[4] == hex_text(hi)[0]);
        assert(u[5] == hex_text(lo)[0]);
        assert(u[2] == '0' && u[3] == '0');
    }
}

/// Escaped text is the body of a JSON string.
pub proof fn lemma_escaped_is_string_body(s: Seq<char>)
    ensures
        is_string_body(escaped(s)),
    decreases s.len(),
{
    if s.len() > 0 {
        let p = escaped(s.drop_last());
        let c = s.last();
        let e = escape_char(c);
        let b = p + e;
        lemma_escaped_is_string_body(s.drop_last());
        lemma_escape_char(c);
        assert(escaped(s) == b);
        if !needs_escape(c) {
            assert(b.drop_last() =~= p);
        } else {
            let n = e.len() as int;
            assert(b.subrange(b.len() - n, b.len() as int) =~= e);
            assert(b.subrange(0, b.len() - n) =~= p);
        }
    }
}

/// A quoted text is a JSON string.
pub proof fn lemma_quoted_is_json_string(s: Seq<char>)
    ensures
        is_json_string(quoted(s)),
{
    reveal_strlit("\"");
    let t = quoted(s);
    lemma_escaped_is_string_body(s);
    assert(t.subrange(1, t.len() - 1) =~= escaped(s));
}

proof fn lemma_nat_text(n: nat)
    ensures
        nat_text(n).len() >= 1,
        all_digits(nat_text(n)),
        n > 0 ==> nat_text(n)[0] != '0',
        n == 0 ==> nat_text(n) == seq!['0'],
    decreases n,
{
    if n < 10 {
        lemma_digit_text(n);
    } else {
        lemma_nat_text(n / 10);
        lemma_digit_text(n % 10);
        let a = nat_text(n / 10);
        let b = digit_text(n % 10);
        assert(nat_text(n) == a + b);
        assert forall|i: int| 0 <= i < (a + b).len() implies is_dec_digit(#[trigger] (a + b)[i]) by {
            if i < a.len() {
                assert((a + b)[i] == a[i]);
            } else {
                assert((a + b)[i] == b[i - a.len()]);
            }
        }
    }
}

/// The decimal text of an integer is a JSON number.
pub proof fn lemma_int_text_is_number(i: int)
    ensures
        is_json_number(int_text(i)),
{
    reveal_strlit("-");
    let t = int_text(i);
    if i < 0 {
        let m = (-i) as nat;
        lemma_nat_text(m);
        assert(t.subrange(1, t.len() as int) =~= nat_text(m));
        assert(t.subrange(t.len() as int, t.len() as int) =~= Seq::<char>::empty());
        assert(is_int_part(t.subrange(1, t.len() as int)));
        assert(is_frac_part(t.subrange(t.len() as int, t.len() as int)));
        assert(is_exp_part(t.subrange(t.len() as int, t.len() as int)));
        assert(t[0] == '-');
    } else {
        lemma_nat_text(i as nat);
        assert(t.subrange(0, t.len() as int) =~= t);
        assert(t.subrange(t.len() as int, t.len() as int) =~= Seq::<char>::empty());
        assert(is_int_part(t.subrange(0, t.len() as int)));
        assert(is_frac_part(t.subrange(t.len() as int, t.len() as int)));
        assert(is_exp_part(t.subrange(t.len() as int, t.len() as int)));
    }
}

/// A JSON value after whitespace is a padded value.
proof fn lemma_pad(w: Seq<char>, t: Seq<char>)
    requires
        all_ws(w),
        is_json_value(t),
    ensures
        is_padded_value(w + t),
{
    let x = w + t;
    assert(x.subrange(0, w.len() as int) =~= w);
    assert(x.subrange(w.len() as int, x.len() as int) =~= t);
    assert(x.subrange(x.len() as int, x.len() as int) =~= Seq::<char>::empty());
    assert(all_ws(x.subrange(x.len() as int, x.len() as int)));
}

/// The literal of a value is a JSON value, given that its raw JSON and
/// decimal texts are.
pub proof fn lemma_literal_is_json(v: GValue)
    requires
        raw_texts_are_json(v),
    ensures
        is_json_value(literal_of(v)),
    decreases v,
{
    reveal_strlit("[");
    reveal_strlit("]");
    reveal_strlit("{");
    reveal_strlit("}");
    match v {
        GValue::Identifier(s) => lemma_quoted_is_json_string(s),
        GValue::Text(s) => lemma_quoted_is_json_string(s),
        GValue::Boolean(b) => {},
        GValue::Integer(i) => lemma_int_text_is_number(i),
        GValue::Decimal(t) => {},
        GValue::RawJSON(t) => {},
        GValue::List(items) => {
            let t = literal_of(v);
            let inner = items_literal(items);
            assert(t.subrange(1, t.len() - 1) =~= inner);
            if items.len() == 0 {
                assert(inner =~= Seq::<char>::empty());
                assert(all_ws(inner));
            } else {
                lemma_items_are_value_list(items);
            }
        },
        GValue::Record(fields) => {
            let t = literal_of(v);
            let inner = fields_literal(fields);
            assert(t.subrange(1, t.len() - 1) =~= inner);
            if fields.len() == 0 {
                assert(inner =~= Seq::<char>::empty());
                assert(all_ws(inner));
            } else {
                lemma_fields_are_member_list(fields);
            }
        },
        GValue::Named(_, inner) => lemma_literal_is_json(*inner),
    }
}

proof fn lemma_items_are_value_list(items: Seq<GValue>)
    requires
        items.len() > 0,
        forall|i: int| 0 <= i < items.len() ==> raw_texts_are_json(#[trigger] items[i]),
    ensures
        is_value_list(items_literal(items)),
    decreases items,
{
    let last = items.last();
    lemma_literal_is_json(last);
    if items.len() == 1 {
        lemma_pad(Seq::<char>::empty(), literal_of(items[0]));
        assert(Seq::<char>::empty() + literal_of(items[0]) =~= items_literal(items));
    } else {
        let p = items_literal(items.drop_last());
        let l = items_literal(items);
        reveal_strlit(", ");
        lemma_items_are_value_list(items.drop_last());
        let k = p.len() as int;
        assert(l == p + ", "@ + literal_of(last));
        assert(l[k] == ',');
        assert(l.subrange(0, k) =~= p);
        assert(all_ws(seq![' ']));
        lemma_pad(seq![' '], literal_of(last));
        assert(l.subrange(k + 1, l.len() as int) =~= seq![' '] + literal_of(last));
    }
}

proof fn lemma_member_is_json(f: (Seq<char>, GValue))
    requires
        raw_texts_are_json(f.1),
    ensures
        is_member(member_literal(f)),
    decreases f,
{
    reveal_strlit(": ");
    lemma_literal_is_json(f.1);
    lemma_quoted_is_json_string(f.0);
    let q = quoted(f.0);
    let m = member_literal(f);
    let k = q.len() as int;
    assert(m == q + ": "@ + literal_of(f.1));
    assert(m[k] == ':');
    assert(m.subrange(0, k) =~= q);
    assert(q.subrange(0, 0) =~= Seq::<char>::empty());
    assert(q.subrange(q.len() as int, q.len() as int) =~= Seq::<char>::empty());
    assert(q.subrange(0, q.len() as int) =~= q);
    assert(is_padded_string(q));
    assert(all_ws(seq![' ']));
    lemma_pad(seq![' '], literal_of(f.1));
    assert(m.subrange(k + 1, m.len() as int) =~= seq![' '] + literal_of(f.1));
}

proof fn lemma_fields_are_member_list(fields: Seq<(Seq<char>, GValue)>)
    requires
        fields.len() > 0,
        forall|i: int| 0 <= i < fields.len() ==> raw_texts_are_json(#[trigger] fields[i].1),
    ensures
        is_member_list(fields_literal(fields)),
    decreases fields,
{
    let last = fields.last();
    lemma_member_is_json(last);
    if fields.len() > 1 {
        let p = fields_literal(fields.drop_last());
        let l = fields_literal(fields);
        reveal_strlit(", ");
        lemma_fields_are_member_list(fields.drop_last());
        let k = p.len() as int;
        assert(l == p + ", "@ + member_literal(last));
        assert(l[k] == ',');
        assert(l.subrange(0, k) =~= p);
        assert(l.subrange(k + 1, l.len() as int) =~= seq![' '] + member_literal(last));
        lemma_member_after_space(member_literal(last));
    }
}

/// A member after a space is still a member: the space pads its name.
proof fn lemma_member_after_space(m: Seq<char>)
    requires
        is_member(m),
    ensures
        is_member(seq![' '] + m),
{
    let k = choose|k: int|
        0 <= k < m.len() && m[k] == ':' && is_padded_string(#[trigger] m.subrange(0, k))
            && is_padded_value(m.subrange(k + 1, m.len() as int));
    let x = seq![' '] + m;
    let name = m.subrange(0, k);
    let (i, j) = choose|i: int, j: int|
        0 <= i <= j <= name.len() && all_ws(name.subrange(0, i)) && all_ws(
            name.subrange(j, name.len() as int),
        ) && is_json_string(#[trigger] name.subrange(i, j));
    let xname = x.subrange(0, k + 1);
    assert(xname =~= seq![' '] + name);
    assert(xname.subrange(i + 1, j + 1) =~= name.subrange(i, j));
    assert(xname.subrange(0, i + 1) =~= seq![' '] + name.subrange(0, i));
    assert(all_ws(xname.subrange(0, i + 1)));
    assert(xname.subrange(j + 1, xname.len() as int) =~= name.subrange(j, name.len() as int));
    assert(is_padded_string(xname));
    assert(x[k + 1] == ':');
    assert(x.subrange(k + 2, x.len() as int) =~= m.subrange(k + 1, m.len() as int));
}

/// The raw texts within every pair of the variables payload are JSON when
/// those of every variable are.
proof fn lemma_flat_pairs_raw_texts(vars: Seq<(Seq<char>, GValue)>)
    requires
        forall|i: int| 0 <= i < vars.len() ==> raw_texts_are_json(#[trigger] vars[i].1),
    ensures
        forall|i: int|
            0 <= i < flat_pairs(vars).len() ==> raw_texts_are_json(#[trigger] flat_pairs(vars)[i].1),
    decreases vars.len(),
{
    if vars.len() > 0 {
        let d = vars.drop_last();
        assert forall|i: int| 0 <= i < d.len() implies raw_texts_are_json(#[trigger] d[i].1) by {
            assert(d[i] == vars[i]);
        }
        lemma_flat_pairs_raw_texts(d);
        let a = flat_pairs(d);
        let last = vars.last();
        assert(raw_texts_are_json(vars[vars.len() - 1].1));
        let chunk = match last.1 {
            GValue::Record(fields) => fields,
            _ => seq![last],
        };
        assert(flat_pairs(vars) == a + chunk);
        assert forall|i: int| 0 <= i < (a + chunk).len() implies raw_texts_are_json(
            #[trigger] (a + chunk)[i].1,
        ) by {
            if i < a.len() {
                assert((a + chunk)[i] == a[i]);
            } else {
                assert((a + chunk)[i] == chunk[i - a.len()]);
            }
        }
    }
}

/// The literal of a value is JSON whenever the raw JSON and decimal texts in
/// it are, and so is the variables payload. In that payload a variable that
/// is not a record appears as exactly its literal under its own name, so
/// reading the payload gives back what reading the literal gives; a record
/// variable instead contributes its own members to the payload object.
pub proof fn lemma_payload_literals_are_json(vars: Seq<(Seq<char>, GValue)>, k: Seq<char>, v: GValue)
    requires
        raw_texts_are_json(v),
        forall|i: int| 0 <= i < vars.len() ==> raw_texts_are_json(#[trigger] vars[i].1),
    ensures
        is_json_value(literal_of(v)),
        is_json_value(variables_json(vars)),
        !(v is Record) ==> variables_json(seq![(k, v)]) == "{"@ + quoted(k) + ": "@ + literal_of(v)
            + "}"@,
        v is Record ==> variables_json(seq![(k, v)]) == literal_of(v),
{
    lemma_literal_is_json(v);
    lemma_flat_pairs_raw_texts(vars);
    lemma_variables_payload_is_literal(vars, k, v);
    lemma_literal_is_json(GValue::Record(flat_pairs(vars)));
}

/// `pre name : gap value`, with whitespace `pre` and `gap`, is a member.
proof fn lemma_member_parts(pre: Seq<char>, name: Seq<char>, gap: Seq<char>, value: Seq<char>)
    requires
        all_ws(pre),
        is_json_string(name),
        all_ws(gap),
        is_json_value(value),
    ensures
        is_member(pre + name + seq![':'] + gap + value),
{
    let m = pre + name + seq![':'] + gap + value;
    let k = (pre.len() + name.len()) as int;
    let head = m.subrange(0, k);
    assert(head =~= pre + name);
    assert(head.subrange(0, pre.len() as int) =~= pre);
    assert(head.subrange(pre.len() as int, k) =~= name);
    assert(head.subrange(k, k) =~= Seq::<char>::empty());
    assert(all_ws(head.subrange(k, k)));
    assert(is_padded_string(head));
    assert(m[k] == ':');
    lemma_pad(gap, value);
    assert(m.subrange(k + 1, m.len() as int) =~= gap + value);
}

proof fn lemma_plain_body(b: Seq<char>)
    requires
        forall|i: int| 0 <= i < b.len() ==> is_plain_char(#[trigger] b[i]),
    ensures
        is_string_body(b),
    decreases b.len(),
{
    if b.len() > 0 {
        let d = b.drop_last();
        assert forall|i: int| 0 <= i < d.len() implies is_plain_char(#[trigger] d[i]) by {
            assert(d[i] == b[i]);
        }
        lemma_plain_body(d);
        assert(is_plain_char(b[b.len() - 1]));
    }
}

/// The request body is a JSON object whenever the raw JSON and decimal
/// texts of its variables are JSON.
pub proof fn lemma_payload_is_json<T: GraphQLRepresentable>(q: GraphQLQuery<T>)
    requires
        forall|i: int| 0 <= i < q.vars().len() ==> raw_texts_are_json(#[trigger] q.vars()[i].1),
    ensures
        is_json_value(q.payload()),
{
    let doc = q.document(q.vars());
    let vj = variables_json(q.vars());
    reveal_strlit("{\"query\":\"");
    reveal_strlit("\", \"variables\": ");
    reveal_strlit("}");
    reveal_strlit("\"");
    let nq = seq!['"', 'q', 'u', 'e', 'r', 'y', '"'];
    let nv = seq!['"', 'v', 'a', 'r', 'i', 'a', 'b', 'l', 'e', 's', '"'];
    let m1 = Seq::<char>::empty() + nq + seq![':'] + Seq::<char>::empty() + quoted(doc);
    let m2 = seq![' '] + nv + seq![':'] + seq![' '] + vj;
    let t = q.payload();
    assert(t =~= seq!['{'] + m1 + seq![','] + m2 + seq!['}']);
    lemma_plain_body(nq.subrange(1, 6));
    lemma_plain_body(nv.subrange(1, 10));
    assert(is_json_string(nq));
    assert(is_json_string(nv));
    lemma_quoted_is_json_string(doc);
    assert(all_ws(Seq::<char>::empty()));
    assert(all_ws(seq![' ']));
    lemma_member_parts(Seq::<char>::empty(), nq, Seq::<char>::empty(), quoted(doc));
    lemma_payload_literals_are_json(q.vars(), seq![], GValue::Boolean(true));
    lemma_member_parts(seq![' '], nv, seq![' '], vj);
    let inner = m1 + seq![','] + m2;
    let k = m1.len() as int;
    assert(inner[k] == ',');
    assert(inner.subrange(0, k) =~= m1);
    assert(inner.subrange(k + 1, inner.len() as int) =~= m2);
    assert(is_member_list(inner.subrange(0, k)));
    assert(is_member_list(inner));
    assert(t.subrange(1, t.len() - 1) =~= inner);
}

} // verus!
