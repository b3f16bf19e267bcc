//! Dynamically typed GraphQL values and their text renderings: the type
//! signature used in variable declarations and the literal used inside query
//! bodies and the JSON payload, with the JSON string escaping they rely on.
use vstd::prelude::*;

verus! {

broadcast use vstd::seq::group_seq_axioms, vstd::std_specs::vec::group_vec_axioms;

/// A value that can be bound to a GraphQL variable or written inline.
///
/// `Float` carries the decimal text of the number (for example `"19.99"`),
/// which is all that rendering ever reads of it. `Object` lists its fields
/// in the order they are rendered. `Custom` names an input-object type while
/// rendering its runtime value like the wrapped one.
#[derive(Debug)]
pub enum ShopifyGraphQLType {
    ID(String),
    String(String),
    Boolean(bool),
    Int(i64),
    Float(String),
    Json(String),
    Array(Vec<ShopifyGraphQLType>),
    Object(Vec<(String, ShopifyGraphQLType)>),
    Custom(String, Box<ShopifyGraphQLType>),
}

/// The mathematical value a [`ShopifyGraphQLType`] stands for.
pub enum GValue {
    Identifier(Seq<char>),
    Text(Seq<char>),
    Boolean(bool),
    Integer(int),
    Decimal(Seq<char>),
    RawJSON(Seq<char>),
    List(Seq<GValue>),
    Record(Seq<(Seq<char>, GValue)>),
    Named(Seq<char>, Box<GValue>),
}

pub open spec fn value_view(v: ShopifyGraphQLType) -> GValue
    decreases v,
{
    match v {
        ShopifyGraphQLType::ID(s) => GValue::Identifier(s@),
        ShopifyGraphQLType::String(s) => GValue::Text(s@),
        ShopifyGraphQLType::Boolean(b) => GValue::Boolean(b),
        ShopifyGraphQLType::Int(i) => GValue::Integer(i as int),
        ShopifyGraphQLType::Float(t) => GValue::Decimal(t@),
        ShopifyGraphQLType::Json(t) => GValue::RawJSON(t@),
        ShopifyGraphQLType::Array(items) => GValue::List(items_view(items@)),
        ShopifyGraphQLType::Object(fields) => GValue::Record(fields_view(fields@)),
        ShopifyGraphQLType::Custom(name, inner) => GValue::Named(name@, Box::new(value_view(*inner))),
    }
}

pub open spec fn items_view(s: Seq<ShopifyGraphQLType>) -> Seq<GValue>
    decreases s,
{
    if s.len() == 0 {
        seq![]
    } else {
        items_view(s.drop_last()).push(value_view(s.last()))
    }
}

pub open spec fn field_view(f: (String, ShopifyGraphQLType)) -> (Seq<char>, GValue)
    decreases f,
{
    (f.0@, value_view(f.1))
}

pub open spec fn fields_view(s: Seq<(String, ShopifyGraphQLType)>) -> Seq<(Seq<char>, GValue)>
    decreases s,
{
    if s.len() == 0 {
        seq![]
    } else {
        fields_view(s.drop_last()).push(field_view(s.last()))
    }
}

impl View for ShopifyGraphQLType {
    type V = GValue;

    open spec fn view(&self) -> GValue {
        value_view(*self)
    }
}

// ---------------------------------------------------------------------------
// Specification of the renderings
// ---------------------------------------------------------------------------
/// Characters that must be escaped inside a JSON string: the quote, the
/// backslash and the control characters.
pub open spec fn needs_escape(c: char) -> bool {
    c == '"' || c == '\\' || (c as u32) < 0x20
}

/// The lower-case hexadecimal digit of `d < 16`.
pub open spec fn hex_text(d: nat) -> Seq<char> {
    if d < 10 {
        digit_text(d)
    } else if d == 10 {
        "a"@
    } else if d == 11 {
        "b"@
    } else if d == 12 {
        "c"@
    } else if d == 13 {
        "d"@
    } else if d == 14 {
        "e"@
    } else {
        "f"@
    }
}

/// The JSON string escape of one character.
pub open spec fn escape_char(c: char) -> Seq<char> {
    if c == '"' {
        "\\\""@
    } else if c == '\\' {
        "\\\\"@
    } else if c == '\n' {
        "\\n"@
    } else if c == '\r' {
        "\\r"@
    } else if c == '\t' {
        "\\t"@
    } else if (c as u32) < 0x20 {
        "\\u00"@ + hex_text((c as u32 / 16) as nat) + hex_text((c as u32 % 16) as nat)
    } else {
        seq![c]
    }
}

/// `s` with every character escaped for use between JSON double quotes.
pub open spec fn escaped(s: Seq<char>) -> Seq<char>
    decreases s.len(),
{
    if s.len() == 0 {
        seq![]
    } else {
        escaped(s.drop_last()) + escape_char(s.last())
    }
}

/// `s` as a JSON string token.
pub open spec fn quoted(s: Seq<char>) -> Seq<char> {
    "\""@ + escaped(s) + "\""@
}

pub open spec fn digit_text(d: nat) -> Seq<char> {
    if d == 0 {
        "0"@
    } else if d == 1 {
        "1"@
    } else if d == 2 {
        "2"@
    } else if d == 3 {
        "3"@
    } else if d == 4 {
        "4"@
    } else if d == 5 {
        "5"@
    } else if d == 6 {
        "6"@
    } else if d == 7 {
        "7"@
    } else if d == 8 {
        "8"@
    } else {
        "9"@
    }
}

/// Decimal text of a natural number, without leading zeros.
pub open spec fn nat_text(n: nat) -> Seq<char>
    decreases n,
{
    if n < 10 {
        digit_text(n)
    } else {
        nat_text(n / 10) + digit_text(n % 10)
    }
}

/// Decimal text of an integer, with a leading `-` when negative.
pub open spec fn int_text(i: int) -> Seq<char> {
    if i < 0 {
        "-"@ + nat_text((-i) as nat)
    } else {
        nat_text(i as nat)
    }
}

pub open spec fn bool_text(b: bool) -> Seq<char> {
    if b {
        "true"@
    } else {
        "false"@
    }
}

/// The value literal: JSON syntax, with `Json` text spliced in verbatim and
/// `Custom` rendering as the value it wraps.
pub open spec fn literal_of(v: GValue) -> Seq<char>
    decreases v,
{
    match v {
        GValue::Identifier(s) => quoted(s),
        GValue::Text(s) => quoted(s),
        GValue::Boolean(b) => bool_text(b),
        GValue::Integer(i) => int_text(i),
        GValue::Decimal(t) => t,
        GValue::RawJSON(t) => t,
        GValue::List(items) => "["@ + items_literal(items) + "]"@,
        GValue::Record(fields) => "{"@ + fields_literal(fields) + "}"@,
        GValue::Named(_, inner) => literal_of(*inner),
    }
}

/// The literals of `items`, separated by `", "`.
pub open spec fn items_literal(items: Seq<GValue>) -> Seq<char>
    decreases items,
{
    if items.len() == 0 {
        seq![]
    } else if items.len() == 1 {
        literal_of(items[0])
    } else {
        items_literal(items.drop_last()) + ", "@ + literal_of(items.last())
    }
}

/// One JSON member `"key": literal`.
pub open spec fn member_literal(field: (Seq<char>, GValue)) -> Seq<char>
    decreases field,
{
    quoted(field.0) + ": "@ + literal_of(field.1)
}

/// The members of `fields`, separated by `", "`.
pub open spec fn fields_literal(fields: Seq<(Seq<char>, GValue)>) -> Seq<char>
    decreases fields,
{
    if fields.len() == 0 {
        seq![]
    } else if fields.len() == 1 {
        member_literal(fields[0])
    } else {
        fields_literal(fields.drop_last()) + ", "@ + member_literal(fields.last())
    }
}

/// The type signature used when declaring a variable of this value.
///
/// A list takes its element type from its first element alone; an empty
/// list declares `[]!`.
pub open spec fn signature_of(v: GValue) -> Seq<char>
    decreases v,
{
    match v {
        GValue::Identifier(_) => "ID!"@,
        GValue::Text(_) => "String!"@,
        GValue::Boolean(_) => "Boolean!"@,
        GValue::Integer(_) => "Int!"@,
        GValue::Decimal(_) => "Float!"@,
        GValue::RawJSON(_) => "JSON!"@,
        GValue::List(items) => "["@ + (if items.len() == 0 {
            seq![]
        } else {
            signature_of(items[0])
        }) + "]!"@,
        GValue::Record(fields) => "{"@ + fields_signature(fields) + "}"@,
        GValue::Named(name, _) => name + "!"@,
    }
}

/// One field declaration `key: signature`.
pub open spec fn member_signature(field: (Seq<char>, GValue)) -> Seq<char>
    decreases field,
{
    field.0 + ": "@ + signature_of(field.1)
}

/// The field declarations of `fields`, separated by `", "`.
pub open spec fn fields_signature(fields: Seq<(Seq<char>, GValue)>) -> Seq<char>
    decreases fields,
{
    if fields.len() == 0 {
        seq![]
    } else if fields.len() == 1 {
        member_signature(fields[0])
    } else {
        fields_signature(fields.drop_last()) + ", "@ + member_signature(fields.last())
    }
}

// ---------------------------------------------------------------------------
// Small text builders
// ---------------------------------------------------------------------------
fn hex_str(d: u32) -> (r: &'static str)
    requires
        d < 16,
    ensures
        r@ == hex_text(d as nat),
{
    if d < 10 {
        digit_str(d as u64)
    } else if d == 10 {
        "a"
    } else if d == 11 {
        "b"
    } else if d == 12 {
        "c"
    } else if d == 13 {
        "d"
    } else if d == 14 {
        "e"
    } else {
        "f"
    }
}

/// Appends the JSON string escape of `c`.
fn append_escape(out: &mut String, c: char)
    requires
        needs_escape(c),
    ensures
        final(out)@ == old(out)@ + escape_char(c),
{
    if c == '"' {
        out.append("\\\"");
    } else if c == '\\' {
        out.append("\\\\");
    } else if c == '\n' {
        out.append("\\n");
    } else if c == '\r' {
        out.append("\\r");
    } else if c == '\t' {
        out.append("\\t");
    } else {
        let code = c as u32;
        out.append("\\u00");
        out.append(hex_str(code / 16));
        out.append(hex_str(code % 16));
    }
    assert(out@ =~= old(out)@ + escape_char(c));
}

/// Appends `s` escaped for use between JSON double quotes.
pub fn append_escaped(out: &mut String, s: &str)
    ensures
        final(out)@ == old(out)@ + escaped(s@),
{
    let n = s.unicode_len();
    let mut i: usize = 0;
    while i < n
        invariant
            n == s@.len(),
            i <= n,
            out@ == old(out)@ + escaped(s@.subrange(0, i as int)),
        decreases n - i,
    {
        let c = s.get_char(i);
        proof {
            let p = s@.subrange(0, i as int + 1);
            assert(p.drop_last() =~= s@.subrange(0, i as int));
            assert(p.last() == c);
        }
        if c == '"' || c == '\\' || (c as u32) < 0x20 {
            append_escape(out, c);
        } else {
            let one = s.substring_char(i, i + 1);
            assert(one@ =~= seq![c]);
            out.append(one);
        }
        i = i + 1;
    }
    assert(s@.subrange(0, n as int) =~= s@);
}

/// Appends `s` as a JSON string token.
pub fn append_quoted(out: &mut String, s: &str)
    ensures
        final(out)@ == old(out)@ + quoted(s@),
{
    out.append("\"");
    append_escaped(out, s);
    out.append("\"");
    assert(out@ =~= old(out)@ + quoted(s@));
}

fn digit_str(d: u64) -> (r: &'static str)
    requires
        d < 10,
    ensures
        r@ == digit_text(d as nat),
{
    if d == 0 {
        "0"
    } else if d == 1 {
        "1"
    } else if d == 2 {
        "2"
    } else if d == 3 {
        "3"
    } else if d == 4 {
        "4"
    } else if d == 5 {
        "5"
    } else if d == 6 {
        "6"
    } else if d == 7 {
        "7"
    } else if d == 8 {
        "8"
    } else {
        "9"
    }
}

/// Appends the decimal text of `n`.
pub fn append_nat(out: &mut String, n: u64)
    ensures
        final(out)@ == old(out)@ + nat_text(n as nat),
    decreases n,
{
    if n >= 10 {
        append_nat(out, n / 10);
    }
    out.append(digit_str(n % 10));
    assert(out@ =~= old(out)@ + nat_text(n as nat));
}

/// Appends the decimal text of `v`.
pub fn append_int(out: &mut String, v: i64)
    ensures
        final(out)@ == old(out)@ + int_text(v as int),
{
    if v < 0 {
        out.append("-");
        let m: u64 = (0i128 - v as i128) as u64;
        append_nat(out, m);
        assert(out@ =~= old(out)@ + int_text(v as int));
    } else {
        append_nat(out, v as u64);
    }
}

fn append_bool(out: &mut String, b: bool)
    ensures
        final(out)@ == old(out)@ + bool_text(b),
{
    if b {
        out.append("true");
    } else {
        out.append("false");
    }
}



/// A record's own fields; any other value becomes a one-field record under `key`.
pub open spec fn as_record(v: GValue, key: Seq<char>) -> Seq<(Seq<char>, GValue)> {
    match v {
        GValue::Record(fields) => fields,
        _ => seq![(key, v)],
    }
}

impl ShopifyGraphQLType {
    /// A copy of this value.
    #[verifier::loop_isolation(false)]
    pub fn duplicate(&self) -> (r: Self)
        ensures
            r@ == self@,
        decreases self,
    {
        match self {
            ShopifyGraphQLType::ID(s) => ShopifyGraphQLType::ID(s.clone()),
            ShopifyGraphQLType::String(s) => ShopifyGraphQLType::String(s.clone()),
            ShopifyGraphQLType::Boolean(b) => ShopifyGraphQLType::Boolean(*b),
            ShopifyGraphQLType::Int(i) => ShopifyGraphQLType::Int(*i),
            ShopifyGraphQLType::Float(t) => ShopifyGraphQLType::Float(t.clone()),
            ShopifyGraphQLType::Json(t) => ShopifyGraphQLType::Json(t.clone()),
            ShopifyGraphQLType::Array(items) => {
                let mut out: Vec<ShopifyGraphQLType> = Vec::new();
                let mut i: usize = 0;
                while i < items.len()
                    invariant
                        i <= items@.len(),
                        out@.len() == i,
                        items_view(out@) == items_view(items@.subrange(0, i as int)),
                    decreases items.len() - i,
                {
                    proof {
                        assert(decreases_to!(items => items[i as int]));
                    }
                    let c = items[i].duplicate();
                    proof {
                        lemma_items_view_step(items@, i as int);
                        assert(out@.push(c).drop_last() =~= out@);
                    }
                    out.push(c);
                    i = i + 1;
                }
                assert(items@.subrange(0, items@.len() as int) =~= items@);
                ShopifyGraphQLType::Array(out)
            },
            ShopifyGraphQLType::Object(fields) => ShopifyGraphQLType::Object(copy_fields(fields)),
            ShopifyGraphQLType::Custom(name, inner) => {
                let c = (**inner).duplicate();
                ShopifyGraphQLType::Custom(name.clone(), Box::new(c))
            },
        }
    }

    /// The fields of a record, or this value as the single field `key`.
    pub fn to_object(&self, key: &str) -> (r: Vec<(String, ShopifyGraphQLType)>)
        ensures
            fields_view(r@) == as_record(self@, key@),
    {
        match self {
            ShopifyGraphQLType::Object(fields) => copy_fields(fields),
            _ => {
                let mut r: Vec<(String, ShopifyGraphQLType)> = Vec::new();
                let c = self.duplicate();
                let k = String::from_str(key);
                r.push((k, c));
                proof {
                    lemma_fields_view_step(r@, 0);
                    assert(r@.subrange(0, 1) =~= r@);
                    assert(fields_view(r@.subrange(0, 0)) =~= Seq::<(Seq<char>, GValue)>::empty());
                    assert(fields_view(r@) =~= seq![(key@, self@)]);
                }
                r
            },
        }
    }

    /// The literal of this value (see [`literal_of`]).
    #[verifier::loop_isolation(false)]
    pub fn to_value_string(&self) -> (r: String)
        ensures
            r@ == literal_of(self@),
        decreases self,
    {
        let mut out = String::new();
        match self {
            ShopifyGraphQLType::ID(s) => append_quoted(&mut out, s.as_str()),
            ShopifyGraphQLType::String(s) => append_quoted(&mut out, s.as_str()),
            ShopifyGraphQLType::Boolean(b) => append_bool(&mut out, *b),
            ShopifyGraphQLType::Int(i) => append_int(&mut out, *i),
            ShopifyGraphQLType::Float(t) => out.append(t.as_str()),
            ShopifyGraphQLType::Json(t) => out.append(t.as_str()),
            ShopifyGraphQLType::Array(items) => {
                out.append("[");
                let ghost start = out@;
                let mut i: usize = 0;
                while i < items.len()
                    invariant
                        i <= items@.len(),
                        out@ == start + items_literal(items_view(items@.subrange(0, i as int))),
                    decreases items.len() - i,
                {
                    proof {
                        assert(decreases_to!(items => items[i as int]));
                    }
                    let t = items[i].to_value_string();
                    proof {
                        lemma_items_view_step(items@, i as int);
                        lemma_items_literal_push(items_view(items@.subrange(0, i as int)), items@[i as int]@);
                    }
                    if i > 0 {
                        out.append(", ");
                    }
                    out.append(t.as_str());
                    i = i + 1;
                }
                out.append("]");
                assert(items@.subrange(0, items@.len() as int) =~= items@);
            },
            ShopifyGraphQLType::Object(fields) => {
                out.append("{");
                append_fields_literal(&mut out, fields);
                out.append("}");
            },
            ShopifyGraphQLType::Custom(_, inner) => {
                let t = (**inner).to_value_string();
                out.append(t.as_str());
            },
        }
        assert(out@ =~= literal_of(self@));
        out
    }

    /// The type signature of this value (see [`signature_of`]).
    #[verifier::loop_isolation(false)]
    pub fn to_string(&self) -> (r: String)
        ensures
            r@ == signature_of(self@),
        decreases self,
    {
        let mut out = String::new();
        match self {
            ShopifyGraphQLType::ID(_) => out.append("ID!"),
            ShopifyGraphQLType::String(_) => out.append("String!"),
            ShopifyGraphQLType::Boolean(_) => out.append("Boolean!"),
            ShopifyGraphQLType::Int(_) => out.append("Int!"),
            ShopifyGraphQLType::Float(_) => out.append("Float!"),
            ShopifyGraphQLType::Json(_) => out.append("JSON!"),
            ShopifyGraphQLType::Array(items) => {
                out.append("[");
                proof {
                    lemma_items_view_len(items@);
                }
                if items.len() > 0 {
                    proof {
                        assert(decreases_to!(items => items[0]));
                        lemma_items_view_index(items@, 0);
                    }
                    let t = items[0].to_string();
                    out.append(t.as_str());
                }
                out.append("]!");
            },
            ShopifyGraphQLType::Object(fields) => {
                out.append("{");
                let ghost start = out@;
                let mut i: usize = 0;
                while i < fields.len()
                    invariant
                        i <= fields@.len(),
                        out@ == start + fields_signature(fields_view(fields@.subrange(0, i as int))),
                    decreases fields.len() - i,
                {
                    proof {
                        assert(decreases_to!(fields => fields[i as int]));
                    }
                    let t = fields[i].1.to_string();
                    proof {
                        lemma_fields_view_step(fields@, i as int);
                        lemma_fields_view_len(fields@.subrange(0, i as int));
                        lemma_fields_signature_push(
                            fields_view(fields@.subrange(0, i as int)),
                            field_view(fields@[i as int]),
                        );
                    }
                    if i > 0 {
                        out.append(", ");
                    }
                    out.append(fields[i].0.as_str());
                    out.append(": ");
                    out.append(t.as_str());
                    i = i + 1;
                }
                out.append("}");
                assert(fields@.subrange(0, fields@.len() as int) =~= fields@);
            },
            ShopifyGraphQLType::Custom(name, _) => {
                out.append(name.as_str());
                out.append("!");
            },
        }
        assert(out@ =~= signature_of(self@));
        out
    }
}

/// `items_view` keeps the length and views each element.
pub proof fn lemma_items_view_index(s: Seq<ShopifyGraphQLType>, i: int)
    requires
        0 <= i < s.len(),
    ensures
        items_view(s).len() == s.len(),
        items_view(s)[i] == s[i]@,
    decreases s.len(),
{
    lemma_items_view_len(s);
    if i < s.len() - 1 {
        lemma_items_view_index(s.drop_last(), i);
    }
}

pub proof fn lemma_items_view_len(s: Seq<ShopifyGraphQLType>)
    ensures
        items_view(s).len() == s.len(),
    decreases s.len(),
{
    if s.len() > 0 {
        lemma_items_view_len(s.drop_last());
    }
}

pub proof fn lemma_fields_view_len(s: Seq<(String, ShopifyGraphQLType)>)
    ensures
        fields_view(s).len() == s.len(),
    decreases s.len(),
{
    if s.len() > 0 {
        lemma_fields_view_len(s.drop_last());
    }
}

/// `fields_view` keeps the length and views each field.
pub proof fn lemma_fields_view_index(s: Seq<(String, ShopifyGraphQLType)>, i: int)
    requires
        0 <= i < s.len(),
    ensures
        fields_view(s).len() == s.len(),
        fields_view(s)[i] == field_view(s[i]),
    decreases s.len(),
{
    lemma_fields_view_len(s);
    if i < s.len() - 1 {
        lemma_fields_view_index(s.drop_last(), i);
    }
}

/// Viewing a prefix one field longer adds that field's view.
pub proof fn lemma_fields_view_step(s: Seq<(String, ShopifyGraphQLType)>, i: int)
    requires
        0 <= i < s.len(),
    ensures
        fields_view(s.subrange(0, i + 1)) == fields_view(s.subrange(0, i)).push(field_view(s[i])),
        fields_view(s.subrange(0, i + 1)).len() == i + 1,
{
    assert(s.subrange(0, i + 1).drop_last() =~= s.subrange(0, i));
    lemma_fields_view_len(s.subrange(0, i + 1));
}

/// Viewing a prefix one item longer adds that item's view.
pub proof fn lemma_items_view_step(s: Seq<ShopifyGraphQLType>, i: int)
    requires
        0 <= i < s.len(),
    ensures
        items_view(s.subrange(0, i + 1)) == items_view(s.subrange(0, i)).push(s[i]@),
        items_view(s.subrange(0, i + 1)).len() == i + 1,
{
    assert(s.subrange(0, i + 1).drop_last() =~= s.subrange(0, i));
    lemma_items_view_len(s.subrange(0, i + 1));
}

/// Adding a member to a record's members.
pub proof fn lemma_fields_literal_push(a: Seq<(Seq<char>, GValue)>, m: (Seq<char>, GValue))
    ensures
        fields_literal(a.push(m)) == if a.len() == 0 {
            member_literal(m)
        } else {
            fields_literal(a) + ", "@ + member_literal(m)
        },
{
    assert(a.push(m).drop_last() =~= a);
}

/// Adding a declaration to a record's declarations.
pub proof fn lemma_fields_signature_push(a: Seq<(Seq<char>, GValue)>, m: (Seq<char>, GValue))
    ensures
        fields_signature(a.push(m)) == if a.len() == 0 {
            member_signature(m)
        } else {
            fields_signature(a) + ", "@ + member_signature(m)
        },
{
    assert(a.push(m).drop_last() =~= a);
}

/// Adding an item to a list's items.
pub proof fn lemma_items_literal_push(a: Seq<GValue>, v: GValue)
    ensures
        items_literal(a.push(v)) == if a.len() == 0 {
            literal_of(v)
        } else {
            items_literal(a) + ", "@ + literal_of(v)
        },
{
    assert(a.push(v).drop_last() =~= a);
}

/// Appends the members of `fields` separated by `", "` (see [`fields_literal`]).
pub fn append_fields_literal(out: &mut String, fields: &Vec<(String, ShopifyGraphQLType)>)
    ensures
        final(out)@ == old(out)@ + fields_literal(fields_view(fields@)),
    decreases fields,
{
    let mut i: usize = 0;
    while i < fields.len()
        invariant
            i <= fields@.len(),
            out@ == old(out)@ + fields_literal(fields_view(fields@.subrange(0, i as int))),
        decreases fields.len() - i,
    {
        proof {
            assert(decreases_to!(fields => fields[i as int]));
        }
        let t = fields[i].1.to_value_string();
        proof {
            lemma_fields_view_step(fields@, i as int);
            lemma_fields_view_len(fields@.subrange(0, i as int));
            lemma_fields_literal_push(
                fields_view(fields@.subrange(0, i as int)),
                field_view(fields@[i as int]),
            );
        }
        if i > 0 {
            out.append(", ");
        }
        append_quoted(out, fields[i].0.as_str());
        out.append(": ");
        out.append(t.as_str());
        i = i + 1;
    }
    assert(fields@.subrange(0, fields@.len() as int) =~= fields@);
}

/// A copy of `fields`.
pub fn copy_fields(fields: &Vec<(String, ShopifyGraphQLType)>) -> (r: Vec<(String, ShopifyGraphQLType)>)
    ensures
        fields_view(r@) == fields_view(fields@),
    decreases fields,
{
    let mut out: Vec<(String, ShopifyGraphQLType)> = Vec::new();
    let mut i: usize = 0;
    while i < fields.len()
        invariant
            i <= fields@.len(),
            out@.len() == i,
            fields_view(out@) == fields_view(fields@.subrange(0, i as int)),
        decreases fields.len() - i,
    {
        proof {
            assert(decreases_to!(fields => fields[i as int]));
        }
        let k = fields[i].0.clone();
        let v = fields[i].1.duplicate();
        let ghost before = out@;
        proof {
            lemma_fields_view_step(fields@, i as int);
        }
        out.push((k, v));
        proof {
            assert(out@.drop_last() =~= before);
            assert(field_view(out@.last()) == field_view(fields@[i as int]));
        }
        i = i + 1;
    }
    assert(fields@.subrange(0, fields@.len() as int) =~= fields@);
    out
}

/// Whether `a` and `b` hold the same characters.
pub fn same_text(a: &str, b: &str) -> (r: bool)
    ensures
        r == (a@ == b@),
{
    let n = a.unicode_len();
    if n != b.unicode_len() {
        return false;
    }
    let mut i: usize = 0;
    while i < n
        invariant
            n == a@.len(),
            n == b@.len(),
            i <= n,
            forall|j: int| 0 <= j < i ==> a@[j] == b@[j],
        decreases n - i,
    {
        if a.get_char(i) != b.get_char(i) {
            return false;
        }
        i = i + 1;
    }
    assert(a@ =~= b@);
    true
}

/// Viewing fields with one more at the end.
pub proof fn lemma_fields_view_push(s: Seq<(String, ShopifyGraphQLType)>, f: (String, ShopifyGraphQLType))
    ensures
        fields_view(s.push(f)) == fields_view(s).push(field_view(f)),
{
    assert(s.push(f).drop_last() =~= s);
}

/// Viewing items with one more at the end.
pub proof fn lemma_items_view_push(s: Seq<ShopifyGraphQLType>, v: ShopifyGraphQLType)
    ensures
        items_view(s.push(v)) == items_view(s).push(v@),
{
    assert(s.push(v).drop_last() =~= s);
}

/// An identifier always declares `ID!`, and an empty list declares `[]!`.
pub proof fn lemma_signature_of_id_and_empty_list(s: Seq<char>)
    ensures
        signature_of(GValue::Identifier(s)) == "ID!"@,
        signature_of(GValue::List(seq![])) == "[]!"@,
{
    reveal_strlit("[");
    reveal_strlit("]!");
    reveal_strlit("[]!");
    assert(signature_of(GValue::List(seq![])) =~= "[]!"@);
}

/// A named value declares its type name alone, whatever it wraps, and renders
/// as the value it wraps, whatever its name.
pub proof fn lemma_named_value(name: Seq<char>, v: GValue)
    ensures
        signature_of(GValue::Named(name, Box::new(v))) == name + "!"@,
        literal_of(GValue::Named(name, Box::new(v))) == literal_of(v),
{
}

} // verus!
