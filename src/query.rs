//! A GraphQL query or mutation: an action, a root selection and bound
//! variables, rendered to a document and to the JSON request payload.
use vstd::prelude::*;
use crate::selection::{append_bindings, bindings, GraphQLRepresentable};
use crate::value::{
    append_escaped, append_quoted, same_text, escaped, fields_literal, fields_view, field_view, lemma_fields_literal_push,
    lemma_fields_view_index, lemma_fields_view_len, lemma_fields_view_step, as_record,
    literal_of, member_literal, quoted, signature_of, GValue, ShopifyGraphQLType,
};

verus! {

broadcast use vstd::seq::group_seq_axioms;

/// Whether a document reads (`query`) or writes (`mutation`, with the name
/// of the root field it invokes, if any).
#[derive(Debug, Clone)]
pub enum GraphQLAction {
    Query,
    Mutation(Option<String>),
}

// ---------------------------------------------------------------------------
// The variable map
// ---------------------------------------------------------------------------
pub open spec fn has_key(vars: Seq<(Seq<char>, GValue)>, k: Seq<char>) -> bool {
    exists|i: int| 0 <= i < vars.len() && vars[i].0 == k
}

/// Index `i` holds the first binding of `k`.
pub open spec fn is_first_index(vars: Seq<(Seq<char>, GValue)>, k: Seq<char>, i: int) -> bool {
    &&& 0 <= i < vars.len()
    &&& vars[i].0 == k
    &&& forall|j: int| 0 <= j < i ==> vars[j].0 != k
}

pub open spec fn first_index(vars: Seq<(Seq<char>, GValue)>, k: Seq<char>) -> int {
    choose|i: int| is_first_index(vars, k, i)
}

/// The value bound to `k`, if any.
pub open spec fn lookup(vars: Seq<(Seq<char>, GValue)>, k: Seq<char>) -> Option<GValue> {
    if has_key(vars, k) {
        Some(vars[first_index(vars, k)].1)
    } else {
        None
    }
}

/// `vars` with `k` bound to `v`: an existing binding is replaced in place,
/// otherwise the binding is added last.
pub open spec fn upsert(vars: Seq<(Seq<char>, GValue)>, k: Seq<char>, v: GValue) -> Seq<
    (Seq<char>, GValue),
> {
    if has_key(vars, k) {
        vars.update(first_index(vars, k), (k, v))
    } else {
        vars.push((k, v))
    }
}

/// Binding each of `pairs` in turn.
pub open spec fn upsert_all(vars: Seq<(Seq<char>, GValue)>, pairs: Seq<(Seq<char>, GValue)>) -> Seq<
    (Seq<char>, GValue),
>
    decreases pairs.len(),
{
    if pairs.len() == 0 {
        vars
    } else {
        upsert(upsert_all(vars, pairs.drop_last()), pairs.last().0, pairs.last().1)
    }
}

/// No name is bound twice.
pub open spec fn keys_unique(vars: Seq<(Seq<char>, GValue)>) -> bool {
    forall|i: int, j: int| 0 <= i < j < vars.len() ==> vars[i].0 != vars[j].0
}

pub proof fn lemma_first_index(vars: Seq<(Seq<char>, GValue)>, k: Seq<char>, i: int)
    requires
        is_first_index(vars, k, i),
    ensures
        has_key(vars, k),
        first_index(vars, k) == i,
{
    let c = first_index(vars, k);
    assert(is_first_index(vars, k, c));
    if c < i {
        assert(vars[c].0 != k);
    } else if i < c {
        assert(vars[i].0 != k);
    }
}

/// The index of the first binding of `key`, if there is one.
pub fn find_variable(vars: &Vec<(String, ShopifyGraphQLType)>, key: &str) -> (r: Option<usize>)
    ensures
        r matches Some(i) ==> i < vars@.len() && is_first_index(fields_view(vars@), key@, i as int) && first_index(
            fields_view(vars@),
            key@,
        ) == i && lookup(fields_view(vars@), key@) == Some(vars@[i as int].1@),
        r is None ==> !has_key(fields_view(vars@), key@) && lookup(fields_view(vars@), key@) is None,
{
    let ghost fv = fields_view(vars@);
    proof {
        lemma_fields_view_len(vars@);
    }
    let mut i: usize = 0;
    while i < vars.len()
        invariant
            i <= vars@.len(),
            fv == fields_view(vars@),
            fv.len() == vars@.len(),
            forall|j: int| 0 <= j < i ==> fv[j].0 != key@,
        decreases vars.len() - i,
    {
        proof {
            lemma_fields_view_index(vars@, i as int);
        }
        if same_text(vars[i].0.as_str(), key) {
            proof {
                lemma_first_index(fv, key@, i as int);
            }
            return Some(i);
        }
        i = i + 1;
    }
    None
}

// ---------------------------------------------------------------------------
// Rendering
// ---------------------------------------------------------------------------
/// One declaration `$name: signature`.
pub open spec fn declaration(f: (Seq<char>, GValue)) -> Seq<char> {
    "$"@ + f.0 + ": "@ + signature_of(f.1)
}

/// The declarations of `vars`, joined by `", "`.
pub open spec fn declarations(vars: Seq<(Seq<char>, GValue)>) -> Seq<char>
    decreases vars.len(),
{
    if vars.len() == 0 {
        seq![]
    } else if vars.len() == 1 {
        declaration(vars[0])
    } else {
        declarations(vars.drop_last()) + ", "@ + declaration(vars.last())
    }
}

/// The parenthesised variable declarations, or nothing without variables.
pub open spec fn header(vars: Seq<(Seq<char>, GValue)>) -> Seq<char> {
    if vars.len() > 0 {
        " ("@ + declarations(vars) + ")"@
    } else {
        seq![]
    }
}

/// The record a variable becomes when it supplies the root field's arguments.
pub open spec fn root_args(
    vars: Seq<(Seq<char>, GValue)>,
    label: Seq<char>,
    args: Seq<(Seq<char>, GValue)>,
) -> Seq<(Seq<char>, GValue)> {
    match lookup(vars, label) {
        Some(v) => as_record(v, label),
        None => args,
    }
}

/// The pairs of the variables payload: a record variable contributes its own
/// fields in its place, any other variable itself.
pub open spec fn flat_pairs(vars: Seq<(Seq<char>, GValue)>) -> Seq<(Seq<char>, GValue)>
    decreases vars.len(),
{
    if vars.len() == 0 {
        seq![]
    } else {
        flat_pairs(vars.drop_last()) + match vars.last().1 {
            GValue::Record(fields) => fields,
            _ => seq![vars.last()],
        }
    }
}

/// The JSON object of the variables payload.
pub open spec fn variables_json(vars: Seq<(Seq<char>, GValue)>) -> Seq<char> {
    "{"@ + fields_literal(flat_pairs(vars)) + "}"@
}

/// Appends the variable declarations (see [`declarations`]).
fn append_declarations(out: &mut String, vars: &Vec<(String, ShopifyGraphQLType)>)
    ensures
        final(out)@ == old(out)@ + declarations(fields_view(vars@)),
{
    let mut i: usize = 0;
    while i < vars.len()
        invariant
            i <= vars@.len(),
            out@ == old(out)@ + declarations(fields_view(vars@.subrange(0, i as int))),
        decreases vars.len() - i,
    {
        let t = vars[i].1.to_string();
        proof {
            lemma_fields_view_step(vars@, i as int);
            lemma_fields_view_len(vars@.subrange(0, i as int));
            let q = fields_view(vars@.subrange(0, i as int + 1));
            assert(q.drop_last() =~= fields_view(vars@.subrange(0, i as int)));
            assert(q.last() == field_view(vars@[i as int]));
            if i == 0 {
                assert(q[0] == q.last());
            }
        }
        if i > 0 {
            out.append(", ");
        }
        out.append("$");
        out.append(vars[i].0.as_str());
        out.append(": ");
        out.append(t.as_str());
        i = i + 1;
        proof {
            let q = fields_view(vars@.subrange(0, i as int));
            assert(out@ =~= old(out)@ + declarations(q));
        }
    }
    assert(vars@.subrange(0, vars@.len() as int) =~= vars@);
}

/// Appends the parenthesised declarations (see [`header`]).
fn append_header(out: &mut String, vars: &Vec<(String, ShopifyGraphQLType)>)
    ensures
        final(out)@ == old(out)@ + header(fields_view(vars@)),
{
    proof {
        lemma_fields_view_len(vars@);
    }
    if vars.len() > 0 {
        out.append(" (");
        append_declarations(out, vars);
        out.append(")");
    }
    assert(out@ =~= old(out)@ + header(fields_view(vars@)));
}

/// Appends one payload member `"key": literal`.
fn append_member(out: &mut String, first: bool, key: &String, value: &ShopifyGraphQLType)
    ensures
        final(out)@ == old(out)@ + (if first {
            seq![]
        } else {
            ", "@
        }) + member_literal((key@, value@)),
{
    let t = value.to_value_string();
    if !first {
        out.append(", ");
    }
    append_quoted(out, key.as_str());
    out.append(": ");
    out.append(t.as_str());
    assert(out@ =~= old(out)@ + (if first {
        seq![]
    } else {
        ", "@
    }) + member_literal((key@, value@)));
}

/// A query or mutation with its root selection and bound variables.
pub struct GraphQLQuery<T: GraphQLRepresentable> {
    pub action: GraphQLAction,
    pub query: T,
    pub variables: Vec<(String, ShopifyGraphQLType)>,
}

impl<T: GraphQLRepresentable> GraphQLQuery<T> {
    /// The variables as name/value pairs, in order.
    pub open spec fn vars(&self) -> Seq<(Seq<char>, GValue)> {
        fields_view(self.variables@)
    }

    /// The query document rendered with `args` for the root selection, when
    /// this is a query.
    pub open spec fn query_text(&self, args: Seq<(Seq<char>, GValue)>) -> Option<Seq<char>> {
        match self.action {
            GraphQLAction::Query => Some(
                "query"@ + header(self.vars()) + " {\n"@ + self.query.graphql_of(
                    root_args(self.vars(), self.query.label_of(), args),
                ) + "\n}"@,
            ),
            GraphQLAction::Mutation(_) => None,
        }
    }

    /// The mutation document, when this is a mutation.
    pub open spec fn mutation_text(&self) -> Option<Seq<char>> {
        match self.action {
            GraphQLAction::Query => None,
            GraphQLAction::Mutation(name) => Some(
                "mutation"@ + header(self.vars()) + " {\n"@ + (match name {
                    Some(n) => " "@ + n@,
                    None => seq![],
                }) + (if self.vars().len() > 0 {
                    "("@ + bindings(self.vars()) + ")"@
                } else {
                    seq![]
                }) + " {\n"@ + self.query.graphql_of(seq![]) + "\n}"@ + "\n}"@,
            ),
        }
    }

    /// The document for this action.
    pub open spec fn document(&self, args: Seq<(Seq<char>, GValue)>) -> Seq<char> {
        match self.action {
            GraphQLAction::Query => self.query_text(args).unwrap(),
            GraphQLAction::Mutation(_) => self.mutation_text().unwrap(),
        }
    }

    /// The request body: the escaped document and the variables object.
    pub open spec fn payload(&self) -> Seq<char> {
        "{\"query\":\""@ + escaped(self.document(self.vars())) + "\", \"variables\": "@
            + variables_json(self.vars()) + "}"@
    }

    /// A document binding each of `variables` in turn, a later binding of a
    /// name replacing an earlier one.
    pub fn new(action: GraphQLAction, query: T, variables: Vec<(String, ShopifyGraphQLType)>) -> (r: Self)
        ensures
            r.action == action,
            r.query == query,
            r.vars() == upsert_all(seq![], fields_view(variables@)),
            keys_unique(r.vars()),
    {
        let mut q = GraphQLQuery { action, query, variables: Vec::new() };
        let ghost given = fields_view(variables@);
        proof {
            lemma_fields_view_len(variables@);
            assert(q.vars() =~= upsert_all(seq![], given.subrange(0, 0)));
        }
        let ghost orig = variables@;
        let mut rest = variables;
        let ghost n = given.len();
        let total = rest.len();
        let mut i: usize = 0;
        while rest.len() > 0
            invariant
                total == n,
                q.action == action,
                q.query == query,
                n == given.len(),
                n == orig.len(),
                given == fields_view(orig),
                i + rest@.len() == n,
                rest@ == orig.subrange(i as int, n as int),
                q.vars() == upsert_all(seq![], given.subrange(0, i as int)),
                keys_unique(q.vars()),
            decreases rest@.len(),
        {
            let (key, value) = rest.remove(0);
            proof {
                lemma_fields_view_index(orig, i as int);
                assert(field_view((key, value)) == given[i as int]);
                assert(given.subrange(0, i as int + 1).drop_last() =~= given.subrange(0, i as int));
                assert(rest@ =~= orig.subrange(i as int + 1, n as int));
            }
            q.add_variable(key, value);
            i = i + 1;
        }
        assert(given.subrange(0, n as int) =~= given);
        q
    }

    /// A query on `qobj` with no variables.
    pub fn query(qobj: T) -> (r: Self)
        ensures
            r.action is Query,
            r.query == qobj,
            r.vars().len() == 0,
            keys_unique(r.vars()),
    {
        GraphQLQuery { action: GraphQLAction::Query, query: qobj, variables: Vec::new() }
    }

    /// A mutation of root field `name` selecting `qobj`, with no variables.
    pub fn mutation(qobj: T, name: Option<String>) -> (r: Self)
        ensures
            r.action == GraphQLAction::Mutation(name),
            r.query == qobj,
            r.vars().len() == 0,
            keys_unique(r.vars()),
    {
        GraphQLQuery { action: GraphQLAction::Mutation(name), query: qobj, variables: Vec::new() }
    }

    /// Binds `key` to `value`, replacing an earlier binding of `key`.
    pub fn add_variable(&mut self, key: String, value: ShopifyGraphQLType)
        ensures
            final(self).vars() == upsert(old(self).vars(), key@, value@),
            final(self).action == old(self).action,
            final(self).query == old(self).query,
            keys_unique(old(self).vars()) ==> keys_unique(final(self).vars()),
    {
        let ghost before = self.vars();
        let found = find_variable(&self.variables, key.as_str());
        proof {
            lemma_fields_view_len(self.variables@);
        }
        match found {
            Some(i) => {
                let ghost k = key@;
                let ghost v = value@;
                let ghost old_vars = self.variables@;
                self.variables.set(i, (key, value));
                proof {
                    assert forall|j: int| 0 <= j < old_vars.len() implies #[trigger] fields_view(
                        self.variables@,
                    )[j] == before.update(i as int, (k, v))[j] by {
                        lemma_fields_view_index(self.variables@, j);
                        lemma_fields_view_index(old_vars, j);
                    }
                    lemma_fields_view_len(self.variables@);
                    assert(fields_view(self.variables@) =~= before.update(i as int, (k, v)));
                    assert(upsert(before, k, v) == before.update(i as int, (k, v)));
                    assert forall|a: int, b: int|
                        0 <= a < b < before.len() && keys_unique(before) implies #[trigger] self.vars()[a].0
                        != #[trigger] self.vars()[b].0 by {
                        assert(self.vars()[a].0 == before[a].0);
                        assert(self.vars()[b].0 == before[b].0);
                    }
                }
            },
            None => {
                let ghost old_vars = self.variables@;
                let ghost k = key@;
                let ghost v = value@;
                self.variables.push((key, value));
                proof {
                    assert(self.variables@.drop_last() =~= old_vars);
                    assert(field_view(self.variables@.last()) == (k, v));
                    assert(self.vars() == before.push((k, v)));
                    assert forall|a: int, b: int|
                        0 <= a < b < self.vars().len() && keys_unique(before) implies #[trigger] self.vars()[a].0
                        != #[trigger] self.vars()[b].0 by {
                        if b == before.len() {
                            assert(before[a].0 != k);
                        }
                    }
                }
            },
        }
    }

    /// The variables payload object (see [`variables_json`]).
    pub fn get_fmt_variables(&self) -> (r: String)
        ensures
            r@ == variables_json(self.vars()),
    {
        let vars = &self.variables;
        let mut s = String::from_str("{");
        let ghost start = s@;
        let mut first = true;
        let mut i: usize = 0;
        while i < vars.len()
            invariant
                i <= vars@.len(),
                s@ == start + fields_literal(flat_pairs(fields_view(vars@.subrange(0, i as int)))),
                first == (flat_pairs(fields_view(vars@.subrange(0, i as int))).len() == 0),
            decreases vars.len() - i,
        {
            let ghost pairs = flat_pairs(fields_view(vars@.subrange(0, i as int)));
            proof {
                lemma_fields_view_step(vars@, i as int);
                let q = fields_view(vars@.subrange(0, i as int + 1));
                assert(q.drop_last() =~= fields_view(vars@.subrange(0, i as int)));
                assert(q.last() == field_view(vars@[i as int]));
            }
            match &vars[i].1 {
                ShopifyGraphQLType::Object(fields) => {
                    let ghost fv = fields_view(fields@);
                    proof {
                        lemma_fields_view_len(fields@);
                        assert(pairs + fv.subrange(0, 0) =~= pairs);
                    }
                    let mut j: usize = 0;
                    while j < fields.len()
                        invariant
                            i < vars@.len(),
                            vars[i as int].1 == ShopifyGraphQLType::Object(*fields),
                            fv == fields_view(fields@),
                            fv.len() == fields@.len(),
                            j <= fields@.len(),
                            s@ == start + fields_literal(pairs + fv.subrange(0, j as int)),
                            first == ((pairs + fv.subrange(0, j as int)).len() == 0),
                        decreases fields.len() - j,
                    {
                        proof {
                            lemma_fields_view_index(fields@, j as int);
                            let a = pairs + fv.subrange(0, j as int);
                            assert(a.push(fv[j as int]) =~= pairs + fv.subrange(0, j as int + 1));
                            lemma_fields_literal_push(a, fv[j as int]);
                        }
                        append_member(&mut s, first, &fields[j].0, &fields[j].1);
                        first = false;
                        j = j + 1;
                    }
                    proof {
                        assert(fv.subrange(0, fv.len() as int) =~= fv);
                    }
                },
                _ => {
                    proof {
                        lemma_fields_literal_push(pairs, field_view(vars@[i as int]));
                        assert(pairs.push(field_view(vars@[i as int])) =~= pairs + seq![
                            field_view(vars@[i as int]),
                        ]);
                    }
                    append_member(&mut s, first, &vars[i].0, &vars[i].1);
                    first = false;
                },
            }
            i = i + 1;
        }
        s.append("}");
        assert(vars@.subrange(0, vars@.len() as int) =~= vars@);
        s
    }

    /// The request body (see [`GraphQLQuery::payload`]).
    pub fn to_payload(&self) -> (r: String)
        ensures
            r@ == self.payload(),
    {
        let doc = self.to_graphql(&self.variables);
        let mut s = String::from_str("{\"query\":\"");
        append_escaped(&mut s, doc.as_str());
        s.append("\", \"variables\": ");
        let v = self.get_fmt_variables();
        s.append(v.as_str());
        s.append("}");
        assert(s@ =~= self.payload());
        s
    }

    /// The query document, or `None` when this is a mutation.
    pub fn query_to_graphql(&self, args: &Vec<(String, ShopifyGraphQLType)>) -> (r: Option<String>)
        ensures
            r matches Some(t) ==> self.query_text(fields_view(args@)) == Some(t@),
            r is None <==> self.query_text(fields_view(args@)) is None,
    {
        match self.action {
            GraphQLAction::Query => {},
            GraphQLAction::Mutation(_) => {
                return None;
            },
        }
        let mut s = String::from_str("query");
        append_header(&mut s, &self.variables);
        s.append(" {\n");
        let label = self.query.label();
        let found = find_variable(&self.variables, label.as_str());
        let body = match found {
            Some(i) => {
                let sub = self.variables[i].1.to_object(label.as_str());
                self.query.to_graphql(&sub)
            },
            None => self.query.to_graphql(args),
        };
        s.append(body.as_str());
        s.append("\n}");
        assert(s@ =~= self.query_text(fields_view(args@)).unwrap());
        Some(s)
    }

    /// The mutation document, or `None` when this is a query.
    pub fn mutation_to_graphql(&self) -> (r: Option<String>)
        ensures
            r matches Some(t) ==> self.mutation_text() == Some(t@),
            r is None <==> self.mutation_text() is None,
    {
        let name = match &self.action {
            GraphQLAction::Query => {
                return None;
            },
            GraphQLAction::Mutation(name) => name,
        };
        let mut s = String::from_str("mutation");
        append_header(&mut s, &self.variables);
        s.append(" {\n");
        match name {
            Some(n) => {
                s.append(" ");
                s.append(n.as_str());
            },
            None => {},
        }
        proof {
            lemma_fields_view_len(self.variables@);
        }
        if self.variables.len() > 0 {
            s.append("(");
            append_bindings(&mut s, &self.variables);
            s.append(")");
        }
        s.append(" {\n");
        let none: Vec<(String, ShopifyGraphQLType)> = Vec::new();
        assert(fields_view(none@) =~= Seq::<(Seq<char>, GValue)>::empty());
        let body = self.query.to_graphql(&none);
        s.append(body.as_str());
        s.append("\n}");
        s.append("\n}");
        assert(s@ =~= self.mutation_text().unwrap());
        Some(s)
    }
}

impl<T: GraphQLRepresentable> GraphQLRepresentable for GraphQLQuery<T> {
    open spec fn graphql_of(&self, args: Seq<(Seq<char>, GValue)>) -> Seq<char> {
        self.document(args)
    }

    open spec fn label_of(&self) -> Seq<char> {
        match self.action {
            GraphQLAction::Query => self.query.label_of(),
            GraphQLAction::Mutation(Some(name)) => name@,
            GraphQLAction::Mutation(None) => "mutation"@,
        }
    }

    fn to_graphql(&self, args: &Vec<(String, ShopifyGraphQLType)>) -> (r: String) {
        match self.action {
            GraphQLAction::Query => match self.query_to_graphql(args) {
                Some(t) => t,
                None => String::new(),
            },
            GraphQLAction::Mutation(_) => match self.mutation_to_graphql() {
                Some(t) => t,
                None => String::new(),
            },
        }
    }

    fn label(&self) -> (r: String) {
        match &self.action {
            GraphQLAction::Query => self.query.label(),
            GraphQLAction::Mutation(Some(name)) => name.clone(),
            GraphQLAction::Mutation(None) => String::from_str("mutation"),
        }
    }
}

/// The variables payload is the literal of the record of its pairs; so a
/// variable that is not a record appears as its literal under its own name,
/// while a record variable appears as its own members, not nested under its
/// name.
pub proof fn lemma_variables_payload_is_literal(vars: Seq<(Seq<char>, GValue)>, k: Seq<char>, v: GValue)
    ensures
        variables_json(vars) == literal_of(GValue::Record(flat_pairs(vars))),
        !(v is Record) ==> variables_json(seq![(k, v)]) == "{"@ + quoted(k) + ": "@ + literal_of(v)
            + "}"@,
        v is Record ==> variables_json(seq![(k, v)]) == literal_of(v),
{
    let one = seq![(k, v)];
    assert(one.drop_last() =~= Seq::<(Seq<char>, GValue)>::empty());
    assert(flat_pairs(Seq::<(Seq<char>, GValue)>::empty()) =~= Seq::<(Seq<char>, GValue)>::empty());
    match v {
        GValue::Record(f) => {
            assert(flat_pairs(one) =~= f);
        },
        _ => {
            assert(flat_pairs(one) =~= one);
            assert(fields_literal(one) == member_literal(one[0]));
            assert(variables_json(one) =~= "{"@ + quoted(k) + ": "@ + literal_of(v) + "}"@);
        },
    }
}

} // verus!
