//! The sort model: an ordered sequence of sort clauses.

pub mod nested;

use vstd::prelude::*;
use crate::case::{lower_seq, snake_seq, snakecase, Case};
use crate::field::Field;
use crate::json::{
    entries_of, lemma_views_of_snoc, opt_str_entry, opt_wire_entry, push_entry, req_entry,
    views_of, JsonV, JsonValue,
};
use nested::SortNested;

verus! {

/// The sort direction.  Renders under the lowercase policy.
#[derive(Clone, Copy, PartialEq, Eq, Structural, Debug)]
pub enum Order {
    Asc,
    Desc,
}

impl Order {
    /// The canonical wire string's model.
    pub open spec fn wire_spec(self) -> Seq<char> {
        match self {
            Order::Asc => lower_seq("Asc"@),
            Order::Desc => lower_seq("Desc"@),
        }
    }

    /// The canonical wire string: the lowercase policy applied to the
    /// symbol's declared name.
    pub fn display_string(&self) -> (r: String)
        ensures
            r@ == self.wire_spec(),
    {
        match self {
            Order::Asc => Case::Lowercase.parse_str("Asc"),
            Order::Desc => Case::Lowercase.parse_str("Desc"),
        }
    }
}

/// Case-formatter totality for the sort direction: every symbol maps to
/// exactly one nonempty wire string.
pub proof fn lemma_order_totality(o: Order)
    ensures
        o.wire_spec().len() > 0,
{
    reveal_strlit("Asc");
    reveal_strlit("Desc");
    assert(lower_seq("Asc"@).len() == 3);
    assert(lower_seq("Desc"@).len() == 4);
}

/// How a multi-valued field folds into one sort value.  Renders under the
/// lowercase policy.
#[derive(Clone, Copy, PartialEq, Eq, Structural, Debug)]
pub enum Mode {
    Min,
    Max,
    Sum,
    Avg,
    Median,
}

impl Mode {
    /// The canonical wire string's model.
    pub open spec fn wire_spec(self) -> Seq<char> {
        match self {
            Mode::Min => lower_seq("Min"@),
            Mode::Max => lower_seq("Max"@),
            Mode::Sum => lower_seq("Sum"@),
            Mode::Avg => lower_seq("Avg"@),
            Mode::Median => lower_seq("Median"@),
        }
    }

    /// The canonical wire string: the lowercase policy applied to the
    /// symbol's declared name.
    pub fn display_string(&self) -> (r: String)
        ensures
            r@ == self.wire_spec(),
    {
        match self {
            Mode::Min => Case::Lowercase.parse_str("Min"),
            Mode::Max => Case::Lowercase.parse_str("Max"),
            Mode::Sum => Case::Lowercase.parse_str("Sum"),
            Mode::Avg => Case::Lowercase.parse_str("Avg"),
            Mode::Median => Case::Lowercase.parse_str("Median"),
        }
    }
}

/// Case-formatter totality for the fold mode: every symbol maps to
/// exactly one nonempty wire string.
pub proof fn lemma_mode_totality(m: Mode)
    ensures
        m.wire_spec().len() > 0,
{
    reveal_strlit("Min");
    reveal_strlit("Max");
    reveal_strlit("Sum");
    reveal_strlit("Avg");
    reveal_strlit("Median");
    assert(lower_seq("Min"@).len() == 3);
    assert(lower_seq("Max"@).len() == 3);
    assert(lower_seq("Sum"@).len() == 3);
    assert(lower_seq("Avg"@).len() == 3);
    assert(lower_seq("Median"@).len() == 6);
}

/// The numeric type sort values are cast to.  Renders under the snake
/// policy.
#[derive(Clone, Copy, PartialEq, Eq, Structural, Debug)]
pub enum NumbericType {
    Double,
    Long,
    Date,
    DateNanos,
}

impl NumbericType {
    /// The canonical wire string's model.
    pub open spec fn wire_spec(self) -> Seq<char> {
        match self {
            NumbericType::Double => snake_seq("Double"@),
            NumbericType::Long => snake_seq("Long"@),
            NumbericType::Date => snake_seq("Date"@),
            NumbericType::DateNanos => snake_seq("DateNanos"@),
        }
    }

    /// The canonical wire string: the snake policy applied to the
    /// symbol's declared name.
    pub fn display_string(&self) -> (r: String)
        ensures
            r@ == self.wire_spec(),
    {
        match self {
            NumbericType::Double => snakecase("Double"),
            NumbericType::Long => snakecase("Long"),
            NumbericType::Date => snakecase("Date"),
            NumbericType::DateNanos => snakecase("DateNanos"),
        }
    }
}

/// Case-formatter totality for the numeric type: every symbol maps to
/// exactly one nonempty wire string.
pub proof fn lemma_numberic_type_totality(n: NumbericType)
    ensures
        n.wire_spec().len() > 0,
{
    reveal_strlit("Double");
    reveal_strlit("Long");
    reveal_strlit("Date");
    reveal_strlit("DateNanos");
    assert(snake_seq("Double"@).len() >= 1);
    assert(snake_seq("Long"@).len() >= 1);
    assert(snake_seq("Date"@).len() >= 1);
    assert(snake_seq("DateNanos"@).len() >= 1);
}

/// One sort key: a field with its optional ordering qualifiers.
#[derive(Debug)]
pub struct SortClause {
    pub field: Field,
    pub opts: SortOptions,
}

/// A sort clause's qualifiers; each serializes only when set.
#[derive(Debug)]
pub struct SortOptions {
    pub format: Option<String>,
    pub order: Option<Order>,
    pub mode: Option<Mode>,
    pub numberic_type: Option<NumbericType>,
    pub nested: Option<SortNested>,
}

impl SortClause {
    /// Makes a sort clause for the field; no qualifier is set.
    pub fn new(field: &str) -> (r: Self)
        ensures
            r.field@ == field@,
            r.opts.format is None,
            r.opts.order is None,
            r.opts.mode is None,
            r.opts.numberic_type is None,
            r.opts.nested is None,
    {
        SortClause {
            field: Field::new(field),
            opts: SortOptions {
                format: None,
                order: None,
                mode: None,
                numberic_type: None,
                nested: None,
            },
        }
    }

    /// Sets the date format of the sort values.
    pub fn format(&mut self, format: &str) -> (r: &mut Self)
        ensures
            r.opts.format matches Some(a) && a@ == format@,
            *r == (SortClause {
                opts: (SortOptions { format: r.opts.format, ..old(self).opts }),
                ..*old(self)
            }),
            *final(self) == *final(r),
    {
        self.opts.format = Some(format.to_owned());
        self
    }

    /// Sets the sort direction.
    pub fn order(&mut self, order: Order) -> (r: &mut Self)
        ensures
            *r == (SortClause {
                opts: (SortOptions { order: Some(order), ..old(self).opts }),
                ..*old(self)
            }),
            *final(self) == *final(r),
    {
        self.opts.order = Some(order);
        self
    }

    /// Sets how a multi-valued field folds into one sort value.
    pub fn mode(&mut self, mode: Mode) -> (r: &mut Self)
        ensures
            *r == (SortClause {
                opts: (SortOptions { mode: Some(mode), ..old(self).opts }),
                ..*old(self)
            }),
            *final(self) == *final(r),
    {
        self.opts.mode = Some(mode);
        self
    }

    /// Sets the numeric type sort values are cast to.
    pub fn numberic_type(&mut self, numberic_type: NumbericType) -> (r: &mut Self)
        ensures
            *r == (SortClause {
                opts: (SortOptions { numberic_type: Some(numberic_type), ..old(self).opts }),
                ..*old(self)
            }),
            *final(self) == *final(r),
    {
        self.opts.numberic_type = Some(numberic_type);
        self
    }

    /// Sets the nested-sort scope.
    pub fn nested(&mut self, nested: SortNested) -> (r: &mut Self)
        ensures
            r.opts.nested matches Some(n) && n == nested,
            *r == (SortClause {
                opts: (SortOptions { nested: r.opts.nested, ..old(self).opts }),
                ..*old(self)
            }),
            *final(self) == *final(r),
    {
        self.opts.nested = Some(nested);
        self
    }

    /// The model of the wire string of the set order, if any.
    pub open spec fn order_wire(self) -> Option<Seq<char>> {
        match self.opts.order {
            Option::Some(o) => Option::Some(o.wire_spec()),
            Option::None => Option::None,
        }
    }

    /// The model of the wire string of the set mode, if any.
    pub open spec fn mode_wire(self) -> Option<Seq<char>> {
        match self.opts.mode {
            Option::Some(m) => Option::Some(m.wire_spec()),
            Option::None => Option::None,
        }
    }

    /// The model of the wire string of the set numeric type, if any.
    pub open spec fn numberic_type_wire(self) -> Option<Seq<char>> {
        match self.opts.numberic_type {
            Option::Some(n) => Option::Some(n.wire_spec()),
            Option::None => Option::None,
        }
    }

    /// The model of the clause body's entries: each qualifier exactly
    /// when set.
    pub open spec fn opts_entries(self) -> Seq<(Seq<char>, JsonV)> {
        opt_str_entry("format"@, self.opts.format) + opt_wire_entry("order"@, self.order_wire())
            + opt_wire_entry("mode"@, self.mode_wire()) + opt_wire_entry(
            "numberic_type"@,
            self.numberic_type_wire(),
        ) + (match self.opts.nested {
            Option::Some(n) => seq![("nested"@, n.json())],
            Option::None => Seq::empty(),
        })
    }

    /// The clause's model: `{"<field>": {...qualifiers}}`.
    pub open spec fn json(self) -> JsonV {
        JsonV::Obj(req_entry(self.field@, JsonV::Obj(self.opts_entries())))
    }

    /// Serializes the clause.
    #[verifier::rlimit(30)]
    pub fn to_json(&self) -> (r: JsonValue)
        ensures
            r@ == self.json(),
    {
        let mut inner: Vec<(String, JsonValue)> = Vec::new();
        proof {
            assert(entries_of(inner@) =~= Seq::<(Seq<char>, JsonV)>::empty());
        }
        if let Some(v) = &self.opts.format {
            push_entry(&mut inner, "format", JsonValue::Str(v.clone()));
        }
        proof {
            assert(entries_of(inner@) =~= opt_str_entry("format"@, self.opts.format));
        }
        if let Some(o) = &self.opts.order {
            push_entry(&mut inner, "order", JsonValue::Str(o.display_string()));
        }
        proof {
            assert(entries_of(inner@) =~= opt_str_entry("format"@, self.opts.format)
                + opt_wire_entry("order"@, self.order_wire()));
        }
        if let Some(m) = &self.opts.mode {
            push_entry(&mut inner, "mode", JsonValue::Str(m.display_string()));
        }
        proof {
            assert(entries_of(inner@) =~= opt_str_entry("format"@, self.opts.format)
                + opt_wire_entry("order"@, self.order_wire()) + opt_wire_entry(
                "mode"@,
                self.mode_wire(),
            ));
        }
        if let Some(n) = &self.opts.numberic_type {
            push_entry(&mut inner, "numberic_type", JsonValue::Str(n.display_string()));
        }
        proof {
            assert(entries_of(inner@) =~= opt_str_entry("format"@, self.opts.format)
                + opt_wire_entry("order"@, self.order_wire()) + opt_wire_entry(
                "mode"@,
                self.mode_wire(),
            ) + opt_wire_entry("numberic_type"@, self.numberic_type_wire()));
        }
        if let Some(n) = &self.opts.nested {
            push_entry(&mut inner, "nested", n.to_json());
        }
        proof {
            assert(entries_of(inner@) =~= self.opts_entries());
        }
        let mut outer: Vec<(String, JsonValue)> = Vec::new();
        proof {
            assert(entries_of(outer@) =~= Seq::<(Seq<char>, JsonV)>::empty());
        }
        push_entry(&mut outer, self.field.as_str(), JsonValue::Obj(inner));
        proof {
            assert(entries_of(outer@) =~= req_entry(self.field@, JsonV::Obj(self.opts_entries())));
        }
        JsonValue::Obj(outer)
    }
}

/// The models of a sort clause list, in order.
pub open spec fn sort_jsons(s: Seq<SortClause>) -> Seq<JsonV>
    decreases s,
{
    if s.len() == 0 {
        Seq::empty()
    } else {
        seq![s[0].json()] + sort_jsons(s.drop_first())
    }
}

/// `sort_jsons` maps the list pointwise: sort-key precedence is preserved
/// exactly.
pub proof fn lemma_sort_jsons_index(s: Seq<SortClause>)
    ensures
        sort_jsons(s).len() == s.len(),
        forall|i: int| 0 <= i < s.len() ==> #[trigger] sort_jsons(s)[i] == s[i].json(),
    decreases s,
{
    if s.len() > 0 {
        lemma_sort_jsons_index(s.drop_first());
    }
}

/// The models of a sort clause list grow at the right with the list.
pub proof fn lemma_sort_jsons_snoc(s: Seq<SortClause>, c: SortClause)
    ensures
        sort_jsons(s.push(c)) == sort_jsons(s) + seq![c.json()],
    decreases s,
{
    if s.len() == 0 {
        assert(s.push(c).drop_first() =~= Seq::<SortClause>::empty());
        assert(s.push(c)[0] == c);
        assert(sort_jsons(Seq::<SortClause>::empty()) =~= Seq::<JsonV>::empty());
        assert(sort_jsons(s.push(c)) =~= sort_jsons(s) + seq![c.json()]);
    } else {
        assert(s.push(c).drop_first() =~= s.drop_first().push(c));
        assert(s.push(c)[0] == s[0]);
        lemma_sort_jsons_snoc(s.drop_first(), c);
        assert(sort_jsons(s.push(c)) =~= sort_jsons(s) + seq![c.json()]);
    }
}

/// The ordered sequence of sort keys; order is sort-key precedence and is
/// preserved verbatim into the output array.
#[derive(Debug)]
pub struct Sort {
    pub clauses: Vec<SortClause>,
}

impl Sort {
    /// Makes an empty sort.
    pub fn new() -> (r: Self)
        ensures
            r.clauses@.len() == 0,
    {
        Sort { clauses: vec![] }
    }

    /// Appends one sort key after the existing ones.
    pub fn sort(&mut self, sort_clause: SortClause) -> (r: &mut Self)
        ensures
            r.clauses@ == old(self).clauses@.push(sort_clause),
            *final(self) == *final(r),
    {
        self.clauses.push(sort_clause);
        self
    }

    /// The sort's model: the clauses' models as an array, in order.
    pub open spec fn json(self) -> JsonV {
        JsonV::Arr(sort_jsons(self.clauses@))
    }

    /// Serializes the sort.
    #[verifier::loop_isolation(false)]
    pub fn to_json(&self) -> (r: JsonValue)
        ensures
            r@ == self.json(),
    {
        let mut items: Vec<JsonValue> = Vec::new();
        proof {
            assert(views_of(items@) =~= Seq::<JsonV>::empty());
            assert(sort_jsons(self.clauses@.take(0)) =~= Seq::<JsonV>::empty());
        }
        let mut i: usize = 0;
        while i < self.clauses.len()
            invariant
                i <= self.clauses@.len(),
                views_of(items@) == sort_jsons(self.clauses@.take(i as int)),
            decreases self.clauses@.len() - i,
        {
            let ghost pre = items@;
            let j = self.clauses[i].to_json();
            items.push(j);
            proof {
                assert(items@ =~= pre.push(items@[pre.len() as int]));
                lemma_views_of_snoc(pre, items@[pre.len() as int]);
                assert(self.clauses@.take(i + 1) =~= self.clauses@.take(i as int).push(
                    self.clauses@[i as int],
                ));
                lemma_sort_jsons_snoc(self.clauses@.take(i as int), self.clauses@[i as int]);
                assert(views_of(items@) =~= sort_jsons(self.clauses@.take(i + 1)));
            }
            i = i + 1;
        }
        proof {
            assert(self.clauses@.take(self.clauses@.len() as int) =~= self.clauses@);
        }
        JsonValue::Arr(items)
    }
}

} // verus!
