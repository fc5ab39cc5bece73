//! The match clause: full-text matching with its tuning parameters.

use vstd::prelude::*;
use crate::case::{lower_seq, resolve_display, upper_seq, Case};
use crate::field::Field;
use crate::json::{
    cond_entry, entries_of, has_key, lemma_cond_entry_omission, lemma_has_key_concat,
    opt_str_entry, push_entry, req_entry, JsonV, JsonValue,
};
use crate::types::number::Number;
use super::QueryValue;

verus! {

/// Matches documents where `field` matches the analyzed `query` value.
#[derive(Debug, Clone)]
pub struct Match {
    pub field: Field,
    pub query: QueryValue,
    pub opts: MatchOptions,
}

/// The match clause's tuning parameters.  An optional parameter
/// serializes only when set; a defaulted one (the value wrappers and the
/// `operator` and `zero_terms_query` enums, which always hold a concrete
/// value) serializes only when it differs from its documented default.
#[derive(Debug, Clone)]
pub struct MatchOptions {
    pub analyzer: Option<String>,
    pub auto_generate_synonyms_phrase_query: AutoGenerateSynonymsPhraseQuery,
    pub fuzziness: Option<String>,
    pub max_expansions: MaxExpansions,
    pub prefix_length: PrefixLength,
    pub fuzzy_transpositions: FuzzyTranspositions,
    pub fuzzy_rewrite: Option<String>,
    pub lenient: Lenient,
    pub operator: Operator,
    pub minimum_should_match: Option<String>,
    pub zero_terms_query: ZeroTermsQuery,
}

/// Whether synonym phrase queries are generated automatically; defaults to
/// true.
#[derive(Clone, Copy, PartialEq, Eq, Structural, Debug)]
pub struct AutoGenerateSynonymsPhraseQuery(pub bool);

/// The most expansions a fuzzy match may create; defaults to 50.
#[derive(Clone, Copy, PartialEq, Eq, Structural, Debug)]
pub struct MaxExpansions(pub i32);

/// How many leading characters are left untouched by fuzzy matching;
/// defaults to 0.
#[derive(Clone, Copy, PartialEq, Eq, Structural, Debug)]
pub struct PrefixLength(pub i32);

/// Whether fuzzy matching may transpose adjacent characters; defaults to
/// true.
#[derive(Clone, Copy, PartialEq, Eq, Structural, Debug)]
pub struct FuzzyTranspositions(pub bool);

/// Whether format errors in the query are ignored; defaults to false.
#[derive(Clone, Copy, PartialEq, Eq, Structural, Debug)]
pub struct Lenient(pub bool);

impl AutoGenerateSynonymsPhraseQuery {
    /// The documented default.
    pub open spec fn default_spec() -> Self {
        AutoGenerateSynonymsPhraseQuery(true)
    }

    /// Whether the value equals the documented default.
    pub fn is_default(&self) -> (r: bool)
        ensures
            r == (*self == Self::default_spec()),
    {
        self.0 == true
    }
}

impl Default for AutoGenerateSynonymsPhraseQuery {
    fn default() -> (r: Self)
        ensures
            r == Self::default_spec(),
    {
        AutoGenerateSynonymsPhraseQuery(true)
    }
}

impl MaxExpansions {
    /// The documented default.
    pub open spec fn default_spec() -> Self {
        MaxExpansions(50)
    }

    /// Whether the value equals the documented default.
    pub fn is_default(&self) -> (r: bool)
        ensures
            r == (*self == Self::default_spec()),
    {
        self.0 == 50
    }
}

impl Default for MaxExpansions {
    fn default() -> (r: Self)
        ensures
            r == Self::default_spec(),
    {
        MaxExpansions(50)
    }
}

impl PrefixLength {
    /// The documented default.
    pub open spec fn default_spec() -> Self {
        PrefixLength(0)
    }

    /// Whether the value equals the documented default.
    pub fn is_default(&self) -> (r: bool)
        ensures
            r == (*self == Self::default_spec()),
    {
        self.0 == 0
    }
}

impl Default for PrefixLength {
    fn default() -> (r: Self)
        ensures
            r == Self::default_spec(),
    {
        PrefixLength(0)
    }
}

impl FuzzyTranspositions {
    /// The documented default.
    pub open spec fn default_spec() -> Self {
        FuzzyTranspositions(true)
    }

    /// Whether the value equals the documented default.
    pub fn is_default(&self) -> (r: bool)
        ensures
            r == (*self == Self::default_spec()),
    {
        self.0 == true
    }
}

impl Default for FuzzyTranspositions {
    fn default() -> (r: Self)
        ensures
            r == Self::default_spec(),
    {
        FuzzyTranspositions(true)
    }
}

impl Lenient {
    /// The documented default.
    pub open spec fn default_spec() -> Self {
        Lenient(false)
    }

    /// Whether the value equals the documented default.
    pub fn is_default(&self) -> (r: bool)
        ensures
            r == (*self == Self::default_spec()),
    {
        self.0 == false
    }
}

impl Default for Lenient {
    fn default() -> (r: Self)
        ensures
            r == Self::default_spec(),
    {
        Lenient(false)
    }
}

/// Whether all terms must match (`AND`) or any may (`OR`); the engine's
/// default is `OR`.  Renders under the uppercase policy.
#[derive(Clone, Copy, PartialEq, Eq, Structural, Debug)]
pub enum Operator {
    And,
    Or,
}

impl Operator {
    /// The canonical wire string's model.
    pub open spec fn wire_spec(self) -> Seq<char> {
        match self {
            Operator::And => upper_seq("And"@),
            Operator::Or => upper_seq("Or"@),
        }
    }

    /// The canonical wire string: the uppercase policy applied to the
    /// symbol's declared name.
    pub fn display_string(&self) -> (r: String)
        ensures
            r@ == self.wire_spec(),
    {
        match self {
            Operator::And => Case::Uppercase.parse_str("And"),
            Operator::Or => Case::Uppercase.parse_str("Or"),
        }
    }
}

/// Case-formatter totality for the operator: every symbol maps to
/// exactly one nonempty wire string.
pub proof fn lemma_operator_totality(o: Operator)
    ensures
        o.wire_spec().len() > 0,
{
    reveal_strlit("And");
    reveal_strlit("Or");
    assert(upper_seq("And"@).len() == 3);
    assert(upper_seq("Or"@).len() == 2);
}

impl Default for Operator {
    fn default() -> (r: Self)
        ensures
            r == Operator::Or,
    {
        Operator::Or
    }
}

/// What a query of only removed terms matches: nothing, or all documents.
/// Renders under the lowercase policy; the variant standing for "no
/// documents" is named `Nothing` here (its natural name would collide with
/// the option type) and carries an explicit override to the wire string
/// `"none"`.  The engine's default is `"none"`.
#[derive(Clone, Copy, PartialEq, Eq, Structural, Debug)]
pub enum ZeroTermsQuery {
    All,
    Nothing,
}

impl ZeroTermsQuery {
    /// The canonical wire string's model: the policy-derived string, or
    /// the explicit override where one is declared.
    pub open spec fn wire_spec(self) -> Seq<char> {
        match self {
            ZeroTermsQuery::All => lower_seq("All"@),
            ZeroTermsQuery::Nothing => "none"@,
        }
    }

    /// The canonical wire string; the override wins for `Nothing`.
    pub fn display_string(&self) -> (r: String)
        ensures
            r@ == self.wire_spec(),
    {
        match self {
            ZeroTermsQuery::All => Case::Lowercase.parse_str("All"),
            ZeroTermsQuery::Nothing => resolve_display(Case::Lowercase, "Nothing", Some("none")),
        }
    }
}

/// Case-formatter totality for the zero-terms behaviour: every symbol
/// maps to exactly one nonempty wire string, the override included.
pub proof fn lemma_zero_terms_totality(z: ZeroTermsQuery)
    ensures
        z.wire_spec().len() > 0,
{
    reveal_strlit("All");
    reveal_strlit("none");
    assert(lower_seq("All"@).len() == 3);
    assert("none"@.len() == 4);
}

impl Default for ZeroTermsQuery {
    fn default() -> (r: Self)
        ensures
            r == ZeroTermsQuery::Nothing,
    {
        ZeroTermsQuery::Nothing
    }
}

impl MatchOptions {
    /// The defaults: no optional parameter set, each wrapper at its
    /// documented default.
    pub open spec fn default_spec() -> Self {
        MatchOptions {
            analyzer: Option::None,
            auto_generate_synonyms_phrase_query: AutoGenerateSynonymsPhraseQuery(true),
            fuzziness: Option::None,
            max_expansions: MaxExpansions(50),
            prefix_length: PrefixLength(0),
            fuzzy_transpositions: FuzzyTranspositions(true),
            fuzzy_rewrite: Option::None,
            lenient: Lenient(false),
            operator: Operator::Or,
            minimum_should_match: Option::None,
            zero_terms_query: ZeroTermsQuery::Nothing,
        }
    }

    /// Whether every parameter still has its default.
    pub fn is_default(&self) -> (r: bool)
        ensures
            r == (*self == Self::default_spec()),
    {
        self.analyzer.is_none() && self.auto_generate_synonyms_phrase_query.is_default()
            && self.fuzziness.is_none() && self.max_expansions.is_default()
            && self.prefix_length.is_default() && self.fuzzy_transpositions.is_default()
            && self.fuzzy_rewrite.is_none() && self.lenient.is_default()
            && self.operator == Operator::Or && self.minimum_should_match.is_none()
            && self.zero_terms_query == ZeroTermsQuery::Nothing
    }
}

impl Default for MatchOptions {
    fn default() -> (r: Self)
        ensures
            r == Self::default_spec(),
    {
        MatchOptions {
            analyzer: None,
            auto_generate_synonyms_phrase_query: AutoGenerateSynonymsPhraseQuery::default(),
            fuzziness: None,
            max_expansions: MaxExpansions::default(),
            prefix_length: PrefixLength::default(),
            fuzzy_transpositions: FuzzyTranspositions::default(),
            fuzzy_rewrite: None,
            lenient: Lenient::default(),
            operator: Operator::Or,
            minimum_should_match: None,
            zero_terms_query: ZeroTermsQuery::Nothing,
        }
    }
}

impl Match {
    /// Makes a match clause for the field and query value; every tuning
    /// parameter starts at its default.
    pub fn new(field: Field, value: QueryValue) -> (r: Self)
        ensures
            r.field == field,
            r.query == value,
            r.opts == MatchOptions::default_spec(),
    {
        Match { field, query: value, opts: MatchOptions::default() }
    }

    /// Sets the analyzer name.
    pub fn analyzer(&mut self, v: &str) -> (r: &mut Self)
        ensures
            r.opts.analyzer matches Some(a) && a@ == v@,
            *r == (Match {
                opts: (MatchOptions { analyzer: r.opts.analyzer, ..old(self).opts }),
                ..*old(self)
            }),
            *final(self) == *final(r),
    {
        self.opts.analyzer = Some(v.to_owned());
        self
    }

    /// Sets whether synonym phrase queries are generated automatically.
    pub fn auto_generate_synonyms_phrase_query(&mut self, v: bool) -> (r: &mut Self)
        ensures
            *r == (Match {
                opts: (MatchOptions {
                    auto_generate_synonyms_phrase_query: AutoGenerateSynonymsPhraseQuery(v),
                    ..old(self).opts
                }),
                ..*old(self)
            }),
            *final(self) == *final(r),
    {
        self.opts.auto_generate_synonyms_phrase_query = AutoGenerateSynonymsPhraseQuery(v);
        self
    }

    /// Sets the fuzziness expression.
    pub fn fuzziness(&mut self, v: &str) -> (r: &mut Self)
        ensures
            r.opts.fuzziness matches Some(a) && a@ == v@,
            *r == (Match {
                opts: (MatchOptions { fuzziness: r.opts.fuzziness, ..old(self).opts }),
                ..*old(self)
            }),
            *final(self) == *final(r),
    {
        self.opts.fuzziness = Some(v.to_owned());
        self
    }

    /// Sets the most expansions a fuzzy match may create.
    pub fn max_expansions(&mut self, v: i32) -> (r: &mut Self)
        ensures
            *r == (Match {
                opts: (MatchOptions { max_expansions: MaxExpansions(v), ..old(self).opts }),
                ..*old(self)
            }),
            *final(self) == *final(r),
    {
        self.opts.max_expansions = MaxExpansions(v);
        self
    }

    /// Sets how many leading characters fuzzy matching leaves untouched.
    pub fn prefix_length(&mut self, v: i32) -> (r: &mut Self)
        ensures
            *r == (Match {
                opts: (MatchOptions { prefix_length: PrefixLength(v), ..old(self).opts }),
                ..*old(self)
            }),
            *final(self) == *final(r),
    {
        self.opts.prefix_length = PrefixLength(v);
        self
    }

    /// Sets whether fuzzy matching may transpose adjacent characters.
    pub fn fuzzy_transpositions(&mut self, v: bool) -> (r: &mut Self)
        ensures
            *r == (Match {
                opts: (MatchOptions {
                    fuzzy_transpositions: FuzzyTranspositions(v),
                    ..old(self).opts
                }),
                ..*old(self)
            }),
            *final(self) == *final(r),
    {
        self.opts.fuzzy_transpositions = FuzzyTranspositions(v);
        self
    }

    /// Sets the rewrite method for fuzzy matching.
    pub fn fuzzy_rewrite(&mut self, v: &str) -> (r: &mut Self)
        ensures
            r.opts.fuzzy_rewrite matches Some(a) && a@ == v@,
            *r == (Match {
                opts: (MatchOptions { fuzzy_rewrite: r.opts.fuzzy_rewrite, ..old(self).opts }),
                ..*old(self)
            }),
            *final(self) == *final(r),
    {
        self.opts.fuzzy_rewrite = Some(v.to_owned());
        self
    }

    /// Sets whether format errors in the query are ignored.
    pub fn lenient(&mut self, v: bool) -> (r: &mut Self)
        ensures
            *r == (Match {
                opts: (MatchOptions { lenient: Lenient(v), ..old(self).opts }),
                ..*old(self)
            }),
            *final(self) == *final(r),
    {
        self.opts.lenient = Lenient(v);
        self
    }

    /// Sets the boolean operator joining the analyzed terms.
    pub fn operator(&mut self, v: Operator) -> (r: &mut Self)
        ensures
            *r == (Match {
                opts: (MatchOptions { operator: v, ..old(self).opts }),
                ..*old(self)
            }),
            *final(self) == *final(r),
    {
        self.opts.operator = v;
        self
    }

    /// Sets how many optional clauses must match.
    pub fn minimum_should_match(&mut self, v: &str) -> (r: &mut Self)
        ensures
            r.opts.minimum_should_match matches Some(a) && a@ == v@,
            *r == (Match {
                opts: (MatchOptions {
                    minimum_should_match: r.opts.minimum_should_match,
                    ..old(self).opts
                }),
                ..*old(self)
            }),
            *final(self) == *final(r),
    {
        self.opts.minimum_should_match = Some(v.to_owned());
        self
    }

    /// Sets what a query of only removed terms matches.
    pub fn zero_terms_query(&mut self, v: ZeroTermsQuery) -> (r: &mut Self)
        ensures
            *r == (Match {
                opts: (MatchOptions { zero_terms_query: v, ..old(self).opts }),
                ..*old(self)
            }),
            *final(self) == *final(r),
    {
        self.opts.zero_terms_query = v;
        self
    }

    /// The first entries of the clause body: the query value, the
    /// analyzer when set, synonym generation when non-default, and
    /// fuzziness when set.
    pub open spec fn opts_entries_a(self) -> Seq<(Seq<char>, JsonV)> {
        req_entry("query"@, self.query.json()) + opt_str_entry("analyzer"@, self.opts.analyzer)
            + cond_entry(
            self.opts.auto_generate_synonyms_phrase_query
                != AutoGenerateSynonymsPhraseQuery::default_spec(),
            "auto_generate_synonyms_phrase_query"@,
            JsonV::Bool(self.opts.auto_generate_synonyms_phrase_query.0),
        ) + opt_str_entry("fuzziness"@, self.opts.fuzziness)
    }

    /// The middle entries: the fuzzy-matching parameters, each exactly
    /// when non-default or set.
    pub open spec fn opts_entries_b(self) -> Seq<(Seq<char>, JsonV)> {
        cond_entry(
            self.opts.max_expansions != MaxExpansions::default_spec(),
            "max_expansions"@,
            JsonV::Num(Number::I32(self.opts.max_expansions.0)),
        ) + cond_entry(
            self.opts.prefix_length != PrefixLength::default_spec(),
            "prefix_length"@,
            JsonV::Num(Number::I32(self.opts.prefix_length.0)),
        ) + cond_entry(
            self.opts.fuzzy_transpositions != FuzzyTranspositions::default_spec(),
            "fuzzy_transpositions"@,
            JsonV::Bool(self.opts.fuzzy_transpositions.0),
        ) + opt_str_entry("fuzzy_rewrite"@, self.opts.fuzzy_rewrite)
    }

    /// The last entries: leniency, the operator and the zero-terms
    /// behaviour each exactly when non-default, and minimum-should-match
    /// when set.
    pub open spec fn opts_entries_c(self) -> Seq<(Seq<char>, JsonV)> {
        cond_entry(
            self.opts.lenient != Lenient::default_spec(),
            "lenient"@,
            JsonV::Bool(self.opts.lenient.0),
        ) + cond_entry(
            self.opts.operator != Operator::Or,
            "operator"@,
            JsonV::Str(self.opts.operator.wire_spec()),
        ) + opt_str_entry(
            "minimum_should_match"@,
            self.opts.minimum_should_match,
        ) + cond_entry(
            self.opts.zero_terms_query != ZeroTermsQuery::Nothing,
            "zero_terms_query"@,
            JsonV::Str(self.opts.zero_terms_query.wire_spec()),
        )
    }

    /// The model of the clause body's entries: the query value first, then
    /// each optional parameter exactly when set, and each defaulted
    /// wrapper exactly when it differs from its default.
    pub open spec fn opts_entries(self) -> Seq<(Seq<char>, JsonV)> {
        self.opts_entries_a() + self.opts_entries_b() + self.opts_entries_c()
    }

    /// The clause's model: `{"<field>": {"query": ..., ...options}}`.
    pub open spec fn json(self) -> JsonV {
        JsonV::Obj(req_entry(self.field@, JsonV::Obj(self.opts_entries())))
    }

    /// Builds the first entries of the clause body.
    fn push_opts_a(&self, inner: &mut Vec<(String, JsonValue)>)
        requires
            old(inner)@.len() == 0,
        ensures
            entries_of(final(inner)@) == self.opts_entries_a(),
    {
        proof {
            assert(entries_of(inner@) =~= Seq::<(Seq<char>, JsonV)>::empty());
        }
        push_entry(inner, "query", self.query.to_json());
        proof {
            assert(entries_of(inner@) =~= req_entry("query"@, self.query.json()));
        }
        if let Some(v) = &self.opts.analyzer {
            push_entry(inner, "analyzer", JsonValue::Str(v.clone()));
        }
        proof {
            assert(entries_of(inner@) =~= req_entry("query"@, self.query.json()) + opt_str_entry(
                "analyzer"@,
                self.opts.analyzer,
            ));
        }
        if !self.opts.auto_generate_synonyms_phrase_query.is_default() {
            push_entry(
                inner,
                "auto_generate_synonyms_phrase_query",
                JsonValue::Bool(self.opts.auto_generate_synonyms_phrase_query.0),
            );
        }
        proof {
            assert(entries_of(inner@) =~= req_entry("query"@, self.query.json()) + opt_str_entry(
                "analyzer"@,
                self.opts.analyzer,
            ) + cond_entry(
                self.opts.auto_generate_synonyms_phrase_query
                    != AutoGenerateSynonymsPhraseQuery::default_spec(),
                "auto_generate_synonyms_phrase_query"@,
                JsonV::Bool(self.opts.auto_generate_synonyms_phrase_query.0),
            ));
        }
        if let Some(v) = &self.opts.fuzziness {
            push_entry(inner, "fuzziness", JsonValue::Str(v.clone()));
        }
        proof {
            assert(entries_of(inner@) =~= self.opts_entries_a());
        }
    }

    /// Builds the middle entries of the clause body.
    fn push_opts_b(&self, inner: &mut Vec<(String, JsonValue)>)
        ensures
            entries_of(final(inner)@) == entries_of(old(inner)@) + self.opts_entries_b(),
    {
        let ghost base = entries_of(inner@);
        if !self.opts.max_expansions.is_default() {
            push_entry(
                inner,
                "max_expansions",
                JsonValue::Num(Number::I32(self.opts.max_expansions.0)),
            );
        }
        proof {
            assert(entries_of(inner@) =~= base + cond_entry(
                self.opts.max_expansions != MaxExpansions::default_spec(),
                "max_expansions"@,
                JsonV::Num(Number::I32(self.opts.max_expansions.0)),
            ));
        }
        if !self.opts.prefix_length.is_default() {
            push_entry(
                inner,
                "prefix_length",
                JsonValue::Num(Number::I32(self.opts.prefix_length.0)),
            );
        }
        proof {
            assert(entries_of(inner@) =~= base + (cond_entry(
                self.opts.max_expansions != MaxExpansions::default_spec(),
                "max_expansions"@,
                JsonV::Num(Number::I32(self.opts.max_expansions.0)),
            ) + cond_entry(
                self.opts.prefix_length != PrefixLength::default_spec(),
                "prefix_length"@,
                JsonV::Num(Number::I32(self.opts.prefix_length.0)),
            )));
        }
        if !self.opts.fuzzy_transpositions.is_default() {
            push_entry(
                inner,
                "fuzzy_transpositions",
                JsonValue::Bool(self.opts.fuzzy_transpositions.0),
            );
        }
        if let Some(v) = &self.opts.fuzzy_rewrite {
            push_entry(inner, "fuzzy_rewrite", JsonValue::Str(v.clone()));
        }
        proof {
            assert(entries_of(inner@) =~= base + self.opts_entries_b());
        }
    }

    /// Builds the last entries of the clause body.
    fn push_opts_c(&self, inner: &mut Vec<(String, JsonValue)>)
        ensures
            entries_of(final(inner)@) == entries_of(old(inner)@) + self.opts_entries_c(),
    {
        let ghost base = entries_of(inner@);
        if !self.opts.lenient.is_default() {
            push_entry(inner, "lenient", JsonValue::Bool(self.opts.lenient.0));
        }
        proof {
            assert(entries_of(inner@) =~= base + cond_entry(
                self.opts.lenient != Lenient::default_spec(),
                "lenient"@,
                JsonV::Bool(self.opts.lenient.0),
            ));
        }
        if self.opts.operator != Operator::Or {
            push_entry(inner, "operator", JsonValue::Str(self.opts.operator.display_string()));
        }
        proof {
            assert(entries_of(inner@) =~= base + (cond_entry(
                self.opts.lenient != Lenient::default_spec(),
                "lenient"@,
                JsonV::Bool(self.opts.lenient.0),
            ) + cond_entry(
                self.opts.operator != Operator::Or,
                "operator"@,
                JsonV::Str(self.opts.operator.wire_spec()),
            )));
        }
        if let Some(v) = &self.opts.minimum_should_match {
            push_entry(inner, "minimum_should_match", JsonValue::Str(v.clone()));
        }
        if self.opts.zero_terms_query != ZeroTermsQuery::Nothing {
            push_entry(
                inner,
                "zero_terms_query",
                JsonValue::Str(self.opts.zero_terms_query.display_string()),
            );
        }
        proof {
            assert(entries_of(inner@) =~= base + self.opts_entries_c());
        }
    }

    /// Serializes the clause.
    pub fn to_json(&self) -> (r: JsonValue)
        ensures
            r@ == self.json(),
    {
        let mut inner: Vec<(String, JsonValue)> = Vec::new();
        self.push_opts_a(&mut inner);
        self.push_opts_b(&mut inner);
        self.push_opts_c(&mut inner);
        proof {
            assert(entries_of(inner@) =~= self.opts_entries());
        }
        let mut outer: Vec<(String, JsonValue)> = Vec::new();
        proof {
            assert(entries_of(outer@) =~= Seq::<(Seq<char>, JsonV)>::empty());
        }
        push_entry(&mut outer, self.field.as_str(), JsonValue::Obj(inner));
        proof {
            assert(entries_of(outer@) =~= req_entry(self.field@, JsonV::Obj(self.opts_entries())));
        }
        JsonValue::Obj(outer)
    }
}

/// Minimality of a fresh match clause: with every tuning parameter at its
/// default, the body holds exactly the query key.
pub proof fn lemma_match_fresh_minimal(m: Match)
    requires
        m.opts == MatchOptions::default_spec(),
    ensures
        m.opts_entries() == req_entry("query"@, m.query.json()),
{
    assert(m.opts_entries() =~= req_entry("query"@, m.query.json()));
}

/// Where a key occurs in the match body: in exactly the segment that
/// carries it.
proof fn lemma_match_has_key_split(m: Match, k: Seq<char>)
    ensures
        has_key(m.opts_entries(), k) <==> (has_key(req_entry("query"@, m.query.json()), k)
            || has_key(opt_str_entry("analyzer"@, m.opts.analyzer), k) || has_key(
            cond_entry(
                m.opts.auto_generate_synonyms_phrase_query
                    != AutoGenerateSynonymsPhraseQuery::default_spec(),
                "auto_generate_synonyms_phrase_query"@,
                JsonV::Bool(m.opts.auto_generate_synonyms_phrase_query.0),
            ),
            k,
        ) || has_key(opt_str_entry("fuzziness"@, m.opts.fuzziness), k) || has_key(
            cond_entry(
                m.opts.max_expansions != MaxExpansions::default_spec(),
                "max_expansions"@,
                JsonV::Num(Number::I32(m.opts.max_expansions.0)),
            ),
            k,
        ) || has_key(
            cond_entry(
                m.opts.prefix_length != PrefixLength::default_spec(),
                "prefix_length"@,
                JsonV::Num(Number::I32(m.opts.prefix_length.0)),
            ),
            k,
        ) || has_key(
            cond_entry(
                m.opts.fuzzy_transpositions != FuzzyTranspositions::default_spec(),
                "fuzzy_transpositions"@,
                JsonV::Bool(m.opts.fuzzy_transpositions.0),
            ),
            k,
        ) || has_key(opt_str_entry("fuzzy_rewrite"@, m.opts.fuzzy_rewrite), k) || has_key(
            cond_entry(
                m.opts.lenient != Lenient::default_spec(),
                "lenient"@,
                JsonV::Bool(m.opts.lenient.0),
            ),
            k,
        ) || has_key(
            cond_entry(
                m.opts.operator != Operator::Or,
                "operator"@,
                JsonV::Str(m.opts.operator.wire_spec()),
            ),
            k,
        ) || has_key(
            opt_str_entry("minimum_should_match"@, m.opts.minimum_should_match),
            k,
        ) || has_key(
            cond_entry(
                m.opts.zero_terms_query != ZeroTermsQuery::Nothing,
                "zero_terms_query"@,
                JsonV::Str(m.opts.zero_terms_query.wire_spec()),
            ),
            k,
        )),
{
    let s1 = req_entry("query"@, m.query.json());
    let s2 = opt_str_entry("analyzer"@, m.opts.analyzer);
    let s3 = cond_entry(
        m.opts.auto_generate_synonyms_phrase_query
            != AutoGenerateSynonymsPhraseQuery::default_spec(),
        "auto_generate_synonyms_phrase_query"@,
        JsonV::Bool(m.opts.auto_generate_synonyms_phrase_query.0),
    );
    let s4 = opt_str_entry("fuzziness"@, m.opts.fuzziness);
    let s5 = cond_entry(
        m.opts.max_expansions != MaxExpansions::default_spec(),
        "max_expansions"@,
        JsonV::Num(Number::I32(m.opts.max_expansions.0)),
    );
    let s6 = cond_entry(
        m.opts.prefix_length != PrefixLength::default_spec(),
        "prefix_length"@,
        JsonV::Num(Number::I32(m.opts.prefix_length.0)),
    );
    let s7 = cond_entry(
        m.opts.fuzzy_transpositions != FuzzyTranspositions::default_spec(),
        "fuzzy_transpositions"@,
        JsonV::Bool(m.opts.fuzzy_transpositions.0),
    );
    let s8 = opt_str_entry("fuzzy_rewrite"@, m.opts.fuzzy_rewrite);
    let s9 = cond_entry(
        m.opts.lenient != Lenient::default_spec(),
        "lenient"@,
        JsonV::Bool(m.opts.lenient.0),
    );
    let s10 = cond_entry(
        m.opts.operator != Operator::Or,
        "operator"@,
        JsonV::Str(m.opts.operator.wire_spec()),
    );
    let s11 = opt_str_entry("minimum_should_match"@, m.opts.minimum_should_match);
    let s12 = cond_entry(
        m.opts.zero_terms_query != ZeroTermsQuery::Nothing,
        "zero_terms_query"@,
        JsonV::Str(m.opts.zero_terms_query.wire_spec()),
    );
    lemma_has_key_concat(m.opts_entries_a() + m.opts_entries_b(), m.opts_entries_c(), k);
    lemma_has_key_concat(m.opts_entries_a(), m.opts_entries_b(), k);
    lemma_has_key_concat(s1, s2, k);
    lemma_has_key_concat(s1 + s2, s3, k);
    lemma_has_key_concat(s1 + s2 + s3, s4, k);
    lemma_has_key_concat(s5, s6, k);
    lemma_has_key_concat(s5 + s6, s7, k);
    lemma_has_key_concat(s5 + s6 + s7, s8, k);
    lemma_has_key_concat(s9, s10, k);
    lemma_has_key_concat(s9 + s10, s11, k);
    lemma_has_key_concat(s9 + s10 + s11, s12, k);
}

/// The literal keys of the match body are pairwise distinct.
proof fn lemma_match_keys_distinct()
    ensures
        "query"@ != "auto_generate_synonyms_phrase_query"@,
        "analyzer"@ != "auto_generate_synonyms_phrase_query"@,
        "fuzziness"@ != "auto_generate_synonyms_phrase_query"@,
        "max_expansions"@ != "auto_generate_synonyms_phrase_query"@,
        "prefix_length"@ != "auto_generate_synonyms_phrase_query"@,
        "fuzzy_transpositions"@ != "auto_generate_synonyms_phrase_query"@,
        "fuzzy_rewrite"@ != "auto_generate_synonyms_phrase_query"@,
        "lenient"@ != "auto_generate_synonyms_phrase_query"@,
        "operator"@ != "auto_generate_synonyms_phrase_query"@,
        "minimum_should_match"@ != "auto_generate_synonyms_phrase_query"@,
        "zero_terms_query"@ != "auto_generate_synonyms_phrase_query"@,
        "query"@ != "max_expansions"@,
        "analyzer"@ != "max_expansions"@,
        "fuzziness"@ != "max_expansions"@,
        "prefix_length"@ != "max_expansions"@,
        "fuzzy_transpositions"@ != "max_expansions"@,
        "fuzzy_rewrite"@ != "max_expansions"@,
        "lenient"@ != "max_expansions"@,
        "operator"@ != "max_expansions"@,
        "minimum_should_match"@ != "max_expansions"@,
        "zero_terms_query"@ != "max_expansions"@,
        "query"@ != "prefix_length"@,
        "analyzer"@ != "prefix_length"@,
        "fuzziness"@ != "prefix_length"@,
        "max_expansions"@ != "prefix_length"@,
        "fuzzy_transpositions"@ != "prefix_length"@,
        "fuzzy_rewrite"@ != "prefix_length"@,
        "lenient"@ != "prefix_length"@,
        "operator"@ != "prefix_length"@,
        "minimum_should_match"@ != "prefix_length"@,
        "zero_terms_query"@ != "prefix_length"@,
        "query"@ != "fuzzy_transpositions"@,
        "analyzer"@ != "fuzzy_transpositions"@,
        "fuzziness"@ != "fuzzy_transpositions"@,
        "max_expansions"@ != "fuzzy_transpositions"@,
        "prefix_length"@ != "fuzzy_transpositions"@,
        "fuzzy_rewrite"@ != "fuzzy_transpositions"@,
        "lenient"@ != "fuzzy_transpositions"@,
        "operator"@ != "fuzzy_transpositions"@,
        "minimum_should_match"@ != "fuzzy_transpositions"@,
        "zero_terms_query"@ != "fuzzy_transpositions"@,
        "query"@ != "lenient"@,
        "analyzer"@ != "lenient"@,
        "fuzziness"@ != "lenient"@,
        "max_expansions"@ != "lenient"@,
        "prefix_length"@ != "lenient"@,
        "fuzzy_transpositions"@ != "lenient"@,
        "fuzzy_rewrite"@ != "lenient"@,
        "operator"@ != "lenient"@,
        "minimum_should_match"@ != "lenient"@,
        "zero_terms_query"@ != "lenient"@,
        "query"@ != "operator"@,
        "analyzer"@ != "operator"@,
        "fuzziness"@ != "operator"@,
        "fuzzy_rewrite"@ != "operator"@,
        "minimum_should_match"@ != "operator"@,
        "zero_terms_query"@ != "operator"@,
        "query"@ != "zero_terms_query"@,
        "analyzer"@ != "zero_terms_query"@,
        "fuzziness"@ != "zero_terms_query"@,
        "fuzzy_rewrite"@ != "zero_terms_query"@,
        "minimum_should_match"@ != "zero_terms_query"@,
{
    reveal_strlit("query");
    reveal_strlit("analyzer");
    reveal_strlit("auto_generate_synonyms_phrase_query");
    reveal_strlit("fuzziness");
    reveal_strlit("max_expansions");
    reveal_strlit("prefix_length");
    reveal_strlit("fuzzy_transpositions");
    reveal_strlit("fuzzy_rewrite");
    reveal_strlit("lenient");
    reveal_strlit("operator");
    reveal_strlit("minimum_should_match");
    reveal_strlit("zero_terms_query");
    assert("query"@.len() == 5);
    assert("analyzer"@.len() == 8);
    assert("auto_generate_synonyms_phrase_query"@.len() == 35);
    assert("fuzziness"@.len() == 9);
    assert("max_expansions"@.len() == 14);
    assert("prefix_length"@.len() == 13);
    assert("fuzzy_transpositions"@.len() == 20);
    assert("fuzzy_rewrite"@.len() == 13);
    assert("lenient"@.len() == 7);
    assert("operator"@.len() == 8);
    assert("minimum_should_match"@.len() == 20);
    assert("zero_terms_query"@.len() == 16);
    assert("prefix_length"@[0] != "fuzzy_rewrite"@[0]);
    assert("fuzzy_transpositions"@[0] != "minimum_should_match"@[0]);
    assert("analyzer"@[0] != "operator"@[0]);
}

/// Default omission for the match clause's defaulted wrappers: each key
/// appears in the body exactly when its value differs from its default.
pub proof fn lemma_match_default_omission(m: Match)
    ensures
        has_key(m.opts_entries(), "auto_generate_synonyms_phrase_query"@)
            <==> m.opts.auto_generate_synonyms_phrase_query
            != AutoGenerateSynonymsPhraseQuery::default_spec(),
        has_key(m.opts_entries(), "max_expansions"@) <==> m.opts.max_expansions
            != MaxExpansions::default_spec(),
        has_key(m.opts_entries(), "prefix_length"@) <==> m.opts.prefix_length
            != PrefixLength::default_spec(),
        has_key(m.opts_entries(), "fuzzy_transpositions"@) <==> m.opts.fuzzy_transpositions
            != FuzzyTranspositions::default_spec(),
        has_key(m.opts_entries(), "lenient"@) <==> m.opts.lenient != Lenient::default_spec(),
        has_key(m.opts_entries(), "operator"@) <==> m.opts.operator != Operator::Or,
        has_key(m.opts_entries(), "zero_terms_query"@) <==> m.opts.zero_terms_query
            != ZeroTermsQuery::Nothing,
{
    lemma_match_keys_distinct();
    lemma_match_has_key_split(m, "auto_generate_synonyms_phrase_query"@);
    lemma_match_has_key_split(m, "max_expansions"@);
    lemma_match_has_key_split(m, "prefix_length"@);
    lemma_match_has_key_split(m, "fuzzy_transpositions"@);
    lemma_match_has_key_split(m, "lenient"@);
    lemma_match_has_key_split(m, "operator"@);
    lemma_match_has_key_split(m, "zero_terms_query"@);
    lemma_cond_entry_omission(
        m.opts.auto_generate_synonyms_phrase_query
            != AutoGenerateSynonymsPhraseQuery::default_spec(),
        "auto_generate_synonyms_phrase_query"@,
        JsonV::Bool(m.opts.auto_generate_synonyms_phrase_query.0),
    );
    lemma_cond_entry_omission(
        m.opts.max_expansions != MaxExpansions::default_spec(),
        "max_expansions"@,
        JsonV::Num(Number::I32(m.opts.max_expansions.0)),
    );
    lemma_cond_entry_omission(
        m.opts.prefix_length != PrefixLength::default_spec(),
        "prefix_length"@,
        JsonV::Num(Number::I32(m.opts.prefix_length.0)),
    );
    lemma_cond_entry_omission(
        m.opts.fuzzy_transpositions != FuzzyTranspositions::default_spec(),
        "fuzzy_transpositions"@,
        JsonV::Bool(m.opts.fuzzy_transpositions.0),
    );
    lemma_cond_entry_omission(
        m.opts.lenient != Lenient::default_spec(),
        "lenient"@,
        JsonV::Bool(m.opts.lenient.0),
    );
    lemma_cond_entry_omission(
        m.opts.operator != Operator::Or,
        "operator"@,
        JsonV::Str(m.opts.operator.wire_spec()),
    );
    lemma_cond_entry_omission(
        m.opts.zero_terms_query != ZeroTermsQuery::Nothing,
        "zero_terms_query"@,
        JsonV::Str(m.opts.zero_terms_query.wire_spec()),
    );
}

} // verus!
