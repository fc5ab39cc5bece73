//! The nested compound clause: applies a full sub-query at a path.

use vstd::prelude::*;
use crate::case::{lower_seq, resolve_display, Case};
use crate::json::{cond_entry, entries_of, has_key, lemma_cond_entry_omission, lemma_has_key_concat, push_entry, JsonV, JsonValue};
use crate::types::EqualsToDefault;
use super::Query;

verus! {

/// How the scores of matching nested documents combine; defaults to
/// `Avg`.  Renders under the lowercase policy; the variant standing for
/// "ignore the scores" is named `Nothing` here (its natural name would
/// collide with the option type) and carries an explicit override to the
/// wire string `"none"`.
#[derive(Clone, Copy, PartialEq, Eq, Structural, Debug)]
pub enum ScoreMode {
    Avg,
    Max,
    Min,
    Nothing,
    Sum,
}

impl ScoreMode {
    /// The canonical wire string's model: the policy-derived string, or
    /// the explicit override where one is declared.
    pub open spec fn wire_spec(self) -> Seq<char> {
        match self {
            ScoreMode::Avg => lower_seq("Avg"@),
            ScoreMode::Max => lower_seq("Max"@),
            ScoreMode::Min => lower_seq("Min"@),
            ScoreMode::Nothing => "none"@,
            ScoreMode::Sum => lower_seq("Sum"@),
        }
    }

    /// The canonical wire string; the override wins for `Nothing`.
    pub fn display_string(&self) -> (r: String)
        ensures
            r@ == self.wire_spec(),
    {
        match self {
            ScoreMode::Avg => Case::Lowercase.parse_str("Avg"),
            ScoreMode::Max => Case::Lowercase.parse_str("Max"),
            ScoreMode::Min => Case::Lowercase.parse_str("Min"),
            ScoreMode::Nothing => resolve_display(Case::Lowercase, "Nothing", Some("none")),
            ScoreMode::Sum => Case::Lowercase.parse_str("Sum"),
        }
    }
}

/// Case-formatter totality for the score mode: every symbol maps to
/// exactly one nonempty wire string, the override included.
pub proof fn lemma_score_mode_totality(m: ScoreMode)
    ensures
        m.wire_spec().len() > 0,
{
    reveal_strlit("Avg");
    reveal_strlit("Max");
    reveal_strlit("Min");
    reveal_strlit("none");
    reveal_strlit("Sum");
    assert(lower_seq("Avg"@).len() == 3);
    assert(lower_seq("Max"@).len() == 3);
    assert(lower_seq("Min"@).len() == 3);
    assert("none"@.len() == 4);
    assert(lower_seq("Sum"@).len() == 3);
}

impl Default for ScoreMode {
    fn default() -> (r: Self)
        ensures
            r == ScoreMode::Avg,
    {
        ScoreMode::Avg
    }
}

impl EqualsToDefault for ScoreMode {
    open spec fn default_spec() -> Self {
        ScoreMode::Avg
    }

    fn equals_to_default(&self) -> (r: bool) {
        matches!(self, ScoreMode::Avg)
    }
}

/// Whether an unmapped path is ignored rather than an error; defaults to
/// false.
#[derive(Clone, Copy, PartialEq, Eq, Structural, Debug)]
pub struct IgnoreUnmapped(pub bool);

impl Default for IgnoreUnmapped {
    fn default() -> (r: Self)
        ensures
            r == Self::default_spec(),
    {
        IgnoreUnmapped(false)
    }
}

impl EqualsToDefault for IgnoreUnmapped {
    open spec fn default_spec() -> Self {
        IgnoreUnmapped(false)
    }

    fn equals_to_default(&self) -> (r: bool) {
        self.0 == false
    }
}

/// Applies a full sub-query to the nested documents under `path`.  The
/// sub-query is itself a complete query and may contain a further nested
/// clause, with no depth limit.
#[derive(Debug)]
pub struct Nested {
    pub path: String,
    pub query: Query,
    pub score_mode: ScoreMode,
    pub ignore_unmapped: IgnoreUnmapped,
}

impl Nested {
    /// Makes a nested clause wrapping the sub-query at the path; the
    /// score mode and unmapped handling start at their defaults.
    pub fn new(path: &str, query: Query) -> (r: Self)
        ensures
            r.path@ == path@,
            r.query == query,
            r.score_mode == ScoreMode::Avg,
            r.ignore_unmapped == IgnoreUnmapped::default_spec(),
    {
        Nested {
            path: path.to_owned(),
            query,
            score_mode: ScoreMode::default(),
            ignore_unmapped: IgnoreUnmapped::default(),
        }
    }

    /// Sets how the scores of matching nested documents combine.
    pub fn score_mode(&mut self, v: ScoreMode) -> (r: &mut Self)
        ensures
            *r == (Nested { score_mode: v, ..*old(self) }),
            *final(self) == *final(r),
    {
        self.score_mode = v;
        self
    }

    /// Sets whether an unmapped path is ignored.
    pub fn ignore_unmapped(&mut self, v: bool) -> (r: &mut Self)
        ensures
            *r == (Nested { ignore_unmapped: IgnoreUnmapped(v), ..*old(self) }),
            *final(self) == *final(r),
    {
        self.ignore_unmapped = IgnoreUnmapped(v);
        self
    }

    /// The model of the clause's entries: the path, the full sub-query,
    /// then the defaulted parameters exactly when non-default.
    pub open spec fn entries(self) -> Seq<(Seq<char>, JsonV)>
        decreases self, 0int,
    {
        seq![("path"@, JsonV::Str(self.path@))] + seq![("query"@, self.query.json())] + (if self.score_mode != ScoreMode::Avg {
            seq![("score_mode"@, JsonV::Str(self.score_mode.wire_spec()))]
        } else {
            Seq::empty()
        }) + (if self.ignore_unmapped != IgnoreUnmapped::default_spec() {
            seq![("ignore_unmapped"@, JsonV::Bool(self.ignore_unmapped.0))]
        } else {
            Seq::empty()
        })
    }

    /// The clause's model.
    pub open spec fn json(self) -> JsonV
        decreases self, 1int,
    {
        JsonV::Obj(self.entries())
    }

    /// Serializes the clause.
    pub fn to_json(&self) -> (r: JsonValue)
        ensures
            r@ == self.json(),
        decreases *self,
    {
        let mut fields: Vec<(String, JsonValue)> = Vec::new();
        proof {
            assert(entries_of(fields@) =~= Seq::<(Seq<char>, JsonV)>::empty());
        }
        push_entry(&mut fields, "path", JsonValue::Str(self.path.clone()));
        push_entry(&mut fields, "query", self.query.to_json());
        proof {
            assert(entries_of(fields@) =~= seq![("path"@, JsonV::Str(self.path@))] + seq![
                ("query"@, self.query.json()),
            ]);
        }
        if !self.score_mode.equals_to_default() {
            push_entry(&mut fields, "score_mode", JsonValue::Str(self.score_mode.display_string()));
        }
        if !self.ignore_unmapped.equals_to_default() {
            push_entry(&mut fields, "ignore_unmapped", JsonValue::Bool(self.ignore_unmapped.0));
        }
        proof {
            assert(entries_of(fields@) =~= self.entries());
        }
        JsonValue::Obj(fields)
    }
}

/// Default omission for the nested clause: the score-mode and
/// ignore-unmapped keys appear exactly when their values differ from the
/// defaults.
pub proof fn lemma_nested_default_omission(n: Nested)
    ensures
        has_key(n.entries(), "score_mode"@) <==> n.score_mode != ScoreMode::Avg,
        has_key(n.entries(), "ignore_unmapped"@) <==> n.ignore_unmapped
            != IgnoreUnmapped::default_spec(),
{
    reveal_strlit("path");
    reveal_strlit("query");
    reveal_strlit("score_mode");
    reveal_strlit("ignore_unmapped");
    assert("path"@.len() == 4);
    assert("query"@.len() == 5);
    assert("score_mode"@.len() == 10);
    assert("ignore_unmapped"@.len() == 15);
    let s1 = seq![("path"@, JsonV::Str(n.path@))];
    let s2 = seq![("query"@, n.query.json())];
    let s3 = cond_entry(
        n.score_mode != ScoreMode::Avg,
        "score_mode"@,
        JsonV::Str(n.score_mode.wire_spec()),
    );
    let s4 = cond_entry(
        n.ignore_unmapped != IgnoreUnmapped::default_spec(),
        "ignore_unmapped"@,
        JsonV::Bool(n.ignore_unmapped.0),
    );
    assert(n.entries() =~= s1 + s2 + s3 + s4);
    assert forall|k: Seq<char>| true implies has_key(n.entries(), k) == (has_key(s1, k) || has_key(
        s2,
        k,
    ) || has_key(s3, k) || has_key(s4, k)) by {
        lemma_has_key_concat(s1, s2, k);
        lemma_has_key_concat(s1 + s2, s3, k);
        lemma_has_key_concat(s1 + s2 + s3, s4, k);
    }
    lemma_cond_entry_omission(
        n.score_mode != ScoreMode::Avg,
        "score_mode"@,
        JsonV::Str(n.score_mode.wire_spec()),
    );
    lemma_cond_entry_omission(
        n.ignore_unmapped != IgnoreUnmapped::default_spec(),
        "ignore_unmapped"@,
        JsonV::Bool(n.ignore_unmapped.0),
    );
}

} // verus!
