//! The boolean compound clause: four ordered buckets of leaf clauses.

use vstd::prelude::*;
use crate::json::{
    entries_of, has_key, lemma_has_key_concat, lemma_views_of_snoc, push_entry, views_of, JsonV,
    JsonValue,
};
use super::{leaf_jsons, lemma_leaf_jsons_index, lemma_leaf_jsons_snoc, LeafClause};

verus! {

/// Combines leaf clauses under the four boolean occurrence buckets.  A
/// bucket's key is entirely omitted while the bucket was never filled;
/// insertion order within a bucket is preserved verbatim.
#[derive(Debug, Clone)]
pub struct Bool {
    pub must: Option<Vec<LeafClause>>,
    pub filter: Option<Vec<LeafClause>>,
    pub should: Option<Vec<LeafClause>>,
    pub must_not: Option<Vec<LeafClause>>,
}

/// The clauses of one bucket, in insertion order; empty while unset.
pub open spec fn bucket_seq(b: Option<Vec<LeafClause>>) -> Seq<LeafClause> {
    match b {
        Option::Some(v) => v@,
        Option::None => Seq::empty(),
    }
}

/// The entries one bucket contributes: its ordered clause array, exactly
/// when the bucket was filled.
pub open spec fn bucket_entry(key: Seq<char>, b: Option<Vec<LeafClause>>) -> Seq<
    (Seq<char>, JsonV),
> {
    match b {
        Option::Some(v) => seq![(key, JsonV::Arr(leaf_jsons(v@)))],
        Option::None => seq![],
    }
}

/// Serializes one clause list as an ordered array.
#[verifier::loop_isolation(false)]
fn leaf_array(v: &Vec<LeafClause>) -> (r: JsonValue)
    ensures
        r@ == JsonV::Arr(leaf_jsons(v@)),
{
    let mut items: Vec<JsonValue> = Vec::new();
    proof {
        assert(views_of(items@) =~= Seq::<JsonV>::empty());
        assert(leaf_jsons(v@.take(0)) =~= Seq::<JsonV>::empty());
    }
    let mut i: usize = 0;
    while i < v.len()
        invariant
            i <= v@.len(),
            views_of(items@) == leaf_jsons(v@.take(i as int)),
        decreases v@.len() - i,
    {
        let ghost pre = items@;
        let j = v[i].to_json();
        items.push(j);
        proof {
            assert(items@ =~= pre.push(items@[pre.len() as int]));
            lemma_views_of_snoc(pre, items@[pre.len() as int]);
            assert(v@.take(i + 1) =~= v@.take(i as int).push(v@[i as int]));
            lemma_leaf_jsons_snoc(v@.take(i as int), v@[i as int]);
            assert(views_of(items@) =~= leaf_jsons(v@.take(i + 1)));
        }
        i = i + 1;
    }
    proof {
        assert(v@.take(v@.len() as int) =~= v@);
    }
    JsonValue::Arr(items)
}

impl Bool {
    /// Well-formedness: a filled bucket is never empty.  The constructor
    /// establishes it and every setter preserves it, so a clause built
    /// through them never serializes an empty bucket key.
    pub open spec fn wf(self) -> bool {
        &&& (self.must matches Some(v) ==> v@.len() > 0)
        &&& (self.filter matches Some(v) ==> v@.len() > 0)
        &&& (self.should matches Some(v) ==> v@.len() > 0)
        &&& (self.must_not matches Some(v) ==> v@.len() > 0)
    }

    /// Makes a boolean clause with every bucket unfilled.
    pub fn new() -> (r: Self)
        ensures
            r.must is None,
            r.filter is None,
            r.should is None,
            r.must_not is None,
            r.wf(),
    {
        Bool { must: None, filter: None, should: None, must_not: None }
    }

    /// The must bucket's clauses, in insertion order.
    pub open spec fn must_seq(self) -> Seq<LeafClause> {
        bucket_seq(self.must)
    }

    /// The filter bucket's clauses, in insertion order.
    pub open spec fn filter_seq(self) -> Seq<LeafClause> {
        bucket_seq(self.filter)
    }

    /// The should bucket's clauses, in insertion order.
    pub open spec fn should_seq(self) -> Seq<LeafClause> {
        bucket_seq(self.should)
    }

    /// The must-not bucket's clauses, in insertion order.
    pub open spec fn must_not_seq(self) -> Seq<LeafClause> {
        bucket_seq(self.must_not)
    }

    /// Appends a clause to the must bucket, keeping insertion order.
    pub fn must(&mut self, clause: LeafClause) -> (r: &mut Self)
        ensures
            r.must_seq() == old(self).must_seq().push(clause),
            r.must is Some,
            old(self).wf() ==> r.wf(),
            r.filter == old(self).filter,
            r.should == old(self).should,
            r.must_not == old(self).must_not,
            *final(self) == *final(r),
    {
        if self.must.is_none() {
            self.must = Some(vec![clause]);
            proof {
                assert(self.must_seq() =~= old(self).must_seq().push(clause));
            }
        } else {
            if let Some(list) = &mut self.must {
                list.push(clause);
            }
        }
        self
    }

    /// Appends a clause to the filter bucket, keeping insertion order.
    pub fn filter(&mut self, clause: LeafClause) -> (r: &mut Self)
        ensures
            r.filter_seq() == old(self).filter_seq().push(clause),
            r.filter is Some,
            old(self).wf() ==> r.wf(),
            r.must == old(self).must,
            r.should == old(self).should,
            r.must_not == old(self).must_not,
            *final(self) == *final(r),
    {
        if self.filter.is_none() {
            self.filter = Some(vec![clause]);
            proof {
                assert(self.filter_seq() =~= old(self).filter_seq().push(clause));
            }
        } else {
            if let Some(list) = &mut self.filter {
                list.push(clause);
            }
        }
        self
    }

    /// Appends a clause to the should bucket, keeping insertion order.
    pub fn should(&mut self, clause: LeafClause) -> (r: &mut Self)
        ensures
            r.should_seq() == old(self).should_seq().push(clause),
            r.should is Some,
            old(self).wf() ==> r.wf(),
            r.must == old(self).must,
            r.filter == old(self).filter,
            r.must_not == old(self).must_not,
            *final(self) == *final(r),
    {
        if self.should.is_none() {
            self.should = Some(vec![clause]);
            proof {
                assert(self.should_seq() =~= old(self).should_seq().push(clause));
            }
        } else {
            if let Some(list) = &mut self.should {
                list.push(clause);
            }
        }
        self
    }

    /// Appends a clause to the must-not bucket, keeping insertion order.
    pub fn must_not(&mut self, clause: LeafClause) -> (r: &mut Self)
        ensures
            r.must_not_seq() == old(self).must_not_seq().push(clause),
            r.must_not is Some,
            old(self).wf() ==> r.wf(),
            r.must == old(self).must,
            r.filter == old(self).filter,
            r.should == old(self).should,
            *final(self) == *final(r),
    {
        if self.must_not.is_none() {
            self.must_not = Some(vec![clause]);
            proof {
                assert(self.must_not_seq() =~= old(self).must_not_seq().push(clause));
            }
        } else {
            if let Some(list) = &mut self.must_not {
                list.push(clause);
            }
        }
        self
    }

    /// The model of the clause's entries: each filled bucket in the fixed
    /// bucket order.
    pub open spec fn entries(self) -> Seq<(Seq<char>, JsonV)> {
        bucket_entry("must"@, self.must) + bucket_entry("filter"@, self.filter) + bucket_entry(
            "should"@,
            self.should,
        ) + bucket_entry("must_not"@, self.must_not)
    }

    /// The clause's model.
    pub open spec fn json(self) -> JsonV {
        JsonV::Obj(self.entries())
    }

    /// Serializes the clause.
    pub fn to_json(&self) -> (r: JsonValue)
        ensures
            r@ == self.json(),
    {
        let mut fields: Vec<(String, JsonValue)> = Vec::new();
        proof {
            assert(entries_of(fields@) =~= Seq::<(Seq<char>, JsonV)>::empty());
        }
        if let Some(v) = &self.must {
            push_entry(&mut fields, "must", leaf_array(v));
        }
        proof {
            assert(entries_of(fields@) =~= bucket_entry("must"@, self.must));
        }
        if let Some(v) = &self.filter {
            push_entry(&mut fields, "filter", leaf_array(v));
        }
        proof {
            assert(entries_of(fields@) =~= bucket_entry("must"@, self.must) + bucket_entry(
                "filter"@,
                self.filter,
            ));
        }
        if let Some(v) = &self.should {
            push_entry(&mut fields, "should", leaf_array(v));
        }
        proof {
            assert(entries_of(fields@) =~= bucket_entry("must"@, self.must) + bucket_entry(
                "filter"@,
                self.filter,
            ) + bucket_entry("should"@, self.should));
        }
        if let Some(v) = &self.must_not {
            push_entry(&mut fields, "must_not", leaf_array(v));
        }
        proof {
            assert(entries_of(fields@) =~= self.entries());
        }
        JsonValue::Obj(fields)
    }
}

/// List-order preservation: a filled must bucket serializes as the first
/// entry, an array holding each inserted clause's model at exactly its
/// insertion position; and an unfilled bucket contributes no key.
pub proof fn lemma_bool_list_order(b: Bool)
    ensures
        b.must is Some ==> b.entries()[0] == ("must"@, JsonV::Arr(leaf_jsons(b.must_seq()))),
        leaf_jsons(b.must_seq()).len() == b.must_seq().len(),
        forall|i: int|
            0 <= i < b.must_seq().len() ==> #[trigger] leaf_jsons(b.must_seq())[i]
                == b.must_seq()[i].json(),
        b.must is None ==> !has_key(b.entries(), "must"@),
{
    lemma_leaf_jsons_index(b.must_seq());
    if b.must is None {
        reveal_strlit("must");
        reveal_strlit("filter");
        reveal_strlit("should");
        reveal_strlit("must_not");
        assert("must"@.len() == 4);
        assert("filter"@.len() == 6);
        assert("should"@.len() == 6);
        assert("must_not"@.len() == 8);
        assert("filter"@[0] != "should"@[0]);
        let s1 = bucket_entry("must"@, b.must);
        let s2 = bucket_entry("filter"@, b.filter);
        let s3 = bucket_entry("should"@, b.should);
        let s4 = bucket_entry("must_not"@, b.must_not);
        lemma_has_key_concat(s1 + s2 + s3, s4, "must"@);
        lemma_has_key_concat(s1 + s2, s3, "must"@);
        lemma_has_key_concat(s1, s2, "must"@);
        assert(!has_key(s1, "must"@));
        assert(!has_key(s2, "must"@));
        assert(!has_key(s3, "must"@));
        assert(!has_key(s4, "must"@));
    }
}

/// No empty bucket is ever serialized: under well-formedness, every
/// entry of the clause's object is a nonempty array.
pub proof fn lemma_bool_no_empty_bucket(b: Bool)
    requires
        b.wf(),
    ensures
        forall|i: int|
            0 <= i < b.entries().len() ==> ((#[trigger] b.entries()[i]).1 matches JsonV::Arr(a)
                && a.len() > 0),
{
    lemma_leaf_jsons_index(b.must_seq());
    lemma_leaf_jsons_index(b.filter_seq());
    lemma_leaf_jsons_index(b.should_seq());
    lemma_leaf_jsons_index(b.must_not_seq());
}

} // verus!
