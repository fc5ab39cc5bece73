//! A construction workload: builds a representative search document
//! repeatedly, for timing the builders and the serializer.

use vstd::prelude::*;
use crate::field::Field;
use crate::query::bool::Bool;
use crate::query::match_clause::Match;
use crate::query::range::{Range, RangeValue};
use crate::query::{LeafClause, Query, QueryValue};
use crate::search::Search;
use crate::sort::{Order, Sort, SortClause};

verus! {

/// Builds the same representative search document `n` times over.
pub fn benchtest(n: usize) {
    let mut i: usize = 0;
    while i < n
        invariant
            i <= n,
        decreases n - i,
    {
        let mut b = Bool::new();
        b.must(
            LeafClause::Match(
                Match::new(Field::new("event.action"), QueryValue::Text("logged-in".to_owned())),
            ),
        );
        let mut rg = Range::new(Field::new("@timestamp"));
        rg.gte(RangeValue::Date("now-1h/H".to_owned()));
        rg.lte(RangeValue::Date("now/H".to_owned()));
        rg.format("HH:mm:ss yyyy/MM/DD");
        b.filter(LeafClause::Range(rg));
        let mut q = Query::new();
        q.bool(b);
        let mut clause = SortClause::new("@timestamp");
        clause.order(Order::Desc);
        let mut s = Sort::new();
        s.sort(clause);
        let mut search = Search::new();
        search.query(q);
        search.sort(s);
        let _ = search.build();
        i = i + 1;
    }
}

} // verus!
