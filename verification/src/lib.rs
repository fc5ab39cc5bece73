//! A typed builder for search-engine query and sort documents.
//!
//! Queries are assembled from a closed set of clause types — leaf clauses
//! such as match, term, range, exists and wildcard, and the compound bool
//! and nested clauses — then serialized to a canonical JSON value under an
//! omit-if-default rule: an optional field appears exactly when it was
//! set, and a defaulted field exactly when its value differs from its
//! type's documented default.  Field order, omitted keys and the case of
//! enumerated wire strings are part of the canonical form, and each
//! serializer carries a contract pinning them down.

pub mod bench;
pub mod boost;
pub mod case;
pub mod case_insensitive;
pub mod field;
pub mod json;
pub mod query;
pub mod search;
pub mod shortcuts;
pub mod sort;
pub mod text;
pub mod types;
