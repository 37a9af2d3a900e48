//! Typed references and graph edges for records of a document database.
//!
//! A [`link::Link`] holds either the bare identifier of a record or the record
//! itself, and two links are equal when they name the same record. A
//! [`relation::Relation`] is an edge between two records with content of its own.
use vstd::prelude::*;

pub mod link;
pub mod record_id;
pub mod relation;

use crate::link::Link;

verus! {

/// Another name for [`Link`].
pub type SurrealDbId<T> = Link<T>;

/// Another name for [`Link`].
pub type SurrealId<T> = Link<T>;

/// Another name for [`Link`].
pub type DbId<T> = Link<T>;

/// Another name for [`Link`].
pub type Identifier<T> = Link<T>;

} // verus!
