use vstd::prelude::*;

use crate::link::Link;
use crate::record_id::{RecordId, RecordIdView, SurrealId};

verus! {

/// An edge of the graph as a `RELATE` statement returns it: the edge's own
/// content, with the record it comes from (`in_`) and the record it goes to
/// (`out`). Either end may be absent where a query does not return it.
pub struct Relation<I, R, O> where I: SurrealId, R: SurrealId, O: SurrealId {
    pub in_: Option<I>,
    pub out: Option<O>,
    pub relation: R,
}

/// A relation whose two ends are bare identifiers.
pub type IdRelation<T> = Relation<RecordId, T, RecordId>;

/// A relation whose two ends are links, each shallow or fetched.
pub type LinkRelation<I, R, O> = Relation<Link<I>, R, Link<O>>;

/// Every relation holds its edge's content, so it always dereferences to it.
impl<I: SurrealId, R: SurrealId, O: SurrealId> std::ops::Deref for Relation<I, R, O> {
    type Target = R;

    fn deref(&self) -> (r: &R)
        ensures
            *r == self.relation,
    {
        &self.relation
    }
}

/// A relation names the record of its edge content; its ends play no part.
impl<I: SurrealId, R: SurrealId, O: SurrealId> SurrealId for Relation<I, R, O> {
    open spec fn spec_id(&self) -> RecordIdView {
        self.relation.spec_id()
    }

    fn id(&self) -> (r: RecordId) {
        self.relation.id()
    }
}

/// Content that can stand as the edge between two records.
pub trait IntoRelation<I: SurrealId, O: SurrealId>: SurrealId {
    /// Makes the edge that goes from `i` to `o` with this value as its content.
    fn relate(self, i: I, o: O) -> (r: Relation<I, Self, O>)
        ensures
            r.relation == self,
            r.in_ == Some(i),
            r.out == Some(o),
    ;
}

impl<I: SurrealId, R: SurrealId, O: SurrealId> IntoRelation<I, O> for R {
    fn relate(self, i: I, o: O) -> (r: Relation<I, R, O>) {
        Relation { in_: Some(i), out: Some(o), relation: self }
    }
}

/// The identifier of a relation is that of its content, whatever its ends hold.
pub proof fn lemma_relation_id_ignores_ends<I: SurrealId, R: SurrealId, O: SurrealId>(
    a: Relation<I, R, O>,
    b: Relation<I, R, O>,
)
    requires
        a.relation.spec_id() == b.relation.spec_id(),
    ensures
        a.spec_id() == b.spec_id(),
{
}

} // verus!
