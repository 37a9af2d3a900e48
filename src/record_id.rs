use vstd::prelude::*;

verus! {

/// The mathematical value of a [`RecordId`]: its table and key as character sequences.
pub struct RecordIdView {
    pub table: Seq<char>,
    pub key: Seq<char>,
}

/// The address of one stored record: the name of its table and its key.
///
/// Two identifiers are equal exactly when their tables and their keys are.
#[derive(Debug, Clone)]
pub struct RecordId {
    pub table: String,
    pub key: String,
}

impl View for RecordId {
    type V = RecordIdView;

    open spec fn view(&self) -> RecordIdView {
        RecordIdView { table: self.table@, key: self.key@ }
    }
}

impl RecordId {
    /// Builds the identifier of the record with `key` in `table`.
    pub fn new(table: &str, key: &str) -> (r: RecordId)
        ensures
            r@ == (RecordIdView { table: table@, key: key@ }),
    {
        RecordId { table: table.to_owned(), key: key.to_owned() }
    }

    /// A second identifier with the same table and key.
    pub fn copied(&self) -> (r: RecordId)
        ensures
            r@ == self@,
    {
        RecordId { table: self.table.clone(), key: self.key.clone() }
    }
}

impl PartialEq for RecordId {
    fn eq(&self, other: &RecordId) -> (r: bool) {
        self.table == other.table && self.key == other.key
    }
}

impl vstd::std_specs::cmp::PartialEqSpecImpl for RecordId {
    open spec fn obeys_eq_spec() -> bool {
        true
    }

    open spec fn eq_spec(&self, other: &RecordId) -> bool {
        self@ == other@
    }
}

/// A value that names the stored record it stands for.
///
/// The identifier depends on the value alone: the same value always gives the
/// same identifier, and deriving it never fails.
pub trait SurrealId: Sized {
    /// The identifier of this value.
    spec fn spec_id(&self) -> RecordIdView;

    /// Derives the identifier of this value.
    fn id(&self) -> (r: RecordId)
        ensures
            r@ == self.spec_id(),
    ;
}

impl SurrealId for RecordId {
    open spec fn spec_id(&self) -> RecordIdView {
        self@
    }

    fn id(&self) -> (r: RecordId) {
        self.copied()
    }
}

/// A value from which a fresh identifier is drawn.
pub trait LinkId {
    /// The identifier that [`LinkId::new_id`] gives.
    spec fn spec_new_id(&self) -> RecordIdView;

    /// Gives the identifier that this value stands for.
    fn new_id(&self) -> (r: RecordId)
        ensures
            r@ == self.spec_new_id(),
    ;
}

impl LinkId for RecordId {
    open spec fn spec_new_id(&self) -> RecordIdView {
        self@
    }

    fn new_id(&self) -> (r: RecordId) {
        self.copied()
    }
}

} // verus!
