use vstd::prelude::*;

pub use crate::record_id::{LinkId, RecordId, RecordIdView, SurrealId};
use vstd::std_specs::cmp::PartialEqSpec;
use vstd::std_specs::convert::FromSpec;

verus! {

/// The shape of a stored value that stands for a record: either a bare
/// identifier, or an object already read into a `T`, or anything else.
pub enum LinkValue<T> {
    Thing(RecordId),
    Object(T),
    Other,
}

/// Why a value could not be read as a [`Link`].
#[derive(Debug, Clone, Copy, PartialEq, Eq, Structural)]
pub enum LinkError {
    /// The value is neither an identifier nor an object.
    ExpectedIdOrObject,
}

/// A reference to a record: either its bare identifier, or the record itself.
pub enum Link<T> where T: SurrealId {
    Id(RecordId),
    Record(T),
}

/// The link that a value of the given shape is read as, or the error when
/// its shape is neither an identifier nor an object.
pub open spec fn link_of<T: SurrealId>(v: LinkValue<T>) -> Result<Link<T>, LinkError> {
    match v {
        LinkValue::Thing(k) => Ok(Link::Id(k)),
        LinkValue::Object(e) => Ok(Link::Record(e)),
        LinkValue::Other => Err(LinkError::ExpectedIdOrObject),
    }
}

impl<T: SurrealId> Link<T> {
    /// The shape that this link is written as: its identifier when it is
    /// shallow, the record's own fields when it is fetched.
    pub open spec fn spec_value(self) -> LinkValue<T> {
        match self {
            Link::Id(k) => LinkValue::Thing(k),
            Link::Record(e) => LinkValue::Object(e),
        }
    }

    /// Returns the identifier of the linked record, whichever form the link has.
    pub fn id(&self) -> (r: RecordId)
        ensures
            r@ == self.spec_id(),
            self is Id ==> r@ == self->Id_0@,
            self is Record ==> r@ == self->Record_0.spec_id(),
    {
        match self {
            Link::Id(k) => k.copied(),
            Link::Record(e) => e.id(),
        }
    }

    /// Returns the fetched record; the link must hold one.
    pub fn record(self) -> (r: T)
        requires
            self is Record,
        ensures
            r == self->Record_0,
    {
        match self {
            Link::Id(_) => vstd::pervasive::unreached(),
            Link::Record(e) => e,
        }
    }

    /// Borrows the fetched record; the link must hold one.
    pub fn deref(&self) -> (r: &T)
        requires
            self is Record,
        ensures
            *r == self->Record_0,
    {
        match self {
            Link::Id(_) => vstd::pervasive::unreached(),
            Link::Record(e) => e,
        }
    }

    /// Reads a link from a stored value: an identifier gives the shallow
    /// form, an object the fetched form, and any other shape an error.
    pub fn from_value(v: LinkValue<T>) -> (r: Result<Link<T>, LinkError>)
        ensures
            r == link_of(v),
    {
        match v {
            LinkValue::Thing(k) => Ok(Link::Id(k)),
            LinkValue::Object(e) => Ok(Link::Record(e)),
            LinkValue::Other => Err(LinkError::ExpectedIdOrObject),
        }
    }

    /// Writes a link as a stored value: a shallow link as its identifier, a
    /// fetched one as the record itself.
    pub fn into_value(self) -> (r: LinkValue<T>)
        ensures
            r == self.spec_value(),
    {
        match self {
            Link::Id(k) => LinkValue::Thing(k),
            Link::Record(e) => LinkValue::Object(e),
        }
    }

    /// The value that stands for this link as a reference: always its
    /// identifier, whichever form the link has.
    pub fn to_id_value(&self) -> (r: LinkValue<T>)
        ensures
            r is Thing,
            r->Thing_0@ == self.spec_id(),
    {
        LinkValue::Thing(self.id())
    }
}

impl<T: SurrealId> SurrealId for Link<T> {
    open spec fn spec_id(&self) -> RecordIdView {
        match self {
            Link::Id(k) => k@,
            Link::Record(e) => e.spec_id(),
        }
    }

    fn id(&self) -> (r: RecordId) {
        Link::id(self)
    }
}

/// Any value that converts into an identifier gives the shallow link to it.
impl<T: SurrealId, E> From<E> for Link<T> where RecordId: From<E> {
    fn from(v: E) -> (r: Link<T>) {
        Link::Id(RecordId::from(v))
    }
}

impl<T: SurrealId, E> vstd::std_specs::convert::FromSpecImpl<E> for Link<T> where RecordId: From<E> {
    open spec fn obeys_from_spec() -> bool {
        <RecordId as FromSpec<E>>::obeys_from_spec()
    }

    open spec fn from_spec(v: E) -> Link<T> {
        Link::Id(<RecordId as FromSpec<E>>::from_spec(v))
    }
}

/// A constructor of links that takes exactly one kind of key, so that a key
/// meant for one table cannot make a link to another.
pub trait NewLink<T: SurrealId, P> {
    /// Makes the link that `params` names.
    fn new(params: P) -> Link<T>;
}

impl<T: SurrealId> PartialEq for Link<T> {
    fn eq(&self, other: &Link<T>) -> (r: bool) {
        let a = self.id();
        let b = other.id();
        a == b
    }
}

impl<T: SurrealId> vstd::std_specs::cmp::PartialEqSpecImpl for Link<T> {
    open spec fn obeys_eq_spec() -> bool {
        true
    }

    open spec fn eq_spec(&self, other: &Link<T>) -> bool {
        self.spec_id() == other.spec_id()
    }
}

/// A link in either form names the record that its identifier names.
pub proof fn lemma_id_of_forms<T: SurrealId>(k: RecordId, e: T)
    ensures
        Link::<T>::Id(k).spec_id() == k@,
        Link::<T>::Record(e).spec_id() == e.spec_id(),
{
}

/// A shallow link and a fetched one are equal whenever the identifier of the
/// first is the one that the record of the second derives, though their forms differ.
pub proof fn lemma_eq_across_forms<T: SurrealId>(k: RecordId, e: T)
    requires
        k@ == e.spec_id(),
    ensures
        Link::<T>::Id(k).eq_spec(&Link::<T>::Record(e)),
        Link::<T>::Record(e).eq_spec(&Link::<T>::Id(k)),
{
}

/// Writing a link as a stored value and reading it back gives the same link,
/// in the same form.
pub proof fn lemma_value_round_trip<T: SurrealId>(l: Link<T>)
    ensures
        link_of(l.spec_value()) == Ok::<Link<T>, LinkError>(l),
{
}

/// Reading a value that stands for a link as a reference gives a shallow
/// link equal to the one it came from.
pub proof fn lemma_id_value_round_trip<T: SurrealId>(l: Link<T>, k: RecordId)
    requires
        k@ == l.spec_id(),
    ensures
        link_of(LinkValue::<T>::Thing(k)) == Ok::<Link<T>, LinkError>(Link::Id(k)),
        Link::<T>::Id(k).eq_spec(&l),
{
}

} // verus!
