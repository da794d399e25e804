//! Discord snowflake identifiers, tagged with the kind of object they name.
use std::cmp::Ordering;
use std::marker::PhantomData;
use vstd::prelude::*;
use vstd::std_specs::cmp::PartialOrdSpec;
use vstd::std_specs::cmp::PartialOrdSpecImpl;

verus! {

/// A non-zero Discord snowflake. The type parameter is a marker naming the
/// kind of object (channel, guild, user, ...) so ids of different kinds cannot
/// be mixed up.
#[derive(Debug, Eq, PartialEq, Ord, Hash)]
pub struct Id<T> {
    value: u64,
    marker: PhantomData<T>,
}

impl<T> Clone for Id<T> {
    fn clone(&self) -> (r: Self)
        ensures
            r == *self,
    {
        proof {
            use_type_invariant(self);
        }
        Id { value: self.value, marker: PhantomData }
    }
}

impl<T> Copy for Id<T> {
}

/// Ids compare as their snowflakes.
impl<T: PartialEq> PartialOrd for Id<T> {
    fn partial_cmp(&self, other: &Self) -> (r: Option<Ordering>) {
        if self.value < other.value {
            Some(Ordering::Less)
        } else if self.value == other.value {
            Some(Ordering::Equal)
        } else {
            Some(Ordering::Greater)
        }
    }
}

/// Ids are ordered as their snowflakes: one is less than, equal to or
/// greater than another exactly when its number is.
pub proof fn lemma_ids_order_as_numbers<T: PartialEq>(a: Id<T>, b: Id<T>)
    ensures
        (PartialOrdSpec::partial_cmp_spec(&a, &b) == Some(Ordering::Less)) <==> a@ < b@,
        (PartialOrdSpec::partial_cmp_spec(&a, &b) == Some(Ordering::Equal)) <==> a@ == b@,
        (PartialOrdSpec::partial_cmp_spec(&a, &b) == Some(Ordering::Greater)) <==> a@ > b@,
{
}

impl<T: PartialEq> PartialOrdSpecImpl for Id<T> {
    open spec fn obeys_partial_cmp_spec() -> bool {
        true
    }

    open spec fn partial_cmp_spec(&self, other: &Self) -> Option<Ordering> {
        if self@ < other@ {
            Some(Ordering::Less)
        } else if self@ == other@ {
            Some(Ordering::Equal)
        } else {
            Some(Ordering::Greater)
        }
    }
}

impl<T> View for Id<T> {
    type V = u64;

    closed spec fn view(&self) -> u64 {
        self.value
    }
}

impl<T> Id<T> {
    #[verifier::type_invariant]
    spec fn nonzero(self) -> bool {
        self.value != 0
    }

    /// Builds an id from a raw snowflake. Zero is not a snowflake.
    pub fn new(value: u64) -> (r: Self)
        requires
            value != 0,
        ensures
            r@ == value,
    {
        Id { value, marker: PhantomData }
    }

    /// Builds an id when the raw value is non-zero.
    pub fn new_checked(value: u64) -> (r: Option<Self>)
        ensures
            value == 0 ==> r is None,
            value != 0 ==> r is Some && r->0@ == value,
    {
        if value == 0 {
            None
        } else {
            Some(Id { value, marker: PhantomData })
        }
    }

    /// The raw snowflake value, which is never zero.
    pub fn get(self) -> (r: u64)
        ensures
            r == self@,
            r != 0,
    {
        proof {
            use_type_invariant(&self);
        }
        self.value
    }

    /// Two ids name the same object exactly when their snowflakes agree.
    pub proof fn lemma_view_injective(a: Self, b: Self)
        ensures
            a@ == b@ ==> a == b,
    {
        if a@ == b@ {
            assert(a.marker == b.marker);
        }
    }
}

/// Equality of two ids by their snowflakes.
pub fn id_eq<T>(a: Id<T>, b: Id<T>) -> (r: bool)
    ensures
        r == (a@ == b@),
        r == (a == b),
{
    proof {
        Id::<T>::lemma_view_injective(a, b);
    }
    a.get() == b.get()
}

/// Equality of two optional ids.
pub fn opt_id_eq<T>(a: Option<Id<T>>, b: Option<Id<T>>) -> (r: bool)
    ensures
        r == (a == b),
{
    match (a, b) {
        (Some(x), Some(y)) => id_eq(x, y),
        (None, None) => true,
        _ => false,
    }
}

/// The larger of two optional ids, where any id is larger than `None`.
pub open spec fn opt_id_max_spec<T>(a: Option<Id<T>>, b: Option<Id<T>>) -> Option<Id<T>> {
    match (a, b) {
        (Some(x), Some(y)) => if x@ >= y@ { Some(x) } else { Some(y) },
        (Some(x), None) => Some(x),
        (None, y) => y,
    }
}

/// The larger of two optional ids (as `Option::max` orders them).
pub fn opt_id_max<T>(a: Option<Id<T>>, b: Option<Id<T>>) -> (r: Option<Id<T>>)
    ensures
        r == opt_id_max_spec(a, b),
{
    match (a, b) {
        (Some(x), Some(y)) => if x.get() >= y.get() { Some(x) } else { Some(y) },
        (Some(x), None) => Some(x),
        (None, y) => y,
    }
}

/// The snowflake of an optional id, with zero standing for `None`.
pub open spec fn opt_raw<T>(a: Option<Id<T>>) -> u64 {
    match a {
        Some(x) => x@,
        None => 0,
    }
}

#[derive(Clone, Copy, Debug, Eq, PartialEq, Ord, PartialOrd, Hash)]
pub struct ApplicationMarker;

#[derive(Clone, Copy, Debug, Eq, PartialEq, Ord, PartialOrd, Hash)]
pub struct AttachmentMarker;

#[derive(Clone, Copy, Debug, Eq, PartialEq, Ord, PartialOrd, Hash)]
pub struct ChannelMarker;

#[derive(Clone, Copy, Debug, Eq, PartialEq, Ord, PartialOrd, Hash)]
pub struct EmojiMarker;

#[derive(Clone, Copy, Debug, Eq, PartialEq, Ord, PartialOrd, Hash)]
pub struct GuildMarker;

#[derive(Clone, Copy, Debug, Eq, PartialEq, Ord, PartialOrd, Hash)]
pub struct ForumTagMarker;

#[derive(Clone, Copy, Debug, Eq, PartialEq, Ord, PartialOrd, Hash)]
pub struct MessageMarker;

#[derive(Clone, Copy, Debug, Eq, PartialEq, Ord, PartialOrd, Hash)]
pub struct RoleMarker;

#[derive(Clone, Copy, Debug, Eq, PartialEq, Ord, PartialOrd, Hash)]
pub struct StickerMarker;

#[derive(Clone, Copy, Debug, Eq, PartialEq, Ord, PartialOrd, Hash)]
pub struct UserMarker;

} // verus!
