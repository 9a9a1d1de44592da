//! Dimensions of a dataset, as handed out by a view of it.

use crate::call::Identifier;
use std::marker::PhantomData;
use vstd::prelude::*;

verus! {

/// A dimension of an open dataset. It borrows the view that handed it out and
/// cannot outlive it.
#[derive(Debug)]
pub struct Dimension<'g> {
    len: usize,
    id: Identifier,
    _group: PhantomData<&'g i32>,
}

impl<'g> Dimension<'g> {
    /// The length that the dimension was defined with, zero for an unlimited
    /// one.
    pub closed spec fn spec_len(&self) -> usize {
        self.len
    }

    /// The group and id by which the storage library knows the dimension.
    pub closed spec fn spec_identifier(&self) -> Identifier {
        self.id
    }

    /// Whether the dimension can grow: it was defined with length zero.
    pub open spec fn spec_is_unlimited(&self) -> bool {
        self.spec_len() == 0
    }

    /// The length that the dimension was defined with, zero for an unlimited
    /// one.
    #[verifier::when_used_as_spec(spec_len)]
    pub fn len(&self) -> (r: usize)
        ensures
            r == self.spec_len(),
    {
        self.len
    }

    /// Whether the dimension can grow.
    #[verifier::when_used_as_spec(spec_is_unlimited)]
    pub fn is_unlimited(&self) -> (r: bool)
        ensures
            r == self.spec_is_unlimited(),
    {
        self.len == 0
    }

    /// The group and id by which the storage library knows the dimension.
    #[verifier::when_used_as_spec(spec_identifier)]
    pub fn identifier(&self) -> (r: Identifier)
        ensures
            r == self.spec_identifier(),
    {
        self.id
    }

    pub(crate) fn new(ncid: i32, dimid: i32, len: usize) -> (d: Self)
        ensures
            d.len() == len,
            d.identifier() == (Identifier { ncid, dimid }),
    {
        Dimension { len, id: Identifier { ncid, dimid }, _group: PhantomData }
    }
}

} // verus!
