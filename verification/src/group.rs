//! Groups of a dataset, as handed out by a view of it.

use std::marker::PhantomData;
use vstd::prelude::*;

verus! {

/// A group of an open dataset. It borrows the view that handed it out and
/// cannot outlive it.
#[derive(Debug)]
pub struct Group<'f> {
    ncid: i32,
    _file: PhantomData<&'f i32>,
}

impl<'f> Group<'f> {
    /// The identifier by which the storage library knows the group.
    pub closed spec fn spec_id(&self) -> i32 {
        self.ncid
    }

    /// The identifier by which the storage library knows the group.
    #[verifier::when_used_as_spec(spec_id)]
    pub fn id(&self) -> (r: i32)
        ensures
            r == self.spec_id(),
    {
        self.ncid
    }

    pub(crate) fn new(ncid: i32) -> (g: Self)
        ensures
            g.id() == ncid,
    {
        Group { ncid, _file: PhantomData }
    }
}

/// A group of a dataset that is open for writing. It borrows the view
/// exclusively.
#[derive(Debug)]
pub struct GroupMut<'f>(Group<'f>, PhantomData<&'f mut i32>);

impl<'f> GroupMut<'f> {
    /// The identifier by which the storage library knows the group.
    pub closed spec fn spec_id(&self) -> i32 {
        self.0.spec_id()
    }

    /// The identifier by which the storage library knows the group.
    #[verifier::when_used_as_spec(spec_id)]
    pub fn id(&self) -> (r: i32)
        ensures
            r == self.spec_id(),
    {
        self.0.id()
    }

    pub(crate) fn new(group: Group<'f>) -> (g: Self)
        ensures
            g.id() == group.id(),
    {
        GroupMut(group, PhantomData)
    }
}

impl<'f> std::ops::Deref for GroupMut<'f> {
    type Target = Group<'f>;

    /// The same group without the right to change it.
    fn deref(&self) -> (g: &Group<'f>)
        ensures
            g.id() == self.id(),
    {
        &self.0
    }
}

} // verus!
