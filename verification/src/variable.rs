//! Variables of a dataset, as handed out by a view of it.

use std::marker::PhantomData;
use vstd::prelude::*;

verus! {

/// A variable of an open dataset. It borrows the view that handed it out and
/// cannot outlive it.
#[derive(Debug)]
pub struct Variable<'g> {
    ncid: i32,
    varid: i32,
    _group: PhantomData<&'g i32>,
}

impl<'g> Variable<'g> {
    /// The identifier of the group that holds the variable.
    pub closed spec fn spec_ncid(&self) -> i32 {
        self.ncid
    }

    /// The variable's id within its group.
    pub closed spec fn spec_id(&self) -> i32 {
        self.varid
    }

    /// The identifier of the group that holds the variable.
    #[verifier::when_used_as_spec(spec_ncid)]
    pub fn ncid(&self) -> (r: i32)
        ensures
            r == self.spec_ncid(),
    {
        self.ncid
    }

    /// The variable's id within its group.
    #[verifier::when_used_as_spec(spec_id)]
    pub fn id(&self) -> (r: i32)
        ensures
            r == self.spec_id(),
    {
        self.varid
    }

    pub(crate) fn new(ncid: i32, varid: i32) -> (v: Self)
        ensures
            v.ncid() == ncid,
            v.id() == varid,
    {
        Variable { ncid, varid, _group: PhantomData }
    }
}

/// A variable of a dataset that is open for writing. It borrows the view
/// exclusively.
#[derive(Debug)]
pub struct VariableMut<'g>(Variable<'g>, PhantomData<&'g mut i32>);

impl<'g> VariableMut<'g> {
    /// The identifier of the group that holds the variable.
    pub closed spec fn spec_ncid(&self) -> i32 {
        self.0.spec_ncid()
    }

    /// The variable's id within its group.
    pub closed spec fn spec_id(&self) -> i32 {
        self.0.spec_id()
    }

    /// The identifier of the group that holds the variable.
    #[verifier::when_used_as_spec(spec_ncid)]
    pub fn ncid(&self) -> (r: i32)
        ensures
            r == self.spec_ncid(),
    {
        self.0.ncid()
    }

    /// The variable's id within its group.
    #[verifier::when_used_as_spec(spec_id)]
    pub fn id(&self) -> (r: i32)
        ensures
            r == self.spec_id(),
    {
        self.0.id()
    }

    pub(crate) fn new(variable: Variable<'g>) -> (v: Self)
        ensures
            v.ncid() == variable.ncid(),
            v.id() == variable.id(),
    {
        VariableMut(variable, PhantomData)
    }
}

impl<'g> std::ops::Deref for VariableMut<'g> {
    type Target = Variable<'g>;

    /// The same variable without the right to change it.
    fn deref(&self) -> (v: &Variable<'g>)
        ensures
            v.ncid() == self.ncid(),
            v.id() == self.id(),
    {
        &self.0
    }
}

} // verus!
