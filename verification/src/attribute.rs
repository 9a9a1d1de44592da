//! Attributes of a dataset, as handed out by a view of it.

use std::marker::PhantomData;
use vstd::prelude::*;

verus! {

/// An attribute of an open dataset: a name on an owner, which is a variable
/// or the dataset itself. It borrows the view that handed it out and cannot
/// outlive it.
#[derive(Debug)]
pub struct Attribute<'a> {
    name: String,
    ncid: i32,
    varid: i32,
    _marker: PhantomData<&'a i32>,
}

impl<'a> Attribute<'a> {
    /// The attribute's name.
    pub closed spec fn spec_name(&self) -> Seq<char> {
        self.name@
    }

    /// The identifier of the dataset or group that holds the attribute.
    pub closed spec fn spec_ncid(&self) -> i32 {
        self.ncid
    }

    /// The id of the variable that owns the attribute, `NC_GLOBAL` where none
    /// does.
    pub closed spec fn spec_owner(&self) -> i32 {
        self.varid
    }

    /// The attribute's name.
    pub fn name(&self) -> (r: &str)
        ensures
            r@ == self.spec_name(),
    {
        self.name.as_str()
    }

    /// The identifier of the dataset or group that holds the attribute.
    #[verifier::when_used_as_spec(spec_ncid)]
    pub fn ncid(&self) -> (r: i32)
        ensures
            r == self.spec_ncid(),
    {
        self.ncid
    }

    /// The id of the variable that owns the attribute, `NC_GLOBAL` where none
    /// does.
    #[verifier::when_used_as_spec(spec_owner)]
    pub fn owner(&self) -> (r: i32)
        ensures
            r == self.spec_owner(),
    {
        self.varid
    }

    pub(crate) fn new(name: String, ncid: i32, varid: i32) -> (a: Self)
        ensures
            a.spec_name() == name@,
            a.ncid() == ncid,
            a.owner() == varid,
    {
        Attribute { name, ncid, varid, _marker: PhantomData }
    }
}

} // verus!
