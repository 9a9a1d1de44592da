//! Open datasets and the views of them that say what may be done.
//!
//! A [`File`] owns the identifier of one open dataset. It is never handed out
//! bare: [`ReadOnlyFile`] offers the operations that read, [`MutableFile`]
//! adds those that write, [`MemFile`] reads a dataset that lies in a borrowed
//! buffer. What a view does not offer cannot be written down, so nothing is
//! tested at run time.
//!
//! Every operation comes in two halves. The first, whose name ends in
//! `_call`, builds the [`Call`] to make. The second takes the [`Reply`] and
//! says what it means. Between them the call is made under the process-wide
//! lock, see [`Exchange`](crate::lock::Exchange).

use crate::attribute::Attribute;
use crate::call::{
    request_of, Call, CallView, ElementType, Entry, Identifier, Reply, NC_CLOBBER, NC_GLOBAL,
    NC_NETCDF4, NC_NOWRITE, NC_STRING, NC_WRITE,
};
use crate::dimension::Dimension;
use crate::error::{
    checked, status_result, Error, NC_EBADDIM, NC_ENOGRP, NC_ENOTATT, NC_ENOTVAR, NC_NOERR,
};
use crate::group::{Group, GroupMut};
use crate::text::{
    all_representable, checked_name, checked_names, decode, decoded, named, representable,
    text_of,
};
use crate::variable::{Variable, VariableMut};
use std::marker::PhantomData;
use vstd::prelude::*;

verus! {

/// The flags that a dataset is created with: the hierarchical format, and any
/// dataset already at the path is replaced.
pub open spec fn create_mode() -> i32 {
    NC_NETCDF4 | NC_CLOBBER
}

/// The name under which a dataset in memory is opened where none is given.
pub open spec fn default_name() -> Seq<char> {
    seq!['/']
}

/// What the status of a lookup by name means, where `absent` is the status
/// with which the storage library says that nothing has the name: `false`
/// for that status, `true` for success, the error that carries the status
/// for any other.
pub open spec fn looked_up(status: i32, absent: i32) -> Result<bool, Error> {
    if status == absent {
        Ok(false)
    } else {
        match status_result(status) {
            Ok(()) => Ok(true),
            Err(e) => Err(e),
        }
    }
}

/// Whether every item of an enumeration was reported with success.
pub open spec fn all_ok(entries: Seq<Entry>) -> bool {
    forall|i: int| 0 <= i < entries.len() ==> (#[trigger] entries[i]).status == NC_NOERR
}

/// Whether item `k` of an enumeration is the first that was reported with a
/// failure.
pub open spec fn first_failure(entries: Seq<Entry>, k: int) -> bool {
    &&& 0 <= k < entries.len()
    &&& entries[k].status != NC_NOERR
    &&& forall|j: int| 0 <= j < k ==> (#[trigger] entries[j]).status == NC_NOERR
}

/// What one enumerated attribute is: its name, `EncodingError` where the
/// name's bytes are not valid UTF-8, or the error that carries the item's
/// status.
pub open spec fn listed_name(entry: Entry) -> Result<Seq<char>, Error> {
    match status_result(entry.status) {
        Ok(()) => decoded(entry.name@),
        Err(e) => Err(e),
    }
}

/// What the names of a new variable and of its dimensions make: `made` where
/// each can be handed over whole, else `EncodingError`.
pub open spec fn named_over<T>(name: Seq<char>, dims: Seq<Seq<char>>, made: T) -> Result<
    T,
    Error,
> {
    if representable(name) && all_representable(dims) {
        Ok(made)
    } else {
        Err(Error::EncodingError)
    }
}

/// Whether `r` is what defining a dimension of length `len` in the dataset
/// `ncid` gave, going by the reply: the dimension of the length asked for
/// under the id of the reply, or the error that carries the status.
pub open spec fn is_dimension_defined(
    r: Result<Dimension, Error>,
    ncid: i32,
    len: usize,
    reply: Reply,
) -> bool {
    match status_result(reply.status) {
        Ok(()) => r matches Ok(d) && d.len() == len && d.identifier() == (Identifier {
            ncid,
            dimid: reply.id,
        }),
        Err(e) => r matches Err(f) && f == e,
    }
}

/// Whether `r` is what looking up a dimension in the dataset `ncid` gave,
/// going by the reply: the dimension with the length and under the id of the
/// reply, none where no dimension has the name, or the error that carries the
/// status.
pub open spec fn is_dimension_found(
    r: Result<Option<Dimension>, Error>,
    ncid: i32,
    reply: Reply,
) -> bool {
    match looked_up(reply.status, NC_EBADDIM) {
        Ok(true) => r matches Ok(Some(d)) && d.len() == reply.len && d.identifier() == (
        Identifier { ncid, dimid: reply.id }),
        Ok(false) => r matches Ok(None),
        Err(e) => r matches Err(f) && f == e,
    }
}

/// A dimension that was defined is found again as it was defined, provided
/// the storage library answers the lookup with the id that it gave the
/// dimension and with the length that it was given: the dimension found has
/// the identifier and reports the length of the dimension defined, and is
/// unlimited exactly if that one was defined with length zero.
pub proof fn lemma_dimension_defined_is_found(
    ncid: i32,
    len: usize,
    define: Reply,
    find: Reply,
    defined: Result<Dimension, Error>,
    found: Result<Option<Dimension>, Error>,
)
    requires
        define.status == NC_NOERR,
        find.status == NC_NOERR,
        find.id == define.id,
        find.len == len,
        is_dimension_defined(defined, ncid, len, define),
        is_dimension_found(found, ncid, find),
    ensures
        defined is Ok,
        found matches Ok(Some(d)) && d.len() == len && d.len() == defined->Ok_0.len()
            && d.identifier() == defined->Ok_0.identifier() && (d.is_unlimited() <==> len == 0),
{
}

fn lookup(status: i32, absent: i32) -> (r: Result<bool, Error>)
    ensures
        r == looked_up(status, absent),
{
    if status == absent {
        Ok(false)
    } else {
        match checked(status) {
            Ok(()) => Ok(true),
            Err(e) => Err(e),
        }
    }
}

fn first_failed(entries: &Vec<Entry>) -> (r: Option<usize>)
    ensures
        r is None ==> all_ok(entries@),
        r matches Some(k) ==> first_failure(entries@, k as int),
{
    let mut i: usize = 0;
    while i < entries.len()
        invariant
            i <= entries.len(),
            forall|j: int| 0 <= j < i ==> (#[trigger] entries@[j]).status == NC_NOERR,
        decreases entries.len() - i,
    {
        if entries[i].status != NC_NOERR {
            return Some(i);
        }
        i += 1;
    }
    None
}

fn copy_identifiers(dims: &[Identifier]) -> (r: Vec<Identifier>)
    ensures
        r@ == dims@,
{
    let mut out: Vec<Identifier> = Vec::new();
    let mut i: usize = 0;
    while i < dims.len()
        invariant
            i <= dims.len(),
            out@ == dims@.subrange(0, i as int),
        decreases dims.len() - i,
    {
        out.push(dims[i]);
        proof {
            assert(dims@.subrange(0, i + 1) =~= dims@.subrange(0, i as int).push(dims@[i as int]));
        }
        i += 1;
    }
    proof {
        assert(dims@.subrange(0, i as int) =~= dims@);
    }
    out
}

/// The one owner of an open dataset's identifier.
///
/// It can be neither copied nor cloned, and closing consumes it: the
/// identifier is closed at most once.
#[derive(Debug)]
pub struct File {
    ncid: i32,
}

impl File {
    /// The identifier of the open dataset.
    pub closed spec fn id(&self) -> i32 {
        self.ncid
    }

    /// The call that opens the dataset at `path` for reading.
    pub fn open_call(path: &str) -> (r: Result<Call, Error>)
        ensures
            request_of(r) == named(path@, CallView::Open { path: path@, mode: NC_NOWRITE }),
    {
        match checked_name(path) {
            Ok(path) => Ok(Call::Open { path, mode: NC_NOWRITE }),
            Err(e) => Err(e),
        }
    }

    /// The outcome of opening for reading: a read-only view of the dataset
    /// that the reply identifies, or `OpenFailed` on any nonzero status.
    pub fn open(reply: &Reply) -> (r: Result<ReadOnlyFile, Error>)
        ensures
            reply.status == NC_NOERR ==> r is Ok && r->Ok_0.id() == reply.id,
            reply.status != NC_NOERR ==> r is Err && r->Err_0 == Error::OpenFailed,
    {
        if reply.status == NC_NOERR {
            Ok(ReadOnlyFile(File { ncid: reply.id }))
        } else {
            Err(Error::OpenFailed)
        }
    }

    /// The call that opens the dataset at `path` for reading and writing. The
    /// dataset must be there already.
    pub fn append_call(path: &str) -> (r: Result<Call, Error>)
        ensures
            request_of(r) == named(path@, CallView::Open { path: path@, mode: NC_WRITE }),
    {
        match checked_name(path) {
            Ok(path) => Ok(Call::Open { path, mode: NC_WRITE }),
            Err(e) => Err(e),
        }
    }

    /// The outcome of opening for reading and writing: a mutable view of the
    /// dataset that the reply identifies, or `OpenFailed` on any nonzero
    /// status.
    pub fn append(reply: &Reply) -> (r: Result<MutableFile, Error>)
        ensures
            reply.status == NC_NOERR ==> r is Ok && r->Ok_0.id() == reply.id,
            reply.status != NC_NOERR ==> r is Err && r->Err_0 == Error::OpenFailed,
    {
        if reply.status == NC_NOERR {
            Ok(MutableFile(ReadOnlyFile(File { ncid: reply.id })))
        } else {
            Err(Error::OpenFailed)
        }
    }

    /// The call that creates a dataset at `path`, in place of any that is
    /// there.
    pub fn create_call(path: &str) -> (r: Result<Call, Error>)
        ensures
            request_of(r) == named(path@, CallView::Create { path: path@, mode: create_mode() }),
    {
        match checked_name(path) {
            Ok(path) => Ok(Call::Create { path, mode: NC_NETCDF4 | NC_CLOBBER }),
            Err(e) => Err(e),
        }
    }

    /// The outcome of creating: a mutable view of the dataset that the reply
    /// identifies, or `CreateFailed` on any nonzero status.
    pub fn create(reply: &Reply) -> (r: Result<MutableFile, Error>)
        ensures
            reply.status == NC_NOERR ==> r is Ok && r->Ok_0.id() == reply.id,
            reply.status != NC_NOERR ==> r is Err && r->Err_0 == Error::CreateFailed,
    {
        if reply.status == NC_NOERR {
            Ok(MutableFile(ReadOnlyFile(File { ncid: reply.id })))
        } else {
            Err(Error::CreateFailed)
        }
    }

    /// The call that opens, for reading, the dataset encoded in `mem`, under
    /// `name` or, where none is given, under the root's name.
    pub fn open_from_memory_call(name: Option<&str>, mem: &[u8]) -> (r: Result<Call, Error>)
        ensures
            request_of(r) == match name {
                Some(name) => named(
                    name@,
                    CallView::OpenMem { name: name@, mode: NC_NOWRITE, size: mem@.len() as usize },
                ),
                None => Ok(
                    CallView::OpenMem {
                        name: default_name(),
                        mode: NC_NOWRITE,
                        size: mem@.len() as usize,
                    },
                ),
            },
    {
        let name = match name {
            Some(name) => match checked_name(name) {
                Ok(name) => name,
                Err(e) => {
                    return Err(e);
                },
            },
            None => {
                proof {
                    reveal_strlit("/");
                    assert("/"@ =~= default_name());
                }
                "/".to_owned()
            },
        };
        Ok(Call::OpenMem { name, mode: NC_NOWRITE, size: mem.len() })
    }

    /// The outcome of opening from memory: a view that reads the dataset which
    /// the reply identifies and keeps `mem` borrowed for as long as it
    /// lives, or the error that carries the status.
    pub fn open_from_memory<'buffer>(mem: &'buffer [u8], reply: &Reply) -> (r: Result<
        MemFile<'buffer>,
        Error,
    >)
        ensures
            reply.status == NC_NOERR ==> r is Ok && r->Ok_0.id() == reply.id,
            reply.status != NC_NOERR ==> r is Err && r->Err_0 == Error::UnderlyingLibraryError(
                reply.status,
            ),
    {
        match checked(reply.status) {
            Ok(()) => Ok(MemFile(ReadOnlyFile(File { ncid: reply.id }), PhantomData)),
            Err(e) => Err(e),
        }
    }

    /// The call that closes the dataset. The owner is used up by it.
    pub fn close(self) -> (c: Call)
        ensures
            c@ == (CallView::Close { ncid: self.id() }),
    {
        Call::Close { ncid: self.ncid }
    }

    /// What there is to note of a close that has been made: the error that
    /// carries the status where the storage library refused, nothing
    /// otherwise. It is a note, not a failure: the identifier is gone either
    /// way, and nothing can be tried again.
    pub fn closed(reply: &Reply) -> (r: Option<Error>)
        ensures
            r == match status_result(reply.status) {
                Ok(()) => None::<Error>,
                Err(e) => Some(e),
            },
    {
        match checked(reply.status) {
            Ok(()) => None,
            Err(e) => Some(e),
        }
    }
}

/// A view of an open dataset that reads.
#[derive(Debug)]
pub struct ReadOnlyFile(File);

/// A view of an open dataset that reads and writes.
#[derive(Debug)]
pub struct MutableFile(ReadOnlyFile);

/// A view that reads a dataset lying in a buffer, which stays borrowed for as
/// long as the view lives.
#[derive(Debug)]
pub struct MemFile<'buffer>(ReadOnlyFile, PhantomData<&'buffer [u8]>);

impl ReadOnlyFile {
    /// The identifier of the open dataset.
    pub closed spec fn id(&self) -> i32 {
        self.0.id()
    }

    fn ncid(&self) -> (r: i32)
        ensures
            r == self.id(),
    {
        self.0.ncid
    }

    /// The call that closes the dataset. The view is used up by it.
    pub fn close(self) -> (c: Call)
        ensures
            c@ == (CallView::Close { ncid: self.id() }),
    {
        self.0.close()
    }

    /// The call that asks how long the dataset's path is: the first half of
    /// the path query.
    pub fn path_len_call(&self) -> (c: Call)
        ensures
            c@ == (CallView::PathLen { ncid: self.id() }),
            c@.reads(self.id()),
    {
        Call::PathLen { ncid: self.ncid() }
    }

    /// The call that fetches the dataset's path, made with room for as many
    /// bytes as the first half reported, or the error of that first half.
    pub fn path_fill_call(&self, reply: &Reply) -> (r: Result<Call, Error>)
        ensures
            request_of(r) == match status_result(reply.status) {
                Ok(()) => Ok(CallView::PathFill { ncid: self.id(), len: reply.len }),
                Err(e) => Err(e),
            },
            r matches Ok(c) ==> c@.reads(self.id()),
    {
        match checked(reply.status) {
            Ok(()) => Ok(Call::PathFill { ncid: self.ncid(), len: reply.len }),
            Err(e) => Err(e),
        }
    }

    /// The path that the dataset was opened or created with: the text that
    /// the second half of the path query fetched, `EncodingError` where its
    /// bytes are not valid UTF-8, or the error that carries the status.
    pub fn path(&self, reply: &Reply) -> (r: Result<String, Error>)
        ensures
            text_of(r) == match status_result(reply.status) {
                Ok(()) => decoded(reply.bytes@),
                Err(e) => Err(e),
            },
    {
        match checked(reply.status) {
            Ok(()) => decode(reply.bytes.clone()),
            Err(e) => Err(e),
        }
    }

    /// The root group: the entry to everything the dataset holds.
    pub fn root<'f>(&'f self) -> (g: Group<'f>)
        ensures
            g.id() == self.id(),
    {
        Group::new(self.ncid())
    }

    /// The call that looks up a child group of the root by name.
    pub fn group_call(&self, name: &str) -> (r: Result<Call, Error>)
        ensures
            request_of(r) == named(name@, CallView::FindGroup { ncid: self.id(), name: name@ }),
            r matches Ok(c) ==> c@.reads(self.id()),
    {
        match checked_name(name) {
            Ok(name) => Ok(Call::FindGroup { ncid: self.ncid(), name }),
            Err(e) => Err(e),
        }
    }

    /// The group that the lookup found, none where no group has the name, or
    /// the error that carries the status.
    pub fn group<'f>(&'f self, reply: &Reply) -> (r: Result<Option<Group<'f>>, Error>)
        ensures
            match looked_up(reply.status, NC_ENOGRP) {
                Ok(true) => r matches Ok(Some(g)) && g.id() == reply.id,
                Ok(false) => r matches Ok(None),
                Err(e) => r matches Err(f) && f == e,
            },
    {
        match lookup(reply.status, NC_ENOGRP) {
            Ok(true) => Ok(Some(Group::new(reply.id))),
            Ok(false) => Ok(None),
            Err(e) => Err(e),
        }
    }

    /// The call that enumerates the child groups of the root.
    pub fn groups_call(&self) -> (c: Call)
        ensures
            c@ == (CallView::ListGroups { ncid: self.id() }),
            c@.reads(self.id()),
    {
        Call::ListGroups { ncid: self.ncid() }
    }

    /// The child groups of the root, in the order in which the storage
    /// library enumerated them, or the error that carries the status.
    pub fn groups<'g>(&'g self, reply: &Reply) -> (r: Result<Vec<Group<'g>>, Error>)
        ensures
            match status_result(reply.status) {
                Ok(()) => r matches Ok(v) && v.len() == reply.entries.len() && forall|i: int|
                    0 <= i < v.len() ==> (#[trigger] v[i]).id() == reply.entries[i].id,
                Err(e) => r matches Err(f) && f == e,
            },
    {
        match checked(reply.status) {
            Ok(()) => {
                let mut out: Vec<Group<'g>> = Vec::new();
                let mut i: usize = 0;
                while i < reply.entries.len()
                    invariant
                        i <= reply.entries.len(),
                        out.len() == i,
                        forall|j: int|
                            0 <= j < i ==> (#[trigger] out[j]).id() == reply.entries[j].id,
                    decreases reply.entries.len() - i,
                {
                    out.push(Group::new(reply.entries[i].id));
                    i += 1;
                }
                Ok(out)
            },
            Err(e) => Err(e),
        }
    }

    /// The call that looks up a dimension of the root by name.
    pub fn dimension_call(&self, name: &str) -> (r: Result<Call, Error>)
        ensures
            request_of(r) == named(
                name@,
                CallView::FindDimension { ncid: self.id(), name: name@ },
            ),
            r matches Ok(c) ==> c@.reads(self.id()),
    {
        match checked_name(name) {
            Ok(name) => Ok(Call::FindDimension { ncid: self.ncid(), name }),
            Err(e) => Err(e),
        }
    }

    /// The dimension that the lookup found, with the length that the storage
    /// library reported, none where no dimension has the name, or the error
    /// that carries the status.
    pub fn dimension<'f>(&'f self, reply: &Reply) -> (r: Result<Option<Dimension<'f>>, Error>)
        ensures
            is_dimension_found(r, self.id(), *reply),
    {
        match lookup(reply.status, NC_EBADDIM) {
            Ok(true) => Ok(Some(Dimension::new(self.ncid(), reply.id, reply.len))),
            Ok(false) => Ok(None),
            Err(e) => Err(e),
        }
    }

    /// The call that enumerates the dimensions of the root.
    pub fn dimensions_call(&self) -> (c: Call)
        ensures
            c@ == (CallView::ListDimensions { ncid: self.id() }),
            c@.reads(self.id()),
    {
        Call::ListDimensions { ncid: self.ncid() }
    }

    /// The dimensions of the root, in the order in which the storage library
    /// enumerated them. Where the enumeration failed, the error that carries
    /// its status; where an item failed, the error that carries the status of
    /// the first such item.
    pub fn dimensions<'g>(&'g self, reply: &Reply) -> (r: Result<Vec<Dimension<'g>>, Error>)
        ensures
            match status_result(reply.status) {
                Ok(()) => if all_ok(reply.entries@) {
                    r matches Ok(v) && v.len() == reply.entries.len() && forall|i: int|
                        0 <= i < v.len() ==> (#[trigger] v[i]).len() == reply.entries[i].len
                            && v[i].identifier() == (Identifier {
                            ncid: self.id(),
                            dimid: reply.entries[i].id,
                        })
                } else {
                    r matches Err(f) && exists|k: int|
                        first_failure(reply.entries@, k) && f == Error::UnderlyingLibraryError(
                            reply.entries[k].status,
                        )
                },
                Err(e) => r matches Err(f) && f == e,
            },
    {
        match checked(reply.status) {
            Ok(()) => match first_failed(&reply.entries) {
                Some(k) => Err(Error::UnderlyingLibraryError(reply.entries[k].status)),
                None => {
                    let ncid = self.ncid();
                    let mut out: Vec<Dimension<'g>> = Vec::new();
                    let mut i: usize = 0;
                    while i < reply.entries.len()
                        invariant
                            i <= reply.entries.len(),
                            out.len() == i,
                            ncid == self.id(),
                            forall|j: int|
                                0 <= j < i ==> (#[trigger] out[j]).len() == reply.entries[j].len
                                    && out[j].identifier() == (Identifier {
                                    ncid,
                                    dimid: reply.entries[j].id,
                                }),
                        decreases reply.entries.len() - i,
                    {
                        let entry = &reply.entries[i];
                        out.push(Dimension::new(ncid, entry.id, entry.len));
                        i += 1;
                    }
                    Ok(out)
                },
            },
            Err(e) => Err(e),
        }
    }

    /// The call that looks up an attribute of the dataset itself by name.
    pub fn attribute_call(&self, name: &str) -> (r: Result<Call, Error>)
        ensures
            request_of(r) == named(
                name@,
                CallView::FindAttribute { ncid: self.id(), varid: NC_GLOBAL, name: name@ },
            ),
            r matches Ok(c) ==> c@.reads(self.id()),
    {
        match checked_name(name) {
            Ok(name) => Ok(Call::FindAttribute { ncid: self.ncid(), varid: NC_GLOBAL, name }),
            Err(e) => Err(e),
        }
    }

    /// The attribute of the dataset itself that the lookup for `name` found,
    /// none where no attribute has the name, or the error that carries the
    /// status. A name that cannot be handed to the storage library gives
    /// `EncodingError`, whatever the reply.
    pub fn attribute<'f>(&'f self, name: &str, reply: &Reply) -> (r: Result<
        Option<Attribute<'f>>,
        Error,
    >)
        ensures
            match named(name@, looked_up(reply.status, NC_ENOTATT)) {
                Ok(Ok(true)) => r matches Ok(Some(a)) && a.spec_name() == name@ && a.ncid()
                    == self.id() && a.owner() == NC_GLOBAL,
                Ok(Ok(false)) => r matches Ok(None),
                Ok(Err(e)) => r matches Err(f) && f == e,
                Err(e) => r matches Err(f) && f == e,
            },
    {
        let name = match checked_name(name) {
            Ok(name) => name,
            Err(e) => {
                return Err(e);
            },
        };
        match lookup(reply.status, NC_ENOTATT) {
            Ok(true) => Ok(Some(Attribute::new(name, self.ncid(), NC_GLOBAL))),
            Ok(false) => Ok(None),
            Err(e) => Err(e),
        }
    }

    /// The call that enumerates the attributes of the dataset itself.
    pub fn attributes_call(&self) -> (c: Call)
        ensures
            c@ == (CallView::ListAttributes { ncid: self.id(), varid: NC_GLOBAL }),
            c@.reads(self.id()),
    {
        Call::ListAttributes { ncid: self.ncid(), varid: NC_GLOBAL }
    }

    /// The attributes of the dataset itself, in the order in which the
    /// storage library enumerated them, each with its own outcome: the
    /// attribute, `EncodingError` where its name is not valid UTF-8, or the
    /// error that carries the item's status. Where the enumeration as a whole
    /// failed, the error that carries its status.
    pub fn attributes<'f>(&'f self, reply: &Reply) -> (r: Result<
        Vec<Result<Attribute<'f>, Error>>,
        Error,
    >)
        ensures
            match status_result(reply.status) {
                Ok(()) => r matches Ok(v) && v.len() == reply.entries.len() && forall|i: int|
                    0 <= i < v.len() ==> match listed_name(reply.entries[i]) {
                        Ok(name) => (#[trigger] v[i]) matches Ok(a) && a.spec_name() == name
                            && a.ncid() == self.id() && a.owner() == NC_GLOBAL,
                        Err(e) => v[i] matches Err(f) && f == e,
                    },
                Err(e) => r matches Err(f) && f == e,
            },
    {
        match checked(reply.status) {
            Ok(()) => {
                let ncid = self.ncid();
                let mut out: Vec<Result<Attribute<'f>, Error>> = Vec::new();
                let mut i: usize = 0;
                while i < reply.entries.len()
                    invariant
                        i <= reply.entries.len(),
                        out.len() == i,
                        ncid == self.id(),
                        forall|j: int|
                            0 <= j < i ==> match listed_name(reply.entries[j]) {
                                Ok(name) => (#[trigger] out[j]) matches Ok(a) && a.spec_name()
                                    == name && a.ncid() == ncid && a.owner() == NC_GLOBAL,
                                Err(e) => out[j] matches Err(f) && f == e,
                            },
                    decreases reply.entries.len() - i,
                {
                    let entry = &reply.entries[i];
                    let item = match checked(entry.status) {
                        Ok(()) => match decode(entry.name.clone()) {
                            Ok(name) => Ok(Attribute::new(name, ncid, NC_GLOBAL)),
                            Err(e) => Err(e),
                        },
                        Err(e) => Err(e),
                    };
                    out.push(item);
                    i += 1;
                }
                Ok(out)
            },
            Err(e) => Err(e),
        }
    }

    /// The call that looks up a variable of the root by name.
    pub fn variable_call(&self, name: &str) -> (r: Result<Call, Error>)
        ensures
            request_of(r) == named(name@, CallView::FindVariable { ncid: self.id(), name: name@ }),
            r matches Ok(c) ==> c@.reads(self.id()),
    {
        match checked_name(name) {
            Ok(name) => Ok(Call::FindVariable { ncid: self.ncid(), name }),
            Err(e) => Err(e),
        }
    }

    /// The variable that the lookup found, none where no variable has the
    /// name, or the error that carries the status.
    pub fn variable<'g>(&'g self, reply: &Reply) -> (r: Result<Option<Variable<'g>>, Error>)
        ensures
            match looked_up(reply.status, NC_ENOTVAR) {
                Ok(true) => r matches Ok(Some(v)) && v.ncid() == self.id() && v.id() == reply.id,
                Ok(false) => r matches Ok(None),
                Err(e) => r matches Err(f) && f == e,
            },
    {
        match lookup(reply.status, NC_ENOTVAR) {
            Ok(true) => Ok(Some(Variable::new(self.ncid(), reply.id))),
            Ok(false) => Ok(None),
            Err(e) => Err(e),
        }
    }

    /// The call that enumerates the variables of the root.
    pub fn variables_call(&self) -> (c: Call)
        ensures
            c@ == (CallView::ListVariables { ncid: self.id() }),
            c@.reads(self.id()),
    {
        Call::ListVariables { ncid: self.ncid() }
    }

    /// The variables of the root, in the order in which the storage library
    /// enumerated them, each with its own outcome: the variable, or the error
    /// that carries the item's status. Where the enumeration as a whole
    /// failed, the error that carries its status.
    pub fn variables<'f>(&'f self, reply: &Reply) -> (r: Result<
        Vec<Result<Variable<'f>, Error>>,
        Error,
    >)
        ensures
            match status_result(reply.status) {
                Ok(()) => r matches Ok(v) && v.len() == reply.entries.len() && forall|i: int|
                    0 <= i < v.len() ==> match status_result(reply.entries[i].status) {
                        Ok(()) => (#[trigger] v[i]) matches Ok(x) && x.ncid() == self.id()
                            && x.id() == reply.entries[i].id,
                        Err(e) => v[i] matches Err(f) && f == e,
                    },
                Err(e) => r matches Err(f) && f == e,
            },
    {
        match checked(reply.status) {
            Ok(()) => {
                let ncid = self.ncid();
                let mut out: Vec<Result<Variable<'f>, Error>> = Vec::new();
                let mut i: usize = 0;
                while i < reply.entries.len()
                    invariant
                        i <= reply.entries.len(),
                        out.len() == i,
                        ncid == self.id(),
                        forall|j: int|
                            0 <= j < i ==> match status_result(reply.entries[j].status) {
                                Ok(()) => (#[trigger] out[j]) matches Ok(x) && x.ncid() == ncid
                                    && x.id() == reply.entries[j].id,
                                Err(e) => out[j] matches Err(f) && f == e,
                            },
                    decreases reply.entries.len() - i,
                {
                    let entry = &reply.entries[i];
                    let item = match checked(entry.status) {
                        Ok(()) => Ok(Variable::new(ncid, entry.id)),
                        Err(e) => Err(e),
                    };
                    out.push(item);
                    i += 1;
                }
                Ok(out)
            },
            Err(e) => Err(e),
        }
    }
}

impl MutableFile {
    /// The identifier of the open dataset.
    pub closed spec fn id(&self) -> i32 {
        self.0.id()
    }

    /// The call that closes the dataset. The view is used up by it.
    pub fn close(self) -> (c: Call)
        ensures
            c@ == (CallView::Close { ncid: self.id() }),
    {
        self.0.close()
    }

    /// The root group, with the right to change it.
    pub fn root_mut<'f>(&'f mut self) -> (g: GroupMut<'f>)
        ensures
            g.id() == old(self).id(),
            final(self).id() == old(self).id(),
    {
        GroupMut::new(Group::new(self.0.ncid()))
    }

    /// The call that defines a numeric variable of the root over the
    /// dimensions named, which must be there already.
    pub fn add_variable_call(&mut self, name: &str, dims: &[&str], xtype: ElementType) -> (r:
        Result<Call, Error>)
        ensures
            request_of(r) == named_over(
                name@,
                dims.deep_view(),
                CallView::AddVariable {
                    ncid: old(self).id(),
                    name: name@,
                    xtype: xtype.code(),
                    dims: dims.deep_view(),
                },
            ),
            r matches Ok(c) ==> c@.writes(old(self).id()),
            final(self).id() == old(self).id(),
    {
        self.variable_over(name, dims, xtype.code())
    }

    /// The variable that was defined, with the right to change it, or the
    /// error that carries the status.
    pub fn add_variable<'f>(&'f mut self, reply: &Reply) -> (r: Result<VariableMut<'f>, Error>)
        ensures
            match status_result(reply.status) {
                Ok(()) => r matches Ok(v) && v.ncid() == old(self).id() && v.id() == reply.id,
                Err(e) => r matches Err(f) && f == e,
            },
            final(self).id() == old(self).id(),
    {
        match checked(reply.status) {
            Ok(()) => Ok(VariableMut::new(Variable::new(self.0.ncid(), reply.id))),
            Err(e) => Err(e),
        }
    }

    /// The call that defines a dimension of the root with length `len`, an
    /// unlimited one where `len` is zero.
    pub fn add_dimension_call(&mut self, name: &str, len: usize) -> (r: Result<Call, Error>)
        ensures
            request_of(r) == named(
                name@,
                CallView::AddDimension { ncid: old(self).id(), name: name@, len },
            ),
            r matches Ok(c) ==> c@.writes(old(self).id()),
            final(self).id() == old(self).id(),
    {
        match checked_name(name) {
            Ok(name) => Ok(Call::AddDimension { ncid: self.0.ncid(), name, len }),
            Err(e) => Err(e),
        }
    }

    /// The dimension that was defined with length `len`: it reports that
    /// length. Or the error that carries the status.
    pub fn add_dimension<'g>(&'g mut self, len: usize, reply: &Reply) -> (r: Result<
        Dimension<'g>,
        Error,
    >)
        ensures
            is_dimension_defined(r, old(self).id(), len, *reply),
            final(self).id() == old(self).id(),
    {
        match checked(reply.status) {
            Ok(()) => Ok(Dimension::new(self.0.ncid(), reply.id, len)),
            Err(e) => Err(e),
        }
    }

    /// The call that defines an unlimited dimension of the root: a dimension
    /// of length zero.
    pub fn add_unlimited_dimension_call(&mut self, name: &str) -> (r: Result<Call, Error>)
        ensures
            request_of(r) == named(
                name@,
                CallView::AddDimension { ncid: old(self).id(), name: name@, len: 0 },
            ),
            r matches Ok(c) ==> c@.writes(old(self).id()),
            final(self).id() == old(self).id(),
    {
        self.add_dimension_call(name, 0)
    }

    /// The unlimited dimension that was defined, or the error that carries
    /// the status.
    pub fn add_unlimited_dimension<'g>(&'g mut self, reply: &Reply) -> (r: Result<
        Dimension<'g>,
        Error,
    >)
        ensures
            is_dimension_defined(r, old(self).id(), 0, *reply),
            r matches Ok(d) ==> d.is_unlimited(),
            final(self).id() == old(self).id(),
    {
        self.add_dimension(0, reply)
    }

    /// The group that a lookup found, with the right to change it, none where
    /// no group has the name, or the error that carries the status. The call
    /// is that of [`ReadOnlyFile::group_call`].
    pub fn group_mut<'f>(&'f mut self, reply: &Reply) -> (r: Result<Option<GroupMut<'f>>, Error>)
        ensures
            match looked_up(reply.status, NC_ENOGRP) {
                Ok(true) => r matches Ok(Some(g)) && g.id() == reply.id,
                Ok(false) => r matches Ok(None),
                Err(e) => r matches Err(f) && f == e,
            },
            final(self).id() == old(self).id(),
    {
        match lookup(reply.status, NC_ENOGRP) {
            Ok(true) => Ok(Some(GroupMut::new(Group::new(reply.id)))),
            Ok(false) => Ok(None),
            Err(e) => Err(e),
        }
    }

    /// The call that defines a numeric variable of the root over the
    /// dimensions identified.
    pub fn add_variable_from_identifiers_call(
        &mut self,
        name: &str,
        dims: &[Identifier],
        xtype: ElementType,
    ) -> (r: Result<Call, Error>)
        ensures
            request_of(r) == named(
                name@,
                CallView::AddVariableAt {
                    ncid: old(self).id(),
                    name: name@,
                    xtype: xtype.code(),
                    dims: dims@,
                },
            ),
            r matches Ok(c) ==> c@.writes(old(self).id()),
            final(self).id() == old(self).id(),
    {
        match checked_name(name) {
            Ok(name) => Ok(
                Call::AddVariableAt {
                    ncid: self.0.ncid(),
                    name,
                    xtype: xtype.code(),
                    dims: copy_identifiers(dims),
                },
            ),
            Err(e) => Err(e),
        }
    }

    /// The variable that was defined over identified dimensions, with the
    /// right to change it, or the error that carries the status.
    pub fn add_variable_from_identifiers<'f>(&'f mut self, reply: &Reply) -> (r: Result<
        VariableMut<'f>,
        Error,
    >)
        ensures
            match status_result(reply.status) {
                Ok(()) => r matches Ok(v) && v.ncid() == old(self).id() && v.id() == reply.id,
                Err(e) => r matches Err(f) && f == e,
            },
            final(self).id() == old(self).id(),
    {
        self.add_variable(reply)
    }

    /// The call that defines a child group of the root.
    pub fn add_group_call(&mut self, name: &str) -> (r: Result<Call, Error>)
        ensures
            request_of(r) == named(
                name@,
                CallView::AddGroup { ncid: old(self).id(), name: name@ },
            ),
            r matches Ok(c) ==> c@.writes(old(self).id()),
            final(self).id() == old(self).id(),
    {
        match checked_name(name) {
            Ok(name) => Ok(Call::AddGroup { ncid: self.0.ncid(), name }),
            Err(e) => Err(e),
        }
    }

    /// The group that was defined, with the right to change it, or the error
    /// that carries the status.
    pub fn add_group<'f>(&'f mut self, reply: &Reply) -> (r: Result<GroupMut<'f>, Error>)
        ensures
            match status_result(reply.status) {
                Ok(()) => r matches Ok(g) && g.id() == reply.id,
                Err(e) => r matches Err(f) && f == e,
            },
            final(self).id() == old(self).id(),
    {
        match checked(reply.status) {
            Ok(()) => Ok(GroupMut::new(Group::new(reply.id))),
            Err(e) => Err(e),
        }
    }

    /// The call that defines a text-valued variable of the root over the
    /// dimensions named, which must be there already.
    pub fn add_string_variable_call(&mut self, name: &str, dims: &[&str]) -> (r: Result<
        Call,
        Error,
    >)
        ensures
            request_of(r) == named_over(
                name@,
                dims.deep_view(),
                CallView::AddVariable {
                    ncid: old(self).id(),
                    name: name@,
                    xtype: NC_STRING,
                    dims: dims.deep_view(),
                },
            ),
            r matches Ok(c) ==> c@.writes(old(self).id()),
            final(self).id() == old(self).id(),
    {
        self.variable_over(name, dims, NC_STRING)
    }

    /// The text-valued variable that was defined, with the right to change
    /// it, or the error that carries the status.
    pub fn add_string_variable<'f>(&'f mut self, reply: &Reply) -> (r: Result<
        VariableMut<'f>,
        Error,
    >)
        ensures
            match status_result(reply.status) {
                Ok(()) => r matches Ok(v) && v.ncid() == old(self).id() && v.id() == reply.id,
                Err(e) => r matches Err(f) && f == e,
            },
            final(self).id() == old(self).id(),
    {
        self.add_variable(reply)
    }

    /// The variable that a lookup found, with the right to change it, none
    /// where no variable has the name, or the error that carries the status.
    /// The call is that of [`ReadOnlyFile::variable_call`].
    pub fn variable_mut<'g>(&'g mut self, reply: &Reply) -> (r: Result<
        Option<VariableMut<'g>>,
        Error,
    >)
        ensures
            match looked_up(reply.status, NC_ENOTVAR) {
                Ok(true) => r matches Ok(Some(v)) && v.ncid() == old(self).id() && v.id()
                    == reply.id,
                Ok(false) => r matches Ok(None),
                Err(e) => r matches Err(f) && f == e,
            },
            final(self).id() == old(self).id(),
    {
        match lookup(reply.status, NC_ENOTVAR) {
            Ok(true) => Ok(Some(VariableMut::new(Variable::new(self.0.ncid(), reply.id)))),
            Ok(false) => Ok(None),
            Err(e) => Err(e),
        }
    }

    /// The variables of the root, each with the right to change it, in the
    /// order in which the storage library enumerated them. Where the
    /// enumeration failed, the error that carries its status; where an item
    /// failed, the error that carries the status of the first such item. The
    /// call is that of [`ReadOnlyFile::variables_call`].
    pub fn variables_mut<'f>(&'f mut self, reply: &Reply) -> (r: Result<
        Vec<VariableMut<'f>>,
        Error,
    >)
        ensures
            match status_result(reply.status) {
                Ok(()) => if all_ok(reply.entries@) {
                    r matches Ok(v) && v.len() == reply.entries.len() && forall|i: int|
                        0 <= i < v.len() ==> (#[trigger] v[i]).ncid() == old(self).id()
                            && v[i].id() == reply.entries[i].id
                } else {
                    r matches Err(f) && exists|k: int|
                        first_failure(reply.entries@, k) && f == Error::UnderlyingLibraryError(
                            reply.entries[k].status,
                        )
                },
                Err(e) => r matches Err(f) && f == e,
            },
            final(self).id() == old(self).id(),
    {
        match checked(reply.status) {
            Ok(()) => match first_failed(&reply.entries) {
                Some(k) => Err(Error::UnderlyingLibraryError(reply.entries[k].status)),
                None => {
                    let ncid = self.0.ncid();
                    let mut out: Vec<VariableMut<'f>> = Vec::new();
                    let mut i: usize = 0;
                    while i < reply.entries.len()
                        invariant
                            i <= reply.entries.len(),
                            out.len() == i,
                            forall|j: int|
                                0 <= j < i ==> (#[trigger] out[j]).ncid() == ncid && out[j].id()
                                    == reply.entries[j].id,
                        decreases reply.entries.len() - i,
                    {
                        out.push(VariableMut::new(Variable::new(ncid, reply.entries[i].id)));
                        i += 1;
                    }
                    Ok(out)
                },
            },
            Err(e) => Err(e),
        }
    }

    /// The call that writes an attribute of the dataset itself. The value is
    /// handed to the storage library by whoever makes the call.
    pub fn add_attribute_call(&mut self, name: &str) -> (r: Result<Call, Error>)
        ensures
            request_of(r) == named(
                name@,
                CallView::PutAttribute { ncid: old(self).id(), varid: NC_GLOBAL, name: name@ },
            ),
            r matches Ok(c) ==> c@.writes(old(self).id()),
            final(self).id() == old(self).id(),
    {
        match checked_name(name) {
            Ok(name) => Ok(Call::PutAttribute { ncid: self.0.ncid(), varid: NC_GLOBAL, name }),
            Err(e) => Err(e),
        }
    }

    /// The attribute `name` of the dataset itself that was written, or the
    /// error that carries the status. A name that cannot be handed to the
    /// storage library gives `EncodingError`, whatever the reply.
    pub fn add_attribute<'a>(&'a mut self, name: &str, reply: &Reply) -> (r: Result<
        Attribute<'a>,
        Error,
    >)
        ensures
            match named(name@, status_result(reply.status)) {
                Ok(Ok(())) => r matches Ok(a) && a.spec_name() == name@ && a.ncid() == old(
                    self,
                ).id() && a.owner() == NC_GLOBAL,
                Ok(Err(e)) => r matches Err(f) && f == e,
                Err(e) => r matches Err(f) && f == e,
            },
            final(self).id() == old(self).id(),
    {
        let name = match checked_name(name) {
            Ok(name) => name,
            Err(e) => {
                return Err(e);
            },
        };
        match checked(reply.status) {
            Ok(()) => Ok(Attribute::new(name, self.0.ncid(), NC_GLOBAL)),
            Err(e) => Err(e),
        }
    }

    fn variable_over(&self, name: &str, dims: &[&str], xtype: i32) -> (r: Result<Call, Error>)
        ensures
            request_of(r) == named_over(
                name@,
                dims.deep_view(),
                CallView::AddVariable {
                    ncid: self.id(),
                    name: name@,
                    xtype,
                    dims: dims.deep_view(),
                },
            ),
    {
        let name = match checked_name(name) {
            Ok(name) => name,
            Err(e) => {
                return Err(e);
            },
        };
        match checked_names(dims) {
            Ok(dims) => Ok(Call::AddVariable { ncid: self.0.ncid(), name, xtype, dims }),
            Err(e) => Err(e),
        }
    }
}

impl std::ops::Deref for MutableFile {
    type Target = ReadOnlyFile;

    /// The same dataset without the right to change it.
    fn deref(&self) -> (r: &ReadOnlyFile)
        ensures
            r.id() == self.id(),
    {
        &self.0
    }
}

impl<'buffer> MemFile<'buffer> {
    /// The identifier of the open dataset.
    pub closed spec fn id(&self) -> i32 {
        self.0.id()
    }

    /// The call that closes the dataset. The view is used up by it, and the
    /// buffer is free again.
    pub fn close(self) -> (c: Call)
        ensures
            c@ == (CallView::Close { ncid: self.id() }),
    {
        self.0.close()
    }
}

impl<'buffer> std::ops::Deref for MemFile<'buffer> {
    type Target = ReadOnlyFile;

    /// The same dataset as a read-only view.
    fn deref(&self) -> (r: &ReadOnlyFile)
        ensures
            r.id() == self.id(),
    {
        &self.0
    }
}

} // verus!
