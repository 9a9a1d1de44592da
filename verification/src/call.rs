//! The boundary to the storage library: what is asked of it and what it
//! answers, as plain values.
//!
//! A [`Call`] names one request with everything it is made on. The embedding
//! program carries it out and hands back a [`Reply`]. Nothing here touches
//! the storage library itself.

use crate::error::Error;
use vstd::prelude::*;

verus! {

/// Open mode: read only.
pub const NC_NOWRITE: i32 = 0x0000;

/// Open mode: read and write.
pub const NC_WRITE: i32 = 0x0001;

/// Creation flag: replace a dataset that is already there.
pub const NC_CLOBBER: i32 = 0x0000;

/// Creation flag: the hierarchical format, which has groups.
pub const NC_NETCDF4: i32 = 0x1000;

/// The owner id that stands for the dataset or group itself, where an
/// attribute hangs on no variable.
pub const NC_GLOBAL: i32 = -1;

/// Type code of text-valued variables.
pub const NC_STRING: i32 = 12;

/// The element types that a numeric variable can have on disk.
#[derive(Debug, Clone, Copy, PartialEq, Eq, Structural)]
pub enum ElementType {
    /// Signed 8-bit integer.
    Byte,
    /// Signed 16-bit integer.
    Short,
    /// Signed 32-bit integer.
    Int,
    /// 32-bit real number.
    Float,
    /// 64-bit real number.
    Double,
    /// Unsigned 8-bit integer.
    UByte,
    /// Unsigned 16-bit integer.
    UShort,
    /// Unsigned 32-bit integer.
    UInt,
    /// Signed 64-bit integer.
    Int64,
    /// Unsigned 64-bit integer.
    UInt64,
}

impl ElementType {
    /// The code by which the storage library knows the type.
    pub open spec fn spec_code(self) -> i32 {
        match self {
            ElementType::Byte => 1,
            ElementType::Short => 3,
            ElementType::Int => 4,
            ElementType::Float => 5,
            ElementType::Double => 6,
            ElementType::UByte => 7,
            ElementType::UShort => 8,
            ElementType::UInt => 9,
            ElementType::Int64 => 10,
            ElementType::UInt64 => 11,
        }
    }

    /// The code by which the storage library knows the type.
    #[verifier::when_used_as_spec(spec_code)]
    pub fn code(self) -> (r: i32)
        ensures
            r == self.spec_code(),
    {
        match self {
            ElementType::Byte => 1,
            ElementType::Short => 3,
            ElementType::Int => 4,
            ElementType::Float => 5,
            ElementType::Double => 6,
            ElementType::UByte => 7,
            ElementType::UShort => 8,
            ElementType::UInt => 9,
            ElementType::Int64 => 10,
            ElementType::UInt64 => 11,
        }
    }
}

/// A dimension as the storage library knows it: the group it was defined in
/// and its id there.
#[derive(Debug, Clone, Copy, PartialEq, Eq, Structural)]
pub struct Identifier {
    pub ncid: i32,
    pub dimid: i32,
}

/// One request to the storage library.
///
/// Each variant says which fields of the [`Reply`] carry its answer; the
/// reply's `status` always does.
#[derive(Debug, PartialEq, Eq)]
pub enum Call {
    /// Open the dataset at `path`. Answer: `id`, the dataset's identifier.
    Open { path: String, mode: i32 },
    /// Create a dataset at `path`. Answer: `id`, the dataset's identifier.
    Create { path: String, mode: i32 },
    /// Open the dataset encoded in a buffer of `size` bytes, which the
    /// embedding program holds, under the name `name`. Answer: `id`.
    OpenMem { name: String, mode: i32, size: usize },
    /// Close the dataset.
    Close { ncid: i32 },
    /// First half of the path query. Answer: `len`, the path's length in
    /// bytes.
    PathLen { ncid: i32 },
    /// Second half of the path query, made with room for `len` bytes.
    /// Answer: `bytes`, the path.
    PathFill { ncid: i32, len: usize },
    /// Look up a child group by name. Answer: `id`, the group's identifier.
    FindGroup { ncid: i32, name: String },
    /// Look up a dimension by name. Answer: `id`, and `len`, its length, zero
    /// for an unlimited dimension.
    FindDimension { ncid: i32, name: String },
    /// Look up a variable by name. Answer: `id`.
    FindVariable { ncid: i32, name: String },
    /// Look up an attribute of `varid` by name.
    FindAttribute { ncid: i32, varid: i32, name: String },
    /// Enumerate the child groups. Answer: `entries`, one `id` each.
    ListGroups { ncid: i32 },
    /// Enumerate the dimensions. Answer: `entries`, one `id` and `len` each.
    ListDimensions { ncid: i32 },
    /// Enumerate the variables. Answer: `entries`, one `status` and `id`
    /// each.
    ListVariables { ncid: i32 },
    /// Enumerate the attributes of `varid`. Answer: `entries`, one `status`
    /// and `name` each.
    ListAttributes { ncid: i32, varid: i32 },
    /// Define a child group. Answer: `id`, the group's identifier.
    AddGroup { ncid: i32, name: String },
    /// Define a dimension of length `len`, unlimited if zero. Answer: `id`.
    AddDimension { ncid: i32, name: String, len: usize },
    /// Define a variable over the dimensions named. Answer: `id`.
    AddVariable { ncid: i32, name: String, xtype: i32, dims: Vec<String> },
    /// Define a variable over the dimensions identified. Answer: `id`.
    AddVariableAt { ncid: i32, name: String, xtype: i32, dims: Vec<Identifier> },
    /// Write an attribute of `varid`, whose value the embedding program
    /// holds.
    PutAttribute { ncid: i32, varid: i32, name: String },
}

/// A [`Call`] as a mathematical value: text as sequences of characters.
pub enum CallView {
    Open { path: Seq<char>, mode: i32 },
    Create { path: Seq<char>, mode: i32 },
    OpenMem { name: Seq<char>, mode: i32, size: usize },
    Close { ncid: i32 },
    PathLen { ncid: i32 },
    PathFill { ncid: i32, len: usize },
    FindGroup { ncid: i32, name: Seq<char> },
    FindDimension { ncid: i32, name: Seq<char> },
    FindVariable { ncid: i32, name: Seq<char> },
    FindAttribute { ncid: i32, varid: i32, name: Seq<char> },
    ListGroups { ncid: i32 },
    ListDimensions { ncid: i32 },
    ListVariables { ncid: i32 },
    ListAttributes { ncid: i32, varid: i32 },
    AddGroup { ncid: i32, name: Seq<char> },
    AddDimension { ncid: i32, name: Seq<char>, len: usize },
    AddVariable { ncid: i32, name: Seq<char>, xtype: i32, dims: Seq<Seq<char>> },
    AddVariableAt { ncid: i32, name: Seq<char>, xtype: i32, dims: Seq<Identifier> },
    PutAttribute { ncid: i32, varid: i32, name: Seq<char> },
}

impl View for Call {
    type V = CallView;

    open spec fn view(&self) -> CallView {
        match *self {
            Call::Open { path, mode } => CallView::Open { path: path@, mode },
            Call::Create { path, mode } => CallView::Create { path: path@, mode },
            Call::OpenMem { name, mode, size } => CallView::OpenMem { name: name@, mode, size },
            Call::Close { ncid } => CallView::Close { ncid },
            Call::PathLen { ncid } => CallView::PathLen { ncid },
            Call::PathFill { ncid, len } => CallView::PathFill { ncid, len },
            Call::FindGroup { ncid, name } => CallView::FindGroup { ncid, name: name@ },
            Call::FindDimension { ncid, name } => CallView::FindDimension { ncid, name: name@ },
            Call::FindVariable { ncid, name } => CallView::FindVariable { ncid, name: name@ },
            Call::FindAttribute { ncid, varid, name } => CallView::FindAttribute {
                ncid,
                varid,
                name: name@,
            },
            Call::ListGroups { ncid } => CallView::ListGroups { ncid },
            Call::ListDimensions { ncid } => CallView::ListDimensions { ncid },
            Call::ListVariables { ncid } => CallView::ListVariables { ncid },
            Call::ListAttributes { ncid, varid } => CallView::ListAttributes { ncid, varid },
            Call::AddGroup { ncid, name } => CallView::AddGroup { ncid, name: name@ },
            Call::AddDimension { ncid, name, len } => CallView::AddDimension {
                ncid,
                name: name@,
                len,
            },
            Call::AddVariable { ncid, name, xtype, dims } => CallView::AddVariable {
                ncid,
                name: name@,
                xtype,
                dims: dims.deep_view(),
            },
            Call::AddVariableAt { ncid, name, xtype, dims } => CallView::AddVariableAt {
                ncid,
                name: name@,
                xtype,
                dims: dims@,
            },
            Call::PutAttribute { ncid, varid, name } => CallView::PutAttribute {
                ncid,
                varid,
                name: name@,
            },
        }
    }
}

/// A result that holds a call, with the call as a mathematical value.
pub open spec fn request_of(r: Result<Call, Error>) -> Result<CallView, Error> {
    match r {
        Ok(call) => Ok(call@),
        Err(e) => Err(e),
    }
}

impl CallView {
    /// Whether the call can change the dataset, or makes one.
    pub open spec fn mutates(self) -> bool {
        match self {
            CallView::Create { .. } => true,
            CallView::Open { mode, .. } => mode != NC_NOWRITE,
            CallView::OpenMem { mode, .. } => mode != NC_NOWRITE,
            CallView::AddGroup { .. } => true,
            CallView::AddDimension { .. } => true,
            CallView::AddVariable { .. } => true,
            CallView::AddVariableAt { .. } => true,
            CallView::PutAttribute { .. } => true,
            _ => false,
        }
    }

    /// Whether the call only reads, and only from the dataset `ncid`.
    pub open spec fn reads(self, ncid: i32) -> bool {
        !self.mutates() && self.target() == Some(ncid)
    }

    /// Whether the call changes the dataset `ncid`, and no other.
    pub open spec fn writes(self, ncid: i32) -> bool {
        self.mutates() && self.target() == Some(ncid)
    }

    /// The identifier of the open dataset or group that the call is made on,
    /// where it is made on one.
    pub open spec fn target(self) -> Option<i32> {
        match self {
            CallView::Open { .. } => None,
            CallView::Create { .. } => None,
            CallView::OpenMem { .. } => None,
            CallView::Close { ncid } => Some(ncid),
            CallView::PathLen { ncid } => Some(ncid),
            CallView::PathFill { ncid, .. } => Some(ncid),
            CallView::FindGroup { ncid, .. } => Some(ncid),
            CallView::FindDimension { ncid, .. } => Some(ncid),
            CallView::FindVariable { ncid, .. } => Some(ncid),
            CallView::FindAttribute { ncid, .. } => Some(ncid),
            CallView::ListGroups { ncid } => Some(ncid),
            CallView::ListDimensions { ncid } => Some(ncid),
            CallView::ListVariables { ncid } => Some(ncid),
            CallView::ListAttributes { ncid, .. } => Some(ncid),
            CallView::AddGroup { ncid, .. } => Some(ncid),
            CallView::AddDimension { ncid, .. } => Some(ncid),
            CallView::AddVariable { ncid, .. } => Some(ncid),
            CallView::AddVariableAt { ncid, .. } => Some(ncid),
            CallView::PutAttribute { ncid, .. } => Some(ncid),
        }
    }
}

/// One item of an enumeration, as the storage library reported it.
#[derive(Debug, PartialEq, Eq)]
pub struct Entry {
    /// Status of the query for this item alone.
    pub status: i32,
    /// The item's id.
    pub id: i32,
    /// For a dimension: its length, zero for an unlimited one.
    pub len: usize,
    /// For an attribute: its name, as bytes.
    pub name: Vec<u8>,
}

/// What the storage library answered to one [`Call`].
///
/// Which fields carry meaning depends on the call. The others are ignored.
#[derive(Debug, PartialEq, Eq)]
pub struct Reply {
    /// The status of the call, zero for success.
    pub status: i32,
    /// The identifier or id that the call gave.
    pub id: i32,
    /// The length that the call gave.
    pub len: usize,
    /// The bytes that the call filled in.
    pub bytes: Vec<u8>,
    /// The items that the call enumerated.
    pub entries: Vec<Entry>,
}

} // verus!
