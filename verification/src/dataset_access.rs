//! Dataset access properties, as read from a dataset access property list.

use vstd::prelude::*;
use crate::error::Error;
use crate::file_access::{read_agrees, read_or};
use crate::text::string_of;

verus! {

/// Which source datasets the extent of a virtual dataset is computed from.
#[derive(Clone, Copy, Debug, PartialEq, Eq)]
pub enum VirtualView {
    FirstMissing,
    LastAvailable,
}

impl Default for VirtualView {
    fn default() -> (r: Self)
        ensures
            r == VirtualView::LastAvailable,
    {
        VirtualView::LastAvailable
    }
}

/// View code: up to the first missing source dataset.
pub const VDS_FIRST_MISSING: i32 = 0;
/// View code: up to the last available source dataset.
pub const VDS_LAST_AVAILABLE: i32 = 1;

/// The view a code stands for; any other code stands for the last
/// available source.
pub open spec fn spec_virtual_view_of(code: i32) -> VirtualView {
    if code == VDS_FIRST_MISSING {
        VirtualView::FirstMissing
    } else {
        VirtualView::LastAvailable
    }
}

/// The code of a view.
pub open spec fn spec_virtual_view_code(v: VirtualView) -> i32 {
    match v {
        VirtualView::FirstMissing => VDS_FIRST_MISSING,
        VirtualView::LastAvailable => VDS_LAST_AVAILABLE,
    }
}

impl VirtualView {
    /// The view a code stands for.
    pub fn from_raw(code: i32) -> (r: Self)
        ensures
            r == spec_virtual_view_of(code),
    {
        if code == VDS_FIRST_MISSING {
            VirtualView::FirstMissing
        } else {
            VirtualView::LastAvailable
        }
    }

    /// The code of the view.
    pub fn to_raw(self) -> (r: i32)
        ensures
            r == spec_virtual_view_code(self),
    {
        match self {
            VirtualView::FirstMissing => VDS_FIRST_MISSING,
            VirtualView::LastAvailable => VDS_LAST_AVAILABLE,
        }
    }
}

/// A view reads back as itself from its code.
pub proof fn virtual_view_roundtrip(v: VirtualView)
    ensures
        spec_virtual_view_of(spec_virtual_view_code(v)) == v,
{
}

/// What reading the properties of a dataset access property list gave:
/// each read's result, as the library returned it.
pub struct DatasetAccessReads {
    pub efile_prefix: Result<String, Error>,
    pub virtual_view: Result<i32, Error>,
    pub virtual_printf_gap: Result<u64, Error>,
    pub all_coll_metadata_ops: Result<u8, Error>,
}

/// Dataset access property list, as read from the library.
pub struct DatasetAccess {
    reads: DatasetAccessReads,
}

impl DatasetAccess {
    /// The property list whose properties read as `reads`.
    pub fn new(reads: DatasetAccessReads) -> (r: Self)
        ensures
            r.reads() == reads,
    {
        DatasetAccess { reads }
    }

    /// What reading the properties gave.
    pub closed spec fn reads(&self) -> DatasetAccessReads {
        self.reads
    }

    pub fn get_efile_prefix(&self) -> (r: Result<String, Error>)
        ensures
            match (r, self.reads().efile_prefix) {
                (Ok(a), Ok(b)) => a@ == b@,
                (Err(e), Err(g)) => e@ == g@,
                _ => false,
            },
    {
        match &self.reads.efile_prefix {
            Ok(s) => Ok(string_of(s.as_str())),
            Err(e) => Err(e.duplicate()),
        }
    }

    /// The prefix of external file paths; empty when it cannot be read.
    pub fn efile_prefix(&self) -> (r: String)
        ensures
            match self.reads().efile_prefix {
                Ok(b) => r@ == b@,
                Err(_) => r@ == Seq::<char>::empty(),
            },
    {
        match self.get_efile_prefix() {
            Ok(s) => s,
            Err(_) => String::new(),
        }
    }

    pub fn get_virtual_view(&self) -> (r: Result<VirtualView, Error>)
        ensures
            read_agrees(r, self.reads().virtual_view, |c: i32| spec_virtual_view_of(c)),
    {
        match &self.reads.virtual_view {
            Ok(c) => Ok(VirtualView::from_raw(*c)),
            Err(e) => Err(e.duplicate()),
        }
    }

    /// The view of a virtual dataset; the last available source when it
    /// cannot be read.
    pub fn virtual_view(&self) -> (r: VirtualView)
        ensures
            r == read_or(self.reads().virtual_view, |c: i32| spec_virtual_view_of(c), VirtualView::LastAvailable),
    {
        match self.get_virtual_view() {
            Ok(v) => v,
            Err(_) => VirtualView::default(),
        }
    }

    pub fn get_virtual_printf_gap(&self) -> (r: Result<usize, Error>)
        ensures
            read_agrees(r, self.reads().virtual_printf_gap, |v: u64| v as usize),
    {
        match &self.reads.virtual_printf_gap {
            Ok(v) => Ok(*v as usize),
            Err(e) => Err(e.duplicate()),
        }
    }

    /// The largest gap in printf-style source file names; 0 when it cannot
    /// be read.
    pub fn virtual_printf_gap(&self) -> (r: usize)
        ensures
            r == read_or(self.reads().virtual_printf_gap, |v: u64| v as usize, 0usize),
    {
        match self.get_virtual_printf_gap() {
            Ok(v) => v,
            Err(_) => 0,
        }
    }

    pub fn get_all_coll_metadata_ops(&self) -> (r: Result<bool, Error>)
        ensures
            read_agrees(r, self.reads().all_coll_metadata_ops, |v: u8| v > 0),
    {
        match &self.reads.all_coll_metadata_ops {
            Ok(v) => Ok(*v > 0),
            Err(e) => Err(e.duplicate()),
        }
    }

    /// Whether metadata reads are collective; false when it cannot be read.
    pub fn all_coll_metadata_ops(&self) -> (r: bool)
        ensures
            r == read_or(self.reads().all_coll_metadata_ops, |v: u8| v > 0, false),
    {
        match self.get_all_coll_metadata_ops() {
            Ok(v) => v,
            Err(_) => false,
        }
    }
}

/// The library's codes of the virtual views: up to the first missing
/// source 0, up to the last available one 1; every other code reads as the
/// last available one.
pub proof fn virtual_view_codes_law(code: i32)
    ensures
        spec_virtual_view_code(VirtualView::FirstMissing) == 0,
        spec_virtual_view_code(VirtualView::LastAvailable) == 1,
        (spec_virtual_view_of(code) == VirtualView::FirstMissing) <==> code == 0,
{
}

} // verus!
