//! Handles to objects of the library: identifiers, their validity and their
//! types.

use vstd::prelude::*;
use crate::error::Error;
use crate::text::{dec_int, push_i64, string_of};

verus! {

/// The identifier that names no object.
pub const INVALID_HID: i64 = -1;
/// The type code of an invalid identifier (`H5I_BADID`).
pub const ID_BADID: i32 = -1;
/// The number of type codes (`H5I_NTYPES` of the 1.8 and 1.10 library
/// series): valid codes lie between [`ID_BADID`] and this.
pub const ID_NTYPES: i32 = 14;

/// The type of an identifier, from the type the library reports for it: an
/// identifier that is not positive, or a code out of range, is invalid.
pub open spec fn spec_id_type(id: i64, reported: i32) -> i32 {
    if id <= 0 {
        ID_BADID
    } else if ID_BADID < reported < ID_NTYPES {
        reported
    } else {
        ID_BADID
    }
}

/// The type of identifier `id`; `reported` is what the library says of it.
pub fn get_id_type(id: i64, reported: i32) -> (r: i32)
    ensures
        r == spec_id_type(id, reported),
{
    if id <= 0 {
        ID_BADID
    } else if reported > ID_BADID && reported < ID_NTYPES {
        reported
    } else {
        ID_BADID
    }
}

/// Whether an identifier of the given type names an object.
pub fn is_valid_id(id_type: i32) -> (r: bool)
    ensures
        r == (ID_BADID < id_type < ID_NTYPES),
{
    id_type > ID_BADID && id_type < ID_NTYPES
}

/// A handle to an object of the library.
#[derive(Debug, PartialEq, Eq)]
pub struct Handle {
    id: i64,
}

impl Handle {
    pub closed spec fn spec_id(&self) -> i64 {
        self.id
    }

    /// A handle to object `id`, which the library reports as a valid user
    /// identifier when `valid` holds.
    pub fn try_new(id: i64, valid: bool) -> (r: Result<Self, Error>)
        ensures
            valid ==> (r matches Ok(h) && h.spec_id() == id),
            !valid ==> (r matches Err(Error::Internal(m)) && m@ == "Invalid handle id: "@ + dec_int(id as int)),
    {
        if valid {
            Ok(Handle { id })
        } else {
            let mut s = string_of("Invalid handle id: ");
            push_i64(&mut s, id);
            Err(Error::Internal(s))
        }
    }

    /// A handle that names no object.
    pub fn invalid() -> (r: Self)
        ensures
            r.spec_id() == INVALID_HID,
    {
        Handle { id: INVALID_HID }
    }

    pub fn id(&self) -> (r: i64)
        ensures
            r == self.spec_id(),
    {
        self.id
    }

    /// Whether the handle names an object, given the type the library
    /// reports for its identifier.
    pub fn is_valid_id(&self, reported: i32) -> (r: bool)
        ensures
            r == (ID_BADID < spec_id_type(self.spec_id(), reported) < ID_NTYPES),
    {
        is_valid_id(get_id_type(self.id, reported))
    }

    /// Whether the library holds the identifier as a valid user
    /// identifier; `reported` is its answer (1 for yes).
    pub fn is_valid_user_id(&self, reported: i32) -> (r: bool)
        ensures
            r == (reported == 1),
    {
        reported == 1
    }

    /// The type of the handle's identifier, given the type the library
    /// reports for it.
    pub fn id_type(&self, reported: i32) -> (r: i32)
        ensures
            r == spec_id_type(self.spec_id(), reported),
    {
        get_id_type(self.id, reported)
    }

    /// The reference count, from what asking the library gave; 0 when it
    /// could not be had.
    pub fn refcount(query: Result<u64, Error>) -> (r: u32)
        ensures
            r == match query {
                Ok(n) => n as u32,
                Err(_) => 0u32,
            },
    {
        match query {
            Ok(n) => n as u32,
            Err(_) => 0,
        }
    }
}

} // verus!
