//! Named locations in a file: their names, comments and kinds, and the
//! length of the buffers names are read into.

use vstd::prelude::*;
use crate::class::ObjectClass;
use crate::error::{Error, ErrorView};
use crate::text::{push_str, string_of};

verus! {

/// The kind of object at a location.
#[derive(Clone, Copy, Debug, PartialEq, Eq)]
pub enum LocationType {
    Group,
    Dataset,
    NamedDatatype,
    TypeMap,
}

/// Object type code of datasets.
pub const OBJ_TYPE_DATASET: i32 = 1;
/// Object type code of named datatypes.
pub const OBJ_TYPE_NAMED_DATATYPE: i32 = 2;
/// Object type code of maps.
pub const OBJ_TYPE_MAP: i32 = 3;

/// The kind of object an object type code stands for. Any other code,
/// including the code of an unknown type (which the library returns only
/// along with an error), stands for a group.
pub open spec fn spec_location_type_of(code: i32) -> LocationType {
    if code == OBJ_TYPE_DATASET {
        LocationType::Dataset
    } else if code == OBJ_TYPE_NAMED_DATATYPE {
        LocationType::NamedDatatype
    } else if code == OBJ_TYPE_MAP {
        LocationType::TypeMap
    } else {
        LocationType::Group
    }
}

impl LocationType {
    /// The kind of object an object type code of the library stands for.
    pub fn from_raw(code: i32) -> (r: Self)
        ensures
            r == spec_location_type_of(code),
    {
        if code == OBJ_TYPE_DATASET {
            LocationType::Dataset
        } else if code == OBJ_TYPE_NAMED_DATATYPE {
            LocationType::NamedDatatype
        } else if code == OBJ_TYPE_MAP {
            LocationType::TypeMap
        } else {
            LocationType::Group
        }
    }
}

/// The size of the buffer that a string of the reported length is read
/// into, with room for its terminating nul; a negative length is refused.
pub open spec fn spec_h5_str_len(reported: isize) -> Result<usize, Seq<char>> {
    if 1 + reported > 0 {
        Ok((1 + reported) as usize)
    } else {
        Err("negative string length in get_h5_str()"@)
    }
}

/// The size of the buffer that a string of the reported length is read
/// into.
pub fn h5_str_len(reported: isize) -> (r: Result<usize, Error>)
    requires
        reported < isize::MAX,
    ensures
        match (r, spec_h5_str_len(reported)) {
            (Ok(a), Ok(b)) => a == b,
            (Err(e), Err(m)) => e@ == ErrorView::Internal(m),
            _ => false,
        },
{
    let len: isize = 1 + reported;
    if len > 0 {
        Ok(len as usize)
    } else {
        Err(Error::Internal(string_of("negative string length in get_h5_str()")))
    }
}

/// What reading a location's name, file name and comment gave.
pub struct LocationReads {
    pub name: Result<String, Error>,
    pub filename: Result<String, Error>,
    pub comment: Result<String, Error>,
}

/// A named location in a file, as read from the library.
pub struct Location {
    reads: LocationReads,
}

/// The text a read gives: the text read, or nothing when it failed.
pub open spec fn read_text(r: Result<String, Error>) -> Seq<char> {
    match r {
        Ok(s) => s@,
        Err(_) => Seq::empty(),
    }
}

impl Location {
    /// The location whose reads are `reads`.
    pub fn new(reads: LocationReads) -> (r: Self)
        ensures
            r.reads() == reads,
    {
        Location { reads }
    }

    /// What reading the location gave.
    pub closed spec fn reads(&self) -> LocationReads {
        self.reads
    }

    /// The name of the object within its file; empty when the object has
    /// none (such as an anonymous dataset) or it cannot be read.
    pub fn name(&self) -> (r: String)
        ensures
            r@ == read_text(self.reads().name),
    {
        match &self.reads.name {
            Ok(s) => string_of(s.as_str()),
            Err(_) => String::new(),
        }
    }

    /// The name of the file holding the object; empty when it cannot be
    /// read.
    pub fn filename(&self) -> (r: String)
        ensures
            r@ == read_text(self.reads().filename),
    {
        match &self.reads.filename {
            Ok(s) => string_of(s.as_str()),
            Err(_) => String::new(),
        }
    }

    /// The comment attached to the object, if it has a non-empty one.
    pub fn comment(&self) -> (r: Option<String>)
        ensures
            match self.reads().comment {
                Ok(c) => if c@.len() == 0 { r is None } else { r matches Some(s) && s@ == c@ },
                Err(_) => r is None,
            },
    {
        match &self.reads.comment {
            Ok(c) => {
                if c.as_str().unicode_len() == 0 {
                    None
                } else {
                    Some(string_of(c.as_str()))
                }
            },
            Err(_) => None,
        }
    }

    /// The location shown in short: its name in quotes.
    pub fn short_repr(&self) -> (r: String)
        ensures
            r@ == "\""@ + read_text(self.reads().name) + "\""@,
    {
        let mut s = string_of("\"");
        let n = self.name();
        push_str(&mut s, n.as_str());
        push_str(&mut s, "\"");
        s
    }
}

impl ObjectClass for Location {
    open spec fn spec_class_name() -> Seq<char> {
        "location"@
    }

    open spec fn spec_valid_types() -> Seq<i32> {
        seq![crate::class::ID_FILE, crate::class::ID_GROUP, crate::class::ID_DATATYPE, crate::class::ID_DATASET, crate::class::ID_ATTR]
    }

    fn class_name() -> (r: &'static str) {
        "location"
    }

    fn valid_types() -> (r: Vec<i32>) {
        vec![crate::class::ID_FILE, crate::class::ID_GROUP, crate::class::ID_DATATYPE, crate::class::ID_DATASET, crate::class::ID_ATTR]
    }
}

/// The library's object type codes: dataset 1, named datatype 2, map 3;
/// every other code, the group's 0 among them, reads as a group.
pub proof fn location_type_codes_law(code: i32)
    ensures
        (spec_location_type_of(code) == LocationType::Dataset) <==> code == 1,
        (spec_location_type_of(code) == LocationType::NamedDatatype) <==> code == 2,
        (spec_location_type_of(code) == LocationType::TypeMap) <==> code == 3,
        (spec_location_type_of(code) == LocationType::Group) <==> !(1 <= code <= 3),
{
}

} // verus!
