//! Classes of library objects: the name each is shown under, the
//! identifier types that stand for one, and the checks and text built from
//! them.

use vstd::prelude::*;
use crate::dataset::Dataset;
use crate::dataset_access::DatasetAccess;
use crate::dataset_create::DatasetCreate;
use crate::dataspace::Dataspace;
use crate::error::{Error, ErrorView};
use crate::file_access::FileAccess;
use crate::file::File;
use crate::file_create::FileCreate;
use crate::group::Group;
use crate::handle::Handle;
use crate::plist_class::PropertyListClass;
use crate::text::{dec_int, push_i64, push_str, string_of};

verus! {

/// Identifier type of files.
pub const ID_FILE: i32 = 1;
/// Identifier type of groups.
pub const ID_GROUP: i32 = 2;
/// Identifier type of datatypes.
pub const ID_DATATYPE: i32 = 3;
/// Identifier type of dataspaces.
pub const ID_DATASPACE: i32 = 4;
/// Identifier type of datasets.
pub const ID_DATASET: i32 = 5;
/// Identifier type of attributes.
pub const ID_ATTR: i32 = 6;
/// Identifier type of property lists.
pub const ID_GENPROP_LST: i32 = 10;

/// A class of library objects.
pub trait ObjectClass {
    /// The name objects of the class are shown under.
    spec fn spec_class_name() -> Seq<char>;

    /// The identifier types that stand for objects of the class; none means
    /// any type.
    spec fn spec_valid_types() -> Seq<i32>;

    fn class_name() -> (r: &'static str)
        ensures
            r@ == Self::spec_class_name();

    fn valid_types() -> (r: Vec<i32>)
        ensures
            r@ == Self::spec_valid_types();
}

/// An identifier of type `tp` can stand for an object of a class with the
/// given valid types.
pub open spec fn accepts_type(valid: Seq<i32>, tp: i32) -> bool {
    valid.len() == 0 || valid.contains(tp)
}

/// Whether an identifier of type `tp` can stand for an object of class `T`.
pub fn is_valid_id_type<T: ObjectClass>(tp: i32) -> (r: bool)
    ensures
        r == accepts_type(T::spec_valid_types(), tp),
{
    let valid = T::valid_types();
    if valid.len() == 0 {
        return true;
    }
    let mut i: usize = 0;
    while i < valid.len()
        invariant
            i <= valid@.len(),
            valid@ == T::spec_valid_types(),
            forall|k: int| 0 <= k < i ==> valid@[k] != tp,
        decreases valid@.len() - i,
    {
        if valid[i] == tp {
            assert(valid@[i as int] == tp);
            return true;
        }
        i = i + 1;
    }
    false
}

/// The handle that identifier `id` of type `tp` gives an object of class
/// `T`: the type must be one of the class's, and the identifier one the
/// library holds as valid (`user_valid`).
pub fn handle_from_id<T: ObjectClass>(id: i64, tp: i32, user_valid: bool) -> (r: Result<Handle, Error>)
    ensures
        !accepts_type(T::spec_valid_types(), tp) ==> (r matches Err(e)
            && e@ == ErrorView::Internal("Invalid "@ + T::spec_class_name() + " id: "@ + dec_int(id as int))),
        accepts_type(T::spec_valid_types(), tp) && user_valid ==> (r matches Ok(h) && h.spec_id() == id),
        accepts_type(T::spec_valid_types(), tp) && !user_valid ==> (r matches Err(e)
            && e@ == ErrorView::Internal("Invalid handle id: "@ + dec_int(id as int))),
{
    if is_valid_id_type::<T>(tp) {
        Handle::try_new(id, user_valid)
    } else {
        let mut s = string_of("Invalid ");
        push_str(&mut s, T::class_name());
        push_str(&mut s, " id: ");
        push_i64(&mut s, id);
        Err(Error::Internal(s))
    }
}

/// How an object is shown: `<HDF5 name: invalid id>` when its identifier is
/// not valid, `<HDF5 name: details>` with a short description, or
/// `<HDF5 name>`.
pub open spec fn object_text(name: Seq<char>, valid: bool, short: Option<Seq<char>>) -> Seq<char> {
    if !valid {
        "<HDF5 "@ + name + ": invalid id>"@
    } else {
        match short {
            Some(d) => "<HDF5 "@ + name + ": "@ + d + ">"@,
            None => "<HDF5 "@ + name + ">"@,
        }
    }
}

/// How an object of class `T` is shown, given whether its identifier is
/// valid and its short description, if it has one.
pub fn object_debug_text<T: ObjectClass>(valid: bool, short: Option<&str>) -> (r: String)
    ensures
        r@ == object_text(T::spec_class_name(), valid, match short {
            Some(d) => Some(d@),
            None => None,
        }),
{
    let mut s = string_of("<HDF5 ");
    push_str(&mut s, T::class_name());
    if !valid {
        push_str(&mut s, ": invalid id>");
    } else {
        match short {
            Some(d) => {
                push_str(&mut s, ": ");
                push_str(&mut s, d);
                push_str(&mut s, ">");
            },
            None => {
                push_str(&mut s, ">");
            },
        }
    }
    s
}

/// The name a property list class is written with, such as `FileCreate`.
pub open spec fn class_variant_name(c: PropertyListClass) -> Seq<char> {
    match c {
        PropertyListClass::AttributeCreate => "AttributeCreate"@,
        PropertyListClass::DatasetAccess => "DatasetAccess"@,
        PropertyListClass::DatasetCreate => "DatasetCreate"@,
        PropertyListClass::DataTransfer => "DataTransfer"@,
        PropertyListClass::DatatypeAccess => "DatatypeAccess"@,
        PropertyListClass::DatatypeCreate => "DatatypeCreate"@,
        PropertyListClass::FileAccess => "FileAccess"@,
        PropertyListClass::FileCreate => "FileCreate"@,
        PropertyListClass::FileMount => "FileMount"@,
        PropertyListClass::GroupAccess => "GroupAccess"@,
        PropertyListClass::GroupCreate => "GroupCreate"@,
        PropertyListClass::LinkAccess => "LinkAccess"@,
        PropertyListClass::LinkCreate => "LinkCreate"@,
        PropertyListClass::ObjectCopy => "ObjectCopy"@,
        PropertyListClass::ObjectCreate => "ObjectCreate"@,
        PropertyListClass::StringCreate => "StringCreate"@,
    }
}

fn variant_name(c: PropertyListClass) -> (r: &'static str)
    ensures
        r@ == class_variant_name(c),
{
    match c {
        PropertyListClass::AttributeCreate => "AttributeCreate",
        PropertyListClass::DatasetAccess => "DatasetAccess",
        PropertyListClass::DatasetCreate => "DatasetCreate",
        PropertyListClass::DataTransfer => "DataTransfer",
        PropertyListClass::DatatypeAccess => "DatatypeAccess",
        PropertyListClass::DatatypeCreate => "DatatypeCreate",
        PropertyListClass::FileAccess => "FileAccess",
        PropertyListClass::FileCreate => "FileCreate",
        PropertyListClass::FileMount => "FileMount",
        PropertyListClass::GroupAccess => "GroupAccess",
        PropertyListClass::GroupCreate => "GroupCreate",
        PropertyListClass::LinkAccess => "LinkAccess",
        PropertyListClass::LinkCreate => "LinkCreate",
        PropertyListClass::ObjectCopy => "ObjectCopy",
        PropertyListClass::ObjectCreate => "ObjectCreate",
        PropertyListClass::StringCreate => "StringCreate",
    }
}

/// Checks that a property list of class `T` has the class it should:
/// `expected`, read from the library as `got`.
pub fn check_plist_class<T: ObjectClass>(expected: PropertyListClass, got: PropertyListClass) -> (r: Result<(), Error>)
    ensures
        got == expected ==> r is Ok,
        got != expected ==> (r matches Err(e)
            && e@ == ErrorView::Internal("expected "@ + T::spec_class_name() + ", got "@ + class_variant_name(got))),
{
    if got == expected {
        Ok(())
    } else {
        let mut s = string_of("expected ");
        push_str(&mut s, T::class_name());
        push_str(&mut s, ", got ");
        push_str(&mut s, variant_name(got));
        Err(Error::Internal(s))
    }
}

impl ObjectClass for Group {
    open spec fn spec_class_name() -> Seq<char> {
        "group"@
    }

    open spec fn spec_valid_types() -> Seq<i32> {
        seq![ID_GROUP, ID_FILE]
    }

    fn class_name() -> (r: &'static str) {
        "group"
    }

    fn valid_types() -> (r: Vec<i32>) {
        vec![ID_GROUP, ID_FILE]
    }
}

impl ObjectClass for File {
    open spec fn spec_class_name() -> Seq<char> {
        "file"@
    }

    open spec fn spec_valid_types() -> Seq<i32> {
        seq![ID_FILE]
    }

    fn class_name() -> (r: &'static str) {
        "file"
    }

    fn valid_types() -> (r: Vec<i32>) {
        vec![ID_FILE]
    }
}

impl ObjectClass for Dataset {
    open spec fn spec_class_name() -> Seq<char> {
        "dataset"@
    }

    open spec fn spec_valid_types() -> Seq<i32> {
        seq![ID_DATASET]
    }

    fn class_name() -> (r: &'static str) {
        "dataset"
    }

    fn valid_types() -> (r: Vec<i32>) {
        vec![ID_DATASET]
    }
}

impl ObjectClass for Dataspace {
    open spec fn spec_class_name() -> Seq<char> {
        "dataspace"@
    }

    open spec fn spec_valid_types() -> Seq<i32> {
        seq![ID_DATASPACE]
    }

    fn class_name() -> (r: &'static str) {
        "dataspace"
    }

    fn valid_types() -> (r: Vec<i32>) {
        vec![ID_DATASPACE]
    }
}

impl ObjectClass for DatasetCreate {
    open spec fn spec_class_name() -> Seq<char> {
        "dataset creation property list"@
    }

    open spec fn spec_valid_types() -> Seq<i32> {
        seq![ID_GENPROP_LST]
    }

    fn class_name() -> (r: &'static str) {
        "dataset creation property list"
    }

    fn valid_types() -> (r: Vec<i32>) {
        vec![ID_GENPROP_LST]
    }
}

impl ObjectClass for DatasetAccess {
    open spec fn spec_class_name() -> Seq<char> {
        "dataset access property list"@
    }

    open spec fn spec_valid_types() -> Seq<i32> {
        seq![ID_GENPROP_LST]
    }

    fn class_name() -> (r: &'static str) {
        "dataset access property list"
    }

    fn valid_types() -> (r: Vec<i32>) {
        vec![ID_GENPROP_LST]
    }
}

impl ObjectClass for FileCreate {
    open spec fn spec_class_name() -> Seq<char> {
        "file create property list"@
    }

    open spec fn spec_valid_types() -> Seq<i32> {
        seq![ID_GENPROP_LST]
    }

    fn class_name() -> (r: &'static str) {
        "file create property list"
    }

    fn valid_types() -> (r: Vec<i32>) {
        vec![ID_GENPROP_LST]
    }
}

impl ObjectClass for FileAccess {
    open spec fn spec_class_name() -> Seq<char> {
        "file access property list"@
    }

    open spec fn spec_valid_types() -> Seq<i32> {
        seq![ID_GENPROP_LST]
    }

    fn class_name() -> (r: &'static str) {
        "file access property list"
    }

    fn valid_types() -> (r: Vec<i32>) {
        vec![ID_GENPROP_LST]
    }
}

} // verus!
