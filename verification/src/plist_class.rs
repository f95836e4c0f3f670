//! Classes of property lists and their names.

use vstd::prelude::*;
use crate::error::Error;
use crate::text::{push_str, string_of};

verus! {

/// Property list class.
#[derive(Clone, Copy, Debug, PartialEq, Eq, Structural)]
pub enum PropertyListClass {
    /// Properties for attribute creation.
    AttributeCreate,
    /// Properties for dataset access.
    DatasetAccess,
    /// Properties for dataset creation.
    DatasetCreate,
    /// Properties for raw data transfer.
    DataTransfer,
    /// Properties for datatype access.
    DatatypeAccess,
    /// Properties for datatype creation.
    DatatypeCreate,
    /// Properties for file access.
    FileAccess,
    /// Properties for file creation.
    FileCreate,
    /// Properties for file mounting.
    FileMount,
    /// Properties for group access.
    GroupAccess,
    /// Properties for group creation.
    GroupCreate,
    /// Properties for link traversal when accessing objects.
    LinkAccess,
    /// Properties for link creation.
    LinkCreate,
    /// Properties for object copying process.
    ObjectCopy,
    /// Properties for object creation.
    ObjectCreate,
    /// Properties for character encoding.
    StringCreate,
}

/// The name of a property list class, such as `file create`.
pub open spec fn class_name(c: PropertyListClass) -> Seq<char> {
    match c {
        PropertyListClass::AttributeCreate => "attribute create"@,
        PropertyListClass::DatasetAccess => "dataset access"@,
        PropertyListClass::DatasetCreate => "dataset create"@,
        PropertyListClass::DataTransfer => "data transfer"@,
        PropertyListClass::DatatypeAccess => "datatype access"@,
        PropertyListClass::DatatypeCreate => "datatype create"@,
        PropertyListClass::FileAccess => "file access"@,
        PropertyListClass::FileCreate => "file create"@,
        PropertyListClass::FileMount => "file mount"@,
        PropertyListClass::GroupAccess => "group access"@,
        PropertyListClass::GroupCreate => "group create"@,
        PropertyListClass::LinkAccess => "link access"@,
        PropertyListClass::LinkCreate => "link create"@,
        PropertyListClass::ObjectCopy => "object copy"@,
        PropertyListClass::ObjectCreate => "object create"@,
        PropertyListClass::StringCreate => "string create"@,
    }
}

/// The class whose name is `s`, if any.
pub open spec fn class_named(s: Seq<char>) -> Option<PropertyListClass> {
    if s == "attribute create"@ {
        Some(PropertyListClass::AttributeCreate)
    } else if s == "dataset access"@ {
        Some(PropertyListClass::DatasetAccess)
    } else if s == "dataset create"@ {
        Some(PropertyListClass::DatasetCreate)
    } else if s == "data transfer"@ {
        Some(PropertyListClass::DataTransfer)
    } else if s == "datatype access"@ {
        Some(PropertyListClass::DatatypeAccess)
    } else if s == "datatype create"@ {
        Some(PropertyListClass::DatatypeCreate)
    } else if s == "file access"@ {
        Some(PropertyListClass::FileAccess)
    } else if s == "file create"@ {
        Some(PropertyListClass::FileCreate)
    } else if s == "file mount"@ {
        Some(PropertyListClass::FileMount)
    } else if s == "group access"@ {
        Some(PropertyListClass::GroupAccess)
    } else if s == "group create"@ {
        Some(PropertyListClass::GroupCreate)
    } else if s == "link access"@ {
        Some(PropertyListClass::LinkAccess)
    } else if s == "link create"@ {
        Some(PropertyListClass::LinkCreate)
    } else if s == "object copy"@ {
        Some(PropertyListClass::ObjectCopy)
    } else if s == "object create"@ {
        Some(PropertyListClass::ObjectCreate)
    } else if s == "string create"@ {
        Some(PropertyListClass::StringCreate)
    } else {
        None
    }
}

fn same(a: &str, b: &str) -> (r: bool)
    ensures
        r == (a@ == b@),
{
    let x = string_of(a);
    let y = string_of(b);
    x == y
}

impl PropertyListClass {
    /// The name of the class, such as `file create`.
    pub fn to_string(self) -> (r: String)
        ensures
            r@ == class_name(self),
    {
        let name = match self {
            PropertyListClass::AttributeCreate => "attribute create",
            PropertyListClass::DatasetAccess => "dataset access",
            PropertyListClass::DatasetCreate => "dataset create",
            PropertyListClass::DataTransfer => "data transfer",
            PropertyListClass::DatatypeAccess => "datatype access",
            PropertyListClass::DatatypeCreate => "datatype create",
            PropertyListClass::FileAccess => "file access",
            PropertyListClass::FileCreate => "file create",
            PropertyListClass::FileMount => "file mount",
            PropertyListClass::GroupAccess => "group access",
            PropertyListClass::GroupCreate => "group create",
            PropertyListClass::LinkAccess => "link access",
            PropertyListClass::LinkCreate => "link create",
            PropertyListClass::ObjectCopy => "object copy",
            PropertyListClass::ObjectCreate => "object create",
            PropertyListClass::StringCreate => "string create",
        };
        string_of(name)
    }

    /// The class with the given name; an error names any other text.
    pub fn from_str(s: &str) -> (r: Result<Self, Error>)
        ensures
            class_named(s@) matches Some(c) ==> r == Ok::<PropertyListClass, Error>(c),
            class_named(s@) is None ==> (r matches Err(Error::Internal(m))
                && m@ == "invalid property list class: "@ + s@),
    {
        if same(s, "attribute create") {
            Ok(PropertyListClass::AttributeCreate)
        } else if same(s, "dataset access") {
            Ok(PropertyListClass::DatasetAccess)
        } else if same(s, "dataset create") {
            Ok(PropertyListClass::DatasetCreate)
        } else if same(s, "data transfer") {
            Ok(PropertyListClass::DataTransfer)
        } else if same(s, "datatype access") {
            Ok(PropertyListClass::DatatypeAccess)
        } else if same(s, "datatype create") {
            Ok(PropertyListClass::DatatypeCreate)
        } else if same(s, "file access") {
            Ok(PropertyListClass::FileAccess)
        } else if same(s, "file create") {
            Ok(PropertyListClass::FileCreate)
        } else if same(s, "file mount") {
            Ok(PropertyListClass::FileMount)
        } else if same(s, "group access") {
            Ok(PropertyListClass::GroupAccess)
        } else if same(s, "group create") {
            Ok(PropertyListClass::GroupCreate)
        } else if same(s, "link access") {
            Ok(PropertyListClass::LinkAccess)
        } else if same(s, "link create") {
            Ok(PropertyListClass::LinkCreate)
        } else if same(s, "object copy") {
            Ok(PropertyListClass::ObjectCopy)
        } else if same(s, "object create") {
            Ok(PropertyListClass::ObjectCreate)
        } else if same(s, "string create") {
            Ok(PropertyListClass::StringCreate)
        } else {
            let mut m = string_of("invalid property list class: ");
            push_str(&mut m, s);
            Err(Error::Internal(m))
        }
    }
}

proof fn lemma_names_distinct()
    ensures
        "attribute create"@.len() == 16,
        "attribute create"@[0] == 'a',
        "attribute create"@[5] == 'b',
        "attribute create"@[6] == 'u',
        "attribute create"@[8] == 'e',
        "attribute create"@[9] == ' ',
        "dataset access"@.len() == 14,
        "dataset access"@[0] == 'd',
        "dataset access"@[5] == 'e',
        "dataset access"@[6] == 't',
        "dataset access"@[8] == 'a',
        "dataset access"@[9] == 'c',
        "dataset create"@.len() == 14,
        "dataset create"@[0] == 'd',
        "dataset create"@[5] == 'e',
        "dataset create"@[6] == 't',
        "dataset create"@[8] == 'c',
        "dataset create"@[9] == 'r',
        "data transfer"@.len() == 13,
        "data transfer"@[0] == 'd',
        "data transfer"@[5] == 't',
        "data transfer"@[6] == 'r',
        "data transfer"@[8] == 'n',
        "data transfer"@[9] == 's',
        "datatype access"@.len() == 15,
        "datatype access"@[0] == 'd',
        "datatype access"@[5] == 'y',
        "datatype access"@[6] == 'p',
        "datatype access"@[8] == ' ',
        "datatype access"@[9] == 'a',
        "datatype create"@.len() == 15,
        "datatype create"@[0] == 'd',
        "datatype create"@[5] == 'y',
        "datatype create"@[6] == 'p',
        "datatype create"@[8] == ' ',
        "datatype create"@[9] == 'c',
        "file access"@.len() == 11,
        "file access"@[0] == 'f',
        "file access"@[5] == 'a',
        "file access"@[6] == 'c',
        "file access"@[8] == 'e',
        "file access"@[9] == 's',
        "file create"@.len() == 11,
        "file create"@[0] == 'f',
        "file create"@[5] == 'c',
        "file create"@[6] == 'r',
        "file create"@[8] == 'a',
        "file create"@[9] == 't',
        "file mount"@.len() == 10,
        "file mount"@[0] == 'f',
        "file mount"@[5] == 'm',
        "file mount"@[6] == 'o',
        "file mount"@[8] == 'n',
        "file mount"@[9] == 't',
        "group access"@.len() == 12,
        "group access"@[0] == 'g',
        "group access"@[5] == ' ',
        "group access"@[6] == 'a',
        "group access"@[8] == 'c',
        "group access"@[9] == 'e',
        "group create"@.len() == 12,
        "group create"@[0] == 'g',
        "group create"@[5] == ' ',
        "group create"@[6] == 'c',
        "group create"@[8] == 'e',
        "group create"@[9] == 'a',
        "link access"@.len() == 11,
        "link access"@[0] == 'l',
        "link access"@[5] == 'a',
        "link access"@[6] == 'c',
        "link access"@[8] == 'e',
        "link access"@[9] == 's',
        "link create"@.len() == 11,
        "link create"@[0] == 'l',
        "link create"@[5] == 'c',
        "link create"@[6] == 'r',
        "link create"@[8] == 'a',
        "link create"@[9] == 't',
        "object copy"@.len() == 11,
        "object copy"@[0] == 'o',
        "object copy"@[5] == 't',
        "object copy"@[6] == ' ',
        "object copy"@[8] == 'o',
        "object copy"@[9] == 'p',
        "object create"@.len() == 13,
        "object create"@[0] == 'o',
        "object create"@[5] == 't',
        "object create"@[6] == ' ',
        "object create"@[8] == 'r',
        "object create"@[9] == 'e',
        "string create"@.len() == 13,
        "string create"@[0] == 's',
        "string create"@[5] == 'g',
        "string create"@[6] == ' ',
        "string create"@[8] == 'r',
        "string create"@[9] == 'e',
{
    reveal_strlit("attribute create");
    reveal_strlit("dataset access");
    reveal_strlit("dataset create");
    reveal_strlit("data transfer");
    reveal_strlit("datatype access");
    reveal_strlit("datatype create");
    reveal_strlit("file access");
    reveal_strlit("file create");
    reveal_strlit("file mount");
    reveal_strlit("group access");
    reveal_strlit("group create");
    reveal_strlit("link access");
    reveal_strlit("link create");
    reveal_strlit("object copy");
    reveal_strlit("object create");
    reveal_strlit("string create");
}

/// Reading the name of a class gives the class back.
pub proof fn class_name_roundtrip(c: PropertyListClass)
    ensures
        class_named(class_name(c)) == Some(c),
{
    lemma_names_distinct();
}

/// A name that reads as a class is that class's name.
pub proof fn class_named_is_name(s: Seq<char>)
    requires
        class_named(s) is Some,
    ensures
        class_name(class_named(s)->Some_0) == s,
{
}

} // verus!
