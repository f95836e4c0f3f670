//! Generic property lists: their class, their properties and how they are
//! shown.

use vstd::prelude::*;
use crate::class::{ObjectClass, ID_GENPROP_LST};
use crate::error::{Error, ErrorView};
use crate::plist_class::{class_name, class_named, PropertyListClass};
use crate::text::string_of;

verus! {

/// What reading a property list gave: the name of its class, the names its
/// properties were iterated under, and its number of properties.
pub struct PropertyListReads {
    pub class_name: Result<String, Error>,
    pub property_names: Vec<String>,
    pub nprops: Result<usize, Error>,
}

/// A property list, as read from the library.
pub struct PropertyList {
    reads: PropertyListReads,
}

/// The first `n` names without the empty ones, in order.
pub open spec fn named_properties(names: Seq<Seq<char>>, n: nat) -> Seq<Seq<char>>
    decreases n,
{
    if n == 0 {
        Seq::empty()
    } else if names[n - 1].len() > 0 {
        named_properties(names, (n - 1) as nat).push(names[n - 1])
    } else {
        named_properties(names, (n - 1) as nat)
    }
}

/// The class that a class name read gives, or the error.
pub open spec fn spec_class_of(read: Result<String, Error>) -> Result<PropertyListClass, ErrorView> {
    match read {
        Ok(name) => match class_named(name@) {
            Some(c) => Ok(c),
            None => Err(ErrorView::Internal("invalid property list class: "@ + name@)),
        },
        Err(e) => Err(e@),
    }
}

impl PropertyList {
    /// The property list whose reads are `reads`.
    pub fn new(reads: PropertyListReads) -> (r: Self)
        ensures
            r.reads() == reads,
    {
        PropertyList { reads }
    }

    /// What reading the property list gave.
    pub closed spec fn reads(&self) -> PropertyListReads {
        self.reads
    }

    /// The names of the properties; unnamed ones are left out.
    pub fn properties(&self) -> (r: Vec<String>)
        ensures
            r@.map_values(|s: String| s@) == named_properties(
                self.reads().property_names@.map_values(|s: String| s@),
                self.reads().property_names@.len(),
            ),
    {
        let names = &self.reads.property_names;
        let ghost all = names@.map_values(|s: String| s@);
        let mut out: Vec<String> = Vec::new();
        let mut i: usize = 0;
        while i < names.len()
            invariant
                i <= names@.len(),
                all == names@.map_values(|s: String| s@),
                out@.map_values(|s: String| s@) == named_properties(all, i as nat),
            decreases names@.len() - i,
        {
            let name = &names[i];
            if name.as_str().unicode_len() > 0 {
                let ghost before = out@;
                out.push(string_of(name.as_str()));
                assert(out@.map_values(|s: String| s@) =~= before.map_values(|s: String| s@).push(all[i as int]));
            }
            i = i + 1;
        }
        out
    }

    /// The number of properties; 0 when it cannot be read.
    pub fn len(&self) -> (r: usize)
        ensures
            r == match self.reads().nprops {
                Ok(n) => n,
                Err(_) => 0,
            },
    {
        match &self.reads.nprops {
            Ok(n) => *n,
            Err(_) => 0,
        }
    }

    /// The class of the property list.
    pub fn class(&self) -> (r: Result<PropertyListClass, Error>)
        ensures
            match (r, spec_class_of(self.reads().class_name)) {
                (Ok(a), Ok(b)) => a == b,
                (Err(e), Err(g)) => e@ == g,
                _ => false,
            },
    {
        match &self.reads.class_name {
            Ok(name) => PropertyListClass::from_str(name.as_str()),
            Err(e) => Err(e.duplicate()),
        }
    }

    /// The property list shown in short: the name of its class, or
    /// `unknown class`.
    pub fn short_repr(&self) -> (r: String)
        ensures
            r@ == match spec_class_of(self.reads().class_name) {
                Ok(c) => class_name(c),
                Err(_) => "unknown class"@,
            },
    {
        match self.class() {
            Ok(c) => c.to_string(),
            Err(_) => string_of("unknown class"),
        }
    }
}

impl ObjectClass for PropertyList {
    open spec fn spec_class_name() -> Seq<char> {
        "property list"@
    }

    open spec fn spec_valid_types() -> Seq<i32> {
        seq![ID_GENPROP_LST]
    }

    fn class_name() -> (r: &'static str) {
        "property list"
    }

    fn valid_types() -> (r: Vec<i32>) {
        vec![ID_GENPROP_LST]
    }
}

} // verus!
