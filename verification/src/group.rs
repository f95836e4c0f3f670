//! Groups: how many objects they link to, and how they are shown.

use vstd::prelude::*;
use crate::error::Error;
use crate::text::{dec_nat, push_str, push_u64, string_of};

verus! {

/// A group, as read from the library: its name and the number of links it
/// holds (that read may have failed).
pub struct Group {
    name: String,
    nlinks: Result<u64, Error>,
}

/// How the number of members of a group is shown.
pub open spec fn members_text(n: u64) -> Seq<char> {
    if n == 0 {
        "empty"@
    } else if n == 1 {
        "1 member"@
    } else {
        dec_nat(n as nat) + " members"@
    }
}

impl Group {
    /// The group with the given name whose link count reads as `nlinks`.
    pub fn new(name: String, nlinks: Result<u64, Error>) -> (r: Self)
        ensures
            r.name() == name@,
            r.nlinks() == nlinks,
    {
        Group { name, nlinks }
    }

    /// The group's name.
    pub closed spec fn name(&self) -> Seq<char> {
        self.name@
    }

    /// What reading the link count gave.
    pub closed spec fn nlinks(&self) -> Result<u64, Error> {
        self.nlinks
    }

    /// The number of objects in the group; 0 when it cannot be read.
    pub fn len(&self) -> (r: u64)
        ensures
            r == match self.nlinks() {
                Ok(n) => n,
                Err(_) => 0,
            },
    {
        match &self.nlinks {
            Ok(n) => *n,
            Err(_) => 0,
        }
    }

    /// Whether the group links to no object (or cannot be read).
    pub fn is_empty(&self) -> (r: bool)
        ensures
            r == match self.nlinks() {
                Ok(n) => n == 0,
                Err(_) => true,
            },
    {
        self.len() == 0
    }

    /// The group shown in short: its quoted name and its members, such as
    /// `"/foo" (2 members)`.
    pub fn short_repr(&self) -> (r: String)
        ensures
            r@ == "\""@ + self.name() + "\" ("@ + members_text(match self.nlinks() {
                Ok(n) => n,
                Err(_) => 0,
            }) + ")"@,
    {
        let n = self.len();
        let mut s = string_of("\"");
        push_str(&mut s, self.name.as_str());
        push_str(&mut s, "\" (");
        if n == 0 {
            push_str(&mut s, "empty");
        } else if n == 1 {
            push_str(&mut s, "1 member");
        } else {
            push_u64(&mut s, n);
            push_str(&mut s, " members");
        }
        push_str(&mut s, ")");
        s
    }
}

} // verus!
