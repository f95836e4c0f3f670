//! Opening and creating files: the access modes, the file driver settings,
//! and what the library is asked to do for each.

use vstd::prelude::*;
use crate::error::Error;
use crate::file_access::FileAccess;
use crate::file_create::FileCreate;
use crate::text::{push_str, string_of};

verus! {

/// Open for reading only (`H5F_ACC_RDONLY`).
pub const ACC_RDONLY: u32 = 0;
/// Open for reading and writing (`H5F_ACC_RDWR`).
pub const ACC_RDWR: u32 = 1;
/// Create, truncating an existing file (`H5F_ACC_TRUNC`).
pub const ACC_TRUNC: u32 = 2;
/// Create, failing if the file exists (`H5F_ACC_EXCL`).
pub const ACC_EXCL: u32 = 4;
/// The intent the library reports when it cannot tell (`H5F_ACC_DEFAULT`).
pub const ACC_DEFAULT: u32 = 65535;

/// The file driver a file is accessed through.
#[derive(Clone, Copy, Debug, PartialEq, Eq)]
pub enum FaplDriver {
    Sec2,
    Stdio,
    /// In memory, growing by `increment` bytes, written back when
    /// `filebacked`.
    Core { increment: u32, filebacked: bool },
}

/// What the library is asked to do to open or create a file.
#[derive(Clone, Copy, Debug, PartialEq, Eq)]
pub enum FileAction {
    /// Open an existing file with the given access flags.
    Open { flags: u32, driver: FaplDriver },
    /// Create a file with the given access flags and user block size.
    Create { flags: u32, userblock: u64, driver: FaplDriver },
    /// Open an existing file for writing; if that fails, create it
    /// exclusively.
    OpenOrCreate { driver: FaplDriver, userblock: u64 },
}

/// A request to open or create the named file.
#[derive(Clone, Debug, PartialEq, Eq)]
pub struct OpenRequest {
    pub filename: String,
    pub action: FileAction,
}

/// Abstract value of a [`FileBuilder`].
pub struct FileBuilderView {
    pub driver: Seq<char>,
    pub mode: Seq<char>,
    pub userblock: u64,
    pub filebacked: bool,
    pub increment: u32,
}

/// Settings for opening or creating a file.
#[derive(Clone, Debug)]
pub struct FileBuilder {
    driver: String,
    mode: String,
    userblock: u64,
    filebacked: bool,
    increment: u32,
}

impl View for FileBuilder {
    type V = FileBuilderView;

    closed spec fn view(&self) -> FileBuilderView {
        FileBuilderView {
            driver: self.driver@,
            mode: self.mode@,
            userblock: self.userblock,
            filebacked: self.filebacked,
            increment: self.increment,
        }
    }
}

/// The driver settings a builder names, or the error for an unknown driver.
pub open spec fn spec_driver(b: FileBuilderView) -> Result<FaplDriver, Seq<char>> {
    if b.driver == "sec2"@ {
        Ok(FaplDriver::Sec2)
    } else if b.driver == "stdio"@ {
        Ok(FaplDriver::Stdio)
    } else if b.driver == "core"@ {
        Ok(FaplDriver::Core { increment: b.increment, filebacked: b.filebacked })
    } else {
        Err("Invalid file driver: "@ + b.driver)
    }
}

/// What opening an existing file gives.
pub open spec fn spec_open_file(b: FileBuilderView, write: bool) -> Result<FileAction, Seq<char>> {
    if b.userblock != 0 {
        Err("Cannot specify userblock when opening a file"@)
    } else {
        match spec_driver(b) {
            Err(e) => Err(e),
            Ok(d) => Ok(FileAction::Open { flags: if write { ACC_RDWR } else { ACC_RDONLY }, driver: d }),
        }
    }
}

/// What creating a file gives.
pub open spec fn spec_create_file(b: FileBuilderView, exclusive: bool) -> Result<FileAction, Seq<char>> {
    match spec_driver(b) {
        Err(e) => Err(e),
        Ok(d) => Ok(FileAction::Create { flags: if exclusive { ACC_EXCL } else { ACC_TRUNC }, userblock: b.userblock, driver: d }),
    }
}

/// What `open` gives for the builder's mode: `r` and `r+` open, `w`
/// truncates, `w-` and `x` create exclusively, `a` opens for writing or
/// else creates; any other mode is refused.
pub open spec fn spec_open(b: FileBuilderView) -> Result<FileAction, Seq<char>> {
    if b.mode == "r"@ {
        spec_open_file(b, false)
    } else if b.mode == "r+"@ {
        spec_open_file(b, true)
    } else if b.mode == "w"@ {
        spec_create_file(b, false)
    } else if b.mode == "w-"@ || b.mode == "x"@ {
        spec_create_file(b, true)
    } else if b.mode == "a"@ {
        match spec_open_file(b, true) {
            Ok(_) => match spec_driver(b) {
                Ok(d) => Ok(FileAction::OpenOrCreate { driver: d, userblock: b.userblock }),
                Err(e) => Err(e),
            },
            Err(_) => spec_create_file(b, true),
        }
    } else {
        Err("Invalid file access mode, expected r|r+|w|w-|x|a"@)
    }
}

fn same(a: &String, b: &str) -> (r: bool)
    ensures
        r == (a@ == b@),
{
    let y = string_of(b);
    *a == y
}

/// A request agrees with an abstract outcome.
pub open spec fn request_matches(r: Result<OpenRequest, Error>, filename: Seq<char>, s: Result<FileAction, Seq<char>>) -> bool {
    match (r, s) {
        (Ok(q), Ok(a)) => q.filename@ == filename && q.action == a,
        (Err(Error::Internal(m)), Err(t)) => m@ == t,
        _ => false,
    }
}

impl FileBuilder {
    /// The default settings: the `sec2` driver, read-only mode, no user block,
    /// a core driver growing by 64 MiB and not written back.
    pub fn new() -> (r: Self)
        ensures
            r@.driver == "sec2"@,
            r@.mode == "r"@,
            r@.userblock == 0,
            !r@.filebacked,
            r@.increment == 67108864,
    {
        FileBuilder { driver: string_of("sec2"), mode: string_of("r"), userblock: 0, filebacked: false, increment: 67108864 }
    }

    pub fn driver(&mut self, driver: &str) -> (r: &mut Self)
        ensures
            r@ == (FileBuilderView { driver: driver@, ..old(self)@ }),
            final(self)@ == final(r)@,
    {
        self.driver = string_of(driver);
        self
    }

    pub fn mode(&mut self, mode: &str) -> (r: &mut Self)
        ensures
            r@ == (FileBuilderView { mode: mode@, ..old(self)@ }),
            final(self)@ == final(r)@,
    {
        self.mode = string_of(mode);
        self
    }

    pub fn userblock(&mut self, userblock: u64) -> (r: &mut Self)
        ensures
            r@ == (FileBuilderView { userblock, ..old(self)@ }),
            final(self)@ == final(r)@,
    {
        self.userblock = userblock;
        self
    }

    pub fn filebacked(&mut self, filebacked: bool) -> (r: &mut Self)
        ensures
            r@ == (FileBuilderView { filebacked, ..old(self)@ }),
            final(self)@ == final(r)@,
    {
        self.filebacked = filebacked;
        self
    }

    pub fn increment(&mut self, increment: u32) -> (r: &mut Self)
        ensures
            r@ == (FileBuilderView { increment, ..old(self)@ }),
            final(self)@ == final(r)@,
    {
        self.increment = increment;
        self
    }

    fn make_fapl(&self) -> (r: Result<FaplDriver, Error>)
        ensures
            match (r, spec_driver(self@)) {
                (Ok(a), Ok(b)) => a == b,
                (Err(Error::Internal(m)), Err(t)) => m@ == t,
                _ => false,
            },
    {
        if same(&self.driver, "sec2") {
            Ok(FaplDriver::Sec2)
        } else if same(&self.driver, "stdio") {
            Ok(FaplDriver::Stdio)
        } else if same(&self.driver, "core") {
            Ok(FaplDriver::Core { increment: self.increment, filebacked: self.filebacked })
        } else {
            let mut s = string_of("Invalid file driver: ");
            push_str(&mut s, self.driver.as_str());
            Err(Error::Internal(s))
        }
    }

    fn open_file(&self, write: bool) -> (r: Result<FileAction, Error>)
        ensures
            match (r, spec_open_file(self@, write)) {
                (Ok(a), Ok(b)) => a == b,
                (Err(Error::Internal(m)), Err(t)) => m@ == t,
                _ => false,
            },
    {
        if self.userblock != 0 {
            return Err(Error::Internal(string_of("Cannot specify userblock when opening a file")));
        }
        let d = self.make_fapl()?;
        Ok(FileAction::Open { flags: if write { ACC_RDWR } else { ACC_RDONLY }, driver: d })
    }

    fn create_file(&self, exclusive: bool) -> (r: Result<FileAction, Error>)
        ensures
            match (r, spec_create_file(self@, exclusive)) {
                (Ok(a), Ok(b)) => a == b,
                (Err(Error::Internal(m)), Err(t)) => m@ == t,
                _ => false,
            },
    {
        let d = self.make_fapl()?;
        Ok(FileAction::Create { flags: if exclusive { ACC_EXCL } else { ACC_TRUNC }, userblock: self.userblock, driver: d })
    }

    /// What the library is asked to do to open or create `filename` with
    /// these settings.
    pub fn open(&self, filename: &str) -> (r: Result<OpenRequest, Error>)
        ensures
            request_matches(r, filename@, spec_open(self@)),
    {
        let action = if same(&self.mode, "r") {
            self.open_file(false)
        } else if same(&self.mode, "r+") {
            self.open_file(true)
        } else if same(&self.mode, "w") {
            self.create_file(false)
        } else if same(&self.mode, "w-") || same(&self.mode, "x") {
            self.create_file(true)
        } else if same(&self.mode, "a") {
            match self.open_file(true) {
                Ok(_) => match self.make_fapl() {
                    Ok(d) => Ok(FileAction::OpenOrCreate { driver: d, userblock: self.userblock }),
                    Err(e) => Err(e),
                },
                Err(_) => self.create_file(true),
            }
        } else {
            Err(Error::Internal(string_of("Invalid file access mode, expected r|r+|w|w-|x|a")))
        };
        match action {
            Ok(a) => Ok(OpenRequest { filename: string_of(filename), action: a }),
            Err(e) => Err(e),
        }
    }
}

/// An open file, with what reading its access and creation property lists
/// gave.
pub struct File {
    fapl: Result<FileAccess, Error>,
    fcpl: Result<FileCreate, Error>,
}

impl File {
    /// The open file whose property lists read as given.
    pub fn new(fapl: Result<FileAccess, Error>, fcpl: Result<FileCreate, Error>) -> (r: Self)
        ensures
            r.spec_fapl() == fapl,
            r.spec_fcpl() == fcpl,
    {
        File { fapl, fcpl }
    }

    pub closed spec fn spec_fapl(&self) -> Result<FileAccess, Error> {
        self.fapl
    }

    pub closed spec fn spec_fcpl(&self) -> Result<FileCreate, Error> {
        self.fcpl
    }

    /// The file access property list.
    pub fn fapl(&self) -> (r: Result<&FileAccess, Error>)
        ensures
            match (r, self.spec_fapl()) {
                (Ok(a), Ok(b)) => *a == b,
                (Err(e), Err(g)) => e@ == g@,
                _ => false,
            },
    {
        match &self.fapl {
            Ok(pl) => Ok(pl),
            Err(e) => Err(e.duplicate()),
        }
    }

    /// The file creation property list.
    pub fn fcpl(&self) -> (r: Result<&FileCreate, Error>)
        ensures
            match (r, self.spec_fcpl()) {
                (Ok(a), Ok(b)) => *a == b,
                (Err(e), Err(g)) => e@ == g@,
                _ => false,
            },
    {
        match &self.fcpl {
            Ok(pl) => Ok(pl),
            Err(e) => Err(e.duplicate()),
        }
    }

    /// What the library is asked to do to open `filename` in the given mode
    /// with the default settings.
    pub fn open(filename: &str, mode: &str) -> (r: Result<OpenRequest, Error>)
        ensures
            request_matches(r, filename@, spec_open(FileBuilderView {
                driver: "sec2"@,
                mode: mode@,
                userblock: 0,
                filebacked: false,
                increment: 67108864,
            })),
    {
        let mut b = FileBuilder::new();
        b.mode(mode);
        b.open(filename)
    }

    /// Whether a file opened with the intent the library reports (the default
    /// intent when it cannot tell) is read-only.
    pub fn is_read_only(intent: Result<u32, Error>) -> (r: bool)
        ensures
            r == (match intent {
                Ok(i) => i,
                Err(_) => ACC_DEFAULT,
            } != ACC_RDWR),
    {
        let i = match intent {
            Ok(i) => i,
            Err(_) => ACC_DEFAULT,
        };
        i != ACC_RDWR
    }

    /// The identifiers of the objects open in a file, from what the library
    /// listed (nothing when the listing failed), without the file's own
    /// identifier `own_id`.
    pub fn get_obj_ids(own_id: i64, listed: Result<Vec<i64>, Error>) -> (r: Vec<i64>)
        ensures
            r@ == match listed {
                Ok(v) => ids_without(v@, own_id, v@.len()),
                Err(_) => Seq::<i64>::empty(),
            },
    {
        let mut out: Vec<i64> = Vec::new();
        match listed {
            Ok(v) => {
                let mut i: usize = 0;
                while i < v.len()
                    invariant
                        i <= v@.len(),
                        out@ == ids_without(v@, own_id, i as nat),
                    decreases v@.len() - i,
                {
                    if v[i] != own_id {
                        out.push(v[i]);
                    }
                    i = i + 1;
                }
                out
            },
            Err(_) => out,
        }
    }
}

/// The first `n` identifiers, in order, without `id`.
pub open spec fn ids_without(ids: Seq<i64>, id: i64, n: nat) -> Seq<i64>
    decreases n,
{
    if n == 0 {
        Seq::empty()
    } else if ids[n - 1] == id {
        ids_without(ids, id, (n - 1) as nat)
    } else {
        ids_without(ids, id, (n - 1) as nat).push(ids[n - 1])
    }
}

} // verus!
