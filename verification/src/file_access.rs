//! File access properties: file drivers and their settings, the checks on a
//! multi-file layout, and the properties as read from a property list.

use vstd::prelude::*;
use crate::error::{Error, ErrorView};
use crate::text::{dec_nat, push_str, push_usize, string_of};

verus! {

/// Settings of the in-memory (core) driver.
#[derive(Clone, Copy, Debug, PartialEq, Eq)]
pub struct CoreDriver {
    pub increment: usize,
    pub filebacked: bool,
    pub write_tracking: usize,
}

impl Default for CoreDriver {
    fn default() -> (r: Self)
        ensures
            r == (CoreDriver { increment: 1048576, filebacked: false, write_tracking: 0 }),
    {
        CoreDriver { increment: 1048576, filebacked: false, write_tracking: 0 }
    }
}

/// Settings of the family driver.
#[derive(Clone, Copy, Debug, PartialEq, Eq)]
pub struct FamilyDriver {
    pub member_size: usize,
}

impl Default for FamilyDriver {
    fn default() -> (r: Self)
        ensures
            r == (FamilyDriver { member_size: 0 }),
    {
        FamilyDriver { member_size: 0 }
    }
}

/// One member file of the multi driver: its name pattern and start address.
#[derive(Clone, Debug, PartialEq, Eq)]
pub struct MultiFile {
    pub name: String,
    pub addr: u64,
}

impl MultiFile {
    pub fn new(name: &str, addr: u64) -> (r: Self)
        ensures
            r.name@ == name@,
            r.addr == addr,
    {
        MultiFile { name: string_of(name), addr }
    }
}

/// Which member file holds each kind of data: super block, B-tree, raw
/// data, global heap, local heap and object headers.
#[derive(Clone, Copy, Debug, PartialEq, Eq)]
pub struct MultiLayout {
    pub mem_super: u8,
    pub mem_btree: u8,
    pub mem_draw: u8,
    pub mem_gheap: u8,
    pub mem_lheap: u8,
    pub mem_object: u8,
}

impl Default for MultiLayout {
    fn default() -> (r: Self)
        ensures
            r == (MultiLayout { mem_super: 0, mem_btree: 1, mem_draw: 2, mem_gheap: 3, mem_lheap: 4, mem_object: 5 }),
    {
        MultiLayout { mem_super: 0, mem_btree: 1, mem_draw: 2, mem_gheap: 3, mem_lheap: 4, mem_object: 5 }
    }
}

/// The member file of the `index`-th kind of data.
pub open spec fn layout_at(l: MultiLayout, index: int) -> u8 {
    if index == 0 {
        l.mem_super
    } else if index == 1 {
        l.mem_btree
    } else if index == 2 {
        l.mem_draw
    } else if index == 3 {
        l.mem_gheap
    } else if index == 4 {
        l.mem_lheap
    } else {
        l.mem_object
    }
}

/// The layout with the member file of the `index`-th kind replaced.
pub open spec fn layout_with(l: MultiLayout, index: int, v: u8) -> MultiLayout {
    if index == 0 {
        MultiLayout { mem_super: v, ..l }
    } else if index == 1 {
        MultiLayout { mem_btree: v, ..l }
    } else if index == 2 {
        MultiLayout { mem_draw: v, ..l }
    } else if index == 3 {
        MultiLayout { mem_gheap: v, ..l }
    } else if index == 4 {
        MultiLayout { mem_lheap: v, ..l }
    } else {
        MultiLayout { mem_object: v, ..l }
    }
}

impl MultiLayout {
    /// The member file of the `index`-th kind of data.
    pub fn get(&self, index: usize) -> (r: u8)
        requires
            index < 6,
        ensures
            r == layout_at(*self, index as int),
    {
        match index {
            0 => self.mem_super,
            1 => self.mem_btree,
            2 => self.mem_draw,
            3 => self.mem_gheap,
            4 => self.mem_lheap,
            _ => self.mem_object,
        }
    }

    /// Sets the member file of the `index`-th kind of data.
    pub fn set(&mut self, index: usize, v: u8)
        requires
            index < 6,
        ensures
            *final(self) == layout_with(*old(self), index as int, v),
    {
        match index {
            0 => self.mem_super = v,
            1 => self.mem_btree = v,
            2 => self.mem_draw = v,
            3 => self.mem_gheap = v,
            4 => self.mem_lheap = v,
            _ => self.mem_object = v,
        }
    }
}

/// Settings of the multi driver: member files, which file holds which kind
/// of data, and whether missing members are tolerated.
#[derive(Clone, Debug, PartialEq, Eq)]
pub struct MultiDriver {
    pub files: Vec<MultiFile>,
    pub layout: MultiLayout,
    pub relax: bool,
}

impl Default for MultiDriver {
    fn default() -> (r: Self)
        ensures
            r.files@.len() == 6,
            r.files@[0].name@ == "%s-s.h5"@ && r.files@[0].addr == 0,
            r.files@[1].name@ == "%s-b.h5"@ && r.files@[1].addr == u64::MAX / 6,
            r.files@[2].name@ == "%s-r.h5"@ && r.files@[2].addr == 2 * (u64::MAX / 6),
            r.files@[3].name@ == "%s-g.h5"@ && r.files@[3].addr == 3 * (u64::MAX / 6),
            r.files@[4].name@ == "%s-l.h5"@ && r.files@[4].addr == 4 * (u64::MAX / 6),
            r.files@[5].name@ == "%s-o.h5"@ && r.files@[5].addr == 5 * (u64::MAX / 6),
            r.layout == (MultiLayout { mem_super: 0, mem_btree: 1, mem_draw: 2, mem_gheap: 3, mem_lheap: 4, mem_object: 5 }),
            !r.relax,
    {
        let m: u64 = u64::MAX / 6;
        let mut files: Vec<MultiFile> = Vec::new();
        files.push(MultiFile::new("%s-s.h5", 0));
        files.push(MultiFile::new("%s-b.h5", m));
        files.push(MultiFile::new("%s-r.h5", 2 * m));
        files.push(MultiFile::new("%s-g.h5", 3 * m));
        files.push(MultiFile::new("%s-l.h5", 4 * m));
        files.push(MultiFile::new("%s-o.h5", 5 * m));
        MultiDriver { files, layout: MultiLayout::default(), relax: false }
    }
}

/// The first kind of data, among the first `k`, whose member file index is
/// not below `n`.
pub open spec fn first_bad_layout(l: MultiLayout, n: nat, k: nat) -> Option<u8>
    decreases k,
{
    if k == 0 {
        None
    } else {
        match first_bad_layout(l, n, (k - 1) as nat) {
            Some(j) => Some(j),
            None => if layout_at(l, k - 1) >= n {
                Some(layout_at(l, k - 1))
            } else {
                None
            },
        }
    }
}

/// Some kind of data among the first `k` is held in member file `f`.
pub open spec fn file_used_by(l: MultiLayout, f: int, k: int) -> bool {
    exists|i: int| 0 <= i < k && #[trigger] layout_at(l, i) == f
}

/// Every one of the `n` member files holds some kind of data.
pub open spec fn all_files_used(l: MultiLayout, n: nat) -> bool {
    forall|f: int| 0 <= f < n ==> #[trigger] file_used_by(l, f, 6)
}

/// What checking a multi-driver setup with `n` member files gives.
pub open spec fn spec_multi_validate(n: nat, l: MultiLayout) -> Result<(), Seq<char>> {
    if n == 0 || n > 6 {
        Err("invalid number of multi files: "@ + dec_nat(n) + " (expected 1-6)"@)
    } else if first_bad_layout(l, n, 6) is Some {
        Err("invalid multi layout index: "@ + dec_nat(first_bad_layout(l, n, 6)->Some_0 as nat) + " (expected 0-"@
            + dec_nat((n - 1) as nat) + ")"@)
    } else if !all_files_used(l, n) {
        Err("invalid multi layout: some files are unused"@)
    } else {
        Ok(())
    }
}

/// A result carrying no value agrees with an abstract outcome.
pub open spec fn unit_result_matches(r: Result<(), Error>, s: Result<(), Seq<char>>) -> bool {
    match (r, s) {
        (Ok(_), Ok(_)) => true,
        (Err(Error::Internal(m)), Err(t)) => m@ == t,
        _ => false,
    }
}

impl MultiDriver {
    /// Checks that there are one to six member files, that the layout names
    /// only existing files, and that every file is used.
    pub fn validate(&self) -> (r: Result<(), Error>)
        ensures
            unit_result_matches(r, spec_multi_validate(self.files@.len(), self.layout)),
    {
        let n = self.files.len();
        if n == 0 || n > 6 {
            let mut s = string_of("invalid number of multi files: ");
            push_usize(&mut s, n);
            push_str(&mut s, " (expected 1-6)");
            return Err(Error::Internal(s));
        }
        let mut used: Vec<bool> = Vec::new();
        let mut k: usize = 0;
        while k < n
            invariant
                k <= n,
                used@.len() == k,
                forall|f: int| 0 <= f < k ==> !used@[f],
            decreases n - k,
        {
            used.push(false);
            k = k + 1;
        }
        let mut i: usize = 0;
        while i < 6
            invariant
                1 <= n <= 6,
                n == self.files@.len(),
                i <= 6,
                used@.len() == n,
                first_bad_layout(self.layout, n as nat, i as nat) is None,
                forall|f: int| 0 <= f < n ==> (used@[f] <==> #[trigger] file_used_by(self.layout, f, i as int)),
            decreases 6 - i,
        {
            let j = self.layout.get(i) as usize;
            if j >= n {
                let mut s = string_of("invalid multi layout index: ");
                push_usize(&mut s, j);
                push_str(&mut s, " (expected 0-");
                push_usize(&mut s, n - 1);
                push_str(&mut s, ")");
                proof {
                    assert(first_bad_layout(self.layout, n as nat, (i + 1) as nat) == Some(j as u8));
                    lemma_first_bad_stays(self.layout, n as nat, (i + 1) as nat, 6);
                }
                return Err(Error::Internal(s));
            }
            let ghost before = used@;
            used.set(j, true);
            proof {
                assert forall|f: int| 0 <= f < n implies (used@[f] <==> #[trigger] file_used_by(self.layout, f, i + 1)) by {
                    if used@[f] && f != j {
                        assert(before[f]);
                        assert(file_used_by(self.layout, f, i as int));
                        let t = choose|t: int| 0 <= t < i && #[trigger] layout_at(self.layout, t) == f;
                        assert(layout_at(self.layout, t) == f);
                    }
                    if f == j {
                        assert(layout_at(self.layout, i as int) == f);
                    }
                    if file_used_by(self.layout, f, i + 1) {
                        let t = choose|t: int| 0 <= t < i + 1 && #[trigger] layout_at(self.layout, t) == f;
                        if t < i {
                            assert(file_used_by(self.layout, f, i as int));
                            assert(before[f]);
                        }
                    }
                }
            }
            i = i + 1;
        }
        let mut f: usize = 0;
        while f < n
            invariant
                1 <= n <= 6,
                n == self.files@.len(),
                used@.len() == n,
                f <= n,
                first_bad_layout(self.layout, n as nat, 6) is None,
                forall|g: int| 0 <= g < n ==> (used@[g] <==> #[trigger] file_used_by(self.layout, g, 6)),
                forall|g: int| 0 <= g < f ==> used@[g],
            decreases n - f,
        {
            if !used[f] {
                assert(!file_used_by(self.layout, f as int, 6));
                assert(!all_files_used(self.layout, n as nat));
                return Err(Error::Internal(string_of("invalid multi layout: some files are unused")));
            }
            f = f + 1;
        }
        assert(all_files_used(self.layout, n as nat));
        Ok(())
    }
}

proof fn lemma_first_bad_stays(l: MultiLayout, n: nat, k: nat, m: nat)
    requires
        k <= m,
        first_bad_layout(l, n, k) is Some,
    ensures
        first_bad_layout(l, n, m) == first_bad_layout(l, n, k),
    decreases m - k,
{
    if k < m {
        lemma_first_bad_stays(l, n, k, (m - 1) as nat);
    }
}

/// Number of kinds of data the library tells the multi driver about, the
/// default kind included.
pub const MEM_NTYPES: usize = 7;

/// What reading a multi-driver setup gathered so far: which member file
/// each kind of data was mapped to (0 for none yet, else `0xff` less the
/// file's index), the member files found, and the layout.
pub struct MultiScan {
    pub mapping: Seq<u8>,
    pub files: Seq<(Seq<char>, u64)>,
    pub layout: MultiLayout,
}

/// Reading the first `t` kinds of data (after the default one) of a
/// multi-driver setup the library reports: for each kind, the kind whose
/// member it shares (`map`), and that member's name and address. A kind
/// seen for the first time adds a member file. An index out of range stops
/// the reading with that index.
pub open spec fn multi_scan(map: Seq<i32>, names: Seq<Seq<char>>, addrs: Seq<u64>, t: nat) -> Result<MultiScan, usize>
    decreases t,
{
    if t == 0 {
        Ok(MultiScan { mapping: Seq::new(MEM_NTYPES as nat, |k: int| 0u8), files: Seq::empty(), layout: MultiLayout::default_spec() })
    } else {
        match multi_scan(map, names, addrs, (t - 1) as nat) {
            Err(j) => Err(j),
            Ok(s) => {
                let i = t as int;
                let j = map[i] as usize;
                if j >= MEM_NTYPES {
                    Err(j)
                } else {
                    let fresh = s.mapping[j as int] == 0;
                    let mapping = if fresh { s.mapping.update(j as int, (0xff - s.files.len()) as u8) } else { s.mapping };
                    let files = if fresh { s.files.push((names[i], addrs[i])) } else { s.files };
                    Ok(MultiScan { mapping, files, layout: layout_with(s.layout, t - 1, (0xff - mapping[j as int]) as u8) })
                }
            },
        }
    }
}

impl MultiLayout {
    /// The default layout: each kind of data in its own file.
    pub open spec fn default_spec() -> MultiLayout {
        MultiLayout { mem_super: 0, mem_btree: 1, mem_draw: 2, mem_gheap: 3, mem_lheap: 4, mem_object: 5 }
    }
}

proof fn lemma_multi_scan_bounds(map: Seq<i32>, names: Seq<Seq<char>>, addrs: Seq<u64>, t: nat)
    ensures
        multi_scan(map, names, addrs, t) matches Ok(s) ==> s.files.len() <= t && s.mapping.len() == MEM_NTYPES,
    decreases t,
{
    if t > 0 {
        lemma_multi_scan_bounds(map, names, addrs, (t - 1) as nat);
    }
}

impl MultiDriver {
    /// The multi-driver setup the library reports: for each kind of data
    /// (the default kind first), the kind whose member file it uses, and the
    /// name and address of that member; `relax` tells whether missing
    /// members are tolerated. The setup is checked as [`MultiDriver::validate`]
    /// does.
    pub fn from_raw(map: &[i32], names: &[String], addrs: &[u64], relax: bool) -> (r: Result<Self, Error>)
        requires
            map@.len() == MEM_NTYPES,
            names@.len() == MEM_NTYPES,
            addrs@.len() == MEM_NTYPES,
        ensures
            match multi_scan(map@, names@.map_values(|n: String| n@), addrs@, 6) {
                Err(j) => r matches Err(Error::Internal(m)) && m@ == "member map index out of bounds: "@ + dec_nat(j as nat)
                    + " (expected 0-6)"@,
                Ok(s) => match spec_multi_validate(s.files.len(), s.layout) {
                    Err(t) => r matches Err(Error::Internal(m)) && m@ == t,
                    Ok(_) => r matches Ok(d) && d.layout == s.layout && d.relax == relax && d.files@.len() == s.files.len()
                        && forall|k: int| 0 <= k < s.files.len() ==> (#[trigger] d.files@[k]).name@ == s.files[k].0
                            && d.files@[k].addr == s.files[k].1,
                },
            },
    {
        let ghost nm = names@.map_values(|n: String| n@);
        let mut mapping: Vec<u8> = vec![0u8, 0u8, 0u8, 0u8, 0u8, 0u8, 0u8];
        let mut layout = MultiLayout::default();
        let mut files: Vec<MultiFile> = Vec::new();
        let mut i: usize = 1;
        proof {
            assert(mapping@ =~= Seq::new(MEM_NTYPES as nat, |k: int| 0u8));
        }
        while i < MEM_NTYPES
            invariant
                1 <= i <= MEM_NTYPES,
                map@.len() == MEM_NTYPES,
                names@.len() == MEM_NTYPES,
                addrs@.len() == MEM_NTYPES,
                nm == names@.map_values(|n: String| n@),
                multi_scan(map@, nm, addrs@, (i - 1) as nat) matches Ok(s) && s.mapping == mapping@ && s.layout == layout
                    && s.files.len() == files@.len()
                    && forall|k: int| 0 <= k < files@.len() ==> (#[trigger] files@[k]).name@ == s.files[k].0
                        && files@[k].addr == s.files[k].1,
            decreases MEM_NTYPES - i,
        {
            proof {
                lemma_multi_scan_bounds(map@, nm, addrs@, (i - 1) as nat);
            }
            let ghost prev = multi_scan(map@, nm, addrs@, (i - 1) as nat)->Ok_0;
            let j = map[i] as usize;
            if j >= MEM_NTYPES {
                let mut s = string_of("member map index out of bounds: ");
                push_usize(&mut s, j);
                push_str(&mut s, " (expected 0-6)");
                proof {
                    assert(multi_scan(map@, nm, addrs@, i as nat) == Err::<MultiScan, usize>(j));
                    lemma_multi_scan_err_stays(map@, nm, addrs@, i as nat, 6);
                }
                return Err(Error::Internal(s));
            }
            if mapping[j] == 0 {
                let k = files.len();
                mapping.set(j, (0xff - k) as u8);
                files.push(MultiFile::new(names[i].as_str(), addrs[i]));
            }
            let v: u8 = 0xff - mapping[j];
            layout.set(i - 1, v);
            proof {
                let cur = multi_scan(map@, nm, addrs@, i as nat);
                assert(nm[i as int] == names@[i as int]@);
                assert(cur matches Ok(s) && s.mapping == mapping@ && s.layout == layout && s.files.len() == files@.len());
            }
            i = i + 1;
        }
        let drv = MultiDriver { files, layout, relax };
        match drv.validate() {
            Ok(()) => Ok(drv),
            Err(e) => Err(e),
        }
    }
}

proof fn lemma_multi_scan_err_stays(map: Seq<i32>, names: Seq<Seq<char>>, addrs: Seq<u64>, t: nat, m: nat)
    requires
        t <= m,
        multi_scan(map, names, addrs, t) is Err,
    ensures
        multi_scan(map, names, addrs, m) == multi_scan(map, names, addrs, t),
    decreases m - t,
{
    if t < m {
        lemma_multi_scan_err_stays(map, names, addrs, t, (m - 1) as nat);
    }
}

/// Settings of the split driver: the extensions of the metadata file and of
/// the raw data file.
#[derive(Clone, Debug, PartialEq, Eq)]
pub struct SplitDriver {
    pub meta_ext: String,
    pub raw_ext: String,
}

impl Default for SplitDriver {
    fn default() -> (r: Self)
        ensures
            r.meta_ext@ == ".meta"@,
            r.raw_ext@ == ".raw"@,
    {
        SplitDriver { meta_ext: string_of(".meta"), raw_ext: string_of(".raw") }
    }
}

/// The layout of a multi-driver setup that is a split: metadata in the first
/// file, raw data and global heap in the second.
pub open spec fn split_layout() -> MultiLayout {
    MultiLayout { mem_super: 0, mem_btree: 0, mem_draw: 1, mem_gheap: 1, mem_lheap: 0, mem_object: 0 }
}

/// A name pattern that starts with `%s`.
pub open spec fn starts_with_pattern(s: Seq<char>) -> bool {
    s.len() >= 2 && s[0] == '%' && s[1] == 's'
}

/// A multi-driver setup that the split driver makes.
pub open spec fn is_split(d: MultiDriver) -> bool {
    &&& d.relax
    &&& d.layout == split_layout()
    &&& d.files@.len() == 2
    &&& d.files@[0].addr == 0
    &&& d.files@[1].addr == u64::MAX / 2
    &&& starts_with_pattern(d.files@[0].name@)
    &&& starts_with_pattern(d.files@[1].name@)
}

fn starts_with_pattern_exec(s: &str) -> (r: bool)
    ensures
        r == starts_with_pattern(s@),
{
    let n = s.unicode_len();
    n >= 2 && s.get_char(0) == '%' && s.get_char(1) == 's'
}

impl SplitDriver {
    /// The split driver a multi-driver setup stands for, if it is one; the
    /// extensions are the member names without their leading `%s`.
    pub fn from_multi(drv: &MultiDriver) -> (r: Option<Self>)
        ensures
            is_split(*drv) ==> (r matches Some(s) && s.meta_ext@ == drv.files@[0].name@.skip(2)
                && s.raw_ext@ == drv.files@[1].name@.skip(2)),
            !is_split(*drv) ==> r is None,
    {
        let layout = MultiLayout { mem_super: 0, mem_btree: 0, mem_draw: 1, mem_gheap: 1, mem_lheap: 0, mem_object: 0 };
        let same_layout = drv.layout.mem_super == layout.mem_super && drv.layout.mem_btree == layout.mem_btree
            && drv.layout.mem_draw == layout.mem_draw && drv.layout.mem_gheap == layout.mem_gheap
            && drv.layout.mem_lheap == layout.mem_lheap && drv.layout.mem_object == layout.mem_object;
        let split = drv.relax && same_layout && drv.files.len() == 2 && drv.files[0].addr == 0
            && drv.files[1].addr == u64::MAX / 2 && starts_with_pattern_exec(drv.files[0].name.as_str())
            && starts_with_pattern_exec(drv.files[1].name.as_str());
        if split {
            let m = drv.files[0].name.as_str();
            let r = drv.files[1].name.as_str();
            let meta = m.substring_char(2, m.unicode_len());
            let raw = r.substring_char(2, r.unicode_len());
            Some(SplitDriver { meta_ext: string_of(meta), raw_ext: string_of(raw) })
        } else {
            None
        }
    }
}

/// Log driver flag: truncations.
pub const LOG_TRUNCATE: u64 = 0x1;
/// Log driver flags: where reads, writes and seeks occur.
pub const LOG_LOC_IO: u64 = 0xe;
/// Log driver flags: every kind of logging.
pub const LOG_ALL: u64 = 0xfffff;

/// What the log driver records, as a set of flag bits.
#[derive(Clone, Copy, Debug, PartialEq, Eq)]
pub struct LogFlags {
    bits: u64,
}

/// The log flags with the given bits.
pub closed spec fn log_flags_of_bits(bits: u64) -> LogFlags {
    LogFlags { bits }
}

impl LogFlags {
    /// The flag bits of the set.
    pub closed spec fn spec_bits(self) -> u64 {
        self.bits
    }

    /// The flag bits.
    pub fn bits(self) -> (r: u64)
        ensures
            r == self.spec_bits(),
    {
        self.bits
    }

    /// The set of the known flags among `bits`; other bits are dropped.
    pub fn from_bits_truncate(bits: u64) -> (r: Self)
        ensures
            r == log_flags_of_bits(bits & LOG_ALL),
    {
        LogFlags { bits: bits & LOG_ALL }
    }

    /// Whether every flag of `other` is set.
    pub fn contains(self, other: Self) -> (r: bool)
        ensures
            r == (self.spec_bits() & other.spec_bits() == other.spec_bits()),
    {
        self.bits & other.bits == other.bits
    }
}

/// The flags made of some bits have those bits.
pub proof fn log_flags_bits_of(bits: u64)
    ensures
        log_flags_of_bits(bits).spec_bits() == bits,
{
}

/// Settings of the log driver: the log file (standard error when none), what
/// is logged, and the size of the logging buffer.
#[derive(Clone, Debug, PartialEq, Eq)]
pub struct LogOptions {
    logfile: Option<String>,
    flags: LogFlags,
    buf_size: usize,
}

impl LogOptions {
    /// The log settings with the given file, flags and buffer size.
    pub fn new(logfile: Option<&str>, flags: LogFlags, buf_size: usize) -> (r: Self)
        ensures
            match (r.logfile(), logfile) {
                (Some(a), Some(b)) => a == b@,
                (None, None) => true,
                _ => false,
            },
            r.flags() == flags,
            r.buf_size() == buf_size,
    {
        let logfile = match logfile {
            Some(f) => Some(string_of(f)),
            None => None,
        };
        LogOptions { logfile, flags, buf_size }
    }

    pub closed spec fn logfile(&self) -> Option<Seq<char>> {
        match self.logfile {
            Some(f) => Some(f@),
            None => None,
        }
    }

    pub closed spec fn flags(&self) -> LogFlags {
        self.flags
    }

    pub closed spec fn buf_size(&self) -> usize {
        self.buf_size
    }

    pub fn get_flags(&self) -> (r: LogFlags)
        ensures
            r == self.flags(),
    {
        self.flags
    }

    pub fn get_buf_size(&self) -> (r: usize)
        ensures
            r == self.buf_size(),
    {
        self.buf_size
    }
}

impl Default for LogOptions {
    /// Logging of where reads, writes and seeks occur, to standard error,
    /// without a buffer.
    fn default() -> (r: Self)
        ensures
            r.logfile() is None,
            r.flags() == log_flags_of_bits(LOG_LOC_IO),
            r.buf_size() == 0,
    {
        LogOptions { logfile: None, flags: LogFlags { bits: LOG_LOC_IO }, buf_size: 0 }
    }
}

/// Settings of the direct I/O driver.
#[derive(Clone, Copy, Debug, PartialEq, Eq)]
pub struct DirectDriver {
    pub alignment: usize,
    pub block_size: usize,
    pub cbuf_size: usize,
}

impl Default for DirectDriver {
    fn default() -> (r: Self)
        ensures
            r == (DirectDriver { alignment: 4096, block_size: 4096, cbuf_size: 16777216 }),
    {
        DirectDriver { alignment: 4096, block_size: 4096, cbuf_size: 16 * 1024 * 1024 }
    }
}

/// How the metadata cache grows.
#[derive(Clone, Copy, Debug, PartialEq, Eq)]
pub enum CacheIncreaseMode {
    Off,
    Threshold,
}

/// The increase mode a code stands for; any code but 1 stands for off.
pub open spec fn spec_incr_mode_of(code: i32) -> CacheIncreaseMode {
    if code == 1 { CacheIncreaseMode::Threshold } else { CacheIncreaseMode::Off }
}

/// The code of an increase mode.
pub open spec fn spec_incr_mode_code(m: CacheIncreaseMode) -> i32 {
    match m {
        CacheIncreaseMode::Off => 0,
        CacheIncreaseMode::Threshold => 1,
    }
}

impl CacheIncreaseMode {
    pub fn from_raw(code: i32) -> (r: Self)
        ensures
            r == spec_incr_mode_of(code),
    {
        if code == 1 { CacheIncreaseMode::Threshold } else { CacheIncreaseMode::Off }
    }

    pub fn to_raw(self) -> (r: i32)
        ensures
            r == spec_incr_mode_code(self),
    {
        match self {
            CacheIncreaseMode::Off => 0,
            CacheIncreaseMode::Threshold => 1,
        }
    }
}

/// An increase mode reads back as itself from its code.
pub proof fn incr_mode_roundtrip(m: CacheIncreaseMode)
    ensures
        spec_incr_mode_of(spec_incr_mode_code(m)) == m,
{
}

/// How the metadata cache grows on a flash of new entries.
#[derive(Clone, Copy, Debug, PartialEq, Eq)]
pub enum FlashIncreaseMode {
    Off,
    AddSpace,
}

/// The flash increase mode a code stands for; any code but 1 stands for
/// off.
pub open spec fn spec_flash_mode_of(code: i32) -> FlashIncreaseMode {
    if code == 1 { FlashIncreaseMode::AddSpace } else { FlashIncreaseMode::Off }
}

/// The code of a flash increase mode.
pub open spec fn spec_flash_mode_code(m: FlashIncreaseMode) -> i32 {
    match m {
        FlashIncreaseMode::Off => 0,
        FlashIncreaseMode::AddSpace => 1,
    }
}

impl FlashIncreaseMode {
    pub fn from_raw(code: i32) -> (r: Self)
        ensures
            r == spec_flash_mode_of(code),
    {
        if code == 1 { FlashIncreaseMode::AddSpace } else { FlashIncreaseMode::Off }
    }

    pub fn to_raw(self) -> (r: i32)
        ensures
            r == spec_flash_mode_code(self),
    {
        match self {
            FlashIncreaseMode::Off => 0,
            FlashIncreaseMode::AddSpace => 1,
        }
    }
}

/// A flash increase mode reads back as itself from its code.
pub proof fn flash_mode_roundtrip(m: FlashIncreaseMode)
    ensures
        spec_flash_mode_of(spec_flash_mode_code(m)) == m,
{
}

/// How the metadata cache shrinks.
#[derive(Clone, Copy, Debug, PartialEq, Eq)]
pub enum CacheDecreaseMode {
    Off,
    Threshold,
    AgeOut,
    AgeOutWithThreshold,
}

/// The decrease mode a code stands for; an unknown code stands for off.
pub open spec fn spec_decr_mode_of(code: i32) -> CacheDecreaseMode {
    if code == 1 {
        CacheDecreaseMode::Threshold
    } else if code == 2 {
        CacheDecreaseMode::AgeOut
    } else if code == 3 {
        CacheDecreaseMode::AgeOutWithThreshold
    } else {
        CacheDecreaseMode::Off
    }
}

/// The code of a decrease mode.
pub open spec fn spec_decr_mode_code(m: CacheDecreaseMode) -> i32 {
    match m {
        CacheDecreaseMode::Off => 0,
        CacheDecreaseMode::Threshold => 1,
        CacheDecreaseMode::AgeOut => 2,
        CacheDecreaseMode::AgeOutWithThreshold => 3,
    }
}

impl CacheDecreaseMode {
    pub fn from_raw(code: i32) -> (r: Self)
        ensures
            r == spec_decr_mode_of(code),
    {
        if code == 1 {
            CacheDecreaseMode::Threshold
        } else if code == 2 {
            CacheDecreaseMode::AgeOut
        } else if code == 3 {
            CacheDecreaseMode::AgeOutWithThreshold
        } else {
            CacheDecreaseMode::Off
        }
    }

    pub fn to_raw(self) -> (r: i32)
        ensures
            r == spec_decr_mode_code(self),
    {
        match self {
            CacheDecreaseMode::Off => 0,
            CacheDecreaseMode::Threshold => 1,
            CacheDecreaseMode::AgeOut => 2,
            CacheDecreaseMode::AgeOutWithThreshold => 3,
        }
    }
}

/// A decrease mode reads back as itself from its code.
pub proof fn decr_mode_roundtrip(m: CacheDecreaseMode)
    ensures
        spec_decr_mode_of(spec_decr_mode_code(m)) == m,
{
}

/// Which processes write metadata in parallel access.
#[derive(Clone, Copy, Debug, PartialEq, Eq)]
pub enum MetadataWriteStrategy {
    ProcessZeroOnly,
    Distributed,
}

impl Default for MetadataWriteStrategy {
    fn default() -> (r: Self)
        ensures
            r == MetadataWriteStrategy::Distributed,
    {
        MetadataWriteStrategy::Distributed
    }
}

/// The strategy a code stands for; any code but 1 stands for process zero
/// alone.
pub open spec fn spec_write_strategy_of(code: i32) -> MetadataWriteStrategy {
    if code == 1 { MetadataWriteStrategy::Distributed } else { MetadataWriteStrategy::ProcessZeroOnly }
}

/// The code of a strategy.
pub open spec fn spec_write_strategy_code(m: MetadataWriteStrategy) -> i32 {
    match m {
        MetadataWriteStrategy::ProcessZeroOnly => 0,
        MetadataWriteStrategy::Distributed => 1,
    }
}

impl MetadataWriteStrategy {
    pub fn from_raw(code: i32) -> (r: Self)
        ensures
            r == spec_write_strategy_of(code),
    {
        if code == 1 { MetadataWriteStrategy::Distributed } else { MetadataWriteStrategy::ProcessZeroOnly }
    }

    pub fn to_raw(self) -> (r: i32)
        ensures
            r == spec_write_strategy_code(self),
    {
        match self {
            MetadataWriteStrategy::ProcessZeroOnly => 0,
            MetadataWriteStrategy::Distributed => 1,
        }
    }
}

/// A strategy reads back as itself from its code.
pub proof fn write_strategy_roundtrip(m: MetadataWriteStrategy)
    ensures
        spec_write_strategy_of(spec_write_strategy_code(m)) == m,
{
}

/// The file driver of a file access property list.
#[derive(Clone, Debug)]
pub enum FileDriver {
    Sec2,
    Stdio,
    Log,
    Core(CoreDriver),
    Family(FamilyDriver),
    Multi(MultiDriver),
    Split(SplitDriver),
}

impl CoreDriver {
    /// The core-driver settings the library reports: the increment, whether
    /// the file is backed on disk, and whether writes are tracked and with
    /// which page size (no tracking reads as a page size of 0).
    pub fn from_raw(increment: usize, filebacked: u8, tracking: u8, page_size: usize) -> (r: Self)
        ensures
            r == (CoreDriver { increment, filebacked: filebacked > 0, write_tracking: if tracking > 0 { page_size } else { 0 } }),
    {
        CoreDriver { increment, filebacked: filebacked > 0, write_tracking: if tracking > 0 { page_size } else { 0 } }
    }
}

impl FamilyDriver {
    /// The family-driver settings the library reports.
    pub fn from_raw(member_size: u64) -> (r: Self)
        ensures
            r == (FamilyDriver { member_size: member_size as usize }),
    {
        FamilyDriver { member_size: member_size as usize }
    }
}

/// The kinds of file driver the library names.
#[derive(Clone, Copy, Debug, PartialEq, Eq)]
pub enum DriverKind {
    Sec2,
    Stdio,
    Log,
    Core,
    Family,
    Multi,
}

/// The identifiers the library gives its file drivers.
#[derive(Clone, Copy, Debug, PartialEq, Eq)]
pub struct DriverIds {
    pub sec2: i64,
    pub stdio: i64,
    pub log: i64,
    pub core: i64,
    pub family: i64,
    pub multi: i64,
}

/// The kind of driver an identifier names, tried in the order sec2, stdio,
/// log, core, family, multi; or the message for an unknown one.
pub open spec fn spec_driver_kind(id: i64, ids: DriverIds) -> Result<DriverKind, Seq<char>> {
    if id == ids.sec2 {
        Ok(DriverKind::Sec2)
    } else if id == ids.stdio {
        Ok(DriverKind::Stdio)
    } else if id == ids.log {
        Ok(DriverKind::Log)
    } else if id == ids.core {
        Ok(DriverKind::Core)
    } else if id == ids.family {
        Ok(DriverKind::Family)
    } else if id == ids.multi {
        Ok(DriverKind::Multi)
    } else {
        Err("unknown or unsupported file driver (id: "@ + crate::text::dec_int(id as int) + ")"@)
    }
}

/// The kind of driver that identifier `id` names.
pub fn driver_kind(id: i64, ids: &DriverIds) -> (r: Result<DriverKind, Error>)
    ensures
        match (r, spec_driver_kind(id, *ids)) {
            (Ok(a), Ok(b)) => a == b,
            (Err(e), Err(m)) => e@ == ErrorView::Internal(m),
            _ => false,
        },
{
    if id == ids.sec2 {
        Ok(DriverKind::Sec2)
    } else if id == ids.stdio {
        Ok(DriverKind::Stdio)
    } else if id == ids.log {
        Ok(DriverKind::Log)
    } else if id == ids.core {
        Ok(DriverKind::Core)
    } else if id == ids.family {
        Ok(DriverKind::Family)
    } else if id == ids.multi {
        Ok(DriverKind::Multi)
    } else {
        let mut s = string_of("unknown or unsupported file driver (id: ");
        crate::text::push_i64(&mut s, id);
        push_str(&mut s, ")");
        Err(Error::Internal(s))
    }
}

impl FileDriver {
    /// The driver a multi-driver setup stands for: the split driver when it
    /// is one, else the multi driver itself.
    pub fn from_multi(d: MultiDriver) -> (r: Self)
        ensures
            is_split(d) ==> (r matches FileDriver::Split(s) && s.meta_ext@ == d.files@[0].name@.skip(2)
                && s.raw_ext@ == d.files@[1].name@.skip(2)),
            !is_split(d) ==> (r matches FileDriver::Multi(m) && m == d),
    {
        match SplitDriver::from_multi(&d) {
            Some(s) => FileDriver::Split(s),
            None => FileDriver::Multi(d),
        }
    }
}

/// How a file is closed while objects in it are open.
#[derive(Clone, Copy, Debug, PartialEq, Eq)]
pub enum FileCloseDegree {
    Default,
    Weak,
    Semi,
    Strong,
}

impl Default for FileCloseDegree {
    fn default() -> (r: Self)
        ensures
            r == FileCloseDegree::Default,
    {
        FileCloseDegree::Default
    }
}

/// The close degree that the library's code stands for.
pub open spec fn spec_close_degree_of(code: i32) -> FileCloseDegree {
    if code == 1 {
        FileCloseDegree::Weak
    } else if code == 2 {
        FileCloseDegree::Semi
    } else if code == 3 {
        FileCloseDegree::Strong
    } else {
        FileCloseDegree::Default
    }
}

/// The library's code of a close degree.
pub open spec fn spec_close_degree_code(d: FileCloseDegree) -> i32 {
    match d {
        FileCloseDegree::Weak => 1,
        FileCloseDegree::Semi => 2,
        FileCloseDegree::Strong => 3,
        FileCloseDegree::Default => 0,
    }
}

impl FileCloseDegree {
    pub fn from_raw(code: i32) -> (r: Self)
        ensures
            r == spec_close_degree_of(code),
    {
        if code == 1 {
            FileCloseDegree::Weak
        } else if code == 2 {
            FileCloseDegree::Semi
        } else if code == 3 {
            FileCloseDegree::Strong
        } else {
            FileCloseDegree::Default
        }
    }

    pub fn to_raw(self) -> (r: i32)
        ensures
            r == spec_close_degree_code(self),
    {
        match self {
            FileCloseDegree::Weak => 1,
            FileCloseDegree::Semi => 2,
            FileCloseDegree::Strong => 3,
            FileCloseDegree::Default => 0,
        }
    }
}

/// A close degree read back from its code is the same degree.
pub proof fn close_degree_roundtrip(d: FileCloseDegree)
    ensures
        spec_close_degree_of(spec_close_degree_code(d)) == d,
{
}

/// Alignment of file objects: objects of at least `threshold` bytes start at
/// multiples of `alignment`.
#[derive(Clone, Copy, Debug, PartialEq, Eq)]
pub struct Alignment {
    pub threshold: u64,
    pub alignment: u64,
}

impl Default for Alignment {
    fn default() -> (r: Self)
        ensures
            r == (Alignment { threshold: 1, alignment: 1 }),
    {
        Alignment { threshold: 1, alignment: 1 }
    }
}

/// Page buffer settings.
#[derive(Clone, Copy, Debug, PartialEq, Eq)]
pub struct PageBufferSize {
    pub buf_size: usize,
    pub min_meta_perc: u32,
    pub min_raw_perc: u32,
}

impl Default for PageBufferSize {
    fn default() -> (r: Self)
        ensures
            r == (PageBufferSize { buf_size: 0, min_meta_perc: 0, min_raw_perc: 0 }),
    {
        PageBufferSize { buf_size: 0, min_meta_perc: 0, min_raw_perc: 0 }
    }
}

/// Metadata cache image settings.
#[derive(Clone, Copy, Debug, PartialEq, Eq)]
pub struct CacheImageConfig {
    pub generate_image: bool,
    pub save_resize_status: bool,
    pub entry_ageout: i32,
}

impl Default for CacheImageConfig {
    fn default() -> (r: Self)
        ensures
            r == (CacheImageConfig { generate_image: false, save_resize_status: false, entry_ageout: -1i32 }),
    {
        CacheImageConfig { generate_image: false, save_resize_status: false, entry_ageout: -1 }
    }
}

/// Metadata cache logging settings.
#[derive(Clone, Debug, PartialEq, Eq)]
pub struct CacheLogOptions {
    pub is_enabled: bool,
    pub location: String,
    pub start_on_access: bool,
}

impl Default for CacheLogOptions {
    fn default() -> (r: Self)
        ensures
            !r.is_enabled && r.location@ == Seq::<char>::empty() && !r.start_on_access,
    {
        CacheLogOptions { is_enabled: false, location: String::new(), start_on_access: false }
    }
}

/// Versions of the file format.
#[derive(Clone, Copy, Debug, PartialEq, Eq)]
pub enum LibraryVersion {
    Earliest,
    V18,
    V110,
}

impl LibraryVersion {
    pub fn is_earliest(self) -> (r: bool)
        ensures
            r == (self == LibraryVersion::Earliest),
    {
        match self {
            LibraryVersion::Earliest => true,
            _ => false,
        }
    }

    /// The latest version of the file format.
    pub fn latest() -> (r: Self)
        ensures
            r == LibraryVersion::V110,
    {
        LibraryVersion::V110
    }

    /// The version that the library's code stands for.
    pub fn from_raw(code: i32) -> (r: Self)
        ensures
            r == (if code == 1 { LibraryVersion::V18 } else if code == 2 { LibraryVersion::V110 } else { LibraryVersion::Earliest }),
    {
        if code == 1 {
            LibraryVersion::V18
        } else if code == 2 {
            LibraryVersion::V110
        } else {
            LibraryVersion::Earliest
        }
    }

    /// The library's code of the version.
    pub fn to_raw(self) -> (r: i32)
        ensures
            r == match self {
                LibraryVersion::Earliest => 0i32,
                LibraryVersion::V18 => 1i32,
                LibraryVersion::V110 => 2i32,
            },
    {
        match self {
            LibraryVersion::Earliest => 0,
            LibraryVersion::V18 => 1,
            LibraryVersion::V110 => 2,
        }
    }
}

/// The range of file format versions used for new objects.
#[derive(Clone, Copy, Debug, PartialEq, Eq)]
pub struct LibVerBounds {
    pub low: LibraryVersion,
    pub high: LibraryVersion,
}

impl Default for LibVerBounds {
    fn default() -> (r: Self)
        ensures
            r == (LibVerBounds { low: LibraryVersion::Earliest, high: LibraryVersion::V110 }),
    {
        LibVerBounds { low: LibraryVersion::Earliest, high: LibraryVersion::latest() }
    }
}

/// What reading the properties of a file access property list gave: each
/// read's result, as the library returned it.
pub struct FileAccessReads {
    pub fclose_degree: Result<i32, Error>,
    pub alignment: Result<(u64, u64), Error>,
    pub elink_file_cache_size: Result<u32, Error>,
    pub meta_block_size: Result<u64, Error>,
    pub page_buffer_size: Result<(usize, u32, u32), Error>,
    pub sieve_buf_size: Result<usize, Error>,
    pub evict_on_close: Result<u8, Error>,
    pub metadata_read_attempts: Result<u32, Error>,
    pub mdc_image_config: Result<(u8, u8, i32), Error>,
    pub mdc_log_options: Result<(u8, String, u8), Error>,
    pub all_coll_metadata_ops: Result<u8, Error>,
    pub coll_metadata_write: Result<u8, Error>,
    pub gc_references: Result<u32, Error>,
    pub small_data_block_size: Result<u64, Error>,
    pub libver_bounds: Result<(i32, i32), Error>,
}

/// File access property list, as read from the library.
pub struct FileAccess {
    reads: FileAccessReads,
}

/// A read and the value it stands for agree: the same error, or the value.
pub open spec fn read_agrees<T, U>(r: Result<T, Error>, raw: Result<U, Error>, f: spec_fn(U) -> T) -> bool {
    match (r, raw) {
        (Ok(a), Ok(b)) => a == f(b),
        (Err(e), Err(g)) => e@ == g@,
        _ => false,
    }
}

/// The value a read stands for, or `default` when the read failed.
pub open spec fn read_or<T, U>(raw: Result<U, Error>, f: spec_fn(U) -> T, default: T) -> T {
    match raw {
        Ok(b) => f(b),
        Err(_) => default,
    }
}

/// The version bounds that the library's codes stand for.
pub open spec fn spec_bounds_of(v: (i32, i32)) -> LibVerBounds {
    LibVerBounds {
        low: if v.0 == 1 { LibraryVersion::V18 } else if v.0 == 2 { LibraryVersion::V110 } else { LibraryVersion::Earliest },
        high: if v.1 == 1 { LibraryVersion::V18 } else if v.1 == 2 { LibraryVersion::V110 } else { LibraryVersion::Earliest },
    }
}

impl FileAccess {
    /// The property list whose properties read as `reads`.
    pub fn new(reads: FileAccessReads) -> (r: Self)
        ensures
            r.reads() == reads,
    {
        FileAccess { reads }
    }

    /// What reading the properties gave.
    pub closed spec fn reads(&self) -> FileAccessReads {
        self.reads
    }

    pub fn get_fclose_degree(&self) -> (r: Result<FileCloseDegree, Error>)
        ensures
            read_agrees(r, self.reads().fclose_degree, |c: i32| spec_close_degree_of(c)),
    {
        match &self.reads.fclose_degree {
            Ok(c) => Ok(FileCloseDegree::from_raw(*c)),
            Err(e) => Err(e.duplicate()),
        }
    }

    /// How the file is closed; the default degree when it cannot be read.
    pub fn fclose_degree(&self) -> (r: FileCloseDegree)
        ensures
            r == read_or(self.reads().fclose_degree, |c: i32| spec_close_degree_of(c), FileCloseDegree::Default),
    {
        match self.get_fclose_degree() {
            Ok(v) => v,
            Err(_) => FileCloseDegree::default(),
        }
    }

    pub fn get_alignment(&self) -> (r: Result<Alignment, Error>)
        ensures
            read_agrees(r, self.reads().alignment, |v: (u64, u64)| Alignment { threshold: v.0, alignment: v.1 }),
    {
        match &self.reads.alignment {
            Ok(v) => Ok(Alignment { threshold: v.0, alignment: v.1 }),
            Err(e) => Err(e.duplicate()),
        }
    }

    /// The alignment settings; threshold and alignment 1 when they cannot be
    /// read.
    pub fn alignment(&self) -> (r: Alignment)
        ensures
            r == read_or(
                self.reads().alignment,
                |v: (u64, u64)| Alignment { threshold: v.0, alignment: v.1 },
                Alignment { threshold: 1, alignment: 1 },
            ),
    {
        match self.get_alignment() {
            Ok(v) => v,
            Err(_) => Alignment::default(),
        }
    }

    pub fn get_elink_file_cache_size(&self) -> (r: Result<u32, Error>)
        ensures
            read_agrees(r, self.reads().elink_file_cache_size, |v: u32| v),
    {
        match &self.reads.elink_file_cache_size {
            Ok(v) => Ok(*v),
            Err(e) => Err(e.duplicate()),
        }
    }

    /// The external link file cache size; 0 when it cannot be read.
    pub fn elink_file_cache_size(&self) -> (r: u32)
        ensures
            r == read_or(self.reads().elink_file_cache_size, |v: u32| v, 0u32),
    {
        match self.get_elink_file_cache_size() {
            Ok(v) => v,
            Err(_) => 0,
        }
    }

    pub fn get_meta_block_size(&self) -> (r: Result<u64, Error>)
        ensures
            read_agrees(r, self.reads().meta_block_size, |v: u64| v),
    {
        match &self.reads.meta_block_size {
            Ok(v) => Ok(*v),
            Err(e) => Err(e.duplicate()),
        }
    }

    /// The metadata block size; 2048 when it cannot be read.
    pub fn meta_block_size(&self) -> (r: u64)
        ensures
            r == read_or(self.reads().meta_block_size, |v: u64| v, 2048u64),
    {
        match self.get_meta_block_size() {
            Ok(v) => v,
            Err(_) => 2048,
        }
    }

    pub fn get_page_buffer_size(&self) -> (r: Result<PageBufferSize, Error>)
        ensures
            read_agrees(r, self.reads().page_buffer_size, |v: (usize, u32, u32)| PageBufferSize {
                buf_size: v.0,
                min_meta_perc: v.1,
                min_raw_perc: v.2,
            }),
    {
        match &self.reads.page_buffer_size {
            Ok(v) => Ok(PageBufferSize { buf_size: v.0, min_meta_perc: v.1, min_raw_perc: v.2 }),
            Err(e) => Err(e.duplicate()),
        }
    }

    /// The page buffer settings; zero when they cannot be read.
    pub fn page_buffer_size(&self) -> (r: PageBufferSize)
        ensures
            r == read_or(
                self.reads().page_buffer_size,
                |v: (usize, u32, u32)| PageBufferSize { buf_size: v.0, min_meta_perc: v.1, min_raw_perc: v.2 },
                PageBufferSize { buf_size: 0, min_meta_perc: 0, min_raw_perc: 0 },
            ),
    {
        match self.get_page_buffer_size() {
            Ok(v) => v,
            Err(_) => PageBufferSize::default(),
        }
    }

    pub fn get_sieve_buf_size(&self) -> (r: Result<usize, Error>)
        ensures
            read_agrees(r, self.reads().sieve_buf_size, |v: usize| v),
    {
        match &self.reads.sieve_buf_size {
            Ok(v) => Ok(*v),
            Err(e) => Err(e.duplicate()),
        }
    }

    /// The data sieve buffer size; 64 KiB when it cannot be read.
    pub fn sieve_buf_size(&self) -> (r: usize)
        ensures
            r == read_or(self.reads().sieve_buf_size, |v: usize| v, 65536usize),
    {
        match self.get_sieve_buf_size() {
            Ok(v) => v,
            Err(_) => 65536,
        }
    }

    pub fn get_evict_on_close(&self) -> (r: Result<bool, Error>)
        ensures
            read_agrees(r, self.reads().evict_on_close, |v: u8| v > 0),
    {
        match &self.reads.evict_on_close {
            Ok(v) => Ok(*v > 0),
            Err(e) => Err(e.duplicate()),
        }
    }

    /// Whether objects are evicted from the cache when closed; false when it
    /// cannot be read.
    pub fn evict_on_close(&self) -> (r: bool)
        ensures
            r == read_or(self.reads().evict_on_close, |v: u8| v > 0, false),
    {
        match self.get_evict_on_close() {
            Ok(v) => v,
            Err(_) => false,
        }
    }

    pub fn get_metadata_read_attempts(&self) -> (r: Result<u32, Error>)
        ensures
            read_agrees(r, self.reads().metadata_read_attempts, |v: u32| v),
    {
        match &self.reads.metadata_read_attempts {
            Ok(v) => Ok(*v),
            Err(e) => Err(e.duplicate()),
        }
    }

    /// The number of metadata read attempts; 1 when it cannot be read.
    pub fn metadata_read_attempts(&self) -> (r: u32)
        ensures
            r == read_or(self.reads().metadata_read_attempts, |v: u32| v, 1u32),
    {
        match self.get_metadata_read_attempts() {
            Ok(v) => v,
            Err(_) => 1,
        }
    }

    pub fn get_mdc_image_config(&self) -> (r: Result<CacheImageConfig, Error>)
        ensures
            read_agrees(r, self.reads().mdc_image_config, |v: (u8, u8, i32)| CacheImageConfig {
                generate_image: v.0 > 0,
                save_resize_status: v.1 > 0,
                entry_ageout: v.2,
            }),
    {
        match &self.reads.mdc_image_config {
            Ok(v) => Ok(CacheImageConfig { generate_image: v.0 > 0, save_resize_status: v.1 > 0, entry_ageout: v.2 }),
            Err(e) => Err(e.duplicate()),
        }
    }

    /// The metadata cache image settings; the defaults when they cannot be
    /// read.
    pub fn mdc_image_config(&self) -> (r: CacheImageConfig)
        ensures
            r == read_or(
                self.reads().mdc_image_config,
                |v: (u8, u8, i32)| CacheImageConfig { generate_image: v.0 > 0, save_resize_status: v.1 > 0, entry_ageout: v.2 },
                CacheImageConfig { generate_image: false, save_resize_status: false, entry_ageout: -1i32 },
            ),
    {
        match self.get_mdc_image_config() {
            Ok(v) => v,
            Err(_) => CacheImageConfig::default(),
        }
    }

    pub fn get_mdc_log_options(&self) -> (r: Result<CacheLogOptions, Error>)
        ensures
            match (r, self.reads().mdc_log_options) {
                (Ok(a), Ok(b)) => a.is_enabled == (b.0 > 0) && a.location@ == b.1@ && a.start_on_access == (b.2 > 0),
                (Err(e), Err(g)) => e@ == g@,
                _ => false,
            },
    {
        match &self.reads.mdc_log_options {
            Ok(v) => Ok(CacheLogOptions {
                is_enabled: v.0 > 0,
                location: string_of(v.1.as_str()),
                start_on_access: v.2 > 0,
            }),
            Err(e) => Err(e.duplicate()),
        }
    }

    /// The metadata cache logging settings; disabled, with no location, when
    /// they cannot be read.
    pub fn mdc_log_options(&self) -> (r: CacheLogOptions)
        ensures
            match self.reads().mdc_log_options {
                Ok(b) => r.is_enabled == (b.0 > 0) && r.location@ == b.1@ && r.start_on_access == (b.2 > 0),
                Err(_) => !r.is_enabled && r.location@ == Seq::<char>::empty() && !r.start_on_access,
            },
    {
        match self.get_mdc_log_options() {
            Ok(v) => v,
            Err(_) => CacheLogOptions::default(),
        }
    }

    pub fn get_all_coll_metadata_ops(&self) -> (r: Result<bool, Error>)
        ensures
            read_agrees(r, self.reads().all_coll_metadata_ops, |v: u8| v > 0),
    {
        match &self.reads.all_coll_metadata_ops {
            Ok(v) => Ok(*v > 0),
            Err(e) => Err(e.duplicate()),
        }
    }

    /// Whether metadata reads are collective; false when it cannot be read.
    pub fn all_coll_metadata_ops(&self) -> (r: bool)
        ensures
            r == read_or(self.reads().all_coll_metadata_ops, |v: u8| v > 0, false),
    {
        match self.get_all_coll_metadata_ops() {
            Ok(v) => v,
            Err(_) => false,
        }
    }

    pub fn get_coll_metadata_write(&self) -> (r: Result<bool, Error>)
        ensures
            read_agrees(r, self.reads().coll_metadata_write, |v: u8| v > 0),
    {
        match &self.reads.coll_metadata_write {
            Ok(v) => Ok(*v > 0),
            Err(e) => Err(e.duplicate()),
        }
    }

    /// Whether metadata writes are collective; false when it cannot be read.
    pub fn coll_metadata_write(&self) -> (r: bool)
        ensures
            r == read_or(self.reads().coll_metadata_write, |v: u8| v > 0, false),
    {
        match self.get_coll_metadata_write() {
            Ok(v) => v,
            Err(_) => false,
        }
    }

    pub fn get_gc_references(&self) -> (r: Result<bool, Error>)
        ensures
            read_agrees(r, self.reads().gc_references, |v: u32| v != 0),
    {
        match &self.reads.gc_references {
            Ok(v) => Ok(*v != 0),
            Err(e) => Err(e.duplicate()),
        }
    }

    /// Whether references are garbage collected; false when it cannot be
    /// read.
    pub fn gc_references(&self) -> (r: bool)
        ensures
            r == read_or(self.reads().gc_references, |v: u32| v != 0, false),
    {
        match self.get_gc_references() {
            Ok(v) => v,
            Err(_) => false,
        }
    }

    pub fn get_small_data_block_size(&self) -> (r: Result<u64, Error>)
        ensures
            read_agrees(r, self.reads().small_data_block_size, |v: u64| v),
    {
        match &self.reads.small_data_block_size {
            Ok(v) => Ok(*v),
            Err(e) => Err(e.duplicate()),
        }
    }

    /// The small raw data block size; 2048 when it cannot be read.
    pub fn small_data_block_size(&self) -> (r: u64)
        ensures
            r == read_or(self.reads().small_data_block_size, |v: u64| v, 2048u64),
    {
        match self.get_small_data_block_size() {
            Ok(v) => v,
            Err(_) => 2048,
        }
    }

    pub fn get_libver_bounds(&self) -> (r: Result<LibVerBounds, Error>)
        ensures
            read_agrees(r, self.reads().libver_bounds, |v: (i32, i32)| spec_bounds_of(v)),
    {
        match &self.reads.libver_bounds {
            Ok(v) => Ok(LibVerBounds { low: LibraryVersion::from_raw(v.0), high: LibraryVersion::from_raw(v.1) }),
            Err(e) => Err(e.duplicate()),
        }
    }

    /// The file format version bounds; earliest to latest when they cannot
    /// be read.
    pub fn libver_bounds(&self) -> (r: LibVerBounds)
        ensures
            r == read_or(
                self.reads().libver_bounds,
                |v: (i32, i32)| spec_bounds_of(v),
                LibVerBounds { low: LibraryVersion::Earliest, high: LibraryVersion::V110 },
            ),
    {
        match self.get_libver_bounds() {
            Ok(v) => v,
            Err(_) => LibVerBounds::default(),
        }
    }
}

/// The library's codes of the cache and close settings: increase modes off
/// 0, threshold 1; flash increase modes off 0, add space 1; decrease modes
/// off 0, threshold 1, age out 2, age out with threshold 3; metadata write
/// strategies process zero only 0, distributed 1; close degrees default 0,
/// weak 1, semi 2, strong 3. Reading a code gives the setting with that code,
/// and a code that names none reads as the first of each list.
pub proof fn access_codes_law(code: i32)
    ensures
        spec_incr_mode_code(CacheIncreaseMode::Off) == 0,
        spec_incr_mode_code(CacheIncreaseMode::Threshold) == 1,
        (spec_incr_mode_of(code) == CacheIncreaseMode::Threshold) <==> code == 1,
        spec_flash_mode_code(FlashIncreaseMode::Off) == 0,
        spec_flash_mode_code(FlashIncreaseMode::AddSpace) == 1,
        (spec_flash_mode_of(code) == FlashIncreaseMode::AddSpace) <==> code == 1,
        spec_decr_mode_code(CacheDecreaseMode::Off) == 0,
        spec_decr_mode_code(CacheDecreaseMode::Threshold) == 1,
        spec_decr_mode_code(CacheDecreaseMode::AgeOut) == 2,
        spec_decr_mode_code(CacheDecreaseMode::AgeOutWithThreshold) == 3,
        0 <= code <= 3 ==> spec_decr_mode_code(spec_decr_mode_of(code)) == code,
        !(0 <= code <= 3) ==> spec_decr_mode_of(code) == CacheDecreaseMode::Off,
        spec_write_strategy_code(MetadataWriteStrategy::ProcessZeroOnly) == 0,
        spec_write_strategy_code(MetadataWriteStrategy::Distributed) == 1,
        (spec_write_strategy_of(code) == MetadataWriteStrategy::Distributed) <==> code == 1,
        spec_close_degree_code(FileCloseDegree::Default) == 0,
        spec_close_degree_code(FileCloseDegree::Weak) == 1,
        spec_close_degree_code(FileCloseDegree::Semi) == 2,
        spec_close_degree_code(FileCloseDegree::Strong) == 3,
        0 <= code <= 3 ==> spec_close_degree_code(spec_close_degree_of(code)) == code,
        !(0 <= code <= 3) ==> spec_close_degree_of(code) == FileCloseDegree::Default,
{
}

} // verus!
