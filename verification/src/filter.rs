//! Single filters of a dataset's filter pipeline, built from and turned into
//! the identifier and client data the library stores for them.

use vstd::prelude::*;
use crate::error::{Error, res_matches};
use crate::filters::{
    FilterInfo, PipelineFilter, PipelineFilterView, FILTER_DEFLATE, FILTER_SHUFFLE,
    FILTER_FLETCHER32, FILTER_SZIP, FILTER_NBIT, FILTER_SCALEOFFSET, SZIP_EC_OPTION_MASK,
    SZIP_NN_OPTION_MASK, SZIP_MAX_PIXELS_PER_BLOCK, SO_INT, SO_FLOAT_DSCALE,
    FILTER_CONFIG_ENCODE_ENABLED, FILTER_CONFIG_DECODE_ENABLED,
};
use crate::text::{dec_int, dec_nat, push_str, push_i64, push_u64, string_of};

verus! {

/// Szip coding method.
#[derive(Clone, Copy, Debug, PartialEq, Eq)]
pub enum SZip {
    Entropy,
    NearestNeighbor,
}

/// Scale-offset mode.
#[derive(Clone, Copy, Debug, PartialEq, Eq)]
pub enum ScaleOffset {
    Integer,
    FloatDScale,
}

/// One filter of a pipeline.
#[derive(Clone, Debug, PartialEq, Eq)]
pub enum Filter {
    Deflate(u8),
    Shuffle,
    Fletcher32,
    SZip(SZip, u8),
    NBit,
    ScaleOffset(ScaleOffset, i8),
    User(i32, Vec<u32>),
}

/// Abstract value of a [`Filter`].
pub enum FilterView {
    Deflate(u8),
    Shuffle,
    Fletcher32,
    SZip(SZip, u8),
    NBit,
    ScaleOffset(ScaleOffset, i8),
    User(i32, Seq<u32>),
}

impl View for Filter {
    type V = FilterView;

    open spec fn view(&self) -> FilterView {
        match self {
            Filter::Deflate(l) => FilterView::Deflate(*l),
            Filter::Shuffle => FilterView::Shuffle,
            Filter::Fletcher32 => FilterView::Fletcher32,
            Filter::SZip(c, p) => FilterView::SZip(*c, *p),
            Filter::NBit => FilterView::NBit,
            Filter::ScaleOffset(m, o) => FilterView::ScaleOffset(*m, *o),
            Filter::User(id, cd) => FilterView::User(*id, cd@),
        }
    }
}

/// The identifier of a filter.
pub open spec fn spec_filter_id(f: FilterView) -> i32 {
    match f {
        FilterView::Deflate(_) => FILTER_DEFLATE,
        FilterView::Shuffle => FILTER_SHUFFLE,
        FilterView::Fletcher32 => FILTER_FLETCHER32,
        FilterView::SZip(_, _) => FILTER_SZIP,
        FilterView::NBit => FILTER_NBIT,
        FilterView::ScaleOffset(_, _) => FILTER_SCALEOFFSET,
        FilterView::User(id, _) => id,
    }
}

/// The client data with which a filter is put into a pipeline.
pub open spec fn spec_filter_cdata(f: FilterView) -> Seq<u32> {
    match f {
        FilterView::Deflate(level) => seq![level as u32],
        FilterView::SZip(coding, ppb) => seq![
            match coding {
                SZip::Entropy => SZIP_EC_OPTION_MASK,
                SZip::NearestNeighbor => SZIP_NN_OPTION_MASK,
            },
            ppb as u32,
        ],
        FilterView::ScaleOffset(mode, offset) => seq![
            match mode {
                ScaleOffset::Integer => SO_INT,
                ScaleOffset::FloatDScale => SO_FLOAT_DSCALE,
            },
            (offset as i32) as u32,
        ],
        FilterView::User(_, cd) => cd,
        _ => Seq::empty(),
    }
}

/// What `Filter::from_raw` gives for an identifier and its client data.
pub open spec fn spec_from_raw(id: i32, cd: Seq<u32>) -> Result<FilterView, Seq<char>> {
    if id <= 0 {
        Err("invalid filter id: "@ + dec_int(id as int))
    } else if id == FILTER_DEFLATE {
        if cd.len() != 1 {
            Err("expected length 1 cdata for deflate filter"@)
        } else if cd[0] > 9 {
            Err("invalid deflate level: "@ + dec_nat(cd[0] as nat))
        } else {
            Ok(FilterView::Deflate(cd[0] as u8))
        }
    } else if id == FILTER_SHUFFLE {
        if cd.len() != 0 {
            Err("expected length 0 cdata for shuffle filter"@)
        } else {
            Ok(FilterView::Shuffle)
        }
    } else if id == FILTER_FLETCHER32 {
        if cd.len() != 0 {
            Err("expected length 0 cdata for fletcher32 filter"@)
        } else {
            Ok(FilterView::Fletcher32)
        }
    } else if id == FILTER_SZIP {
        if cd.len() != 2 {
            Err("expected length 2 cdata for szip filter"@)
        } else if (cd[0] & SZIP_EC_OPTION_MASK != 0) == (cd[0] & SZIP_NN_OPTION_MASK != 0) {
            Err("invalid szip mask: "@ + dec_nat(cd[0] as nat) + ": expected EC or NN to be set"@)
        } else if cd[1] > SZIP_MAX_PIXELS_PER_BLOCK {
            Err("invalid pixels per block for szip filter: "@ + dec_nat(cd[1] as nat))
        } else {
            Ok(FilterView::SZip(
                if cd[0] & SZIP_EC_OPTION_MASK != 0 { SZip::Entropy } else { SZip::NearestNeighbor },
                cd[1] as u8,
            ))
        }
    } else if id == FILTER_NBIT {
        if cd.len() != 0 {
            Err("expected length 0 cdata for nbit filter"@)
        } else {
            Ok(FilterView::NBit)
        }
    } else if id == FILTER_SCALEOFFSET {
        if cd.len() != 2 {
            Err("expected length 2 cdata for scaleoffset filter"@)
        } else if cd[0] == SO_INT {
            Ok(FilterView::ScaleOffset(ScaleOffset::Integer, cd[1] as i8))
        } else if cd[0] == SO_FLOAT_DSCALE {
            Ok(FilterView::ScaleOffset(ScaleOffset::FloatDScale, cd[1] as i8))
        } else {
            Err("invalid scale type for scaleoffset filter: "@ + dec_nat(cd[0] as nat))
        }
    } else {
        Ok(FilterView::User(id, cd))
    }
}

/// What reading one pipeline entry gives: the filter it stands for, or, when
/// it cannot be read as such, a user filter with its identifier and data.
pub open spec fn spec_read_entry(e: PipelineFilterView) -> FilterView {
    match spec_from_raw(e.id, e.cd_values) {
        Ok(f) => f,
        Err(_) => FilterView::User(e.id, e.cd_values),
    }
}

/// What the library reports of a filter, from what asking whether it is
/// available gave (`avail`) and its configuration flags. A positive answer
/// gives the default (nothing enabled); otherwise the flags decide.
pub open spec fn spec_info_from(avail: Result<i32, Error>, flags: u32) -> FilterInfo {
    let positive = match avail {
        Ok(x) => x > 0,
        Err(_) => false,
    };
    if positive {
        FilterInfo { is_available: false, encode_enabled: false, decode_enabled: false }
    } else {
        FilterInfo {
            is_available: true,
            encode_enabled: flags & FILTER_CONFIG_ENCODE_ENABLED != 0,
            decode_enabled: flags & FILTER_CONFIG_DECODE_ENABLED != 0,
        }
    }
}

fn copy_cdata(cd: &[u32]) -> (r: Vec<u32>)
    ensures
        r@ == cd@,
{
    let mut v: Vec<u32> = Vec::new();
    let mut i: usize = 0;
    while i < cd.len()
        invariant
            i <= cd@.len(),
            v@ == cd@.take(i as int),
        decreases cd@.len() - i,
    {
        v.push(cd[i]);
        i = i + 1;
        assert(v@ =~= cd@.take(i as int));
    }
    assert(cd@.take(i as int) =~= cd@);
    v
}

fn msg_error(msg: &str) -> (r: Error)
    ensures
        r matches Error::Internal(m) && m@ == msg@,
{
    Error::Internal(string_of(msg))
}

fn msg_num_error(prefix: &str, n: u32) -> (r: Error)
    ensures
        r matches Error::Internal(m) && m@ == prefix@ + dec_nat(n as nat),
{
    let mut s = string_of(prefix);
    push_u64(&mut s, n as u64);
    Error::Internal(s)
}

impl Filter {
    /// The identifier of the filter.
    pub fn id(&self) -> (r: i32)
        ensures
            r == spec_filter_id(self@),
    {
        match self {
            Filter::Deflate(_) => FILTER_DEFLATE,
            Filter::Shuffle => FILTER_SHUFFLE,
            Filter::Fletcher32 => FILTER_FLETCHER32,
            Filter::SZip(_, _) => FILTER_SZIP,
            Filter::NBit => FILTER_NBIT,
            Filter::ScaleOffset(_, _) => FILTER_SCALEOFFSET,
            Filter::User(id, _) => *id,
        }
    }

    /// What the library reports of filter `filter_id`: `avail` is what asking
    /// whether it is available gave, `flags` its configuration flags. A positive
    /// answer gives the default report (every flag false), while a zero or
    /// negative answer, or a failed query, gives a filter reported available
    /// whose encode and decode flags come from `flags`.
    pub fn get_info(avail: Result<i32, Error>, flags: u32) -> (r: FilterInfo)
        ensures
            r == spec_info_from(avail, flags),
    {
        let positive = match avail {
            Ok(x) => x > 0,
            Err(_) => false,
        };
        if positive {
            return FilterInfo::default();
        }
        FilterInfo {
            is_available: true,
            encode_enabled: flags & FILTER_CONFIG_ENCODE_ENABLED != 0,
            decode_enabled: flags & FILTER_CONFIG_DECODE_ENABLED != 0,
        }
    }

    pub fn deflate(level: u8) -> (r: Self)
        ensures
            r@ == FilterView::Deflate(level),
    {
        Filter::Deflate(level)
    }

    pub fn shuffle() -> (r: Self)
        ensures
            r@ == FilterView::Shuffle,
    {
        Filter::Shuffle
    }

    pub fn fletcher32() -> (r: Self)
        ensures
            r@ == FilterView::Fletcher32,
    {
        Filter::Fletcher32
    }

    pub fn szip(coding: SZip, px_per_block: u8) -> (r: Self)
        ensures
            r@ == FilterView::SZip(coding, px_per_block),
    {
        Filter::SZip(coding, px_per_block)
    }

    pub fn nbit() -> (r: Self)
        ensures
            r@ == FilterView::NBit,
    {
        Filter::NBit
    }

    pub fn scale_offset(mode: ScaleOffset, factor: i8) -> (r: Self)
        ensures
            r@ == FilterView::ScaleOffset(mode, factor),
    {
        Filter::ScaleOffset(mode, factor)
    }

    pub fn user(id: i32, cdata: &[u32]) -> (r: Self)
        ensures
            r@ == FilterView::User(id, cdata@),
    {
        Filter::User(id, copy_cdata(cdata))
    }

    fn parse_deflate(cdata: &[u32]) -> (r: Result<Self, Error>)
        ensures
            res_matches(r, spec_from_raw(FILTER_DEFLATE, cdata@)),
    {
        if cdata.len() != 1 {
            return Err(msg_error("expected length 1 cdata for deflate filter"));
        }
        if cdata[0] > 9 {
            return Err(msg_num_error("invalid deflate level: ", cdata[0]));
        }
        Ok(Self::deflate(cdata[0] as u8))
    }

    fn parse_szip(cdata: &[u32]) -> (r: Result<Self, Error>)
        ensures
            res_matches(r, spec_from_raw(FILTER_SZIP, cdata@)),
    {
        if cdata.len() != 2 {
            return Err(msg_error("expected length 2 cdata for szip filter"));
        }
        let m = cdata[0];
        if (m & SZIP_EC_OPTION_MASK != 0) == (m & SZIP_NN_OPTION_MASK != 0) {
            let mut s = string_of("invalid szip mask: ");
            push_u64(&mut s, m as u64);
            push_str(&mut s, ": expected EC or NN to be set");
            return Err(Error::Internal(s));
        }
        let coding = if m & SZIP_EC_OPTION_MASK != 0 { SZip::Entropy } else { SZip::NearestNeighbor };
        let px_per_block = cdata[1];
        if px_per_block > SZIP_MAX_PIXELS_PER_BLOCK {
            return Err(msg_num_error("invalid pixels per block for szip filter: ", px_per_block));
        }
        Ok(Self::szip(coding, px_per_block as u8))
    }

    fn parse_scaleoffset(cdata: &[u32]) -> (r: Result<Self, Error>)
        ensures
            res_matches(r, spec_from_raw(FILTER_SCALEOFFSET, cdata@)),
    {
        if cdata.len() != 2 {
            return Err(msg_error("expected length 2 cdata for scaleoffset filter"));
        }
        let scale_type = cdata[0];
        let mode = if scale_type == SO_INT {
            ScaleOffset::Integer
        } else if scale_type == SO_FLOAT_DSCALE {
            ScaleOffset::FloatDScale
        } else {
            return Err(msg_num_error("invalid scale type for scaleoffset filter: ", cdata[0]));
        };
        Ok(Self::scale_offset(mode, cdata[1] as i8))
    }

    /// The filter that an identifier and its client data stand for.
    pub fn from_raw(filter_id: i32, cdata: &[u32]) -> (r: Result<Self, Error>)
        ensures
            res_matches(r, spec_from_raw(filter_id, cdata@)),
    {
        if filter_id <= 0 {
            let mut s = string_of("invalid filter id: ");
            push_i64(&mut s, filter_id as i64);
            return Err(Error::Internal(s));
        }
        if filter_id == FILTER_DEFLATE {
            Self::parse_deflate(cdata)
        } else if filter_id == FILTER_SHUFFLE {
            if cdata.len() != 0 {
                return Err(msg_error("expected length 0 cdata for shuffle filter"));
            }
            Ok(Self::shuffle())
        } else if filter_id == FILTER_FLETCHER32 {
            if cdata.len() != 0 {
                return Err(msg_error("expected length 0 cdata for fletcher32 filter"));
            }
            Ok(Self::fletcher32())
        } else if filter_id == FILTER_SZIP {
            Self::parse_szip(cdata)
        } else if filter_id == FILTER_NBIT {
            if cdata.len() != 0 {
                return Err(msg_error("expected length 0 cdata for nbit filter"));
            }
            Ok(Self::nbit())
        } else if filter_id == FILTER_SCALEOFFSET {
            Self::parse_scaleoffset(cdata)
        } else {
            Ok(Self::user(filter_id, cdata))
        }
    }

    /// The identifier and client data with which the filter is put into a
    /// pipeline.
    pub fn to_raw(&self) -> (r: PipelineFilter)
        ensures
            r.id == spec_filter_id(self@),
            r.cd_values@ == spec_filter_cdata(self@),
    {
        let cd_values: Vec<u32> = match self {
            Filter::Deflate(level) => vec![*level as u32],
            Filter::SZip(coding, px_per_block) => {
                let mask = match coding {
                    SZip::Entropy => SZIP_EC_OPTION_MASK,
                    SZip::NearestNeighbor => SZIP_NN_OPTION_MASK,
                };
                vec![mask, *px_per_block as u32]
            },
            Filter::ScaleOffset(mode, offset) => {
                let scale_type = match mode {
                    ScaleOffset::Integer => SO_INT,
                    ScaleOffset::FloatDScale => SO_FLOAT_DSCALE,
                };
                vec![scale_type, (*offset as i32) as u32]
            },
            Filter::User(_, cdata) => copy_cdata(cdata.as_slice()),
            _ => Vec::new(),
        };
        PipelineFilter { id: self.id(), cd_values }
    }

    /// The filters of a pipeline; an entry that cannot be read as a known
    /// filter is kept as a user filter.
    pub fn extract_pipeline(entries: &[PipelineFilter]) -> (r: Vec<Filter>)
        ensures
            r@.len() == entries@.len(),
            forall|i: int| 0 <= i < entries@.len() ==> (#[trigger] r@[i])@ == spec_read_entry(entries@[i]@),
    {
        let mut filters: Vec<Filter> = Vec::new();
        let mut i: usize = 0;
        while i < entries.len()
            invariant
                i <= entries@.len(),
                filters@.len() == i,
                forall|k: int| 0 <= k < i ==> (#[trigger] filters@[k])@ == spec_read_entry(entries@[k]@),
            decreases entries@.len() - i,
        {
            let e = &entries[i];
            let cdata = e.cd_values.as_slice();
            let flt = match Self::from_raw(e.id, cdata) {
                Ok(f) => f,
                Err(_) => Self::user(e.id, cdata),
            };
            filters.push(flt);
            i = i + 1;
        }
        filters
    }
}

/// A filter that reads back as itself: levels and block sizes within range,
/// and user filters with a positive identifier that no known filter has.
pub open spec fn filter_roundtrips(f: FilterView) -> bool {
    match f {
        FilterView::Deflate(level) => level <= 9,
        FilterView::SZip(_, ppb) => ppb <= 32,
        FilterView::User(id, _) => id > FILTER_SCALEOFFSET,
        _ => true,
    }
}

/// Reading back the identifier and client data with which a filter is put
/// into a pipeline gives the filter again, when its parameters are in range.
pub proof fn filter_raw_roundtrip(f: FilterView)
    requires
        filter_roundtrips(f),
    ensures
        spec_from_raw(spec_filter_id(f), spec_filter_cdata(f)) == Ok::<FilterView, Seq<char>>(f),
{
    assert(4u32 & 4u32 != 0u32) by (bit_vector);
    assert(4u32 & 32u32 == 0u32) by (bit_vector);
    assert(32u32 & 4u32 == 0u32) by (bit_vector);
    assert(32u32 & 32u32 != 0u32) by (bit_vector);
    match f {
        FilterView::ScaleOffset(mode, offset) => {
            assert(((offset as i32) as u32) as i8 == offset) by (bit_vector);
        },
        _ => {},
    }
}

/// The library's identifiers and client data of the filters: deflate 1 with
/// its level; shuffle 2, fletcher32 3 and n-bit 5 with none; szip 4 with the
/// entropy-coding mask 4 or the nearest-neighbour mask 32, then the pixels per
/// block; scale-offset 6 with the integer scale type 2 or the float
/// decimal-scale type 0, then the factor; a user filter with its own
/// identifier and data.
pub proof fn filter_codes_law(f: FilterView)
    ensures
        spec_filter_id(f) == match f {
            FilterView::Deflate(_) => 1i32,
            FilterView::Shuffle => 2i32,
            FilterView::Fletcher32 => 3i32,
            FilterView::SZip(_, _) => 4i32,
            FilterView::NBit => 5i32,
            FilterView::ScaleOffset(_, _) => 6i32,
            FilterView::User(id, _) => id,
        },
        f matches FilterView::Deflate(level) ==> spec_filter_cdata(f) == seq![level as u32],
        f matches FilterView::SZip(coding, ppb) ==> spec_filter_cdata(f)
            == seq![if coding == SZip::Entropy { 4u32 } else { 32u32 }, ppb as u32],
        f matches FilterView::ScaleOffset(mode, offset) ==> spec_filter_cdata(f)
            == seq![if mode == ScaleOffset::Integer { 2u32 } else { 0u32 }, (offset as i32) as u32],
        f matches FilterView::User(_, cd) ==> spec_filter_cdata(f) == cd,
        (f is Shuffle || f is Fletcher32 || f is NBit) ==> spec_filter_cdata(f) == Seq::<u32>::empty(),
{
}

} // verus!
