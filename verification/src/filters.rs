//! Filter settings of a dataset (compression, shuffling, checksums) and the
//! filter pipeline of a dataset creation property list that they stand for.

use vstd::prelude::*;
use crate::error::Error;
use crate::text::{dec_int, dec_nat, push_str, push_i64, push_u64, string_of};

verus! {

/// Filter identifier of gzip compression (`H5Z_FILTER_DEFLATE`).
pub const FILTER_DEFLATE: i32 = 1;
/// Filter identifier of byte shuffling (`H5Z_FILTER_SHUFFLE`).
pub const FILTER_SHUFFLE: i32 = 2;
/// Filter identifier of the fletcher32 checksum (`H5Z_FILTER_FLETCHER32`).
pub const FILTER_FLETCHER32: i32 = 3;
/// Filter identifier of szip compression (`H5Z_FILTER_SZIP`).
pub const FILTER_SZIP: i32 = 4;
/// Filter identifier of n-bit packing (`H5Z_FILTER_NBIT`).
pub const FILTER_NBIT: i32 = 5;
/// Filter identifier of scale-offset compression (`H5Z_FILTER_SCALEOFFSET`).
pub const FILTER_SCALEOFFSET: i32 = 6;

/// Szip option mask selecting entropy coding.
pub const SZIP_EC_OPTION_MASK: u32 = 4;
/// Szip option mask selecting nearest-neighbour coding.
pub const SZIP_NN_OPTION_MASK: u32 = 32;
/// Largest number of pixels per block szip accepts.
pub const SZIP_MAX_PIXELS_PER_BLOCK: u32 = 32;

/// Scale-offset scale type for floats with decimal scaling.
pub const SO_FLOAT_DSCALE: u32 = 0;
/// Scale-offset scale type for integers.
pub const SO_INT: u32 = 2;

/// Filter configuration flag: encoding is enabled.
pub const FILTER_CONFIG_ENCODE_ENABLED: u32 = 1;
/// Filter configuration flag: decoding is enabled.
pub const FILTER_CONFIG_DECODE_ENABLED: u32 = 2;

/// What the library reports of a filter: whether it is registered, and
/// whether it can encode and decode.
#[derive(Clone, Copy, Debug, PartialEq, Eq)]
pub struct FilterInfo {
    pub is_available: bool,
    pub encode_enabled: bool,
    pub decode_enabled: bool,
}

impl Default for FilterInfo {
    fn default() -> (r: Self)
        ensures
            r == (FilterInfo { is_available: false, encode_enabled: false, decode_enabled: false }),
    {
        FilterInfo { is_available: false, encode_enabled: false, decode_enabled: false }
    }
}

/// The class of the element type that filters are applied to, as far as
/// the choice of filter parameters depends on it.
#[derive(Clone, Copy, Debug, PartialEq, Eq)]
pub enum TypeClass {
    Integer,
    Float,
    Other,
}

/// One filter of a pipeline: its identifier and its client data values.
#[derive(Clone, Debug, PartialEq, Eq)]
pub struct PipelineFilter {
    pub id: i32,
    pub cd_values: Vec<u32>,
}

/// Abstract value of a [`PipelineFilter`].
pub struct PipelineFilterView {
    pub id: i32,
    pub cd_values: Seq<u32>,
}

impl View for PipelineFilter {
    type V = PipelineFilterView;

    open spec fn view(&self) -> PipelineFilterView {
        PipelineFilterView { id: self.id, cd_values: self.cd_values@ }
    }
}

/// Abstract value of [`Filters`].
pub struct FiltersView {
    pub gzip: Option<u8>,
    pub szip: Option<(bool, u8)>,
    pub shuffle: bool,
    pub fletcher32: bool,
    pub scale_offset: Option<u32>,
}

/// Filter and compression settings of a dataset.
#[derive(Clone, Copy, Debug, PartialEq, Eq)]
pub struct Filters {
    gzip: Option<u8>,
    szip: Option<(bool, u8)>,
    shuffle: bool,
    fletcher32: bool,
    scale_offset: Option<u32>,
}

impl View for Filters {
    type V = FiltersView;

    closed spec fn view(&self) -> FiltersView {
        FiltersView {
            gzip: self.gzip,
            szip: self.szip,
            shuffle: self.shuffle,
            fletcher32: self.fletcher32,
            scale_offset: self.scale_offset,
        }
    }
}

/// No filter at all.
pub open spec fn no_filters() -> FiltersView {
    FiltersView { gzip: None, szip: None, shuffle: false, fletcher32: false, scale_offset: None }
}

impl Default for Filters {
    fn default() -> (r: Self)
        ensures
            r@ == no_filters(),
    {
        Filters { gzip: None, szip: None, shuffle: false, fletcher32: false, scale_offset: None }
    }
}

/// Some filter is on, so the dataset has to be chunked.
pub open spec fn spec_has_filters(f: FiltersView) -> bool {
    f.gzip is Some || f.szip is Some || f.shuffle || f.fletcher32 || f.scale_offset is Some
}

/// What `validate` gives.
pub open spec fn spec_validate(f: FiltersView) -> Result<(), Seq<char>> {
    if f.gzip is Some && f.szip is Some {
        Err("Cannot specify two compression options at once."@)
    } else if f.gzip matches Some(level) && level > 9 {
        Err("Invalid level for gzip compression, expected 0-9 integer."@)
    } else if f.szip matches Some((_, ppb)) && !(ppb <= 32 && ppb % 2 == 0) {
        Err("Invalid pixels per block for szip compression, expected even 0-32 integer."@)
    } else if f.scale_offset matches Some(o) && o > i32::MAX {
        Err("Scale-offset factor too large, maximum is 2147483647."@)
    } else if f.scale_offset is Some && f.fletcher32 {
        Err("Cannot use lossy scale-offset filter with fletcher32."@)
    } else {
        Ok(())
    }
}

/// A result carrying no value agrees with an abstract outcome.
pub open spec fn unit_matches(r: Result<(), Error>, s: Result<(), Seq<char>>) -> bool {
    match (r, s) {
        (Ok(_), Ok(_)) => true,
        (Err(Error::Internal(m)), Err(t)) => m@ == t,
        _ => false,
    }
}

fn internal(msg: &str) -> (r: Error)
    ensures
        r matches Error::Internal(m) && m@ == msg@,
{
    Error::Internal(string_of(msg))
}

impl Filters {
    pub fn new() -> (r: Self)
        ensures
            r@ == no_filters(),
    {
        Filters::default()
    }

    /// Enables gzip compression with the given level (0 to 9).
    pub fn gzip(&mut self, level: u8) -> (r: &mut Self)
        ensures
            r@ == (FiltersView { gzip: Some(level), ..old(self)@ }),
            final(self)@ == final(r)@,
    {
        self.gzip = Some(level);
        self
    }

    /// Disables gzip compression.
    pub fn no_gzip(&mut self) -> (r: &mut Self)
        ensures
            r@ == (FiltersView { gzip: None, ..old(self)@ }),
            final(self)@ == final(r)@,
    {
        self.gzip = None;
        self
    }

    pub fn get_gzip(&self) -> (r: Option<u8>)
        ensures
            r == self@.gzip,
    {
        self.gzip
    }

    /// Enables szip compression: nearest-neighbour coding when `nn` holds,
    /// entropy coding otherwise, with `level` pixels per block.
    pub fn szip(&mut self, nn: bool, level: u8) -> (r: &mut Self)
        ensures
            r@ == (FiltersView { szip: Some((nn, level)), ..old(self)@ }),
            final(self)@ == final(r)@,
    {
        self.szip = Some((nn, level));
        self
    }

    /// Disables szip compression.
    pub fn no_szip(&mut self) -> (r: &mut Self)
        ensures
            r@ == (FiltersView { szip: None, ..old(self)@ }),
            final(self)@ == final(r)@,
    {
        self.szip = None;
        self
    }

    pub fn get_szip(&self) -> (r: Option<(bool, u8)>)
        ensures
            r == self@.szip,
    {
        self.szip
    }

    /// Turns the shuffle filter on or off.
    pub fn shuffle(&mut self, shuffle: bool) -> (r: &mut Self)
        ensures
            r@ == (FiltersView { shuffle, ..old(self)@ }),
            final(self)@ == final(r)@,
    {
        self.shuffle = shuffle;
        self
    }

    pub fn get_shuffle(&self) -> (r: bool)
        ensures
            r == self@.shuffle,
    {
        self.shuffle
    }

    /// Turns the fletcher32 checksum on or off.
    pub fn fletcher32(&mut self, fletcher32: bool) -> (r: &mut Self)
        ensures
            r@ == (FiltersView { fletcher32, ..old(self)@ }),
            final(self)@ == final(r)@,
    {
        self.fletcher32 = fletcher32;
        self
    }

    pub fn get_fletcher32(&self) -> (r: bool)
        ensures
            r == self@.fletcher32,
    {
        self.fletcher32
    }

    /// Enables scale-offset compression with the given factor (0 means
    /// automatic).
    pub fn scale_offset(&mut self, scale_offset: u32) -> (r: &mut Self)
        ensures
            r@ == (FiltersView { scale_offset: Some(scale_offset), ..old(self)@ }),
            final(self)@ == final(r)@,
    {
        self.scale_offset = Some(scale_offset);
        self
    }

    /// Disables scale-offset compression.
    pub fn no_scale_offset(&mut self) -> (r: &mut Self)
        ensures
            r@ == (FiltersView { scale_offset: None, ..old(self)@ }),
            final(self)@ == final(r)@,
    {
        self.scale_offset = None;
        self
    }

    pub fn get_scale_offset(&self) -> (r: Option<u32>)
        ensures
            r == self@.scale_offset,
    {
        self.scale_offset
    }

    /// Enables gzip compression at level 4.
    pub fn gzip_default(&mut self) -> (r: &mut Self)
        ensures
            r@ == (FiltersView { gzip: Some(4u8), ..old(self)@ }),
            final(self)@ == final(r)@,
    {
        self.gzip = Some(4);
        self
    }

    /// Enables szip compression with nearest-neighbour coding and 8 pixels
    /// per block.
    pub fn szip_default(&mut self) -> (r: &mut Self)
        ensures
            r@ == (FiltersView { szip: Some((true, 8u8)), ..old(self)@ }),
            final(self)@ == final(r)@,
    {
        self.szip = Some((true, 8));
        self
    }

    /// Whether any filter is on (and the dataset therefore has to be chunked).
    pub fn has_filters(&self) -> (r: bool)
        ensures
            r == spec_has_filters(self@),
    {
        self.gzip.is_some() || self.szip.is_some() || self.shuffle || self.fletcher32
            || self.scale_offset.is_some()
    }

    /// Checks that the settings can be applied together.
    pub fn validate(&self) -> (r: Result<(), Error>)
        ensures
            unit_matches(r, spec_validate(self@)),
    {
        if self.gzip.is_some() && self.szip.is_some() {
            return Err(internal("Cannot specify two compression options at once."));
        }
        if let Some(level) = self.gzip {
            if !(level <= 9) {
                return Err(internal("Invalid level for gzip compression, expected 0-9 integer."));
            }
        }
        if let Some((_, pixels_per_block)) = self.szip {
            if !(pixels_per_block <= 32 && pixels_per_block % 2 == 0) {
                return Err(internal(
                    "Invalid pixels per block for szip compression, expected even 0-32 integer.",
                ));
            }
        }
        if let Some(offset) = self.scale_offset {
            if !(offset <= 2147483647) {
                return Err(internal("Scale-offset factor too large, maximum is 2147483647."));
            }
        }
        if self.scale_offset.is_some() && self.fletcher32 {
            return Err(internal("Cannot use lossy scale-offset filter with fletcher32."));
        }
        Ok(())
    }
}


/// What the library reports of filter `code`, looked up in `infos` (the
/// first entry for the code); a filter not listed is not available.
pub open spec fn spec_info_of(infos: Seq<(i32, FilterInfo)>, code: i32) -> FilterInfo
    decreases infos.len(),
{
    if infos.len() == 0 {
        FilterInfo { is_available: false, encode_enabled: false, decode_enabled: false }
    } else if infos[0].0 == code {
        infos[0].1
    } else {
        spec_info_of(infos.drop_first(), code)
    }
}

/// What checking that a filter can be used gives.
pub open spec fn spec_ensure_available(name: Seq<char>, info: FilterInfo) -> Result<(), Seq<char>> {
    if !info.is_available {
        Err("Filter not available: "@ + name)
    } else if !info.encode_enabled {
        Err("Encoding is not enabled for filter: "@ + name)
    } else if !info.decode_enabled {
        Err("Decoding is not enabled for filter: "@ + name)
    } else {
        Ok(())
    }
}

/// A pipeline entry with the given identifier and client data.
pub open spec fn entry(id: i32, cd: Seq<u32>) -> PipelineFilterView {
    PipelineFilterView { id, cd_values: cd }
}

/// The step of `to_dcpl` that adds the checksum.
pub open spec fn add_fletcher32(f: FiltersView, infos: Seq<(i32, FilterInfo)>, acc: Seq<PipelineFilterView>) -> Result<Seq<PipelineFilterView>, Seq<char>> {
    if !f.fletcher32 {
        Ok(acc)
    } else {
        match spec_ensure_available("fletcher32"@, spec_info_of(infos, FILTER_FLETCHER32)) {
            Err(e) => Err(e),
            Ok(_) => Ok(acc.push(entry(FILTER_FLETCHER32, Seq::empty()))),
        }
    }
}

/// The step of `to_dcpl` that adds scale-offset compression.
pub open spec fn add_scale_offset(f: FiltersView, class: TypeClass, infos: Seq<(i32, FilterInfo)>, acc: Seq<PipelineFilterView>) -> Result<Seq<PipelineFilterView>, Seq<char>> {
    match f.scale_offset {
        None => Ok(acc),
        Some(offset) => match spec_ensure_available("scaleoffset"@, spec_info_of(infos, FILTER_SCALEOFFSET)) {
            Err(e) => Err(e),
            Ok(_) => match class {
                TypeClass::Integer => Ok(acc.push(entry(FILTER_SCALEOFFSET, seq![SO_INT, offset]))),
                TypeClass::Float => if offset > 0 {
                    Ok(acc.push(entry(FILTER_SCALEOFFSET, seq![SO_FLOAT_DSCALE, offset])))
                } else {
                    Err("Can only use positive scale-offset factor with floats"@)
                },
                TypeClass::Other => Err("Can only use scale/offset with integer/float datatypes."@),
            },
        },
    }
}

/// The step of `to_dcpl` that adds shuffling.
pub open spec fn add_shuffle(f: FiltersView, infos: Seq<(i32, FilterInfo)>, acc: Seq<PipelineFilterView>) -> Result<Seq<PipelineFilterView>, Seq<char>> {
    if !f.shuffle {
        Ok(acc)
    } else {
        match spec_ensure_available("shuffle"@, spec_info_of(infos, FILTER_SHUFFLE)) {
            Err(e) => Err(e),
            Ok(_) => Ok(acc.push(entry(FILTER_SHUFFLE, Seq::empty()))),
        }
    }
}

/// The step of `to_dcpl` that adds compression: gzip, or else szip.
pub open spec fn add_compression(f: FiltersView, infos: Seq<(i32, FilterInfo)>, acc: Seq<PipelineFilterView>) -> Result<Seq<PipelineFilterView>, Seq<char>> {
    match f.gzip {
        Some(level) => match spec_ensure_available("gzip"@, spec_info_of(infos, FILTER_DEFLATE)) {
            Err(e) => Err(e),
            Ok(_) => Ok(acc.push(entry(FILTER_DEFLATE, seq![level as u32]))),
        },
        None => match f.szip {
            None => Ok(acc),
            Some((nn, ppb)) => match spec_ensure_available("szip"@, spec_info_of(infos, FILTER_SZIP)) {
                Err(e) => Err(e),
                Ok(_) => Ok(acc.push(entry(FILTER_SZIP, seq![if nn { SZIP_NN_OPTION_MASK } else { SZIP_EC_OPTION_MASK }, ppb as u32]))),
            },
        },
    }
}

/// What `to_dcpl` gives: the settings checked, then checksum, scale-offset,
/// shuffle and compression, in that order, each after checking that the
/// library can use it.
pub open spec fn spec_to_dcpl(f: FiltersView, class: TypeClass, infos: Seq<(i32, FilterInfo)>) -> Result<Seq<PipelineFilterView>, Seq<char>> {
    match spec_validate(f) {
        Err(e) => Err(e),
        Ok(_) => match add_fletcher32(f, infos, Seq::empty()) {
            Err(e) => Err(e),
            Ok(a) => match add_scale_offset(f, class, infos, a) {
                Err(e) => Err(e),
                Ok(b) => match add_shuffle(f, infos, b) {
                    Err(e) => Err(e),
                    Ok(c) => add_compression(f, infos, c),
                },
            },
        },
    }
}

/// A pipeline entry has the client data its filter is read with.
pub open spec fn entry_readable(e: PipelineFilterView) -> bool {
    &&& e.id == FILTER_DEFLATE ==> e.cd_values.len() >= 1
    &&& e.id == FILTER_SZIP ==> e.cd_values.len() >= 2
    &&& e.id == FILTER_SCALEOFFSET ==> e.cd_values.len() >= 2
}

/// Reading one pipeline entry into the settings read so far.
pub open spec fn decode_entry(f: FiltersView, e: PipelineFilterView) -> Result<FiltersView, Seq<char>> {
    if e.id == FILTER_DEFLATE {
        Ok(FiltersView { gzip: Some(e.cd_values[0] as u8), ..f })
    } else if e.id == FILTER_SZIP {
        let m = e.cd_values[0];
        if m & SZIP_EC_OPTION_MASK != 0 {
            Ok(FiltersView { szip: Some((false, e.cd_values[1] as u8)), ..f })
        } else if m & SZIP_NN_OPTION_MASK != 0 {
            Ok(FiltersView { szip: Some((true, e.cd_values[1] as u8)), ..f })
        } else {
            Err("Unknown szip method: "@ + dec_nat(m as nat))
        }
    } else if e.id == FILTER_SHUFFLE {
        Ok(FiltersView { shuffle: true, ..f })
    } else if e.id == FILTER_FLETCHER32 {
        Ok(FiltersView { fletcher32: true, ..f })
    } else if e.id == FILTER_SCALEOFFSET {
        Ok(FiltersView { scale_offset: Some(e.cd_values[1]), ..f })
    } else {
        Err("Unsupported filter: "@ + dec_int(e.id as int))
    }
}

/// The settings read from the first `n` entries of a pipeline.
pub open spec fn decode_pipeline(p: Seq<PipelineFilterView>, n: nat) -> Result<FiltersView, Seq<char>>
    decreases n,
{
    if n == 0 {
        Ok(no_filters())
    } else {
        match decode_pipeline(p, (n - 1) as nat) {
            Err(e) => Err(e),
            Ok(f) => decode_entry(f, p[n - 1]),
        }
    }
}

/// What `from_dcpl` gives: the settings read from the pipeline, then
/// checked.
pub open spec fn spec_from_dcpl(p: Seq<PipelineFilterView>) -> Result<FiltersView, Seq<char>> {
    match decode_pipeline(p, p.len()) {
        Err(e) => Err(e),
        Ok(f) => match spec_validate(f) {
            Err(e) => Err(e),
            Ok(_) => Ok(f),
        },
    }
}

/// Looks up what the library reports of filter `code`.
pub fn info_of(infos: &[(i32, FilterInfo)], code: i32) -> (r: FilterInfo)
    ensures
        r == spec_info_of(infos@, code),
{
    let mut i: usize = 0;
    assert(infos@.skip(0) =~= infos@);
    while i < infos.len()
        invariant
            i <= infos@.len(),
            spec_info_of(infos@, code) == spec_info_of(infos@.skip(i as int), code),
        decreases infos@.len() - i,
    {
        assert(infos@.skip(i as int).drop_first() =~= infos@.skip(i + 1));
        if infos[i].0 == code {
            return infos[i].1;
        }
        i = i + 1;
    }
    FilterInfo { is_available: false, encode_enabled: false, decode_enabled: false }
}

fn named_error(prefix: &str, name: &str) -> (r: Error)
    ensures
        r matches Error::Internal(m) && m@ == prefix@ + name@,
{
    let mut s = string_of(prefix);
    push_str(&mut s, name);
    Error::Internal(s)
}

/// Checks that the library has filter `name` and can encode and decode with
/// it; `info` is what the library reports of it.
pub fn ensure_available(name: &str, info: FilterInfo) -> (r: Result<(), Error>)
    ensures
        unit_matches(r, spec_ensure_available(name@, info)),
{
    if !info.is_available {
        return Err(named_error("Filter not available: ", name));
    }
    if !info.encode_enabled {
        return Err(named_error("Encoding is not enabled for filter: ", name));
    }
    if !info.decode_enabled {
        return Err(named_error("Decoding is not enabled for filter: ", name));
    }
    Ok(())
}

/// A pipeline agrees with an abstract outcome.
pub open spec fn pipeline_matches(r: Result<Vec<PipelineFilter>, Error>, s: Result<Seq<PipelineFilterView>, Seq<char>>) -> bool {
    match (r, s) {
        (Ok(v), Ok(t)) => v@.map_values(|e: PipelineFilter| e@) == t,
        (Err(Error::Internal(m)), Err(t)) => m@ == t,
        _ => false,
    }
}

fn push_entry(v: &mut Vec<PipelineFilter>, id: i32, cd: Vec<u32>)
    ensures
        final(v)@.map_values(|e: PipelineFilter| e@) == old(v)@.map_values(|e: PipelineFilter| e@).push(entry(id, cd@)),
{
    v.push(PipelineFilter { id, cd_values: cd });
    assert(v@.map_values(|e: PipelineFilter| e@) =~= old(v)@.map_values(|e: PipelineFilter| e@).push(entry(id, cd@)));
}

impl Filters {
    /// The filter pipeline of a dataset creation property list for these
    /// settings, for elements of class `class`; `infos` is what the library
    /// reports of its filters.
    pub fn to_dcpl(&self, class: TypeClass, infos: &[(i32, FilterInfo)]) -> (r: Result<Vec<PipelineFilter>, Error>)
        ensures
            pipeline_matches(r, spec_to_dcpl(self@, class, infos@)),
    {
        self.validate()?;
        let mut v: Vec<PipelineFilter> = Vec::new();
        let ghost f = self@;
        let ghost e0 = Seq::<PipelineFilterView>::empty();
        assert(v@.map_values(|e: PipelineFilter| e@) =~= e0);
        if self.fletcher32 {
            ensure_available("fletcher32", info_of(infos, FILTER_FLETCHER32))?;
            push_entry(&mut v, FILTER_FLETCHER32, Vec::new());
        }
        let ghost a = v@.map_values(|e: PipelineFilter| e@);
        assert(add_fletcher32(f, infos@, e0) == Ok::<Seq<PipelineFilterView>, Seq<char>>(a));
        if let Some(offset) = self.scale_offset {
            ensure_available("scaleoffset", info_of(infos, FILTER_SCALEOFFSET))?;
            match class {
                TypeClass::Integer => {
                    push_entry(&mut v, FILTER_SCALEOFFSET, vec![SO_INT, offset]);
                },
                TypeClass::Float => {
                    if !(offset > 0) {
                        return Err(internal("Can only use positive scale-offset factor with floats"));
                    }
                    push_entry(&mut v, FILTER_SCALEOFFSET, vec![SO_FLOAT_DSCALE, offset]);
                },
                TypeClass::Other => {
                    return Err(internal("Can only use scale/offset with integer/float datatypes."));
                },
            }
        }
        let ghost b = v@.map_values(|e: PipelineFilter| e@);
        assert(add_scale_offset(f, class, infos@, a) == Ok::<Seq<PipelineFilterView>, Seq<char>>(b));
        if self.shuffle {
            ensure_available("shuffle", info_of(infos, FILTER_SHUFFLE))?;
            push_entry(&mut v, FILTER_SHUFFLE, Vec::new());
        }
        let ghost c = v@.map_values(|e: PipelineFilter| e@);
        assert(add_shuffle(f, infos@, b) == Ok::<Seq<PipelineFilterView>, Seq<char>>(c));
        if let Some(level) = self.gzip {
            ensure_available("gzip", info_of(infos, FILTER_DEFLATE))?;
            let cd = vec![level as u32];
            assert(cd@ == seq![level as u32]);
            push_entry(&mut v, FILTER_DEFLATE, cd);
            assert(add_compression(f, infos@, c) == Ok::<Seq<PipelineFilterView>, Seq<char>>(v@.map_values(|e: PipelineFilter| e@)));
        } else if let Some((nn, pixels_per_block)) = self.szip {
            ensure_available("szip", info_of(infos, FILTER_SZIP))?;
            let options = if nn { SZIP_NN_OPTION_MASK } else { SZIP_EC_OPTION_MASK };
            let cd = vec![options, pixels_per_block as u32];
            assert(cd@ == seq![if nn { SZIP_NN_OPTION_MASK } else { SZIP_EC_OPTION_MASK }, pixels_per_block as u32]);
            push_entry(&mut v, FILTER_SZIP, cd);
            assert(add_compression(f, infos@, c) == Ok::<Seq<PipelineFilterView>, Seq<char>>(v@.map_values(|e: PipelineFilter| e@)));
        }
        assert(add_compression(f, infos@, c) == Ok::<Seq<PipelineFilterView>, Seq<char>>(v@.map_values(|e: PipelineFilter| e@)));
        Ok(v)
    }

    /// Reads the settings back from the filter pipeline of a dataset creation
    /// property list.
    pub fn from_dcpl(pipeline: &[PipelineFilter]) -> (r: Result<Self, Error>)
        requires
            forall|i: int| 0 <= i < pipeline@.len() ==> entry_readable(#[trigger] pipeline@[i]@),
        ensures
            match (r, spec_from_dcpl(pipeline@.map_values(|e: PipelineFilter| e@))) {
                (Ok(f), Ok(g)) => f@ == g,
                (Err(Error::Internal(m)), Err(t)) => m@ == t,
                _ => false,
            },
    {
        let ghost p = pipeline@.map_values(|e: PipelineFilter| e@);
        let mut filters = Filters::default();
        let mut i: usize = 0;
        while i < pipeline.len()
            invariant
                i <= pipeline@.len(),
                p == pipeline@.map_values(|e: PipelineFilter| e@),
                forall|k: int| 0 <= k < pipeline@.len() ==> entry_readable(#[trigger] pipeline@[k]@),
                decode_pipeline(p, i as nat) == Ok::<FiltersView, Seq<char>>(filters@),
            decreases pipeline@.len() - i,
        {
            assert(p[i as int] == pipeline@[i as int]@);
            let e = &pipeline[i];
            let code = e.id;
            if code == FILTER_DEFLATE {
                filters.gzip(e.cd_values[0] as u8);
            } else if code == FILTER_SZIP {
                let m = e.cd_values[0];
                let nn = if m & SZIP_EC_OPTION_MASK != 0 {
                    false
                } else if m & SZIP_NN_OPTION_MASK != 0 {
                    true
                } else {
                    let mut s = string_of("Unknown szip method: ");
                    push_u64(&mut s, m as u64);
                    proof {
                        lemma_decode_err(p, (i + 1) as nat, p.len());
                    }
                    return Err(Error::Internal(s));
                };
                filters.szip(nn, e.cd_values[1] as u8);
            } else if code == FILTER_SHUFFLE {
                filters.shuffle(true);
            } else if code == FILTER_FLETCHER32 {
                filters.fletcher32(true);
            } else if code == FILTER_SCALEOFFSET {
                filters.scale_offset(e.cd_values[1]);
            } else {
                let mut s = string_of("Unsupported filter: ");
                push_i64(&mut s, code as i64);
                proof {
                    lemma_decode_err(p, (i + 1) as nat, p.len());
                }
                return Err(Error::Internal(s));
            }
            i = i + 1;
        }
        filters.validate()?;
        Ok(filters)
    }
}

proof fn lemma_decode_err(p: Seq<PipelineFilterView>, n: nat, m: nat)
    requires
        n <= m,
        decode_pipeline(p, n) is Err,
    ensures
        decode_pipeline(p, m) == decode_pipeline(p, n),
    decreases m - n,
{
    if n < m {
        lemma_decode_err(p, n, (m - 1) as nat);
    }
}


proof fn lemma_decode_prefix(p: Seq<PipelineFilterView>, q: Seq<PipelineFilterView>, n: nat)
    requires
        n <= p.len(),
        n <= q.len(),
        forall|i: int| 0 <= i < n ==> p[i] == q[i],
    ensures
        decode_pipeline(p, n) == decode_pipeline(q, n),
    decreases n,
{
    if n > 0 {
        lemma_decode_prefix(p, q, (n - 1) as nat);
    }
}

proof fn lemma_decode_push(p: Seq<PipelineFilterView>, e: PipelineFilterView)
    ensures
        decode_pipeline(p.push(e), p.len() + 1) == match decode_pipeline(p, p.len()) {
            Err(x) => Err(x),
            Ok(f) => decode_entry(f, e),
        },
{
    lemma_decode_prefix(p.push(e), p, p.len());
    assert(p.push(e)[p.len() as int] == e);
}

/// The compression entry that `to_dcpl` puts last in the pipeline: gzip is
/// the deflate filter (1) with the level as its one value, and szip the szip
/// filter (4) with the nearest-neighbour mask (32) when `nn` holds, the
/// entropy-coding mask (4) otherwise, followed by the pixels per block.
pub proof fn compression_entry_law(f: FiltersView, class: TypeClass, infos: Seq<(i32, FilterInfo)>)
    requires
        spec_to_dcpl(f, class, infos) is Ok,
    ensures
        ({
            let p = spec_to_dcpl(f, class, infos)->Ok_0;
            &&& f.gzip matches Some(level) ==> p.len() > 0 && p.last().id == 1
                && p.last().cd_values == seq![level as u32]
            &&& f.szip matches Some((nn, ppb)) ==> p.len() > 0 && p.last().id == 4
                && p.last().cd_values == seq![if nn { 32u32 } else { 4u32 }, ppb as u32]
        }),
{
}

/// The whole pipeline that `to_dcpl` makes, in order: the fletcher32 filter
/// (3) when the checksum is on; the scale-offset filter (6) with the integer
/// scale type 2 for integer data or the float decimal-scale type 0 for float
/// data, then the factor; the shuffle filter (2) when shuffling is on; and
/// last the compression entry (deflate 1 with the level, or szip 4 with the
/// nearest-neighbour mask 32 or entropy-coding mask 4 and the pixels per
/// block). Nothing else is in it.
pub proof fn pipeline_entries_law(f: FiltersView, class: TypeClass, infos: Seq<(i32, FilterInfo)>)
    requires
        spec_to_dcpl(f, class, infos) is Ok,
    ensures
        spec_to_dcpl(f, class, infos)->Ok_0 == (if f.fletcher32 { seq![entry(3, Seq::empty())] } else { Seq::empty() })
            + (match f.scale_offset {
                Some(o) => seq![entry(6, seq![if class == TypeClass::Integer { 2u32 } else { 0u32 }, o])],
                None => Seq::empty(),
            })
            + (if f.shuffle { seq![entry(2, Seq::empty())] } else { Seq::empty() })
            + (match f.gzip {
                Some(level) => seq![entry(1, seq![level as u32])],
                None => match f.szip {
                    Some((nn, ppb)) => seq![entry(4, seq![if nn { 32u32 } else { 4u32 }, ppb as u32])],
                    None => Seq::empty(),
                },
            }),
{
    let e0 = Seq::<PipelineFilterView>::empty();
    let a = add_fletcher32(f, infos, e0)->Ok_0;
    let b = add_scale_offset(f, class, infos, a)->Ok_0;
    let c = add_shuffle(f, infos, b)->Ok_0;
    let p = spec_to_dcpl(f, class, infos)->Ok_0;
    let fa: Seq<PipelineFilterView> = if f.fletcher32 { seq![entry(3, Seq::empty())] } else { Seq::empty() };
    let fb: Seq<PipelineFilterView> = match f.scale_offset {
        Some(o) => seq![entry(6, seq![if class == TypeClass::Integer { 2u32 } else { 0u32 }, o])],
        None => Seq::empty(),
    };
    let fc: Seq<PipelineFilterView> = if f.shuffle { seq![entry(2, Seq::empty())] } else { Seq::empty() };
    let fd: Seq<PipelineFilterView> = match f.gzip {
        Some(level) => seq![entry(1, seq![level as u32])],
        None => match f.szip {
            Some((nn, ppb)) => seq![entry(4, seq![if nn { 32u32 } else { 4u32 }, ppb as u32])],
            None => Seq::empty(),
        },
    };
    assert(a =~= fa);
    assert(b =~= fa + fb);
    assert(c =~= fa + fb + fc);
    assert(p =~= fa + fb + fc + fd);
}

/// Reading an szip entry: a mask with the entropy-coding bit (4) gives
/// entropy coding, one with only the nearest-neighbour bit (32) gives
/// nearest-neighbour coding, and the second value is the pixels per block.
pub proof fn szip_entry_read_law(f: FiltersView, mask: u32, ppb: u32)
    ensures
        mask & 4 != 0 ==> decode_entry(f, entry(4, seq![mask, ppb]))
            == Ok::<FiltersView, Seq<char>>(FiltersView { szip: Some((false, ppb as u8)), ..f }),
        mask & 4 == 0 && mask & 32 != 0 ==> decode_entry(f, entry(4, seq![mask, ppb]))
            == Ok::<FiltersView, Seq<char>>(FiltersView { szip: Some((true, ppb as u8)), ..f }),
        mask & 4 == 0 && mask & 32 == 0 ==> decode_entry(f, entry(4, seq![mask, ppb])) is Err,
{
}

/// Every entry that `to_dcpl` makes can be read back.
proof fn lemma_to_dcpl_readable(f: FiltersView, class: TypeClass, infos: Seq<(i32, FilterInfo)>)
    requires
        spec_to_dcpl(f, class, infos) is Ok,
    ensures
        forall|i: int| 0 <= i < spec_to_dcpl(f, class, infos)->Ok_0.len()
            ==> entry_readable(#[trigger] spec_to_dcpl(f, class, infos)->Ok_0[i]),
{
}

/// Reading back the pipeline that `to_dcpl` made for some settings gives
/// those settings again: for every setting that `Filters::to_dcpl` accepts
/// (valid, with its filters available), `Filters::from_dcpl` on the pipeline
/// it made returns the same settings.
pub proof fn filters_pipeline_roundtrip(f: FiltersView, class: TypeClass, infos: Seq<(i32, FilterInfo)>)
    requires
        spec_to_dcpl(f, class, infos) is Ok,
    ensures
        forall|i: int| 0 <= i < spec_to_dcpl(f, class, infos)->Ok_0.len()
            ==> entry_readable(#[trigger] spec_to_dcpl(f, class, infos)->Ok_0[i]),
        spec_from_dcpl(spec_to_dcpl(f, class, infos)->Ok_0) == Ok::<FiltersView, Seq<char>>(f),
{
    lemma_to_dcpl_readable(f, class, infos);
    let e0 = Seq::<PipelineFilterView>::empty();
    let a = add_fletcher32(f, infos, e0)->Ok_0;
    let b = add_scale_offset(f, class, infos, a)->Ok_0;
    let c = add_shuffle(f, infos, b)->Ok_0;
    let d = add_compression(f, infos, c)->Ok_0;
    let g1 = FiltersView { fletcher32: f.fletcher32, ..no_filters() };
    let g2 = FiltersView { scale_offset: f.scale_offset, ..g1 };
    let g3 = FiltersView { shuffle: f.shuffle, ..g2 };
    assert(decode_pipeline(e0, 0) == Ok::<FiltersView, Seq<char>>(no_filters()));
    if f.fletcher32 {
        lemma_decode_push(e0, entry(FILTER_FLETCHER32, Seq::empty()));
    }
    assert(decode_pipeline(a, a.len()) == Ok::<FiltersView, Seq<char>>(g1));
    match f.scale_offset {
        Some(o) => {
            let e = b.last();
            assert(b == a.push(e));
            lemma_decode_push(a, e);
        },
        None => {},
    }
    assert(decode_pipeline(b, b.len()) == Ok::<FiltersView, Seq<char>>(g2));
    if f.shuffle {
        lemma_decode_push(b, entry(FILTER_SHUFFLE, Seq::empty()));
    }
    assert(decode_pipeline(c, c.len()) == Ok::<FiltersView, Seq<char>>(g3));
    match f.gzip {
        Some(level) => {
            lemma_decode_push(c, entry(FILTER_DEFLATE, seq![level as u32]));
            assert(((level as u32) as u8) == level);
        },
        None => match f.szip {
            Some((nn, ppb)) => {
                let m: u32 = if nn { SZIP_NN_OPTION_MASK } else { SZIP_EC_OPTION_MASK };
                lemma_decode_push(c, entry(FILTER_SZIP, seq![m, ppb as u32]));
                assert(32u32 & 4u32 == 0u32) by (bit_vector);
                assert(32u32 & 32u32 != 0u32) by (bit_vector);
                assert(4u32 & 4u32 != 0u32) by (bit_vector);
                assert(((ppb as u32) as u8) == ppb);
            },
            None => {},
        },
    }
    assert(decode_pipeline(d, d.len()) == Ok::<FiltersView, Seq<char>>(f));
}

} // verus!
