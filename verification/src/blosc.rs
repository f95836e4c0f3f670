//! The Blosc compression filter: the client data it stores in a pipeline and
//! how it reads its settings back from them.

use vstd::prelude::*;

verus! {

/// Version of the Blosc filter's client data layout.
pub const BLOSC_FILTER_VERSION: u32 = 2;
/// Version of the Blosc buffer format.
pub const BLOSC_VERSION_FORMAT: u32 = 2;
/// Largest element size Blosc shuffles by; larger types are treated as bytes.
pub const BLOSC_MAX_TYPESIZE: u32 = 255;
/// Filter identifier of Blosc.
pub const BLOSC_FILTER_ID: i32 = 32001;
/// Largest chunk rank the filter handles.
pub const MAX_NDIMS: usize = 32;

/// Why the filter could not fill in its client data for a dataset.
#[derive(Clone, Copy, Debug, PartialEq, Eq)]
pub enum SetLocalFailure {
    /// The chunk rank could not be had.
    NoChunkRank,
    /// The chunk rank exceeds [`MAX_NDIMS`].
    RankExceedsLimit,
    /// The element size could not be had.
    NoTypeSize,
}

impl SetLocalFailure {
    /// The message reported on the error stack, if any.
    pub fn message(self) -> (r: Option<&'static str>)
        ensures
            self is RankExceedsLimit ==> (r matches Some(m) && m@ == "Chunk rank exceeds limit"@),
            !(self is RankExceedsLimit) ==> r is None,
    {
        match self {
            SetLocalFailure::RankExceedsLimit => Some("Chunk rank exceeds limit"),
            _ => None,
        }
    }
}

/// The product of the first `n` extents, each taken as a `usize`.
pub open spec fn dims_product(dims: Seq<u64>, n: nat) -> int
    decreases n,
{
    if n == 0 {
        1
    } else {
        dims_product(dims, (n - 1) as nat) * (dims[n - 1] as usize)
    }
}

/// The element size Blosc works with: the base element size, or one byte when
/// that is larger than Blosc handles.
pub open spec fn spec_blosc_typesize(base: usize) -> u32 {
    if base > BLOSC_MAX_TYPESIZE {
        1
    } else {
        base as u32
    }
}

/// What filling in the filter's client data gives: at least four values, the
/// first two the filter and format versions, then the element size and the
/// chunk size in bytes (kept to its low 32 bits).
pub open spec fn spec_set_local(nelmts: usize, values: Seq<u32>, ndims: i32, chunkdims: Seq<u64>, typesize: usize, base: usize) -> Result<(usize, Seq<u32>), SetLocalFailure> {
    if ndims < 0 {
        Err(SetLocalFailure::NoChunkRank)
    } else if ndims > MAX_NDIMS {
        Err(SetLocalFailure::RankExceedsLimit)
    } else if typesize == 0 {
        Err(SetLocalFailure::NoTypeSize)
    } else {
        Ok((
            if nelmts > 4 { nelmts } else { 4 },
            values.update(0, BLOSC_FILTER_VERSION).update(1, BLOSC_VERSION_FORMAT).update(
                2,
                spec_blosc_typesize(base),
            ).update(3, (typesize * dims_product(chunkdims, ndims as nat)) as u32),
        ))
    }
}

/// Fills in the filter's client data for a dataset: `nelmts` is the number of
/// client values the pipeline holds for the filter and `values` the
/// eight-value buffer read for it (the callback reads the filter with room for
/// no value, so the buffer stays all zeros and values past the fourth are
/// zero), `ndims` and `chunkdims` the chunk
/// rank and extents, `typesize` the element size and `base_typesize` the size
/// of the array element type's base (or the element size itself).
pub fn set_local_blosc(
    nelmts: usize,
    values: &[u32],
    ndims: i32,
    chunkdims: &[u64],
    typesize: usize,
    base_typesize: usize,
) -> (r: Result<(usize, Vec<u32>), SetLocalFailure>)
    requires
        values@.len() == 8,
        chunkdims@.len() == MAX_NDIMS,
        0 <= ndims <= MAX_NDIMS ==> forall|k: nat|
            k <= ndims ==> #[trigger] (typesize * dims_product(chunkdims@, k)) <= usize::MAX,
    ensures
        match (r, spec_set_local(nelmts, values@, ndims, chunkdims@, typesize, base_typesize)) {
            (Ok((n, v)), Ok((m, w))) => n == m && v@ == w,
            (Err(a), Err(b)) => a == b,
            _ => false,
        },
{
    let nelmts = if nelmts > 4 { nelmts } else { 4 };
    let mut out: Vec<u32> = Vec::new();
    let mut i: usize = 0;
    while i < values.len()
        invariant
            i <= values@.len(),
            out@ == values@.take(i as int),
        decreases values@.len() - i,
    {
        out.push(values[i]);
        i = i + 1;
        assert(out@ =~= values@.take(i as int));
    }
    assert(values@.take(i as int) =~= values@);
    out.set(0, BLOSC_FILTER_VERSION);
    out.set(1, BLOSC_VERSION_FORMAT);
    if ndims < 0 {
        return Err(SetLocalFailure::NoChunkRank);
    }
    if ndims > 32 {
        return Err(SetLocalFailure::RankExceedsLimit);
    }
    if typesize == 0 {
        return Err(SetLocalFailure::NoTypeSize);
    }
    let basetypesize: usize = if base_typesize > 255 { 1 } else { base_typesize };
    out.set(2, basetypesize as u32);
    let n = ndims as usize;
    let mut bufsize: usize = typesize;
    let mut k: usize = 0;
    while k < n
        invariant
            k <= n,
            n == ndims,
            n <= MAX_NDIMS,
            chunkdims@.len() == MAX_NDIMS,
            bufsize == typesize * dims_product(chunkdims@, k as nat),
            forall|j: nat| j <= ndims ==> #[trigger] (typesize * dims_product(chunkdims@, j)) <= usize::MAX,
        decreases n - k,
    {
        let d = chunkdims[k] as usize;
        assert(typesize * dims_product(chunkdims@, (k + 1) as nat) <= usize::MAX);
        assert(typesize * dims_product(chunkdims@, (k + 1) as nat) == bufsize * d) by (nonlinear_arith)
            requires
                bufsize == typesize * dims_product(chunkdims@, k as nat),
                dims_product(chunkdims@, (k + 1) as nat) == dims_product(chunkdims@, k as nat) * d;
        bufsize = bufsize * d;
        k = k + 1;
    }
    out.set(3, bufsize as u32);
    Ok((nelmts, out))
}

/// Settings of a Blosc compression or decompression run, read from the
/// filter's client data.
#[derive(Clone, Copy, Debug, PartialEq, Eq)]
pub struct BloscConfig {
    pub typesize: usize,
    pub outbuf_size: usize,
    pub clevel: i32,
    pub doshuffle: i32,
    /// The compressor code, when the client data name one (the default
    /// compressor otherwise).
    pub compcode: Option<u32>,
}

impl Default for BloscConfig {
    fn default() -> (r: Self)
        ensures
            r == (BloscConfig { typesize: 0, outbuf_size: 0, clevel: 5, doshuffle: 1, compcode: None }),
    {
        BloscConfig { typesize: 0, outbuf_size: 0, clevel: 5, doshuffle: 1, compcode: None }
    }
}

/// The Blosc library version (the first four bytes of its version string)
/// is older than 1.8, which cannot read the shuffle setting.
pub open spec fn version_too_old(v: Seq<u8>) -> bool {
    v[0] <= 49 && v[1] == 46 && v[2] < 56 && v[3] == 46
}

/// What reading the settings from the client data gives; `None` when the
/// library version cannot honour the shuffle setting the data carry, or when
/// the data name a compressor that the library does not have
/// (`has_compressor` false).
pub open spec fn spec_parse_cdata(cdata: Seq<u32>, version: Seq<u8>, has_compressor: bool) -> Option<BloscConfig> {
    if cdata.len() >= 6 && version_too_old(version) {
        None
    } else if cdata.len() >= 7 && !has_compressor {
        None
    } else {
        Some(BloscConfig {
            typesize: cdata[2] as usize,
            outbuf_size: cdata[3] as usize,
            clevel: if cdata.len() >= 5 { cdata[4] as i32 } else { 5 },
            doshuffle: if cdata.len() >= 6 { cdata[5] as i32 } else { 1 },
            compcode: if cdata.len() >= 7 { Some(cdata[6]) } else { None },
        })
    }
}

/// Reads the settings of a run from the filter's client data; `version` is
/// the start of the Blosc library's version string and `has_compressor`
/// whether the Blosc library has the compressor whose code the data carry in
/// their seventh value (what asking it for that compressor's name answered).
pub fn parse_blosc_cdata(cdata: &[u32], version: &[u8], has_compressor: bool) -> (r: Option<BloscConfig>)
    requires
        cdata@.len() >= 4,
        version@.len() >= 4,
    ensures
        r == spec_parse_cdata(cdata@, version@, has_compressor),
{
    let mut cfg = BloscConfig::default();
    cfg.typesize = cdata[2] as usize;
    cfg.outbuf_size = cdata[3] as usize;
    if cdata.len() >= 5 {
        cfg.clevel = cdata[4] as i32;
    }
    if cdata.len() >= 6 {
        if version[0] <= 49 && version[1] == 46 && version[2] < 56 && version[3] == 46 {
            return None;
        }
        cfg.doshuffle = cdata[5] as i32;
    }
    if cdata.len() >= 7 {
        if !has_compressor {
            return None;
        }
        cfg.compcode = Some(cdata[6]);
    }
    Some(cfg)
}

/// Whether a run of the filter compresses (rather than decompresses), from
/// the flags it is called with.
pub fn blosc_compresses(flags: u32) -> (r: bool)
    ensures
        r == (flags & 0x100u32 == 0),
{
    flags & 0x100u32 == 0
}

/// Filling in Blosc's client data: a negative chunk rank, a rank above 32 or
/// a zero element size is refused (in that order); otherwise there are at
/// least four values and never fewer than the pipeline held, the first two
/// are the filter and format versions (2 and 2), the third the element size
/// Blosc shuffles by (the base element size, or 1 when that is above 255),
/// the fourth the low 32 bits of the chunk's byte size (the element size
/// times the first `ndims` chunk extents), and the rest are left as they were.
pub proof fn blosc_set_local_law(nelmts: usize, values: Seq<u32>, ndims: i32, chunkdims: Seq<u64>, typesize: usize, base: usize)
    requires
        values.len() == 8,
    ensures
        ndims < 0 ==> spec_set_local(nelmts, values, ndims, chunkdims, typesize, base)
            == Err::<(usize, Seq<u32>), SetLocalFailure>(SetLocalFailure::NoChunkRank),
        ndims > 32 ==> spec_set_local(nelmts, values, ndims, chunkdims, typesize, base)
            == Err::<(usize, Seq<u32>), SetLocalFailure>(SetLocalFailure::RankExceedsLimit),
        0 <= ndims <= 32 && typesize == 0 ==> spec_set_local(nelmts, values, ndims, chunkdims, typesize, base)
            == Err::<(usize, Seq<u32>), SetLocalFailure>(SetLocalFailure::NoTypeSize),
        0 <= ndims <= 32 && typesize > 0 ==> ({
            let (n, v) = spec_set_local(nelmts, values, ndims, chunkdims, typesize, base)->Ok_0;
            &&& n >= 4 && n >= nelmts && (n == 4 || n == nelmts)
            &&& v.len() == 8
            &&& v[0] == 2 && v[1] == 2
            &&& v[2] == (if base > 255 { 1 } else { base })
            &&& v[3] == (typesize * dims_product(chunkdims, ndims as nat)) as u32
            &&& forall|k: int| 4 <= k < 8 ==> v[k] == values[k]
        }),
{
}

/// Reading Blosc's settings: the element size and output buffer size are
/// the third and fourth values; the compression level is the fifth value or
/// 5, the shuffle setting the sixth or 1, and the compressor the seventh or
/// the default one; the settings are refused only when a shuffle setting is
/// given to a Blosc library older than 1.8 or a compressor that the library
/// lacks is named.
pub proof fn blosc_parse_law(cdata: Seq<u32>, version: Seq<u8>, has_compressor: bool)
    requires
        cdata.len() >= 4,
    ensures
        spec_parse_cdata(cdata, version, has_compressor) is None
            <==> ((cdata.len() >= 6 && version_too_old(version)) || (cdata.len() >= 7 && !has_compressor)),
        spec_parse_cdata(cdata, version, has_compressor) matches Some(c) ==> {
            &&& c.typesize == cdata[2] as usize
            &&& c.outbuf_size == cdata[3] as usize
            &&& c.clevel == (if cdata.len() >= 5 { cdata[4] as i32 } else { 5i32 })
            &&& c.doshuffle == (if cdata.len() >= 6 { cdata[5] as i32 } else { 1i32 })
            &&& c.compcode == (if cdata.len() >= 7 { Some(cdata[6]) } else { None })
        },
{
}

} // verus!
