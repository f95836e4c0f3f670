//! The LZF compression filter: the client data it stores in a pipeline, the
//! size of the buffer it decompresses into, and what it does when a
//! decompression attempt fails.

use vstd::prelude::*;
use crate::blosc::{dims_product, SetLocalFailure, MAX_NDIMS};
use crate::error::{is_err_code, H5ErrorCode};

verus! {

/// Filter identifier of LZF.
pub const LZF_FILTER_ID: i32 = 32000;
/// Version of the LZF filter's client data layout.
pub const LZF_FILTER_VERSION: u32 = 4;
/// Version of the LZF format.
pub const LZF_VERSION: u32 = 0x0105;
/// Error number of a destination buffer too small for the data (`E2BIG`).
pub const ERRNO_E2BIG: i32 = 7;
/// Error number of data that is not valid LZF (`EINVAL`).
pub const ERRNO_EINVAL: i32 = 22;

/// What filling in the filter's client data gives: at least three values,
/// the filter and format versions where none were set, then the chunk size
/// in bytes (kept to its low 32 bits).
pub open spec fn spec_set_local_lzf(nelmts: usize, values: Seq<u32>, ndims: i32, chunkdims: Seq<u64>, typesize: usize) -> Result<(usize, Seq<u32>), SetLocalFailure> {
    if ndims < 0 {
        Err(SetLocalFailure::NoChunkRank)
    } else if ndims > MAX_NDIMS {
        Err(SetLocalFailure::RankExceedsLimit)
    } else if typesize == 0 {
        Err(SetLocalFailure::NoTypeSize)
    } else {
        let v0 = if values[0] == 0 { LZF_FILTER_VERSION } else { values[0] };
        let v1 = if values[1] == 0 { LZF_VERSION } else { values[1] };
        Ok((
            if nelmts > 3 { nelmts } else { 3 },
            values.update(0, v0).update(1, v1).update(2, (typesize * dims_product(chunkdims, ndims as nat)) as u32),
        ))
    }
}

/// Fills in the filter's client data for a dataset: `nelmts` and `values` are
/// what the pipeline holds for the filter, `ndims` and `chunkdims` the chunk
/// rank and extents, and `typesize` the element size.
pub fn set_local_lzf(
    nelmts: usize,
    values: &[u32],
    ndims: i32,
    chunkdims: &[u64],
    typesize: usize,
) -> (r: Result<(usize, Vec<u32>), SetLocalFailure>)
    requires
        values@.len() == 8,
        chunkdims@.len() == MAX_NDIMS,
        0 <= ndims <= MAX_NDIMS ==> forall|k: nat|
            k <= ndims ==> #[trigger] (typesize * dims_product(chunkdims@, k)) <= usize::MAX,
    ensures
        match (r, spec_set_local_lzf(nelmts, values@, ndims, chunkdims@, typesize)) {
            (Ok((n, v)), Ok((m, w))) => n == m && v@ == w,
            (Err(a), Err(b)) => a == b,
            _ => false,
        },
{
    let nelmts = if nelmts > 3 { nelmts } else { 3 };
    let mut out: Vec<u32> = Vec::new();
    let mut i: usize = 0;
    while i < values.len()
        invariant
            i <= values@.len(),
            out@ == values@.take(i as int),
        decreases values@.len() - i,
    {
        out.push(values[i]);
        i = i + 1;
        assert(out@ =~= values@.take(i as int));
    }
    assert(values@.take(i as int) =~= values@);
    if out[0] == 0 {
        out.set(0, LZF_FILTER_VERSION);
    }
    if out[1] == 0 {
        out.set(1, LZF_VERSION);
    }
    if ndims < 0 {
        return Err(SetLocalFailure::NoChunkRank);
    }
    if ndims > 32 {
        return Err(SetLocalFailure::RankExceedsLimit);
    }
    if typesize == 0 {
        return Err(SetLocalFailure::NoTypeSize);
    }
    let n = ndims as usize;
    let mut bufsize: usize = typesize;
    let mut k: usize = 0;
    while k < n
        invariant
            k <= n,
            n == ndims,
            n <= MAX_NDIMS,
            chunkdims@.len() == MAX_NDIMS,
            bufsize == typesize * dims_product(chunkdims@, k as nat),
            forall|j: nat| j <= ndims ==> #[trigger] (typesize * dims_product(chunkdims@, j)) <= usize::MAX,
        decreases n - k,
    {
        let d = chunkdims[k] as usize;
        assert(typesize * dims_product(chunkdims@, (k + 1) as nat) <= usize::MAX);
        assert(typesize * dims_product(chunkdims@, (k + 1) as nat) == bufsize * d) by (nonlinear_arith)
            requires
                bufsize == typesize * dims_product(chunkdims@, k as nat),
                dims_product(chunkdims@, (k + 1) as nat) == dims_product(chunkdims@, k as nat) * d;
        bufsize = bufsize * d;
        k = k + 1;
    }
    out.set(2, bufsize as u32);
    Ok((nelmts, out))
}

/// The size of the first buffer to decompress into: the chunk size the
/// client data hold, if any, or else the size of the compressed buffer.
pub open spec fn spec_lzf_outbuf_size(cdata: Seq<u32>, buf_size: usize) -> usize {
    if cdata.len() >= 3 && cdata[2] != 0 {
        cdata[2] as usize
    } else {
        buf_size
    }
}

/// The size of the first buffer to decompress into.
pub fn lzf_outbuf_size(cdata: &[u32], buf_size: usize) -> (r: usize)
    ensures
        r == spec_lzf_outbuf_size(cdata@, buf_size),
{
    if cdata.len() >= 3 && cdata[2] != 0 {
        cdata[2] as usize
    } else {
        buf_size
    }
}

/// What to do after a decompression attempt that produced nothing.
#[derive(Clone, Copy, Debug, PartialEq, Eq)]
pub enum LzfRetry {
    /// Try again with a buffer of this size.
    Grow(usize),
    /// Give up, reporting this message.
    Fail(&'static str),
}

/// After an attempt into a buffer of `outbuf_size` bytes failed with error
/// number `errno`: a buffer too small grows by the compressed buffer's size
/// `buf_size`; invalid data or any other error stops the filter.
pub fn lzf_after_failure(outbuf_size: usize, buf_size: usize, errno: i32) -> (r: LzfRetry)
    requires
        errno == ERRNO_E2BIG ==> outbuf_size + buf_size <= usize::MAX,
    ensures
        errno == ERRNO_E2BIG ==> r == LzfRetry::Grow((outbuf_size + buf_size) as usize),
        errno == ERRNO_EINVAL ==> (r matches LzfRetry::Fail(m) && m@ == "Invalid data for LZF decompression"@),
        errno != ERRNO_E2BIG && errno != ERRNO_EINVAL ==> (r matches LzfRetry::Fail(m)
            && m@ == "Unknown LZF decompression error"@),
{
    if errno == ERRNO_E2BIG {
        LzfRetry::Grow(outbuf_size + buf_size)
    } else if errno == ERRNO_EINVAL {
        LzfRetry::Fail("Invalid data for LZF decompression")
    } else {
        LzfRetry::Fail("Unknown LZF decompression error")
    }
}

/// The outcome of registering the filter with the library, from the
/// registration call's return value.
pub fn register_lzf(ret: i32) -> (r: Result<(), &'static str>)
    ensures
        <i32 as H5ErrorCode>::spec_is_err_code(ret) ==> (r matches Err(m) && m@ == "Can't register LZF filter"@),
        !<i32 as H5ErrorCode>::spec_is_err_code(ret) ==> r is Ok,
{
    if is_err_code(ret) {
        Err("Can't register LZF filter")
    } else {
        Ok(())
    }
}

/// Filling in LZF's client data: a negative chunk rank, a rank above 32 or a
/// zero element size is refused (in that order); otherwise there are at
/// least three values and never fewer than the pipeline held, the filter
/// version (4) and the LZF format version (0x0105) fill the first two values
/// where they were zero, the third is the low 32 bits of the chunk's byte
/// size, and the rest are left as they were.
pub proof fn lzf_set_local_law(nelmts: usize, values: Seq<u32>, ndims: i32, chunkdims: Seq<u64>, typesize: usize)
    requires
        values.len() == 8,
    ensures
        ndims < 0 ==> spec_set_local_lzf(nelmts, values, ndims, chunkdims, typesize)
            == Err::<(usize, Seq<u32>), SetLocalFailure>(SetLocalFailure::NoChunkRank),
        ndims > 32 ==> spec_set_local_lzf(nelmts, values, ndims, chunkdims, typesize)
            == Err::<(usize, Seq<u32>), SetLocalFailure>(SetLocalFailure::RankExceedsLimit),
        0 <= ndims <= 32 && typesize == 0 ==> spec_set_local_lzf(nelmts, values, ndims, chunkdims, typesize)
            == Err::<(usize, Seq<u32>), SetLocalFailure>(SetLocalFailure::NoTypeSize),
        0 <= ndims <= 32 && typesize > 0 ==> ({
            let (n, v) = spec_set_local_lzf(nelmts, values, ndims, chunkdims, typesize)->Ok_0;
            &&& n >= 3 && n >= nelmts && (n == 3 || n == nelmts)
            &&& v.len() == 8
            &&& v[0] == (if values[0] == 0 { 4 } else { values[0] })
            &&& v[1] == (if values[1] == 0 { 0x0105 } else { values[1] })
            &&& v[2] == (typesize * dims_product(chunkdims, ndims as nat)) as u32
            &&& forall|k: int| 3 <= k < 8 ==> v[k] == values[k]
        }),
{
}

} // verus!
