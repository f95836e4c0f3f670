use hdf5::lzf::{lzf_after_failure, lzf_outbuf_size, register_lzf, set_local_lzf, LzfRetry, LZF_FILTER_VERSION, LZF_VERSION};
use hdf5::error::Error;
use hdf5::filter::{Filter, SZip, ScaleOffset};
use hdf5::filters::{FilterInfo, Filters, PipelineFilter, TypeClass};
use hdf5::blosc::{parse_blosc_cdata, set_local_blosc, BloscConfig, SetLocalFailure};

fn assert_err<T>(r: Result<T, Error>, msg: &str) {
    match r {
        Ok(_) => panic!("not an error; expected `{}`", msg),
        Err(e) => {
            let m = e.message();
            assert!(m.contains(msg), "error message `{}` doesn't contain `{}`", m, msg);
        }
    }
}

fn all_available() -> Vec<(i32, FilterInfo)> {
    let info = FilterInfo { is_available: true, encode_enabled: true, decode_enabled: true };
    (1..=6).map(|code| (code, info)).collect()
}

fn make_filters(filters: &Filters, class: TypeClass) -> Result<Filters, Error> {
    let pipeline = filters.to_dcpl(class, &all_available())?;
    Filters::from_dcpl(&pipeline)
}

fn check_roundtrip(filters: &Filters, class: TypeClass) {
    assert_eq!(make_filters(filters, class).unwrap(), *filters);
}

#[test]
fn test_shuffle() {
    assert!(!Filters::new().get_shuffle());
    assert!(Filters::new().shuffle(true).get_shuffle());
    assert!(!Filters::new().shuffle(true).shuffle(false).get_shuffle());

    check_roundtrip(Filters::new().shuffle(false), TypeClass::Integer);
    check_roundtrip(Filters::new().shuffle(true), TypeClass::Integer);

    check_roundtrip(Filters::new().shuffle(false), TypeClass::Float);
    check_roundtrip(Filters::new().shuffle(true), TypeClass::Float);
}

#[test]
fn test_fletcher32() {
    assert!(!Filters::new().get_fletcher32());
    assert!(Filters::new().fletcher32(true).get_fletcher32());
    assert!(!Filters::new().fletcher32(true).fletcher32(false).get_fletcher32());

    check_roundtrip(Filters::new().fletcher32(false), TypeClass::Integer);
    check_roundtrip(Filters::new().fletcher32(true), TypeClass::Integer);

    check_roundtrip(Filters::new().fletcher32(false), TypeClass::Float);
    check_roundtrip(Filters::new().fletcher32(true), TypeClass::Float);
}

#[test]
fn test_has_filters() {
    assert_eq!(Filters::default().has_filters(), false);
    assert_eq!(Filters::default().gzip_default().has_filters(), true);
    assert_eq!(Filters::default().szip_default().has_filters(), true);
    assert_eq!(Filters::default().fletcher32(true).has_filters(), true);
    assert_eq!(Filters::default().shuffle(true).has_filters(), true);
    assert_eq!(Filters::default().scale_offset(2).has_filters(), true);
}

#[test]
fn test_gzip() {
    assert!(Filters::new().get_gzip().is_none());
    assert_eq!(Filters::new().gzip(7).get_gzip(), Some(7));
    assert!(Filters::new().gzip(7).no_gzip().get_gzip().is_none());
    assert_eq!(Filters::new().gzip_default().get_gzip(), Some(4));

    check_roundtrip(Filters::new().no_gzip(), TypeClass::Integer);
    check_roundtrip(Filters::new().gzip(7), TypeClass::Integer);
    check_roundtrip(Filters::new().gzip_default(), TypeClass::Float);
    assert_err(make_filters(Filters::new().gzip(42), TypeClass::Integer), "Invalid level for gzip compression");
}

#[test]
fn test_szip() {
    assert!(Filters::new().get_szip().is_none());
    assert_eq!(Filters::new().szip(false, 4).get_szip(), Some((false, 4)));
    assert!(Filters::new().szip(false, 4).no_szip().get_szip().is_none());
    assert_eq!(Filters::new().szip_default().get_szip(), Some((true, 8)));

    check_roundtrip(Filters::new().no_szip(), TypeClass::Integer);
    check_roundtrip(Filters::new().szip(false, 4), TypeClass::Integer);
    check_roundtrip(Filters::new().szip(true, 4), TypeClass::Integer);
    check_roundtrip(Filters::new().szip(false, 4), TypeClass::Float);

    assert_err(
        make_filters(Filters::new().szip(false, 1), TypeClass::Integer),
        "Invalid pixels per block for szip compression",
    );
    assert_err(
        make_filters(Filters::new().szip(true, 34), TypeClass::Integer),
        "Invalid pixels per block for szip compression",
    );
    assert_err(
        make_filters(Filters::new().szip(true, 8).gzip(4), TypeClass::Integer),
        "Cannot specify two compression options at once",
    );
}

#[test]
fn test_scale_offset() {
    assert!(Filters::new().get_scale_offset().is_none());
    assert_eq!(Filters::new().scale_offset(8).get_scale_offset(), Some(8));
    assert!(Filters::new().scale_offset(8).no_scale_offset().get_scale_offset().is_none());

    check_roundtrip(Filters::new().no_scale_offset(), TypeClass::Integer);
    check_roundtrip(Filters::new().scale_offset(0), TypeClass::Integer);
    check_roundtrip(Filters::new().scale_offset(8), TypeClass::Integer);

    check_roundtrip(Filters::new().no_scale_offset(), TypeClass::Float);
    assert_err(
        make_filters(Filters::new().scale_offset(0), TypeClass::Float),
        "Can only use positive scale-offset factor with floats",
    );
    check_roundtrip(Filters::new().scale_offset(8), TypeClass::Float);

    assert_err(
        make_filters(Filters::new().scale_offset(u32::max_value()), TypeClass::Integer),
        "Scale-offset factor too large",
    );
    assert_err(
        make_filters(Filters::new().scale_offset(0).fletcher32(true), TypeClass::Integer),
        "Cannot use lossy scale-offset filter with fletcher32",
    );
    assert_err(
        make_filters(Filters::new().scale_offset(3), TypeClass::Other),
        "Can only use scale/offset with integer/float datatypes.",
    );
}

#[test]
fn test_filter_order_and_availability() {
    let mut f = Filters::new();
    f.fletcher32(true).shuffle(true).gzip(3);
    let p = f.to_dcpl(TypeClass::Integer, &all_available()).unwrap();
    let ids: Vec<i32> = p.iter().map(|e| e.id).collect();
    assert_eq!(ids, vec![3, 2, 1]);
    assert_eq!(p[2].cd_values, vec![3]);

    let none: Vec<(i32, FilterInfo)> = vec![];
    assert_err(f.to_dcpl(TypeClass::Integer, &none), "Filter not available: fletcher32");
    let no_decode = vec![(3, FilterInfo { is_available: true, encode_enabled: true, decode_enabled: false })];
    assert_err(f.to_dcpl(TypeClass::Integer, &no_decode), "Decoding is not enabled for filter: fletcher32");
    let no_encode = vec![(3, FilterInfo { is_available: true, encode_enabled: false, decode_enabled: true })];
    assert_err(f.to_dcpl(TypeClass::Integer, &no_encode), "Encoding is not enabled for filter: fletcher32");
}

#[test]
fn test_from_dcpl_errors() {
    let unknown = vec![PipelineFilter { id: 32000, cd_values: vec![] }];
    assert_err(Filters::from_dcpl(&unknown), "Unsupported filter: 32000");
    let bad_szip = vec![PipelineFilter { id: 4, cd_values: vec![1, 8] }];
    assert_err(Filters::from_dcpl(&bad_szip), "Unknown szip method: 1");
    let invalid = vec![PipelineFilter { id: 1, cd_values: vec![3] }, PipelineFilter { id: 4, cd_values: vec![32, 8] }];
    assert_err(Filters::from_dcpl(&invalid), "Cannot specify two compression options at once");
}

#[test]
fn test_filter_from_raw() {
    assert_eq!(Filter::from_raw(1, &[5]).unwrap(), Filter::deflate(5));
    assert_eq!(Filter::from_raw(2, &[]).unwrap(), Filter::shuffle());
    assert_eq!(Filter::from_raw(3, &[]).unwrap(), Filter::fletcher32());
    assert_eq!(Filter::from_raw(4, &[4, 16]).unwrap(), Filter::szip(SZip::Entropy, 16));
    assert_eq!(Filter::from_raw(4, &[32, 16]).unwrap(), Filter::szip(SZip::NearestNeighbor, 16));
    assert_eq!(Filter::from_raw(5, &[]).unwrap(), Filter::nbit());
    assert_eq!(Filter::from_raw(6, &[2, 255]).unwrap(), Filter::scale_offset(ScaleOffset::Integer, -1));
    assert_eq!(Filter::from_raw(6, &[0, 3]).unwrap(), Filter::scale_offset(ScaleOffset::FloatDScale, 3));
    assert_eq!(Filter::from_raw(32001, &[1, 2]).unwrap(), Filter::user(32001, &[1, 2]));

    assert_err(Filter::from_raw(0, &[]), "invalid filter id: 0");
    assert_err(Filter::from_raw(1, &[]), "expected length 1 cdata for deflate filter");
    assert_err(Filter::from_raw(1, &[10]), "invalid deflate level: 10");
    assert_err(Filter::from_raw(2, &[1]), "expected length 0 cdata for shuffle filter");
    assert_err(Filter::from_raw(4, &[36, 8]), "invalid szip mask: 36: expected EC or NN to be set");
    assert_err(Filter::from_raw(4, &[4, 33]), "invalid pixels per block for szip filter: 33");
    assert_err(Filter::from_raw(6, &[1, 3]), "invalid scale type for scaleoffset filter: 1");
}

#[test]
fn test_filter_raw_roundtrip() {
    for f in vec![
        Filter::deflate(9),
        Filter::shuffle(),
        Filter::fletcher32(),
        Filter::szip(SZip::Entropy, 32),
        Filter::nbit(),
        Filter::scale_offset(ScaleOffset::FloatDScale, -7),
        Filter::user(40000, &[7, 8, 9]),
    ] {
        let raw = f.to_raw();
        assert_eq!(raw.id, f.id());
        assert_eq!(Filter::from_raw(raw.id, &raw.cd_values).unwrap(), f);
    }
    let entries = vec![PipelineFilter { id: 1, cd_values: vec![12] }, PipelineFilter { id: 2, cd_values: vec![] }];
    assert_eq!(Filter::extract_pipeline(&entries), vec![Filter::user(1, &[12]), Filter::shuffle()]);
}

#[test]
fn test_filter_info() {
    let info = Filter::get_info(Ok(1), 3);
    assert!(!info.is_available);
    let info = Filter::get_info(Ok(0), 1);
    assert!(info.is_available && info.encode_enabled && !info.decode_enabled);
}

#[test]
fn test_blosc_set_local() {
    let values = [0u32; 8];
    let mut chunk = [0u64; 32];
    chunk[0] = 10;
    chunk[1] = 20;
    let (n, v) = set_local_blosc(2, &values, 2, &chunk, 8, 8).unwrap();
    assert_eq!(n, 4);
    assert_eq!(&v[..4], &[2, 2, 8, 1600]);
    let (_, v) = set_local_blosc(6, &values, 1, &chunk, 4, 300).unwrap();
    assert_eq!(&v[..4], &[2, 2, 1, 40]);
    assert_eq!(set_local_blosc(6, &values, 33, &chunk, 4, 4), Err(SetLocalFailure::RankExceedsLimit));
    assert_eq!(set_local_blosc(6, &values, -1, &chunk, 4, 4), Err(SetLocalFailure::NoChunkRank));
    assert_eq!(set_local_blosc(6, &values, 1, &chunk, 0, 4), Err(SetLocalFailure::NoTypeSize));
    assert_eq!(SetLocalFailure::RankExceedsLimit.message(), Some("Chunk rank exceeds limit"));
}

#[test]
fn test_blosc_parse_cdata() {
    let cfg = parse_blosc_cdata(&[2, 2, 4, 1000], b"1.21", true).unwrap();
    assert_eq!(cfg, BloscConfig { typesize: 4, outbuf_size: 1000, clevel: 5, doshuffle: 1, compcode: None });
    let cfg = parse_blosc_cdata(&[2, 2, 4, 1000, 9, 2, 1], b"1.21", true).unwrap();
    assert_eq!(cfg, BloscConfig { typesize: 4, outbuf_size: 1000, clevel: 9, doshuffle: 2, compcode: Some(1) });
    assert!(parse_blosc_cdata(&[2, 2, 4, 1000, 9, 2], b"1.7.", true).is_none());
    assert!(parse_blosc_cdata(&[2, 2, 4, 1000, 9], b"1.7.", true).is_some());
    assert!(parse_blosc_cdata(&[2, 2, 4, 1000, 9, 2, 7], b"1.21", false).is_none());
    assert!(parse_blosc_cdata(&[2, 2, 4, 1000, 9, 2], b"1.21", false).is_some());
}

#[test]
fn test_lzf_set_local() {
    let mut dims = vec![0u64; 32];
    dims[0] = 10;
    dims[1] = 20;
    let (n, v) = set_local_lzf(0, &[0; 8], 2, &dims, 4).unwrap();
    assert_eq!(n, 3);
    assert_eq!(v, vec![LZF_FILTER_VERSION, LZF_VERSION, 800, 0, 0, 0, 0, 0]);
    let (n, v) = set_local_lzf(5, &[9, 8, 0, 0, 0, 0, 0, 0], 1, &dims, 2).unwrap();
    assert_eq!(n, 5);
    assert_eq!(v, vec![9, 8, 20, 0, 0, 0, 0, 0]);
    assert_eq!(set_local_lzf(0, &[0; 8], 33, &dims, 4), Err(SetLocalFailure::RankExceedsLimit));
    assert_eq!(set_local_lzf(0, &[0; 8], -1, &dims, 4), Err(SetLocalFailure::NoChunkRank));
    assert_eq!(set_local_lzf(0, &[0; 8], 2, &dims, 0), Err(SetLocalFailure::NoTypeSize));
}

#[test]
fn test_lzf_decompress_steps() {
    assert_eq!(lzf_outbuf_size(&[4, 261, 4096], 100), 4096);
    assert_eq!(lzf_outbuf_size(&[4, 261, 0], 100), 100);
    assert_eq!(lzf_outbuf_size(&[4, 261], 100), 100);
    assert_eq!(lzf_after_failure(100, 50, 7), LzfRetry::Grow(150));
    assert_eq!(lzf_after_failure(100, 50, 22), LzfRetry::Fail("Invalid data for LZF decompression"));
    assert_eq!(lzf_after_failure(100, 50, 5), LzfRetry::Fail("Unknown LZF decompression error"));
    assert_eq!(register_lzf(0), Ok(()));
    assert_eq!(register_lzf(-1), Err("Can't register LZF filter"));
}

#[test]
pub fn test_filters_dcpl() {
    let mut filters = Filters::new();
    filters.shuffle(true);
    filters.gzip_default();
    let pipeline = filters.to_dcpl(TypeClass::Integer, &all_available()).unwrap();
    let filters2 = Filters::from_dcpl(&pipeline).unwrap();
    assert_eq!(filters2, filters);
}
