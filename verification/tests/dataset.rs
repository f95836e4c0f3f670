use hdf5::dataset::{check_chunk_shape, select_chunk, Chunk, ChunkInfo, Dataset, DatasetReads, DEFAULT_CHUNK_SIZE_KB};
use hdf5::dataset_access::{DatasetAccess, DatasetAccessReads, VirtualView};
use hdf5::dataset_builder::{infer_chunk_size, plan_chunking, Chunk as BuilderChunk, DatasetBuilder};
use hdf5::dataset_create::{
    AllocTime, AttrCreationOrder, AttrPhaseChange, ChunkOpts, DatasetCreate, DatasetCreateReads,
    ExternalFile, FillTime, FillValue, Layout,
};
use hdf5::dataspace::{Dataspace, Extent, Extents};
use hdf5::error::Error;
use hdf5::filter::Filter;
use hdf5::filters::{FilterInfo, Filters, PipelineFilter, TypeClass};
use hdf5::handle::Handle;
use hdf5::group::Group;

fn failed() -> Error {
    Error::internal("query failed".to_string())
}

fn assert_err<T>(r: Result<T, Error>, msg: &str) {
    match r {
        Ok(_) => panic!("not an error; expected `{}`", msg),
        Err(e) => assert_eq!(e.message(), msg),
    }
}

/// The byte size an inferred chunk stays under, as h5py computes it.
fn chunk_limit(shape: &[usize], typesize: usize) -> u64 {
    let size: usize = shape.iter().product();
    let total = (typesize * size) as f64;
    let mut target: f64 = 16384.0 * 2.0_f64.powf((total / (1024.0 * 1024.0)).log10());
    if target > 1048576.0 {
        target = 1048576.0;
    } else if target < 8192.0 {
        target = 8192.0;
    }
    (target * 1.5).ceil() as u64
}

fn infer(shape: &[usize], typesize: usize) -> Vec<usize> {
    infer_chunk_size(shape, typesize, chunk_limit(shape, typesize))
}

#[test]
pub fn test_infer_chunk_size() {
    assert_eq!(infer(&[], 1), Vec::<usize>::new());
    assert_eq!(infer(&[0], 1), vec![1]);
    assert_eq!(infer(&[1], 1), vec![1]);

    assert_eq!(infer(&[65682868], 1), vec![64144]);
    assert_eq!(infer(&[56755037], 2), vec![27713]);
    assert_eq!(infer(&[56882283], 4), vec![27775]);
    assert_eq!(infer(&[21081789], 8), vec![10294]);
    assert_eq!(infer(&[5735, 6266], 1), vec![180, 392]);
    assert_eq!(infer(&[467, 4427], 2), vec![30, 554]);
    assert_eq!(infer(&[5579, 8323], 4), vec![88, 261]);
    assert_eq!(infer(&[1686, 770], 8), vec![106, 49]);
    assert_eq!(infer(&[344, 414, 294], 1), vec![22, 52, 37]);
    assert_eq!(infer(&[386, 192, 444], 2), vec![25, 24, 56]);
    assert_eq!(infer(&[277, 161, 460], 4), vec![18, 21, 58]);
    assert_eq!(infer(&[314, 22, 253], 8), vec![40, 3, 32]);
    assert_eq!(infer(&[89, 49, 91, 59], 1), vec![12, 13, 23, 15]);
    assert_eq!(infer(&[42, 92, 60, 80], 2), vec![6, 12, 15, 20]);
    assert_eq!(infer(&[15, 62, 62, 47], 4), vec![4, 16, 16, 12]);
    assert_eq!(infer(&[62, 51, 55, 64], 8), vec![8, 7, 7, 16]);
}

#[test]
fn test_infer_small_shape_kept() {
    // a chunk already under the limit is the whole shape
    assert_eq!(infer_chunk_size(&[10, 20], 4, 12288), vec![10, 20]);
    // a limit of 0 halves down to a single element
    assert_eq!(infer_chunk_size(&[4, 4], 1, 0), vec![1, 1]);
}

fn plan(chunk: &BuilderChunk, filters: bool, resizable: bool, shape: &[usize]) -> Result<Option<Vec<usize>>, Error> {
    plan_chunking(chunk, filters, resizable, shape, 4, chunk_limit(shape, 4)).map(|p| p.chunk)
}

#[test]
pub fn test_chunks() {
    assert_eq!(plan(&BuilderChunk::Auto, false, false, &[1]).unwrap(), None);
    assert_eq!(plan(&BuilderChunk::Auto, true, false, &[1]).unwrap(), Some(vec![1]));
    assert_eq!(plan(&BuilderChunk::NoChunk, false, false, &[1]).unwrap(), None);
    assert_eq!(plan(&BuilderChunk::Manual(vec![1, 2]), false, false, &[10, 20]).unwrap(), Some(vec![1, 2]));
    assert_eq!(plan(&BuilderChunk::Infer, false, false, &[5579, 8323]).unwrap(), Some(vec![88, 261]));
    assert_eq!(plan(&BuilderChunk::Auto, false, false, &[5579, 8323]).unwrap(), None);
    assert_eq!(plan(&BuilderChunk::Auto, true, false, &[5579, 8323]).unwrap(), Some(vec![88, 261]));
    let p = plan_chunking(&BuilderChunk::Infer, false, false, &[10], 4, 100).unwrap();
    assert_eq!(p.fill_time, Some(FillTime::Alloc));
    let p = plan_chunking(&BuilderChunk::NoChunk, false, false, &[10], 4, 100).unwrap();
    assert_eq!(p.fill_time, None);
}

#[test]
pub fn test_invalid_chunk() {
    assert_err(plan(&BuilderChunk::NoChunk, true, false, &[1]), "Chunking must be enabled when filters are present");
    assert_err(plan(&BuilderChunk::NoChunk, false, true, &[1]), "Chunking must be enabled for resizable datasets");
    assert_err(plan(&BuilderChunk::Infer, false, false, &[]), "Chunking cannot be enabled for scalar datasets");
    assert_err(plan(&BuilderChunk::Manual(vec![1, 2]), false, false, &[]), "Chunking cannot be enabled for scalar datasets");
    assert_err(plan(&BuilderChunk::Manual(vec![1, 2]), false, false, &[1]), "Invalid chunk ndim: expected 1, got 2");
    assert_err(
        plan(&BuilderChunk::Manual(vec![0, 2]), false, false, &[1, 2]),
        "Invalid chunk: [0, 2] (all dimensions must be positive)",
    );
    assert_err(
        plan(&BuilderChunk::Manual(vec![1, 3]), false, false, &[1, 2]),
        "Invalid chunk: [1, 3] (must not exceed data shape in any dimension)",
    );
}

fn simple(dims: &[(usize, Option<usize>)]) -> Extents {
    Extents::Simple(dims.iter().map(|&(d, m)| Extent::new(d, m)).collect())
}

#[test]
pub fn test_is_chunked() {
    assert!(plan(&BuilderChunk::Auto, false, false, &[1]).unwrap().is_none());
    assert!(plan(&BuilderChunk::Auto, true, false, &[1]).unwrap().is_some());
}

#[test]
pub fn test_resizable() {
    let d = dataset(Ok(simple(&[(1, Some(1))])), failed_create_reads());
    assert_eq!(d.is_resizable(), false);
    let d = dataset(Ok(simple(&[(1, None)])), failed_create_reads());
    assert_eq!(d.is_resizable(), true);
}

#[test]
fn test_select_chunk() {
    let fixed = simple(&[(10, Some(10)), (20, Some(20))]);
    let growing = simple(&[(10, None)]);
    let empty = simple(&[(0, Some(0))]);
    assert_eq!(select_chunk(None, false, &fixed).unwrap(), Chunk::NoChunk);
    assert_eq!(select_chunk(None, true, &fixed).unwrap(), Chunk::MinKB(DEFAULT_CHUNK_SIZE_KB));
    assert_eq!(select_chunk(None, false, &growing).unwrap(), Chunk::MinKB(4096));
    assert_eq!(select_chunk(Some(&Chunk::Exact(vec![2, 3])), false, &fixed).unwrap(), Chunk::Exact(vec![2, 3]));
    assert_eq!(select_chunk(Some(&Chunk::MinKB(8)), true, &fixed).unwrap(), Chunk::MinKB(8));
    // chunking is required but not allowed: no data and no room to grow
    assert_err(select_chunk(None, true, &empty), "Chunking required when filters are present");
    assert_err(select_chunk(None, true, &Extents::Scalar), "Chunking required when filters are present");
    assert_err(select_chunk(Some(&Chunk::NoChunk), false, &growing), "Chunking required for resizable datasets");
    assert_err(select_chunk(Some(&Chunk::NoChunk), true, &fixed), "Chunking required when filters are present");
    assert_eq!(select_chunk(Some(&Chunk::NoChunk), false, &fixed).unwrap(), Chunk::NoChunk);
    assert_eq!(Chunk::default(), Chunk::NoChunk);
}

#[test]
fn test_check_chunk_shape() {
    let e = simple(&[(10, Some(10)), (20, None)]);
    assert!(check_chunk_shape(&[5, 100], &e).is_ok());
    assert!(check_chunk_shape(&[10, 20], &e).is_ok());
    assert_err(check_chunk_shape(&[1], &Extents::Scalar), "Chunking cannot be enabled for 0-dim datasets");
    assert_err(check_chunk_shape(&[1], &e), "Expected chunk ndim 2, got 1");
    assert_err(check_chunk_shape(&[0, 1], &e), "All chunk dimensions must be positive, got [0, 1]");
    assert_err(check_chunk_shape(&[11, 1], &e), "Chunk dimensions ([11, 1]) exceed data shape ((10, 20..))");
}

#[test]
fn test_disabled_filters() {
    let info = ChunkInfo { offset: vec![0, 0], filter_mask: 0, addr: 0, size: 0 };
    assert_eq!(info.disabled_filters(), Vec::<usize>::new());
    let info = ChunkInfo { offset: vec![0], filter_mask: 0b1010_0001, addr: 4096, size: 100 };
    assert_eq!(info.disabled_filters(), vec![0, 5, 7]);
    let info = ChunkInfo { offset: vec![], filter_mask: 1 << 31, addr: 0, size: 0 };
    assert_eq!(info.disabled_filters(), vec![31]);
}

fn create_reads() -> DatasetCreateReads {
    DatasetCreateReads {
        filters: Ok(vec![
            PipelineFilter { id: 2, cd_values: vec![] },
            PipelineFilter { id: 1, cd_values: vec![7] },
        ]),
        alloc_time: Ok(3),
        fill_time: Ok(0),
        fill_value_defined: Ok(2),
        layout: Ok(2),
        chunk: Ok(vec![4, 8]),
        chunk_opts: Ok(2 | 4),
        external: Ok(vec![("ext.bin".to_string(), 16, u64::MAX), ("b".to_string(), 0, 100)]),
        obj_track_times: Ok(0),
        attr_phase_change: Ok((10, 4)),
        attr_creation_order: Ok(1 | 8),
    }
}

fn failed_create_reads() -> DatasetCreateReads {
    DatasetCreateReads {
        filters: Err(failed()),
        alloc_time: Err(failed()),
        fill_time: Err(failed()),
        fill_value_defined: Err(failed()),
        layout: Err(failed()),
        chunk: Err(failed()),
        chunk_opts: Err(failed()),
        external: Err(failed()),
        obj_track_times: Err(failed()),
        attr_phase_change: Err(failed()),
        attr_creation_order: Err(failed()),
    }
}

#[test]
fn test_dataset_create_reads() {
    let pl = DatasetCreate::new(create_reads());
    assert_eq!(pl.filters(), vec![Filter::Shuffle, Filter::Deflate(7)]);
    assert_eq!(pl.alloc_time(), AllocTime::Incr);
    assert_eq!(pl.fill_time(), FillTime::Alloc);
    assert_eq!(pl.fill_value_defined(), FillValue::UserDefined);
    assert_eq!(pl.layout(), Layout::Chunked);
    assert_eq!(pl.chunk(), Some(vec![4, 8]));
    assert_eq!(pl.chunk_opts(), Some(ChunkOpts::default()));
    assert_eq!(
        pl.external(),
        vec![
            ExternalFile { name: "ext.bin".to_string(), offset: 16, size: 0 },
            ExternalFile { name: "b".to_string(), offset: 0, size: 100 },
        ]
    );
    assert_eq!(pl.obj_track_times(), false);
    assert_eq!(pl.attr_phase_change(), AttrPhaseChange { max_compact: 10, min_dense: 4 });
    assert_eq!(pl.attr_creation_order().bits(), 1);
    assert!(pl.attr_creation_order().contains(AttrCreationOrder::from_bits_truncate(1)));

    let mut reads = create_reads();
    reads.layout = Ok(1);
    let pl = DatasetCreate::new(reads);
    assert_eq!(pl.layout(), Layout::Contiguous);
    assert_eq!(pl.chunk(), None);
    assert_eq!(pl.chunk_opts(), None);
    assert_eq!(pl.get_chunk().unwrap(), None);
}

#[test]
fn test_dataset_create_defaults() {
    let pl = DatasetCreate::new(failed_create_reads());
    assert_eq!(pl.filters(), vec![]);
    assert_eq!(pl.alloc_time(), AllocTime::Late);
    assert_eq!(pl.fill_time(), FillTime::IfSet);
    assert_eq!(pl.fill_value_defined(), FillValue::Undefined);
    assert_eq!(pl.layout(), Layout::Contiguous);
    assert_eq!(pl.chunk(), None);
    assert_eq!(pl.chunk_opts(), None);
    assert_eq!(pl.external(), vec![]);
    assert_eq!(pl.obj_track_times(), true);
    assert_eq!(pl.attr_phase_change(), AttrPhaseChange::default());
    assert_eq!(pl.attr_creation_order(), AttrCreationOrder::default());
    assert_eq!(pl.get_layout().unwrap_err().message(), "query failed");
}

#[test]
fn test_dataset_create_enum_codes() {
    for l in [Layout::Compact, Layout::Contiguous, Layout::Chunked, Layout::Virtual] {
        assert_eq!(Layout::from_raw(l.to_raw()), l);
    }
    assert_eq!(Layout::from_raw(-1), Layout::Contiguous);
    for a in [AllocTime::Early, AllocTime::Incr, AllocTime::Late] {
        assert_eq!(AllocTime::from_raw(AllocTime::to_raw(Some(a))), a);
    }
    assert_eq!(AllocTime::to_raw(None), 0);
    assert_eq!(AllocTime::from_raw(0), AllocTime::Late);
    for f in [FillTime::IfSet, FillTime::Alloc, FillTime::Never] {
        assert_eq!(FillTime::from_raw(f.to_raw()), f);
    }
    assert_eq!(FillTime::from_raw(-1), FillTime::Never);
    for f in [FillValue::Undefined, FillValue::Default, FillValue::UserDefined] {
        assert_eq!(FillValue::from_raw(f.to_raw()), f);
    }
    assert_eq!(FillValue::from_raw(-1), FillValue::Undefined);
    assert_eq!(Layout::default(), Layout::Contiguous);
    assert_eq!(FillTime::default(), FillTime::IfSet);
    assert_eq!(FillValue::default(), FillValue::Default);
    assert_eq!(ChunkOpts::from_bits_truncate(0xff).bits(), 2);
}

#[test]
fn test_dataset_access_reads() {
    let pl = DatasetAccess::new(DatasetAccessReads {
        efile_prefix: Ok("/data".to_string()),
        virtual_view: Ok(0),
        virtual_printf_gap: Ok(3),
        all_coll_metadata_ops: Ok(1),
    });
    assert_eq!(pl.efile_prefix(), "/data");
    assert_eq!(pl.virtual_view(), VirtualView::FirstMissing);
    assert_eq!(pl.virtual_printf_gap(), 3);
    assert_eq!(pl.all_coll_metadata_ops(), true);

    let pl = DatasetAccess::new(DatasetAccessReads {
        efile_prefix: Err(failed()),
        virtual_view: Err(failed()),
        virtual_printf_gap: Err(failed()),
        all_coll_metadata_ops: Err(failed()),
    });
    assert_eq!(pl.efile_prefix(), "");
    assert_eq!(pl.virtual_view(), VirtualView::LastAvailable);
    assert_eq!(pl.virtual_printf_gap(), 0);
    assert_eq!(pl.all_coll_metadata_ops(), false);
    assert_eq!(VirtualView::from_raw(VirtualView::LastAvailable.to_raw()), VirtualView::LastAvailable);
}

fn dataset(space: Result<Extents, Error>, dcpl: DatasetCreateReads) -> Dataset {
    Dataset::new(DatasetReads {
        space: space.map(|e| Dataspace::try_new(e).unwrap()),
        dcpl: Ok(DatasetCreate::new(dcpl)),
        dapl: Err(failed()),
    })
}

#[test]
fn test_shape_ndim_size() {
    let d = dataset(Ok(simple(&[(2, Some(2)), (3, Some(3))])), create_reads());
    assert_eq!(d.shape(), vec![2, 3]);
    assert_eq!(d.size(), 6);
    assert_eq!(d.ndim(), 2);
    assert_eq!(d.is_scalar(), false);
    assert_eq!(d.is_resizable(), false);
    assert_eq!(d.is_chunked(), true);
    assert_eq!(d.chunk(), Some(vec![4, 8]));
    assert_eq!(d.layout(), Layout::Chunked);
    assert_eq!(d.filters(), vec![Filter::Shuffle, Filter::Deflate(7)]);
    assert!(d.dcpl().is_ok());
    assert!(d.dapl().is_err());

    let d = dataset(Ok(Extents::Scalar), failed_create_reads());
    assert_eq!(d.shape(), Vec::<usize>::new());
    assert_eq!(d.size(), 1);
    assert_eq!(d.ndim(), 0);
    assert_eq!(d.is_scalar(), true);
    assert_eq!(d.is_chunked(), false);
    assert_eq!(d.chunk(), None);

    let d = dataset(Ok(simple(&[(1, None)])), failed_create_reads());
    assert_eq!(d.is_resizable(), true);

    let d = dataset(Err(failed()), failed_create_reads());
    assert_eq!(d.shape(), Vec::<usize>::new());
    assert_eq!(d.is_resizable(), false);
}

#[test]
fn test_group_len() {
    let g = Group::new("/".to_string(), Ok(0));
    assert_eq!(g.len(), 0);
    assert!(g.is_empty());
    assert_eq!(g.short_repr(), "\"/\" (empty)");
    let g = Group::new("/foo".to_string(), Ok(1));
    assert_eq!(g.short_repr(), "\"/foo\" (1 member)");
    let g = Group::new("/foo/bar".to_string(), Ok(12));
    assert_eq!(g.len(), 12);
    assert!(!g.is_empty());
    assert_eq!(g.short_repr(), "\"/foo/bar\" (12 members)");
    let g = Group::new("/x".to_string(), Err(failed()));
    assert_eq!(g.len(), 0);
    assert!(g.is_empty());
}

#[test]
fn test_fill_value_as() {
    let pl = DatasetCreate::new(create_reads());
    assert_eq!(pl.fill_value_as::<u16>(Ok(vec![42, 0])), Some(42u16));
    assert_eq!(pl.fill_value_as::<u32>(Ok(vec![1, 2, 0, 0])), Some(513u32));
    assert_eq!(pl.fill_value_as::<i16>(Ok(vec![0xfe, 0xff])), Some(-2i16));
    assert_eq!(pl.fill_value_as::<i64>(Ok(vec![0xff; 8])), Some(-1i64));
    assert_eq!(pl.fill_value_as::<u64>(Ok(vec![0, 0, 0, 0, 0, 0, 0, 0x80])), Some(1u64 << 63));
    assert_eq!(pl.fill_value_as::<u8>(Ok(vec![7, 7])), None);
    assert_eq!(pl.fill_value_as::<u8>(Err(failed())), None);

    let mut reads = create_reads();
    reads.fill_value_defined = Ok(0);
    let pl = DatasetCreate::new(reads);
    assert_eq!(pl.fill_value_as::<u8>(Ok(vec![7])), None);
    let pl = DatasetCreate::new(failed_create_reads());
    assert_eq!(pl.fill_value_as::<u8>(Ok(vec![7])), None);
}

fn every_filter_available() -> Vec<(i32, FilterInfo)> {
    let info = FilterInfo { is_available: true, encode_enabled: true, decode_enabled: true };
    (1..=6).map(|code| (code, info)).collect()
}

#[test]
fn test_dataset_builder_settings() {
    let mut b: DatasetBuilder<u32> = DatasetBuilder::new(Handle::try_new(7, true));
    assert_eq!(b.parent().as_ref().unwrap().id(), 7);
    assert_eq!(*b.get_fill_value(), None);
    let plan = b.make_dcpl(TypeClass::Integer, &every_filter_available(), &[10, 20], 4, 100).unwrap();
    assert!(plan.pipeline.is_empty());
    assert!(!plan.track_times);
    assert_eq!(plan.storage.chunk, None);

    b.fill_value(3).track_times(true).chunk((2usize, 5usize));
    assert_eq!(*b.get_fill_value(), Some(3));
    let plan = b.make_dcpl(TypeClass::Integer, &every_filter_available(), &[10, 20], 4, 100).unwrap();
    assert!(plan.track_times);
    assert_eq!(plan.storage.chunk, Some(vec![2, 5]));
    assert_eq!(plan.storage.fill_time, Some(FillTime::Alloc));

    b.gzip(4).shuffle(true).chunk_auto();
    let plan = b.make_dcpl(TypeClass::Integer, &every_filter_available(), &[10], 4, 100).unwrap();
    assert_eq!(plan.pipeline.len(), 2);
    assert!(plan.storage.chunk.is_some());

    b.no_chunk();
    assert_err(
        b.make_dcpl(TypeClass::Integer, &every_filter_available(), &[10], 4, 100),
        "Chunking must be enabled when filters are present",
    );
    b.szip(true, 8);
    assert_err(
        b.make_dcpl(TypeClass::Integer, &every_filter_available(), &[10], 4, 100),
        "Cannot specify two compression options at once.",
    );

    let mut c: DatasetBuilder<u8> = DatasetBuilder::new(Handle::try_new(7, true));
    c.resizable(true).no_chunk();
    assert_err(
        c.make_dcpl(TypeClass::Integer, &every_filter_available(), &[10], 1, 100),
        "Chunking must be enabled for resizable datasets",
    );
    c.chunk_infer().fletcher32(true).scale_offset(0);
    assert_err(
        c.make_dcpl(TypeClass::Integer, &every_filter_available(), &[10], 1, 100),
        "Cannot use lossy scale-offset filter with fletcher32.",
    );
    let mut f = Filters::new();
    f.gzip(2);
    c.filters(&f);
    let plan = c.make_dcpl(TypeClass::Integer, &every_filter_available(), &[], 1, 100);
    assert_err(plan, "Chunking cannot be enabled for scalar datasets");

    let d: DatasetBuilder<u8> = DatasetBuilder::new(Handle::try_new(-1, false));
    assert!(d.parent().is_err());
}
