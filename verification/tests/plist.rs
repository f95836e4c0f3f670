use hdf5::error::Error;
use hdf5::file_access::{
    driver_kind, CoreDriver, DriverIds, DriverKind, FamilyDriver, FileDriver, Alignment, CacheImageConfig, FileAccess, FileAccessReads, FileCloseDegree, LibVerBounds,
    LibraryVersion, MultiDriver, MultiFile, MultiLayout, PageBufferSize, SplitDriver,
};
use hdf5::file_create::{
    FileCreate, FileCreateBuilder, FileCreateReads, FileCreateSetting, FileSpaceStrategy,
    PhaseChangeInfo, SharedMessageIndex, SharedMessageType, SizeofInfo, SymbolTableInfo,
};
use hdf5::plist_class::PropertyListClass;

fn failed() -> Error {
    Error::internal("query failed".to_string())
}

#[test]
fn test_class_names() {
    for c in [
        PropertyListClass::AttributeCreate,
        PropertyListClass::DatasetAccess,
        PropertyListClass::DatasetCreate,
        PropertyListClass::DataTransfer,
        PropertyListClass::DatatypeAccess,
        PropertyListClass::DatatypeCreate,
        PropertyListClass::FileAccess,
        PropertyListClass::FileCreate,
        PropertyListClass::FileMount,
        PropertyListClass::GroupAccess,
        PropertyListClass::GroupCreate,
        PropertyListClass::LinkAccess,
        PropertyListClass::LinkCreate,
        PropertyListClass::ObjectCopy,
        PropertyListClass::ObjectCreate,
        PropertyListClass::StringCreate,
    ] {
        assert_eq!(PropertyListClass::from_str(&c.to_string()).unwrap(), c);
    }
    assert_eq!(PropertyListClass::FileAccess.to_string(), "file access");
    assert_eq!(PropertyListClass::FileCreate.to_string(), "file create");
    let e = PropertyListClass::from_str("foo").unwrap_err();
    assert_eq!(e.message(), "invalid property list class: foo");
}

fn fcpl_reads() -> FileCreateReads {
    FileCreateReads {
        userblock: Ok(512),
        sizes: Ok((8, 8)),
        sym_k: Ok((16, 4)),
        istore_k: Ok(32),
        shared_mesg_phase_change: Ok((50, 40)),
        shared_mesg_indexes: Ok(vec![(2 | 8 | 65536, 10)]),
        file_space_page_size: Ok(4096),
        file_space_strategy: Ok((1, 1, 7)),
    }
}

#[test]
fn test_file_create_getters() {
    let p = FileCreate::new(fcpl_reads());
    assert_eq!(p.userblock(), 512);
    assert_eq!(p.sizes(), SizeofInfo { sizeof_addr: 8, sizeof_size: 8 });
    assert_eq!(p.sym_k(), SymbolTableInfo { tree_rank: 16, node_size: 4 });
    assert_eq!(p.istore_k(), 32);
    assert_eq!(p.shared_mesg_phase_change(), PhaseChangeInfo { max_list: 50, min_btree: 40 });
    let ix = p.shared_mesg_indexes();
    assert_eq!(ix.len(), 1);
    assert_eq!(ix[0].message_types.bits(), 10);
    assert_eq!(ix[0].min_message_size, 10);
    assert_eq!(p.file_space_page_size(), 4096);
    assert_eq!(
        p.file_space_strategy(),
        FileSpaceStrategy::FreeSpaceManager { paged: true, persist: true, threshold: 7 }
    );

    let mut reads = fcpl_reads();
    reads.userblock = Err(failed());
    reads.file_space_strategy = Err(failed());
    reads.shared_mesg_indexes = Err(failed());
    let p = FileCreate::new(reads);
    assert_eq!(p.userblock(), 0);
    assert_eq!(p.file_space_strategy(), FileSpaceStrategy::default());
    assert!(p.shared_mesg_indexes().is_empty());
    assert_eq!(FileCreateBuilder::from_plist(&p).unwrap_err().message(), "query failed");
}

#[test]
fn test_file_create_builder() {
    let p = FileCreate::new(fcpl_reads());
    let b = FileCreateBuilder::from_plist(&p).unwrap();
    let settings = b.finish();
    assert_eq!(
        settings,
        vec![
            FileCreateSetting::Userblock(512),
            FileCreateSetting::SymK(16, 4),
            FileCreateSetting::IstoreK(32),
            FileCreateSetting::SharedMesgPhaseChange(50, 40),
            FileCreateSetting::SharedMesgNindexes(1),
            FileCreateSetting::SharedMesgIndex(0, 10, 10),
            FileCreateSetting::FileSpacePageSize(4096),
            FileCreateSetting::FileSpaceStrategy(1, 1, 7),
        ]
    );
    let mut b = FileCreate::build();
    b.userblock(1024).istore_k(8).shared_mesg_indexes(&[SharedMessageIndex {
        message_types: SharedMessageType::from_bits_truncate(4096),
        min_message_size: 3,
    }]);
    assert_eq!(
        b.finish(),
        vec![
            FileCreateSetting::Userblock(1024),
            FileCreateSetting::IstoreK(8),
            FileCreateSetting::SharedMesgNindexes(1),
            FileCreateSetting::SharedMesgIndex(0, 4096, 3),
        ]
    );
    assert_eq!(FileCreateBuilder::new().finish(), vec![]);
    assert!(SharedMessageType::from_bits(1).is_none());
    assert!(SharedMessageType::from_bits(6186).unwrap().contains(SharedMessageType::from_bits_truncate(8)));
    assert_eq!(FileSpaceStrategy::from_raw(2, 1, 9), FileSpaceStrategy::PageAggregation);
    assert_eq!(FileSpaceStrategy::PageAggregation.to_raw(), (2, 0, 0));
}

#[test]
fn test_multi_driver_validate() {
    let d = MultiDriver::default();
    assert!(d.validate().is_ok());
    assert_eq!(d.files.len(), 6);
    assert_eq!(d.files[2].name, "%s-r.h5");

    let mut d2 = MultiDriver { files: vec![], layout: MultiLayout::default(), relax: false };
    assert_eq!(d2.validate().unwrap_err().message(), "invalid number of multi files: 0 (expected 1-6)");
    d2.files.push(MultiFile::new("a", 0));
    d2.files.push(MultiFile::new("b", 10));
    assert_eq!(d2.validate().unwrap_err().message(), "invalid multi layout index: 2 (expected 0-1)");
    d2.layout = MultiLayout { mem_super: 0, mem_btree: 0, mem_draw: 0, mem_gheap: 0, mem_lheap: 0, mem_object: 0 };
    assert_eq!(d2.validate().unwrap_err().message(), "invalid multi layout: some files are unused");
    d2.layout.set(2, 1);
    assert_eq!(d2.layout.get(2), 1);
    assert!(d2.validate().is_ok());
}

#[test]
fn test_split_driver() {
    let d = MultiDriver {
        files: vec![MultiFile::new("%s.meta", 0), MultiFile::new("%s.raw", u64::MAX / 2)],
        layout: MultiLayout { mem_super: 0, mem_btree: 0, mem_draw: 1, mem_gheap: 1, mem_lheap: 0, mem_object: 0 },
        relax: true,
    };
    let s = SplitDriver::from_multi(&d).unwrap();
    assert_eq!(s, SplitDriver { meta_ext: ".meta".into(), raw_ext: ".raw".into() });
    assert_eq!(SplitDriver::default(), s);
    let mut d2 = d.clone();
    d2.relax = false;
    assert!(SplitDriver::from_multi(&d2).is_none());
    assert!(SplitDriver::from_multi(&MultiDriver::default()).is_none());
}

fn fapl_reads(ok: bool) -> FileAccessReads {
    if ok {
        FileAccessReads {
            fclose_degree: Ok(3),
            alignment: Ok((4, 8)),
            elink_file_cache_size: Ok(5),
            meta_block_size: Ok(4096),
            page_buffer_size: Ok((1024, 10, 20)),
            sieve_buf_size: Ok(1000),
            evict_on_close: Ok(1),
            metadata_read_attempts: Ok(3),
            mdc_image_config: Ok((1, 0, 7)),
            mdc_log_options: Ok((1, "log.txt".to_string(), 0)),
            all_coll_metadata_ops: Ok(1),
            coll_metadata_write: Ok(0),
            gc_references: Ok(1),
            small_data_block_size: Ok(512),
            libver_bounds: Ok((1, 2)),
        }
    } else {
        FileAccessReads {
            fclose_degree: Err(failed()),
            alignment: Err(failed()),
            elink_file_cache_size: Err(failed()),
            meta_block_size: Err(failed()),
            page_buffer_size: Err(failed()),
            sieve_buf_size: Err(failed()),
            evict_on_close: Err(failed()),
            metadata_read_attempts: Err(failed()),
            mdc_image_config: Err(failed()),
            mdc_log_options: Err(failed()),
            all_coll_metadata_ops: Err(failed()),
            coll_metadata_write: Err(failed()),
            gc_references: Err(failed()),
            small_data_block_size: Err(failed()),
            libver_bounds: Err(failed()),
        }
    }
}

#[test]
fn test_file_access_getters() {
    let p = FileAccess::new(fapl_reads(true));
    assert_eq!(p.fclose_degree(), FileCloseDegree::Strong);
    assert_eq!(p.alignment(), Alignment { threshold: 4, alignment: 8 });
    assert_eq!(p.elink_file_cache_size(), 5);
    assert_eq!(p.meta_block_size(), 4096);
    assert_eq!(p.page_buffer_size(), PageBufferSize { buf_size: 1024, min_meta_perc: 10, min_raw_perc: 20 });
    assert_eq!(p.sieve_buf_size(), 1000);
    assert!(p.evict_on_close());
    assert_eq!(p.metadata_read_attempts(), 3);
    assert_eq!(p.mdc_image_config(), CacheImageConfig { generate_image: true, save_resize_status: false, entry_ageout: 7 });
    let log = p.mdc_log_options();
    assert!(log.is_enabled && !log.start_on_access);
    assert_eq!(log.location, "log.txt");
    assert!(p.all_coll_metadata_ops());
    assert!(!p.coll_metadata_write());
    assert!(p.gc_references());
    assert_eq!(p.small_data_block_size(), 512);
    assert_eq!(p.libver_bounds(), LibVerBounds { low: LibraryVersion::V18, high: LibraryVersion::V110 });

    let p = FileAccess::new(fapl_reads(false));
    assert_eq!(p.fclose_degree(), FileCloseDegree::Default);
    assert_eq!(p.alignment(), Alignment { threshold: 1, alignment: 1 });
    assert_eq!(p.elink_file_cache_size(), 0);
    assert_eq!(p.meta_block_size(), 2048);
    assert_eq!(p.page_buffer_size(), PageBufferSize::default());
    assert_eq!(p.sieve_buf_size(), 64 * 1024);
    assert!(!p.evict_on_close());
    assert_eq!(p.metadata_read_attempts(), 1);
    assert_eq!(p.mdc_image_config(), CacheImageConfig::default());
    assert_eq!(p.mdc_log_options().location, "");
    assert!(!p.all_coll_metadata_ops());
    assert!(!p.gc_references());
    assert_eq!(p.small_data_block_size(), 2048);
    assert_eq!(p.libver_bounds(), LibVerBounds::default());
    assert_eq!(p.get_meta_block_size().unwrap_err().message(), "query failed");
}

#[test]
fn test_library_version() {
    assert!(LibraryVersion::Earliest.is_earliest());
    assert!(!LibraryVersion::latest().is_earliest());
    assert_eq!(LibraryVersion::latest(), LibraryVersion::V110);
    assert_eq!(LibraryVersion::from_raw(LibraryVersion::V18.to_raw()), LibraryVersion::V18);
    for d in [FileCloseDegree::Default, FileCloseDegree::Weak, FileCloseDegree::Semi, FileCloseDegree::Strong] {
        assert_eq!(FileCloseDegree::from_raw(d.to_raw()), d);
    }
}

fn strings(v: &[&str]) -> Vec<String> {
    v.iter().map(|s| s.to_string()).collect()
}

#[test]
fn test_multi_from_raw() {
    // the default layout: each kind of data in its own member
    let names = strings(&["", "%s-s.h5", "%s-b.h5", "%s-r.h5", "%s-g.h5", "%s-l.h5", "%s-o.h5"]);
    let addrs = vec![0, 0, 10, 20, 30, 40, 50];
    let d = MultiDriver::from_raw(&[0, 1, 2, 3, 4, 5, 6], &names, &addrs, 0 != 0).unwrap();
    assert_eq!(d.files.len(), 6);
    assert_eq!(d.files[1], MultiFile::new("%s-b.h5", 10));
    assert_eq!(d.layout, MultiLayout::default());
    assert!(!d.relax);

    // a split setup: metadata kinds share the super block's member, raw data
    // and global heap share the raw data's member
    let names = strings(&["", "%s.meta", "%s.meta", "%s.raw", "%s.raw", "%s.meta", "%s.meta"]);
    let half = u64::MAX / 2;
    let addrs = vec![0, 0, 0, half, half, 0, 0];
    let d = MultiDriver::from_raw(&[0, 1, 1, 3, 3, 1, 1], &names, &addrs, true).unwrap();
    assert_eq!(d.files, vec![MultiFile::new("%s.meta", 0), MultiFile::new("%s.raw", half)]);
    match FileDriver::from_multi(d) {
        FileDriver::Split(s) => {
            assert_eq!(s.meta_ext, ".meta");
            assert_eq!(s.raw_ext, ".raw");
        }
        other => panic!("not a split driver: {:?}", other),
    }

    let err = MultiDriver::from_raw(&[0, 1, 9, 3, 4, 5, 6], &names, &addrs, true).unwrap_err();
    assert_eq!(err.message(), "member map index out of bounds: 9 (expected 0-6)");
}

#[test]
fn test_driver_kind() {
    let ids = DriverIds { sec2: 10, stdio: 11, log: 12, core: 13, family: 14, multi: 15 };
    assert_eq!(driver_kind(10, &ids).unwrap(), DriverKind::Sec2);
    assert_eq!(driver_kind(13, &ids).unwrap(), DriverKind::Core);
    assert_eq!(driver_kind(15, &ids).unwrap(), DriverKind::Multi);
    assert_eq!(driver_kind(99, &ids).unwrap_err().message(), "unknown or unsupported file driver (id: 99)");
    assert_eq!(
        CoreDriver::from_raw(4096, 1, 1, 512),
        CoreDriver { increment: 4096, filebacked: true, write_tracking: 512 }
    );
    assert_eq!(CoreDriver::from_raw(4096, 0, 0, 512).write_tracking, 0);
    assert_eq!(FamilyDriver::from_raw(1 << 20).member_size, 1 << 20);
}
