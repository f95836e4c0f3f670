use hdf5::byte_reader::{ByteReader, SeekError, SeekFrom};
use hdf5::class::{check_plist_class, handle_from_id, is_valid_id_type, object_debug_text, ID_DATASET, ID_FILE, ID_GROUP};
use hdf5::container::Conversion;
use hdf5::dataset::{Dataset, Maybe};
use hdf5::dataset_create::DatasetCreate;
use hdf5::datatype::ByteOrder;
use hdf5::error::Error;
use hdf5::file_access::{
    CacheDecreaseMode, CacheIncreaseMode, DirectDriver, FlashIncreaseMode, LogFlags, LogOptions,
    MetadataWriteStrategy, LOG_LOC_IO,
};
use hdf5::group::Group;
use hdf5::handle::Handle;
use hdf5::location::{h5_str_len, Location, LocationReads, LocationType};
use hdf5::plist::{PropertyList, PropertyListReads};
use hdf5::plist_class::PropertyListClass;

fn failed() -> Error {
    Error::internal("query failed".to_string())
}

fn message<T>(r: Result<T, Error>) -> String {
    match r {
        Ok(_) => panic!("not an error"),
        Err(e) => e.message(),
    }
}

#[test]
fn test_object_class_ids() {
    assert!(is_valid_id_type::<Group>(ID_GROUP));
    assert!(is_valid_id_type::<Group>(ID_FILE));
    assert!(!is_valid_id_type::<Group>(ID_DATASET));
    assert!(is_valid_id_type::<Dataset>(ID_DATASET));
    assert!(is_valid_id_type::<PropertyList>(10));
    let h = handle_from_id::<Dataset>(42, ID_DATASET, true).unwrap();
    assert_eq!(h.id(), 42);
    assert_eq!(message(handle_from_id::<Dataset>(42, ID_GROUP, true)), "Invalid dataset id: 42");
    assert_eq!(message(handle_from_id::<Group>(-3, ID_GROUP, false)), "Invalid handle id: -3");
}

#[test]
fn test_object_debug_text() {
    assert_eq!(object_debug_text::<Group>(false, None), "<HDF5 group: invalid id>");
    assert_eq!(object_debug_text::<Group>(true, Some("\"/\" (empty)")), "<HDF5 group: \"/\" (empty)>");
    assert_eq!(object_debug_text::<Dataset>(true, None), "<HDF5 dataset>");
    assert_eq!(object_debug_text::<PropertyList>(true, Some("file access")), "<HDF5 property list: file access>");
}

#[test]
fn test_check_plist_class() {
    assert!(check_plist_class::<DatasetCreate>(PropertyListClass::DatasetCreate, PropertyListClass::DatasetCreate).is_ok());
    assert_eq!(
        message(check_plist_class::<DatasetCreate>(PropertyListClass::DatasetCreate, PropertyListClass::FileAccess)),
        "expected dataset creation property list, got FileAccess"
    );
}

#[test]
fn test_property_list() {
    let pl = PropertyList::new(PropertyListReads {
        class_name: Ok("file access".to_string()),
        property_names: vec!["a".to_string(), "".to_string(), "b".to_string()],
        nprops: Ok(3),
    });
    assert_eq!(pl.class().unwrap(), PropertyListClass::FileAccess);
    assert_eq!(pl.properties(), vec!["a".to_string(), "b".to_string()]);
    assert_eq!(pl.len(), 3);
    assert_eq!(pl.short_repr(), "file access");

    let pl = PropertyList::new(PropertyListReads {
        class_name: Ok("bogus".to_string()),
        property_names: vec![],
        nprops: Err(failed()),
    });
    assert_eq!(message(pl.class()), "invalid property list class: bogus");
    assert_eq!(pl.len(), 0);
    assert_eq!(pl.short_repr(), "unknown class");
}

#[test]
fn test_byte_reader() {
    assert_eq!(
        message(ByteReader::new(true, Some(Conversion::NoOp), &[10])),
        "ByteReader cannot be used on attribute datasets"
    );
    assert_eq!(message(ByteReader::new(false, None, &[10])), "no conversion paths found");
    assert_eq!(
        message(ByteReader::new(false, Some(Conversion::Soft), &[10])),
        "no-op conversion path required; available: soft conversion"
    );
    assert_eq!(
        message(ByteReader::new(false, Some(Conversion::NoOp), &[2, 3])),
        "Only rank 1 datasets can be read via ByteReader"
    );
    let mut r = ByteReader::new(false, Some(Conversion::NoOp), &[10]).unwrap();
    assert_eq!(r.dataset_len(), 10);
    assert_eq!(r.stream_position(), 0);
    assert_eq!(r.read_window(4), (0, 4));
    r.advance(4);
    assert_eq!(r.read_window(100), (4, 6));
    assert_eq!(r.remaining_len(), 6);
    assert_eq!(r.seek(SeekFrom::End(-2)), Ok(8));
    assert_eq!(r.read_window(100), (8, 2));
    assert_eq!(r.seek(SeekFrom::Current(-9)), Err(SeekError::InvalidInput));
    assert_eq!(r.stream_position(), 8);
    assert_eq!(r.seek(SeekFrom::Current(5)), Ok(13));
    assert!(r.is_empty());
    assert_eq!(r.remaining_len(), 0);
    assert_eq!(r.read_window(100), (13, 0));
    assert_eq!(r.seek(SeekFrom::Start(3)), Ok(3));
    assert!(!r.is_empty());
    assert_eq!(r.seek(SeekFrom::Start(u64::MAX)), Ok(u64::MAX));
    assert_eq!(r.seek(SeekFrom::Current(1)), Err(SeekError::InvalidInput));
    assert_eq!(r.seek(SeekFrom::Current(i64::MIN)), Ok(u64::MAX - (1u64 << 63)));
    assert_eq!(SeekError::InvalidInput.message(), "invalid seek to a negative or overflowing position");
}

#[test]
fn test_maybe() {
    let m: Maybe<&str> = Maybe::from("x");
    assert_eq!(m.into_option(), Some("x"));
    let m: Maybe<u8> = Maybe::from(None);
    assert_eq!(m.as_option(), &None);
}

#[test]
fn test_raw_enum_codes() {
    assert_eq!(ByteOrder::from_raw(0), ByteOrder::LittleEndian);
    assert_eq!(ByteOrder::from_raw(1), ByteOrder::BigEndian);
    assert_eq!(ByteOrder::from_raw(2), ByteOrder::Vax);
    assert_eq!(ByteOrder::from_raw(3), ByteOrder::Mixed);
    assert_eq!(ByteOrder::from_raw(4), ByteOrder::NoOrder);
    assert_eq!(LocationType::from_raw(0), LocationType::Group);
    assert_eq!(LocationType::from_raw(1), LocationType::Dataset);
    assert_eq!(LocationType::from_raw(2), LocationType::NamedDatatype);
    assert_eq!(LocationType::from_raw(-1), LocationType::Group);
    for m in [CacheIncreaseMode::Off, CacheIncreaseMode::Threshold] {
        assert_eq!(CacheIncreaseMode::from_raw(m.to_raw()), m);
    }
    for m in [FlashIncreaseMode::Off, FlashIncreaseMode::AddSpace] {
        assert_eq!(FlashIncreaseMode::from_raw(m.to_raw()), m);
    }
    for m in [
        CacheDecreaseMode::Off,
        CacheDecreaseMode::Threshold,
        CacheDecreaseMode::AgeOut,
        CacheDecreaseMode::AgeOutWithThreshold,
    ] {
        assert_eq!(CacheDecreaseMode::from_raw(m.to_raw()), m);
    }
    assert_eq!(CacheDecreaseMode::from_raw(7), CacheDecreaseMode::Off);
    assert_eq!(MetadataWriteStrategy::default(), MetadataWriteStrategy::Distributed);
    assert_eq!(MetadataWriteStrategy::from_raw(0), MetadataWriteStrategy::ProcessZeroOnly);
    assert_eq!(MetadataWriteStrategy::Distributed.to_raw(), 1);
}

#[test]
fn test_log_and_direct_defaults() {
    let o = LogOptions::default();
    assert_eq!(o.get_flags().bits(), LOG_LOC_IO);
    assert_eq!(o.get_buf_size(), 0);
    let o = LogOptions::new(Some("log.txt"), LogFlags::from_bits_truncate(u64::MAX), 64);
    assert_eq!(o.get_flags().bits(), 0xfffff);
    assert_eq!(o.get_buf_size(), 64);
    assert!(o.get_flags().contains(LogFlags::from_bits_truncate(LOG_LOC_IO)));
    assert_eq!(DirectDriver::default(), DirectDriver { alignment: 4096, block_size: 4096, cbuf_size: 16 * 1024 * 1024 });
}

#[test]
fn test_handle_queries() {
    let h = Handle::try_new(5, true).unwrap();
    assert!(h.is_valid_user_id(1));
    assert!(!h.is_valid_user_id(0));
    assert_eq!(h.id_type(ID_GROUP), ID_GROUP);
    assert_eq!(Handle::invalid().id_type(ID_GROUP), -1);
}

#[test]
fn test_location_reads() {
    let loc = Location::new(LocationReads {
        name: Ok("/foo/bar".to_string()),
        filename: Ok("data.h5".to_string()),
        comment: Ok("".to_string()),
    });
    assert_eq!(loc.name(), "/foo/bar");
    assert_eq!(loc.filename(), "data.h5");
    assert_eq!(loc.comment(), None);
    assert_eq!(loc.short_repr(), "\"/foo/bar\"");
    assert_eq!(object_debug_text::<Location>(true, Some(loc.short_repr().as_str())), "<HDF5 location: \"/foo/bar\">");

    let loc = Location::new(LocationReads {
        name: Err(failed()),
        filename: Err(failed()),
        comment: Ok("a comment".to_string()),
    });
    assert_eq!(loc.name(), "");
    assert_eq!(loc.filename(), "");
    assert_eq!(loc.comment(), Some("a comment".to_string()));
    assert_eq!(loc.short_repr(), "\"\"");
}

#[test]
fn test_h5_str_len() {
    assert_eq!(h5_str_len(5).unwrap(), 6);
    assert_eq!(h5_str_len(0).unwrap(), 1);
    assert_eq!(message(h5_str_len(-1)), "negative string length in get_h5_str()");
    assert_eq!(message(h5_str_len(-7)), "negative string length in get_h5_str()");
}

fn plist_named(class: &str) -> PropertyList {
    PropertyList::new(PropertyListReads {
        class_name: Ok(class.to_string()),
        property_names: vec![],
        nprops: Ok(0),
    })
}

#[test]
pub fn test_class() {
    let (fapl, fcpl) = (plist_named("file access"), plist_named("file create"));
    assert_eq!(fapl.class().unwrap(), PropertyListClass::FileAccess);
    assert_eq!(fcpl.class().unwrap(), PropertyListClass::FileCreate);
}

#[test]
pub fn group_test_len() {
    // a file with no links, then with one group, then with two
    let file = Group::new("/".to_string(), Ok(0));
    assert_eq!(file.len(), 0);
    assert!(file.is_empty());
    let file = Group::new("/".to_string(), Ok(1));
    assert_eq!(file.len(), 1);
    assert!(!file.is_empty());
    let foo = Group::new("/foo".to_string(), Ok(0));
    assert_eq!(foo.len(), 0);
    assert!(foo.is_empty());
    let file = Group::new("/".to_string(), Ok(2));
    assert_eq!(file.len(), 2);
    assert_eq!(Group::new("/bar".to_string(), Ok(1)).len(), 1);
    assert_eq!(Group::new("/bar/baz".to_string(), Ok(0)).len(), 0);
}

fn file_location(comment: Result<String, Error>) -> Location {
    Location::new(LocationReads {
        name: Ok("/".to_string()),
        filename: Ok("/tmp/test.h5".to_string()),
        comment,
    })
}

#[test]
pub fn location_test_name() {
    assert_eq!(file_location(Ok(String::new())).name(), "/");
}

#[test]
pub fn location_test_filename() {
    assert_eq!(file_location(Ok(String::new())).filename(), "/tmp/test.h5");
}

#[test]
pub fn location_test_comment() {
    assert!(file_location(Ok(String::new())).comment().is_none());
    assert_eq!(file_location(Ok("foo".to_string())).comment().unwrap(), "foo");
    assert!(file_location(Err(failed())).comment().is_none());
}
