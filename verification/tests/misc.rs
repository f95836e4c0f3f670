use hdf5::container::{check_slice, ensure_convertible, prepare_slice, slice_transfer, Conversion, Reader, SliceTransfer, Writer};
use hdf5::error::{error_of_query, h5check, is_err_code, Error, ErrorFrame, ErrorStack, RawErrorFrame};
use hdf5::file::{FaplDriver, File, FileAction, FileBuilder, ACC_EXCL, ACC_RDONLY, ACC_RDWR, ACC_TRUNC};
use hdf5::handle::{get_id_type, is_valid_id, Handle};
use hdf5::selection::{Hyperslab, Selection, SliceOrIndex};
use hdf5::sync::{LockError, RecursiveMutex, TryLockError};

fn assert_err<T>(r: Result<T, Error>, msg: &str) {
    match r {
        Ok(_) => panic!("not an error; expected `{}`", msg),
        Err(e) => {
            let m = e.message();
            assert!(m.contains(msg), "error message `{}` doesn't contain `{}`", m, msg);
        }
    }
}

#[test]
pub fn file_test_invalid_mode() {
    assert_err(File::open("foo.h5", "foo"), "Invalid file access mode");
}

#[test]
fn test_access_modes() {
    let action = |mode: &str| File::open("foo.h5", mode).unwrap().action;
    assert_eq!(action("r"), FileAction::Open { flags: ACC_RDONLY, driver: FaplDriver::Sec2 });
    assert_eq!(action("r+"), FileAction::Open { flags: ACC_RDWR, driver: FaplDriver::Sec2 });
    assert_eq!(action("w"), FileAction::Create { flags: ACC_TRUNC, userblock: 0, driver: FaplDriver::Sec2 });
    assert_eq!(action("w-"), FileAction::Create { flags: ACC_EXCL, userblock: 0, driver: FaplDriver::Sec2 });
    assert_eq!(action("x"), FileAction::Create { flags: ACC_EXCL, userblock: 0, driver: FaplDriver::Sec2 });
    assert_eq!(action("a"), FileAction::OpenOrCreate { driver: FaplDriver::Sec2, userblock: 0 });
    assert_eq!(File::open("foo.h5", "r").unwrap().filename, "foo.h5");

    let mut b = FileBuilder::new();
    b.mode("r").userblock(512);
    assert_err(b.open("foo.h5"), "Cannot specify userblock when opening a file");
    b.mode("a");
    assert_eq!(
        b.open("foo.h5").unwrap().action,
        FileAction::Create { flags: ACC_EXCL, userblock: 512, driver: FaplDriver::Sec2 }
    );
    b.mode("w").driver("core").increment(1024).filebacked(true);
    assert_eq!(
        b.open("foo.h5").unwrap().action,
        FileAction::Create { flags: ACC_TRUNC, userblock: 512, driver: FaplDriver::Core { increment: 1024, filebacked: true } }
    );
    b.driver("mpio");
    assert_err(b.open("foo.h5"), "Invalid file driver: mpio");
    assert!(File::is_read_only(Ok(ACC_RDONLY)));
    assert!(!File::is_read_only(Ok(ACC_RDWR)));
    assert!(File::is_read_only(Err(Error::internal("no".to_string()))));
}

#[test]
pub fn test_recursive_mutex() {
    let mut lock = RecursiveMutex::new();
    let tid = 7;
    let _g1 = lock.try_lock(tid, Ok(())).unwrap();
    let _g2 = lock.lock(tid, Ok(())).unwrap();
    let _g3 = lock.try_lock(tid, Err(TryLockError::WouldBlockExclusive)).unwrap();
    let _g4 = lock.lock(tid, Err(LockError::Poisoned)).unwrap();
    assert_eq!((lock.owner(), lock.recursion()), (tid, 4));
}

#[test]
fn test_recursive_mutex_balance() {
    let mut lock = RecursiveMutex::new();
    let g1 = lock.lock(3, Ok(())).unwrap();
    let g2 = lock.lock(3, Ok(())).unwrap();
    assert_eq!(lock.try_lock(5, Err(TryLockError::WouldBlockExclusive)).unwrap_err(), TryLockError::WouldBlockExclusive);
    assert_eq!(lock.lock(5, Err(LockError::Poisoned)).unwrap_err(), LockError::Poisoned);
    assert!(lock.is_same_thread(3));
    assert!(!lock.unlock(g2));
    assert!(lock.unlock(g1));
    assert_eq!((lock.owner(), lock.recursion()), (0, 0));
}

#[test]
pub fn object_test_not_a_valid_user_id() {
    assert_err(Handle::try_new(-1, false), "Invalid handle id");
    assert_err(Handle::try_new(0, false), "Invalid handle id");
}

#[test]
fn test_handle() {
    let h = Handle::try_new(42, true).unwrap();
    assert_eq!(h.id(), 42);
    assert!(h.is_valid_id(10));
    assert!(!h.is_valid_id(-1));
    assert_eq!(Handle::invalid().id(), -1);
    assert_eq!(get_id_type(0, 10), -1);
    assert_eq!(get_id_type(5, 10), 10);
    assert_eq!(get_id_type(5, 99), -1);
    assert!(is_valid_id(1) && !is_valid_id(-1));
    assert_eq!(Handle::refcount(Ok(3)), 3);
    assert_eq!(Handle::refcount(Err(Error::internal("x".to_string()))), 0);
}

#[test]
fn test_error_stack() {
    let mut stack = ErrorStack::new();
    assert!(stack.is_empty());
    assert_eq!(stack.description(), "unknown library error");
    stack.push(ErrorFrame::new("desc1", "func1", "major1", "minor1"));
    assert_eq!(stack.description(), "func1(): desc1");
    stack.push(ErrorFrame::new("desc2", "func2", "major2", "minor2"));
    assert_eq!(stack.len(), 2);
    assert_eq!(stack.description(), "func1(): desc1: desc2");
    assert_eq!(stack.detail().unwrap(), "Error in func1(): desc1 [major1: minor1]");
    assert_eq!(stack.top().unwrap().desc(), "desc1");
    assert_eq!(Error::HDF5(Some(stack)).message(), "func1(): desc1: desc2");

    let walk = vec![
        RawErrorFrame { desc: "d".into(), func: "f".into(), major: Ok("M".into()), minor: Ok("m".into()) },
    ];
    let s = ErrorStack::query(3, walk).unwrap().unwrap();
    assert_eq!(s.description(), "f(): d");
    assert!(ErrorStack::query(3, vec![]).unwrap().is_none());
    assert_err(ErrorStack::query(-1, vec![]), "failed to copy the current error stack");
    let bad = vec![RawErrorFrame {
        desc: "d".into(),
        func: "f".into(),
        major: Err(Error::internal("no message".to_string())),
        minor: Ok("m".into()),
    }];
    assert_err(ErrorStack::into_stack(bad), "no message");
}

#[test]
fn test_h5check() {
    assert!(is_err_code(-1i32));
    assert!(!is_err_code(0i32));
    assert!(is_err_code(0u64));
    assert_eq!(h5check(5i64, Err(Error::internal("x".to_string()))).unwrap(), 5);
    assert_err(h5check(-1i32, Ok(Error::internal("boom".to_string()))), "boom");
}

#[test]
fn test_conversions() {
    assert!(ensure_convertible(Some(Conversion::NoOp), Conversion::Hard).is_ok());
    assert_err(ensure_convertible(Some(Conversion::Soft), Conversion::Hard), "hard conversion path required; available: soft conversion");
    assert_err(ensure_convertible(None, Conversion::Soft), "no conversion paths found");
    assert_eq!(Conversion::from_path(true, -1), Some(Conversion::NoOp));
    assert_eq!(Conversion::from_path(false, 0), Some(Conversion::Soft));
    assert_eq!(Conversion::from_path(false, 1), Some(Conversion::Hard));
    assert_eq!(Conversion::from_path(false, -1), None);
    assert_eq!(Conversion::default(), Conversion::NoOp);
    assert_eq!(Reader::new().no_convert().conv, Conversion::NoOp);
    assert_eq!(Writer::new().conversion(Conversion::Hard).conv, Conversion::Hard);
    assert!(Reader::new().check_conversion(Some(Conversion::Soft)).is_ok());
    assert_err(Writer::new().no_convert().check_conversion(Some(Conversion::Hard)), "no-op conversion path required; available: hard conversion");
}

#[test]
fn test_slice_plans() {
    let sel = Selection::Hyperslab(Hyperslab::new(vec![SliceOrIndex::Index(1), SliceOrIndex::Slice { start: 0, step: 2, end: None, block: false }]));
    assert_err(prepare_slice(true, sel.clone(), &[3, 4]), "Slicing cannot be used on attribute datasets");
    let plan = prepare_slice(false, sel, &[3, 4]).unwrap();
    assert_eq!(plan.out_shape, vec![2]);
    assert_eq!(plan.out_size, 2);
    assert!(check_slice(Some(1), &plan.out_shape, plan.out_size, 2, None).is_ok());
    assert_err(check_slice(Some(2), &plan.out_shape, plan.out_size, 2, None), "Selection ndim (1) != array ndim (2)");
    assert_err(check_slice(None, &plan.out_shape, 2, 3, None), "Selected size mismatch: 2 != 3 (shouldn't happen)");
    assert_err(check_slice(None, &[2, 3], 6, 6, Some(&[3, 2])), "Shape mismatch: memory ([3, 2]) != destination ([2, 3])");
    assert_eq!(slice_transfer(&[2], 0, 2, true).unwrap(), SliceTransfer::Nothing);
    assert_eq!(slice_transfer(&[], 1, 0, true).unwrap(), SliceTransfer::Whole);
    assert_eq!(slice_transfer(&[2], 2, 2, true).unwrap(), SliceTransfer::Partial(vec![2]));
    assert_err(slice_transfer(&[2], 2, 2, false), "Input array is not in standard layout or non-contiguous");
    assert_err(Reader::check_ndim(2, 3), "ndim mismatch: expected 2, got 3");
    assert_err(Reader::check_scalar(1), "ndim mismatch: expected scalar, got 1");
    assert_err(Writer::check_write(true, &[2], &[3]), "shape mismatch when writing: memory = [2], destination = [3]");
    assert_err(Writer::check_write(false, &[2], &[2]), "input array is not in standard layout or is not contiguous");
}

#[test]
fn test_get_obj_ids() {
    assert_eq!(File::get_obj_ids(5, Ok(vec![3, 5, 7, 5])), vec![3, 7]);
    assert_eq!(File::get_obj_ids(5, Ok(vec![])), Vec::<i64>::new());
    assert_eq!(File::get_obj_ids(5, Err(Error::internal("failed".to_string()))), Vec::<i64>::new());
}

#[test]
fn test_check_write_raw() {
    assert!(Writer::check_write_raw(true, 3, 3).is_ok());
    assert_err(Writer::check_write_raw(false, 3, 3), "input array is not in standard layout or is not contiguous");
    assert_err(Writer::check_write_raw(true, 2, 3), "length mismatch when writing: memory = 2, destination = 3");
}

#[test]
fn test_file_plists() {
    let f = File::new(Err(Error::internal("no fapl".to_string())), Err(Error::internal("no fcpl".to_string())));
    assert_eq!(f.fapl().err().unwrap().message(), "no fapl");
    assert_eq!(f.fcpl().err().unwrap().message(), "no fcpl");
}

/// The intent the library reports for a file opened as requested: the flags
/// it was opened with, or read-write for a created file.
fn reported_intent(mode: &str) -> u32 {
    match File::open("test.h5", mode).unwrap().action {
        FileAction::Open { flags, .. } => flags,
        _ => ACC_RDWR,
    }
}

#[test]
pub fn file_test_is_read_only() {
    assert!(!File::is_read_only(Ok(reported_intent("w"))));
    assert!(File::is_read_only(Ok(reported_intent("r"))));
    assert!(!File::is_read_only(Ok(reported_intent("r+"))));
    assert!(!File::is_read_only(Ok(reported_intent("a"))));
    assert!(!File::is_read_only(Ok(reported_intent("x"))));
    assert!(File::is_read_only(Err(Error::internal("closed".to_string()))));
}

#[test]
fn test_error_of_query() {
    let walk = vec![
        RawErrorFrame { desc: "d".into(), func: "f".into(), major: Ok("M".into()), minor: Ok("m".into()) },
    ];
    match error_of_query(3, walk).unwrap() {
        Error::HDF5(Some(s)) => assert_eq!(s.description(), "f(): d"),
        other => panic!("unexpected error {:?}", other),
    }
    assert_eq!(error_of_query(-1, vec![]).unwrap_err().message(), "Could not get errorstack");
    let bad = vec![RawErrorFrame {
        desc: "d".into(),
        func: "f".into(),
        major: Ok("M".into()),
        minor: Err(Error::internal("no message".to_string())),
    }];
    let unreadable = error_of_query(3, bad).unwrap();
    assert!(matches!(unreadable, Error::HDF5(None)));
    assert_eq!(unreadable.message(), "Could not get error stack");
}

#[test]
fn test_error_stack_index_and_unreadable_check() {
    let walk = vec![
        RawErrorFrame { desc: "d1".into(), func: "f1".into(), major: Ok("M".into()), minor: Ok("m".into()) },
        RawErrorFrame { desc: "d2".into(), func: "f2".into(), major: Ok("M".into()), minor: Ok("m".into()) },
    ];
    let stack = ErrorStack::into_stack(walk).unwrap();
    assert_eq!(stack.index(0).desc(), "d1");
    assert_eq!(stack.index(1).desc(), "d2");

    let bad = vec![RawErrorFrame {
        desc: "d".into(),
        func: "f".into(),
        major: Err(Error::internal("no message".to_string())),
        minor: Ok("m".into()),
    }];
    let r = h5check(-1i32, error_of_query(2, bad));
    assert!(matches!(r, Err(Error::HDF5(None))));
    let r = h5check(-1i32, error_of_query(-1, vec![]));
    assert_eq!(r.unwrap_err().message(), "Could not get errorstack");
    assert_eq!(h5check(5i32, error_of_query(-1, vec![])).unwrap(), 5);
}
