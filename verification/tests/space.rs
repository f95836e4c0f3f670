use hdf5::dataspace::{Dataspace as SimpleSpace, Extent, Extents};
use hdf5::space::{Dataspace, Dimension};

#[test]
pub fn test_dimension() {
    fn f<D: Dimension>(d: D) -> (usize, Vec<usize>, usize) {
        (d.ndim(), d.dims(), d.size())
    }

    assert_eq!(f(()), (0, vec![], 0));
    assert_eq!(f(&()), (0, vec![], 0));
    assert_eq!(f(2), (1, vec![2], 2));
    assert_eq!(f(&3), (1, vec![3], 3));
    assert_eq!(f((4,)), (1, vec![4], 4));
    assert_eq!(f(&(5,)), (1, vec![5], 5));
    assert_eq!(f((1, 2)), (2, vec![1, 2], 2));
    assert_eq!(f(&(3, 4)), (2, vec![3, 4], 12));
    assert_eq!(f(vec![2, 3]), (2, vec![2, 3], 6));
    assert_eq!(f(&vec![4, 5]), (2, vec![4, 5], 20));
}

#[test]
pub fn space_test_debug_display() {
    assert_eq!(Dataspace::new(()).to_string(), "<HDF5 dataspace: ()>");
    assert_eq!(Dataspace::new(3).to_string(), "<HDF5 dataspace: (3,)>");
    assert_eq!(Dataspace::new((1, 2)).to_string(), "<HDF5 dataspace: (1, 2)>");
}

#[test]
fn test_space_dims() {
    let d = Dataspace::new((5, 6));
    assert_eq!((d.ndim(), d.dims(), d.size()), (2, vec![5, 6], 30));
    assert_eq!(Dataspace::new(()).dims(), Vec::<usize>::new());
    assert_eq!(Dataspace::new((2, 3, 4)).size(), 24);
    assert_eq!(Dataspace::new((2, 3, 4, 5)).size(), 120);
}

#[test]
fn test_dataspace_repr() {
    assert_eq!(SimpleSpace::try_new(Extents::Null).unwrap().to_string(), "<HDF5 dataspace: null>");
    assert_eq!(SimpleSpace::try_new(Extents::Scalar).unwrap().to_string(), "<HDF5 dataspace: scalar>");
    assert_eq!(SimpleSpace::try_new(Extents::fixed(&[123])).unwrap().to_string(), "<HDF5 dataspace: (123,)>");
    assert_eq!(
        SimpleSpace::try_new(Extents::Simple(vec![
            Extent::fixed(5),
            Extent::new(6, Some(10)),
            Extent::resizable(7),
        ]))
        .unwrap()
        .to_string(),
        "<HDF5 dataspace: (5, 6..=10, 7..)>"
    );
}

#[test]
fn test_dataspace_null() {
    let space = SimpleSpace::try_new(Extents::Null).unwrap();
    assert_eq!(space.ndim(), 0);
    assert_eq!(space.shape(), Vec::<usize>::new());
    assert_eq!(space.maxdims(), vec![]);
    assert_eq!(space.size(), 0);
    assert!(space.is_null());
    assert_eq!(space.extents(), Extents::Null);
}

#[test]
fn test_dataspace_scalar() {
    let space = SimpleSpace::try_new(Extents::Scalar).unwrap();
    assert_eq!(space.ndim(), 0);
    assert_eq!(space.shape(), Vec::<usize>::new());
    assert_eq!(space.maxdims(), vec![]);
    assert_eq!(space.size(), 1);
    assert!(space.is_scalar());
    assert_eq!(space.extents(), Extents::Scalar);
}

#[test]
fn test_dataspace_simple() {
    let space = SimpleSpace::try_new(Extents::fixed(&[123])).unwrap();
    assert_eq!(space.ndim(), 1);
    assert_eq!(space.shape(), vec![123]);
    assert_eq!(space.maxdims(), vec![Some(123)]);
    assert_eq!(space.size(), 123);
    assert!(space.is_simple());
    assert_eq!(space.extents(), Extents::fixed(&[123]));
    assert!(!space.is_resizable());

    let e = Extents::Simple(vec![Extent::fixed(5), Extent::new(6, Some(10)), Extent::resizable(7)]);
    let space = SimpleSpace::try_new(e.clone()).unwrap();
    assert_eq!(space.ndim(), 3);
    assert_eq!(space.shape(), vec![5, 6, 7]);
    assert_eq!(space.maxdims(), vec![Some(5), Some(10), None]);
    assert_eq!(space.size(), 210);
    assert!(space.is_simple());
    assert_eq!(space.extents(), e);
    assert!(space.is_resizable());
}

#[test]
fn test_extents_raw() {
    let e = Extents::Simple(vec![Extent::fixed(5), Extent::new(6, Some(10)), Extent::resizable(7)]);
    let (class, dims, maxdims) = e.to_raw();
    assert_eq!(class, 1);
    assert_eq!(dims, vec![5, 6, 7]);
    assert_eq!(maxdims, vec![5, 10, u64::MAX]);
    assert_eq!(Extents::from_raw(class, &dims, &maxdims).unwrap(), e);
    assert_eq!(Extents::Null.to_raw().0, 2);
    assert_eq!(Extents::Scalar.to_raw().0, 0);
    assert_eq!(Extents::from_raw(2, &[], &[]).unwrap(), Extents::Null);
    assert_eq!(Extents::from_raw(0, &[], &[]).unwrap(), Extents::Scalar);
    assert_eq!(Extents::from_raw(-1, &[], &[]).unwrap_err().message(), "Invalid extents type: -1");
}
