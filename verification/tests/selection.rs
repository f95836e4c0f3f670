use hdf5::error::Error;
use hdf5::points::Points;
use hdf5::selection::{Hyperslab, RawHyperslab, RawSelection, RawSlice, Selection, SliceOrIndex};
use hdf5::selection::SliceOrIndex::{Index, Slice, Unlimited};

fn assert_err<T>(r: Result<T, Error>, msg: &str) {
    match r {
        Ok(_) => panic!("not an error; expected `{}`", msg),
        Err(e) => {
            let m = e.message();
            assert!(m.contains(msg), "error message `{}` doesn't contain `{}`", m, msg);
        }
    }
}

fn sl(start: isize, end: Option<isize>, step: isize) -> SliceOrIndex {
    Slice { start, step, end, block: false }
}

fn hs(dims: Vec<SliceOrIndex>) -> Hyperslab {
    Hyperslab::new(dims)
}

fn points(rows: Vec<Vec<usize>>) -> Points {
    let ncols = if rows.is_empty() { 0 } else { rows[0].len() };
    Points::new(ncols, rows).unwrap()
}

fn raw(dims: Vec<RawSlice>) -> RawHyperslab {
    RawHyperslab::new(dims)
}

#[test]
fn test_slice_or_index_impl() {
    let s = Index(2);
    assert!(s.is_index());
    assert!(!s.is_slice());
    assert!(!s.is_unlimited());
    assert_err(s.to_unlimited(), "Cannot make index selection unlimited");
    assert_err(s.to_block(), "Cannot make index selection block-like");

    let s = sl(2, Some(6), 1);
    assert!(!s.is_index());
    assert!(s.is_slice());
    assert!(!s.is_unlimited());
    assert_err(s.to_unlimited(), "Cannot make bounded slice unlimited");
    assert_eq!(s.to_block().unwrap(), Slice { start: 2, step: 1, end: Some(6), block: true });

    let s = sl(3, None, 1).to_unlimited().unwrap();
    assert_eq!(s, Unlimited { start: 3, step: 1, block: false });
    assert!(!s.is_index());
    assert!(!s.is_slice());
    assert!(s.is_unlimited());
    assert_eq!(s.to_unlimited().unwrap(), s);
    assert_eq!(s.to_block().unwrap(), Unlimited { start: 3, step: 1, block: true });

    for (s, f) in &[
        (Index(-1), "-1"),
        (Slice { start: 0, step: 1, end: None, block: false }, ".."),
        (Slice { start: 0, step: 1, end: None, block: true }, "..(B)"),
        (Slice { start: -1, step: 3, end: None, block: false }, "-1..;3"),
        (Slice { start: -1, step: 1, end: None, block: true }, "-1..(B)"),
        (Slice { start: 0, step: 1, end: Some(5), block: false }, "..5"),
        (Slice { start: 0, step: 3, end: Some(5), block: true }, "..5;3(B)"),
        (Slice { start: -1, step: 1, end: Some(5), block: false }, "-1..5"),
        (Slice { start: -1, step: 1, end: Some(5), block: true }, "-1..5(B)"),
        (Unlimited { start: 0, step: 1, block: false }, "..∞"),
        (Unlimited { start: 0, step: 3, block: true }, "..∞;3(B)"),
        (Unlimited { start: -1, step: 1, block: false }, "-1..∞"),
        (Unlimited { start: -1, step: 3, block: true }, "-1..∞;3(B)"),
    ] {
        assert_eq!(s.to_string(), f.to_owned());
    }
}

#[test]
fn test_selection_default() {
    assert!(Selection::default().is_all());
}

#[test]
fn test_hyperslab_impl() {
    let h = hs(vec![Index(0), sl(1, Some(10), 1), sl(2, None, 3)]);
    assert!(!h.is_unlimited());
    assert!(h.unlimited_axis().is_none());

    assert_err(h.set_unlimited(0), "Cannot make index selection unlimited");
    assert_err(h.set_unlimited(1), "Cannot make bounded slice unlimited");
    assert_err(h.set_unlimited(3), "Invalid axis for making hyperslab unlimited: 3");
    let u = h.set_unlimited(2).unwrap();
    assert!(u.is_unlimited());
    assert_eq!(u.unlimited_axis(), Some(2));
    assert_eq!(
        u.to_vec(),
        vec![Index(0), sl(1, Some(10), 1), Unlimited { start: 2, step: 3, block: false }]
    );
    assert_err(u.set_unlimited(1), "The hyperslab already has one unlimited axis");
    assert_eq!(u.set_unlimited(2).unwrap(), u);

    assert_err(u.set_block(0), "Cannot make index selection block-like");
    assert_err(u.set_block(3), "Invalid axis for changing the slice to block-like: 3");
    let b = u.set_block(1).unwrap();
    assert_eq!(
        b.to_vec(),
        vec![
            Index(0),
            Slice { start: 1, step: 1, end: Some(10), block: true },
            Unlimited { start: 2, step: 3, block: false },
        ]
    );
    let b = b.set_block(2).unwrap();
    assert_eq!(
        b.to_vec(),
        vec![
            Index(0),
            Slice { start: 1, step: 1, end: Some(10), block: true },
            Unlimited { start: 2, step: 3, block: true },
        ]
    );
    assert_eq!(b.set_block(1).unwrap().set_block(2).unwrap(), b);
}

#[test]
fn test_selection_all_impl() {
    let s = Selection::All;
    assert_eq!(s, s);
    assert!(s.is_all() && !s.is_hyperslab() && !s.is_points() && !s.is_none());
    assert_ne!(s, Selection::Hyperslab(hs(vec![])));
    assert_ne!(s, Selection::Points(Points::empty()));
    assert_eq!(s.in_ndim(), None);
    assert_eq!(s.out_ndim(), None);
    assert_eq!(s.out_shape(&[1, 2, 3]).unwrap(), vec![1, 2, 3]);
    assert_eq!(s.to_string(), "..");
}

#[test]
fn test_selection_points_impl() {
    let s = Selection::Points(points(vec![vec![1, 2, 3], vec![4, 5, 6]]));
    assert_eq!(s, s);
    assert!(!s.is_all() && !s.is_hyperslab() && s.is_points() && !s.is_none());
    assert_ne!(s, Selection::Hyperslab(hs(vec![])));
    assert_ne!(s, Selection::All);
    assert_eq!(s.in_ndim(), Some(3));
    assert_eq!(s.out_ndim(), Some(1));
    assert_eq!(s.out_shape(&[5, 10, 15]).unwrap(), vec![2]);
    assert_eq!(s.to_string(), "[[1, 2, 3],\n [4, 5, 6]]");
}

#[test]
fn test_selection_none_impl() {
    let s = Selection::Points(Points::from_column(&[]));
    assert_eq!(s, s);
    assert!(!s.is_all() && !s.is_hyperslab() && !s.is_points() && s.is_none());
    assert_eq!(s.in_ndim(), None);
    assert_eq!(s.out_shape(&[1, 2, 3]).unwrap(), Vec::<usize>::new());
    assert_eq!(s.to_string(), "[]");
}

#[test]
fn test_selection_hyperslab_impl() {
    let s = Selection::Hyperslab(hs(vec![Index(1), sl(2, None, 2)]));
    assert_eq!(s, s);
    assert!(!s.is_all() && s.is_hyperslab() && !s.is_points() && !s.is_none());
    assert_ne!(s, Selection::All);
    assert_ne!(s, Selection::Points(Points::empty()));
    assert_eq!(s.in_ndim(), Some(2));
    assert_eq!(s.out_ndim(), Some(1));
    assert_eq!(s.out_shape(&[10, 20]).unwrap(), vec![9]);
    assert_eq!(Selection::Hyperslab(hs(vec![Index(1)])).to_string(), "(1,)");
    assert_eq!(Selection::Hyperslab(hs(vec![])).to_string(), "()");

    let h = hs(vec![Index(1), sl(2, None, 3), sl(0, Some(4), 1), sl(5, None, 1)])
        .set_unlimited(1)
        .unwrap();
    assert_eq!(h.to_string(), "(1, 2..∞;3, ..4, 5..)");
    let s = Selection::Hyperslab(h);
    assert_eq!(s.to_string(), "(1, 2..∞;3, ..4, 5..)");
    assert_err(s.out_shape(&[2, 3, 4, 5]), "Unable to get the shape for unlimited hyperslab");
}

#[test]
fn test_hyperslab_into_from_raw_err() {
    fn check(hyper: Hyperslab, shape: &[usize], err: &str) {
        assert_err(hyper.into_raw(shape), err);
    }

    check(
        hs(vec![
            Unlimited { start: 0, step: 1, block: false },
            Unlimited { start: 0, step: 1, block: false },
        ]),
        &[1, 2],
        "Expected at most 1 unlimited dimension, got 2",
    );
    check(hs(vec![Index(1), Index(2)]), &[1, 2, 3], "Slice ndim (2) != shape ndim (3)");
    check(hs(vec![Index(0), sl(0, None, -1)]), &[1, 2], "Slice stride -1 < 1 for axis 1");
    check(hs(vec![Index(0), Index(0)]), &[0, 1], "Index 0 out of bounds for axis 0 with size 0");
    check(hs(vec![sl(0, None, 1), Index(1)]), &[0, 1], "Index 1 out of bounds for axis 1 with size 1");
    check(hs(vec![Index(-3)]), &[2], "Index -3 out of bounds for axis 0 with size 2");
    check(hs(vec![Index(2)]), &[2], "Index 2 out of bounds for axis 0 with size 2");
    check(hs(vec![Index(0), sl(3, None, 1)]), &[1, 2], "Slice start 3 out of bounds for axis 1 with size 2");
    check(hs(vec![sl(-2, None, 2), Index(0)]), &[1, 2], "Slice start -2 out of bounds for axis 0 with size 1");
    check(hs(vec![Index(0), sl(0, Some(4), 1)]), &[1, 2], "Slice end 4 out of bounds for axis 1 with size 2");
    check(hs(vec![sl(0, Some(-3), 2), Index(0)]), &[1, 2], "Slice end -3 out of bounds for axis 0 with size 1");
    check(
        hs(vec![Index(0), Unlimited { start: 0, step: -1, block: true }]),
        &[1, 2],
        "Slice stride -1 < 1 for axis 1",
    );
    check(
        hs(vec![Index(0), Unlimited { start: 3, step: 1, block: false }]),
        &[1, 2],
        "Slice start 3 out of bounds for axis 1 with size 2",
    );
    check(
        hs(vec![Unlimited { start: -2, step: 2, block: true }, Index(0)]),
        &[1, 2],
        "Slice start -2 out of bounds for axis 0 with size 1",
    );

    assert_err(
        Hyperslab::from_raw(raw(vec![RawSlice::new(0, 2, Some(1), 3)])),
        "Unsupported block/step for axis 0: 3/2",
    );
}

#[test]
fn test_points_into_raw_err() {
    assert_err(
        Selection::Points(points(vec![vec![1, 2], vec![3, 5]])).out_shape(&[4, 3]),
        "Index 5 out of bounds for axis 1 with size 3",
    );
}

fn check_roundtrip(
    shape: &[usize], hyper: Hyperslab, exp_raw_hyper: RawHyperslab, exp_raw_sel: Option<RawSelection>,
    exp_hyper2: Hyperslab, exp_sel2: Option<Selection>,
) {
    let exp_raw_sel = exp_raw_sel.unwrap_or(RawSelection::RegularHyperslab(exp_raw_hyper.clone()));
    let exp_sel2 = exp_sel2.unwrap_or(Selection::Hyperslab(exp_hyper2.clone()));

    let raw_hyper = hyper.clone().into_raw(shape).unwrap();
    assert_eq!(raw_hyper, exp_raw_hyper);

    let sel = Selection::Hyperslab(hyper.clone());
    let raw_sel = sel.clone().into_raw(shape).unwrap();
    assert_eq!(raw_sel, exp_raw_sel);

    let hyper2 = Hyperslab::from_raw(raw_hyper.clone()).unwrap();
    assert_eq!(hyper2, exp_hyper2);

    let sel2 = Selection::from_raw(raw_sel.clone()).unwrap();
    assert_eq!(sel2, exp_sel2);

    let raw_hyper2 = hyper2.clone().into_raw(shape).unwrap();
    assert_eq!(raw_hyper2, raw_hyper);

    let raw_sel2 = sel2.clone().into_raw(shape).unwrap();
    assert_eq!(raw_sel2, raw_sel);
}

#[test]
fn test_hyperslab_into_from_raw() {
    check_roundtrip(&[], hs(vec![]), raw(vec![]), Some(RawSelection::All), hs(vec![]), Some(Selection::All));

    check_roundtrip(
        &[5, 5, 5],
        hs(vec![sl(0, None, 1), sl(0, Some(5), 1), sl(0, Some(5), 1)]),
        raw(vec![RawSlice::new(0, 1, Some(5), 1); 3]),
        Some(RawSelection::All),
        hs(vec![sl(0, Some(5), 1), sl(0, Some(5), 1), sl(0, Some(5), 1)]),
        Some(Selection::All),
    );

    check_roundtrip(
        &[0; 6],
        hs(vec![
            sl(0, None, 1),
            sl(0, None, 1),
            sl(0, Some(0), 1),
            sl(0, Some(0), 1),
            sl(0, None, 1),
            sl(0, None, 2),
        ]),
        raw(vec![
            RawSlice::new(0, 1, Some(0), 1),
            RawSlice::new(0, 1, Some(0), 1),
            RawSlice::new(0, 1, Some(0), 1),
            RawSlice::new(0, 1, Some(0), 1),
            RawSlice::new(0, 1, Some(0), 1),
            RawSlice::new(0, 2, Some(0), 1),
        ]),
        Some(RawSelection::Empty),
        hs(vec![
            sl(0, Some(0), 1),
            sl(0, Some(0), 1),
            sl(0, Some(0), 1),
            sl(0, Some(0), 1),
            sl(0, Some(0), 1),
            sl(0, Some(0), 2),
        ]),
        Some(Selection::Points(Points::empty())),
    );

    check_roundtrip(
        &[3; 10],
        hs(vec![
            sl(0, None, 1),
            sl(0, None, 2),
            sl(1, None, 1),
            sl(1, None, 2),
            sl(-3, Some(2), 1),
            sl(-3, None, 2),
            sl(0, None, 1),
            sl(0, None, 3),
            sl(0, Some(-1), 1),
            sl(2, None, 1),
        ]),
        raw(vec![
            RawSlice::new(0, 1, Some(3), 1),
            RawSlice::new(0, 2, Some(2), 1),
            RawSlice::new(1, 1, Some(2), 1),
            RawSlice::new(1, 2, Some(1), 1),
            RawSlice::new(0, 1, Some(2), 1),
            RawSlice::new(0, 2, Some(2), 1),
            RawSlice::new(0, 1, Some(3), 1),
            RawSlice::new(0, 3, Some(1), 1),
            RawSlice::new(0, 1, Some(2), 1),
            RawSlice::new(2, 1, Some(1), 1),
        ]),
        None,
        hs(vec![
            sl(0, Some(3), 1),
            sl(0, Some(3), 2),
            sl(1, Some(3), 1),
            sl(1, Some(2), 2),
            sl(0, Some(2), 1),
            sl(0, Some(3), 2),
            sl(0, Some(3), 1),
            sl(0, Some(1), 3),
            sl(0, Some(2), 1),
            sl(2, Some(3), 1),
        ]),
        None,
    );

    check_roundtrip(
        &[10; 4],
        hs(vec![sl(-5, None, 1), Index(-10), sl(1, Some(-1), 2), Index(1)]),
        raw(vec![
            RawSlice::new(5, 1, Some(5), 1),
            RawSlice::new(0, 1, Some(1), 1),
            RawSlice::new(1, 2, Some(4), 1),
            RawSlice::new(1, 1, Some(1), 1),
        ]),
        None,
        hs(vec![sl(5, Some(10), 1), sl(0, Some(1), 1), sl(1, Some(8), 2), sl(1, Some(2), 1)]),
        None,
    );

    check_roundtrip(
        &[10; 3],
        hs(vec![sl(-5, None, 2), Index(-10), sl(1, Some(-3), 3)])
            .set_unlimited(0)
            .unwrap()
            .set_block(0)
            .unwrap()
            .set_block(2)
            .unwrap(),
        raw(vec![
            RawSlice::new(5, 2, None, 2),
            RawSlice::new(0, 1, Some(1), 1),
            RawSlice::new(1, 3, Some(2), 3),
        ]),
        None,
        hs(vec![sl(5, None, 2), sl(0, Some(1), 1), sl(1, Some(7), 3)])
            .set_unlimited(0)
            .unwrap()
            .set_block(0)
            .unwrap()
            .set_block(2)
            .unwrap(),
        None,
    );

    check_roundtrip(
        &[7; 7],
        hs(vec![
            sl(1, Some(2), 3),
            sl(1, Some(3), 3),
            sl(1, Some(4), 3),
            sl(1, Some(5), 3),
            sl(1, Some(6), 3),
            sl(1, Some(7), 3),
            sl(0, Some(7), 3),
        ]),
        raw(vec![
            RawSlice::new(1, 3, Some(1), 1),
            RawSlice::new(1, 3, Some(1), 1),
            RawSlice::new(1, 3, Some(1), 1),
            RawSlice::new(1, 3, Some(2), 1),
            RawSlice::new(1, 3, Some(2), 1),
            RawSlice::new(1, 3, Some(2), 1),
            RawSlice::new(0, 3, Some(3), 1),
        ]),
        None,
        hs(vec![
            sl(1, Some(2), 3),
            sl(1, Some(2), 3),
            sl(1, Some(2), 3),
            sl(1, Some(5), 3),
            sl(1, Some(5), 3),
            sl(1, Some(5), 3),
            sl(0, Some(7), 3),
        ]),
        None,
    );

    check_roundtrip(
        &[7; 4],
        hs(vec![sl(1, Some(4), 3), sl(1, Some(5), 3), sl(1, Some(6), 3), sl(1, Some(7), 3)])
            .set_block(0)
            .unwrap()
            .set_block(1)
            .unwrap()
            .set_block(2)
            .unwrap()
            .set_block(3)
            .unwrap(),
        raw(vec![
            RawSlice::new(1, 3, Some(1), 3),
            RawSlice::new(1, 3, Some(1), 3),
            RawSlice::new(1, 3, Some(1), 3),
            RawSlice::new(1, 3, Some(2), 3),
        ]),
        None,
        hs(vec![sl(1, Some(4), 3), sl(1, Some(4), 3), sl(1, Some(4), 3), sl(1, Some(7), 3)])
            .set_block(0)
            .unwrap()
            .set_block(1)
            .unwrap()
            .set_block(2)
            .unwrap()
            .set_block(3)
            .unwrap(),
        None,
    );
}

fn check_in_out(sel: Selection, exp_in_ndim: Option<usize>, exp_out_shape: &[usize], exp_out_ndim: Option<usize>) -> Result<(), Error> {
    let in_shape = [7, 8];
    assert_eq!(sel.in_ndim(), exp_in_ndim);
    let out_shape = sel.out_shape(&in_shape)?;
    let out_ndim = sel.out_ndim();
    assert_eq!(out_shape.as_slice(), exp_out_shape);
    assert_eq!(out_ndim, exp_out_ndim);
    if let Some(out_ndim) = out_ndim {
        assert_eq!(out_shape.len(), out_ndim);
    } else {
        assert_eq!(out_shape.len(), in_shape.len());
    }
    Ok(())
}

#[test]
fn test_in_out_shape_ndim() {
    check_in_out(Selection::All, None, &[7, 8], None).unwrap();
    check_in_out(Selection::Points(Points::empty()), None, &[], Some(0)).unwrap();
    check_in_out(Selection::Points(points(vec![vec![0, 1]])), Some(2), &[1], Some(1)).unwrap();
    check_in_out(Selection::Points(points(vec![vec![0, 1], vec![2, 3], vec![4, 5]])), Some(2), &[3], Some(1)).unwrap();
    check_in_out(Selection::Hyperslab(hs(vec![Index(1), Index(2)])), Some(2), &[], Some(0)).unwrap();
    check_in_out(Selection::Hyperslab(hs(vec![Index(1), sl(2, None, 2)])), Some(2), &[3], Some(1)).unwrap();
    check_in_out(Selection::Hyperslab(hs(vec![sl(1, None, 3), Index(2)])), Some(2), &[2], Some(1)).unwrap();
    check_in_out(Selection::Hyperslab(hs(vec![sl(1, None, 3), sl(2, None, 2)])), Some(2), &[2, 3], Some(2)).unwrap();
    check_in_out(
        Selection::Hyperslab(hs(vec![Index(1), sl(2, None, 2)]).set_block(1).unwrap()),
        Some(2),
        &[6],
        Some(1),
    )
    .unwrap();
    check_in_out(
        Selection::Hyperslab(hs(vec![sl(1, None, 3), Index(2)]).set_block(0).unwrap()),
        Some(2),
        &[6],
        Some(1),
    )
    .unwrap();
    check_in_out(
        Selection::Hyperslab(hs(vec![sl(1, None, 3), sl(2, None, 2)]).set_block(0).unwrap().set_block(1).unwrap()),
        Some(2),
        &[6, 6],
        Some(2),
    )
    .unwrap();

    assert_err(
        check_in_out(Selection::Points(points(vec![vec![1, 2, 3]])), Some(3), &[], None),
        "Slice ndim (3) != shape ndim (2)",
    );
    assert_err(
        check_in_out(Selection::Points(points(vec![vec![7, 1]])), Some(2), &[], None),
        "Index 7 out of bounds for axis 0 with size 7",
    );
}

fn check_sel(shape: &[usize], sel: Selection, exp_raw_sel: RawSelection, exp_sel2: Option<Selection>) {
    let exp_sel2 = exp_sel2.unwrap_or(sel.clone());
    let raw_sel = sel.clone().into_raw(shape).unwrap();
    assert_eq!(raw_sel, exp_raw_sel);
    let sel2 = Selection::from_raw(raw_sel.clone()).unwrap();
    assert_eq!(sel2, exp_sel2);
    let raw_sel2 = sel2.clone().into_raw(shape).unwrap();
    assert_eq!(raw_sel2, raw_sel);
}

#[test]
fn test_selection_into_from_raw() {
    check_sel(&[5, 6], Selection::All, RawSelection::All, None);
    check_sel(&[5, 6], Selection::Points(Points::empty()), RawSelection::Empty, None);
    check_sel(
        &[5, 6],
        Selection::Points(Points::new(2, vec![]).unwrap()),
        RawSelection::Empty,
        Some(Selection::Points(Points::empty())),
    );
    check_sel(
        &[5, 6],
        Selection::Points(points(vec![vec![1, 2]])),
        RawSelection::Points(points(vec![vec![1, 2]])),
        None,
    );
    check_sel(
        &[5, 6],
        Selection::Hyperslab(hs(vec![sl(1, Some(1), 2), Index(3)])),
        RawSelection::Empty,
        Some(Selection::Points(Points::from_column(&[]))),
    );
    check_sel(
        &[5, 6],
        Selection::Hyperslab(hs(vec![sl(-5, None, 1), sl(0, None, 1)])),
        RawSelection::All,
        Some(Selection::All),
    );
    check_sel(
        &[5, 6],
        Selection::Hyperslab(hs(vec![sl(1, None, 2), Index(3)])),
        RawSelection::RegularHyperslab(raw(vec![RawSlice::new(1, 2, Some(2), 1), RawSlice::new(3, 1, Some(1), 1)])),
        Some(Selection::Hyperslab(hs(vec![sl(1, Some(4), 2), sl(3, Some(4), 1)]))),
    );

    assert_err(Selection::from_raw(RawSelection::ComplexHyperslab), "Cannot convert complex hyperslabs");
}

#[test]
fn test_points_from_column() {
    let p = Points::from_column(&[1, 2, 3]);
    assert_eq!(p, points(vec![vec![1], vec![2], vec![3]]));
    assert_eq!((p.nrows(), p.ncols()), (3, 1));
    assert_eq!(p.get(2, 0), 3);
    assert!(Points::new(2, vec![vec![1, 2], vec![3]]).is_none());
}

#[test]
fn test_abs_index() {
    assert_eq!(hdf5::selection::abs_index(5, -1), 4);
    assert_eq!(hdf5::selection::abs_index(5, 2), 2);
}
