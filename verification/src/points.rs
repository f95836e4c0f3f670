//! Point selections: a table of coordinates with one row per selected point
//! and one column per axis of the dataspace.

use vstd::prelude::*;
use crate::error::Error;
use crate::selection::{msg_ndim, msg_out_of_bounds, out_of_bounds};
use crate::text::{push_str, push_usize, string_of};

verus! {

/// Abstract value of a [`Points`] table: its number of columns and its rows.
pub struct PointsView {
    pub ncols: nat,
    pub rows: Seq<Seq<usize>>,
}

impl PointsView {
    /// The table has the shape `(0, 0)`: it selects nothing and has no axes.
    pub open spec fn is_empty_table(self) -> bool {
        self.rows.len() == 0 && self.ncols == 0
    }
}

/// A table of point coordinates, `nrows` by `ncols`.
#[derive(Clone, Debug, PartialEq, Eq)]
pub struct Points {
    ncols: usize,
    rows: Vec<Vec<usize>>,
}

impl View for Points {
    type V = PointsView;

    closed spec fn view(&self) -> PointsView {
        PointsView { ncols: self.ncols as nat, rows: self.rows@.map_values(|r: Vec<usize>| r@) }
    }
}

/// Every row has `ncols` coordinates.
pub open spec fn rows_rectangular(ncols: nat, rows: Seq<Seq<usize>>) -> bool {
    forall|i: int| 0 <= i < rows.len() ==> (#[trigger] rows[i]).len() == ncols
}

impl Points {
    /// Every row has `ncols` coordinates; the constructors make only such
    /// tables.
    pub closed spec fn wf(&self) -> bool {
        forall|i: int| 0 <= i < self.rows@.len() ==> (#[trigger] self.rows@[i])@.len() == self.ncols
    }

    proof fn lemma_rectangular(&self)
        requires
            self.wf(),
        ensures
            rows_rectangular(self@.ncols, self@.rows),
    {
        assert forall|i: int| 0 <= i < self@.rows.len() implies (#[trigger] self@.rows[i]).len() == self@.ncols by {
            assert(self@.rows[i] == self.rows@[i]@);
        }
    }

    /// The empty table, of shape `(0, 0)`.
    pub fn empty() -> (r: Self)
        ensures
            r.wf(),
            r@.is_empty_table(),
            r@.rows == Seq::<Seq<usize>>::empty(),
    {
        let r = Points { ncols: 0, rows: Vec::new() };
        assert(r@.rows =~= Seq::<Seq<usize>>::empty());
        r
    }

    /// A table of `rows`, each with `ncols` coordinates; `None` if some row has
    /// another length.
    pub fn new(ncols: usize, rows: Vec<Vec<usize>>) -> (r: Option<Self>)
        ensures
            r is Some <==> rows_rectangular(ncols as nat, rows@.map_values(|v: Vec<usize>| v@)),
            r matches Some(p) ==> p.wf() && p@.ncols == ncols && p@.rows == rows@.map_values(|v: Vec<usize>| v@),
    {
        let ghost rv = rows@.map_values(|v: Vec<usize>| v@);
        let mut i: usize = 0;
        while i < rows.len()
            invariant
                i <= rows@.len(),
                rv == rows@.map_values(|v: Vec<usize>| v@),
                forall|j: int| 0 <= j < i ==> (#[trigger] rows@[j])@.len() == ncols,
            decreases rows@.len() - i,
        {
            if rows[i].len() != ncols {
                assert(rv[i as int].len() != ncols);
                return None;
            }
            i = i + 1;
        }
        assert(rows_rectangular(ncols as nat, rv)) by {
            assert forall|j: int| 0 <= j < rv.len() implies (#[trigger] rv[j]).len() == ncols by {
                assert(rows@[j]@.len() == ncols);
            }
        }
        Some(Points { ncols, rows })
    }

    /// A single-column table with one row per coordinate in `coords`; the empty
    /// table when `coords` is empty.
    pub fn from_column(coords: &[usize]) -> (r: Self)
        ensures
            r.wf(),
            coords@.len() == 0 ==> r@.is_empty_table(),
            coords@.len() > 0 ==> r@.ncols == 1 && r@.rows.len() == coords@.len() && forall|i: int|
                0 <= i < coords@.len() ==> #[trigger] r@.rows[i] == seq![coords@[i]],
    {
        if coords.len() == 0 {
            return Points::empty();
        }
        let mut rows: Vec<Vec<usize>> = Vec::new();
        let mut i: usize = 0;
        while i < coords.len()
            invariant
                i <= coords@.len(),
                rows@.len() == i,
                forall|j: int| 0 <= j < i ==> (#[trigger] rows@[j])@ == seq![coords@[j]],
            decreases coords@.len() - i,
        {
            let mut row: Vec<usize> = Vec::new();
            row.push(coords[i]);
            rows.push(row);
            i = i + 1;
        }
        let r = Points { ncols: 1, rows };
        assert forall|j: int| 0 <= j < coords@.len() implies #[trigger] r@.rows[j] == seq![coords@[j]] by {
            assert(r@.rows[j] == r.rows@[j]@);
        }
        r
    }

    pub fn nrows(&self) -> (r: usize)
        ensures
            r == self@.rows.len(),
    {
        self.rows.len()
    }

    pub fn ncols(&self) -> (r: usize)
        ensures
            r == self@.ncols,
    {
        self.ncols
    }

    /// The coordinate of point `i` on axis `j`.
    pub fn get(&self, i: usize, j: usize) -> (r: usize)
        requires
            self.wf(),
            i < self@.rows.len(),
            j < self@.ncols,
        ensures
            r == self@.rows[i as int][j as int],
    {
        assert(self@.rows[i as int] == self.rows@[i as int]@);
        self.rows[i][j]
    }

    /// Whether the table has the shape `(0, 0)`.
    pub fn is_empty_table(&self) -> (r: bool)
        ensures
            r == self@.is_empty_table(),
    {
        self.rows.len() == 0 && self.ncols == 0
    }

    /// The coordinates, row after row.
    pub fn to_flat(&self) -> (r: Vec<usize>)
        ensures
            r@ == flatten_rows(self@.rows),
    {
        let mut out: Vec<usize> = Vec::new();
        let mut i: usize = 0;
        while i < self.rows.len()
            invariant
                i <= self.rows@.len(),
                out@ == flatten_rows(self@.rows.take(i as int)),
            decreases self.rows@.len() - i,
        {
            let mut j: usize = 0;
            let ghost base = out@;
            while j < self.rows[i].len()
                invariant
                    i < self.rows@.len(),
                    j <= self.rows@[i as int]@.len(),
                    out@ == base + self.rows@[i as int]@.take(j as int),
                decreases self.rows@[i as int]@.len() - j,
            {
                out.push(self.rows[i][j]);
                j = j + 1;
                assert(out@ =~= base + self.rows@[i as int]@.take(j as int));
            }
            assert(self.rows@[i as int]@.take(j as int) =~= self.rows@[i as int]@);
            assert(self@.rows.take(i + 1).drop_last() =~= self@.rows.take(i as int));
            assert(self@.rows[i as int] == self.rows@[i as int]@);
            i = i + 1;
        }
        assert(self@.rows.take(i as int) =~= self@.rows);
        out
    }

    /// The table as text, as the array library prints a two-dimensional array.
    pub fn to_string(&self) -> (r: String)
        requires
            self.wf(),
        ensures
            r@ == points_display(self@.rows.len(), self@.ncols, flatten_rows(self@.rows)),
    {
        proof {
            self.lemma_rectangular();
            lemma_flatten_len(self@.rows, self@.ncols);
        }
        let flat = self.to_flat();
        format_points(self.rows.len(), self.ncols, &flat)
    }
}

/// The rows of a table laid end to end.
pub open spec fn flatten_rows(rows: Seq<Seq<usize>>) -> Seq<usize>
    decreases rows.len(),
{
    if rows.len() == 0 {
        Seq::empty()
    } else {
        flatten_rows(rows.drop_last()) + rows.last()
    }
}

proof fn lemma_flatten_len(rows: Seq<Seq<usize>>, ncols: nat)
    requires
        rows_rectangular(ncols, rows),
    ensures
        flatten_rows(rows).len() == rows.len() * ncols,
    decreases rows.len(),
{
    if rows.len() > 0 {
        assert(rows_rectangular(ncols, rows.drop_last())) by {
            assert forall|i: int| 0 <= i < rows.drop_last().len() implies (#[trigger] rows.drop_last()[i]).len() == ncols by {
                assert(rows.drop_last()[i] == rows[i]);
            }
        }
        lemma_flatten_len(rows.drop_last(), ncols);
        assert(rows.last() == rows[rows.len() - 1]);
        assert((rows.len() - 1) * ncols + ncols == rows.len() * ncols) by (nonlinear_arith);
    }
}

/// How the array library prints an `nrows` by `ncols` array of the given
/// elements, row after row.
pub uninterp spec fn points_display(nrows: nat, ncols: nat, flat: Seq<usize>) -> Seq<char>;

/// Prints a two-dimensional array with `ndarray`'s `Display` (`Array2`
/// built from its shape and its elements row after row). The result is named
/// by [`points_display`]; the layout of ndarray's output is not restated here.
#[verifier::external_body]
fn format_points(nrows: usize, ncols: usize, flat: &Vec<usize>) -> (r: String)
    requires
        flat@.len() == nrows * ncols,
    ensures
        r@ == points_display(nrows as nat, ncols as nat, flat@),
{
    match ndarray::Array2::from_shape_vec((nrows, ncols), flat.clone()) {
        Ok(a) => format!("{}", a),
        Err(_) => String::new(),
    }
}

/// The first coordinate out of bounds, scanning axis after axis and, on each
/// axis, point after point, from axis `ax` and point `r` on.
pub open spec fn scan_coords(rows: Seq<Seq<usize>>, shape: Seq<usize>, ncols: nat, ax: nat, r: nat) -> Result<(), Seq<char>>
    decreases ncols - ax, rows.len() - r,
{
    if ax >= ncols {
        Ok(())
    } else if r >= rows.len() {
        scan_coords(rows, shape, ncols, ax + 1, 0)
    } else if rows[r as int][ax as int] >= shape[ax as int] {
        Err(msg_out_of_bounds("Index "@, rows[r as int][ax as int] as int, ax, shape[ax as int] as nat))
    } else {
        scan_coords(rows, shape, ncols, ax, r + 1)
    }
}

/// What checking a table of points against a dataspace shape gives.
pub open spec fn spec_check_coords(p: PointsView, shape: Seq<usize>) -> Result<(), Seq<char>> {
    if p.is_empty_table() {
        Ok(())
    } else if p.ncols != shape.len() {
        Err(msg_ndim(p.ncols, shape.len()))
    } else {
        scan_coords(p.rows, shape, p.ncols, 0, 0)
    }
}

/// Checks that every point lies inside a dataspace of the given shape.
pub fn check_coords(points: &Points, shape: &[usize]) -> (r: Result<(), Error>)
    requires
        points.wf(),
    ensures
        match (r, spec_check_coords(points@, shape@)) {
            (Ok(_), Ok(_)) => true,
            (Err(Error::Internal(m)), Err(t)) => m@ == t,
            _ => false,
        },
{
    if points.rows.len() == 0 && points.ncols == 0 {
        return Ok(());
    }
    let ndim = points.ncols;
    if ndim != shape.len() {
        let mut s = string_of("Slice ndim (");
        push_usize(&mut s, ndim);
        push_str(&mut s, ") != shape ndim (");
        push_usize(&mut s, shape.len());
        push_str(&mut s, ")");
        return Err(Error::Internal(s));
    }
    let ghost rows = points@.rows;
    let ghost start = scan_coords(rows, shape@, ndim as nat, 0, 0);
    assert(spec_check_coords(points@, shape@) == start);
    let mut ax: usize = 0;
    while ax < ndim
        invariant
            ax <= ndim,
            ndim == points@.ncols,
            ndim == shape@.len(),
            rows == points@.rows,
            start == scan_coords(rows, shape@, ndim as nat, 0, 0),
            start == scan_coords(rows, shape@, ndim as nat, ax as nat, 0),
            spec_check_coords(points@, shape@) == start,
            forall|i: int| 0 <= i < points.rows@.len() ==> (#[trigger] points.rows@[i])@.len() == points.ncols,
        decreases ndim - ax,
    {
        let dim = shape[ax];
        let mut r: usize = 0;
        while r < points.rows.len()
            invariant
                ax < ndim,
                ndim == points@.ncols,
                ndim == shape@.len(),
                dim == shape@[ax as int],
                rows == points@.rows,
                r <= rows.len(),
                start == scan_coords(rows, shape@, ndim as nat, ax as nat, r as nat),
                spec_check_coords(points@, shape@) == start,
                forall|i: int| 0 <= i < points.rows@.len() ==> (#[trigger] points.rows@[i])@.len() == points.ncols,
            decreases rows.len() - r,
        {
            assert(rows[r as int] == points.rows@[r as int]@);
            let d = points.rows[r][ax];
            if d >= dim {
                assert(rows[r as int][ax as int] == d);
                assert(start == Err::<(), Seq<char>>(
                    msg_out_of_bounds("Index "@, d as int, ax as nat, dim as nat),
                ));
                return Err(out_of_bounds("Index ", d as i128, ax, dim));
            }
            r = r + 1;
        }
        ax = ax + 1;
    }
    Ok(())
}

/// Every coordinate from axis `ax`, point `r` on, is inside the shape.
pub open spec fn coords_inside_from(rows: Seq<Seq<usize>>, shape: Seq<usize>, ncols: nat, ax: nat, r: nat) -> bool {
    forall|a: int, i: int|
        ((ax < a < ncols && 0 <= i < rows.len()) || (a == ax && ax < ncols && r <= i < rows.len()))
            ==> #[trigger] rows[i][a] < shape[a]
}

proof fn lemma_scan_coords(rows: Seq<Seq<usize>>, shape: Seq<usize>, ncols: nat, ax: nat, r: nat)
    ensures
        scan_coords(rows, shape, ncols, ax, r) is Ok <==> coords_inside_from(rows, shape, ncols, ax, r),
    decreases ncols - ax, rows.len() - r,
{
    if ax >= ncols {
    } else if r >= rows.len() {
        lemma_scan_coords(rows, shape, ncols, ax + 1, 0);
        if coords_inside_from(rows, shape, ncols, ax + 1, 0) {
            assert forall|a: int, i: int|
                ((ax < a < ncols && 0 <= i < rows.len()) || (a == ax && ax < ncols && r <= i < rows.len()))
                    implies #[trigger] rows[i][a] < shape[a] by {
                assert((ax + 1 < a < ncols && 0 <= i < rows.len()) || (a == ax + 1 && ax + 1 < ncols && 0 <= i < rows.len()));
            }
        }
        if coords_inside_from(rows, shape, ncols, ax, r) {
            assert forall|a: int, i: int|
                ((ax + 1 < a < ncols && 0 <= i < rows.len()) || (a == ax + 1 && ax + 1 < ncols && 0 <= i < rows.len()))
                    implies #[trigger] rows[i][a] < shape[a] by {
                assert(ax < a < ncols && 0 <= i < rows.len());
            }
        }
    } else if rows[r as int][ax as int] >= shape[ax as int] {
        assert(!coords_inside_from(rows, shape, ncols, ax, r)) by {
            assert(rows[r as int][ax as int] >= shape[ax as int]);
        }
    } else {
        lemma_scan_coords(rows, shape, ncols, ax, r + 1);
        if coords_inside_from(rows, shape, ncols, ax, r + 1) {
            assert forall|a: int, i: int|
                ((ax < a < ncols && 0 <= i < rows.len()) || (a == ax && ax < ncols && r <= i < rows.len()))
                    implies #[trigger] rows[i][a] < shape[a] by {
                if a == ax && i == r {
                } else {
                    assert((ax < a < ncols && 0 <= i < rows.len()) || (a == ax && ax < ncols && r + 1 <= i < rows.len()));
                }
            }
        }
    }
}

/// A table of points passes the check against a dataspace shape exactly
/// when it is the empty table, or it has one column per axis of the shape
/// and every coordinate is below the size of its axis.
pub proof fn points_inside_law(p: PointsView, shape: Seq<usize>)
    ensures
        spec_check_coords(p, shape) is Ok <==> (p.is_empty_table() || (p.ncols == shape.len()
            && forall|i: int, a: int| 0 <= i < p.rows.len() && 0 <= a < p.ncols ==> #[trigger] p.rows[i][a] < shape[a])),
{
    lemma_scan_coords(p.rows, shape, p.ncols, 0, 0);
    if !p.is_empty_table() && p.ncols == shape.len() {
        if coords_inside_from(p.rows, shape, p.ncols, 0, 0) {
            assert forall|i: int, a: int| 0 <= i < p.rows.len() && 0 <= a < p.ncols implies #[trigger] p.rows[i][a] < shape[a] by {
                assert((0 < a < p.ncols && 0 <= i < p.rows.len()) || (a == 0 && 0 < p.ncols && 0 <= i < p.rows.len()));
            }
        }
    }
}

} // verus!
