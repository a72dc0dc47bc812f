//! Rows of a fixed stride cut from a flat run of samples, and the policies
//! that choose the stride.

use vstd::prelude::*;
use vstd::arithmetic::div_mod::{lemma_fundamental_div_mod, lemma_mod_bound};

verus! {

/// A grid as mathematical sequences: the stride and the rows.
pub ghost struct Grid<T> {
    pub side: nat,
    pub rows: Seq<Seq<T>>,
}

impl<T> Grid<T> {
    /// Every row is exactly `side` samples long.
    pub open spec fn wf(self) -> bool {
        forall|r: int| 0 <= r < self.rows.len() ==> (#[trigger] self.rows[r]).len() == self.side
    }

    /// The number of rows.
    pub open spec fn height(self) -> nat {
        self.rows.len()
    }
}

/// `samples` cut into consecutive rows of `side` samples. A last, shorter
/// piece is dropped, never padded; with a stride of zero there are no rows.
pub open spec fn chunked<T>(samples: Seq<T>, side: nat) -> Grid<T> {
    Grid {
        side,
        rows: if side == 0 {
            Seq::empty()
        } else {
            Seq::new(
                (samples.len() / side) as nat,
                |r: int| samples.subrange(r * side, r * side + side),
            )
        },
    }
}

/// An ordered sequence of rows, all of one length.
#[derive(Debug)]
pub struct PixelGrid<T> {
    side: usize,
    rows: Vec<Vec<T>>,
}

impl<T> View for PixelGrid<T> {
    type V = Grid<T>;

    closed spec fn view(&self) -> Grid<T> {
        Grid {
            side: self.side as nat,
            rows: Seq::new(self.rows@.len(), |r: int| self.rows@[r]@),
        }
    }
}

impl<T> PixelGrid<T> {
    #[verifier::type_invariant]
    spec fn uniform(self) -> bool {
        forall|r: int| 0 <= r < self.rows@.len() ==> (#[trigger] self.rows@[r])@.len() == self.side
    }

    /// The stride: the length of every row.
    pub fn side(&self) -> (side: usize)
        ensures
            side == self@.side,
    {
        self.side
    }

    /// The number of rows, each of which is `side` samples long.
    pub fn height(&self) -> (height: usize)
        ensures
            height == self@.height(),
            self@.wf(),
    {
        proof {
            use_type_invariant(self);
        }
        self.rows.len()
    }

    /// Row `r`, counted from zero, if the grid has that many rows.
    pub fn row(&self, r: usize) -> (row: Option<&Vec<T>>)
        ensures
            r < self@.height() ==> row.is_some() && row.unwrap()@ == self@.rows[r as int]
                && row.unwrap()@.len() == self@.side,
            r >= self@.height() ==> row.is_none(),
    {
        proof {
            use_type_invariant(self);
        }
        if r < self.rows.len() {
            Some(&self.rows[r])
        } else {
            None
        }
    }

    /// Gives up the grid for its rows, top to bottom.
    pub fn into_rows(self) -> (rows: Vec<Vec<T>>)
        ensures
            rows@.len() == self@.height(),
            forall|r: int|
                0 <= r < rows@.len() ==> (#[trigger] rows@[r])@ == self@.rows[r] && rows@[r]@.len()
                    == self@.side,
    {
        proof {
            use_type_invariant(&self);
        }
        self.rows
    }
}

/// Cuts `buffer` into rows of `side` samples, in order. A trailing piece
/// shorter than `side` is dropped without notice; a stride of zero, or one
/// longer than the buffer, gives a grid without rows.
pub fn reshape<T: Copy>(buffer: &Vec<T>, side: usize) -> (grid: PixelGrid<T>)
    ensures
        grid@ == chunked(buffer@, side as nat),
        grid@.wf(),
        side > 0 ==> grid@.height() == buffer@.len() / (side as nat),
{
    let mut rows: Vec<Vec<T>> = Vec::new();
    if side == 0 {
        let grid = PixelGrid { side, rows };
        assert(grid@.rows =~= chunked(buffer@, side as nat).rows);
        return grid;
    }
    let count: usize = buffer.len() / side;
    let mut r: usize = 0;
    while r < count
        invariant
            side > 0,
            count == buffer.len() / side,
            r <= count,
            rows@.len() == r,
            forall|k: int| 0 <= k < r ==> (#[trigger] rows@[k])@.len() == side,
            forall|k: int|
                0 <= k < r ==> (#[trigger] rows@[k])@ =~= buffer@.subrange(k * side, k * side + side),
        decreases count - r,
    {
        proof {
            lemma_rows_fit(buffer.len() as nat, side as nat, r as nat);
        }
        let start: usize = r * side;
        let mut row: Vec<T> = Vec::with_capacity(side);
        let mut c: usize = 0;
        while c < side
            invariant
                start + side <= buffer.len(),
                c <= side,
                row@.len() == c,
                forall|j: int| 0 <= j < c ==> row@[j] == buffer@[start + j],
            decreases side - c,
        {
            row.push(buffer[start + c]);
            c += 1;
        }
        assert(row@ =~= buffer@.subrange(r * side, r * side + side));
        rows.push(row);
        r += 1;
    }
    let grid = PixelGrid { side, rows };
    assert(grid@.rows =~= chunked(buffer@, side as nat).rows);
    grid
}

/// Where the sample in column `c` of row `r` stood in the flat buffer.
pub open spec fn cell_index(side: nat, r: int, c: int) -> int {
    r * side + c
}

/// Row `r` of a buffer of `len` samples cut at stride `side` lies within the
/// buffer, for every `r` below `len / side`.
pub proof fn lemma_rows_fit(len: nat, side: nat, r: nat)
    requires
        side > 0,
        r < len / side,
    ensures
        r * side + side <= len,
{
    lemma_fundamental_div_mod(len as int, side as int);
    lemma_mod_bound(len as int, side as int);
    let count = len / side;
    assert(r * side + side <= count * side) by (nonlinear_arith)
        requires
            r + 1 <= count,
    ;
    assert(count * side == side * count) by (nonlinear_arith);
}

/// The shape of a reshaped buffer follows from its length and the stride
/// alone: `len / side` rows of `side` samples each, which together hold the
/// first `side * (len / side)` samples in order; fewer than `side` samples are
/// left over and dropped.
pub proof fn lemma_chunked_shape<T>(samples: Seq<T>, side: nat)
    requires
        side > 0,
    ensures
        chunked(samples, side).wf(),
        chunked(samples, side).side == side,
        chunked(samples, side).height() == samples.len() / side,
        side * (samples.len() / side) <= samples.len(),
        samples.len() - side * (samples.len() / side) < side,
        forall|r: int, c: int|
            0 <= r < samples.len() / side && 0 <= c < side ==> {
                &&& 0 <= (#[trigger] cell_index(side, r, c)) < samples.len()
                &&& chunked(samples, side).rows[r][c] == samples[cell_index(side, r, c)]
            },
{
    let len = samples.len();
    lemma_fundamental_div_mod(len as int, side as int);
    lemma_mod_bound(len as int, side as int);
    let grid = chunked(samples, side);
    assert forall|r: int| 0 <= r < grid.rows.len() implies (#[trigger] grid.rows[r]).len()
        == side by {
        lemma_rows_fit(len, side, r as nat);
    }
    assert forall|r: int, c: int| 0 <= r < samples.len() / side && 0 <= c < side implies {
        &&& 0 <= (#[trigger] cell_index(side, r, c)) < samples.len()
        &&& chunked(samples, side).rows[r][c] == samples[cell_index(side, r, c)]
    } by {
        lemma_rows_fit(len, side, r as nat);
        assert(grid.rows[r] == samples.subrange(r * side, r * side + side));
        assert(0 <= r * side) by (nonlinear_arith)
            requires
                0 <= r,
                side > 0,
        ;
    }
}

/// `root` is the integer square root of `n`, rounded down.
pub open spec fn is_floor_sqrt(n: nat, root: nat) -> bool {
    root * root <= n < (root + 1) * (root + 1)
}

/// The integer square root of `n`, rounded down.
pub open spec fn floor_sqrt_spec(n: nat) -> nat {
    choose|root: nat| is_floor_sqrt(n, root)
}

/// A number has one rounded-down square root only.
pub proof fn lemma_floor_sqrt_unique(n: nat, a: nat, b: nat)
    requires
        is_floor_sqrt(n, a),
        is_floor_sqrt(n, b),
    ensures
        a == b,
{
    if a < b {
        assert((a + 1) * (a + 1) <= b * b) by (nonlinear_arith)
            requires
                a + 1 <= b,
        ;
    }
    if b < a {
        assert((b + 1) * (b + 1) <= a * a) by (nonlinear_arith)
            requires
                b + 1 <= a,
        ;
    }
}

/// Every number has a rounded-down square root, and `floor_sqrt_spec` is it.
pub proof fn lemma_floor_sqrt_exists(n: nat)
    ensures
        is_floor_sqrt(n, floor_sqrt_spec(n)),
    decreases n,
{
    if n == 0 {
        assert(0nat * 0nat <= 0nat < (0nat + 1) * (0nat + 1)) by (nonlinear_arith);
        assert(is_floor_sqrt(0, 0));
    } else {
        lemma_floor_sqrt_exists((n - 1) as nat);
        let below = floor_sqrt_spec((n - 1) as nat);
        if (below + 1) * (below + 1) <= n {
            assert(n < (below + 2) * (below + 2)) by (nonlinear_arith)
                requires
                    n - 1 < (below + 1) * (below + 1),
            ;
            assert(is_floor_sqrt(n, below + 1));
        } else {
            assert(is_floor_sqrt(n, below));
        }
    }
}

/// The integer square root of `n`, rounded down, found by bisection.
pub fn floor_sqrt(n: usize) -> (root: usize)
    ensures
        is_floor_sqrt(n as nat, root as nat),
        root as nat == floor_sqrt_spec(n as nat),
{
    let target: u128 = n as u128;
    let mut low: u128 = 0;
    let mut high: u128 = 0x1_0000_0000;
    assert(0x1_0000_0000u128 * 0x1_0000_0000u128 == 0x1_0000_0000_0000_0000u128) by (nonlinear_arith);
    while high - low > 1
        invariant
            low < high <= 0x1_0000_0000,
            low * low <= target < high * high,
            target == n,
        decreases high - low,
    {
        let mid: u128 = low + (high - low) / 2;
        assert(mid * mid <= 0x1_0000_0000 * 0x1_0000_0000) by (nonlinear_arith)
            requires
                mid <= 0x1_0000_0000,
        ;
        if mid * mid <= target {
            low = mid;
        } else {
            high = mid;
        }
    }
    assert(low * low <= usize::MAX);
    assert(low <= usize::MAX) by (nonlinear_arith)
        requires
            low * low <= usize::MAX,
            0 <= low,
    ;
    let root: usize = low as usize;
    proof {
        assert(is_floor_sqrt(n as nat, root as nat));
        lemma_floor_sqrt_unique(n as nat, root as nat, floor_sqrt_spec(n as nat));
    }
    root
}

/// How the stride of a grid is chosen.
#[derive(Clone, Copy, Debug, PartialEq, Eq, Structural)]
pub enum Stride {
    /// The requested texture width: for data expected to tile into rows of
    /// that many samples.
    Width(u32),
    /// One sixty-fourth of the sample count, rounded down: a fixed aspect
    /// for data of unknown dimensions.
    SixtyFourth,
    /// The square root of the sample count, rounded down: a grid as close
    /// to a square as the count allows.
    SquareRoot,
}

impl Stride {
    /// The stride for `len` samples, as a mathematical integer.
    pub open spec fn spec_side(self, len: nat) -> nat {
        match self {
            Stride::Width(width) => width as nat,
            Stride::SixtyFourth => len / 64,
            Stride::SquareRoot => floor_sqrt_spec(len),
        }
    }

    /// The stride for a buffer of `len` samples.
    pub fn side(self, len: usize) -> (side: usize)
        ensures
            side as nat == self.spec_side(len as nat),
    {
        match self {
            Stride::Width(width) => width as usize,
            Stride::SixtyFourth => len / 64,
            Stride::SquareRoot => floor_sqrt(len),
        }
    }
}

/// A stride of the square root gives a grid that is nearly square: at least
/// as many rows as the rows are long, and at most two more.
pub proof fn lemma_square_root_grid_is_nearly_square<T>(samples: Seq<T>)
    requires
        samples.len() > 0,
    ensures
        ({
            let side = Stride::SquareRoot.spec_side(samples.len());
            &&& side > 0
            &&& side <= chunked(samples, side).height() <= side + 2
        }),
{
    let len = samples.len();
    lemma_floor_sqrt_exists(len);
    let side = floor_sqrt_spec(len);
    if side == 0 {
        assert((side + 1) * (side + 1) == 1) by (nonlinear_arith)
            requires
                side == 0,
        ;
    }
    lemma_fundamental_div_mod(len as int, side as int);
    lemma_mod_bound(len as int, side as int);
    let rows = len / side;
    assert(side <= rows <= side + 2) by (nonlinear_arith)
        requires
            side > 0,
            side * side <= len < (side + 1) * (side + 1),
            len == side * rows + len % side,
            0 <= len % side < side,
    ;
}

/// A stride of one sixty-fourth of at least 64 samples gives a grid of at
/// least 64 rows.
pub proof fn lemma_sixty_fourth_grid_has_64_rows<T>(samples: Seq<T>)
    requires
        samples.len() >= 64,
    ensures
        ({
            let side = Stride::SixtyFourth.spec_side(samples.len());
            &&& side > 0
            &&& chunked(samples, side).height() >= 64
        }),
{
    let len = samples.len();
    let side = len / 64;
    lemma_fundamental_div_mod(len as int, 64);
    lemma_fundamental_div_mod(len as int, side as int);
    lemma_mod_bound(len as int, side as int);
    let rows = len / side;
    assert(rows >= 64) by (nonlinear_arith)
        requires
            side > 0,
            len >= 64 * side,
            len == side * rows + len % side,
            0 <= len % side < side,
    ;
}

} // verus!
