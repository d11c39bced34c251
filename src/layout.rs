//! The layout tree of a job, and the pixel arithmetic over it.
use vstd::prelude::*;
use crate::query::{RenderRequest, Size};

verus! {

/// Why a layout or a job could not be built.
#[derive(Clone, Copy, Debug, PartialEq, Eq, Structural)]
pub enum LayoutError {
    /// A grid was asked for with no rows (for a sprite grid: an empty catalog).
    ZeroRows,
    /// A grid was asked for with no columns (for a sprite grid: no frames).
    ZeroCols,
    /// A cell or image size with a zero side.
    ZeroSize,
    /// The number of cells is not rows times columns.
    CellCountMismatch,
    /// Rows times columns does not fit in `usize`.
    TooLarge,
    /// A job scale of zero.
    ZeroScale,
}

/// A node of the layout tree.
#[derive(Debug)]
pub enum LayoutNode {
    /// A grid position deliberately left blank.
    Empty,
    /// One render.
    Single(RenderRequest),
    /// Child nodes arranged in rows and columns of equal cells.
    Grid(Grid),
}

/// `rows` by `cols` cells of `cell_size` pixels each, held row-major: the cell
/// at row `r`, column `c` is `cells[r * cols + c]`.
#[derive(Debug)]
pub struct Grid {
    pub rows: usize,
    pub cols: usize,
    pub cell_size: Size,
    pub cells: Vec<LayoutNode>,
}

/// Rows of `cols` cells needed to hold `n` items: `ceil(n / cols)`.
pub open spec fn rows_for(n: nat, cols: nat) -> nat
    recommends
        cols > 0,
{
    ((n + cols - 1) / cols as int) as nat
}

impl Grid {
    pub open spec fn wf(&self) -> bool {
        &&& self.rows > 0
        &&& self.cols > 0
        &&& self.cell_size.wf()
        &&& self.cells@.len() == self.rows * self.cols
    }

    /// The pixel extent of the whole grid, as (width, height).
    pub open spec fn extent(&self) -> (nat, nat) {
        (
            (self.cols * self.cell_size.width) as nat,
            (self.rows * self.cell_size.height) as nat,
        )
    }

    /// A grid from its cells in row-major order. Fails when a count or a side is
    /// zero, or when there are not exactly `rows * cols` cells.
    pub fn new(rows: usize, cols: usize, cell_size: Size, cells: Vec<LayoutNode>) -> (r: Result<
        Grid,
        LayoutError,
    >)
        ensures
            rows == 0 ==> r == Err::<Grid, LayoutError>(LayoutError::ZeroRows),
            rows > 0 && cols == 0 ==> r == Err::<Grid, LayoutError>(LayoutError::ZeroCols),
            rows > 0 && cols > 0 && !cell_size.wf() ==> r == Err::<Grid, LayoutError>(
                LayoutError::ZeroSize,
            ),
            rows > 0 && cols > 0 && cell_size.wf() && cells@.len() != rows * cols ==> r == Err::<
                Grid,
                LayoutError,
            >(LayoutError::CellCountMismatch),
            r is Ok <==> (rows > 0 && cols > 0 && cell_size.wf() && cells@.len() == rows * cols),
            r matches Ok(g) ==> g.wf() && g.rows == rows && g.cols == cols && g.cell_size
                == cell_size && g.cells@ == cells@,
    {
        if rows == 0 {
            return Err(LayoutError::ZeroRows);
        }
        if cols == 0 {
            return Err(LayoutError::ZeroCols);
        }
        if cell_size.width == 0 || cell_size.height == 0 {
            return Err(LayoutError::ZeroSize);
        }
        let len = cells.len();
        match rows.checked_mul(cols) {
            Some(n) => {
                if len != n {
                    return Err(LayoutError::CellCountMismatch);
                }
            },
            None => {
                return Err(LayoutError::CellCountMismatch);
            },
        }
        Ok(Grid { rows, cols, cell_size, cells })
    }

    /// A grid of `cols` columns holding `children` in row-major order; the row
    /// count is the least that holds them all, and the positions after the last
    /// child are `Empty`.
    pub fn from_children(cols: usize, cell_size: Size, children: Vec<LayoutNode>) -> (r: Result<
        Grid,
        LayoutError,
    >)
        ensures
            children@.len() == 0 ==> r == Err::<Grid, LayoutError>(LayoutError::ZeroRows),
            children@.len() > 0 && cols == 0 ==> r == Err::<Grid, LayoutError>(
                LayoutError::ZeroCols,
            ),
            children@.len() > 0 && cols > 0 && !cell_size.wf() ==> r == Err::<Grid, LayoutError>(
                LayoutError::ZeroSize,
            ),
            children@.len() > 0 && cols > 0 && cell_size.wf() ==> (r is Ok <==> rows_for(
                children@.len(),
                cols as nat,
            ) * cols <= usize::MAX),
            r is Err ==> r != Err::<Grid, LayoutError>(LayoutError::CellCountMismatch),
            r matches Ok(g) ==> {
                &&& g.wf()
                &&& g.cols == cols
                &&& g.cell_size == cell_size
                &&& g.rows == rows_for(children@.len(), cols as nat)
                &&& g.cells@.subrange(0, children@.len() as int) == children@
                &&& forall|i: int|
                    children@.len() <= i < g.cells@.len() ==> g.cells@[i] is Empty
            },
    {
        let n = children.len();
        if n == 0 {
            return Err(LayoutError::ZeroRows);
        }
        if cols == 0 {
            return Err(LayoutError::ZeroCols);
        }
        if cell_size.width == 0 || cell_size.height == 0 {
            return Err(LayoutError::ZeroSize);
        }
        let q: usize = n / cols;
        proof {
            vstd::arithmetic::div_mod::lemma_fundamental_div_mod(n as int, cols as int);
            if n % cols != 0 {
                assert(q < usize::MAX) by (nonlinear_arith)
                    requires
                        n == cols * q + n % cols,
                        0 < n % cols < cols,
                        n <= usize::MAX,
                ;
            }
        }
        let rows: usize = if n % cols == 0 { q } else { q + 1 };
        proof {
            lemma_ceil_div(n as int, cols as int);
            assert(rows * cols >= n);
            assert(rows > 0) by (nonlinear_arith)
                requires
                    rows * cols >= n,
                    n > 0,
                    cols > 0,
            ;
        }
        let total: usize = match rows.checked_mul(cols) {
            Some(t) => t,
            None => {
                return Err(LayoutError::TooLarge);
            },
        };
        let mut cells = children;
        while cells.len() < total
            invariant
                n <= cells@.len() <= total,
                cells@.subrange(0, n as int) == children@,
                forall|i: int| n <= i < cells@.len() ==> cells@[i] is Empty,
            decreases total - cells@.len(),
        {
            cells.push(LayoutNode::Empty);
            assert(cells@.subrange(0, n as int) =~= children@);
        }
        Ok(Grid { rows, cols, cell_size, cells })
    }

    /// The (row, column) of the cell at `index` in `cells`.
    pub fn coordinate(&self, index: usize) -> (r: (usize, usize))
        requires
            self.wf(),
            index < self.cells@.len(),
        ensures
            r.0 < self.rows,
            r.1 < self.cols,
            r.0 * self.cols + r.1 == index,
    {
        let row = index / self.cols;
        let col = index % self.cols;
        proof {
            vstd::arithmetic::div_mod::lemma_fundamental_div_mod(index as int, self.cols as int);
            assert(row * self.cols == self.cols * row) by (nonlinear_arith);
            vstd::arithmetic::div_mod::lemma_div_pos_is_pos(index as int, self.cols as int);
            if row >= self.rows {
                vstd::arithmetic::mul::lemma_mul_inequality(
                    self.rows as int,
                    row as int,
                    self.cols as int,
                );
                assert(self.cols * row >= self.cols * self.rows) by (nonlinear_arith)
                    requires
                        row >= self.rows,
                ;
            }
        }
        (row, col)
    }

    /// The cell at `row`, `col`.
    pub fn cell(&self, row: usize, col: usize) -> (r: &LayoutNode)
        requires
            self.wf(),
            row < self.rows,
            col < self.cols,
        ensures
            r == self.cells@[row * self.cols + col],
    {
        let n = self.cells.len();
        proof {
            lemma_index_in_grid(row as int, col as int, self.rows as int, self.cols as int);
        }
        &self.cells[row * self.cols + col]
    }
}

impl LayoutNode {
    /// Why the node cannot be laid out, or `None` when it can. Only the node's
    /// own shape is judged; a grid's cells are judged when they are drawn.
    pub open spec fn layout_error(&self) -> Option<LayoutError> {
        match self {
            LayoutNode::Empty => None,
            LayoutNode::Single(req) => if req.size.wf() {
                None
            } else {
                Some(LayoutError::ZeroSize)
            },
            LayoutNode::Grid(g) => if g.rows == 0 {
                Some(LayoutError::ZeroRows)
            } else if g.cols == 0 {
                Some(LayoutError::ZeroCols)
            } else if !g.cell_size.wf() {
                Some(LayoutError::ZeroSize)
            } else if g.cells@.len() != g.rows * g.cols {
                Some(LayoutError::CellCountMismatch)
            } else {
                None
            },
        }
    }

    pub open spec fn wf(&self) -> bool {
        self.layout_error() is None
    }

    /// The pixel extent of the node, as (width, height); an empty position has none.
    pub open spec fn extent(&self) -> (nat, nat) {
        match self {
            LayoutNode::Empty => (0, 0),
            LayoutNode::Single(req) => (req.size.width as nat, req.size.height as nat),
            LayoutNode::Grid(g) => g.extent(),
        }
    }

    /// The two nodes are alike but for the scene ids their renders refer to.
    pub open spec fn same_shape(&self, other: &LayoutNode) -> bool {
        match (self, other) {
            (LayoutNode::Empty, LayoutNode::Empty) => true,
            (LayoutNode::Single(a), LayoutNode::Single(b)) => a.same_shape(*b),
            _ => false,
        }
    }

    /// Checks the node's own shape.
    pub fn check(&self) -> (r: Option<LayoutError>)
        ensures
            r == self.layout_error(),
    {
        match self {
            LayoutNode::Empty => None,
            LayoutNode::Single(req) => if req.size.width > 0 && req.size.height > 0 {
                None
            } else {
                Some(LayoutError::ZeroSize)
            },
            LayoutNode::Grid(g) => {
                if g.rows == 0 {
                    Some(LayoutError::ZeroRows)
                } else if g.cols == 0 {
                    Some(LayoutError::ZeroCols)
                } else if g.cell_size.width == 0 || g.cell_size.height == 0 {
                    Some(LayoutError::ZeroSize)
                } else {
                    let len = g.cells.len();
                    match g.rows.checked_mul(g.cols) {
                        Some(n) => if len == n {
                            None
                        } else {
                            Some(LayoutError::CellCountMismatch)
                        },
                        None => Some(LayoutError::CellCountMismatch),
                    }
                }
            },
        }
    }

    /// The pixel extent of the node, as (width, height).
    pub fn pixel_extent(&self) -> (r: (u128, u128))
        ensures
            r.0 == self.extent().0,
            r.1 == self.extent().1,
            r.0 <= 0x1_0000_0000_0000_0000_0000_0000,
            r.1 <= 0x1_0000_0000_0000_0000_0000_0000,
    {
        match self {
            LayoutNode::Empty => (0, 0),
            LayoutNode::Single(req) => (req.size.width as u128, req.size.height as u128),
            LayoutNode::Grid(g) => {
                proof {
                    lemma_product_fits(g.cols as nat, g.cell_size.width as nat);
                    lemma_product_fits(g.rows as nat, g.cell_size.height as nat);
                }
                (
                    g.cols as u128 * g.cell_size.width as u128,
                    g.rows as u128 * g.cell_size.height as u128,
                )
            },
        }
    }
}

/// The root of a job: a layout and the whole-number factor by which every
/// rendered pixel is enlarged. A valid job has a non-zero scale and a
/// well-formed root.
#[derive(Debug)]
pub struct RenderJob {
    pub scale: u32,
    pub root: LayoutNode,
}

impl RenderJob {
    pub open spec fn wf(&self) -> bool {
        self.scale >= 1 && self.root.wf()
    }

    /// The pixel size of the finished image: the root's extent times the scale.
    pub open spec fn image_size(&self) -> (nat, nat) {
        (self.root.extent().0 * self.scale as nat, self.root.extent().1 * self.scale as nat)
    }

    /// A job over `root` enlarged `scale` times. A zero scale is rejected before
    /// anything else; then a root of the wrong shape.
    pub fn new(scale: u32, root: LayoutNode) -> (r: Result<RenderJob, LayoutError>)
        ensures
            scale == 0 ==> r == Err::<RenderJob, LayoutError>(LayoutError::ZeroScale),
            scale > 0 ==> match root.layout_error() {
                Some(e) => r == Err::<RenderJob, LayoutError>(e),
                None => r is Ok,
            },
            r matches Ok(j) ==> j.wf() && j.scale == scale && j.root == root,
    {
        if scale == 0 {
            return Err(LayoutError::ZeroScale);
        }
        match root.check() {
            Some(e) => Err(e),
            None => Ok(RenderJob { scale, root }),
        }
    }

    /// The pixel size of the finished image, as (width, height).
    pub fn output_size(&self) -> (r: (u128, u128))
        ensures
            r.0 == self.image_size().0,
            r.1 == self.image_size().1,
    {
        let (w, h) = self.root.pixel_extent();
        proof {
            lemma_scaled_fits(w as nat, self.scale as nat);
            lemma_scaled_fits(h as nat, self.scale as nat);
        }
        (w * self.scale as u128, h * self.scale as u128)
    }
}

/// A `usize` count times a `u32` side stays below 2^96.
proof fn lemma_product_fits(count: nat, side: nat)
    requires
        count <= usize::MAX,
        side <= u32::MAX,
    ensures
        count * side <= 0x1_0000_0000_0000_0000_0000_0000,
{
    assert(count * side <= 0x1_0000_0000_0000_0000 * 0x1_0000_0000) by (nonlinear_arith)
        requires
            count <= 0x1_0000_0000_0000_0000,
            side <= 0x1_0000_0000,
    ;
}

/// An extent below 2^96 times a `u32` scale fits in `u128`.
proof fn lemma_scaled_fits(extent: nat, scale: nat)
    requires
        extent <= 0x1_0000_0000_0000_0000_0000_0000,
        scale <= u32::MAX,
    ensures
        extent * scale <= u128::MAX,
{
    assert(extent * scale <= 0x1_0000_0000_0000_0000_0000_0000 * 0xffff_ffff) by (nonlinear_arith)
        requires
            extent <= 0x1_0000_0000_0000_0000_0000_0000,
            scale <= 0xffff_ffff,
    ;
}

/// Rows of `cols` that hold `n` items: `ceil(n / cols)` rows of `cols` cover
/// all `n`, and one row fewer would not.
proof fn lemma_ceil_div(n: int, cols: int)
    requires
        0 < n,
        0 < cols,
    ensures
        (n / cols + if n % cols == 0 { 0int } else { 1 }) == (n + cols - 1) / cols,
        (n / cols + if n % cols == 0 { 0int } else { 1 }) * cols >= n,
{
    vstd::arithmetic::div_mod::lemma_fundamental_div_mod(n, cols);
    let q = n / cols;
    let m = n % cols;
    if m == 0 {
        assert(n + cols - 1 == q * cols + (cols - 1)) by (nonlinear_arith)
            requires
                n == cols * q + m,
                m == 0,
        ;
        vstd::arithmetic::div_mod::lemma_fundamental_div_mod_converse(n + cols - 1, cols, q, cols - 1);
        assert(q * cols >= n) by (nonlinear_arith)
            requires
                n == cols * q + m,
                m == 0,
        ;
    } else {
        assert(n + cols - 1 == (q + 1) * cols + (m - 1)) by (nonlinear_arith)
            requires
                n == cols * q + m,
        ;
        vstd::arithmetic::div_mod::lemma_fundamental_div_mod_converse(n + cols - 1, cols, q + 1, m - 1);
        assert((q + 1) * cols >= n) by (nonlinear_arith)
            requires
                n == cols * q + m,
                m < cols,
        ;
    }
}

/// Cell `(row, col)` of a `rows` by `cols` grid lies within `rows * cols`.
proof fn lemma_index_in_grid(row: int, col: int, rows: int, cols: int)
    requires
        0 <= row < rows,
        0 <= col < cols,
    ensures
        0 <= row * cols + col < rows * cols,
{
    assert(row * cols + col < rows * cols) by (nonlinear_arith)
        requires
            0 <= row < rows,
            0 <= col < cols,
    ;
    assert(row * cols >= 0) by (nonlinear_arith)
        requires
            0 <= row,
            0 <= col < cols,
    ;
}

} // verus!
