//! The grid description and the mapping from a world-space point to the
//! grid cell that contains it.

use vstd::prelude::*;

verus! {

/// A grid cell coordinate. A coordinate is valid for a grid exactly when
/// both components are below the grid's cell counts.
#[derive(Clone, Copy, Debug, PartialEq, Eq, Structural)]
pub struct CellCoord {
    pub x: u32,
    pub y: u32,
}

/// A point in world space, in the host's fixed-point coordinate units.
#[derive(Clone, Copy, Debug, PartialEq, Eq, Structural)]
pub struct WorldPoint {
    pub x: i64,
    pub y: i64,
}

/// Why a grid description was rejected at construction.
#[derive(Clone, Copy, Debug, PartialEq, Eq, Structural)]
pub enum GridConfigError {
    /// A cell size component was zero or negative.
    NonPositiveCellSize,
    /// A grid dimension was zero cells.
    ZeroGridDims,
}

/// The mathematical content of a `GridSpec`.
pub ghost struct GridModel {
    pub cell_w: int,
    pub cell_h: int,
    pub dims_x: int,
    pub dims_y: int,
    pub origin_x: int,
    pub origin_y: int,
}

/// A well-formed grid: positive cell size and at least one cell along each
/// axis. Every `GridSpec` that construction accepts satisfies this.
pub open spec fn grid_wf(m: GridModel) -> bool {
    &&& m.cell_w > 0
    &&& m.cell_h > 0
    &&& m.dims_x > 0
    &&& m.dims_y > 0
}

/// The cell containing the world point `(px, py)`, if any.
///
/// Both components of the point relative to the grid origin must be
/// non-negative before division: a negative fractional position must be
/// rejected here, never truncated toward a cell index that happens to be
/// in range. The division is a floor (the operands are non-negative), and
/// the resulting indices must lie below the grid's cell counts.
pub open spec fn resolved_cell(m: GridModel, px: int, py: int) -> Option<CellCoord> {
    let rx = px - m.origin_x;
    let ry = py - m.origin_y;
    if rx >= 0 && ry >= 0 {
        let cx = rx / m.cell_w;
        let cy = ry / m.cell_h;
        if cx < m.dims_x && cy < m.dims_y {
            Some(CellCoord { x: cx as u32, y: cy as u32 })
        } else {
            None
        }
    } else {
        None
    }
}

/// The immutable grid description: cell size (world units per cell),
/// cell counts along each axis, and the world position of the corner of
/// cell (0, 0), all in the host's fixed-point coordinate units.
#[derive(Clone, Copy, Debug)]
pub struct GridSpec {
    cell_w: i64,
    cell_h: i64,
    dims_x: u32,
    dims_y: u32,
    origin_x: i64,
    origin_y: i64,
}

impl View for GridSpec {
    type V = GridModel;

    closed spec fn view(&self) -> GridModel {
        GridModel {
            cell_w: self.cell_w as int,
            cell_h: self.cell_h as int,
            dims_x: self.dims_x as int,
            dims_y: self.dims_y as int,
            origin_x: self.origin_x as int,
            origin_y: self.origin_y as int,
        }
    }
}

impl GridSpec {
    /// Every grid that exists is well-formed: the only constructor rejects
    /// the rest.
    #[verifier::type_invariant]
    closed spec fn inv(self) -> bool {
        grid_wf(self@)
    }

    /// Builds a grid description, rejecting a zero or negative cell size
    /// and zero cell counts; both are configuration-time errors, checked
    /// once here so that no per-tick path can divide by zero.
    pub fn new(
        cell_w: i64,
        cell_h: i64,
        dims_x: u32,
        dims_y: u32,
        origin_x: i64,
        origin_y: i64,
    ) -> (r: Result<GridSpec, GridConfigError>)
        ensures
            r is Ok <==> (cell_w > 0 && cell_h > 0 && dims_x > 0 && dims_y > 0),
            r matches Ok(g) ==> g@ == (GridModel {
                cell_w: cell_w as int,
                cell_h: cell_h as int,
                dims_x: dims_x as int,
                dims_y: dims_y as int,
                origin_x: origin_x as int,
                origin_y: origin_y as int,
            }),
            (cell_w <= 0 || cell_h <= 0) ==> r == Result::<GridSpec, GridConfigError>::Err(
                GridConfigError::NonPositiveCellSize,
            ),
            (cell_w > 0 && cell_h > 0 && (dims_x == 0 || dims_y == 0)) ==> r == Result::<
                GridSpec,
                GridConfigError,
            >::Err(GridConfigError::ZeroGridDims),
    {
        if cell_w <= 0 || cell_h <= 0 {
            Err(GridConfigError::NonPositiveCellSize)
        } else if dims_x == 0 || dims_y == 0 {
            Err(GridConfigError::ZeroGridDims)
        } else {
            Ok(GridSpec { cell_w, cell_h, dims_x, dims_y, origin_x, origin_y })
        }
    }

    /// The cell containing the world point `p`, or `None` when `p` lies
    /// outside the grid on any side.
    pub fn resolve_cell(&self, p: WorldPoint) -> (r: Option<CellCoord>)
        ensures
            r == resolved_cell(self@, p.x as int, p.y as int),
    {
        proof {
            use_type_invariant(self);
        }
        let rx: i128 = p.x as i128 - self.origin_x as i128;
        let ry: i128 = p.y as i128 - self.origin_y as i128;
        if rx < 0 || ry < 0 {
            return None;
        }
        let cx: u128 = (rx as u128) / (self.cell_w as u128);
        let cy: u128 = (ry as u128) / (self.cell_h as u128);
        if cx < self.dims_x as u128 && cy < self.dims_y as u128 {
            Some(CellCoord { x: cx as u32, y: cy as u32 })
        } else {
            None
        }
    }

    /// The world position of the anchor corner of cell `c`: where the
    /// highlight marker for `c` is placed, in the same fixed-point units
    /// as every other coordinate. `None` when that position does not fit
    /// the coordinate range.
    pub fn cell_world_position(&self, c: CellCoord) -> (r: Option<WorldPoint>)
        ensures
            r matches Some(p) ==> p.x == self@.origin_x + c.x * self@.cell_w && p.y
                == self@.origin_y + c.y * self@.cell_h,
            r is None <==> !(i64::MIN <= self@.origin_x + c.x * self@.cell_w <= i64::MAX
                && i64::MIN <= self@.origin_y + c.y * self@.cell_h <= i64::MAX),
    {
        proof {
            use_type_invariant(self);
            vstd::arithmetic::mul::lemma_mul_nonnegative(c.x as int, self@.cell_w);
            vstd::arithmetic::mul::lemma_mul_nonnegative(c.y as int, self@.cell_h);
            vstd::arithmetic::mul::lemma_mul_upper_bound(
                c.x as int,
                u32::MAX as int,
                self@.cell_w,
                i64::MAX as int,
            );
            vstd::arithmetic::mul::lemma_mul_upper_bound(
                c.y as int,
                u32::MAX as int,
                self@.cell_h,
                i64::MAX as int,
            );
        }
        let px: i128 = self.origin_x as i128 + (c.x as i128) * (self.cell_w as i128);
        let py: i128 = self.origin_y as i128 + (c.y as i128) * (self.cell_h as i128);
        if i64::MIN as i128 <= px && px <= i64::MAX as i128 && i64::MIN as i128 <= py && py
            <= i64::MAX as i128 {
            Some(WorldPoint { x: px as i64, y: py as i64 })
        } else {
            None
        }
    }

    /// Cell count along the x axis.
    pub fn dims_x(&self) -> (r: u32)
        ensures
            r == self@.dims_x,
    {
        self.dims_x
    }

    /// Cell count along the y axis.
    pub fn dims_y(&self) -> (r: u32)
        ensures
            r == self@.dims_y,
    {
        self.dims_y
    }
}

/// A world point on the negative side of the grid origin on either axis
/// never resolves to a cell: rejection happens before truncation, so a
/// negative position cannot wrap around into the valid range.
pub proof fn lemma_negative_rejected(m: GridModel, px: int, py: int)
    requires
        px - m.origin_x < 0 || py - m.origin_y < 0,
    ensures
        resolved_cell(m, px, py) is None,
{
}

/// Round trip between marker placement and resolution: every world point
/// inside the area of a valid cell `c` — the cell's anchor corner plus
/// any offset smaller than the cell size on each axis — resolves back to
/// exactly `c`. In particular, a highlight marker placed at the corner of
/// the cell the resolver reported stands over that same cell.
pub proof fn lemma_cell_position_round_trip(m: GridModel, c: CellCoord, dx: int, dy: int)
    requires
        grid_wf(m),
        c.x < m.dims_x,
        c.y < m.dims_y,
        0 <= dx < m.cell_w,
        0 <= dy < m.cell_h,
    ensures
        resolved_cell(m, m.origin_x + c.x * m.cell_w + dx, m.origin_y + c.y * m.cell_h + dy)
            == Some(c),
{
    vstd::arithmetic::mul::lemma_mul_nonnegative(c.x as int, m.cell_w);
    vstd::arithmetic::mul::lemma_mul_nonnegative(c.y as int, m.cell_h);
    vstd::arithmetic::div_mod::lemma_fundamental_div_mod_converse(
        c.x * m.cell_w + dx,
        m.cell_w,
        c.x as int,
        dx,
    );
    vstd::arithmetic::div_mod::lemma_fundamental_div_mod_converse(
        c.y * m.cell_h + dy,
        m.cell_h,
        c.y as int,
        dy,
    );
}

/// Any cell that resolution produces lies inside the grid bounds.
pub proof fn lemma_resolved_in_bounds(m: GridModel, px: int, py: int)
    requires
        grid_wf(m),
        resolved_cell(m, px, py) is Some,
    ensures
        resolved_cell(m, px, py)->0.x < m.dims_x,
        resolved_cell(m, px, py)->0.y < m.dims_y,
{
}

} // verus!
