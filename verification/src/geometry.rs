//! Where a surface sits inside its window.
//!
//! Windows report their size in physical pixels together with a scale factor.
//! Surfaces are placed in logical units: physical pixels divided by the scale
//! factor. All quantities here are whole numbers; the scale factor is kept in
//! thousandths, and a logical extent is rounded down to a whole unit.

use vstd::prelude::*;

verus! {

/// The gap, in logical units, kept free around a surface: once above it, once
/// below it, and once to its right.
pub const TAB_MARGIN: u64 = 10;

/// How many physical pixels make up one logical unit, in thousandths.
///
/// A scale factor is never zero.
#[derive(Clone, Copy, Debug, PartialEq, Eq)]
pub struct ScaleFactor {
    milli: u32,
}

impl View for ScaleFactor {
    type V = int;

    /// The scale factor in thousandths.
    closed spec fn view(&self) -> int {
        self.milli as int
    }
}

impl ScaleFactor {
    #[verifier::type_invariant]
    spec fn nonzero(self) -> bool {
        self.milli > 0
    }

    /// Makes a scale factor from thousandths; there is none for zero.
    pub fn from_milli(milli: u32) -> (scale: Option<ScaleFactor>)
        ensures
            milli == 0 <==> scale is None,
            scale matches Some(s) ==> s@ == milli,
    {
        if milli == 0 {
            None
        } else {
            Some(ScaleFactor { milli })
        }
    }

    /// The scale factor of a display that shows one pixel per logical unit.
    pub fn identity() -> (scale: ScaleFactor)
        ensures
            scale@ == 1000,
    {
        ScaleFactor { milli: 1000 }
    }

    /// The scale factor in thousandths.
    pub fn milli(&self) -> (milli: u32)
        ensures
            milli == self@,
            milli > 0,
    {
        proof {
            use_type_invariant(self);
        }
        self.milli
    }
}

/// The size of a window in physical pixels.
#[derive(Clone, Copy, Debug, PartialEq, Eq, Structural)]
pub struct PhysicalSize {
    pub width: u32,
    pub height: u32,
}

/// The top-left corner of a surface, in logical units from the window's
/// top-left corner.
#[derive(Clone, Copy, Debug, PartialEq, Eq, Structural)]
pub struct LogicalPosition {
    pub x: u64,
    pub y: u64,
}

/// The extent of a surface in logical units.
#[derive(Clone, Copy, Debug, PartialEq, Eq, Structural)]
pub struct LogicalSize {
    pub width: u64,
    pub height: u64,
}

/// The rectangle a surface occupies.
#[derive(Clone, Copy, Debug, PartialEq, Eq, Structural)]
pub struct Placement {
    pub position: LogicalPosition,
    pub size: LogicalSize,
}

/// A physical extent in logical units, rounded down.
pub open spec fn logical_extent(physical: int, scale_milli: int) -> int {
    physical * 1000 / scale_milli
}

/// `extent` shortened by `inset`, but never below zero.
pub open spec fn shrink(extent: int, inset: int) -> int {
    if extent >= inset {
        extent - inset
    } else {
        0
    }
}

/// The rectangle of a surface in a window of size `window` at scale
/// `scale_milli` thousandths, beside a sidebar `sidebar_width` units wide.
///
/// The surface starts right of the sidebar, one margin below the top. It ends
/// one margin before the right and bottom edges. Where the window is too
/// small for that, the surface has no extent in that direction.
pub open spec fn geometry(window: PhysicalSize, scale_milli: int, sidebar_width: u64) -> Placement {
    Placement {
        position: LogicalPosition { x: sidebar_width, y: TAB_MARGIN },
        size: LogicalSize {
            width: shrink(
                logical_extent(window.width as int, scale_milli),
                sidebar_width + TAB_MARGIN,
            ) as u64,
            height: shrink(logical_extent(window.height as int, scale_milli), 2 * TAB_MARGIN) as u64,
        },
    }
}

/// A physical extent in logical units, rounded down.
fn to_logical(physical: u32, scale: ScaleFactor) -> (logical: u64)
    ensures
        logical == logical_extent(physical as int, scale@),
        logical <= physical * 1000,
{
    let milli: u32 = scale.milli();
    let scaled: u64 = (physical as u64) * 1000;
    let logical: u64 = scaled / (milli as u64);
    proof {
        assert(scaled / (milli as u64) <= scaled) by (nonlinear_arith)
            requires
                milli > 0,
        ;
    }
    logical
}

/// Computes the rectangle a surface must occupy.
///
/// The same window size, scale factor and sidebar width always give the same
/// rectangle.
pub fn compute_geometry(
    window_size: PhysicalSize,
    scale_factor: ScaleFactor,
    sidebar_width: u64,
) -> (placement: Placement)
    ensures
        placement == geometry(window_size, scale_factor@, sidebar_width),
{
    let logical_width: u64 = to_logical(window_size.width, scale_factor);
    let logical_height: u64 = to_logical(window_size.height, scale_factor);
    let width: u64 = logical_width.saturating_sub(sidebar_width).saturating_sub(TAB_MARGIN);
    let height: u64 = logical_height.saturating_sub(2 * TAB_MARGIN);
    Placement {
        position: LogicalPosition { x: sidebar_width, y: TAB_MARGIN },
        size: LogicalSize { width, height },
    }
}

/// A surface never reaches past the right or bottom edge of its window, and
/// keeps its margins wherever the window leaves room for them.
pub proof fn lemma_geometry_fits(window: PhysicalSize, scale_milli: int, sidebar_width: u64)
    requires
        scale_milli > 0,
    ensures
        ({
            let placement = geometry(window, scale_milli, sidebar_width);
            let width = logical_extent(window.width as int, scale_milli);
            let height = logical_extent(window.height as int, scale_milli);
            &&& placement.position.x == sidebar_width
            &&& placement.position.y == TAB_MARGIN
            &&& width >= sidebar_width + TAB_MARGIN ==> placement.position.x + placement.size.width
                + TAB_MARGIN == width
            &&& width < sidebar_width + TAB_MARGIN ==> placement.size.width == 0
            &&& height >= 2 * TAB_MARGIN ==> placement.position.y + placement.size.height
                + TAB_MARGIN == height
            &&& height < 2 * TAB_MARGIN ==> placement.size.height == 0
        }),
{
    let width = logical_extent(window.width as int, scale_milli);
    let height = logical_extent(window.height as int, scale_milli);
    assert(0 <= width <= window.width * 1000) by (nonlinear_arith)
        requires
            width == window.width * 1000 / scale_milli,
            scale_milli > 0,
            window.width >= 0,
    ;
    assert(0 <= height <= window.height * 1000) by (nonlinear_arith)
        requires
            height == window.height * 1000 / scale_milli,
            scale_milli > 0,
            window.height >= 0,
    ;
}

} // verus!
