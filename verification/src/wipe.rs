//! The wipe transition of the dashboard: the old screen slides out towards
//! one edge while the new one is uncovered from the other.
use vstd::prelude::*;

verus! {

/// The edge the new screen comes in from.
#[derive(Debug, Clone, Copy, PartialEq, Eq, Structural)]
pub enum Start {
    Left,
    Right,
    Top,
    Bottom,
}

impl Default for Start {
    fn default() -> (s: Self)
        ensures
            s == Start::Right,
    {
        Start::Right
    }
}

/// The part of the screen being wiped.
#[derive(Debug, Clone, Copy, PartialEq, Eq, Structural)]
pub struct Area {
    pub x: u16,
    pub y: u16,
    pub width: u16,
    pub height: u16,
}

/// Cells still showing the old screen: rows `rows.0..rows.1` and columns
/// `cols.0..cols.1`.
#[derive(Debug, Clone, Copy, PartialEq, Eq)]
pub struct Region {
    pub rows: (usize, usize),
    pub cols: (usize, usize),
}

/// How far the wipe travels: the width for a sideways wipe, the height for
/// one from the top or bottom.
pub open spec fn axis_of(start: Start, area: Area) -> usize {
    match start {
        Start::Left | Start::Right => area.width as usize,
        Start::Top | Start::Bottom => area.height as usize,
    }
}

/// The cells of the old screen that remain once `window` cells along the
/// axis have been uncovered.
pub open spec fn region_of(start: Start, area: Area, window: usize) -> Region {
    let x = area.x as int;
    let y = area.y as int;
    let w = area.width as int;
    let h = area.height as int;
    let win = window as int;
    match start {
        Start::Left => Region { rows: (y as usize, (y + h) as usize), cols: ((x + win) as usize, (x + w) as usize) },
        Start::Right => Region { rows: (y as usize, (y + h) as usize), cols: (x as usize, (x + w - win) as usize) },
        Start::Top => Region { rows: ((y + win) as usize, (y + h) as usize), cols: (x as usize, (x + w) as usize) },
        Start::Bottom => Region { rows: (y as usize, (y + h - win) as usize), cols: (x as usize, (x + w) as usize) },
    }
}

/// How far the wipe travels over `area`.
pub fn axis(start: Start, area: Area) -> (r: usize)
    ensures
        r == axis_of(start, area),
{
    match start {
        Start::Left | Start::Right => area.width as usize,
        Start::Top | Start::Bottom => area.height as usize,
    }
}

/// The uncovered length: the step's length, but never past the axis.
pub fn window(step: usize, axis: usize) -> (r: usize)
    ensures
        r == if step <= axis { step } else { axis },
{
    if step <= axis {
        step
    } else {
        axis
    }
}

/// Whether the wipe is over: all of the axis is uncovered.
pub fn finished(window: usize, axis: usize) -> (b: bool)
    ensures
        b == (window == axis),
{
    window == axis
}

/// The cells that still show the old screen.
pub fn region(start: Start, area: Area, window: usize) -> (r: Region)
    requires
        window <= axis_of(start, area),
    ensures
        r == region_of(start, area, window),
        r.rows.0 <= r.rows.1,
        r.cols.0 <= r.cols.1,
{
    let x = area.x as usize;
    let y = area.y as usize;
    let w = area.width as usize;
    let h = area.height as usize;
    match start {
        Start::Left => Region { rows: (y, y + h), cols: (x + window, x + w) },
        Start::Right => Region { rows: (y, y + h), cols: (x, x + w - window) },
        Start::Top => Region { rows: (y + window, y + h), cols: (x, x + w) },
        Start::Bottom => Region { rows: (y, y + h - window), cols: (x, x + w) },
    }
}

/// As the wipe goes on, the old screen's part only shrinks: with more of
/// the axis uncovered, the remaining rows and columns lie within those left
/// before.
pub proof fn law_region_shrinks(start: Start, area: Area, w1: usize, w2: usize)
    requires
        w1 <= w2 <= axis_of(start, area),
    ensures
        region_of(start, area, w1).rows.0 <= region_of(start, area, w2).rows.0,
        region_of(start, area, w2).rows.1 <= region_of(start, area, w1).rows.1,
        region_of(start, area, w1).cols.0 <= region_of(start, area, w2).cols.0,
        region_of(start, area, w2).cols.1 <= region_of(start, area, w1).cols.1,
{
}

/// Once the whole axis is uncovered, nothing of the old screen is left.
pub proof fn law_finished_region_empty(start: Start, area: Area)
    ensures
        region_of(start, area, axis_of(start, area)).rows.0 == region_of(start, area, axis_of(start, area)).rows.1
            || region_of(start, area, axis_of(start, area)).cols.0 == region_of(start, area, axis_of(start, area)).cols.1,
{
}

} // verus!
