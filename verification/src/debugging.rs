//! What a display needs to know to show the telemetry: where the bar of a
//! buffer level goes.

use vstd::prelude::*;

verus! {

/// The settings of a graph of buffer levels.
#[derive(Debug, Clone, Copy, PartialEq, Eq, Structural)]
pub struct GraphDebuggerSettings {
    /// The capacity of the buffers shown, taken to be a multiple of 32.
    pub buffer_size: usize,
}

/// One bar of the graph: its column, its top row and its length in rows.
#[derive(Debug, Clone, Copy, PartialEq, Eq, Structural)]
pub struct Bar {
    pub x: i32,
    pub y: i32,
    pub length: u32,
}

/// The number of levels that one row of a bar stands for.
pub open spec fn bar_scale(buffer_size: usize) -> int {
    buffer_size as int / 32
}

/// The bar of link `link` at level `level` on a display `height` rows high:
/// bars stand two columns apart from column 1 on, and grow upwards from
/// the bottom row, one row per `bar_scale` levels.
pub open spec fn bar_of(buffer_size: usize, link: int, level: int, height: int) -> Bar {
    let length = level / bar_scale(buffer_size);
    Bar { x: (1 + link * 2) as i32, y: (height - length) as i32, length: length as u32 }
}

impl GraphDebuggerSettings {
    /// The bar for one buffer. There is none for buffers of fewer than 32
    /// places, for which a row would stand for no level at all.
    pub fn bar(&self, link: u8, level: u32, height: u16) -> (bar: Option<Bar>)
        ensures
            self.buffer_size < 32 ==> bar is None,
            self.buffer_size >= 32 ==> bar == Some(
                bar_of(self.buffer_size, link as int, level as int, height as int),
            ),
    {
        let scale: usize = self.buffer_size / 32;
        if scale == 0 {
            return None;
        }
        let length: u64 = level as u64 / scale as u64;
        assert(length == level as int / bar_scale(self.buffer_size));
        assert(length <= level) by (nonlinear_arith)
            requires
                length == level as int / (scale as int),
                scale >= 1,
        ;
        let top: i64 = height as i64 - length as i64;
        Some(Bar { x: 1 + (link as i32) * 2, y: top as i32, length: length as u32 })
    }
}

} // verus!
