//! Terminal state the embedder reads back: the cursor, the mode flags, and
//! what the grid and history cost.
use vstd::prelude::*;

use crate::bits::bit32;
use crate::sys;
use crate::sys::{shitty_vt_cursor, shitty_vt_memory};

verus! {

#[derive(Clone, Copy, Debug, Default, PartialEq, Eq, Structural)]
pub struct Cursor {
    pub column: u16,
    pub row: u16,
    /// 0 hidden, 1 filled block, 2 hollow block, 3 underline, 4 bar
    pub style: u8,
    pub visible: bool,
}

impl Cursor {
    /// The cursor the facade reported; any nonzero `visible` means visible.
    pub fn from_raw(raw: shitty_vt_cursor) -> (cursor: Cursor)
        ensures
            cursor == (Cursor {
                column: raw.column,
                row: raw.row,
                style: raw.style,
                visible: raw.visible != 0,
            }),
    {
        Cursor { column: raw.column, row: raw.row, style: raw.style, visible: raw.visible != 0 }
    }
}

/// Mode flags the application has set.
#[derive(Clone, Copy, Debug, Default, PartialEq, Eq, Structural)]
pub struct Modes(pub u32);

impl Modes {
    pub fn alt_screen(self) -> (set: bool)
        ensures
            set == bit32(self.0, 0),
    {
        let bits = self.0;
        assert((bits & 1u32 != 0) == ((bits >> 0u32) & 1 == 1)) by (bit_vector);
        bits & sys::SHITTY_VT_MODE_ALT_SCREEN != 0
    }

    pub fn bracketed_paste(self) -> (set: bool)
        ensures
            set == bit32(self.0, 1),
    {
        let bits = self.0;
        assert((bits & 2u32 != 0) == ((bits >> 1u32) & 1 == 1)) by (bit_vector);
        bits & sys::SHITTY_VT_MODE_BRACKETED_PASTE != 0
    }

    pub fn app_cursor_keys(self) -> (set: bool)
        ensures
            set == bit32(self.0, 2),
    {
        let bits = self.0;
        assert((bits & 4u32 != 0) == ((bits >> 2u32) & 1 == 1)) by (bit_vector);
        bits & sys::SHITTY_VT_MODE_APP_CURSOR_KEYS != 0
    }

    pub fn app_keypad(self) -> (set: bool)
        ensures
            set == bit32(self.0, 3),
    {
        let bits = self.0;
        assert((bits & 8u32 != 0) == ((bits >> 3u32) & 1 == 1)) by (bit_vector);
        bits & sys::SHITTY_VT_MODE_APP_KEYPAD != 0
    }

    pub fn focus_events(self) -> (set: bool)
        ensures
            set == bit32(self.0, 4),
    {
        let bits = self.0;
        assert((bits & 16u32 != 0) == ((bits >> 4u32) & 1 == 1)) by (bit_vector);
        bits & sys::SHITTY_VT_MODE_FOCUS_EVENTS != 0
    }

    pub fn auto_wrap(self) -> (set: bool)
        ensures
            set == bit32(self.0, 5),
    {
        let bits = self.0;
        assert((bits & 32u32 != 0) == ((bits >> 5u32) & 1 == 1)) by (bit_vector);
        bits & sys::SHITTY_VT_MODE_AUTO_WRAP != 0
    }

    pub fn origin(self) -> (set: bool)
        ensures
            set == bit32(self.0, 6),
    {
        let bits = self.0;
        assert((bits & 64u32 != 0) == ((bits >> 6u32) & 1 == 1)) by (bit_vector);
        bits & sys::SHITTY_VT_MODE_ORIGIN != 0
    }

    pub fn insert(self) -> (set: bool)
        ensures
            set == bit32(self.0, 7),
    {
        let bits = self.0;
        assert((bits & 128u32 != 0) == ((bits >> 7u32) & 1 == 1)) by (bit_vector);
        bits & sys::SHITTY_VT_MODE_INSERT != 0
    }

    pub fn cursor_visible(self) -> (set: bool)
        ensures
            set == bit32(self.0, 8),
    {
        let bits = self.0;
        assert((bits & 256u32 != 0) == ((bits >> 8u32) & 1 == 1)) by (bit_vector);
        bits & sys::SHITTY_VT_MODE_CURSOR_VISIBLE != 0
    }

    pub fn screen_reverse(self) -> (set: bool)
        ensures
            set == bit32(self.0, 9),
    {
        let bits = self.0;
        assert((bits & 512u32 != 0) == ((bits >> 9u32) & 1 == 1)) by (bit_vector);
        bits & sys::SHITTY_VT_MODE_SCREEN_REVERSE != 0
    }

    pub fn synchronized_output(self) -> (set: bool)
        ensures
            set == bit32(self.0, 10),
    {
        let bits = self.0;
        assert((bits & 1024u32 != 0) == ((bits >> 10u32) & 1 == 1)) by (bit_vector);
        bits & sys::SHITTY_VT_MODE_SYNCHRONIZED_OUTPUT != 0
    }

    pub fn mouse_click(self) -> (set: bool)
        ensures
            set == bit32(self.0, 11),
    {
        let bits = self.0;
        assert((bits & 2048u32 != 0) == ((bits >> 11u32) & 1 == 1)) by (bit_vector);
        bits & sys::SHITTY_VT_MODE_MOUSE_CLICK != 0
    }

    pub fn mouse_drag(self) -> (set: bool)
        ensures
            set == bit32(self.0, 12),
    {
        let bits = self.0;
        assert((bits & 4096u32 != 0) == ((bits >> 12u32) & 1 == 1)) by (bit_vector);
        bits & sys::SHITTY_VT_MODE_MOUSE_DRAG != 0
    }

    pub fn mouse_motion(self) -> (set: bool)
        ensures
            set == bit32(self.0, 13),
    {
        let bits = self.0;
        assert((bits & 8192u32 != 0) == ((bits >> 13u32) & 1 == 1)) by (bit_vector);
        bits & sys::SHITTY_VT_MODE_MOUSE_MOTION != 0
    }

    pub fn mouse_sgr(self) -> (set: bool)
        ensures
            set == bit32(self.0, 14),
    {
        let bits = self.0;
        assert((bits & 16384u32 != 0) == ((bits >> 14u32) & 1 == 1)) by (bit_vector);
        bits & sys::SHITTY_VT_MODE_MOUSE_SGR != 0
    }

    /// DECSET 1007. While [`Modes::alt_screen`] is also set, wheel input
    /// belongs to the application as arrow keys rather than moving a history
    /// the alternate screen does not keep.
    pub fn alternate_scroll(self) -> (set: bool)
        ensures
            set == bit32(self.0, 15),
    {
        let bits = self.0;
        assert((bits & 32768u32 != 0) == ((bits >> 15u32) & 1 == 1)) by (bit_vector);
        bits & sys::SHITTY_VT_MODE_ALTERNATE_SCROLL != 0
    }

}

/// What the terminal is spending on its grid and history.
///
/// Cells only. Grapheme clusters, hyperlinks and sixel patches live in a
/// separate store this does not count, so treat it as the floor of the real
/// cost rather than the whole of it.
#[derive(Clone, Copy, Debug, Default, PartialEq, Eq, Structural)]
pub struct Memory {
    /// Row slots actually backed by cells. The ring behind them is rounded to
    /// a power of two, so this can exceed [`Memory::capacity_rows`]: it is
    /// what the screen costs, not what it is allowed to hold.
    pub allocated_rows: u32,
    /// Rows the terminal will keep: the visible grid plus `save_lines`.
    pub capacity_rows: u32,
    pub columns: u32,
    pub cell_size: u32,
    /// `allocated_rows * columns * cell_size`.
    pub cell_bytes: u64,
}

impl Memory {
    /// The usage the facade reported, field for field.
    pub fn from_raw(raw: shitty_vt_memory) -> (memory: Memory)
        ensures
            memory == (Memory {
                allocated_rows: raw.allocated_rows,
                capacity_rows: raw.capacity_rows,
                columns: raw.columns,
                cell_size: raw.cell_size,
                cell_bytes: raw.cell_bytes,
            }),
    {
        Memory {
            allocated_rows: raw.allocated_rows,
            capacity_rows: raw.capacity_rows,
            columns: raw.columns,
            cell_size: raw.cell_size,
            cell_bytes: raw.cell_bytes,
        }
    }
}

} // verus!
