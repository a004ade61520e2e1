//! The facade's ABI: constants, and plain-value models of the records it
//! exchanges.
use vstd::prelude::*;

verus! {

/// Opaque terminal instance, only ever handled through a pointer.
pub struct shitty_vt {
    _private: (),
}

// shitty_vt_cell.attributes bits
pub const SHITTY_VT_ATTR_BOLD: u16 = 1; // bit 0
pub const SHITTY_VT_ATTR_FAINT: u16 = 2; // bit 1
pub const SHITTY_VT_ATTR_ITALIC: u16 = 4; // bit 2
pub const SHITTY_VT_ATTR_BLINK: u16 = 8; // bit 3
pub const SHITTY_VT_ATTR_INVERSE: u16 = 16; // bit 4
pub const SHITTY_VT_ATTR_CONCEAL: u16 = 32; // bit 5
pub const SHITTY_VT_ATTR_STRIKE: u16 = 64; // bit 6
pub const SHITTY_VT_ATTR_OVERLINE: u16 = 128; // bit 7

// shitty_vt_cell.*_source kinds, in the low byte of the field.
pub const SHITTY_VT_COLOR_DEFAULT_FOREGROUND: u16 = 0;
pub const SHITTY_VT_COLOR_DEFAULT_BACKGROUND: u16 = 1;
pub const SHITTY_VT_COLOR_INDEXED: u16 = 2;
pub const SHITTY_VT_COLOR_DIRECT: u16 = 3;

/// `SHITTY_VT_COLOR_KIND`: the low byte of a `*_source` field.
pub fn shitty_vt_color_kind(source: u16) -> (kind: u16)
    ensures
        kind == source % 256,
{
    assert(source & 0xff == source % 256) by (bit_vector);
    source & 0xff
}

/// `SHITTY_VT_COLOR_INDEX`: the high byte of a `*_source` field, the palette
/// entry, meaningful only when the kind is [`SHITTY_VT_COLOR_INDEXED`].
pub fn shitty_vt_color_index(source: u16) -> (index: u8)
    ensures
        index == source / 256,
{
    assert((source >> 8) & 0xff == source / 256) by (bit_vector);
    ((source >> 8) & 0xff) as u8
}

/// A `*_source` field is exactly its kind and its palette index: the two
/// accessors lose nothing between them.
pub proof fn lemma_color_source_split(source: u16)
    ensures
        source == (source / 256) * 256 + source % 256,
        source / 256 < 256,
{
}

// shitty_vt_modes() bits
pub const SHITTY_VT_MODE_ALT_SCREEN: u32 = 1; // bit 0
pub const SHITTY_VT_MODE_BRACKETED_PASTE: u32 = 2; // bit 1
pub const SHITTY_VT_MODE_APP_CURSOR_KEYS: u32 = 4; // bit 2
pub const SHITTY_VT_MODE_APP_KEYPAD: u32 = 8; // bit 3
pub const SHITTY_VT_MODE_FOCUS_EVENTS: u32 = 16; // bit 4
pub const SHITTY_VT_MODE_AUTO_WRAP: u32 = 32; // bit 5
pub const SHITTY_VT_MODE_ORIGIN: u32 = 64; // bit 6
pub const SHITTY_VT_MODE_INSERT: u32 = 128; // bit 7
pub const SHITTY_VT_MODE_CURSOR_VISIBLE: u32 = 256; // bit 8
pub const SHITTY_VT_MODE_SCREEN_REVERSE: u32 = 512; // bit 9
pub const SHITTY_VT_MODE_SYNCHRONIZED_OUTPUT: u32 = 1024; // bit 10
pub const SHITTY_VT_MODE_MOUSE_CLICK: u32 = 2048; // bit 11
pub const SHITTY_VT_MODE_MOUSE_DRAG: u32 = 4096; // bit 12
pub const SHITTY_VT_MODE_MOUSE_MOTION: u32 = 8192; // bit 13
pub const SHITTY_VT_MODE_MOUSE_SGR: u32 = 16384; // bit 14
pub const SHITTY_VT_MODE_ALTERNATE_SCROLL: u32 = 32768; // bit 15

// Key codes for `shitty_vt_key_event.key`.
pub const SHITTY_VT_KEY_UNKNOWN: u16 = 0;
pub const SHITTY_VT_KEY_PRINTABLE: u16 = 1;
pub const SHITTY_VT_KEY_SPACE: u16 = 2;
pub const SHITTY_VT_KEY_ESCAPE: u16 = 3;
pub const SHITTY_VT_KEY_ENTER: u16 = 4;
pub const SHITTY_VT_KEY_BACKSPACE: u16 = 5;
pub const SHITTY_VT_KEY_TAB: u16 = 6;
pub const SHITTY_VT_KEY_INSERT: u16 = 7;
pub const SHITTY_VT_KEY_DELETE: u16 = 8;
pub const SHITTY_VT_KEY_HOME: u16 = 9;
pub const SHITTY_VT_KEY_END: u16 = 10;
pub const SHITTY_VT_KEY_UP: u16 = 11;
pub const SHITTY_VT_KEY_DOWN: u16 = 12;
pub const SHITTY_VT_KEY_LEFT: u16 = 13;
pub const SHITTY_VT_KEY_RIGHT: u16 = 14;
pub const SHITTY_VT_KEY_PAGE_UP: u16 = 15;
pub const SHITTY_VT_KEY_PAGE_DOWN: u16 = 16;
pub const SHITTY_VT_KEY_CLEAR: u16 = 17;
pub const SHITTY_VT_KEY_F1: u16 = 18;
pub const SHITTY_VT_KEY_F2: u16 = 19;
pub const SHITTY_VT_KEY_F3: u16 = 20;
pub const SHITTY_VT_KEY_F4: u16 = 21;
pub const SHITTY_VT_KEY_F5: u16 = 22;
pub const SHITTY_VT_KEY_F6: u16 = 23;
pub const SHITTY_VT_KEY_F7: u16 = 24;
pub const SHITTY_VT_KEY_F8: u16 = 25;
pub const SHITTY_VT_KEY_F9: u16 = 26;
pub const SHITTY_VT_KEY_F10: u16 = 27;
pub const SHITTY_VT_KEY_F11: u16 = 28;
pub const SHITTY_VT_KEY_F12: u16 = 29;
pub const SHITTY_VT_KEY_F13: u16 = 30;
pub const SHITTY_VT_KEY_F14: u16 = 31;
pub const SHITTY_VT_KEY_F15: u16 = 32;
pub const SHITTY_VT_KEY_F16: u16 = 33;
pub const SHITTY_VT_KEY_F17: u16 = 34;
pub const SHITTY_VT_KEY_F18: u16 = 35;
pub const SHITTY_VT_KEY_F19: u16 = 36;
pub const SHITTY_VT_KEY_F20: u16 = 37;
pub const SHITTY_VT_KEY_F21: u16 = 38;
pub const SHITTY_VT_KEY_F22: u16 = 39;
pub const SHITTY_VT_KEY_F23: u16 = 40;
pub const SHITTY_VT_KEY_F24: u16 = 41;
pub const SHITTY_VT_KEY_F25: u16 = 42;
pub const SHITTY_VT_KEY_F26: u16 = 43;
pub const SHITTY_VT_KEY_F27: u16 = 44;
pub const SHITTY_VT_KEY_F28: u16 = 45;
pub const SHITTY_VT_KEY_F29: u16 = 46;
pub const SHITTY_VT_KEY_F30: u16 = 47;
pub const SHITTY_VT_KEY_F31: u16 = 48;
pub const SHITTY_VT_KEY_F32: u16 = 49;
pub const SHITTY_VT_KEY_F33: u16 = 50;
pub const SHITTY_VT_KEY_F34: u16 = 51;
pub const SHITTY_VT_KEY_F35: u16 = 52;
pub const SHITTY_VT_KEY_KEYPAD_0: u16 = 53;
pub const SHITTY_VT_KEY_KEYPAD_1: u16 = 54;
pub const SHITTY_VT_KEY_KEYPAD_2: u16 = 55;
pub const SHITTY_VT_KEY_KEYPAD_3: u16 = 56;
pub const SHITTY_VT_KEY_KEYPAD_4: u16 = 57;
pub const SHITTY_VT_KEY_KEYPAD_5: u16 = 58;
pub const SHITTY_VT_KEY_KEYPAD_6: u16 = 59;
pub const SHITTY_VT_KEY_KEYPAD_7: u16 = 60;
pub const SHITTY_VT_KEY_KEYPAD_8: u16 = 61;
pub const SHITTY_VT_KEY_KEYPAD_9: u16 = 62;
pub const SHITTY_VT_KEY_KEYPAD_DECIMAL: u16 = 63;
pub const SHITTY_VT_KEY_KEYPAD_DIVIDE: u16 = 64;
pub const SHITTY_VT_KEY_KEYPAD_MULTIPLY: u16 = 65;
pub const SHITTY_VT_KEY_KEYPAD_SUBTRACT: u16 = 66;
pub const SHITTY_VT_KEY_KEYPAD_ADD: u16 = 67;
pub const SHITTY_VT_KEY_KEYPAD_ENTER: u16 = 68;
pub const SHITTY_VT_KEY_KEYPAD_EQUAL: u16 = 69;
pub const SHITTY_VT_KEY_KEYPAD_SEPARATOR: u16 = 70;
pub const SHITTY_VT_KEY_KEYPAD_F1: u16 = 71;
pub const SHITTY_VT_KEY_KEYPAD_F2: u16 = 72;
pub const SHITTY_VT_KEY_KEYPAD_F3: u16 = 73;
pub const SHITTY_VT_KEY_KEYPAD_F4: u16 = 74;
pub const SHITTY_VT_KEY_KEYPAD_INSERT: u16 = 75;
pub const SHITTY_VT_KEY_KEYPAD_DELETE: u16 = 76;
pub const SHITTY_VT_KEY_KEYPAD_UP: u16 = 77;
pub const SHITTY_VT_KEY_KEYPAD_DOWN: u16 = 78;
pub const SHITTY_VT_KEY_KEYPAD_LEFT: u16 = 79;
pub const SHITTY_VT_KEY_KEYPAD_RIGHT: u16 = 80;
pub const SHITTY_VT_KEY_KEYPAD_HOME: u16 = 81;
pub const SHITTY_VT_KEY_KEYPAD_END: u16 = 82;
pub const SHITTY_VT_KEY_KEYPAD_PAGE_UP: u16 = 83;
pub const SHITTY_VT_KEY_KEYPAD_PAGE_DOWN: u16 = 84;
pub const SHITTY_VT_KEY_KEYPAD_BEGIN: u16 = 85;
pub const SHITTY_VT_KEY_KEYPAD_SPACE: u16 = 86;
pub const SHITTY_VT_KEY_KEYPAD_TAB: u16 = 87;
pub const SHITTY_VT_KEY_CAPS_LOCK: u16 = 88;
pub const SHITTY_VT_KEY_SCROLL_LOCK: u16 = 89;
pub const SHITTY_VT_KEY_NUM_LOCK: u16 = 90;
pub const SHITTY_VT_KEY_PRINT_SCREEN: u16 = 91;
pub const SHITTY_VT_KEY_PAUSE: u16 = 92;
pub const SHITTY_VT_KEY_MENU: u16 = 93;
pub const SHITTY_VT_KEY_LEFT_SHIFT: u16 = 94;
pub const SHITTY_VT_KEY_LEFT_CONTROL: u16 = 95;
pub const SHITTY_VT_KEY_LEFT_ALT: u16 = 96;
pub const SHITTY_VT_KEY_LEFT_SUPER: u16 = 97;
pub const SHITTY_VT_KEY_RIGHT_SHIFT: u16 = 98;
pub const SHITTY_VT_KEY_RIGHT_CONTROL: u16 = 99;
pub const SHITTY_VT_KEY_RIGHT_ALT: u16 = 100;
pub const SHITTY_VT_KEY_RIGHT_SUPER: u16 = 101;
pub const SHITTY_VT_KEY_MEDIA_PLAY: u16 = 102;
pub const SHITTY_VT_KEY_MEDIA_PAUSE: u16 = 103;
pub const SHITTY_VT_KEY_MEDIA_PLAY_PAUSE: u16 = 104;
pub const SHITTY_VT_KEY_MEDIA_REVERSE: u16 = 105;
pub const SHITTY_VT_KEY_MEDIA_STOP: u16 = 106;
pub const SHITTY_VT_KEY_MEDIA_FAST_FORWARD: u16 = 107;
pub const SHITTY_VT_KEY_MEDIA_REWIND: u16 = 108;
pub const SHITTY_VT_KEY_MEDIA_TRACK_NEXT: u16 = 109;
pub const SHITTY_VT_KEY_MEDIA_TRACK_PREVIOUS: u16 = 110;
pub const SHITTY_VT_KEY_MEDIA_RECORD: u16 = 111;
pub const SHITTY_VT_KEY_VOLUME_DOWN: u16 = 112;
pub const SHITTY_VT_KEY_VOLUME_UP: u16 = 113;
pub const SHITTY_VT_KEY_VOLUME_MUTE: u16 = 114;
/// One past the last key code.
pub const SHITTY_VT_KEY_COUNT: u16 = 115;

// shitty_vt_key_event.modifiers bits
pub const SHITTY_VT_MOD_SHIFT: u16 = 1; // bit 0
pub const SHITTY_VT_MOD_CONTROL: u16 = 2; // bit 1
pub const SHITTY_VT_MOD_ALT: u16 = 4; // bit 2
pub const SHITTY_VT_MOD_SUPER: u16 = 8; // bit 3
pub const SHITTY_VT_MOD_CAPS_LOCK: u16 = 16; // bit 4
pub const SHITTY_VT_MOD_NUM_LOCK: u16 = 32; // bit 5
pub const SHITTY_VT_MOD_ALT_GRAPH: u16 = 64; // bit 6

// shitty_vt_key_event.action values
pub const SHITTY_VT_KEY_PRESS: u8 = 0;
pub const SHITTY_VT_KEY_REPEAT: u8 = 1;
pub const SHITTY_VT_KEY_RELEASE: u8 = 2;

// Mouse buttons
pub const SHITTY_VT_MOUSE_LEFT: i32 = 0;
pub const SHITTY_VT_MOUSE_RIGHT: i32 = 1;
pub const SHITTY_VT_MOUSE_MIDDLE: i32 = 2;
pub const SHITTY_VT_MOUSE_AUX1: i32 = 3;
pub const SHITTY_VT_MOUSE_AUX2: i32 = 4;
pub const SHITTY_VT_MOUSE_AUX3: i32 = 5;
pub const SHITTY_VT_MOUSE_AUX4: i32 = 6;
pub const SHITTY_VT_MOUSE_AUX5: i32 = 7;

/// One readable cell, as the facade reports it. Colours are `0x00BBGGRR`.
/// The grapheme cluster arrives as its codepoints (empty for a blank cell),
/// valid only for the duration of the visit.
///
/// The `*_source` fields say where each resolved colour came from; read them
/// with [`shitty_vt_color_kind`] and [`shitty_vt_color_index`].
#[derive(Clone, Copy, Debug)]
pub struct shitty_vt_cell<'a> {
    /// The cluster's codepoints, borrowed for the duration of the visit.
    pub grapheme: &'a [u32],
    pub foreground: u32,
    pub background: u32,
    pub underline_color: u32,
    pub attributes: u16,
    /// 0 none, 1 straight, 2 double, 3 curly, 4 dotted, 5 dashed
    pub underline_style: u8,
    /// 1 or 2; the continuation of a wide cell is not reported
    pub width: u8,
    pub foreground_source: u16,
    pub background_source: u16,
    pub underline_source: u16,
}

/// What the terminal spends on its grid and history. Cells only: the
/// grapheme, hyperlink and sixel stores are not counted.
#[derive(Clone, Copy, Debug, Default, PartialEq, Eq, Structural)]
pub struct shitty_vt_memory {
    /// Row slots actually backed by cells. The ring is rounded to a power of
    /// two, so this can exceed `capacity_rows`.
    pub allocated_rows: u32,
    /// Rows the terminal will keep: rows + save_lines.
    pub capacity_rows: u32,
    pub columns: u32,
    pub cell_size: u32,
    pub cell_bytes: u64,
}

#[derive(Clone, Copy, Debug, Default, PartialEq, Eq, Structural)]
pub struct shitty_vt_cursor {
    pub column: u16,
    pub row: u16,
    /// 0 hidden, 1 filled block, 2 hollow block, 3 underline, 4 bar
    pub style: u8,
    pub visible: u8,
}

/// One physical key event. Zero codepoints mean unknown; a named key needs
/// none of them.
#[derive(Clone, Copy, Debug, Default, PartialEq, Eq, Structural)]
pub struct shitty_vt_key_event {
    /// A `SHITTY_VT_KEY_*` code.
    pub key: u16,
    /// `SHITTY_VT_KEY_PRESS`, `_REPEAT` or `_RELEASE`.
    pub action: u8,
    /// `SHITTY_VT_MOD_*` bits.
    pub modifiers: u16,
    /// The key's identity in the active layout unshifted,
    pub layout_codepoint: u32,
    /// in the base (ASCII) layout,
    pub base_codepoint: u32,
    /// and with Shift in the active layout.
    pub shifted_codepoint: u32,
}

} // verus!
