//! Keys, modifiers and key events: what an embedder reports to the terminal,
//! and the raw records those reports become.
use vstd::prelude::*;

use crate::sys;
use crate::sys::shitty_vt_key_event;
use crate::bits::{bit16, lemma_bits16_determine, lemma_bit16_and, lemma_bit16_or, lemma_bit16_zero};

verus! {

/// A physical key, mirroring the facade's pinned codes: the `n`-th variant
/// is code `n`.
///
/// [`Key::Printable`] covers every character key: which character it is
/// travels in the event's codepoints, not in the code.
#[derive(Clone, Copy, Debug, PartialEq, Eq, Structural, Hash)]
#[non_exhaustive]
pub enum Key {
    Unknown,
    Printable,
    Space,
    Escape,
    Enter,
    Backspace,
    Tab,
    Insert,
    Delete,
    Home,
    End,
    Up,
    Down,
    Left,
    Right,
    PageUp,
    PageDown,
    Clear,
    F1,
    F2,
    F3,
    F4,
    F5,
    F6,
    F7,
    F8,
    F9,
    F10,
    F11,
    F12,
    F13,
    F14,
    F15,
    F16,
    F17,
    F18,
    F19,
    F20,
    F21,
    F22,
    F23,
    F24,
    F25,
    F26,
    F27,
    F28,
    F29,
    F30,
    F31,
    F32,
    F33,
    F34,
    F35,
    Keypad0,
    Keypad1,
    Keypad2,
    Keypad3,
    Keypad4,
    Keypad5,
    Keypad6,
    Keypad7,
    Keypad8,
    Keypad9,
    KeypadDecimal,
    KeypadDivide,
    KeypadMultiply,
    KeypadSubtract,
    KeypadAdd,
    KeypadEnter,
    KeypadEqual,
    KeypadSeparator,
    KeypadF1,
    KeypadF2,
    KeypadF3,
    KeypadF4,
    KeypadInsert,
    KeypadDelete,
    KeypadUp,
    KeypadDown,
    KeypadLeft,
    KeypadRight,
    KeypadHome,
    KeypadEnd,
    KeypadPageUp,
    KeypadPageDown,
    KeypadBegin,
    KeypadSpace,
    KeypadTab,
    CapsLock,
    ScrollLock,
    NumLock,
    PrintScreen,
    Pause,
    Menu,
    LeftShift,
    LeftControl,
    LeftAlt,
    LeftSuper,
    RightShift,
    RightControl,
    RightAlt,
    RightSuper,
    MediaPlay,
    MediaPause,
    MediaPlayPause,
    MediaReverse,
    MediaStop,
    MediaFastForward,
    MediaRewind,
    MediaTrackNext,
    MediaTrackPrevious,
    MediaRecord,
    VolumeDown,
    VolumeUp,
    VolumeMute,
}

impl Key {
    /// One past the last key code: every code below this names a key.
    pub const COUNT: u16 = sys::SHITTY_VT_KEY_COUNT;

    /// The pinned C code of a key.
    pub open spec fn spec_code(self) -> u16 {
        match self {
            Key::Unknown => sys::SHITTY_VT_KEY_UNKNOWN,
            Key::Printable => sys::SHITTY_VT_KEY_PRINTABLE,
            Key::Space => sys::SHITTY_VT_KEY_SPACE,
            Key::Escape => sys::SHITTY_VT_KEY_ESCAPE,
            Key::Enter => sys::SHITTY_VT_KEY_ENTER,
            Key::Backspace => sys::SHITTY_VT_KEY_BACKSPACE,
            Key::Tab => sys::SHITTY_VT_KEY_TAB,
            Key::Insert => sys::SHITTY_VT_KEY_INSERT,
            Key::Delete => sys::SHITTY_VT_KEY_DELETE,
            Key::Home => sys::SHITTY_VT_KEY_HOME,
            Key::End => sys::SHITTY_VT_KEY_END,
            Key::Up => sys::SHITTY_VT_KEY_UP,
            Key::Down => sys::SHITTY_VT_KEY_DOWN,
            Key::Left => sys::SHITTY_VT_KEY_LEFT,
            Key::Right => sys::SHITTY_VT_KEY_RIGHT,
            Key::PageUp => sys::SHITTY_VT_KEY_PAGE_UP,
            Key::PageDown => sys::SHITTY_VT_KEY_PAGE_DOWN,
            Key::Clear => sys::SHITTY_VT_KEY_CLEAR,
            Key::F1 => sys::SHITTY_VT_KEY_F1,
            Key::F2 => sys::SHITTY_VT_KEY_F2,
            Key::F3 => sys::SHITTY_VT_KEY_F3,
            Key::F4 => sys::SHITTY_VT_KEY_F4,
            Key::F5 => sys::SHITTY_VT_KEY_F5,
            Key::F6 => sys::SHITTY_VT_KEY_F6,
            Key::F7 => sys::SHITTY_VT_KEY_F7,
            Key::F8 => sys::SHITTY_VT_KEY_F8,
            Key::F9 => sys::SHITTY_VT_KEY_F9,
            Key::F10 => sys::SHITTY_VT_KEY_F10,
            Key::F11 => sys::SHITTY_VT_KEY_F11,
            Key::F12 => sys::SHITTY_VT_KEY_F12,
            Key::F13 => sys::SHITTY_VT_KEY_F13,
            Key::F14 => sys::SHITTY_VT_KEY_F14,
            Key::F15 => sys::SHITTY_VT_KEY_F15,
            Key::F16 => sys::SHITTY_VT_KEY_F16,
            Key::F17 => sys::SHITTY_VT_KEY_F17,
            Key::F18 => sys::SHITTY_VT_KEY_F18,
            Key::F19 => sys::SHITTY_VT_KEY_F19,
            Key::F20 => sys::SHITTY_VT_KEY_F20,
            Key::F21 => sys::SHITTY_VT_KEY_F21,
            Key::F22 => sys::SHITTY_VT_KEY_F22,
            Key::F23 => sys::SHITTY_VT_KEY_F23,
            Key::F24 => sys::SHITTY_VT_KEY_F24,
            Key::F25 => sys::SHITTY_VT_KEY_F25,
            Key::F26 => sys::SHITTY_VT_KEY_F26,
            Key::F27 => sys::SHITTY_VT_KEY_F27,
            Key::F28 => sys::SHITTY_VT_KEY_F28,
            Key::F29 => sys::SHITTY_VT_KEY_F29,
            Key::F30 => sys::SHITTY_VT_KEY_F30,
            Key::F31 => sys::SHITTY_VT_KEY_F31,
            Key::F32 => sys::SHITTY_VT_KEY_F32,
            Key::F33 => sys::SHITTY_VT_KEY_F33,
            Key::F34 => sys::SHITTY_VT_KEY_F34,
            Key::F35 => sys::SHITTY_VT_KEY_F35,
            Key::Keypad0 => sys::SHITTY_VT_KEY_KEYPAD_0,
            Key::Keypad1 => sys::SHITTY_VT_KEY_KEYPAD_1,
            Key::Keypad2 => sys::SHITTY_VT_KEY_KEYPAD_2,
            Key::Keypad3 => sys::SHITTY_VT_KEY_KEYPAD_3,
            Key::Keypad4 => sys::SHITTY_VT_KEY_KEYPAD_4,
            Key::Keypad5 => sys::SHITTY_VT_KEY_KEYPAD_5,
            Key::Keypad6 => sys::SHITTY_VT_KEY_KEYPAD_6,
            Key::Keypad7 => sys::SHITTY_VT_KEY_KEYPAD_7,
            Key::Keypad8 => sys::SHITTY_VT_KEY_KEYPAD_8,
            Key::Keypad9 => sys::SHITTY_VT_KEY_KEYPAD_9,
            Key::KeypadDecimal => sys::SHITTY_VT_KEY_KEYPAD_DECIMAL,
            Key::KeypadDivide => sys::SHITTY_VT_KEY_KEYPAD_DIVIDE,
            Key::KeypadMultiply => sys::SHITTY_VT_KEY_KEYPAD_MULTIPLY,
            Key::KeypadSubtract => sys::SHITTY_VT_KEY_KEYPAD_SUBTRACT,
            Key::KeypadAdd => sys::SHITTY_VT_KEY_KEYPAD_ADD,
            Key::KeypadEnter => sys::SHITTY_VT_KEY_KEYPAD_ENTER,
            Key::KeypadEqual => sys::SHITTY_VT_KEY_KEYPAD_EQUAL,
            Key::KeypadSeparator => sys::SHITTY_VT_KEY_KEYPAD_SEPARATOR,
            Key::KeypadF1 => sys::SHITTY_VT_KEY_KEYPAD_F1,
            Key::KeypadF2 => sys::SHITTY_VT_KEY_KEYPAD_F2,
            Key::KeypadF3 => sys::SHITTY_VT_KEY_KEYPAD_F3,
            Key::KeypadF4 => sys::SHITTY_VT_KEY_KEYPAD_F4,
            Key::KeypadInsert => sys::SHITTY_VT_KEY_KEYPAD_INSERT,
            Key::KeypadDelete => sys::SHITTY_VT_KEY_KEYPAD_DELETE,
            Key::KeypadUp => sys::SHITTY_VT_KEY_KEYPAD_UP,
            Key::KeypadDown => sys::SHITTY_VT_KEY_KEYPAD_DOWN,
            Key::KeypadLeft => sys::SHITTY_VT_KEY_KEYPAD_LEFT,
            Key::KeypadRight => sys::SHITTY_VT_KEY_KEYPAD_RIGHT,
            Key::KeypadHome => sys::SHITTY_VT_KEY_KEYPAD_HOME,
            Key::KeypadEnd => sys::SHITTY_VT_KEY_KEYPAD_END,
            Key::KeypadPageUp => sys::SHITTY_VT_KEY_KEYPAD_PAGE_UP,
            Key::KeypadPageDown => sys::SHITTY_VT_KEY_KEYPAD_PAGE_DOWN,
            Key::KeypadBegin => sys::SHITTY_VT_KEY_KEYPAD_BEGIN,
            Key::KeypadSpace => sys::SHITTY_VT_KEY_KEYPAD_SPACE,
            Key::KeypadTab => sys::SHITTY_VT_KEY_KEYPAD_TAB,
            Key::CapsLock => sys::SHITTY_VT_KEY_CAPS_LOCK,
            Key::ScrollLock => sys::SHITTY_VT_KEY_SCROLL_LOCK,
            Key::NumLock => sys::SHITTY_VT_KEY_NUM_LOCK,
            Key::PrintScreen => sys::SHITTY_VT_KEY_PRINT_SCREEN,
            Key::Pause => sys::SHITTY_VT_KEY_PAUSE,
            Key::Menu => sys::SHITTY_VT_KEY_MENU,
            Key::LeftShift => sys::SHITTY_VT_KEY_LEFT_SHIFT,
            Key::LeftControl => sys::SHITTY_VT_KEY_LEFT_CONTROL,
            Key::LeftAlt => sys::SHITTY_VT_KEY_LEFT_ALT,
            Key::LeftSuper => sys::SHITTY_VT_KEY_LEFT_SUPER,
            Key::RightShift => sys::SHITTY_VT_KEY_RIGHT_SHIFT,
            Key::RightControl => sys::SHITTY_VT_KEY_RIGHT_CONTROL,
            Key::RightAlt => sys::SHITTY_VT_KEY_RIGHT_ALT,
            Key::RightSuper => sys::SHITTY_VT_KEY_RIGHT_SUPER,
            Key::MediaPlay => sys::SHITTY_VT_KEY_MEDIA_PLAY,
            Key::MediaPause => sys::SHITTY_VT_KEY_MEDIA_PAUSE,
            Key::MediaPlayPause => sys::SHITTY_VT_KEY_MEDIA_PLAY_PAUSE,
            Key::MediaReverse => sys::SHITTY_VT_KEY_MEDIA_REVERSE,
            Key::MediaStop => sys::SHITTY_VT_KEY_MEDIA_STOP,
            Key::MediaFastForward => sys::SHITTY_VT_KEY_MEDIA_FAST_FORWARD,
            Key::MediaRewind => sys::SHITTY_VT_KEY_MEDIA_REWIND,
            Key::MediaTrackNext => sys::SHITTY_VT_KEY_MEDIA_TRACK_NEXT,
            Key::MediaTrackPrevious => sys::SHITTY_VT_KEY_MEDIA_TRACK_PREVIOUS,
            Key::MediaRecord => sys::SHITTY_VT_KEY_MEDIA_RECORD,
            Key::VolumeDown => sys::SHITTY_VT_KEY_VOLUME_DOWN,
            Key::VolumeUp => sys::SHITTY_VT_KEY_VOLUME_UP,
            Key::VolumeMute => sys::SHITTY_VT_KEY_VOLUME_MUTE,
        }
    }

    /// The pinned C code.
    pub fn code(self) -> (code: u16)
        ensures
            code == self.spec_code(),
    {
        match self {
            Key::Unknown => sys::SHITTY_VT_KEY_UNKNOWN,
            Key::Printable => sys::SHITTY_VT_KEY_PRINTABLE,
            Key::Space => sys::SHITTY_VT_KEY_SPACE,
            Key::Escape => sys::SHITTY_VT_KEY_ESCAPE,
            Key::Enter => sys::SHITTY_VT_KEY_ENTER,
            Key::Backspace => sys::SHITTY_VT_KEY_BACKSPACE,
            Key::Tab => sys::SHITTY_VT_KEY_TAB,
            Key::Insert => sys::SHITTY_VT_KEY_INSERT,
            Key::Delete => sys::SHITTY_VT_KEY_DELETE,
            Key::Home => sys::SHITTY_VT_KEY_HOME,
            Key::End => sys::SHITTY_VT_KEY_END,
            Key::Up => sys::SHITTY_VT_KEY_UP,
            Key::Down => sys::SHITTY_VT_KEY_DOWN,
            Key::Left => sys::SHITTY_VT_KEY_LEFT,
            Key::Right => sys::SHITTY_VT_KEY_RIGHT,
            Key::PageUp => sys::SHITTY_VT_KEY_PAGE_UP,
            Key::PageDown => sys::SHITTY_VT_KEY_PAGE_DOWN,
            Key::Clear => sys::SHITTY_VT_KEY_CLEAR,
            Key::F1 => sys::SHITTY_VT_KEY_F1,
            Key::F2 => sys::SHITTY_VT_KEY_F2,
            Key::F3 => sys::SHITTY_VT_KEY_F3,
            Key::F4 => sys::SHITTY_VT_KEY_F4,
            Key::F5 => sys::SHITTY_VT_KEY_F5,
            Key::F6 => sys::SHITTY_VT_KEY_F6,
            Key::F7 => sys::SHITTY_VT_KEY_F7,
            Key::F8 => sys::SHITTY_VT_KEY_F8,
            Key::F9 => sys::SHITTY_VT_KEY_F9,
            Key::F10 => sys::SHITTY_VT_KEY_F10,
            Key::F11 => sys::SHITTY_VT_KEY_F11,
            Key::F12 => sys::SHITTY_VT_KEY_F12,
            Key::F13 => sys::SHITTY_VT_KEY_F13,
            Key::F14 => sys::SHITTY_VT_KEY_F14,
            Key::F15 => sys::SHITTY_VT_KEY_F15,
            Key::F16 => sys::SHITTY_VT_KEY_F16,
            Key::F17 => sys::SHITTY_VT_KEY_F17,
            Key::F18 => sys::SHITTY_VT_KEY_F18,
            Key::F19 => sys::SHITTY_VT_KEY_F19,
            Key::F20 => sys::SHITTY_VT_KEY_F20,
            Key::F21 => sys::SHITTY_VT_KEY_F21,
            Key::F22 => sys::SHITTY_VT_KEY_F22,
            Key::F23 => sys::SHITTY_VT_KEY_F23,
            Key::F24 => sys::SHITTY_VT_KEY_F24,
            Key::F25 => sys::SHITTY_VT_KEY_F25,
            Key::F26 => sys::SHITTY_VT_KEY_F26,
            Key::F27 => sys::SHITTY_VT_KEY_F27,
            Key::F28 => sys::SHITTY_VT_KEY_F28,
            Key::F29 => sys::SHITTY_VT_KEY_F29,
            Key::F30 => sys::SHITTY_VT_KEY_F30,
            Key::F31 => sys::SHITTY_VT_KEY_F31,
            Key::F32 => sys::SHITTY_VT_KEY_F32,
            Key::F33 => sys::SHITTY_VT_KEY_F33,
            Key::F34 => sys::SHITTY_VT_KEY_F34,
            Key::F35 => sys::SHITTY_VT_KEY_F35,
            Key::Keypad0 => sys::SHITTY_VT_KEY_KEYPAD_0,
            Key::Keypad1 => sys::SHITTY_VT_KEY_KEYPAD_1,
            Key::Keypad2 => sys::SHITTY_VT_KEY_KEYPAD_2,
            Key::Keypad3 => sys::SHITTY_VT_KEY_KEYPAD_3,
            Key::Keypad4 => sys::SHITTY_VT_KEY_KEYPAD_4,
            Key::Keypad5 => sys::SHITTY_VT_KEY_KEYPAD_5,
            Key::Keypad6 => sys::SHITTY_VT_KEY_KEYPAD_6,
            Key::Keypad7 => sys::SHITTY_VT_KEY_KEYPAD_7,
            Key::Keypad8 => sys::SHITTY_VT_KEY_KEYPAD_8,
            Key::Keypad9 => sys::SHITTY_VT_KEY_KEYPAD_9,
            Key::KeypadDecimal => sys::SHITTY_VT_KEY_KEYPAD_DECIMAL,
            Key::KeypadDivide => sys::SHITTY_VT_KEY_KEYPAD_DIVIDE,
            Key::KeypadMultiply => sys::SHITTY_VT_KEY_KEYPAD_MULTIPLY,
            Key::KeypadSubtract => sys::SHITTY_VT_KEY_KEYPAD_SUBTRACT,
            Key::KeypadAdd => sys::SHITTY_VT_KEY_KEYPAD_ADD,
            Key::KeypadEnter => sys::SHITTY_VT_KEY_KEYPAD_ENTER,
            Key::KeypadEqual => sys::SHITTY_VT_KEY_KEYPAD_EQUAL,
            Key::KeypadSeparator => sys::SHITTY_VT_KEY_KEYPAD_SEPARATOR,
            Key::KeypadF1 => sys::SHITTY_VT_KEY_KEYPAD_F1,
            Key::KeypadF2 => sys::SHITTY_VT_KEY_KEYPAD_F2,
            Key::KeypadF3 => sys::SHITTY_VT_KEY_KEYPAD_F3,
            Key::KeypadF4 => sys::SHITTY_VT_KEY_KEYPAD_F4,
            Key::KeypadInsert => sys::SHITTY_VT_KEY_KEYPAD_INSERT,
            Key::KeypadDelete => sys::SHITTY_VT_KEY_KEYPAD_DELETE,
            Key::KeypadUp => sys::SHITTY_VT_KEY_KEYPAD_UP,
            Key::KeypadDown => sys::SHITTY_VT_KEY_KEYPAD_DOWN,
            Key::KeypadLeft => sys::SHITTY_VT_KEY_KEYPAD_LEFT,
            Key::KeypadRight => sys::SHITTY_VT_KEY_KEYPAD_RIGHT,
            Key::KeypadHome => sys::SHITTY_VT_KEY_KEYPAD_HOME,
            Key::KeypadEnd => sys::SHITTY_VT_KEY_KEYPAD_END,
            Key::KeypadPageUp => sys::SHITTY_VT_KEY_KEYPAD_PAGE_UP,
            Key::KeypadPageDown => sys::SHITTY_VT_KEY_KEYPAD_PAGE_DOWN,
            Key::KeypadBegin => sys::SHITTY_VT_KEY_KEYPAD_BEGIN,
            Key::KeypadSpace => sys::SHITTY_VT_KEY_KEYPAD_SPACE,
            Key::KeypadTab => sys::SHITTY_VT_KEY_KEYPAD_TAB,
            Key::CapsLock => sys::SHITTY_VT_KEY_CAPS_LOCK,
            Key::ScrollLock => sys::SHITTY_VT_KEY_SCROLL_LOCK,
            Key::NumLock => sys::SHITTY_VT_KEY_NUM_LOCK,
            Key::PrintScreen => sys::SHITTY_VT_KEY_PRINT_SCREEN,
            Key::Pause => sys::SHITTY_VT_KEY_PAUSE,
            Key::Menu => sys::SHITTY_VT_KEY_MENU,
            Key::LeftShift => sys::SHITTY_VT_KEY_LEFT_SHIFT,
            Key::LeftControl => sys::SHITTY_VT_KEY_LEFT_CONTROL,
            Key::LeftAlt => sys::SHITTY_VT_KEY_LEFT_ALT,
            Key::LeftSuper => sys::SHITTY_VT_KEY_LEFT_SUPER,
            Key::RightShift => sys::SHITTY_VT_KEY_RIGHT_SHIFT,
            Key::RightControl => sys::SHITTY_VT_KEY_RIGHT_CONTROL,
            Key::RightAlt => sys::SHITTY_VT_KEY_RIGHT_ALT,
            Key::RightSuper => sys::SHITTY_VT_KEY_RIGHT_SUPER,
            Key::MediaPlay => sys::SHITTY_VT_KEY_MEDIA_PLAY,
            Key::MediaPause => sys::SHITTY_VT_KEY_MEDIA_PAUSE,
            Key::MediaPlayPause => sys::SHITTY_VT_KEY_MEDIA_PLAY_PAUSE,
            Key::MediaReverse => sys::SHITTY_VT_KEY_MEDIA_REVERSE,
            Key::MediaStop => sys::SHITTY_VT_KEY_MEDIA_STOP,
            Key::MediaFastForward => sys::SHITTY_VT_KEY_MEDIA_FAST_FORWARD,
            Key::MediaRewind => sys::SHITTY_VT_KEY_MEDIA_REWIND,
            Key::MediaTrackNext => sys::SHITTY_VT_KEY_MEDIA_TRACK_NEXT,
            Key::MediaTrackPrevious => sys::SHITTY_VT_KEY_MEDIA_TRACK_PREVIOUS,
            Key::MediaRecord => sys::SHITTY_VT_KEY_MEDIA_RECORD,
            Key::VolumeDown => sys::SHITTY_VT_KEY_VOLUME_DOWN,
            Key::VolumeUp => sys::SHITTY_VT_KEY_VOLUME_UP,
            Key::VolumeMute => sys::SHITTY_VT_KEY_VOLUME_MUTE,
        }
    }

    /// The key a code names, or `None` for a code this build does not know.
    pub fn from_code(code: u16) -> (key: Option<Key>)
        ensures
            key is Some <==> code < Key::COUNT,
            key matches Some(k) ==> k.spec_code() == code,
    {
        match code {
            0 => Some(Key::Unknown),
            1 => Some(Key::Printable),
            2 => Some(Key::Space),
            3 => Some(Key::Escape),
            4 => Some(Key::Enter),
            5 => Some(Key::Backspace),
            6 => Some(Key::Tab),
            7 => Some(Key::Insert),
            8 => Some(Key::Delete),
            9 => Some(Key::Home),
            10 => Some(Key::End),
            11 => Some(Key::Up),
            12 => Some(Key::Down),
            13 => Some(Key::Left),
            14 => Some(Key::Right),
            15 => Some(Key::PageUp),
            16 => Some(Key::PageDown),
            17 => Some(Key::Clear),
            18 => Some(Key::F1),
            19 => Some(Key::F2),
            20 => Some(Key::F3),
            21 => Some(Key::F4),
            22 => Some(Key::F5),
            23 => Some(Key::F6),
            24 => Some(Key::F7),
            25 => Some(Key::F8),
            26 => Some(Key::F9),
            27 => Some(Key::F10),
            28 => Some(Key::F11),
            29 => Some(Key::F12),
            30 => Some(Key::F13),
            31 => Some(Key::F14),
            32 => Some(Key::F15),
            33 => Some(Key::F16),
            34 => Some(Key::F17),
            35 => Some(Key::F18),
            36 => Some(Key::F19),
            37 => Some(Key::F20),
            38 => Some(Key::F21),
            39 => Some(Key::F22),
            40 => Some(Key::F23),
            41 => Some(Key::F24),
            42 => Some(Key::F25),
            43 => Some(Key::F26),
            44 => Some(Key::F27),
            45 => Some(Key::F28),
            46 => Some(Key::F29),
            47 => Some(Key::F30),
            48 => Some(Key::F31),
            49 => Some(Key::F32),
            50 => Some(Key::F33),
            51 => Some(Key::F34),
            52 => Some(Key::F35),
            53 => Some(Key::Keypad0),
            54 => Some(Key::Keypad1),
            55 => Some(Key::Keypad2),
            56 => Some(Key::Keypad3),
            57 => Some(Key::Keypad4),
            58 => Some(Key::Keypad5),
            59 => Some(Key::Keypad6),
            60 => Some(Key::Keypad7),
            61 => Some(Key::Keypad8),
            62 => Some(Key::Keypad9),
            63 => Some(Key::KeypadDecimal),
            64 => Some(Key::KeypadDivide),
            65 => Some(Key::KeypadMultiply),
            66 => Some(Key::KeypadSubtract),
            67 => Some(Key::KeypadAdd),
            68 => Some(Key::KeypadEnter),
            69 => Some(Key::KeypadEqual),
            70 => Some(Key::KeypadSeparator),
            71 => Some(Key::KeypadF1),
            72 => Some(Key::KeypadF2),
            73 => Some(Key::KeypadF3),
            74 => Some(Key::KeypadF4),
            75 => Some(Key::KeypadInsert),
            76 => Some(Key::KeypadDelete),
            77 => Some(Key::KeypadUp),
            78 => Some(Key::KeypadDown),
            79 => Some(Key::KeypadLeft),
            80 => Some(Key::KeypadRight),
            81 => Some(Key::KeypadHome),
            82 => Some(Key::KeypadEnd),
            83 => Some(Key::KeypadPageUp),
            84 => Some(Key::KeypadPageDown),
            85 => Some(Key::KeypadBegin),
            86 => Some(Key::KeypadSpace),
            87 => Some(Key::KeypadTab),
            88 => Some(Key::CapsLock),
            89 => Some(Key::ScrollLock),
            90 => Some(Key::NumLock),
            91 => Some(Key::PrintScreen),
            92 => Some(Key::Pause),
            93 => Some(Key::Menu),
            94 => Some(Key::LeftShift),
            95 => Some(Key::LeftControl),
            96 => Some(Key::LeftAlt),
            97 => Some(Key::LeftSuper),
            98 => Some(Key::RightShift),
            99 => Some(Key::RightControl),
            100 => Some(Key::RightAlt),
            101 => Some(Key::RightSuper),
            102 => Some(Key::MediaPlay),
            103 => Some(Key::MediaPause),
            104 => Some(Key::MediaPlayPause),
            105 => Some(Key::MediaReverse),
            106 => Some(Key::MediaStop),
            107 => Some(Key::MediaFastForward),
            108 => Some(Key::MediaRewind),
            109 => Some(Key::MediaTrackNext),
            110 => Some(Key::MediaTrackPrevious),
            111 => Some(Key::MediaRecord),
            112 => Some(Key::VolumeDown),
            113 => Some(Key::VolumeUp),
            114 => Some(Key::VolumeMute),
            _ => None,
        }
    }
}

/// The key each code in range names, written out once so that the laws
/// below can be checked against it code by code.
spec fn key_with_code(code: u16) -> Option<Key> {
    match code {
        0 => Some(Key::Unknown),
        1 => Some(Key::Printable),
        2 => Some(Key::Space),
        3 => Some(Key::Escape),
        4 => Some(Key::Enter),
        5 => Some(Key::Backspace),
        6 => Some(Key::Tab),
        7 => Some(Key::Insert),
        8 => Some(Key::Delete),
        9 => Some(Key::Home),
        10 => Some(Key::End),
        11 => Some(Key::Up),
        12 => Some(Key::Down),
        13 => Some(Key::Left),
        14 => Some(Key::Right),
        15 => Some(Key::PageUp),
        16 => Some(Key::PageDown),
        17 => Some(Key::Clear),
        18 => Some(Key::F1),
        19 => Some(Key::F2),
        20 => Some(Key::F3),
        21 => Some(Key::F4),
        22 => Some(Key::F5),
        23 => Some(Key::F6),
        24 => Some(Key::F7),
        25 => Some(Key::F8),
        26 => Some(Key::F9),
        27 => Some(Key::F10),
        28 => Some(Key::F11),
        29 => Some(Key::F12),
        30 => Some(Key::F13),
        31 => Some(Key::F14),
        32 => Some(Key::F15),
        33 => Some(Key::F16),
        34 => Some(Key::F17),
        35 => Some(Key::F18),
        36 => Some(Key::F19),
        37 => Some(Key::F20),
        38 => Some(Key::F21),
        39 => Some(Key::F22),
        40 => Some(Key::F23),
        41 => Some(Key::F24),
        42 => Some(Key::F25),
        43 => Some(Key::F26),
        44 => Some(Key::F27),
        45 => Some(Key::F28),
        46 => Some(Key::F29),
        47 => Some(Key::F30),
        48 => Some(Key::F31),
        49 => Some(Key::F32),
        50 => Some(Key::F33),
        51 => Some(Key::F34),
        52 => Some(Key::F35),
        53 => Some(Key::Keypad0),
        54 => Some(Key::Keypad1),
        55 => Some(Key::Keypad2),
        56 => Some(Key::Keypad3),
        57 => Some(Key::Keypad4),
        58 => Some(Key::Keypad5),
        59 => Some(Key::Keypad6),
        60 => Some(Key::Keypad7),
        61 => Some(Key::Keypad8),
        62 => Some(Key::Keypad9),
        63 => Some(Key::KeypadDecimal),
        64 => Some(Key::KeypadDivide),
        65 => Some(Key::KeypadMultiply),
        66 => Some(Key::KeypadSubtract),
        67 => Some(Key::KeypadAdd),
        68 => Some(Key::KeypadEnter),
        69 => Some(Key::KeypadEqual),
        70 => Some(Key::KeypadSeparator),
        71 => Some(Key::KeypadF1),
        72 => Some(Key::KeypadF2),
        73 => Some(Key::KeypadF3),
        74 => Some(Key::KeypadF4),
        75 => Some(Key::KeypadInsert),
        76 => Some(Key::KeypadDelete),
        77 => Some(Key::KeypadUp),
        78 => Some(Key::KeypadDown),
        79 => Some(Key::KeypadLeft),
        80 => Some(Key::KeypadRight),
        81 => Some(Key::KeypadHome),
        82 => Some(Key::KeypadEnd),
        83 => Some(Key::KeypadPageUp),
        84 => Some(Key::KeypadPageDown),
        85 => Some(Key::KeypadBegin),
        86 => Some(Key::KeypadSpace),
        87 => Some(Key::KeypadTab),
        88 => Some(Key::CapsLock),
        89 => Some(Key::ScrollLock),
        90 => Some(Key::NumLock),
        91 => Some(Key::PrintScreen),
        92 => Some(Key::Pause),
        93 => Some(Key::Menu),
        94 => Some(Key::LeftShift),
        95 => Some(Key::LeftControl),
        96 => Some(Key::LeftAlt),
        97 => Some(Key::LeftSuper),
        98 => Some(Key::RightShift),
        99 => Some(Key::RightControl),
        100 => Some(Key::RightAlt),
        101 => Some(Key::RightSuper),
        102 => Some(Key::MediaPlay),
        103 => Some(Key::MediaPause),
        104 => Some(Key::MediaPlayPause),
        105 => Some(Key::MediaReverse),
        106 => Some(Key::MediaStop),
        107 => Some(Key::MediaFastForward),
        108 => Some(Key::MediaRewind),
        109 => Some(Key::MediaTrackNext),
        110 => Some(Key::MediaTrackPrevious),
        111 => Some(Key::MediaRecord),
        112 => Some(Key::VolumeDown),
        113 => Some(Key::VolumeUp),
        114 => Some(Key::VolumeMute),
        _ => None,
    }
}

proof fn lemma_key_with_code_inverts(k: Key)
    ensures
        key_with_code(k.spec_code()) == Some(k),
{
}

/// Every key's code is below [`Key::COUNT`].
pub proof fn lemma_code_in_range(k: Key)
    ensures
        k.spec_code() < Key::COUNT,
{
}

/// No two keys share a code, so `from_code(k.code())` is `Some(k)`.
pub proof fn lemma_code_injective(a: Key, b: Key)
    ensures
        a.spec_code() == b.spec_code() ==> a == b,
{
    lemma_key_with_code_inverts(a);
    lemma_key_with_code_inverts(b);
}

/// Every code below [`Key::COUNT`] names some key: the codes run with no gaps.
pub proof fn lemma_codes_have_no_gaps(code: u16)
    requires
        code < Key::COUNT,
    ensures
        exists|k: Key| k.spec_code() == code,
{
    let k = key_with_code(code).unwrap();
    assert(k.spec_code() == code);
}

/// Modifiers held when an event happened.
///
/// The lock states are not decoration: NumLock chooses between the two
/// identities of a keypad key, and the kitty protocol reports both locks when
/// the application asks it to.
#[derive(Clone, Copy, Debug, Default, PartialEq, Eq, Structural, Hash)]
pub struct Modifiers(pub u16);

impl View for Modifiers {
    /// The held modifiers, as the set of their bit positions.
    type V = Set<u16>;

    open spec fn view(&self) -> Set<u16> {
        Set::new(|i: u16| i < 16 && bit16(self.0, i))
    }
}

impl Modifiers {
    /// No modifier at all.
    pub fn none() -> (m: Modifiers)
        ensures
            m.0 == 0,
    {
        Modifiers(0)
    }

    /// Shift.
    pub fn shift() -> (m: Modifiers)
        ensures
            m.0 == sys::SHITTY_VT_MOD_SHIFT,
    {
        Modifiers(sys::SHITTY_VT_MOD_SHIFT)
    }

    /// Control.
    pub fn control() -> (m: Modifiers)
        ensures
            m.0 == sys::SHITTY_VT_MOD_CONTROL,
    {
        Modifiers(sys::SHITTY_VT_MOD_CONTROL)
    }

    /// Alt.
    pub fn alt() -> (m: Modifiers)
        ensures
            m.0 == sys::SHITTY_VT_MOD_ALT,
    {
        Modifiers(sys::SHITTY_VT_MOD_ALT)
    }

    /// Super.
    pub fn super_key() -> (m: Modifiers)
        ensures
            m.0 == sys::SHITTY_VT_MOD_SUPER,
    {
        Modifiers(sys::SHITTY_VT_MOD_SUPER)
    }

    /// Caps Lock.
    pub fn caps_lock() -> (m: Modifiers)
        ensures
            m.0 == sys::SHITTY_VT_MOD_CAPS_LOCK,
    {
        Modifiers(sys::SHITTY_VT_MOD_CAPS_LOCK)
    }

    /// Num Lock.
    pub fn num_lock() -> (m: Modifiers)
        ensures
            m.0 == sys::SHITTY_VT_MOD_NUM_LOCK,
    {
        Modifiers(sys::SHITTY_VT_MOD_NUM_LOCK)
    }

    /// AltGr.
    pub fn alt_graph() -> (m: Modifiers)
        ensures
            m.0 == sys::SHITTY_VT_MOD_ALT_GRAPH,
    {
        Modifiers(sys::SHITTY_VT_MOD_ALT_GRAPH)
    }


    /// No modifier is held.
    pub fn is_empty(self) -> (empty: bool)
        ensures
            empty <==> self@ == Set::<u16>::empty(),
    {
        proof {
            if self@ == Set::<u16>::empty() {
                assert forall|i: u16| i < 16 implies #[trigger] bit16(self.0, i) == bit16(0, i) by {
                    lemma_bit16_zero(i);
                    assert(!self@.contains(i));
                }
                lemma_bits16_determine(self.0, 0);
            }
            if self.0 == 0 {
                assert forall|i: u16| !self@.contains(i) by {
                    if i < 16 {
                        lemma_bit16_zero(i);
                    }
                }
                assert(self@ =~= Set::<u16>::empty());
            }
        }
        self.0 == 0
    }

    /// Whether every modifier in `other` is held.
    pub fn contains(self, other: Modifiers) -> (held: bool)
        ensures
            held <==> other@.subset_of(self@),
    {
        let both = self.0 & other.0;
        proof {
            assert forall|i: u16| i < 16 implies #[trigger] bit16(both, i) == (bit16(self.0, i)
                && bit16(other.0, i)) by {
                lemma_bit16_and(self.0, other.0, i);
            }
            if other@.subset_of(self@) {
                assert forall|i: u16| i < 16 implies #[trigger] bit16(both, i) == bit16(other.0, i) by {
                    if bit16(other.0, i) {
                        assert(other@.contains(i));
                    }
                }
                lemma_bits16_determine(both, other.0);
            }
            if both == other.0 {
                assert forall|i: u16| other@.contains(i) implies self@.contains(i) by {
                    assert(bit16(both, i));
                }
            }
        }
        both == other.0
    }

    /// The modifiers held in either.
    pub open spec fn union(self, other: Modifiers) -> Modifiers {
        Modifiers(self.0 | other.0)
    }
}

/// The bits of `a | b` are the bits of `a` together with those of `b`.
pub proof fn lemma_union_view(a: Modifiers, b: Modifiers)
    ensures
        a.union(b)@ == a@.union(b@),
{
    assert forall|i: u16| a.union(b)@.contains(i) == a@.union(b@).contains(i) by {
        if i < 16 {
            lemma_bit16_or(a.0, b.0, i);
        }
    }
    assert(a.union(b)@ =~= a@.union(b@));
}

impl std::ops::BitOr for Modifiers {
    type Output = Modifiers;

    fn bitor(self, other: Modifiers) -> (held: Modifiers)
        ensures
            held == self.union(other),
            held@ == self@.union(other@),
    {
        proof {
            lemma_union_view(self, other);
        }
        Modifiers(self.0 | other.0)
    }
}

impl vstd::std_specs::ops::BitOrSpecImpl for Modifiers {
    open spec fn obeys_bitor_spec() -> bool {
        true
    }

    open spec fn bitor_req(self, rhs: Modifiers) -> bool {
        true
    }

    open spec fn bitor_spec(self, rhs: Modifiers) -> Modifiers {
        self.union(rhs)
    }
}

impl std::ops::BitOrAssign for Modifiers {
    fn bitor_assign(&mut self, other: Modifiers)
        ensures
            *final(self) == old(self).union(other),
            final(self)@ == old(self)@.union(other@),
    {
        proof {
            lemma_union_view(*self, other);
        }
        self.0 = self.0 | other.0;
    }
}

/// Laws of holding modifiers: a combination holds each of its parts, every
/// set of modifiers holds none at all and itself, holding is transitive, and
/// combining is commutative, associative and idempotent with
/// [`Modifiers::none`] as its identity.
pub proof fn lemma_modifiers_algebra(a: Modifiers, b: Modifiers, c: Modifiers)
    ensures
        a@.subset_of(a.union(b)@),
        b@.subset_of(a.union(b)@),
        Modifiers(0)@.subset_of(a@),
        a@.subset_of(a@),
        a@.subset_of(b@) && b@.subset_of(c@) ==> a@.subset_of(c@),
        a.union(b) == b.union(a),
        a.union(b).union(c) == a.union(b.union(c)),
        a.union(a) == a,
        a.union(Modifiers(0)) == a,
        Modifiers(0)@ == Set::<u16>::empty(),
        a == b <==> a@ == b@,
{
    lemma_union_view(a, b);
    let (x, y, z) = (a.0, b.0, c.0);
    assert(x | y == y | x) by (bit_vector);
    assert((x | y) | z == x | (y | z)) by (bit_vector);
    assert(x | x == x) by (bit_vector);
    assert(x | 0 == x) by (bit_vector);
    assert forall|i: u16| !Modifiers(0)@.contains(i) by {
        if i < 16 {
            lemma_bit16_zero(i);
        }
    }
    assert(Modifiers(0)@ =~= Set::<u16>::empty());
    if a@ == b@ {
        assert forall|i: u16| i < 16 implies #[trigger] bit16(a.0, i) == bit16(b.0, i) by {
            assert(a@.contains(i) == b@.contains(i));
        }
        lemma_bits16_determine(a.0, b.0);
    }
}

/// What happened to a key. Repeat and release exist for the kitty protocol; a
/// legacy application sees presses and repeats alike and releases not at all.
#[derive(Clone, Copy, Debug, Default, PartialEq, Eq, Structural, Hash)]
pub enum KeyAction {
    #[default]
    Press,
    Repeat,
    Release,
}

impl KeyAction {
    /// The facade's `SHITTY_VT_KEY_*` action value.
    pub open spec fn spec_code(self) -> u8 {
        match self {
            KeyAction::Press => sys::SHITTY_VT_KEY_PRESS,
            KeyAction::Repeat => sys::SHITTY_VT_KEY_REPEAT,
            KeyAction::Release => sys::SHITTY_VT_KEY_RELEASE,
        }
    }
}

/// The codepoint the facade receives for an optional character: zero means
/// unknown.
pub open spec fn codepoint_or_zero(ch: Option<char>) -> u32 {
    match ch {
        Some(c) => c as u32,
        None => 0,
    }
}

/// One physical key event.
///
/// The three codepoints are the key's unicode identity in the active layout
/// unshifted, in the base (ASCII) layout, and with Shift in the active
/// layout. They feed chord encoding and the kitty protocol's alternate keys.
/// Leaving them `None` is well-formed: a named key has none, and an embedder
/// that knows only the layout character sets only that one.
#[derive(Clone, Copy, Debug, PartialEq, Eq, Structural)]
pub struct KeyEvent {
    pub key: Key,
    pub action: KeyAction,
    pub modifiers: Modifiers,
    pub layout: Option<char>,
    pub base: Option<char>,
    pub shifted: Option<char>,
}

impl KeyEvent {
    /// The record the facade receives for this event.
    pub open spec fn spec_raw(self) -> shitty_vt_key_event {
        shitty_vt_key_event {
            key: self.key.spec_code(),
            action: self.action.spec_code(),
            modifiers: self.modifiers.0,
            layout_codepoint: codepoint_or_zero(self.layout),
            base_codepoint: codepoint_or_zero(self.base),
            shifted_codepoint: codepoint_or_zero(self.shifted),
        }
    }

    /// A press of a named key, unmodified.
    pub fn press(key: Key) -> (event: KeyEvent)
        ensures
            event == (KeyEvent {
                key,
                action: KeyAction::Press,
                modifiers: Modifiers(0),
                layout: None,
                base: None,
                shifted: None,
            }),
    {
        KeyEvent {
            key,
            action: KeyAction::Press,
            modifiers: Modifiers::none(),
            layout: None,
            base: None,
            shifted: None,
        }
    }

    /// A repeat of a held key.
    pub fn repeat(key: Key) -> (event: KeyEvent)
        ensures
            event == (KeyEvent {
                key,
                action: KeyAction::Repeat,
                modifiers: Modifiers(0),
                layout: None,
                base: None,
                shifted: None,
            }),
    {
        KeyEvent { action: KeyAction::Repeat, ..KeyEvent::press(key) }
    }

    /// A release. Only the kitty protocol reports these; under any other
    /// encoding the terminal drops them.
    pub fn release(key: Key) -> (event: KeyEvent)
        ensures
            event == (KeyEvent {
                key,
                action: KeyAction::Release,
                modifiers: Modifiers(0),
                layout: None,
                base: None,
                shifted: None,
            }),
    {
        KeyEvent { action: KeyAction::Release, ..KeyEvent::press(key) }
    }

    /// A press of a character key, with `ch` as both the layout and the base
    /// identity. That is right for a latin layout; on any other, set
    /// [`KeyEvent::base`] to the character the same physical key types in the
    /// ASCII layout, which is what a chord like Ctrl+C is encoded from.
    pub fn printable(ch: char) -> (event: KeyEvent)
        ensures
            event == (KeyEvent {
                key: Key::Printable,
                action: KeyAction::Press,
                modifiers: Modifiers(0),
                layout: Some(ch),
                base: Some(ch),
                shifted: None,
            }),
    {
        KeyEvent { layout: Some(ch), base: Some(ch), ..KeyEvent::press(Key::Printable) }
    }

    /// The same event with `modifiers` held.
    pub fn with_modifiers(self, modifiers: Modifiers) -> (event: KeyEvent)
        ensures
            event == (KeyEvent { modifiers, ..self }),
    {
        KeyEvent { modifiers, ..self }
    }

    /// The record the facade receives for this event.
    pub fn to_raw(self) -> (raw: shitty_vt_key_event)
        ensures
            raw == self.spec_raw(),
    {
        let action: u8 = match self.action {
            KeyAction::Press => sys::SHITTY_VT_KEY_PRESS,
            KeyAction::Repeat => sys::SHITTY_VT_KEY_REPEAT,
            KeyAction::Release => sys::SHITTY_VT_KEY_RELEASE,
        };
        shitty_vt_key_event {
            key: self.key.code(),
            action,
            modifiers: self.modifiers.0,
            layout_codepoint: codepoint(self.layout),
            base_codepoint: codepoint(self.base),
            shifted_codepoint: codepoint(self.shifted),
        }
    }
}

fn codepoint(ch: Option<char>) -> (code: u32)
    ensures
        code == codepoint_or_zero(ch),
{
    match ch {
        Some(c) => c as u32,
        None => 0,
    }
}

/// A pointer button. The protocols' own numbering is the terminal's business.
#[derive(Clone, Copy, Debug, PartialEq, Eq, Structural, Hash)]
pub enum MouseButton {
    Left,
    Right,
    Middle,
    Aux1,
    Aux2,
    Aux3,
    Aux4,
    Aux5,
}

impl MouseButton {
    /// The facade's `SHITTY_VT_MOUSE_*` number for a button.
    pub open spec fn spec_code(self) -> i32 {
        match self {
            MouseButton::Left => sys::SHITTY_VT_MOUSE_LEFT,
            MouseButton::Right => sys::SHITTY_VT_MOUSE_RIGHT,
            MouseButton::Middle => sys::SHITTY_VT_MOUSE_MIDDLE,
            MouseButton::Aux1 => sys::SHITTY_VT_MOUSE_AUX1,
            MouseButton::Aux2 => sys::SHITTY_VT_MOUSE_AUX2,
            MouseButton::Aux3 => sys::SHITTY_VT_MOUSE_AUX3,
            MouseButton::Aux4 => sys::SHITTY_VT_MOUSE_AUX4,
            MouseButton::Aux5 => sys::SHITTY_VT_MOUSE_AUX5,
        }
    }

    /// The number the facade takes for this button.
    pub fn code(self) -> (code: i32)
        ensures
            code == self.spec_code(),
    {
        match self {
            MouseButton::Left => sys::SHITTY_VT_MOUSE_LEFT,
            MouseButton::Right => sys::SHITTY_VT_MOUSE_RIGHT,
            MouseButton::Middle => sys::SHITTY_VT_MOUSE_MIDDLE,
            MouseButton::Aux1 => sys::SHITTY_VT_MOUSE_AUX1,
            MouseButton::Aux2 => sys::SHITTY_VT_MOUSE_AUX2,
            MouseButton::Aux3 => sys::SHITTY_VT_MOUSE_AUX3,
            MouseButton::Aux4 => sys::SHITTY_VT_MOUSE_AUX4,
            MouseButton::Aux5 => sys::SHITTY_VT_MOUSE_AUX5,
        }
    }
}

/// Distinct buttons reach the facade as distinct numbers, all in `0..8`.
pub proof fn lemma_mouse_codes_distinct(a: MouseButton, b: MouseButton)
    ensures
        0 <= a.spec_code() < 8,
        a.spec_code() == b.spec_code() ==> a == b,
{
}

/// One call into the facade's input entry points.
#[derive(Clone, Copy, Debug, PartialEq, Eq, Structural)]
pub enum InputCall {
    /// `shitty_vt_key` with this event.
    Key(shitty_vt_key_event),
    /// `shitty_vt_text` with this codepoint and these modifier bits.
    Text { codepoint: u32, modifiers: u16 },
    /// `shitty_vt_input_flush`.
    Flush,
}

/// The calls that report a whole keystroke: the key, the text it produced if
/// any (with the key's modifiers), and the flush that ends the batch. Whether
/// the key was consumed is the answer to the first call.
pub open spec fn spec_keystroke(event: KeyEvent, text: Option<char>) -> Seq<InputCall> {
    let text_calls = match text {
        Some(ch) => seq![InputCall::Text { codepoint: ch as u32, modifiers: event.modifiers.0 }],
        None => Seq::<InputCall>::empty(),
    };
    seq![InputCall::Key(event.spec_raw())] + text_calls + seq![InputCall::Flush]
}

/// The calls [`spec_keystroke`] describes, in order.
pub fn keystroke(event: KeyEvent, text: Option<char>) -> (calls: Vec<InputCall>)
    ensures
        calls@ == spec_keystroke(event, text),
{
    let mut calls: Vec<InputCall> = Vec::new();
    calls.push(InputCall::Key(event.to_raw()));
    if let Some(ch) = text {
        calls.push(InputCall::Text { codepoint: ch as u32, modifiers: event.modifiers.0 });
    }
    calls.push(InputCall::Flush);
    calls
}

/// The raw record carries each part of the event as the facade numbers it:
/// a press is action 0, a repeat 1 and a release 2 (so the three actions
/// stay distinct, and a repeat reaches the terminal as a repeat), the key is
/// its pinned code, the modifiers are passed bit for bit, and each codepoint
/// is the character's scalar value, or 0 when the event has none.
pub proof fn lemma_raw_record_fields(e: KeyEvent)
    ensures
        e.action == KeyAction::Press ==> e.spec_raw().action == 0,
        e.action == KeyAction::Repeat ==> e.spec_raw().action == 1,
        e.action == KeyAction::Release ==> e.spec_raw().action == 2,
        e.spec_raw().key == e.key.spec_code(),
        e.spec_raw().key < Key::COUNT,
        e.spec_raw().modifiers == e.modifiers.0,
        e.layout matches Some(c) ==> e.spec_raw().layout_codepoint == c as u32,
        e.layout is None ==> e.spec_raw().layout_codepoint == 0,
        e.base matches Some(c) ==> e.spec_raw().base_codepoint == c as u32,
        e.base is None ==> e.spec_raw().base_codepoint == 0,
        e.shifted matches Some(c) ==> e.spec_raw().shifted_codepoint == c as u32,
        e.shifted is None ==> e.spec_raw().shifted_codepoint == 0,
{
    lemma_code_in_range(e.key);
}

/// Two events with different actions, and otherwise anything, never reach
/// the facade with the same action value.
pub proof fn lemma_raw_actions_distinct(a: KeyEvent, b: KeyEvent)
    ensures
        a.action != b.action ==> a.spec_raw().action != b.spec_raw().action,
{
    lemma_raw_record_fields(a);
    lemma_raw_record_fields(b);
}

/// A keystroke is always the key call first and the flush last. With text
/// there are exactly three calls, and the middle one reports that very
/// character with the event's own modifiers; without text there are two.
pub proof fn lemma_keystroke_shape(event: KeyEvent, text: Option<char>)
    ensures
        spec_keystroke(event, text)[0] == InputCall::Key(event.spec_raw()),
        spec_keystroke(event, text).last() == InputCall::Flush,
        text matches Some(ch) ==> spec_keystroke(event, text).len() == 3
            && spec_keystroke(event, text)[1] == (InputCall::Text {
                codepoint: ch as u32,
                modifiers: event.modifiers.0,
            }),
        text is None ==> spec_keystroke(event, text).len() == 2,
{
}

} // verus!
