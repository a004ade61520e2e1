//! The decoders, constructors and bookkeeping on concrete values.

use shitty_vt::sys;
use shitty_vt::sys::{shitty_vt_cell, shitty_vt_cursor, shitty_vt_key_event, shitty_vt_memory};
use shitty_vt::terminal::{grid_extent, preedit_cursor};
use shitty_vt::input::keystroke;
use shitty_vt::replies::REPLY_CHUNK;
use shitty_vt::{
    Attributes, Cell, ColorSource, Cursor, Events, InputCall, Key, KeyAction, KeyEvent, Memory,
    Modes, Modifiers, MouseButton, ReplyDrain, Rgb,
};

fn raw_cell(grapheme: &[u32]) -> shitty_vt_cell<'_> {
    shitty_vt_cell {
        grapheme,
        foreground: 0x00ff_0000,
        background: 0xaa03_0201,
        underline_color: 0x0000_00ff,
        attributes: sys::SHITTY_VT_ATTR_BOLD | sys::SHITTY_VT_ATTR_INVERSE,
        underline_style: 3,
        width: 2,
        foreground_source: 0x0c02,
        background_source: 1,
        underline_source: 3,
    }
}

#[test]
fn a_color_source_splits_into_kind_and_index() {
    assert_eq!(sys::shitty_vt_color_kind(0x0c02), 2);
    assert_eq!(sys::shitty_vt_color_index(0x0c02), 12);
    assert_eq!(sys::shitty_vt_color_kind(0xff03), 3);
    assert_eq!(sys::shitty_vt_color_index(0xff03), 255);
    assert_eq!(sys::shitty_vt_color_kind(0), sys::SHITTY_VT_COLOR_DEFAULT_FOREGROUND);
    assert_eq!(sys::shitty_vt_color_index(0), 0);
}

#[test]
fn color_sources_decode_by_kind() {
    assert_eq!(ColorSource::from_raw(0), ColorSource::DefaultForeground);
    assert_eq!(ColorSource::from_raw(1), ColorSource::DefaultBackground);
    assert_eq!(ColorSource::from_raw(0x0102), ColorSource::Indexed(1));
    assert_eq!(ColorSource::from_raw(0x0902), ColorSource::Indexed(9));
    assert_eq!(ColorSource::from_raw(0xc802), ColorSource::Indexed(200));
    assert_eq!(ColorSource::from_raw(3), ColorSource::Direct);
    // The index byte means nothing outside an indexed colour.
    assert_eq!(ColorSource::from_raw(0x0500), ColorSource::DefaultForeground);
    assert_eq!(ColorSource::from_raw(0x0501), ColorSource::DefaultBackground);
    // A kind the header does not define reads as direct.
    assert_eq!(ColorSource::from_raw(0x0007), ColorSource::Direct);
}

#[test]
fn packed_colours_are_red_green_blue_from_the_low_byte() {
    assert_eq!(Rgb::from_packed(0x0003_0201), Rgb { r: 1, g: 2, b: 3 });
    assert_eq!(Rgb::from_packed(0x00ff_0000), Rgb { r: 0, g: 0, b: 255 });
    // The top byte is ignored.
    assert_eq!(Rgb::from_packed(0xff03_0201), Rgb::from_packed(0x0003_0201));
    assert_eq!(Rgb::from_packed(0), Rgb::default());
}

#[test]
fn each_attribute_reads_its_own_bit() {
    let all = Attributes(0xff);
    assert!(all.bold() && all.faint() && all.italic() && all.blink());
    assert!(all.inverse() && all.conceal() && all.strike() && all.overline());
    let none = Attributes(0xff00);
    assert!(!none.bold() && !none.faint() && !none.italic() && !none.blink());
    assert!(!none.inverse() && !none.conceal() && !none.strike() && !none.overline());
    let italic = Attributes(sys::SHITTY_VT_ATTR_ITALIC);
    assert!(italic.italic());
    assert!(!italic.bold() && !italic.faint() && !italic.blink() && !italic.inverse());
    assert!(Attributes(sys::SHITTY_VT_ATTR_OVERLINE).overline());
    assert!(Attributes(sys::SHITTY_VT_ATTR_STRIKE).strike());
    assert!(Attributes(sys::SHITTY_VT_ATTR_CONCEAL).conceal());
}

#[test]
fn each_mode_reads_its_own_bit() {
    let modes = Modes(sys::SHITTY_VT_MODE_ALT_SCREEN | sys::SHITTY_VT_MODE_BRACKETED_PASTE);
    assert!(modes.alt_screen());
    assert!(modes.bracketed_paste());
    assert!(!modes.app_cursor_keys());
    assert!(!modes.alternate_scroll());

    // 1007 does not imply 1049, and the other way about.
    let scroll = Modes(sys::SHITTY_VT_MODE_ALTERNATE_SCROLL);
    assert!(scroll.alternate_scroll());
    assert!(!scroll.alt_screen());

    let all = Modes(0xffff);
    assert!(all.app_keypad() && all.focus_events() && all.auto_wrap() && all.origin());
    assert!(all.insert() && all.cursor_visible() && all.screen_reverse());
    assert!(all.synchronized_output() && all.mouse_click() && all.mouse_drag());
    assert!(all.mouse_motion() && all.mouse_sgr() && all.alternate_scroll());
    let high = Modes(0xffff_0000);
    assert!(!high.alt_screen() && !high.alternate_scroll() && !high.mouse_sgr());
}

#[test]
fn a_raw_cell_decodes_field_by_field() {
    let raw = raw_cell(&[0x65, 0x301]);
    let cell = Cell::from_raw(&raw);
    assert_eq!(cell.grapheme, &[0x65, 0x301][..]);
    assert_eq!(cell.foreground, Rgb { r: 0, g: 0, b: 255 });
    assert_eq!(cell.background, Rgb { r: 1, g: 2, b: 3 });
    assert_eq!(cell.underline_color, Rgb { r: 255, g: 0, b: 0 });
    assert!(cell.attributes.bold() && cell.attributes.inverse() && !cell.attributes.italic());
    assert_eq!(cell.underline_style, 3);
    assert_eq!(cell.width, 2);
    assert_eq!(cell.foreground_source, ColorSource::Indexed(12));
    assert_eq!(cell.background_source, ColorSource::DefaultBackground);
    assert_eq!(cell.underline_source, ColorSource::Direct);
}

#[test]
fn cell_text_keeps_the_cluster_and_drops_what_is_not_a_scalar() {
    let raw = raw_cell(&[0x65, 0x301]);
    assert_eq!(Cell::from_raw(&raw).text(), "e\u{301}");

    let raw = raw_cell(&[0x1F469, 0x200D, 0x1F4BB]);
    assert_eq!(Cell::from_raw(&raw).text(), "\u{1F469}\u{200D}\u{1F4BB}");

    // A surrogate and a value past U+10FFFF are not characters.
    let raw = raw_cell(&[0x61, 0xD800, 0x110000, 0x62]);
    assert_eq!(Cell::from_raw(&raw).text(), "ab");

    let raw = raw_cell(&[]);
    assert_eq!(Cell::from_raw(&raw).text(), "");
}

#[test]
fn cursor_and_memory_decode() {
    let raw = shitty_vt_cursor { column: 5, row: 2, style: 1, visible: 2 };
    assert_eq!(Cursor::from_raw(raw), Cursor { column: 5, row: 2, style: 1, visible: true });
    let hidden = shitty_vt_cursor { visible: 0, ..raw };
    assert!(!Cursor::from_raw(hidden).visible);

    let raw = shitty_vt_memory {
        allocated_rows: 64,
        capacity_rows: 60,
        columns: 20,
        cell_size: 16,
        cell_bytes: 64 * 20 * 16,
    };
    assert_eq!(
        Memory::from_raw(raw),
        Memory { allocated_rows: 64, capacity_rows: 60, columns: 20, cell_size: 16, cell_bytes: 20480 }
    );
}

#[test]
fn key_event_constructors() {
    let up = KeyEvent::press(Key::Up);
    assert_eq!(up.key, Key::Up);
    assert_eq!(up.action, KeyAction::Press);
    assert!(up.modifiers.is_empty());
    assert_eq!((up.layout, up.base, up.shifted), (None, None, None));

    assert_eq!(KeyEvent::repeat(Key::Up), KeyEvent { action: KeyAction::Repeat, ..up });
    assert_eq!(KeyEvent::release(Key::Up), KeyEvent { action: KeyAction::Release, ..up });
    assert_eq!(KeyAction::default(), KeyAction::Press);

    let c = KeyEvent::printable('c');
    assert_eq!(c.key, Key::Printable);
    assert_eq!((c.layout, c.base, c.shifted), (Some('c'), Some('c'), None));

    let ctrl_c = c.with_modifiers(Modifiers::control());
    assert_eq!(ctrl_c, KeyEvent { modifiers: Modifiers::control(), ..c });
}

#[test]
fn a_key_event_becomes_its_raw_record() {
    let event = KeyEvent {
        modifiers: Modifiers::control(),
        shifted: Some('C'),
        ..KeyEvent::printable('c')
    };
    assert_eq!(
        event.to_raw(),
        shitty_vt_key_event {
            key: sys::SHITTY_VT_KEY_PRINTABLE,
            action: sys::SHITTY_VT_KEY_PRESS,
            modifiers: sys::SHITTY_VT_MOD_CONTROL,
            layout_codepoint: 'c' as u32,
            base_codepoint: 'c' as u32,
            shifted_codepoint: 'C' as u32,
        }
    );

    let raw = KeyEvent::release(Key::F5).to_raw();
    assert_eq!(raw.key, sys::SHITTY_VT_KEY_F5);
    assert_eq!(raw.action, sys::SHITTY_VT_KEY_RELEASE);
    assert_eq!((raw.layout_codepoint, raw.base_codepoint, raw.shifted_codepoint), (0, 0, 0));

    let raw = KeyEvent::printable('\u{442}').to_raw();
    assert_eq!(raw.layout_codepoint, 0x442);
}

#[test]
fn a_keystroke_is_key_then_text_then_flush() {
    let event = KeyEvent::printable('a').with_modifiers(Modifiers::shift());
    assert_eq!(
        keystroke(event, Some('A')),
        vec![
            InputCall::Key(event.to_raw()),
            InputCall::Text { codepoint: 'A' as u32, modifiers: sys::SHITTY_VT_MOD_SHIFT },
            InputCall::Flush,
        ]
    );
    let up = KeyEvent::press(Key::Up);
    assert_eq!(keystroke(up, None), vec![InputCall::Key(up.to_raw()), InputCall::Flush]);
}

#[test]
fn mouse_buttons_number_from_zero() {
    let buttons = [
        MouseButton::Left,
        MouseButton::Right,
        MouseButton::Middle,
        MouseButton::Aux1,
        MouseButton::Aux2,
        MouseButton::Aux3,
        MouseButton::Aux4,
        MouseButton::Aux5,
    ];
    for (number, button) in buttons.iter().enumerate() {
        assert_eq!(button.code(), number as i32);
    }
    assert_eq!(MouseButton::Middle.code(), sys::SHITTY_VT_MOUSE_MIDDLE);
}

#[test]
fn modifiers_hold_their_parts_and_nothing_more() {
    let all = [
        Modifiers::shift(),
        Modifiers::control(),
        Modifiers::alt(),
        Modifiers::super_key(),
        Modifiers::caps_lock(),
        Modifiers::num_lock(),
        Modifiers::alt_graph(),
    ];
    for a in all {
        assert!(a.contains(a));
        assert!(a.contains(Modifiers::none()));
        assert!(!a.is_empty());
        for b in all {
            let both = a | b;
            assert!(both.contains(a) && both.contains(b));
            assert_eq!(both, b | a);
            assert_eq!(a.contains(b), a == b);
        }
        assert_eq!(a | a, a);
        assert_eq!(a | Modifiers::none(), a);
    }
    assert!(Modifiers::none().contains(Modifiers::none()));
    assert!(!Modifiers::none().contains(Modifiers::shift()));
    assert_eq!(Modifiers::default(), Modifiers::none());
}

#[test]
fn every_code_round_trips_through_its_key() {
    for code in 0..=u16::MAX {
        match Key::from_code(code) {
            Some(key) => {
                assert!(code < Key::COUNT);
                assert_eq!(key.code(), code);
                assert_eq!(Key::from_code(key.code()), Some(key));
            }
            None => assert!(code >= Key::COUNT),
        }
    }
}

#[test]
fn events_start_empty() {
    let mut events = Events::new();
    assert_eq!(events.title(), None);
    assert_eq!(events.bells(), 0);
    assert!(!events.damaged());
    assert_eq!(events.take_resize_request(), None);
    assert!(events.take_clipboard_writes().is_empty());
    assert!(events.take_open_uris().is_empty());
}

#[test]
fn the_title_is_the_latest_and_decoded_leniently() {
    let mut events = Events::new();
    events.title_changed(b"a pane".to_vec());
    assert_eq!(events.title().as_deref(), Some("a pane"));
    events.title_changed(b"second".to_vec());
    assert_eq!(events.title().as_deref(), Some("second"));
    events.title_changed(vec![b'a', 0xff, b'b']);
    assert_eq!(events.title().as_deref(), Some("a\u{FFFD}b"));
    // A cleared title is activity, not the starting state.
    events.title_changed(Vec::new());
    assert_eq!(events.title().as_deref(), Some(""));
}

#[test]
fn bells_count_and_damage_clears() {
    let mut events = Events::new();
    events.bell();
    events.bell();
    assert_eq!(events.bells(), 2);
    events.damage();
    assert!(events.damaged());
    events.clear_damage();
    assert!(!events.damaged());
    assert_eq!(events.bells(), 2);
}

#[test]
fn queued_reports_are_handed_out_once_in_order() {
    let mut events = Events::new();
    events.open_uri(b"https://example.invalid".to_vec());
    events.open_uri(b"second".to_vec());
    events.clipboard_set(1, b"hi".to_vec());
    events.clipboard_set(0, b"grab".to_vec());
    events.resize_request(40, 10);
    events.resize_request(80, 24);

    assert_eq!(
        events.take_open_uris(),
        vec![b"https://example.invalid".to_vec(), b"second".to_vec()]
    );
    assert!(events.take_open_uris().is_empty());
    assert_eq!(events.take_clipboard_writes(), vec![(1, b"hi".to_vec()), (0, b"grab".to_vec())]);
    assert!(events.take_clipboard_writes().is_empty());
    assert_eq!(events.take_resize_request(), Some((80, 24)));
    assert_eq!(events.take_resize_request(), None);
}

#[test]
fn a_drain_stops_at_the_first_short_chunk() {
    let full = vec![7u8; REPLY_CHUNK];
    let mut drain = ReplyDrain::new();
    assert!(drain.wants_more());
    drain.accept(&full);
    assert!(drain.wants_more());
    drain.accept(b"\x1b[?62c");
    assert!(!drain.wants_more());
    let replies = drain.into_replies();
    assert_eq!(replies.len(), REPLY_CHUNK + 6);
    assert_eq!(&replies[REPLY_CHUNK..], b"\x1b[?62c");
}

#[test]
fn an_empty_queue_drains_to_nothing() {
    let mut drain = ReplyDrain::new();
    drain.accept(&[]);
    assert!(!drain.wants_more());
    assert!(drain.into_replies().is_empty());

    // A queue of exactly one full chunk needs a second, empty take.
    let mut drain = ReplyDrain::new();
    drain.accept(&vec![1u8; REPLY_CHUNK]);
    assert!(drain.wants_more());
    drain.accept(&[]);
    assert!(!drain.wants_more());
    assert_eq!(drain.into_replies(), vec![1u8; REPLY_CHUNK]);
}

#[test]
fn the_grid_is_never_empty() {
    assert_eq!(grid_extent(0), 1);
    assert_eq!(grid_extent(1), 1);
    assert_eq!(grid_extent(80), 80);
    assert_eq!(grid_extent(u16::MAX), u16::MAX);
}

#[test]
fn a_preview_cursor_reaches_the_facade_as_two_ends() {
    assert_eq!(preedit_cursor(None), (-1, -1));
    assert_eq!(preedit_cursor(Some(1..3)), (1, 3));
    assert_eq!(preedit_cursor(Some(0..99)), (0, 99));
    assert_eq!(preedit_cursor(Some(0..usize::MAX)), (0, i32::MAX));
}
