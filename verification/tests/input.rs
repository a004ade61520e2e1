//! Key, action, button and modifier codes against the facade's constants.

use shitty_vt::sys;
use shitty_vt::{Key, KeyAction, Modifiers, MouseButton};

#[test]
fn key_codes_match_the_facade() {
    // The C side static_asserts its codes against the input layer; this is
    // the same check one link further out, so a header that renumbers cannot
    // silently turn one key into another. Every code is here rather than a
    // sample of them: 115 distinct constants below 115 leave no code in
    // range without a variant.
    assert_eq!(Key::COUNT, sys::SHITTY_VT_KEY_COUNT);
    for code in 0..Key::COUNT {
        let key = Key::from_code(code).expect("every code below COUNT names a key");
        assert_eq!(key.code(), code);
    }
    assert_eq!(Key::from_code(Key::COUNT), None);

    assert_eq!(Key::Unknown.code(), sys::SHITTY_VT_KEY_UNKNOWN);
    assert_eq!(
        Key::Printable.code(),
        sys::SHITTY_VT_KEY_PRINTABLE
    );
    assert_eq!(Key::Space.code(), sys::SHITTY_VT_KEY_SPACE);
    assert_eq!(Key::Escape.code(), sys::SHITTY_VT_KEY_ESCAPE);
    assert_eq!(Key::Enter.code(), sys::SHITTY_VT_KEY_ENTER);
    assert_eq!(
        Key::Backspace.code(),
        sys::SHITTY_VT_KEY_BACKSPACE
    );
    assert_eq!(Key::Tab.code(), sys::SHITTY_VT_KEY_TAB);
    assert_eq!(Key::Insert.code(), sys::SHITTY_VT_KEY_INSERT);
    assert_eq!(Key::Delete.code(), sys::SHITTY_VT_KEY_DELETE);
    assert_eq!(Key::Home.code(), sys::SHITTY_VT_KEY_HOME);
    assert_eq!(Key::End.code(), sys::SHITTY_VT_KEY_END);
    assert_eq!(Key::Up.code(), sys::SHITTY_VT_KEY_UP);
    assert_eq!(Key::Down.code(), sys::SHITTY_VT_KEY_DOWN);
    assert_eq!(Key::Left.code(), sys::SHITTY_VT_KEY_LEFT);
    assert_eq!(Key::Right.code(), sys::SHITTY_VT_KEY_RIGHT);
    assert_eq!(Key::PageUp.code(), sys::SHITTY_VT_KEY_PAGE_UP);
    assert_eq!(Key::PageDown.code(), sys::SHITTY_VT_KEY_PAGE_DOWN);
    assert_eq!(Key::Clear.code(), sys::SHITTY_VT_KEY_CLEAR);
    assert_eq!(Key::F1.code(), sys::SHITTY_VT_KEY_F1);
    assert_eq!(Key::F2.code(), sys::SHITTY_VT_KEY_F2);
    assert_eq!(Key::F3.code(), sys::SHITTY_VT_KEY_F3);
    assert_eq!(Key::F4.code(), sys::SHITTY_VT_KEY_F4);
    assert_eq!(Key::F5.code(), sys::SHITTY_VT_KEY_F5);
    assert_eq!(Key::F6.code(), sys::SHITTY_VT_KEY_F6);
    assert_eq!(Key::F7.code(), sys::SHITTY_VT_KEY_F7);
    assert_eq!(Key::F8.code(), sys::SHITTY_VT_KEY_F8);
    assert_eq!(Key::F9.code(), sys::SHITTY_VT_KEY_F9);
    assert_eq!(Key::F10.code(), sys::SHITTY_VT_KEY_F10);
    assert_eq!(Key::F11.code(), sys::SHITTY_VT_KEY_F11);
    assert_eq!(Key::F12.code(), sys::SHITTY_VT_KEY_F12);
    assert_eq!(Key::F13.code(), sys::SHITTY_VT_KEY_F13);
    assert_eq!(Key::F14.code(), sys::SHITTY_VT_KEY_F14);
    assert_eq!(Key::F15.code(), sys::SHITTY_VT_KEY_F15);
    assert_eq!(Key::F16.code(), sys::SHITTY_VT_KEY_F16);
    assert_eq!(Key::F17.code(), sys::SHITTY_VT_KEY_F17);
    assert_eq!(Key::F18.code(), sys::SHITTY_VT_KEY_F18);
    assert_eq!(Key::F19.code(), sys::SHITTY_VT_KEY_F19);
    assert_eq!(Key::F20.code(), sys::SHITTY_VT_KEY_F20);
    assert_eq!(Key::F21.code(), sys::SHITTY_VT_KEY_F21);
    assert_eq!(Key::F22.code(), sys::SHITTY_VT_KEY_F22);
    assert_eq!(Key::F23.code(), sys::SHITTY_VT_KEY_F23);
    assert_eq!(Key::F24.code(), sys::SHITTY_VT_KEY_F24);
    assert_eq!(Key::F25.code(), sys::SHITTY_VT_KEY_F25);
    assert_eq!(Key::F26.code(), sys::SHITTY_VT_KEY_F26);
    assert_eq!(Key::F27.code(), sys::SHITTY_VT_KEY_F27);
    assert_eq!(Key::F28.code(), sys::SHITTY_VT_KEY_F28);
    assert_eq!(Key::F29.code(), sys::SHITTY_VT_KEY_F29);
    assert_eq!(Key::F30.code(), sys::SHITTY_VT_KEY_F30);
    assert_eq!(Key::F31.code(), sys::SHITTY_VT_KEY_F31);
    assert_eq!(Key::F32.code(), sys::SHITTY_VT_KEY_F32);
    assert_eq!(Key::F33.code(), sys::SHITTY_VT_KEY_F33);
    assert_eq!(Key::F34.code(), sys::SHITTY_VT_KEY_F34);
    assert_eq!(Key::F35.code(), sys::SHITTY_VT_KEY_F35);
    assert_eq!(Key::Keypad0.code(), sys::SHITTY_VT_KEY_KEYPAD_0);
    assert_eq!(Key::Keypad1.code(), sys::SHITTY_VT_KEY_KEYPAD_1);
    assert_eq!(Key::Keypad2.code(), sys::SHITTY_VT_KEY_KEYPAD_2);
    assert_eq!(Key::Keypad3.code(), sys::SHITTY_VT_KEY_KEYPAD_3);
    assert_eq!(Key::Keypad4.code(), sys::SHITTY_VT_KEY_KEYPAD_4);
    assert_eq!(Key::Keypad5.code(), sys::SHITTY_VT_KEY_KEYPAD_5);
    assert_eq!(Key::Keypad6.code(), sys::SHITTY_VT_KEY_KEYPAD_6);
    assert_eq!(Key::Keypad7.code(), sys::SHITTY_VT_KEY_KEYPAD_7);
    assert_eq!(Key::Keypad8.code(), sys::SHITTY_VT_KEY_KEYPAD_8);
    assert_eq!(Key::Keypad9.code(), sys::SHITTY_VT_KEY_KEYPAD_9);
    assert_eq!(
        Key::KeypadDecimal.code(),
        sys::SHITTY_VT_KEY_KEYPAD_DECIMAL
    );
    assert_eq!(
        Key::KeypadDivide.code(),
        sys::SHITTY_VT_KEY_KEYPAD_DIVIDE
    );
    assert_eq!(
        Key::KeypadMultiply.code(),
        sys::SHITTY_VT_KEY_KEYPAD_MULTIPLY
    );
    assert_eq!(
        Key::KeypadSubtract.code(),
        sys::SHITTY_VT_KEY_KEYPAD_SUBTRACT
    );
    assert_eq!(
        Key::KeypadAdd.code(),
        sys::SHITTY_VT_KEY_KEYPAD_ADD
    );
    assert_eq!(
        Key::KeypadEnter.code(),
        sys::SHITTY_VT_KEY_KEYPAD_ENTER
    );
    assert_eq!(
        Key::KeypadEqual.code(),
        sys::SHITTY_VT_KEY_KEYPAD_EQUAL
    );
    assert_eq!(
        Key::KeypadSeparator.code(),
        sys::SHITTY_VT_KEY_KEYPAD_SEPARATOR
    );
    assert_eq!(Key::KeypadF1.code(), sys::SHITTY_VT_KEY_KEYPAD_F1);
    assert_eq!(Key::KeypadF2.code(), sys::SHITTY_VT_KEY_KEYPAD_F2);
    assert_eq!(Key::KeypadF3.code(), sys::SHITTY_VT_KEY_KEYPAD_F3);
    assert_eq!(Key::KeypadF4.code(), sys::SHITTY_VT_KEY_KEYPAD_F4);
    assert_eq!(
        Key::KeypadInsert.code(),
        sys::SHITTY_VT_KEY_KEYPAD_INSERT
    );
    assert_eq!(
        Key::KeypadDelete.code(),
        sys::SHITTY_VT_KEY_KEYPAD_DELETE
    );
    assert_eq!(Key::KeypadUp.code(), sys::SHITTY_VT_KEY_KEYPAD_UP);
    assert_eq!(
        Key::KeypadDown.code(),
        sys::SHITTY_VT_KEY_KEYPAD_DOWN
    );
    assert_eq!(
        Key::KeypadLeft.code(),
        sys::SHITTY_VT_KEY_KEYPAD_LEFT
    );
    assert_eq!(
        Key::KeypadRight.code(),
        sys::SHITTY_VT_KEY_KEYPAD_RIGHT
    );
    assert_eq!(
        Key::KeypadHome.code(),
        sys::SHITTY_VT_KEY_KEYPAD_HOME
    );
    assert_eq!(
        Key::KeypadEnd.code(),
        sys::SHITTY_VT_KEY_KEYPAD_END
    );
    assert_eq!(
        Key::KeypadPageUp.code(),
        sys::SHITTY_VT_KEY_KEYPAD_PAGE_UP
    );
    assert_eq!(
        Key::KeypadPageDown.code(),
        sys::SHITTY_VT_KEY_KEYPAD_PAGE_DOWN
    );
    assert_eq!(
        Key::KeypadBegin.code(),
        sys::SHITTY_VT_KEY_KEYPAD_BEGIN
    );
    assert_eq!(
        Key::KeypadSpace.code(),
        sys::SHITTY_VT_KEY_KEYPAD_SPACE
    );
    assert_eq!(
        Key::KeypadTab.code(),
        sys::SHITTY_VT_KEY_KEYPAD_TAB
    );
    assert_eq!(Key::CapsLock.code(), sys::SHITTY_VT_KEY_CAPS_LOCK);
    assert_eq!(
        Key::ScrollLock.code(),
        sys::SHITTY_VT_KEY_SCROLL_LOCK
    );
    assert_eq!(Key::NumLock.code(), sys::SHITTY_VT_KEY_NUM_LOCK);
    assert_eq!(
        Key::PrintScreen.code(),
        sys::SHITTY_VT_KEY_PRINT_SCREEN
    );
    assert_eq!(Key::Pause.code(), sys::SHITTY_VT_KEY_PAUSE);
    assert_eq!(Key::Menu.code(), sys::SHITTY_VT_KEY_MENU);
    assert_eq!(
        Key::LeftShift.code(),
        sys::SHITTY_VT_KEY_LEFT_SHIFT
    );
    assert_eq!(
        Key::LeftControl.code(),
        sys::SHITTY_VT_KEY_LEFT_CONTROL
    );
    assert_eq!(Key::LeftAlt.code(), sys::SHITTY_VT_KEY_LEFT_ALT);
    assert_eq!(
        Key::LeftSuper.code(),
        sys::SHITTY_VT_KEY_LEFT_SUPER
    );
    assert_eq!(
        Key::RightShift.code(),
        sys::SHITTY_VT_KEY_RIGHT_SHIFT
    );
    assert_eq!(
        Key::RightControl.code(),
        sys::SHITTY_VT_KEY_RIGHT_CONTROL
    );
    assert_eq!(Key::RightAlt.code(), sys::SHITTY_VT_KEY_RIGHT_ALT);
    assert_eq!(
        Key::RightSuper.code(),
        sys::SHITTY_VT_KEY_RIGHT_SUPER
    );
    assert_eq!(
        Key::MediaPlay.code(),
        sys::SHITTY_VT_KEY_MEDIA_PLAY
    );
    assert_eq!(
        Key::MediaPause.code(),
        sys::SHITTY_VT_KEY_MEDIA_PAUSE
    );
    assert_eq!(
        Key::MediaPlayPause.code(),
        sys::SHITTY_VT_KEY_MEDIA_PLAY_PAUSE
    );
    assert_eq!(
        Key::MediaReverse.code(),
        sys::SHITTY_VT_KEY_MEDIA_REVERSE
    );
    assert_eq!(
        Key::MediaStop.code(),
        sys::SHITTY_VT_KEY_MEDIA_STOP
    );
    assert_eq!(
        Key::MediaFastForward.code(),
        sys::SHITTY_VT_KEY_MEDIA_FAST_FORWARD
    );
    assert_eq!(
        Key::MediaRewind.code(),
        sys::SHITTY_VT_KEY_MEDIA_REWIND
    );
    assert_eq!(
        Key::MediaTrackNext.code(),
        sys::SHITTY_VT_KEY_MEDIA_TRACK_NEXT
    );
    assert_eq!(
        Key::MediaTrackPrevious.code(),
        sys::SHITTY_VT_KEY_MEDIA_TRACK_PREVIOUS
    );
    assert_eq!(
        Key::MediaRecord.code(),
        sys::SHITTY_VT_KEY_MEDIA_RECORD
    );
    assert_eq!(
        Key::VolumeDown.code(),
        sys::SHITTY_VT_KEY_VOLUME_DOWN
    );
    assert_eq!(Key::VolumeUp.code(), sys::SHITTY_VT_KEY_VOLUME_UP);
    assert_eq!(
        Key::VolumeMute.code(),
        sys::SHITTY_VT_KEY_VOLUME_MUTE
    );

    assert_eq!(KeyAction::Press as u8, sys::SHITTY_VT_KEY_PRESS);
    assert_eq!(KeyAction::Repeat as u8, sys::SHITTY_VT_KEY_REPEAT);
    assert_eq!(
        KeyAction::Release as u8,
        sys::SHITTY_VT_KEY_RELEASE
    );

    assert_eq!(
        MouseButton::Left as i32,
        sys::SHITTY_VT_MOUSE_LEFT
    );
    assert_eq!(
        MouseButton::Aux5 as i32,
        sys::SHITTY_VT_MOUSE_AUX5
    );

    assert_eq!(Modifiers::shift().0, sys::SHITTY_VT_MOD_SHIFT);
    assert_eq!(
        Modifiers::alt_graph().0,
        sys::SHITTY_VT_MOD_ALT_GRAPH
    );
}

#[test]
fn modifiers_combine() {
    let mut held = Modifiers::control() | Modifiers::shift();
    assert!(held.contains(Modifiers::control()));
    assert!(held.contains(Modifiers::control() | Modifiers::shift()));
    assert!(!held.contains(Modifiers::alt()));
    assert!(!held.is_empty());
    assert!(Modifiers::none().is_empty());

    held |= Modifiers::alt();
    assert!(held.contains(Modifiers::alt()));
}
