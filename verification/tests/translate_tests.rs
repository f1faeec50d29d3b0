use nyalog::special::key_to_special;
use nyalog::special::KEY_A;
use nyalog::special::KEY_BACKSPACE;
use nyalog::special::KEY_ENTER;
use nyalog::special::KEY_ESC;
use nyalog::special::KEY_F1;
use nyalog::special::KEY_F12;
use nyalog::special::KEY_LEFTSHIFT;
use nyalog::special::KEY_PAUSE;
use nyalog::special::KEY_PRINT;
use nyalog::translate::classify_event;
use nyalog::translate::evdev_to_xkb_keycode;
use nyalog::translate::filter_translation;
use nyalog::translate::KeyAction;
use nyalog::translate::KeyStep;
use nyalog::translate::RawKeyEvent;
use nyalog::translate::TranslatedOutput;

fn press(code: u16) -> RawKeyEvent {
    RawKeyEvent { code, action: KeyAction::Pressed }
}

fn release(code: u16) -> RawKeyEvent {
    RawKeyEvent { code, action: KeyAction::Released }
}

#[test]
fn press_of_a_letter_asks_for_text_lookup() {
    assert_eq!(classify_event(press(KEY_A)), KeyStep::LookupText);
    let looked_up = "a".to_string();
    assert_eq!(filter_translation(looked_up), TranslatedOutput::Text("a".to_string()));
    let shifted = "A".to_string();
    assert_eq!(filter_translation(shifted), TranslatedOutput::Text("A".to_string()));
}

#[test]
fn any_release_is_quietly_ignored() {
    assert_eq!(classify_event(release(KEY_A)), KeyStep::Ignore);
    // a second, unmatched release of the same key is ignored just the same
    assert_eq!(classify_event(release(KEY_A)), KeyStep::Ignore);
    assert_eq!(classify_event(release(KEY_BACKSPACE)), KeyStep::Ignore);
    assert_eq!(classify_event(release(KEY_LEFTSHIFT)), KeyStep::Ignore);
}

#[test]
fn backspace_is_symbolic_and_never_looked_up() {
    assert_eq!(
        classify_event(press(KEY_BACKSPACE)),
        KeyStep::EmitSymbol("[BS]".to_string())
    );
    assert_eq!(classify_event(press(KEY_ESC)), KeyStep::EmitSymbol("[ESC]".to_string()));
    assert_eq!(classify_event(press(KEY_F1)), KeyStep::EmitSymbol("[F1]".to_string()));
}

#[test]
fn modifier_press_reaches_the_text_path() {
    // a bare modifier is not in the symbolic table; its empty translation
    // is then dropped by the filter
    assert_eq!(classify_event(press(KEY_LEFTSHIFT)), KeyStep::LookupText);
    assert_eq!(filter_translation(String::new()), TranslatedOutput::NoOutput);
}

#[test]
fn bell_is_filtered_newline_and_tab_accepted() {
    assert_eq!(filter_translation("\u{7}".to_string()), TranslatedOutput::NoOutput);
    assert_eq!(filter_translation("\n".to_string()), TranslatedOutput::Text("\n".to_string()));
    assert_eq!(filter_translation("\t".to_string()), TranslatedOutput::Text("\t".to_string()));
    assert_eq!(filter_translation(String::new()), TranslatedOutput::NoOutput);
    assert_eq!(filter_translation("a\u{1b}".to_string()), TranslatedOutput::NoOutput);
    assert_eq!(filter_translation("hi".to_string()), TranslatedOutput::Text("hi".to_string()));
}

#[test]
fn carriage_return_is_filtered() {
    // the layout model translates the enter key to a carriage return, a
    // control character the filter drops
    assert_eq!(classify_event(press(KEY_ENTER)), KeyStep::LookupText);
    assert_eq!(filter_translation("\r".to_string()), TranslatedOutput::NoOutput);
}

#[test]
fn special_table_entries() {
    assert_eq!(key_to_special(KEY_BACKSPACE), Some("[BS]"));
    assert_eq!(key_to_special(KEY_F1), Some("[F1]"));
    assert_eq!(key_to_special(KEY_F12), Some("[F12]"));
    assert_eq!(key_to_special(KEY_PRINT), Some("[PRTSC]"));
    assert_eq!(key_to_special(KEY_PAUSE), Some("[PAUSE]"));
    assert_eq!(key_to_special(KEY_A), None);
    assert_eq!(key_to_special(KEY_ENTER), None);
    assert_eq!(key_to_special(KEY_LEFTSHIFT), None);
}

#[test]
fn keycode_offset() {
    assert_eq!(evdev_to_xkb_keycode(KEY_A), KEY_A as u32 + 8);
    assert_eq!(evdev_to_xkb_keycode(0), 8);
    assert_eq!(evdev_to_xkb_keycode(u16::MAX), u16::MAX as u32 + 8);
}
