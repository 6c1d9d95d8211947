use app_boilerplate_rust::demo::{demo_keyboard, READY_ACTION, READY_MESSAGE};
use app_boilerplate_rust::keyboard::{
    clear_text, entered_text, entry_bytes, KeyboardCase, KeyboardContent, KeyboardMode,
    NbglKeyboard, TEXT_BUFFER_SIZE,
};
use app_boilerplate_rust::seph::{SephCodes, Turn, RX_BUFFER_SIZE};

const CODES: SephCodes =
    SephCodes { packet_seph: 1, packet_se_evt: 2, tag_finger: 0x0c, tag_ticker: 0x0e };

fn buffer(bytes: &[u8]) -> [u8; TEXT_BUFFER_SIZE] {
    let mut text = [0u8; TEXT_BUFFER_SIZE];
    text[..bytes.len()].copy_from_slice(bytes);
    text
}

#[test]
fn keyboard_has_its_defaults() {
    let screen = NbglKeyboard::new().show(&mut [0u8; TEXT_BUFFER_SIZE]);
    let p = screen.params();
    assert_eq!(p.title.as_bytes_with_nul(), b"Enter text\0");
    assert_eq!(p.button_text.as_bytes_with_nul(), b"Confirm\0");
    assert_eq!(p.entry_max_len, 63);
    assert_eq!(p.mode, KeyboardMode::Letters);
    assert_eq!(p.casing, KeyboardCase::Lower);
    assert_eq!(p.content, KeyboardContent::WithButton);
    assert!(!p.letters_only && !p.numbered);
    assert_eq!(p.number, 0);
    assert_eq!(NbglKeyboard::default().show(&mut [0u8; TEXT_BUFFER_SIZE]).params().entry_max_len, 63);
}

#[test]
fn builder_sets_what_it_is_given() {
    let screen = NbglKeyboard::new()
        .title("Name?")
        .button_text("OK")
        .entry_max_len(12)
        .mode(KeyboardMode::Code(2))
        .casing(KeyboardCase::Code(1))
        .letters_only(true)
        .show(&mut [0u8; TEXT_BUFFER_SIZE]);
    let p = screen.params();
    assert_eq!(p.title.as_bytes(), b"Name?");
    assert_eq!(p.button_text.as_bytes(), b"OK");
    assert_eq!(p.entry_max_len, 12);
    assert_eq!(p.mode, KeyboardMode::Code(2));
    assert_eq!(p.casing, KeyboardCase::Code(1));
    assert!(p.letters_only);
}

#[test]
fn entry_length_is_cut_to_the_buffer() {
    for (asked, given) in [(0u8, 0u8), (32, 32), (63, 63), (64, 63), (255, 63)] {
        let screen = NbglKeyboard::new().entry_max_len(asked).show(&mut [0u8; TEXT_BUFFER_SIZE]);
        assert_eq!(screen.params().entry_max_len, given);
        assert!((given as usize) < TEXT_BUFFER_SIZE);
    }
}

#[test]
fn entry_ends_at_the_first_zero() {
    assert_eq!(entry_bytes(&buffer(b"abc\0def")), b"abc");
    assert_eq!(entry_bytes(&buffer(b"")), b"");
    assert_eq!(entry_bytes(&[b'x'; TEXT_BUFFER_SIZE]).len(), 64);
}

#[test]
fn malformed_entry_is_replaced() {
    assert_eq!(entered_text(&buffer(b"a\xffb")), "a\u{fffd}b");
    assert_eq!(entered_text(&buffer(b"\xe2\x86")), "\u{fffd}");
}

#[test]
fn confirmed_entry_reads_back() {
    for typed in ["", "hello", "gr\u{fc}n \u{2192} \u{1f600}"] {
        let mut text = buffer(typed.as_bytes());
        text[TEXT_BUFFER_SIZE - 1] = b'!';
        let mut screen = NbglKeyboard::new().show(&mut [0u8; TEXT_BUFFER_SIZE]);
        assert_eq!(screen.poll(&text), Turn::Receive);
        screen.confirm_cb();
        assert_eq!(screen.poll(&text), Turn::Finish(Some(String::from(typed))));
    }
}

#[test]
fn full_buffer_reads_back() {
    let text = [b'z'; TEXT_BUFFER_SIZE];
    let mut screen = NbglKeyboard::new().show(&mut [0u8; TEXT_BUFFER_SIZE]);
    screen.confirm_cb();
    assert_eq!(screen.outcome(&text), Some("z".repeat(TEXT_BUFFER_SIZE)));
}

#[test]
fn backing_out_enters_nothing() {
    let text = buffer(b"secret");
    let mut screen = NbglKeyboard::new().show(&mut [0u8; TEXT_BUFFER_SIZE]);
    screen.back_cb();
    assert_eq!(screen.poll(&text), Turn::Finish(None));
}

#[test]
fn failed_reception_enters_nothing() {
    let text = buffer(b"half");
    let screen = NbglKeyboard::new().show(&mut [0u8; TEXT_BUFFER_SIZE]);
    let buf = [0u8; RX_BUFFER_SIZE];
    assert_eq!(screen.received(&CODES, -5, &buf, &text), Turn::Finish(None));
}

#[test]
fn keyboard_hands_touches_and_ticks_on() {
    let text = buffer(b"");
    let screen = NbglKeyboard::new().show(&mut [0u8; TEXT_BUFFER_SIZE]);
    let mut buf = [0u8; RX_BUFFER_SIZE];
    buf[0] = 2;
    buf[1] = 0x0c;
    assert_eq!(screen.received(&CODES, 9, &buf, &text), Turn::Finger);
    buf[1] = 0x0e;
    assert_eq!(screen.received(&CODES, 9, &buf, &text), Turn::Ticker);
    buf[0] = 0x10;
    assert_eq!(screen.received(&CODES, 9, &buf, &text), Turn::Receive);
}

#[test]
fn cleared_buffer_is_an_empty_entry() {
    let mut text = [7u8; TEXT_BUFFER_SIZE];
    clear_text(&mut text);
    assert_eq!(text, [0u8; TEXT_BUFFER_SIZE]);
    assert_eq!(entered_text(&text), "");
}

#[test]
fn showing_the_keyboard_empties_the_buffer() {
    let mut text = buffer(b"left over");
    let mut screen = NbglKeyboard::new().show(&mut text);
    assert_eq!(text, [0u8; TEXT_BUFFER_SIZE]);
    screen.confirm_cb();
    assert_eq!(screen.poll(&text), Turn::Finish(Some(String::new())));
}

#[test]
fn opening_keyboard_is_as_designed() {
    let screen = demo_keyboard().show(&mut [0u8; TEXT_BUFFER_SIZE]);
    let p = screen.params();
    assert_eq!(p.title.as_bytes(), b"Type something");
    assert_eq!(p.button_text.as_bytes(), b"Confirm");
    assert_eq!(p.entry_max_len, 32);
    assert_eq!((READY_MESSAGE, READY_ACTION), ("ready to go?", "yes"));
}

#[test]
fn entry_is_given_where_the_user_confirmed() {
    let text = buffer(b"both");
    let entered = Turn::Finish(Some(String::from("both")));

    let mut screen = NbglKeyboard::new().show(&mut [0u8; TEXT_BUFFER_SIZE]);
    screen.back_cb();
    screen.confirm_cb();
    assert_eq!(screen.poll(&text), entered);

    let mut screen = NbglKeyboard::new().show(&mut [0u8; TEXT_BUFFER_SIZE]);
    screen.confirm_cb();
    screen.back_cb();
    assert_eq!(screen.poll(&text), entered);
}

#[test]
fn failed_reception_keeps_a_confirmed_entry() {
    let text = buffer(b"kept");
    let buf = [0u8; RX_BUFFER_SIZE];
    let mut screen = NbglKeyboard::new().show(&mut [0u8; TEXT_BUFFER_SIZE]);
    screen.confirm_cb();
    let entry = Turn::Finish(Some(String::from("kept")));
    assert_eq!(screen.received(&CODES, -1, &buf, &text), entry);
}

#[test]
fn keyboard_stays_until_the_user_answers() {
    let text = buffer(b"typing");
    let mut buf = [0u8; RX_BUFFER_SIZE];
    buf[0] = 2;
    buf[1] = 0x0c;
    let mut screen = NbglKeyboard::new().show(&mut [0u8; TEXT_BUFFER_SIZE]);
    for _ in 0..5 {
        assert_eq!(screen.poll(&text), Turn::Receive);
        assert_eq!(screen.received(&CODES, 9, &buf, &text), Turn::Finger);
    }
    screen.confirm_cb();
    assert_eq!(screen.poll(&text), Turn::Finish(Some(String::from("typing"))));
}

#[test]
fn malformed_entry_can_be_shown_again() {
    for byte in [0x80u8, 0xc3, 0xe2, 0xf0, 0xff] {
        let text = [byte; TEXT_BUFFER_SIZE];
        let mut screen = NbglKeyboard::new().show(&mut [0u8; TEXT_BUFFER_SIZE]);
        screen.confirm_cb();
        let entry = screen.outcome(&text).unwrap();
        assert_eq!(entry, "\u{fffd}".repeat(TEXT_BUFFER_SIZE));
        let shown = NbglKeyboard::new().title(&entry).show(&mut [0u8; TEXT_BUFFER_SIZE]);
        assert_eq!(shown.params().title.as_bytes(), entry.as_bytes());
    }
}
