use app_boilerplate_rust::c_text::{cstr, is_nul_free, CText};
use app_boilerplate_rust::counts::{count_u16, count_u8};
use app_boilerplate_rust::seph::{classify, Incoming, SephCodes, RX_BUFFER_SIZE};

#[test]
fn text_is_followed_by_one_zero() {
    let c = CText::new("a\u{e9}\u{2192}\u{1f600}").unwrap();
    assert_eq!(c.as_bytes(), "a\u{e9}\u{2192}\u{1f600}".as_bytes());
    assert_eq!(c.as_bytes_with_nul(), "a\u{e9}\u{2192}\u{1f600}\0".as_bytes());
    assert_eq!(c.len(), 10);
    let empty = cstr(String::new());
    assert_eq!(empty.as_bytes_with_nul(), b"\0");
    assert_eq!(empty.len(), 0);
}

#[test]
fn nul_is_refused() {
    assert!(CText::new("\0").is_none());
    assert!(CText::new("ab\0").is_none());
    assert!(CText::new("a\0b").is_none());
    assert!(!is_nul_free("a\0b"));
    assert!(is_nul_free(""));
    assert!(is_nul_free("\u{80}\u{100}\u{2200}"));
}

#[test]
fn text_reads_back() {
    for text in ["", "plain", "gr\u{fc}n \u{20ac} \u{10ffff}"] {
        let c = CText::new(text).unwrap();
        assert_eq!(std::str::from_utf8(c.as_bytes()), Ok(text));
        assert!(!c.as_bytes().contains(&0));
    }
}

#[test]
fn counts_wrap() {
    assert_eq!((count_u8(0), count_u8(255), count_u8(256), count_u8(1000)), (0, 255, 0, 232));
    assert_eq!((count_u16(65535), count_u16(65536), count_u16(70000)), (65535, 0, 4464));
}

#[test]
fn packets_are_classified() {
    let codes =
        SephCodes { packet_seph: 1, packet_se_evt: 2, tag_finger: 0x0c, tag_ticker: 0x0e };
    let mut buf = [0u8; RX_BUFFER_SIZE];
    buf[0] = 1;
    buf[1] = 0x0c;
    assert_eq!(classify(&codes, 5, &buf), Incoming::Finger);
    assert_eq!(classify(&codes, 1, &buf), Incoming::Finger);
    assert_eq!(classify(&codes, 0, &buf), Incoming::Ignored);
    assert_eq!(classify(&codes, i32::MIN, &buf), Incoming::Failed);
    buf[1] = 0x0e;
    assert_eq!(classify(&codes, 5, &buf), Incoming::Ticker);
    buf[1] = 0x05;
    assert_eq!(classify(&codes, 5, &buf), Incoming::Ignored);
    buf[1] = 0x0c;
    buf[0] = 2;
    assert_eq!(classify(&codes, 5, &buf), Incoming::Finger);
    buf[0] = 3;
    assert_eq!(classify(&codes, 5, &buf), Incoming::Ignored);
}
