use app_boilerplate_rust::canvas::{
    base_obj, button_colors, place, Alignment, Bpp, ButtonStyle, Canvas, CanvasObj, CanvasScreen,
    Color, Font, Item, ObjType, Radius, TextStyle,
};
use app_boilerplate_rust::seph::{SephCodes, Turn, RX_BUFFER_SIZE};

const TOUCHED: u32 = 3;

const CODES: SephCodes =
    SephCodes { packet_seph: 1, packet_se_evt: 2, tag_finger: 0x0c, tag_ticker: 0x0e };

fn packet(packet_type: u8, tag: u8) -> [u8; RX_BUFFER_SIZE] {
    let mut buf = [0u8; RX_BUFFER_SIZE];
    buf[0] = packet_type;
    buf[1] = tag;
    buf
}

fn sample() -> CanvasScreen {
    Canvas::new()
        .text(10, -20, 300, 40, "Pick \u{2192} one")
        .button(0, 100, 200, 60, "Yes", 7, ButtonStyle::Dark)
        .button(0, 200, 201, 61, String::from("No"), 8, ButtonStyle::Light)
        .show(TOUCHED)
        .unwrap()
}

#[test]
fn empty_canvas_has_no_screen() {
    assert!(Canvas::new().show(TOUCHED).is_none());
    assert!(Canvas::default().show(TOUCHED).is_none());
}

#[test]
fn base_object_is_placed_by_its_margins() {
    let o = base_obj(-5, 17, 100, 50, ObjType::Button, 8, 42);
    assert_eq!((o.area.x0, o.area.y0), (0, 0));
    assert_eq!((o.area.width, o.area.height), (100, 50));
    assert_eq!(o.area.background_color, Color::White);
    assert_eq!(o.area.bpp, Bpp::Four);
    assert_eq!(o.type_, ObjType::Button);
    assert_eq!(o.alignment, Alignment::TopLeft);
    assert_eq!((o.alignment_margin_x, o.alignment_margin_y), (-5, 17));
    assert_eq!((o.touch_mask, o.touch_id, o.obj_id), (8, 0, 42));
}

#[test]
fn styles_have_their_colors() {
    assert_eq!(
        button_colors(ButtonStyle::Light),
        (Color::White, Color::LightGray, Color::Black)
    );
    assert_eq!(button_colors(ButtonStyle::Dark), (Color::Black, Color::Black, Color::White));
    assert_eq!(button_colors(ButtonStyle::NoBorder), (Color::White, Color::White, Color::Black));
}

#[test]
fn label_becomes_a_text_area() {
    let screen = sample();
    assert_eq!(screen.nb_items(), 3);
    assert_eq!(screen.objects().len(), 3);
    match &screen.objects()[0] {
        CanvasObj::TextArea(t) => {
            assert_eq!((t.obj.alignment_margin_x, t.obj.alignment_margin_y), (10, -20));
            assert_eq!((t.obj.area.width, t.obj.area.height), (300, 40));
            assert_eq!((t.obj.touch_mask, t.obj.obj_id, t.token), (0, 0, 0));
            assert_eq!(t.text_color, Color::Black);
            assert_eq!(t.text_alignment, Alignment::Center);
            assert_eq!(t.style, TextStyle::NoStyle);
            assert_eq!(t.font, Font::InterRegular24);
            assert!(!t.auto_hide_long_line && !t.obfuscated);
            assert_eq!(t.nb_max_lines, 1);
            assert_eq!(t.text.as_bytes_with_nul(), "Pick \u{2192} one\0".as_bytes());
            assert_eq!(t.len, 12);
        }
        other => panic!("{:?}", other),
    }
}

#[test]
fn button_becomes_a_touchable_object() {
    let screen = sample();
    match &screen.objects()[1] {
        CanvasObj::Button(b) => {
            assert_eq!((b.obj.alignment_margin_x, b.obj.alignment_margin_y), (0, 100));
            assert_eq!((b.obj.touch_mask, b.obj.obj_id, b.token), (1 << TOUCHED, 7, 7));
            assert_eq!(
                (b.inner_color, b.border_color, b.foreground_color),
                (Color::Black, Color::Black, Color::White)
            );
            assert_eq!(b.radius, Radius::Px32);
            assert_eq!(b.font, Font::InterSemibold24);
            assert!(!b.localized);
            assert_eq!(b.text.as_bytes(), b"Yes");
        }
        other => panic!("{:?}", other),
    }
}

#[test]
fn text_length_is_kept_modulo_two_bytes() {
    let item = Item::Text { x: 0, y: 0, w: 1, h: 1, text: "a".repeat(65540) };
    match place(&item, TOUCHED) {
        CanvasObj::TextArea(t) => {
            assert_eq!(t.text.len(), 65540);
            assert_eq!(t.len, 4);
        }
        other => panic!("{:?}", other),
    }
}

#[test]
fn child_count_is_kept_modulo_one_byte() {
    let mut canvas = Canvas::new();
    for _ in 0..255 {
        canvas = canvas.text(0, 0, 1, 1, "x");
    }
    let screen = canvas.show(TOUCHED).unwrap();
    assert_eq!((screen.nb_items(), screen.objects().len()), (255, 255));

    let mut canvas = Canvas::new();
    for _ in 0..257 {
        canvas = canvas.text(0, 0, 1, 1, "x");
    }
    let screen = canvas.show(TOUCHED).unwrap();
    assert_eq!((screen.nb_items(), screen.objects().len()), (1, 257));
}

#[test]
fn nul_characters_are_found() {
    assert!(Canvas::new().text(0, 0, 1, 1, "fine").is_nul_free());
    assert!(!Canvas::new().text(0, 0, 1, 1, "fine").text(0, 0, 1, 1, "b\0d").is_nul_free());
    assert!(!Canvas::new().button(0, 0, 1, 1, "\0", 1, ButtonStyle::Light).is_nul_free());
}

#[test]
fn tapped_button_ends_the_screen_with_its_token() {
    let mut screen = sample();
    assert_eq!(screen.poll(), Turn::Receive);
    screen.touch_cb(Some(8), TOUCHED);
    assert_eq!(screen.poll(), Turn::Finish(Some(8)));
    screen.touch_cb(Some(7), TOUCHED);
    assert_eq!(screen.poll(), Turn::Finish(Some(7)));
}

#[test]
fn other_events_and_missing_objects_are_no_taps() {
    let mut screen = sample();
    screen.touch_cb(Some(7), TOUCHED + 1);
    screen.touch_cb(Some(7), TOUCHED + 0x100);
    assert_eq!(screen.poll(), Turn::Receive);
    screen.touch_cb(None, TOUCHED);
    assert_eq!(screen.poll(), Turn::Receive);
    screen.touch_cb(Some(7), TOUCHED);
    screen.touch_cb(None, TOUCHED);
    assert_eq!(screen.poll(), Turn::Finish(Some(7)));
}

#[test]
fn failed_reception_ends_the_canvas_without_a_token() {
    let screen = sample();
    assert_eq!(screen.received(&CODES, -1, &packet(1, 0x0c)), Turn::Finish(None));
    assert_eq!(screen.received(&CODES, 0, &packet(1, 0x0c)), Turn::Receive);
    assert_eq!(screen.received(&CODES, 4, &packet(1, 0x0c)), Turn::Finger);
    assert_eq!(screen.received(&CODES, 4, &packet(2, 0x0e)), Turn::Ticker);
}
