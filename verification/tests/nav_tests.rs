use app_boilerplate_rust::c_text::CText;
use app_boilerplate_rust::demo::demo_nav;
use app_boilerplate_rust::nav::{
    build_tag_value_pairs, prepare_page, BarItem, ContentType, NavPage, NavScreen, NbglNav,
    PreparedPage, Switch, SwitchState, FIRST_PAGE,
};
use app_boilerplate_rust::seph::{SephCodes, Turn, RX_BUFFER_SIZE};

const CODES: SephCodes =
    SephCodes { packet_seph: 1, packet_se_evt: 2, tag_finger: 0x0c, tag_ticker: 0x0e };

fn s(text: &CText) -> String {
    String::from_utf8(text.as_bytes().to_vec()).unwrap()
}

fn info(text: &str) -> NavPage {
    NavPage::CenteredInfo { text1: text.into(), text2: "".into(), text3: "".into() }
}

fn many(n: usize) -> NavScreen {
    let mut nav = NbglNav::new("many");
    for i in 0..n {
        nav = nav.page(info(&format!("page {}", i)));
    }
    nav.show().unwrap()
}

#[test]
fn no_pages_no_screen() {
    assert!(NbglNav::new("empty").show().is_none());
}

#[test]
fn demo_pages_come_out_as_they_went_in() {
    let nav = demo_nav();
    assert!(nav.is_nul_free());
    let screen = nav.show().unwrap();
    assert_eq!(s(screen.title()), "Nav demo");
    assert_eq!(screen.nb_pages(), 12);
    assert_eq!(FIRST_PAGE, 0);
    let kinds: Vec<ContentType> =
        (0..12).map(|n| screen.nav_cb(n).unwrap().type_).collect();
    assert_eq!(
        kinds,
        vec![
            ContentType::CenteredInfo,
            ContentType::ExtendedCenter,
            ContentType::InfoLongPress,
            ContentType::InfoButton,
            ContentType::TagValueList,
            ContentType::TagValueDetails,
            ContentType::TagValueConfirm,
            ContentType::SwitchesList,
            ContentType::InfosList,
            ContentType::ChoicesList,
            ContentType::BarsList,
            ContentType::CenteredInfo,
        ]
    );
    assert!(screen.nav_cb(12).is_none());
    assert!(screen.nav_cb(255).is_none());
}

#[test]
fn centered_and_extended_pages() {
    let screen = demo_nav().show().unwrap();
    match screen.nav_cb(0).unwrap().page {
        PreparedPage::CenteredInfo(p) => {
            assert_eq!(s(&p.text1), "CenteredInfo");
            assert_eq!(s(&p.text2), "Three centered text lines");
            assert_eq!(s(&p.text3), "Swipe \u{2192}");
        }
        other => panic!("{:?}", other),
    }
    match screen.nav_cb(1).unwrap().page {
        PreparedPage::ExtendedCenter(p) => {
            assert_eq!(s(&p.title), "ExtendedCenter");
            assert_eq!(s(&p.small_title), "Subtitle");
            assert_eq!(s(&p.description), "Title plus description plus tip box.");
            assert_eq!(s(&p.sub_text), "Sub text");
            assert_eq!(s(&p.tip_text), "Tip box at bottom");
        }
        other => panic!("{:?}", other),
    }
}

#[test]
fn info_pages() {
    let screen = demo_nav().show().unwrap();
    match screen.nav_cb(2).unwrap().page {
        PreparedPage::InfoLongPress(p) => {
            assert_eq!(s(&p.text), "InfoLongPress: hold the button to confirm.");
            assert_eq!(s(&p.long_press_text), "Hold to confirm");
            assert_eq!(p.long_press_token, 0x10);
        }
        other => panic!("{:?}", other),
    }
    match screen.nav_cb(3).unwrap().page {
        PreparedPage::InfoButton(p) => {
            assert_eq!(s(&p.text), "InfoButton: a regular tappable button.");
            assert_eq!(s(&p.button_text), "Press me");
            assert_eq!(p.button_token, 0x11);
        }
        other => panic!("{:?}", other),
    }
}

#[test]
fn pair_pages() {
    let screen = demo_nav().show().unwrap();
    match screen.nav_cb(4).unwrap().page {
        PreparedPage::TagValueList(p) => {
            assert_eq!(p.nb_pairs, 3);
            assert_eq!((s(&p.pairs[1].item), s(&p.pairs[1].value)), ("Account".into(), "Acct #0".into()));
        }
        other => panic!("{:?}", other),
    }
    match screen.nav_cb(5).unwrap().page {
        PreparedPage::TagValueDetails(p) => {
            assert_eq!(p.tag_value_list.nb_pairs, 2);
            assert_eq!(s(&p.tag_value_list.pairs[0].value), "0xabcd\u{2026}");
            assert_eq!(s(&p.details_button_text), "See details");
            assert_eq!(p.details_button_token, 0x12);
        }
        other => panic!("{:?}", other),
    }
    match screen.nav_cb(6).unwrap().page {
        PreparedPage::TagValueConfirm(p) => {
            assert_eq!(p.tag_value_list.nb_pairs, 2);
            assert_eq!(s(&p.tag_value_list.pairs[1].value), "0.0001 BOIL");
            assert_eq!(s(&p.details_button_text), "Details");
            assert_eq!(s(&p.confirmation_text), "Approve");
            assert_eq!(s(&p.cancel_text), "Reject");
            assert_eq!(
                (p.details_button_token, p.confirmation_token, p.cancel_token),
                (0x13, 0x14, 0x15)
            );
        }
        other => panic!("{:?}", other),
    }
}

#[test]
fn list_pages() {
    let screen = demo_nav().show().unwrap();
    match screen.nav_cb(7).unwrap().page {
        PreparedPage::SwitchesList(p) => {
            assert_eq!(p.nb_switches, 2);
            assert_eq!(s(&p.switches[0].text), "Notifications");
            assert_eq!(s(&p.switches[0].sub_text), "Alerts when new tx");
            assert_eq!((p.switches[0].init_state, p.switches[0].token), (SwitchState::On, 0x20));
            assert_eq!((p.switches[1].init_state, p.switches[1].token), (SwitchState::Off, 0x21));
        }
        other => panic!("{:?}", other),
    }
    match screen.nav_cb(8).unwrap().page {
        PreparedPage::InfosList(p) => {
            assert_eq!(p.nb_infos, 3);
            assert_eq!(s(&p.info_types[2]), "License");
            assert_eq!(s(&p.info_contents[2]), "Apache-2.0");
        }
        other => panic!("{:?}", other),
    }
    match screen.nav_cb(9).unwrap().page {
        PreparedPage::ChoicesList(p) => {
            assert_eq!((p.nb_choices, p.init_choice, p.token, p.localized), (3, 0, 0x30, false));
            assert_eq!(s(&p.names[2]), "Devnet");
        }
        other => panic!("{:?}", other),
    }
    match screen.nav_cb(10).unwrap().page {
        PreparedPage::BarsList(p) => {
            assert_eq!(p.nb_bars, 3);
            assert_eq!(s(&p.bar_texts[1]), "Settings");
            assert_eq!(p.tokens, vec![0x40, 0x41, 0x42]);
        }
        other => panic!("{:?}", other),
    }
}

#[test]
fn lists_keep_all_rows_beyond_the_count() {
    let pairs: Vec<(String, String)> =
        (0..258).map(|i| (format!("k{}", i), format!("v{}", i))).collect();
    let list = build_tag_value_pairs(pairs);
    assert_eq!((list.pairs.len(), list.nb_pairs), (258, 2));
    assert_eq!(s(&list.pairs[257].value), "v257");
    match prepare_page(NavPage::BarsList { bars: Vec::new() }) {
        PreparedPage::BarsList(p) => assert_eq!((p.nb_bars, p.bar_texts.len()), (0, 0)),
        other => panic!("{:?}", other),
    }
}

#[test]
fn every_told_page_is_reachable() {
    let screen = many(255);
    assert_eq!(screen.nb_pages(), 255);
    for n in 0..255u8 {
        match screen.nav_cb(n).unwrap().page {
            PreparedPage::CenteredInfo(p) => assert_eq!(s(&p.text1), format!("page {}", n)),
            other => panic!("{:?}", other),
        }
    }
    assert!(screen.nav_cb(255).is_none());
}

#[test]
fn page_count_is_kept_modulo_one_byte() {
    let screen = many(257);
    assert_eq!(screen.nb_pages(), 1);
    assert!(screen.nav_cb(255).is_some());
}

#[test]
fn backing_out_ends_the_screen() {
    let mut screen = many(1);
    assert_eq!(screen.poll(), Turn::Receive);
    screen.controls_cb(0x20, 1);
    assert_eq!(screen.poll(), Turn::Receive);
    screen.quit_cb();
    assert!(screen.nav_cb(0).is_some());
    assert_eq!(screen.poll(), Turn::Finish(()));
    assert!(screen.nav_cb(0).is_none());
    screen.controls_cb(0x20, 1);
    screen.quit_cb();
    screen.release();
    assert!(screen.nav_cb(0).is_none());
}

#[test]
fn released_screen_has_no_pages() {
    let mut screen = many(2);
    assert!(screen.nav_cb(1).is_some());
    screen.release();
    assert!(screen.nav_cb(0).is_none());
    screen.release();
    assert!(screen.nav_cb(1).is_none());
    assert_eq!(screen.nb_pages(), 2);
}

#[test]
fn failed_reception_ends_the_pages() {
    let mut screen = many(1);
    let mut buf = [0u8; RX_BUFFER_SIZE];
    buf[0] = 1;
    buf[1] = 0x0e;
    assert_eq!(screen.received(&CODES, 3, &buf), Turn::Ticker);
    assert_eq!(screen.received(&CODES, 0, &buf), Turn::Receive);
    assert!(screen.nav_cb(0).is_some());
    assert_eq!(screen.received(&CODES, -1, &buf), Turn::Finish(()));
    assert!(screen.nav_cb(0).is_none());
}

#[test]
fn nul_characters_are_found_on_every_kind_of_page() {
    let bad = "a\0b";
    let pages: Vec<NavPage> = vec![
        NavPage::CenteredInfo { text1: "".into(), text2: "".into(), text3: bad.into() },
        NavPage::ExtendedCenter {
            title: "".into(),
            small_title: "".into(),
            description: bad.into(),
            sub_text: "".into(),
            tip_text: "".into(),
        },
        NavPage::InfoLongPress { text: "".into(), long_press_text: bad.into(), long_press_token: 1 },
        NavPage::InfoButton { text: bad.into(), button_text: "".into(), button_token: 1 },
        NavPage::TagValueList { pairs: vec![("a".into(), "b".into()), ("c".into(), bad.into())] },
        NavPage::TagValueDetails {
            pairs: vec![(bad.into(), "".into())],
            details_button_text: "".into(),
            details_button_token: 1,
        },
        NavPage::TagValueConfirm {
            pairs: Vec::new(),
            details_button_text: "".into(),
            details_button_token: 1,
            confirmation_text: "".into(),
            cancel_text: bad.into(),
            confirmation_token: 2,
            cancel_token: 3,
        },
        NavPage::SwitchesList {
            switches: vec![Switch {
                text: "".into(),
                sub_text: bad.into(),
                init_on: true,
                token: 0,
            }],
        },
        NavPage::InfosList { infos: vec![("x".into(), bad.into())] },
        NavPage::ChoicesList { choices: vec!["ok".into(), bad.into()], init_choice: 0, token: 0 },
        NavPage::BarsList { bars: vec![BarItem { text: bad.into(), token: 0 }] },
    ];
    for page in pages {
        assert!(!page.is_nul_free());
    }
    assert!(info("fine").is_nul_free());
    assert!(!NbglNav::new("t").page(info("ok")).page(info(bad)).is_nul_free());
}
