//! The opening screens that the application shows to its user.

use vstd::prelude::*;
use vstd::utf8::encode_utf8;

use crate::keyboard::{default_settings, KeyboardSettings, NbglKeyboard};
use crate::nav::{pages_nul_free, BarItem, NavPage, NbglNav, Switch};

verus! {

/// The question that the application opens with.
pub const READY_MESSAGE: &'static str = "ready to go?";

/// The label of the button that answers it.
pub const READY_ACTION: &'static str = "yes";

/// The keyboard that is shown once the user is ready.
pub fn demo_keyboard() -> (r: NbglKeyboard)
    ensures
        r@ == (KeyboardSettings {
            title: encode_utf8("Type something"@),
            button_text: encode_utf8("Confirm"@),
            entry_max_len: 32,
            ..default_settings()
        }),
{
    proof {
        reveal_strlit("Type something");
        reveal_strlit("Confirm");
    }
    NbglKeyboard::new().title("Type something").button_text("Confirm").entry_max_len(32)
}

/// The list holds these pairs of texts.
pub open spec fn pairs_are(
    pairs: Seq<(String, String)>,
    texts: Seq<(Seq<char>, Seq<char>)>,
) -> bool {
    &&& pairs.len() == texts.len()
    &&& forall|i: int|
        0 <= i < texts.len() ==> (#[trigger] pairs[i]).0@ == texts[i].0 && pairs[i].1@ == texts[i].1
}

/// The switch has these texts, this state and this token.
pub open spec fn switch_is(
    switch: Switch,
    text: Seq<char>,
    sub_text: Seq<char>,
    init_on: bool,
    token: u8,
) -> bool {
    &&& switch.text@ == text
    &&& switch.sub_text@ == sub_text
    &&& switch.init_on == init_on
    &&& switch.token == token
}

/// The page is three centered lines.
pub open spec fn is_centered_page(page: NavPage) -> bool {
    &&& page matches NavPage::CenteredInfo { text1, text2, text3 }
    &&& text1@ == "CenteredInfo"@
    &&& text2@ == "Three centered text lines"@
    &&& text3@ == "Swipe \u{2192}"@
}

fn centered_page() -> (r: NavPage)
    ensures
        r.nul_free(),
        is_centered_page(r),
{
    proof {
        reveal_strlit("CenteredInfo");
        reveal_strlit("Three centered text lines");
        reveal_strlit("Swipe \u{2192}");
    }
    NavPage::CenteredInfo {
        text1: "CenteredInfo".into(),
        text2: "Three centered text lines".into(),
        text3: "Swipe \u{2192}".into(),
    }
}

/// The page is a center block with a tip box.
pub open spec fn is_extended_page(page: NavPage) -> bool {
    &&& page matches NavPage::ExtendedCenter { title, small_title, description, sub_text, tip_text }
    &&& title@ == "ExtendedCenter"@
    &&& small_title@ == "Subtitle"@
    &&& description@ == "Title plus description plus tip box."@
    &&& sub_text@ == "Sub text"@
    &&& tip_text@ == "Tip box at bottom"@
}

fn extended_page() -> (r: NavPage)
    ensures
        r.nul_free(),
        is_extended_page(r),
{
    proof {
        reveal_strlit("ExtendedCenter");
        reveal_strlit("Subtitle");
        reveal_strlit("Title plus description plus tip box.");
        reveal_strlit("Sub text");
        reveal_strlit("Tip box at bottom");
    }
    NavPage::ExtendedCenter {
        title: "ExtendedCenter".into(),
        small_title: "Subtitle".into(),
        description: "Title plus description plus tip box.".into(),
        sub_text: "Sub text".into(),
        tip_text: "Tip box at bottom".into(),
    }
}

/// The page is a text with a long-press footer.
pub open spec fn is_long_press_page(page: NavPage) -> bool {
    &&& page matches NavPage::InfoLongPress { text, long_press_text, long_press_token }
    &&& text@ == "InfoLongPress: hold the button to confirm."@
    &&& long_press_text@ == "Hold to confirm"@
    &&& long_press_token == 0x10
}

fn long_press_page() -> (r: NavPage)
    ensures
        r.nul_free(),
        is_long_press_page(r),
{
    proof {
        reveal_strlit("InfoLongPress: hold the button to confirm.");
        reveal_strlit("Hold to confirm");
    }
    NavPage::InfoLongPress {
        text: "InfoLongPress: hold the button to confirm.".into(),
        long_press_text: "Hold to confirm".into(),
        long_press_token: 0x10,
    }
}

/// The page is a text with a button.
pub open spec fn is_button_page(page: NavPage) -> bool {
    &&& page matches NavPage::InfoButton { text, button_text, button_token }
    &&& text@ == "InfoButton: a regular tappable button."@
    &&& button_text@ == "Press me"@
    &&& button_token == 0x11
}

fn button_page() -> (r: NavPage)
    ensures
        r.nul_free(),
        is_button_page(r),
{
    proof {
        reveal_strlit("InfoButton: a regular tappable button.");
        reveal_strlit("Press me");
    }
    NavPage::InfoButton {
        text: "InfoButton: a regular tappable button.".into(),
        button_text: "Press me".into(),
        button_token: 0x11,
    }
}

/// The page is a list of pairs.
pub open spec fn is_pairs_page(page: NavPage) -> bool {
    &&& page matches NavPage::TagValueList { pairs }
    &&& pairs_are(
            pairs@,
            seq![("Network"@, "Mainnet"@), ("Account"@, "Acct #0"@), ("Currency"@, "BOIL"@)],
        )
}

fn pairs_page() -> (r: NavPage)
    ensures
        r.nul_free(),
        is_pairs_page(r),
{
    proof {
        reveal_strlit("Network");
        reveal_strlit("Mainnet");
        reveal_strlit("Account");
        reveal_strlit("Acct #0");
        reveal_strlit("Currency");
        reveal_strlit("BOIL");
    }
    NavPage::TagValueList {
        pairs: vec![
            ("Network".into(), "Mainnet".into()),
            ("Account".into(), "Acct #0".into()),
            ("Currency".into(), "BOIL".into()),
        ],
    }
}

/// The page is a list of pairs with details.
pub open spec fn is_details_page(page: NavPage) -> bool {
    &&& page matches NavPage::TagValueDetails { pairs, details_button_text, details_button_token }
    &&& pairs_are(
            pairs@,
            seq![("From"@, "0xabcd\u{2026}"@), ("Amount"@, "1.5 BOIL"@)],
        )
    &&& details_button_text@ == "See details"@
    &&& details_button_token == 0x12
}

fn details_page() -> (r: NavPage)
    ensures
        r.nul_free(),
        is_details_page(r),
{
    proof {
        reveal_strlit("From");
        reveal_strlit("0xabcd\u{2026}");
        reveal_strlit("Amount");
        reveal_strlit("1.5 BOIL");
        reveal_strlit("See details");
    }
    NavPage::TagValueDetails {
        pairs: vec![
            ("From".into(), "0xabcd\u{2026}".into()),
            ("Amount".into(), "1.5 BOIL".into()),
        ],
        details_button_text: "See details".into(),
        details_button_token: 0x12,
    }
}

/// The page is a list of pairs to confirm.
pub open spec fn is_confirm_page(page: NavPage) -> bool {
    &&& page matches NavPage::TagValueConfirm { pairs, details_button_text, details_button_token, confirmation_text, cancel_text, confirmation_token, cancel_token }
    &&& pairs_are(
            pairs@,
            seq![("Action"@, "Send"@), ("Fee"@, "0.0001 BOIL"@)],
        )
    &&& details_button_text@ == "Details"@
    &&& details_button_token == 0x13
    &&& confirmation_text@ == "Approve"@
    &&& cancel_text@ == "Reject"@
    &&& confirmation_token == 0x14
    &&& cancel_token == 0x15
}

fn confirm_page() -> (r: NavPage)
    ensures
        r.nul_free(),
        is_confirm_page(r),
{
    proof {
        reveal_strlit("Action");
        reveal_strlit("Send");
        reveal_strlit("Fee");
        reveal_strlit("0.0001 BOIL");
        reveal_strlit("Details");
        reveal_strlit("Approve");
        reveal_strlit("Reject");
    }
    NavPage::TagValueConfirm {
        pairs: vec![
            ("Action".into(), "Send".into()),
            ("Fee".into(), "0.0001 BOIL".into()),
        ],
        details_button_text: "Details".into(),
        details_button_token: 0x13,
        confirmation_text: "Approve".into(),
        cancel_text: "Reject".into(),
        confirmation_token: 0x14,
        cancel_token: 0x15,
    }
}

/// The page is a list of switches.
pub open spec fn is_switches_page(page: NavPage) -> bool {
    &&& page matches NavPage::SwitchesList { switches }
    &&& switches@.len() == 2
    &&& switch_is(switches@[0], "Notifications"@, "Alerts when new tx"@, true, 0x20)
    &&& switch_is(switches@[1], "Dark mode"@, "Use the dark theme"@, false, 0x21)
}

fn switches_page() -> (r: NavPage)
    ensures
        r.nul_free(),
        is_switches_page(r),
{
    proof {
        reveal_strlit("Notifications");
        reveal_strlit("Alerts when new tx");
        reveal_strlit("Dark mode");
        reveal_strlit("Use the dark theme");
    }
    NavPage::SwitchesList {
        switches: vec![
            Switch {
                text: "Notifications".into(),
                sub_text: "Alerts when new tx".into(),
                init_on: true,
                token: 0x20,
            },
            Switch {
                text: "Dark mode".into(),
                sub_text: "Use the dark theme".into(),
                init_on: false,
                token: 0x21,
            },
        ],
    }
}

/// The page is a list of infos.
pub open spec fn is_infos_page(page: NavPage) -> bool {
    &&& page matches NavPage::InfosList { infos }
    &&& pairs_are(
            infos@,
            seq![("Version"@, "1.8.0"@), ("Developer"@, "Ledger"@), ("License"@, "Apache-2.0"@)],
        )
}

fn infos_page() -> (r: NavPage)
    ensures
        r.nul_free(),
        is_infos_page(r),
{
    proof {
        reveal_strlit("Version");
        reveal_strlit("1.8.0");
        reveal_strlit("Developer");
        reveal_strlit("Ledger");
        reveal_strlit("License");
        reveal_strlit("Apache-2.0");
    }
    NavPage::InfosList {
        infos: vec![
            ("Version".into(), "1.8.0".into()),
            ("Developer".into(), "Ledger".into()),
            ("License".into(), "Apache-2.0".into()),
        ],
    }
}

/// The page is a list of choices.
pub open spec fn is_choices_page(page: NavPage) -> bool {
    &&& page matches NavPage::ChoicesList { choices, init_choice, token }
    &&& choices@.len() == 3
    &&& choices@[0]@ == "Mainnet"@
    &&& choices@[1]@ == "Testnet"@
    &&& choices@[2]@ == "Devnet"@
    &&& init_choice == 0
    &&& token == 0x30
}

fn choices_page() -> (r: NavPage)
    ensures
        r.nul_free(),
        is_choices_page(r),
{
    proof {
        reveal_strlit("Mainnet");
        reveal_strlit("Testnet");
        reveal_strlit("Devnet");
    }
    NavPage::ChoicesList {
        choices: vec!["Mainnet".into(), "Testnet".into(), "Devnet".into()],
        init_choice: 0,
        token: 0x30,
    }
}

/// The page is a list of bars.
pub open spec fn is_bars_page(page: NavPage) -> bool {
    &&& page matches NavPage::BarsList { bars }
    &&& bars@.len() == 3
    &&& bars@[0].text@ == "About"@ && bars@[0].token == 0x40
    &&& bars@[1].text@ == "Settings"@ && bars@[1].token == 0x41
    &&& bars@[2].text@ == "Reset"@ && bars@[2].token == 0x42
}

fn bars_page() -> (r: NavPage)
    ensures
        r.nul_free(),
        is_bars_page(r),
{
    proof {
        reveal_strlit("About");
        reveal_strlit("Settings");
        reveal_strlit("Reset");
    }
    NavPage::BarsList {
        bars: vec![
            BarItem { text: "About".into(), token: 0x40 },
            BarItem { text: "Settings".into(), token: 0x41 },
            BarItem { text: "Reset".into(), token: 0x42 },
        ],
    }
}

/// The page is three centered lines that close the demo.
pub open spec fn is_end_page(page: NavPage) -> bool {
    &&& page matches NavPage::CenteredInfo { text1, text2, text3 }
    &&& text1@ == "End of demo"@
    &&& text2@ == "Press back to exit"@
    &&& text3@ == ""@
}

fn end_page() -> (r: NavPage)
    ensures
        r.nul_free(),
        is_end_page(r),
{
    proof {
        reveal_strlit("End of demo");
        reveal_strlit("Press back to exit");
        reveal_strlit("");
    }
    NavPage::CenteredInfo {
        text1: "End of demo".into(),
        text2: "Press back to exit".into(),
        text3: "".into(),
    }
}

/// The pages are the demo: one of each kind, and a page that closes it.
pub open spec fn is_demo(pages: Seq<NavPage>) -> bool {
    &&& pages.len() == 12
    &&& is_centered_page(pages[0])
    &&& is_extended_page(pages[1])
    &&& is_long_press_page(pages[2])
    &&& is_button_page(pages[3])
    &&& is_pairs_page(pages[4])
    &&& is_details_page(pages[5])
    &&& is_confirm_page(pages[6])
    &&& is_switches_page(pages[7])
    &&& is_infos_page(pages[8])
    &&& is_choices_page(pages[9])
    &&& is_bars_page(pages[10])
    &&& is_end_page(pages[11])
}

/// The navigable screen that is shown after the keyboard.
pub fn demo_nav() -> (r: NbglNav)
    ensures
        r.title_bytes() == encode_utf8("Nav demo"@),
        is_demo(r.page_list()),
        pages_nul_free(r.page_list()),
{
    proof {
        reveal_strlit("Nav demo");
    }
    NbglNav::new("Nav demo")
        .page(centered_page())
        .page(extended_page())
        .page(long_press_page())
        .page(button_page())
        .page(pairs_page())
        .page(details_page())
        .page(confirm_page())
        .page(switches_page())
        .page(infos_page())
        .page(choices_page())
        .page(bars_page())
        .page(end_page())
}

/// The opening screens ask for a text of at most 32 bytes and leave the rest of the
/// keyboard as it is by default.
pub proof fn law_opening_asks_for_a_text(keyboard: NbglKeyboard)
    requires
        call_ensures(demo_keyboard, (), keyboard),
    ensures
        keyboard@.title == encode_utf8("Type something"@),
        keyboard@.button_text == encode_utf8("Confirm"@),
        keyboard@.entry_max_len == 32,
        keyboard@.mode is Letters,
        keyboard@.casing is Lower,
        !keyboard@.letters_only,
        READY_MESSAGE@ == "ready to go?"@,
        READY_ACTION@ == "yes"@,
{
}

/// The demo has its title and twelve pages, and starts with the pages of text.
pub proof fn law_demo_starts_with_text_pages(nav: NbglNav)
    requires
        call_ensures(demo_nav, (), nav),
    ensures
        nav.title_bytes() == encode_utf8("Nav demo"@),
        nav.page_list().len() == 12,
        nav.page_list()[0] matches NavPage::CenteredInfo { text1, text2, text3 } && {
            &&& text1@ == "CenteredInfo"@
            &&& text2@ == "Three centered text lines"@
            &&& text3@ == "Swipe \u{2192}"@
        },
        nav.page_list()[1] matches NavPage::ExtendedCenter {
            title,
            small_title,
            description,
            sub_text,
            tip_text,
        } && {
            &&& title@ == "ExtendedCenter"@
            &&& small_title@ == "Subtitle"@
            &&& description@ == "Title plus description plus tip box."@
            &&& sub_text@ == "Sub text"@
            &&& tip_text@ == "Tip box at bottom"@
        },
        nav.page_list()[2] matches NavPage::InfoLongPress {
            text,
            long_press_text,
            long_press_token,
        } && {
            &&& text@ == "InfoLongPress: hold the button to confirm."@
            &&& long_press_text@ == "Hold to confirm"@
            &&& long_press_token == 0x10
        },
        nav.page_list()[3] matches NavPage::InfoButton { text, button_text, button_token } && {
            &&& text@ == "InfoButton: a regular tappable button."@
            &&& button_text@ == "Press me"@
            &&& button_token == 0x11
        },
{
}

/// The demo goes on with lists of pairs: bare, with details, and to confirm.
pub proof fn law_demo_goes_on_with_pairs(nav: NbglNav)
    requires
        call_ensures(demo_nav, (), nav),
    ensures
        nav.page_list()[4] matches NavPage::TagValueList { pairs } && {
            &&& pairs@.len() == 3
            &&& pairs@[0].0@ == "Network"@ && pairs@[0].1@ == "Mainnet"@
            &&& pairs@[1].0@ == "Account"@ && pairs@[1].1@ == "Acct #0"@
            &&& pairs@[2].0@ == "Currency"@ && pairs@[2].1@ == "BOIL"@
        },
        nav.page_list()[5] matches NavPage::TagValueDetails {
            pairs,
            details_button_text,
            details_button_token,
        } && {
            &&& pairs@.len() == 2
            &&& pairs@[0].0@ == "From"@ && pairs@[0].1@ == "0xabcd\u{2026}"@
            &&& pairs@[1].0@ == "Amount"@ && pairs@[1].1@ == "1.5 BOIL"@
            &&& details_button_text@ == "See details"@
            &&& details_button_token == 0x12
        },
        nav.page_list()[6] matches NavPage::TagValueConfirm {
            pairs,
            details_button_text,
            details_button_token,
            confirmation_text,
            cancel_text,
            confirmation_token,
            cancel_token,
        } && {
            &&& pairs@.len() == 2
            &&& pairs@[0].0@ == "Action"@ && pairs@[0].1@ == "Send"@
            &&& pairs@[1].0@ == "Fee"@ && pairs@[1].1@ == "0.0001 BOIL"@
            &&& details_button_text@ == "Details"@
            &&& details_button_token == 0x13
            &&& confirmation_text@ == "Approve"@
            &&& cancel_text@ == "Reject"@
            &&& confirmation_token == 0x14
            &&& cancel_token == 0x15
        },
{
}

/// The demo ends with its other lists and a page that closes it.
pub proof fn law_demo_ends_with_lists(nav: NbglNav)
    requires
        call_ensures(demo_nav, (), nav),
    ensures
        nav.page_list()[7] matches NavPage::SwitchesList { switches } && {
            &&& switches@.len() == 2
            &&& switches@[0].text@ == "Notifications"@
            &&& switches@[0].sub_text@ == "Alerts when new tx"@
            &&& switches@[0].init_on && switches@[0].token == 0x20
            &&& switches@[1].text@ == "Dark mode"@
            &&& switches@[1].sub_text@ == "Use the dark theme"@
            &&& !switches@[1].init_on && switches@[1].token == 0x21
        },
        nav.page_list()[8] matches NavPage::InfosList { infos } && {
            &&& infos@.len() == 3
            &&& infos@[0].0@ == "Version"@ && infos@[0].1@ == "1.8.0"@
            &&& infos@[1].0@ == "Developer"@ && infos@[1].1@ == "Ledger"@
            &&& infos@[2].0@ == "License"@ && infos@[2].1@ == "Apache-2.0"@
        },
        nav.page_list()[9] matches NavPage::ChoicesList { choices, init_choice, token } && {
            &&& choices@.len() == 3
            &&& choices@[0]@ == "Mainnet"@ && choices@[1]@ == "Testnet"@ && choices@[2]@ == "Devnet"@
            &&& init_choice == 0 && token == 0x30
        },
        nav.page_list()[10] matches NavPage::BarsList { bars } && {
            &&& bars@.len() == 3
            &&& bars@[0].text@ == "About"@ && bars@[0].token == 0x40
            &&& bars@[1].text@ == "Settings"@ && bars@[1].token == 0x41
            &&& bars@[2].text@ == "Reset"@ && bars@[2].token == 0x42
        },
        nav.page_list()[11] matches NavPage::CenteredInfo { text1, text2, text3 } && {
            &&& text1@ == "End of demo"@
            &&& text2@ == "Press back to exit"@
            &&& text3@ == ""@
        },
{
}

} // verus!
