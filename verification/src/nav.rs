//! A screen of several pages that the user swipes through until they back out.
//!
//! [`NbglNav`] collects the pages, [`NbglNav::show`] prepares them in the form in
//! which the device's toolkit reads them, and [`NavScreen::nav_cb`] answers the
//! toolkit's request for one of them. Pages have no icons and no animations.

use vstd::prelude::*;
use vstd::utf8::*;

use crate::c_text::{cstr, is_nul_free, nul_free, CText};
use crate::counts::count_u8;
use crate::seph::{after, classify, incoming, turn_after, Incoming, SephCodes, Turn, RX_BUFFER_SIZE};

verus! {

/// The page that the toolkit shows first.
pub const FIRST_PAGE: u8 = 0;

/// A toggle switch.
#[derive(Debug)]
pub struct Switch {
    pub text: String,
    pub sub_text: String,
    pub init_on: bool,
    pub token: u8,
}

/// A row of a bar list.
#[derive(Debug)]
pub struct BarItem {
    pub text: String,
    pub token: u8,
}

/// One page of navigable content, supplied by the caller.
#[derive(Debug)]
pub enum NavPage {
    /// Three centered text lines.
    CenteredInfo { text1: String, text2: String, text3: String },
    /// Center-block with title/small_title/description/sub_text plus an
    /// optional bottom tip box.
    ExtendedCenter {
        title: String,
        small_title: String,
        description: String,
        sub_text: String,
        tip_text: String,
    },
    /// Body text with a long-press confirmation footer.
    InfoLongPress { text: String, long_press_text: String, long_press_token: u8 },
    /// Body text with a regular confirmation button.
    InfoButton { text: String, button_text: String, button_token: u8 },
    /// `(item, value)` list.
    TagValueList { pairs: Vec<(String, String)> },
    /// `(item, value)` list plus a "details" button.
    TagValueDetails {
        pairs: Vec<(String, String)>,
        details_button_text: String,
        details_button_token: u8,
    },
    /// `(item, value)` list with both a details button and confirm/cancel
    /// actions in the footer.
    TagValueConfirm {
        pairs: Vec<(String, String)>,
        details_button_text: String,
        details_button_token: u8,
        confirmation_text: String,
        cancel_text: String,
        confirmation_token: u8,
        cancel_token: u8,
    },
    /// List of toggle switches.
    SwitchesList { switches: Vec<Switch> },
    /// List of read-only `(name, value)` info rows (used for "About" pages).
    InfosList { infos: Vec<(String, String)> },
    /// Radio-style single-choice list.
    ChoicesList { choices: Vec<String>, init_choice: u8, token: u8 },
    /// Vertical bar list (each row navigates somewhere via its token).
    BarsList { bars: Vec<BarItem> },
}

/// The pairs hold no NUL character.
pub open spec fn pairs_nul_free(pairs: Seq<(String, String)>) -> bool {
    forall|i: int|
        0 <= i < pairs.len() ==> nul_free((#[trigger] pairs[i]).0@) && nul_free(pairs[i].1@)
}

/// The switches' texts hold no NUL character.
pub open spec fn switches_nul_free(switches: Seq<Switch>) -> bool {
    forall|i: int|
        0 <= i < switches.len() ==> nul_free((#[trigger] switches[i]).text@) && nul_free(
            switches[i].sub_text@,
        )
}

/// The texts hold no NUL character.
pub open spec fn texts_nul_free(texts: Seq<String>) -> bool {
    forall|i: int| 0 <= i < texts.len() ==> nul_free((#[trigger] texts[i])@)
}

/// The bars' texts hold no NUL character.
pub open spec fn bars_nul_free(bars: Seq<BarItem>) -> bool {
    forall|i: int| 0 <= i < bars.len() ==> nul_free((#[trigger] bars[i]).text@)
}

impl NavPage {
    /// No text on the page holds a NUL character.
    pub open spec fn nul_free(self) -> bool {
        match self {
            NavPage::CenteredInfo { text1, text2, text3 } => {
                &&& nul_free(text1@)
                &&& nul_free(text2@)
                &&& nul_free(text3@)
            },
            NavPage::ExtendedCenter { title, small_title, description, sub_text, tip_text } => {
                &&& nul_free(title@)
                &&& nul_free(small_title@)
                &&& nul_free(description@)
                &&& nul_free(sub_text@)
                &&& nul_free(tip_text@)
            },
            NavPage::InfoLongPress { text, long_press_text, .. } => {
                &&& nul_free(text@)
                &&& nul_free(long_press_text@)
            },
            NavPage::InfoButton { text, button_text, .. } => {
                &&& nul_free(text@)
                &&& nul_free(button_text@)
            },
            NavPage::TagValueList { pairs } => pairs_nul_free(pairs@),
            NavPage::TagValueDetails { pairs, details_button_text, .. } => {
                &&& pairs_nul_free(pairs@)
                &&& nul_free(details_button_text@)
            },
            NavPage::TagValueConfirm {
                pairs,
                details_button_text,
                confirmation_text,
                cancel_text,
                ..
            } => {
                &&& pairs_nul_free(pairs@)
                &&& nul_free(details_button_text@)
                &&& nul_free(confirmation_text@)
                &&& nul_free(cancel_text@)
            },
            NavPage::SwitchesList { switches } => switches_nul_free(switches@),
            NavPage::InfosList { infos } => pairs_nul_free(infos@),
            NavPage::ChoicesList { choices, .. } => texts_nul_free(choices@),
            NavPage::BarsList { bars } => bars_nul_free(bars@),
        }
    }
}

impl NavPage {
    /// The kind of the page.
    pub open spec fn kind(self) -> ContentType {
        match self {
            NavPage::CenteredInfo { .. } => ContentType::CenteredInfo,
            NavPage::ExtendedCenter { .. } => ContentType::ExtendedCenter,
            NavPage::InfoLongPress { .. } => ContentType::InfoLongPress,
            NavPage::InfoButton { .. } => ContentType::InfoButton,
            NavPage::TagValueList { .. } => ContentType::TagValueList,
            NavPage::TagValueDetails { .. } => ContentType::TagValueDetails,
            NavPage::TagValueConfirm { .. } => ContentType::TagValueConfirm,
            NavPage::SwitchesList { .. } => ContentType::SwitchesList,
            NavPage::InfosList { .. } => ContentType::InfosList,
            NavPage::ChoicesList { .. } => ContentType::ChoicesList,
            NavPage::BarsList { .. } => ContentType::BarsList,
        }
    }
}

/// Three lines, as the toolkit reads them.
#[derive(Debug)]
pub struct CenteredInfoStore {
    pub text1: CText,
    pub text2: CText,
    pub text3: CText,
}

/// A center block and its tip box, as the toolkit reads them.
#[derive(Debug)]
pub struct ExtendedCenterStore {
    pub title: CText,
    pub small_title: CText,
    pub description: CText,
    pub sub_text: CText,
    pub tip_text: CText,
}

/// A text with a long-press footer, as the toolkit reads it.
#[derive(Debug)]
pub struct InfoLongPressStore {
    pub text: CText,
    pub long_press_text: CText,
    pub long_press_token: u8,
}

/// A text with a button, as the toolkit reads it.
#[derive(Debug)]
pub struct InfoButtonStore {
    pub text: CText,
    pub button_text: CText,
    pub button_token: u8,
}

/// One pair, as the toolkit reads it.
#[derive(Debug)]
pub struct TagValue {
    pub item: CText,
    pub value: CText,
}

/// A list of pairs and their count, as the toolkit reads them.
#[derive(Debug)]
pub struct TagValueListStore {
    pub pairs: Vec<TagValue>,
    pub nb_pairs: u8,
}

/// A list of pairs with a details button, as the toolkit reads it.
#[derive(Debug)]
pub struct TagValueDetailsStore {
    pub tag_value_list: TagValueListStore,
    pub details_button_text: CText,
    pub details_button_token: u8,
}

/// A list of pairs with details, confirmation and cancellation, as the toolkit reads it.
#[derive(Debug)]
pub struct TagValueConfirmStore {
    pub tag_value_list: TagValueListStore,
    pub details_button_text: CText,
    pub details_button_token: u8,
    pub confirmation_text: CText,
    pub cancel_text: CText,
    pub confirmation_token: u8,
    pub cancel_token: u8,
}

/// State of a switch.
#[derive(Clone, Copy, PartialEq, Eq, Structural, Debug)]
pub enum SwitchState {
    Off,
    On,
}

/// One switch, as the toolkit reads it.
#[derive(Debug)]
pub struct SwitchStore {
    pub text: CText,
    pub sub_text: CText,
    pub init_state: SwitchState,
    pub token: u8,
}

/// A list of switches and their count, as the toolkit reads them.
#[derive(Debug)]
pub struct SwitchesListStore {
    pub switches: Vec<SwitchStore>,
    pub nb_switches: u8,
}

/// Rows of names and contents and their count, as the toolkit reads them.
#[derive(Debug)]
pub struct InfosListStore {
    pub info_types: Vec<CText>,
    pub info_contents: Vec<CText>,
    pub nb_infos: u8,
}

/// A list of choices and their count, as the toolkit reads them.
#[derive(Debug)]
pub struct ChoicesListStore {
    pub names: Vec<CText>,
    pub localized: bool,
    pub nb_choices: u8,
    pub init_choice: u8,
    pub token: u8,
}

/// Bars, their tokens and their count, as the toolkit reads them.
#[derive(Debug)]
pub struct BarsListStore {
    pub bar_texts: Vec<CText>,
    pub tokens: Vec<u8>,
    pub nb_bars: u8,
}

/// A page in the form in which the toolkit reads it.
#[derive(Debug)]
pub enum PreparedPage {
    CenteredInfo(CenteredInfoStore),
    ExtendedCenter(ExtendedCenterStore),
    InfoLongPress(InfoLongPressStore),
    InfoButton(InfoButtonStore),
    TagValueList(TagValueListStore),
    TagValueDetails(TagValueDetailsStore),
    TagValueConfirm(TagValueConfirmStore),
    SwitchesList(SwitchesListStore),
    InfosList(InfosListStore),
    ChoicesList(ChoicesListStore),
    BarsList(BarsListStore),
}

impl TagValueListStore {
    /// The list holds these pairs, in their order, with their count in one byte.
    pub open spec fn holds(self, pairs: Seq<(String, String)>) -> bool {
        &&& self.pairs@.len() == pairs.len()
        &&& forall|i: int|
            0 <= i < pairs.len() ==> (#[trigger] self.pairs@[i]).item.holds(pairs[i].0@)
                && self.pairs@[i].value.holds(pairs[i].1@)
        &&& self.nb_pairs == pairs.len() % 256
    }
}

impl SwitchStore {
    /// The switch is `switch`.
    pub open spec fn holds(self, switch: Switch) -> bool {
        &&& self.text.holds(switch.text@)
        &&& self.sub_text.holds(switch.sub_text@)
        &&& self.init_state == if switch.init_on {
            SwitchState::On
        } else {
            SwitchState::Off
        }
        &&& self.token == switch.token
    }
}

impl PreparedPage {
    /// The page shows what `page` asks for: every text, token and setting is where
    /// the toolkit looks for it, and every list is complete and in order.
    pub open spec fn shows(self, page: NavPage) -> bool {
        match page {
            NavPage::CenteredInfo { text1, text2, text3 } => {
                &&& self matches PreparedPage::CenteredInfo(s)
                &&& s.text1.holds(text1@)
                &&& s.text2.holds(text2@)
                &&& s.text3.holds(text3@)
            },
            NavPage::ExtendedCenter { title, small_title, description, sub_text, tip_text } => {
                &&& self matches PreparedPage::ExtendedCenter(s)
                &&& s.title.holds(title@)
                &&& s.small_title.holds(small_title@)
                &&& s.description.holds(description@)
                &&& s.sub_text.holds(sub_text@)
                &&& s.tip_text.holds(tip_text@)
            },
            NavPage::InfoLongPress { text, long_press_text, long_press_token } => {
                &&& self matches PreparedPage::InfoLongPress(s)
                &&& s.text.holds(text@)
                &&& s.long_press_text.holds(long_press_text@)
                &&& s.long_press_token == long_press_token
            },
            NavPage::InfoButton { text, button_text, button_token } => {
                &&& self matches PreparedPage::InfoButton(s)
                &&& s.text.holds(text@)
                &&& s.button_text.holds(button_text@)
                &&& s.button_token == button_token
            },
            NavPage::TagValueList { pairs } => {
                &&& self matches PreparedPage::TagValueList(s)
                &&& s.holds(pairs@)
            },
            NavPage::TagValueDetails { pairs, details_button_text, details_button_token } => {
                &&& self matches PreparedPage::TagValueDetails(s)
                &&& s.tag_value_list.holds(pairs@)
                &&& s.details_button_text.holds(details_button_text@)
                &&& s.details_button_token == details_button_token
            },
            NavPage::TagValueConfirm {
                pairs,
                details_button_text,
                details_button_token,
                confirmation_text,
                cancel_text,
                confirmation_token,
                cancel_token,
            } => {
                &&& self matches PreparedPage::TagValueConfirm(s)
                &&& s.tag_value_list.holds(pairs@)
                &&& s.details_button_text.holds(details_button_text@)
                &&& s.details_button_token == details_button_token
                &&& s.confirmation_text.holds(confirmation_text@)
                &&& s.cancel_text.holds(cancel_text@)
                &&& s.confirmation_token == confirmation_token
                &&& s.cancel_token == cancel_token
            },
            NavPage::SwitchesList { switches } => {
                &&& self matches PreparedPage::SwitchesList(s)
                &&& s.switches@.len() == switches@.len()
                &&& forall|i: int|
                    0 <= i < switches@.len() ==> (#[trigger] s.switches@[i]).holds(switches@[i])
                &&& s.nb_switches == switches@.len() % 256
            },
            NavPage::InfosList { infos } => {
                &&& self matches PreparedPage::InfosList(s)
                &&& s.info_types@.len() == infos@.len()
                &&& s.info_contents@.len() == infos@.len()
                &&& forall|i: int|
                    0 <= i < infos@.len() ==> (#[trigger] s.info_types@[i]).holds(infos@[i].0@)
                &&& forall|i: int|
                    0 <= i < infos@.len() ==> (#[trigger] s.info_contents@[i]).holds(infos@[i].1@)
                &&& s.nb_infos == infos@.len() % 256
            },
            NavPage::ChoicesList { choices, init_choice, token } => {
                &&& self matches PreparedPage::ChoicesList(s)
                &&& s.names@.len() == choices@.len()
                &&& forall|i: int|
                    0 <= i < choices@.len() ==> (#[trigger] s.names@[i]).holds(choices@[i]@)
                &&& !s.localized
                &&& s.nb_choices == choices@.len() % 256
                &&& s.init_choice == init_choice
                &&& s.token == token
            },
            NavPage::BarsList { bars } => {
                &&& self matches PreparedPage::BarsList(s)
                &&& s.bar_texts@.len() == bars@.len()
                &&& s.tokens@.len() == bars@.len()
                &&& forall|i: int|
                    0 <= i < bars@.len() ==> (#[trigger] s.bar_texts@[i]).holds(bars@[i].text@)
                &&& forall|i: int|
                    0 <= i < bars@.len() ==> (#[trigger] s.tokens@[i]) == bars@[i].token
                &&& s.nb_bars == bars@.len() % 256
            },
        }
    }
}

/// Prepares the pairs of a list.
pub fn build_tag_value_pairs(pairs: Vec<(String, String)>) -> (r: TagValueListStore)
    requires
        pairs_nul_free(pairs@),
    ensures
        r.holds(pairs@),
{
    let mut built: Vec<TagValue> = Vec::new();
    let mut i: usize = 0;
    while i < pairs.len()
        invariant
            i <= pairs@.len(),
            pairs_nul_free(pairs@),
            built@.len() == i,
            forall|j: int|
                0 <= j < i ==> (#[trigger] built@[j]).item.holds(pairs@[j].0@)
                    && built@[j].value.holds(pairs@[j].1@),
        decreases pairs@.len() - i,
    {
        let (k, v) = &pairs[i];
        built.push(
            TagValue {
                item: CText::new(k.as_str()).unwrap(),
                value: CText::new(v.as_str()).unwrap(),
            },
        );
        i = i + 1;
    }
    TagValueListStore { pairs: built, nb_pairs: count_u8(pairs.len()) }
}

/// Prepares the switches of a list.
fn build_switches(switches: Vec<Switch>) -> (r: SwitchesListStore)
    requires
        switches_nul_free(switches@),
    ensures
        PreparedPage::SwitchesList(r).shows((NavPage::SwitchesList { switches })),
{
    let mut built: Vec<SwitchStore> = Vec::new();
    let mut i: usize = 0;
    while i < switches.len()
        invariant
            i <= switches@.len(),
            switches_nul_free(switches@),
            built@.len() == i,
            forall|j: int| 0 <= j < i ==> (#[trigger] built@[j]).holds(switches@[j]),
        decreases switches@.len() - i,
    {
        let sw: &Switch = &switches[i];
        built.push(
            SwitchStore {
                text: CText::new(sw.text.as_str()).unwrap(),
                sub_text: CText::new(sw.sub_text.as_str()).unwrap(),
                init_state: if sw.init_on {
                    SwitchState::On
                } else {
                    SwitchState::Off
                },
                token: sw.token,
            },
        );
        i = i + 1;
    }
    SwitchesListStore { switches: built, nb_switches: count_u8(switches.len()) }
}

/// Prepares the rows of an info list: names and contents in a list each.
fn build_infos(infos: Vec<(String, String)>) -> (r: InfosListStore)
    requires
        pairs_nul_free(infos@),
    ensures
        PreparedPage::InfosList(r).shows((NavPage::InfosList { infos })),
{
    let mut info_types: Vec<CText> = Vec::new();
    let mut info_contents: Vec<CText> = Vec::new();
    let mut i: usize = 0;
    while i < infos.len()
        invariant
            i <= infos@.len(),
            pairs_nul_free(infos@),
            info_types@.len() == i,
            info_contents@.len() == i,
            forall|j: int| 0 <= j < i ==> (#[trigger] info_types@[j]).holds(infos@[j].0@),
            forall|j: int| 0 <= j < i ==> (#[trigger] info_contents@[j]).holds(infos@[j].1@),
        decreases infos@.len() - i,
    {
        let (t, c) = &infos[i];
        info_types.push(CText::new(t.as_str()).unwrap());
        info_contents.push(CText::new(c.as_str()).unwrap());
        i = i + 1;
    }
    InfosListStore { info_types, info_contents, nb_infos: count_u8(infos.len()) }
}

/// Prepares the names of a choice list.
fn build_names(choices: &Vec<String>) -> (r: Vec<CText>)
    requires
        texts_nul_free(choices@),
    ensures
        r@.len() == choices@.len(),
        forall|i: int| 0 <= i < choices@.len() ==> (#[trigger] r@[i]).holds(choices@[i]@),
{
    let mut names: Vec<CText> = Vec::new();
    let mut i: usize = 0;
    while i < choices.len()
        invariant
            i <= choices@.len(),
            texts_nul_free(choices@),
            names@.len() == i,
            forall|j: int| 0 <= j < i ==> (#[trigger] names@[j]).holds(choices@[j]@),
        decreases choices@.len() - i,
    {
        names.push(CText::new(choices[i].as_str()).unwrap());
        i = i + 1;
    }
    names
}

/// Prepares the bars of a list: texts and tokens in a list each.
fn build_bars(bars: Vec<BarItem>) -> (r: BarsListStore)
    requires
        bars_nul_free(bars@),
    ensures
        PreparedPage::BarsList(r).shows((NavPage::BarsList { bars })),
{
    let mut bar_texts: Vec<CText> = Vec::new();
    let mut tokens: Vec<u8> = Vec::new();
    let mut i: usize = 0;
    while i < bars.len()
        invariant
            i <= bars@.len(),
            bars_nul_free(bars@),
            bar_texts@.len() == i,
            tokens@.len() == i,
            forall|j: int| 0 <= j < i ==> (#[trigger] bar_texts@[j]).holds(bars@[j].text@),
            forall|j: int| 0 <= j < i ==> (#[trigger] tokens@[j]) == bars@[j].token,
        decreases bars@.len() - i,
    {
        bar_texts.push(CText::new(bars[i].text.as_str()).unwrap());
        tokens.push(bars[i].token);
        i = i + 1;
    }
    BarsListStore { bar_texts, tokens, nb_bars: count_u8(bars.len()) }
}

/// Brings one page into the form in which the toolkit reads it.
pub fn prepare_page(page: NavPage) -> (r: PreparedPage)
    requires
        page.nul_free(),
    ensures
        r.shows(page),
{
    match page {
        NavPage::CenteredInfo { text1, text2, text3 } => PreparedPage::CenteredInfo(
            CenteredInfoStore { text1: cstr(text1), text2: cstr(text2), text3: cstr(text3) },
        ),
        NavPage::ExtendedCenter { title, small_title, description, sub_text, tip_text } => {
            PreparedPage::ExtendedCenter(
                ExtendedCenterStore {
                    title: cstr(title),
                    small_title: cstr(small_title),
                    description: cstr(description),
                    sub_text: cstr(sub_text),
                    tip_text: cstr(tip_text),
                },
            )
        },
        NavPage::InfoLongPress { text, long_press_text, long_press_token } => {
            PreparedPage::InfoLongPress(
                InfoLongPressStore {
                    text: cstr(text),
                    long_press_text: cstr(long_press_text),
                    long_press_token,
                },
            )
        },
        NavPage::InfoButton { text, button_text, button_token } => PreparedPage::InfoButton(
            InfoButtonStore { text: cstr(text), button_text: cstr(button_text), button_token },
        ),
        NavPage::TagValueList { pairs } => PreparedPage::TagValueList(build_tag_value_pairs(pairs)),
        NavPage::TagValueDetails { pairs, details_button_text, details_button_token } => {
            PreparedPage::TagValueDetails(
                TagValueDetailsStore {
                    tag_value_list: build_tag_value_pairs(pairs),
                    details_button_text: cstr(details_button_text),
                    details_button_token,
                },
            )
        },
        NavPage::TagValueConfirm {
            pairs,
            details_button_text,
            details_button_token,
            confirmation_text,
            cancel_text,
            confirmation_token,
            cancel_token,
        } => PreparedPage::TagValueConfirm(
            TagValueConfirmStore {
                tag_value_list: build_tag_value_pairs(pairs),
                details_button_text: cstr(details_button_text),
                details_button_token,
                confirmation_text: cstr(confirmation_text),
                cancel_text: cstr(cancel_text),
                confirmation_token,
                cancel_token,
            },
        ),
        NavPage::SwitchesList { switches } => PreparedPage::SwitchesList(build_switches(switches)),
        NavPage::InfosList { infos } => PreparedPage::InfosList(build_infos(infos)),
        NavPage::ChoicesList { choices, init_choice, token } => PreparedPage::ChoicesList(
            ChoicesListStore {
                names: build_names(&choices),
                localized: false,
                nb_choices: count_u8(choices.len()),
                init_choice,
                token,
            },
        ),
        NavPage::BarsList { bars } => PreparedPage::BarsList(build_bars(bars)),
    }
}

/// Builder for a multi-page navigable screen.
#[derive(Debug)]
pub struct NbglNav {
    title: CText,
    pages: Vec<NavPage>,
}

/// Every page can be handed to C code.
pub open spec fn pages_nul_free(pages: Seq<NavPage>) -> bool {
    forall|i: int| 0 <= i < pages.len() ==> (#[trigger] pages[i]).nul_free()
}

impl NbglNav {
    /// The title, in UTF-8.
    pub closed spec fn title_bytes(self) -> Seq<u8> {
        self.title@
    }

    /// The pages, in their order.
    pub closed spec fn page_list(self) -> Seq<NavPage> {
        self.pages@
    }

    /// A screen with a title and no pages yet.
    pub fn new(title: &str) -> (r: Self)
        requires
            nul_free(title@),
        ensures
            r.title_bytes() == encode_utf8(title@),
            r.page_list() == Seq::<NavPage>::empty(),
    {
        Self { title: CText::new(title).unwrap(), pages: Vec::new() }
    }

    /// Adds a page behind those that are there.
    pub fn page(self, page: NavPage) -> (r: Self)
        ensures
            r.title_bytes() == self.title_bytes(),
            r.page_list() == self.page_list().push(page),
    {
        let mut this = self;
        this.pages.push(page);
        this
    }

    /// Tells whether every text on the pages can be handed to C code.
    pub fn is_nul_free(&self) -> (r: bool)
        ensures
            r == pages_nul_free(self.page_list()),
    {
        let mut i: usize = 0;
        while i < self.pages.len()
            invariant
                i <= self.pages@.len(),
                forall|j: int| 0 <= j < i ==> (#[trigger] self.pages@[j]).nul_free(),
            decreases self.pages@.len() - i,
        {
            if !self.pages[i].is_nul_free() {
                return false;
            }
            i = i + 1;
        }
        true
    }

    /// Prepares the pages for display; there is no screen for an empty list of pages.
    pub fn show(self) -> (r: Option<NavScreen>)
        requires
            pages_nul_free(self.page_list()),
        ensures
            r is None <==> self.page_list().len() == 0,
            r matches Some(screen) ==> {
                &&& screen.title_bytes() == self.title_bytes()
                &&& screen.prepared() matches Some(prepared)
                &&& prepares(prepared, self.page_list())
                &&& screen.page_count() == self.page_list().len() % 256
                &&& !screen.is_done()
            },
    {
        if self.pages.is_empty() {
            return None;
        }
        let ghost list = self.pages@;
        let nb_pages: u8 = count_u8(self.pages.len());
        let mut prepared: Vec<PreparedPage> = Vec::new();
        for page in iter: self.pages
            invariant
                iter.seq() == list,
                pages_nul_free(list),
                prepared@.len() == iter.index(),
                forall|j: int| 0 <= j < prepared@.len() ==> (#[trigger] prepared@[j]).shows(list[j]),
        {
            prepared.push(prepare_page(page));
        }
        Some(NavScreen { title: self.title, nb_pages, pages: Some(prepared), done: false })
    }
}

/// The prepared pages show the pages, one each, in their order.
pub open spec fn prepares(prepared: Seq<PreparedPage>, pages: Seq<NavPage>) -> bool {
    &&& prepared.len() == pages.len()
    &&& forall|i: int| 0 <= i < pages.len() ==> (#[trigger] prepared[i]).shows(pages[i])
}

/// Kind of a page, in the toolkit's terms.
#[derive(Clone, Copy, PartialEq, Eq, Structural, Debug)]
pub enum ContentType {
    CenteredInfo,
    ExtendedCenter,
    InfoLongPress,
    InfoButton,
    TagValueList,
    TagValueDetails,
    TagValueConfirm,
    SwitchesList,
    InfosList,
    ChoicesList,
    BarsList,
}

/// What the toolkit gets when it asks for a page.
#[derive(Clone, Copy, Debug)]
pub struct PageContent<'a> {
    pub type_: ContentType,
    pub page: &'a PreparedPage,
}

impl PreparedPage {
    /// The kind of the page.
    pub open spec fn kind(self) -> ContentType {
        match self {
            PreparedPage::CenteredInfo(_) => ContentType::CenteredInfo,
            PreparedPage::ExtendedCenter(_) => ContentType::ExtendedCenter,
            PreparedPage::InfoLongPress(_) => ContentType::InfoLongPress,
            PreparedPage::InfoButton(_) => ContentType::InfoButton,
            PreparedPage::TagValueList(_) => ContentType::TagValueList,
            PreparedPage::TagValueDetails(_) => ContentType::TagValueDetails,
            PreparedPage::TagValueConfirm(_) => ContentType::TagValueConfirm,
            PreparedPage::SwitchesList(_) => ContentType::SwitchesList,
            PreparedPage::InfosList(_) => ContentType::InfosList,
            PreparedPage::ChoicesList(_) => ContentType::ChoicesList,
            PreparedPage::BarsList(_) => ContentType::BarsList,
        }
    }
}

/// A navigable screen on display: the pages are there until they are released, and
/// the user backs out at some time.
pub ghost struct NavState {
    pub title: Seq<u8>,
    pub page_count: u8,
    pub prepared: Option<Seq<PreparedPage>>,
    pub done: bool,
}

/// What can happen to a navigable screen.
pub ghost enum NavOp {
    /// The user backs out.
    Quit,
    /// The user operates a control.
    Control,
    /// The screen is asked for its turn before a reception.
    Poll,
    /// The screen is asked for its turn after a reception.
    Received(Incoming),
    /// The pages are released.
    Release,
}

impl NavState {
    /// The screen is left: the user has backed out, or the reception failed.
    pub open spec fn leaves(self, op: NavOp) -> bool {
        match op {
            NavOp::Poll => self.done,
            NavOp::Received(received) => received is Failed,
            _ => false,
        }
    }

    /// The state after `op`. Leaving the screen releases its pages.
    pub open spec fn after(self, op: NavOp) -> NavState {
        NavState {
            prepared: if self.leaves(op) || op is Release {
                None
            } else {
                self.prepared
            },
            done: self.done || op is Quit,
            ..self
        }
    }

    /// `op` is what frees the pages.
    pub open spec fn frees(self, op: NavOp) -> bool {
        self.prepared is Some && self.after(op).prepared is None
    }

    /// `answer` is what the toolkit gets for this page number: nothing where the
    /// pages are released or the number is that of no page, and the page otherwise.
    pub open spec fn answers(self, page: u8, answer: Option<PageContent<'_>>) -> bool {
        match self.prepared {
            Some(pages) => {
                &&& answer is Some <==> page < pages.len()
                &&& answer matches Some(content) ==> {
                    &&& *content.page == pages[page as int]
                    &&& content.type_ == pages[page as int].kind()
                }
            },
            None => answer is None,
        }
    }
}

/// What is held for the toolkit once [`NbglNav::show`] has returned: nothing where
/// it gave no screen.
pub open spec fn installed(shown: Option<NavScreen>) -> NavState {
    match shown {
        Some(screen) => screen.state(),
        None => NavState { title: Seq::empty(), page_count: 0, prepared: None, done: false },
    }
}

/// The state that a run of operations leads to.
pub open spec fn state_after(first: NavState, ops: Seq<NavOp>) -> NavState
    decreases ops.len(),
{
    if ops.len() == 0 {
        first
    } else {
        state_after(first, ops.drop_last()).after(ops.last())
    }
}

/// The screen has been left in the course of the run.
pub open spec fn is_left(first: NavState, ops: Seq<NavOp>) -> bool
    decreases ops.len(),
{
    ops.len() > 0 && (is_left(first, ops.drop_last()) || state_after(
        first,
        ops.drop_last(),
    ).leaves(ops.last()))
}

/// How many times pages are freed in the course of the run.
pub open spec fn frees_in(first: NavState, ops: Seq<NavOp>) -> nat
    decreases ops.len(),
{
    if ops.len() == 0 {
        0
    } else {
        frees_in(first, ops.drop_last()) + if state_after(first, ops.drop_last()).frees(
            ops.last(),
        ) {
            1nat
        } else {
            0nat
        }
    }
}

/// A navigable screen that is being displayed.
#[derive(Debug)]
pub struct NavScreen {
    title: CText,
    nb_pages: u8,
    pages: Option<Vec<PreparedPage>>,
    done: bool,
}

impl NavScreen {
    /// The title, in UTF-8.
    pub closed spec fn title_bytes(self) -> Seq<u8> {
        self.title@
    }

    /// The number of pages that the toolkit is told.
    pub closed spec fn page_count(self) -> u8 {
        self.nb_pages
    }

    /// The prepared pages, until they are released.
    pub closed spec fn prepared(self) -> Option<Seq<PreparedPage>> {
        match self.pages {
            Some(pages) => Some(pages@),
            None => None,
        }
    }

    /// The user has backed out.
    pub closed spec fn is_done(self) -> bool {
        self.done
    }

    /// The state of the screen.
    pub open spec fn state(self) -> NavState {
        NavState {
            title: self.title_bytes(),
            page_count: self.page_count(),
            prepared: self.prepared(),
            done: self.is_done(),
        }
    }

    /// The title.
    pub fn title(&self) -> (r: &CText)
        ensures
            r@ == self.title_bytes(),
    {
        &self.title
    }

    /// The number of pages that the toolkit is told.
    pub fn nb_pages(&self) -> (r: u8)
        ensures
            r == self.page_count(),
    {
        self.nb_pages
    }

    /// Answers the toolkit's request for a page: nothing where the pages are
    /// released already or the number is that of no page.
    pub fn nav_cb(&self, page: u8) -> (r: Option<PageContent<'_>>)
        ensures
            self.state().answers(page, r),
    {
        let pages: &Vec<PreparedPage> = match &self.pages {
            Some(pages) => pages,
            None => {
                return None;
            },
        };
        let index: usize = page as usize;
        if index >= pages.len() {
            return None;
        }
        let page: &PreparedPage = &pages[index];
        let type_: ContentType = match page {
            PreparedPage::CenteredInfo(_) => ContentType::CenteredInfo,
            PreparedPage::ExtendedCenter(_) => ContentType::ExtendedCenter,
            PreparedPage::InfoLongPress(_) => ContentType::InfoLongPress,
            PreparedPage::InfoButton(_) => ContentType::InfoButton,
            PreparedPage::TagValueList(_) => ContentType::TagValueList,
            PreparedPage::TagValueDetails(_) => ContentType::TagValueDetails,
            PreparedPage::TagValueConfirm(_) => ContentType::TagValueConfirm,
            PreparedPage::SwitchesList(_) => ContentType::SwitchesList,
            PreparedPage::InfosList(_) => ContentType::InfosList,
            PreparedPage::ChoicesList(_) => ContentType::ChoicesList,
            PreparedPage::BarsList(_) => ContentType::BarsList,
        };
        Some(PageContent { type_, page })
    }

    /// The user backs out.
    pub fn quit_cb(&mut self)
        ensures
            final(self).state() == old(self).state().after(NavOp::Quit),
    {
        self.done = true;
    }

    /// The user operates a control. No control is reacted to.
    pub fn controls_cb(&mut self, _token: i32, _index: u8)
        ensures
            *final(self) == *old(self),
            final(self).state() == old(self).state().after(NavOp::Control),
    {
    }

    /// Releases the pages, once the toolkit is through with them. Releasing them
    /// again changes nothing.
    pub fn release(&mut self)
        ensures
            final(self).state() == old(self).state().after(NavOp::Release),
    {
        self.pages = None;
    }

    /// The turn before a packet is awaited: the screen is left, and its pages are
    /// released, once the user has backed out.
    pub fn poll(&mut self) -> (r: Turn<()>)
        ensures
            final(self).state() == old(self).state().after(NavOp::Poll),
            r == if old(self).is_done() {
                Turn::Finish(())
            } else {
                Turn::Receive
            },
    {
        if self.done {
            self.release();
            Turn::Finish(())
        } else {
            Turn::Receive
        }
    }

    /// The turn for a received packet: a failed reception leaves the screen and
    /// releases its pages.
    pub fn received(&mut self, codes: &SephCodes, status: i32, buf: &[u8; RX_BUFFER_SIZE]) -> (r:
        Turn<()>)
        ensures
            final(self).state() == old(self).state().after(
                NavOp::Received(incoming(*codes, status, buf@[0], buf@[1])),
            ),
            r == turn_after(incoming(*codes, status, buf@[0], buf@[1]), ()),
    {
        let received: Incoming = classify(codes, status, buf);
        if received == Incoming::Failed {
            self.release();
        }
        after(received, ())
    }
}

impl NavPage {
    /// Tells whether every text on the page can be handed to C code.
    pub fn is_nul_free(&self) -> (r: bool)
        ensures
            r == self.nul_free(),
    {
        match self {
            NavPage::CenteredInfo { text1, text2, text3 } => {
                is_nul_free(text1.as_str()) && is_nul_free(text2.as_str()) && is_nul_free(
                    text3.as_str(),
                )
            },
            NavPage::ExtendedCenter { title, small_title, description, sub_text, tip_text } => {
                is_nul_free(title.as_str()) && is_nul_free(small_title.as_str()) && is_nul_free(
                    description.as_str(),
                ) && is_nul_free(sub_text.as_str()) && is_nul_free(tip_text.as_str())
            },
            NavPage::InfoLongPress { text, long_press_text, .. } => {
                is_nul_free(text.as_str()) && is_nul_free(long_press_text.as_str())
            },
            NavPage::InfoButton { text, button_text, .. } => {
                is_nul_free(text.as_str()) && is_nul_free(button_text.as_str())
            },
            NavPage::TagValueList { pairs } => are_pairs_nul_free(pairs),
            NavPage::TagValueDetails { pairs, details_button_text, .. } => {
                are_pairs_nul_free(pairs) && is_nul_free(details_button_text.as_str())
            },
            NavPage::TagValueConfirm {
                pairs,
                details_button_text,
                confirmation_text,
                cancel_text,
                ..
            } => {
                are_pairs_nul_free(pairs) && is_nul_free(details_button_text.as_str())
                    && is_nul_free(confirmation_text.as_str()) && is_nul_free(cancel_text.as_str())
            },
            NavPage::SwitchesList { switches } => are_switches_nul_free(switches),
            NavPage::InfosList { infos } => are_pairs_nul_free(infos),
            NavPage::ChoicesList { choices, .. } => are_texts_nul_free(choices),
            NavPage::BarsList { bars } => are_bars_nul_free(bars),
        }
    }
}

fn are_pairs_nul_free(pairs: &Vec<(String, String)>) -> (r: bool)
    ensures
        r == pairs_nul_free(pairs@),
{
    let mut i: usize = 0;
    while i < pairs.len()
        invariant
            i <= pairs@.len(),
            forall|j: int|
                0 <= j < i ==> nul_free((#[trigger] pairs@[j]).0@) && nul_free(pairs@[j].1@),
        decreases pairs@.len() - i,
    {
        let (k, v) = &pairs[i];
        if !is_nul_free(k.as_str()) || !is_nul_free(v.as_str()) {
            return false;
        }
        i = i + 1;
    }
    true
}

fn are_switches_nul_free(switches: &Vec<Switch>) -> (r: bool)
    ensures
        r == switches_nul_free(switches@),
{
    let mut i: usize = 0;
    while i < switches.len()
        invariant
            i <= switches@.len(),
            forall|j: int|
                0 <= j < i ==> nul_free((#[trigger] switches@[j]).text@) && nul_free(
                    switches@[j].sub_text@,
                ),
        decreases switches@.len() - i,
    {
        let sw: &Switch = &switches[i];
        if !is_nul_free(sw.text.as_str()) || !is_nul_free(sw.sub_text.as_str()) {
            return false;
        }
        i = i + 1;
    }
    true
}

fn are_texts_nul_free(texts: &Vec<String>) -> (r: bool)
    ensures
        r == texts_nul_free(texts@),
{
    let mut i: usize = 0;
    while i < texts.len()
        invariant
            i <= texts@.len(),
            forall|j: int| 0 <= j < i ==> nul_free((#[trigger] texts@[j])@),
        decreases texts@.len() - i,
    {
        if !is_nul_free(texts[i].as_str()) {
            return false;
        }
        i = i + 1;
    }
    true
}

fn are_bars_nul_free(bars: &Vec<BarItem>) -> (r: bool)
    ensures
        r == bars_nul_free(bars@),
{
    let mut i: usize = 0;
    while i < bars.len()
        invariant
            i <= bars@.len(),
            forall|j: int| 0 <= j < i ==> nul_free((#[trigger] bars@[j]).text@),
        decreases bars@.len() - i,
    {
        if !is_nul_free(bars[i].text.as_str()) {
            return false;
        }
        i = i + 1;
    }
    true
}

/// The toolkit gets for a page number the page that was added at that place, under
/// its kind, and gets it for every number below the number of pages.
pub proof fn law_toolkit_gets_the_added_page(
    screen: NavScreen,
    pages: Seq<NavPage>,
    number: u8,
    answer: Option<PageContent<'_>>,
)
    requires
        screen.prepared() matches Some(prepared) && prepares(prepared, pages),
        screen.state().answers(number, answer),
    ensures
        answer is Some <==> number < pages.len(),
        answer matches Some(content) ==> {
            &&& content.page.shows(pages[number as int])
            &&& content.type_ == pages[number as int].kind()
        },
{
    let prepared = screen.prepared()->0;
    if number < pages.len() {
        assert(prepared[number as int].shows(pages[number as int]));
    }
}

/// With at most 255 pages the toolkit is told of all of them, so that it gets a
/// page for exactly the numbers that it was told of.
pub proof fn law_all_pages_are_reachable(
    screen: NavScreen,
    pages: Seq<NavPage>,
    number: u8,
    answer: Option<PageContent<'_>>,
)
    requires
        screen.prepared() matches Some(prepared) && prepares(prepared, pages),
        screen.page_count() == pages.len() % 256,
        pages.len() <= 255,
        screen.state().answers(number, answer),
    ensures
        screen.page_count() == pages.len(),
        answer is Some <==> number < screen.page_count(),
{
    law_toolkit_gets_the_added_page(screen, pages, number, answer);
}

/// A run goes on with what happens next to the screen.
pub proof fn lemma_run_goes_on(first: NavState, ops: Seq<NavOp>, op: NavOp)
    ensures
        state_after(first, ops.push(op)) == state_after(first, ops).after(op),
        is_left(first, ops.push(op)) <==> is_left(first, ops) || state_after(first, ops).leaves(op),
{
    assert(ops.push(op).drop_last() == ops);
}

/// The user has backed out in the course of the run.
pub open spec fn has_quit(ops: Seq<NavOp>) -> bool {
    exists|i: int| 0 <= i < ops.len() && #[trigger] ops[i] is Quit
}

/// A reception failed in the course of the run.
pub open spec fn has_failed(ops: Seq<NavOp>) -> bool {
    exists|i: int| 0 <= i < ops.len() && #[trigger] ops[i] == NavOp::Received(Incoming::Failed)
}

/// The screen stays until the user backs out: where no reception fails, it is left
/// only after that. Once the user has backed out, the next poll leaves it.
pub proof fn law_screen_stays_until_the_user_backs_out(first: NavState, ops: Seq<NavOp>)
    requires
        !first.done,
    ensures
        is_left(first, ops) && !has_failed(ops) ==> has_quit(ops),
        state_after(first, ops).done <==> has_quit(ops),
        state_after(first, ops).leaves(NavOp::Poll) <==> has_quit(ops),
    decreases ops.len(),
{
    if ops.len() > 0 {
        let before = ops.drop_last();
        let n = ops.len() - 1;
        law_screen_stays_until_the_user_backs_out(first, before);
        if has_quit(before) {
            let i = choose|i: int| 0 <= i < before.len() && #[trigger] before[i] is Quit;
            assert(ops[i] is Quit);
        }
        if has_failed(before) {
            let i = choose|i: int|
                0 <= i < before.len() && #[trigger] before[i] == NavOp::Received(Incoming::Failed);
            assert(ops[i] == NavOp::Received(Incoming::Failed));
        }
        if ops[n] is Quit {
            assert(has_quit(ops));
        }
        if has_quit(ops) && !(ops[n] is Quit) {
            let i = choose|i: int| 0 <= i < ops.len() && #[trigger] ops[i] is Quit;
            assert(before[i] is Quit);
        }
        assert(ops[n] == ops.last());
    }
}

/// Pages are freed at most once, and exactly where they were there and are gone.
pub proof fn law_pages_are_freed_at_most_once(first: NavState, ops: Seq<NavOp>)
    ensures
        frees_in(first, ops) == if first.prepared is Some && state_after(
            first,
            ops,
        ).prepared is None {
            1nat
        } else {
            0nat
        },
        state_after(first, ops).prepared is None || state_after(first, ops).prepared
            == first.prepared,
    decreases ops.len(),
{
    if ops.len() > 0 {
        law_pages_are_freed_at_most_once(first, ops.drop_last());
    }
}

/// However the screen is left, by the user, by a failed reception or for lack of
/// pages, nothing is held for the toolkit from then on: the pages are freed once,
/// whatever else happens to the screen, and every later request is answered with nothing.
pub proof fn law_leaving_releases_the_pages_once(
    shown: Option<NavScreen>,
    ops: Seq<NavOp>,
    number: u8,
    answer: Option<PageContent<'_>>,
)
    requires
        shown is None || is_left(installed(shown), ops),
        state_after(installed(shown), ops).answers(number, answer),
    ensures
        state_after(installed(shown), ops).prepared is None,
        frees_in(installed(shown), ops) == if installed(shown).prepared is Some {
            1nat
        } else {
            0nat
        },
        answer is None,
{
    let first = installed(shown);
    lemma_left_screen_has_no_pages(first, ops);
    if shown is None {
        law_release_is_final(first, ops, number, answer);
    }
    law_pages_are_freed_at_most_once(first, ops);
}

proof fn lemma_left_screen_has_no_pages(first: NavState, ops: Seq<NavOp>)
    ensures
        is_left(first, ops) ==> state_after(first, ops).prepared is None,
    decreases ops.len(),
{
    if ops.len() > 0 {
        lemma_left_screen_has_no_pages(first, ops.drop_last());
    }
}

/// Once the pages are released nothing brings them back, and every request is
/// answered with nothing.
pub proof fn law_release_is_final(
    first: NavState,
    ops: Seq<NavOp>,
    number: u8,
    answer: Option<PageContent<'_>>,
)
    requires
        first.prepared is None,
        state_after(first, ops).answers(number, answer),
    ensures
        state_after(first, ops).prepared is None,
        frees_in(first, ops) == 0,
        answer is None,
{
    law_pages_are_freed_at_most_once(first, ops);
}

/// Until the screen is left its pages stay as they are, unless they are released on request.
pub proof fn law_pages_stay_while_displayed(first: NavState, ops: Seq<NavOp>)
    requires
        !is_left(first, ops),
        forall|i: int| 0 <= i < ops.len() ==> !(#[trigger] ops[i] is Release),
    ensures
        state_after(first, ops).prepared == first.prepared,
    decreases ops.len(),
{
    if ops.len() > 0 {
        let before = ops.drop_last();
        assert forall|i: int| 0 <= i < before.len() implies !(#[trigger] before[i] is Release) by {
            assert(before[i] == ops[i]);
        }
        law_pages_stay_while_displayed(first, before);
        assert(!(ops[ops.len() - 1] is Release));
    }
}

/// A page is prepared as one of its own kind, and every text, token, setting and list
/// of it is where the toolkit looks for it: texts in UTF-8, lists complete and in
/// their order, with their count in one byte.
pub proof fn law_page_is_prepared_as_it_is(page: NavPage, prepared: PreparedPage)
    requires
        call_ensures(prepare_page, (page,), prepared),
    ensures
        page matches NavPage::CenteredInfo { text1, text2, text3 } ==> {
            &&& prepared matches PreparedPage::CenteredInfo(s)
            &&& s.text1@ == encode_utf8(text1@)
            &&& s.text2@ == encode_utf8(text2@)
            &&& s.text3@ == encode_utf8(text3@)
        },
        page matches NavPage::ExtendedCenter {
            title,
            small_title,
            description,
            sub_text,
            tip_text,
        } ==> {
            &&& prepared matches PreparedPage::ExtendedCenter(s)
            &&& s.title@ == encode_utf8(title@)
            &&& s.small_title@ == encode_utf8(small_title@)
            &&& s.description@ == encode_utf8(description@)
            &&& s.sub_text@ == encode_utf8(sub_text@)
            &&& s.tip_text@ == encode_utf8(tip_text@)
        },
        page matches NavPage::InfoLongPress { text, long_press_text, long_press_token } ==> {
            &&& prepared matches PreparedPage::InfoLongPress(s)
            &&& s.text@ == encode_utf8(text@)
            &&& s.long_press_text@ == encode_utf8(long_press_text@)
            &&& s.long_press_token == long_press_token
        },
        page matches NavPage::InfoButton { text, button_text, button_token } ==> {
            &&& prepared matches PreparedPage::InfoButton(s)
            &&& s.text@ == encode_utf8(text@)
            &&& s.button_text@ == encode_utf8(button_text@)
            &&& s.button_token == button_token
        },
        page matches NavPage::TagValueList { pairs } ==> {
            &&& prepared matches PreparedPage::TagValueList(s)
            &&& s.pairs@.len() == pairs@.len()
            &&& s.nb_pairs as int == pairs@.len() as int % 256
            &&& forall|i: int|
                0 <= i < pairs@.len() ==> (#[trigger] s.pairs@[i]).item@ == encode_utf8(
                    pairs@[i].0@,
                ) && s.pairs@[i].value@ == encode_utf8(pairs@[i].1@)
        },
        page matches NavPage::TagValueDetails {
            pairs,
            details_button_text,
            details_button_token,
        } ==> {
            &&& prepared matches PreparedPage::TagValueDetails(s)
            &&& s.tag_value_list.pairs@.len() == pairs@.len()
            &&& s.tag_value_list.nb_pairs as int == pairs@.len() as int % 256
            &&& forall|i: int|
                0 <= i < pairs@.len() ==> (#[trigger] s.tag_value_list.pairs@[i]).item@ == encode_utf8(
                    pairs@[i].0@,
                ) && s.tag_value_list.pairs@[i].value@ == encode_utf8(pairs@[i].1@)
            &&& s.details_button_text@ == encode_utf8(details_button_text@)
            &&& s.details_button_token == details_button_token
        },
        page matches NavPage::TagValueConfirm {
            pairs,
            details_button_text,
            details_button_token,
            confirmation_text,
            cancel_text,
            confirmation_token,
            cancel_token,
        } ==> {
            &&& prepared matches PreparedPage::TagValueConfirm(s)
            &&& s.tag_value_list.pairs@.len() == pairs@.len()
            &&& s.tag_value_list.nb_pairs as int == pairs@.len() as int % 256
            &&& forall|i: int|
                0 <= i < pairs@.len() ==> (#[trigger] s.tag_value_list.pairs@[i]).item@ == encode_utf8(
                    pairs@[i].0@,
                ) && s.tag_value_list.pairs@[i].value@ == encode_utf8(pairs@[i].1@)
            &&& s.details_button_text@ == encode_utf8(details_button_text@)
            &&& s.confirmation_text@ == encode_utf8(confirmation_text@)
            &&& s.cancel_text@ == encode_utf8(cancel_text@)
            &&& s.details_button_token == details_button_token
            &&& s.confirmation_token == confirmation_token
            &&& s.cancel_token == cancel_token
        },
        page matches NavPage::SwitchesList { switches } ==> {
            &&& prepared matches PreparedPage::SwitchesList(s)
            &&& s.switches@.len() == switches@.len()
            &&& s.nb_switches as int == switches@.len() as int % 256
            &&& forall|i: int|
                0 <= i < switches@.len() ==> {
                    &&& (#[trigger] s.switches@[i]).text@ == encode_utf8(switches@[i].text@)
                    &&& s.switches@[i].sub_text@ == encode_utf8(switches@[i].sub_text@)
                    &&& s.switches@[i].init_state is On <==> switches@[i].init_on
                    &&& s.switches@[i].token == switches@[i].token
                }
        },
        page matches NavPage::InfosList { infos } ==> {
            &&& prepared matches PreparedPage::InfosList(s)
            &&& s.info_types@.len() == infos@.len()
            &&& s.info_contents@.len() == infos@.len()
            &&& s.nb_infos as int == infos@.len() as int % 256
            &&& forall|i: int|
                0 <= i < infos@.len() ==> (#[trigger] s.info_types@[i])@ == encode_utf8(infos@[i].0@)
            &&& forall|i: int|
                0 <= i < infos@.len() ==> (#[trigger] s.info_contents@[i])@ == encode_utf8(
                    infos@[i].1@,
                )
        },
        page matches NavPage::ChoicesList { choices, init_choice, token } ==> {
            &&& prepared matches PreparedPage::ChoicesList(s)
            &&& s.names@.len() == choices@.len()
            &&& s.nb_choices as int == choices@.len() as int % 256
            &&& forall|i: int|
                0 <= i < choices@.len() ==> (#[trigger] s.names@[i])@ == encode_utf8(choices@[i]@)
            &&& s.init_choice == init_choice
            &&& s.token == token
            &&& !s.localized
        },
        page matches NavPage::BarsList { bars } ==> {
            &&& prepared matches PreparedPage::BarsList(s)
            &&& s.bar_texts@.len() == bars@.len()
            &&& s.tokens@.len() == bars@.len()
            &&& s.nb_bars as int == bars@.len() as int % 256
            &&& forall|i: int|
                0 <= i < bars@.len() ==> (#[trigger] s.bar_texts@[i])@ == encode_utf8(bars@[i].text@)
            &&& forall|i: int| 0 <= i < bars@.len() ==> #[trigger] s.tokens@[i] == bars@[i].token
        },
{
}

/// The toolkit gets, for the number of a page on the screen, the page that was added at
/// that place: under its kind, with every text, token, setting and list that the caller
/// gave it.
pub proof fn law_toolkit_gets_what_the_caller_gave(
    nav: NbglNav,
    screen: NavScreen,
    number: u8,
    content: PageContent<'_>,
)
    requires
        call_ensures(NbglNav::show, (nav,), Some(screen)),
        call_ensures(NavScreen::nav_cb, (&screen, number), Some(content)),
    ensures
        number < nav.page_list().len(),
        nav.page_list()[number as int] matches NavPage::CenteredInfo { text1, text2, text3 } ==> {
            &&& *content.page matches PreparedPage::CenteredInfo(s)
            &&& s.text1@ == encode_utf8(text1@)
            &&& s.text2@ == encode_utf8(text2@)
            &&& s.text3@ == encode_utf8(text3@)
        },
        nav.page_list()[number as int] matches NavPage::ExtendedCenter {
            title,
            small_title,
            description,
            sub_text,
            tip_text,
        } ==> {
            &&& *content.page matches PreparedPage::ExtendedCenter(s)
            &&& s.title@ == encode_utf8(title@)
            &&& s.small_title@ == encode_utf8(small_title@)
            &&& s.description@ == encode_utf8(description@)
            &&& s.sub_text@ == encode_utf8(sub_text@)
            &&& s.tip_text@ == encode_utf8(tip_text@)
        },
        nav.page_list()[number as int] matches NavPage::InfoLongPress {
            text,
            long_press_text,
            long_press_token,
        } ==> {
            &&& *content.page matches PreparedPage::InfoLongPress(s)
            &&& s.text@ == encode_utf8(text@)
            &&& s.long_press_text@ == encode_utf8(long_press_text@)
            &&& s.long_press_token == long_press_token
        },
        nav.page_list()[number as int] matches NavPage::InfoButton {
            text,
            button_text,
            button_token,
        } ==> {
            &&& *content.page matches PreparedPage::InfoButton(s)
            &&& s.text@ == encode_utf8(text@)
            &&& s.button_text@ == encode_utf8(button_text@)
            &&& s.button_token == button_token
        },
        nav.page_list()[number as int] matches NavPage::TagValueList { pairs } ==> {
            &&& *content.page matches PreparedPage::TagValueList(s)
            &&& s.pairs@.len() == pairs@.len()
            &&& s.nb_pairs as int == pairs@.len() as int % 256
            &&& forall|i: int|
                0 <= i < pairs@.len() ==> (#[trigger] s.pairs@[i]).item@ == encode_utf8(
                    pairs@[i].0@,
                ) && s.pairs@[i].value@ == encode_utf8(pairs@[i].1@)
        },
        nav.page_list()[number as int] matches NavPage::TagValueDetails {
            pairs,
            details_button_text,
            details_button_token,
        } ==> {
            &&& *content.page matches PreparedPage::TagValueDetails(s)
            &&& s.tag_value_list.pairs@.len() == pairs@.len()
            &&& s.tag_value_list.nb_pairs as int == pairs@.len() as int % 256
            &&& forall|i: int|
                0 <= i < pairs@.len() ==> (#[trigger] s.tag_value_list.pairs@[i]).item@ == encode_utf8(
                    pairs@[i].0@,
                ) && s.tag_value_list.pairs@[i].value@ == encode_utf8(pairs@[i].1@)
            &&& s.details_button_text@ == encode_utf8(details_button_text@)
            &&& s.details_button_token == details_button_token
        },
        nav.page_list()[number as int] matches NavPage::TagValueConfirm {
            pairs,
            details_button_text,
            details_button_token,
            confirmation_text,
            cancel_text,
            confirmation_token,
            cancel_token,
        } ==> {
            &&& *content.page matches PreparedPage::TagValueConfirm(s)
            &&& s.tag_value_list.pairs@.len() == pairs@.len()
            &&& s.tag_value_list.nb_pairs as int == pairs@.len() as int % 256
            &&& forall|i: int|
                0 <= i < pairs@.len() ==> (#[trigger] s.tag_value_list.pairs@[i]).item@ == encode_utf8(
                    pairs@[i].0@,
                ) && s.tag_value_list.pairs@[i].value@ == encode_utf8(pairs@[i].1@)
            &&& s.details_button_text@ == encode_utf8(details_button_text@)
            &&& s.confirmation_text@ == encode_utf8(confirmation_text@)
            &&& s.cancel_text@ == encode_utf8(cancel_text@)
            &&& s.details_button_token == details_button_token
            &&& s.confirmation_token == confirmation_token
            &&& s.cancel_token == cancel_token
        },
        nav.page_list()[number as int] matches NavPage::SwitchesList { switches } ==> {
            &&& *content.page matches PreparedPage::SwitchesList(s)
            &&& s.switches@.len() == switches@.len()
            &&& s.nb_switches as int == switches@.len() as int % 256
            &&& forall|i: int|
                0 <= i < switches@.len() ==> {
                    &&& (#[trigger] s.switches@[i]).text@ == encode_utf8(switches@[i].text@)
                    &&& s.switches@[i].sub_text@ == encode_utf8(switches@[i].sub_text@)
                    &&& s.switches@[i].init_state is On <==> switches@[i].init_on
                    &&& s.switches@[i].token == switches@[i].token
                }
        },
        nav.page_list()[number as int] matches NavPage::InfosList { infos } ==> {
            &&& *content.page matches PreparedPage::InfosList(s)
            &&& s.info_types@.len() == infos@.len()
            &&& s.info_contents@.len() == infos@.len()
            &&& s.nb_infos as int == infos@.len() as int % 256
            &&& forall|i: int|
                0 <= i < infos@.len() ==> (#[trigger] s.info_types@[i])@ == encode_utf8(infos@[i].0@)
            &&& forall|i: int|
                0 <= i < infos@.len() ==> (#[trigger] s.info_contents@[i])@ == encode_utf8(
                    infos@[i].1@,
                )
        },
        nav.page_list()[number as int] matches NavPage::ChoicesList {
            choices,
            init_choice,
            token,
        } ==> {
            &&& *content.page matches PreparedPage::ChoicesList(s)
            &&& s.names@.len() == choices@.len()
            &&& s.nb_choices as int == choices@.len() as int % 256
            &&& forall|i: int|
                0 <= i < choices@.len() ==> (#[trigger] s.names@[i])@ == encode_utf8(choices@[i]@)
            &&& s.init_choice == init_choice
            &&& s.token == token
            &&& !s.localized
        },
        nav.page_list()[number as int] matches NavPage::BarsList { bars } ==> {
            &&& *content.page matches PreparedPage::BarsList(s)
            &&& s.bar_texts@.len() == bars@.len()
            &&& s.tokens@.len() == bars@.len()
            &&& s.nb_bars as int == bars@.len() as int % 256
            &&& forall|i: int|
                0 <= i < bars@.len() ==> (#[trigger] s.bar_texts@[i])@ == encode_utf8(bars@[i].text@)
            &&& forall|i: int| 0 <= i < bars@.len() ==> #[trigger] s.tokens@[i] == bars@[i].token
        },
        ({
            &&& content.type_ is CenteredInfo <==> nav.page_list()[number as int] is CenteredInfo
            &&& content.type_ is ExtendedCenter <==> nav.page_list()[number as int] is ExtendedCenter
            &&& content.type_ is InfoLongPress <==> nav.page_list()[number as int] is InfoLongPress
            &&& content.type_ is InfoButton <==> nav.page_list()[number as int] is InfoButton
            &&& content.type_ is TagValueList <==> nav.page_list()[number as int] is TagValueList
            &&& content.type_ is TagValueDetails <==> nav.page_list()[number as int] is TagValueDetails
            &&& content.type_ is TagValueConfirm <==> nav.page_list()[number as int] is TagValueConfirm
            &&& content.type_ is SwitchesList <==> nav.page_list()[number as int] is SwitchesList
            &&& content.type_ is InfosList <==> nav.page_list()[number as int] is InfosList
            &&& content.type_ is ChoicesList <==> nav.page_list()[number as int] is ChoicesList
            &&& content.type_ is BarsList <==> nav.page_list()[number as int] is BarsList
        }),
{
    assert(screen.prepared()->0[number as int].shows(nav.page_list()[number as int]));
}

/// Every page that was added can be asked for, and nothing else: there is an answer
/// exactly for the numbers below the number of pages.
pub proof fn law_every_page_is_answered(
    nav: NbglNav,
    screen: NavScreen,
    number: u8,
    answer: Option<PageContent<'_>>,
)
    requires
        call_ensures(NbglNav::show, (nav,), Some(screen)),
        call_ensures(NavScreen::nav_cb, (&screen, number), answer),
    ensures
        answer is Some <==> number < nav.page_list().len(),
        answer is Some || number != FIRST_PAGE,
        FIRST_PAGE == 0,
{
}

/// There is a screen exactly where there are pages. It has the title, is told of all
/// pages where they are at most 255, and stays on display.
pub proof fn law_navigable_screen_opens_with_all_pages(
    nav: NbglNav,
    shown: Option<NavScreen>,
    title: &CText,
    nb_pages: u8,
)
    requires
        call_ensures(NbglNav::show, (nav,), shown),
        shown matches Some(screen) ==> {
            &&& call_ensures(NavScreen::title, (&screen,), title)
            &&& call_ensures(NavScreen::nb_pages, (&screen,), nb_pages)
        },
    ensures
        shown is None <==> nav.page_list().len() == 0,
        shown matches Some(screen) ==> {
            &&& title@ == nav.title_bytes() && screen.title_bytes() == nav.title_bytes()
            &&& nb_pages == screen.page_count()
            &&& nb_pages as int == nav.page_list().len() as int % 256
            &&& nav.page_list().len() <= 255 ==> nb_pages == nav.page_list().len()
            &&& screen.prepared() matches Some(prepared) && prepared.len() == nav.page_list().len()
            &&& !screen.is_done()
        },
{
}

/// A screen starts with its title and no pages, and each page goes behind those that are there.
pub proof fn law_pages_come_in_the_order_of_adding(
    title: &str,
    started: NbglNav,
    nav: NbglNav,
    page: NavPage,
    added: NbglNav,
)
    requires
        call_ensures(NbglNav::new, (title,), started),
        call_ensures(NbglNav::page, (nav, page), added),
    ensures
        started.title_bytes() == encode_utf8(title@),
        started.page_list().len() == 0,
        added.title_bytes() == nav.title_bytes(),
        added.page_list().len() == nav.page_list().len() + 1,
        added.page_list().last() == page,
        added.page_list().drop_last() == nav.page_list(),
{
}

/// A list of pairs is prepared pair by pair, in its order, with its count in one byte.
pub proof fn law_pairs_are_prepared_in_order(pairs: Vec<(String, String)>, s: TagValueListStore)
    requires
        call_ensures(build_tag_value_pairs, (pairs,), s),
    ensures
        s.pairs@.len() == pairs@.len(),
        s.nb_pairs as int == pairs@.len() as int % 256,
        forall|i: int|
            0 <= i < pairs@.len() ==> (#[trigger] s.pairs@[i]).item@ == encode_utf8(
                pairs@[i].0@,
            ) && s.pairs@[i].value@ == encode_utf8(pairs@[i].1@),
{
}

/// A page can be handed to C code exactly where no text on it holds a NUL character.
pub proof fn law_page_can_be_shown_without_nul(page: NavPage, asked: bool)
    requires
        call_ensures(NavPage::is_nul_free, (&page,), asked),
    ensures
        asked == match page {
            NavPage::CenteredInfo { text1, text2, text3 } => {
                &&& !text1@.contains('\0')
                &&& !text2@.contains('\0')
                &&& !text3@.contains('\0')
            },
            NavPage::ExtendedCenter { title, small_title, description, sub_text, tip_text } => {
                &&& !title@.contains('\0')
                &&& !small_title@.contains('\0')
                &&& !description@.contains('\0')
                &&& !sub_text@.contains('\0')
                &&& !tip_text@.contains('\0')
            },
            NavPage::InfoLongPress { text, long_press_text, .. } => {
                &&& !text@.contains('\0')
                &&& !long_press_text@.contains('\0')
            },
            NavPage::InfoButton { text, button_text, .. } => {
                &&& !text@.contains('\0')
                &&& !button_text@.contains('\0')
            },
            NavPage::TagValueList { pairs } => forall|i: int|
                0 <= i < pairs@.len() ==> !(#[trigger] pairs@[i]).0@.contains('\0')
                    && !pairs@[i].1@.contains('\0'),
            NavPage::TagValueDetails { pairs, details_button_text, .. } => {
                &&& forall|i: int|
                    0 <= i < pairs@.len() ==> !(#[trigger] pairs@[i]).0@.contains('\0')
                        && !pairs@[i].1@.contains('\0')
                &&& !details_button_text@.contains('\0')
            },
            NavPage::TagValueConfirm {
                pairs,
                details_button_text,
                confirmation_text,
                cancel_text,
                ..
            } => {
                &&& forall|i: int|
                    0 <= i < pairs@.len() ==> !(#[trigger] pairs@[i]).0@.contains('\0')
                        && !pairs@[i].1@.contains('\0')
                &&& !details_button_text@.contains('\0')
                &&& !confirmation_text@.contains('\0')
                &&& !cancel_text@.contains('\0')
            },
            NavPage::SwitchesList { switches } => forall|i: int|
                0 <= i < switches@.len() ==> !(#[trigger] switches@[i]).text@.contains('\0')
                    && !switches@[i].sub_text@.contains('\0'),
            NavPage::InfosList { infos } => forall|i: int|
                0 <= i < infos@.len() ==> !(#[trigger] infos@[i]).0@.contains('\0')
                    && !infos@[i].1@.contains('\0'),
            NavPage::ChoicesList { choices, .. } => forall|i: int|
                0 <= i < choices@.len() ==> !(#[trigger] choices@[i])@.contains('\0'),
            NavPage::BarsList { bars } => forall|i: int|
                0 <= i < bars@.len() ==> !(#[trigger] bars@[i]).text@.contains('\0'),
        },
{
}

/// All pages can be handed to C code exactly where each of them can.
pub proof fn law_pages_can_be_shown_without_nul(nav: NbglNav, asked: bool, i: int, page_asked: bool)
    requires
        call_ensures(NbglNav::is_nul_free, (&nav,), asked),
        0 <= i < nav.page_list().len(),
        call_ensures(NavPage::is_nul_free, (&nav.page_list()[i],), page_asked),
    ensures
        asked ==> page_asked,
        page_asked && (forall|j: int|
            0 <= j < nav.page_list().len() && j != i ==> (
            #[trigger] nav.page_list()[j]).nul_free()) ==> asked,
{
}

/// While pages are held, the toolkit gets for a number the page at that place, under
/// its kind; it gets nothing for other numbers, nor once the pages are released.
pub proof fn law_answer_is_the_held_page(
    screen: NavScreen,
    number: u8,
    answer: Option<PageContent<'_>>,
)
    requires
        call_ensures(NavScreen::nav_cb, (&screen, number), answer),
    ensures
        answer is Some <==> (screen.prepared() matches Some(prepared) && number < prepared.len()),
        answer matches Some(content) ==> *content.page == screen.prepared()->0[number as int],
{
}

/// Backing out is kept in mind, and changes nothing else: the next poll leaves the
/// screen and releases the pages.
pub proof fn law_backing_out_leaves_the_screen(screen: &mut NavScreen)
    requires
        call_ensures(NavScreen::quit_cb, (screen,), ()),
    ensures
        final(screen).is_done(),
        final(screen).prepared() == old(screen).prepared(),
        final(screen).title_bytes() == old(screen).title_bytes(),
        final(screen).page_count() == old(screen).page_count(),
{
}

/// No control changes anything.
pub proof fn law_controls_change_nothing(screen: &mut NavScreen, token: i32, index: u8)
    requires
        call_ensures(NavScreen::controls_cb, (screen, token, index), ()),
    ensures
        *final(screen) == *old(screen),
{
}

/// Releasing the pages drops them, and changes nothing else.
pub proof fn law_release_drops_the_pages(screen: &mut NavScreen)
    requires
        call_ensures(NavScreen::release, (screen,), ()),
    ensures
        final(screen).prepared() is None,
        final(screen).is_done() == old(screen).is_done(),
        final(screen).title_bytes() == old(screen).title_bytes(),
        final(screen).page_count() == old(screen).page_count(),
{
}

/// A poll leaves the screen exactly where the user has backed out. It releases the
/// pages then, and otherwise keeps them.
pub proof fn law_poll_leaves_once_backed_out(screen: &mut NavScreen, turn: Turn<()>)
    requires
        call_ensures(NavScreen::poll, (screen,), turn),
    ensures
        turn is Finish <==> old(screen).is_done(),
        turn is Receive <==> !old(screen).is_done(),
        turn is Finish ==> final(screen).prepared() is None,
        turn is Receive ==> final(screen).prepared() == old(screen).prepared(),
        final(screen).is_done() == old(screen).is_done(),
        final(screen).title_bytes() == old(screen).title_bytes(),
        final(screen).page_count() == old(screen).page_count(),
{
}

/// A packet leaves the screen exactly on a failed reception, which releases the pages.
/// A touch or a tick goes to the user interface exactly where a packet of one of the
/// two types came with its tag, and the pages stay.
pub proof fn law_screen_waits_through_packets(
    screen: &mut NavScreen,
    codes: SephCodes,
    status: i32,
    buf: [u8; RX_BUFFER_SIZE],
    turn: Turn<()>,
)
    requires
        call_ensures(NavScreen::received, (screen, &codes, status, &buf), turn),
    ensures
        ({
            let of_ui = status > 0 && (buf@[0] == codes.packet_seph || buf@[0]
                == codes.packet_se_evt);
            &&& turn is Finish <==> status < 0
            &&& turn is Finger <==> of_ui && buf@[1] == codes.tag_finger
            &&& turn is Ticker <==> of_ui && buf@[1] == codes.tag_ticker && buf@[1]
                != codes.tag_finger
        }),
        status < 0 ==> final(screen).prepared() is None,
        status >= 0 ==> final(screen).prepared() == old(screen).prepared(),
        final(screen).is_done() == old(screen).is_done(),
        final(screen).title_bytes() == old(screen).title_bytes(),
        final(screen).page_count() == old(screen).page_count(),
{
}

/// A failed reception leaves the screen at any time, and so does a poll after the user
/// has backed out.
pub proof fn law_screen_is_left_once_backed_out_or_failed(first: NavState, ops: Seq<NavOp>)
    requires
        !first.done,
    ensures
        forall|i: int|
            0 <= i < ops.len() && #[trigger] ops[i] == NavOp::Received(Incoming::Failed) ==> is_left(
                first,
                ops,
            ),
        forall|i: int, j: int|
            0 <= i < j < ops.len() && #[trigger] ops[i] is Quit && #[trigger] ops[j] is Poll
                ==> is_left(first, ops),
    decreases ops.len(),
{
    if ops.len() > 0 {
        let before = ops.drop_last();
        let n = ops.len() - 1;
        law_screen_is_left_once_backed_out_or_failed(first, before);
        law_screen_stays_until_the_user_backs_out(first, before);
        assert forall|i: int|
            0 <= i < ops.len() && #[trigger] ops[i] == NavOp::Received(
                Incoming::Failed,
            ) implies is_left(first, ops) by {
            if i < n {
                assert(before[i] == ops[i]);
            }
        }
        assert forall|i: int, j: int|
            0 <= i < j < ops.len() && #[trigger] ops[i] is Quit
                && #[trigger] ops[j] is Poll implies is_left(first, ops) by {
            assert(before[i] == ops[i]);
            if j < n {
                assert(before[j] == ops[j]);
            }
        }
    }
}

} // verus!
