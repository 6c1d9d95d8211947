//! A blank screen with labels and buttons placed at absolute pixel positions.
//!
//! [`Canvas::show`] turns the items into the drawing objects of the device and
//! hands out a [`CanvasScreen`], which takes the touches and says when the screen
//! is left and with which button's token.

use vstd::prelude::*;
use vstd::utf8::encode_utf8;

use crate::c_text::{is_nul_free, nul_free, CText};
use crate::counts::{count_u16, count_u8};
use crate::seph::{after, classify, incoming, turn_after, SephCodes, Turn, RX_BUFFER_SIZE};

verus! {

/// The layer of the screen stack that all objects are put on.
pub const LAYER: u8 = 0;

/// Visual style of a [`Item::Button`].
#[derive(Copy, Clone, PartialEq, Eq, Structural, Debug)]
pub enum ButtonStyle {
    /// White inside, light-gray border, black text.
    Light,
    /// Black inside, black border, white text.
    Dark,
    /// White inside, no visible border, black text.
    NoBorder,
}

/// One placeable element on the canvas.
#[derive(Debug)]
pub enum Item {
    /// Read-only label, in the regular 24px font.
    Text { x: i16, y: i16, w: u16, h: u16, text: String },
    /// Tappable rounded button. The token is reported back once it is tapped.
    Button { x: i16, y: i16, w: u16, h: u16, text: String, token: u8, style: ButtonStyle },
}

/// The items of a screen, in drawing order.
#[derive(Debug)]
pub struct Canvas {
    items: Vec<Item>,
}

/// A colour that the objects are drawn in.
#[derive(Copy, Clone, PartialEq, Eq, Structural, Debug)]
pub enum Color {
    White,
    LightGray,
    Black,
}

/// Depth of an object's area.
#[derive(Copy, Clone, PartialEq, Eq, Structural, Debug)]
pub enum Bpp {
    /// Four bits per pixel.
    Four,
}

/// Where an object, or the text in it, is aligned.
#[derive(Copy, Clone, PartialEq, Eq, Structural, Debug)]
pub enum Alignment {
    TopLeft,
    Center,
}

/// Kind of a drawing object.
#[derive(Copy, Clone, PartialEq, Eq, Structural, Debug)]
pub enum ObjType {
    TextArea,
    Button,
}

/// Decoration of a text area.
#[derive(Copy, Clone, PartialEq, Eq, Structural, Debug)]
pub enum TextStyle {
    NoStyle,
}

/// Rounding of a button's corners.
#[derive(Copy, Clone, PartialEq, Eq, Structural, Debug)]
pub enum Radius {
    /// 32 pixels.
    Px32,
}

/// Font of a text.
#[derive(Copy, Clone, PartialEq, Eq, Structural, Debug)]
pub enum Font {
    InterRegular24,
    InterSemibold24,
}

/// The area of an object, relative to where it is aligned.
#[derive(Copy, Clone, PartialEq, Eq, Structural, Debug)]
pub struct Area {
    pub x0: i16,
    pub y0: i16,
    pub width: u16,
    pub height: u16,
    pub background_color: Color,
    pub bpp: Bpp,
}

/// What every drawing object has. The object has no parent of its own and is
/// aligned to the screen.
#[derive(Copy, Clone, PartialEq, Eq, Structural, Debug)]
pub struct BaseObj {
    pub area: Area,
    pub type_: ObjType,
    pub alignment: Alignment,
    pub alignment_margin_x: i16,
    pub alignment_margin_y: i16,
    /// Bit `n` is set where the object reacts to the touch event of number `n`.
    pub touch_mask: u16,
    pub touch_id: u8,
    pub obj_id: u8,
}

/// A label, ready to be drawn.
#[derive(Debug)]
pub struct TextAreaObj {
    pub obj: BaseObj,
    pub text_color: Color,
    pub text_alignment: Alignment,
    pub style: TextStyle,
    pub font: Font,
    pub auto_hide_long_line: bool,
    pub nb_max_lines: u8,
    pub text: CText,
    /// Length of the text in bytes, modulo 2^16.
    pub len: u16,
    pub token: u8,
    pub obfuscated: bool,
}

/// A button, ready to be drawn. It has no icon.
#[derive(Debug)]
pub struct ButtonObj {
    pub obj: BaseObj,
    pub text: CText,
    pub inner_color: Color,
    pub border_color: Color,
    pub foreground_color: Color,
    pub radius: Radius,
    pub font: Font,
    pub localized: bool,
    pub token: u8,
}

/// A drawing object.
#[derive(Debug)]
pub enum CanvasObj {
    TextArea(TextAreaObj),
    Button(ButtonObj),
}

impl View for Canvas {
    type V = Seq<Item>;

    closed spec fn view(&self) -> Seq<Item> {
        self.items@
    }
}

impl Item {
    /// The text of the item.
    pub open spec fn label(self) -> Seq<char> {
        match self {
            Item::Text { text, .. } => text@,
            Item::Button { text, .. } => text@,
        }
    }
}

/// No item's text holds a NUL character.
pub open spec fn all_nul_free(items: Seq<Item>) -> bool {
    forall|i: int| 0 <= i < items.len() ==> nul_free(#[trigger] items[i].label())
}

impl Canvas {
    /// A canvas without items.
    pub fn new() -> (r: Self)
        ensures
            r@ == Seq::<Item>::empty(),
    {
        Self { items: Vec::new() }
    }

    /// Adds a label.
    pub fn text<T: Into<String>>(self, x: i16, y: i16, w: u16, h: u16, text: T) -> (r: Self)
        ensures
            exists|s: String|
                {
                    &&& #[trigger] call_ensures(T::into, (text,), s)
                    &&& r@ == self@.push((Item::Text { x, y, w, h, text: s }))
                },
    {
        let mut this = self;
        let text: String = text.into();
        this.items.push(Item::Text { x, y, w, h, text });
        this
    }

    /// Adds a button.
    pub fn button<T: Into<String>>(
        self,
        x: i16,
        y: i16,
        w: u16,
        h: u16,
        text: T,
        token: u8,
        style: ButtonStyle,
    ) -> (r: Self)
        ensures
            exists|s: String|
                {
                    &&& #[trigger] call_ensures(T::into, (text,), s)
                    &&& r@ == self@.push((Item::Button { x, y, w, h, text: s, token, style }))
                },
    {
        let mut this = self;
        let text: String = text.into();
        this.items.push(Item::Button { x, y, w, h, text, token, style });
        this
    }
}

impl Default for Canvas {
    fn default() -> (r: Self)
        ensures
            r@ == Seq::<Item>::empty(),
    {
        Self::new()
    }
}

/// The colours of a button: inside, border and text.
pub open spec fn colors_of(style: ButtonStyle) -> (Color, Color, Color) {
    match style {
        ButtonStyle::Light => (Color::White, Color::LightGray, Color::Black),
        ButtonStyle::Dark => (Color::Black, Color::Black, Color::White),
        ButtonStyle::NoBorder => (Color::White, Color::White, Color::Black),
    }
}

impl BaseObj {
    /// The object stands with its top left corner at `(x, y)` of the screen, on white.
    pub open spec fn stands_at(self, x: i16, y: i16, w: u16, h: u16) -> bool {
        &&& self.area.x0 == 0 && self.area.y0 == 0
        &&& self.area.width == w && self.area.height == h
        &&& self.area.background_color == Color::White
        &&& self.area.bpp == Bpp::Four
        &&& self.alignment == Alignment::TopLeft
        &&& self.alignment_margin_x == x && self.alignment_margin_y == y
        &&& self.touch_id == 0
    }

    /// The object reacts to the touch event of number `event`.
    pub open spec fn reacts_to(self, event: u32) -> bool {
        self.touch_mask & (1u16 << event) != 0
    }
}

impl CanvasObj {
    /// The part that all objects have.
    pub open spec fn base(self) -> BaseObj {
        match self {
            CanvasObj::TextArea(t) => t.obj,
            CanvasObj::Button(b) => b.obj,
        }
    }

    /// The object shows `item`; `touched` is the number of the event of a touch.
    pub open spec fn shows(self, item: Item, touched: u32) -> bool {
        match item {
            Item::Text { x, y, w, h, text } => {
                &&& self matches CanvasObj::TextArea(t)
                &&& t.obj.stands_at(x, y, w, h)
                &&& t.obj.type_ == ObjType::TextArea
                &&& t.obj.touch_mask == 0 && t.obj.obj_id == 0
                &&& t.text_color == Color::Black && t.text_alignment == Alignment::Center
                &&& t.style == TextStyle::NoStyle && t.font == Font::InterRegular24
                &&& !t.auto_hide_long_line && t.nb_max_lines == 1
                &&& t.text.holds(text@)
                &&& t.len == t.text@.len() % 65536
                &&& t.token == 0 && !t.obfuscated
            },
            Item::Button { x, y, w, h, text, token, style } => {
                &&& self matches CanvasObj::Button(b)
                &&& b.obj.stands_at(x, y, w, h)
                &&& b.obj.type_ == ObjType::Button
                &&& b.obj.touch_mask == 1u16 << touched && b.obj.obj_id == token
                &&& b.text.holds(text@)
                &&& (b.inner_color, b.border_color, b.foreground_color) == colors_of(style)
                &&& b.radius == Radius::Px32 && b.font == Font::InterSemibold24
                &&& !b.localized
                &&& b.token == token
            },
        }
    }
}

/// Fills in what every object has. The position goes into the margins: an object
/// that is aligned to the top left of the screen is moved by them, whereas one
/// without alignment would be stacked by the screen's own layout.
pub fn base_obj(
    x0: i16,
    y0: i16,
    width: u16,
    height: u16,
    type_: ObjType,
    touch_mask: u16,
    obj_id: u8,
) -> (r: BaseObj)
    ensures
        r.stands_at(x0, y0, width, height),
        r.type_ == type_,
        r.touch_mask == touch_mask,
        r.obj_id == obj_id,
{
    BaseObj {
        area: Area { x0: 0, y0: 0, width, height, background_color: Color::White, bpp: Bpp::Four },
        type_,
        alignment: Alignment::TopLeft,
        alignment_margin_x: x0,
        alignment_margin_y: y0,
        touch_mask,
        touch_id: 0,
        obj_id,
    }
}

/// The colours of a button: inside, border and text.
pub fn button_colors(style: ButtonStyle) -> (r: (Color, Color, Color))
    ensures
        r == colors_of(style),
{
    match style {
        ButtonStyle::Light => (Color::White, Color::LightGray, Color::Black),
        ButtonStyle::Dark => (Color::Black, Color::Black, Color::White),
        ButtonStyle::NoBorder => (Color::White, Color::White, Color::Black),
    }
}

/// Builds the drawing object of one item.
pub fn place(item: &Item, touched: u32) -> (r: CanvasObj)
    requires
        nul_free(item.label()),
        touched < 16,
    ensures
        r.shows(*item, touched),
{
    match item {
        Item::Text { x, y, w, h, text } => {
            let text: CText = CText::new(text.as_str()).unwrap();
            let len: u16 = count_u16(text.len());
            CanvasObj::TextArea(
                TextAreaObj {
                    obj: base_obj(*x, *y, *w, *h, ObjType::TextArea, 0, 0),
                    text_color: Color::Black,
                    text_alignment: Alignment::Center,
                    style: TextStyle::NoStyle,
                    font: Font::InterRegular24,
                    auto_hide_long_line: false,
                    nb_max_lines: 1,
                    text,
                    len,
                    token: 0,
                    obfuscated: false,
                },
            )
        },
        Item::Button { x, y, w, h, text, token, style } => {
            let (inner_color, border_color, foreground_color) = button_colors(*style);
            let text: CText = CText::new(text.as_str()).unwrap();
            CanvasObj::Button(
                ButtonObj {
                    obj: base_obj(*x, *y, *w, *h, ObjType::Button, 1u16 << touched, *token),
                    text,
                    inner_color,
                    border_color,
                    foreground_color,
                    radius: Radius::Px32,
                    font: Font::InterSemibold24,
                    localized: false,
                    token: *token,
                },
            )
        },
    }
}

/// A canvas on the screen, waiting for a tap.
#[derive(Debug)]
pub struct CanvasScreen {
    objects: Vec<CanvasObj>,
    nb_items: u8,
    touched: u32,
    tapped: Option<u8>,
}

impl CanvasScreen {
    /// The drawing objects, in drawing order.
    pub closed spec fn objs(self) -> Seq<CanvasObj> {
        self.objects@
    }

    /// How many children the screen is installed with.
    pub closed spec fn child_count(self) -> u8 {
        self.nb_items
    }

    /// The number of the event of a touch.
    pub closed spec fn touch_event(self) -> u32 {
        self.touched
    }

    /// The token of the button tapped last, if any was.
    pub closed spec fn tap(self) -> Option<u8> {
        self.tapped
    }

    /// The objects show the items, one each, in their order.
    pub open spec fn shows_all(self, items: Seq<Item>) -> bool {
        &&& self.objs().len() == items.len()
        &&& forall|i: int|
            0 <= i < items.len() ==> (#[trigger] self.objs()[i]).shows(items[i], self.touch_event())
    }
}

impl Canvas {
    /// Tells whether every text on the canvas can be handed to C code.
    pub fn is_nul_free(&self) -> (r: bool)
        ensures
            r == all_nul_free(self@),
    {
        let mut i: usize = 0;
        while i < self.items.len()
            invariant
                i <= self@.len(),
                self@ == self.items@,
                all_nul_free(self@.take(i as int)),
            decreases self.items@.len() - i,
        {
            let text: &String = match &self.items[i] {
                Item::Text { text, .. } => text,
                Item::Button { text, .. } => text,
            };
            if !is_nul_free(text.as_str()) {
                assert(!nul_free(self@[i as int].label()));
                return false;
            }
            proof {
                let upto = self@.take(i + 1);
                assert forall|j: int| 0 <= j < upto.len() implies nul_free(
                    #[trigger] upto[j].label(),
                ) by {
                    if j < i {
                        assert(upto[j] == self@.take(i as int)[j]);
                    }
                }
            }
            i = i + 1;
        }
        assert(self@.take(i as int) == self@);
        true
    }

    /// Lays the items out for the screen and waits for a tap; there is no screen
    /// for a canvas without items. `touched` is the number of the event of a touch.
    pub fn show(self, touched: u32) -> (r: Option<CanvasScreen>)
        requires
            all_nul_free(self@),
            touched < 16,
        ensures
            r is None <==> self@.len() == 0,
            r matches Some(screen) ==> {
                &&& screen.touch_event() == touched
                &&& screen.shows_all(self@)
                &&& screen.child_count() == self@.len() % 256
                &&& screen.tap() is None
                &&& screen.touched_by(Seq::empty())
            },
    {
        if self.items.is_empty() {
            return None;
        }
        let mut objects: Vec<CanvasObj> = Vec::new();
        let mut i: usize = 0;
        while i < self.items.len()
            invariant
                i <= self@.len(),
                self@ == self.items@,
                all_nul_free(self@),
                touched < 16,
                objects@.len() == i,
                forall|j: int| 0 <= j < i ==> (#[trigger] objects@[j]).shows(self@[j], touched),
            decreases self.items@.len() - i,
        {
            proof {
                assert(nul_free(self@[i as int].label()));
            }
            objects.push(place(&self.items[i], touched));
            i = i + 1;
        }
        Some(CanvasScreen { objects, nb_items: count_u8(self.items.len()), touched, tapped: None })
    }
}

/// The touch is a tap: the event is that of a touch, and it is on an object.
pub open spec fn counts(touched: u32, touch: (Option<u8>, u32)) -> bool {
    touch.1 == touched && touch.0 is Some
}

/// The token of the last tap among these touches.
pub open spec fn last_tap(touched: u32, touches: Seq<(Option<u8>, u32)>) -> Option<u8>
    decreases touches.len(),
{
    if touches.len() == 0 {
        None
    } else if counts(touched, touches.last()) {
        touches.last().0
    } else {
        last_tap(touched, touches.drop_last())
    }
}

impl CanvasScreen {
    /// Every field but the tap is as in `before`.
    pub open spec fn same_screen(self, before: CanvasScreen) -> bool {
        &&& self.objs() == before.objs()
        &&& self.child_count() == before.child_count()
        &&& self.touch_event() == before.touch_event()
    }

    /// A button with this token is on the screen.
    pub open spec fn has_button(self, token: u8) -> bool {
        exists|i: int|
            {
                &&& 0 <= i < self.objs().len()
                &&& #[trigger] self.objs()[i] matches CanvasObj::Button(b)
                &&& b.token == token
            }
    }

    /// The tap is what these touches, since the screen is shown, have come to.
    pub open spec fn touched_by(self, touches: Seq<(Option<u8>, u32)>) -> bool {
        self.tap() == last_tap(self.touch_event(), touches)
    }

    /// The drawing objects, in drawing order.
    pub fn objects(&self) -> (r: &Vec<CanvasObj>)
        ensures
            r@ == self.objs(),
    {
        &self.objects
    }

    /// How many children the screen is installed with.
    pub fn nb_items(&self) -> (r: u8)
        ensures
            r == self.child_count(),
    {
        self.nb_items
    }

    /// Takes a touch event on the object with this token, or on no object. Only
    /// buttons ask for such events, so that the token is a button's.
    pub fn touch_cb(&mut self, token: Option<u8>, event: u32)
        ensures
            final(self).same_screen(*old(self)),
            final(self).tap() == if counts(old(self).touch_event(), (token, event)) {
                token
            } else {
                old(self).tap()
            },
            forall|touches: Seq<(Option<u8>, u32)>| #[trigger]
                old(self).touched_by(touches) ==> final(self).touched_by(
                    touches.push((token, event)),
                ),
    {
        proof {
            assert forall|touches: Seq<(Option<u8>, u32)>| #[trigger]
                touches.push((token, event)).drop_last() == touches by {}
        }
        if event != self.touched || token.is_none() {
            return;
        }
        self.tapped = token;
    }

    /// The turn before a packet is awaited: the screen is left once a button is tapped.
    pub fn poll(&self) -> (r: Turn<Option<u8>>)
        ensures
            self.tap() is Some ==> r == Turn::Finish(self.tap()),
            self.tap() is None ==> r == Turn::<Option<u8>>::Receive,
    {
        if self.tapped.is_some() {
            Turn::Finish(self.tapped)
        } else {
            Turn::Receive
        }
    }

    /// The turn for a received packet: a failed reception leaves the screen without a token.
    pub fn received(&self, codes: &SephCodes, status: i32, buf: &[u8; RX_BUFFER_SIZE]) -> (r: Turn<
        Option<u8>,
    >)
        ensures
            r == turn_after(incoming(*codes, status, buf@[0], buf@[1]), None::<u8>),
    {
        after(classify(codes, status, buf), None)
    }
}

/// Exactly the buttons react to a touch, each with its own token.
pub proof fn law_buttons_react(screen: CanvasScreen, items: Seq<Item>, i: int)
    requires
        screen.shows_all(items),
        screen.touch_event() < 16,
        0 <= i < items.len(),
    ensures
        screen.objs()[i].base().reacts_to(screen.touch_event()) <==> items[i] is Button,
        items[i] matches Item::Button { token, .. } ==> {
            &&& screen.objs()[i] matches CanvasObj::Button(b)
            &&& b.token == token && b.obj.obj_id == token
            &&& screen.has_button(token)
        },
{
    let t = screen.touch_event();
    assert(screen.objs()[i].shows(items[i], t));
    assert((1u16 << t) & (1u16 << t) != 0) by (bit_vector)
        requires
            t < 16,
    ;
    assert(0u16 & (1u16 << t) == 0) by (bit_vector);
}

/// Every object stands where its item was placed, at its size.
pub proof fn law_objects_stand_where_placed(screen: CanvasScreen, items: Seq<Item>, i: int)
    requires
        screen.shows_all(items),
        0 <= i < items.len(),
    ensures
        match items[i] {
            Item::Text { x, y, w, h, .. } => screen.objs()[i].base().stands_at(x, y, w, h),
            Item::Button { x, y, w, h, .. } => screen.objs()[i].base().stands_at(x, y, w, h),
        },
{
    assert(screen.objs()[i].shows(items[i], screen.touch_event()));
}

/// Every touch event on an object is a tap, whatever its token, and nothing else is:
/// the tap is that of the last such event, and there is none where there was no such event.
pub proof fn law_last_touch_counts(touched: u32, touches: Seq<(Option<u8>, u32)>)
    ensures
        last_tap(touched, touches) is None <==> forall|i: int|
            0 <= i < touches.len() ==> !((#[trigger] touches[i]).1 == touched
                && touches[i].0 is Some),
        last_tap(touched, touches) is Some ==> exists|i: int|
            {
                &&& 0 <= i < touches.len()
                &&& (#[trigger] touches[i]).1 == touched
                &&& touches[i].0 is Some
                &&& touches[i].0 == last_tap(touched, touches)
                &&& forall|j: int|
                    i < j < touches.len() ==> !((#[trigger] touches[j]).1 == touched
                        && touches[j].0 is Some)
            },
    decreases touches.len(),
{
    if touches.len() > 0 {
        let before = touches.drop_last();
        law_last_touch_counts(touched, before);
        let n = touches.len() - 1;
        if touches[n].1 == touched && touches[n].0 is Some {
            assert(touches[n].0 == last_tap(touched, touches));
        } else if last_tap(touched, before) is Some {
            let i = choose|i: int|
                {
                    &&& 0 <= i < before.len()
                    &&& (#[trigger] before[i]).1 == touched
                    &&& before[i].0 is Some
                    &&& before[i].0 == last_tap(touched, before)
                    &&& forall|j: int|
                        i < j < before.len() ==> !((#[trigger] before[j]).1 == touched
                            && before[j].0 is Some)
                };
            assert(touches[i] == before[i]);
            assert forall|j: int| i < j < touches.len() implies !((#[trigger] touches[j]).1
                == touched && touches[j].0 is Some) by {
                if j < n {
                    assert(touches[j] == before[j]);
                }
            }
        } else {
            assert forall|j: int| 0 <= j < touches.len() implies !((#[trigger] touches[j]).1
                == touched && touches[j].0 is Some) by {
                if j < n {
                    assert(touches[j] == before[j]);
                }
            }
        }
    }
}

/// A screen whose taps are all on its own buttons reports one of them.
pub proof fn law_tap_reports_own_button(screen: CanvasScreen, touches: Seq<(Option<u8>, u32)>)
    requires
        screen.touched_by(touches),
        forall|i: int|
            0 <= i < touches.len() && (#[trigger] touches[i]).1 == screen.touch_event()
                && touches[i].0 is Some ==> screen.has_button(touches[i].0->0),
    ensures
        screen.tap() matches Some(token) ==> screen.has_button(token),
{
    law_last_touch_counts(screen.touch_event(), touches);
}

/// With at most 255 items the screen is installed with as many children as there are items.
pub proof fn law_all_items_fit(screen: CanvasScreen, items: Seq<Item>)
    requires
        screen.child_count() == items.len() % 256,
        items.len() <= 255,
    ensures
        screen.child_count() == items.len(),
{
}

/// Bit `e` of the mask for the event `touched` is set exactly where they are the same event.
proof fn lemma_mask_has_one_bit(touched: u32)
    requires
        touched < 16,
    ensures
        forall|e: u32| e < 16 ==> (#[trigger] ((1u16 << touched) & (1u16 << e)) != 0 <==> e == touched),
{
    assert forall|e: u32| e < 16 implies (#[trigger] ((1u16 << touched) & (1u16 << e)) != 0 <==> e
        == touched) by {
        assert(((1u16 << touched) & (1u16 << e)) != 0 <==> e == touched) by (bit_vector)
            requires
                touched < 16,
                e < 16,
        ;
    }
}

/// A label is drawn as a black line of text, and a button in the colours of its own
/// style, each with its text, at its position and in its size. A button reacts to the
/// touch event and to no other, and a label to none.
pub proof fn law_item_is_drawn_as_it_is(item: Item, touched: u32, drawn: CanvasObj)
    requires
        touched < 16,
        call_ensures(place, (&item, touched), drawn),
    ensures
        item matches Item::Text { x, y, w, h, text } ==> {
            &&& drawn matches CanvasObj::TextArea(label)
            &&& label.text@ == encode_utf8(text@)
            &&& label.len as int == encode_utf8(text@).len() as int % 65536
            &&& label.text_color == Color::Black && label.text_alignment == Alignment::Center
            &&& label.style == TextStyle::NoStyle && label.font == Font::InterRegular24
            &&& label.nb_max_lines == 1 && label.token == 0
            &&& !label.auto_hide_long_line && !label.obfuscated
            &&& label.obj.type_ == ObjType::TextArea
            &&& label.obj.alignment_margin_x == x && label.obj.alignment_margin_y == y
            &&& label.obj.area.width == w && label.obj.area.height == h
            &&& label.obj.area.x0 == 0 && label.obj.area.y0 == 0
            &&& label.obj.area.background_color == Color::White
            &&& label.obj.area.bpp == Bpp::Four
            &&& label.obj.alignment == Alignment::TopLeft && label.obj.touch_id == 0
            &&& label.obj.touch_mask == 0 && label.obj.obj_id == 0
        },
        item matches Item::Button { x, y, w, h, text, token, style } ==> {
            &&& drawn matches CanvasObj::Button(button)
            &&& button.text@ == encode_utf8(text@)
            &&& button.token == token && button.obj.obj_id == token
            &&& style is Light ==> {
                &&& button.inner_color == Color::White
                &&& button.border_color == Color::LightGray
                &&& button.foreground_color == Color::Black
            }
            &&& style is Dark ==> {
                &&& button.inner_color == Color::Black
                &&& button.border_color == Color::Black
                &&& button.foreground_color == Color::White
            }
            &&& style is NoBorder ==> {
                &&& button.inner_color == Color::White
                &&& button.border_color == Color::White
                &&& button.foreground_color == Color::Black
            }
            &&& button.radius == Radius::Px32 && button.font == Font::InterSemibold24
            &&& !button.localized
            &&& button.obj.type_ == ObjType::Button
            &&& button.obj.alignment_margin_x == x && button.obj.alignment_margin_y == y
            &&& button.obj.area.width == w && button.obj.area.height == h
            &&& button.obj.area.x0 == 0 && button.obj.area.y0 == 0
            &&& button.obj.area.background_color == Color::White
            &&& button.obj.area.bpp == Bpp::Four
            &&& button.obj.alignment == Alignment::TopLeft && button.obj.touch_id == 0
            &&& forall|e: u32|
                e < 16 ==> (#[trigger] (button.obj.touch_mask & (1u16 << e)) != 0 <==> e == touched)
        },
{
    lemma_mask_has_one_bit(touched);
}

/// What stands on the screen for the item that was added at some place is an object
/// at the same place, with the item's text, position and size. A button has the
/// colours of its own style and its own token, and reacts to the touch event alone.
pub proof fn law_shown_canvas_draws_its_items(
    canvas: Canvas,
    touched: u32,
    shown: Option<CanvasScreen>,
    i: int,
)
    requires
        touched < 16,
        call_ensures(Canvas::show, (canvas, touched), shown),
        0 <= i < canvas@.len(),
    ensures
        shown matches Some(screen) && screen.objs().len() == canvas@.len(),
        canvas@[i] matches Item::Text { x, y, w, h, text } ==> {
            &&& shown->0.objs()[i] matches CanvasObj::TextArea(label)
            &&& label.text@ == encode_utf8(text@)
            &&& label.len as int == encode_utf8(text@).len() as int % 65536
            &&& label.text_color == Color::Black && label.text_alignment == Alignment::Center
            &&& label.style == TextStyle::NoStyle && label.font == Font::InterRegular24
            &&& label.nb_max_lines == 1 && label.token == 0
            &&& !label.auto_hide_long_line && !label.obfuscated
            &&& label.obj.type_ == ObjType::TextArea
            &&& label.obj.alignment_margin_x == x && label.obj.alignment_margin_y == y
            &&& label.obj.area.width == w && label.obj.area.height == h
            &&& label.obj.area.x0 == 0 && label.obj.area.y0 == 0
            &&& label.obj.area.background_color == Color::White
            &&& label.obj.area.bpp == Bpp::Four
            &&& label.obj.alignment == Alignment::TopLeft && label.obj.touch_id == 0
            &&& label.obj.touch_mask == 0 && label.obj.obj_id == 0
        },
        canvas@[i] matches Item::Button { x, y, w, h, text, token, style } ==> {
            &&& shown->0.objs()[i] matches CanvasObj::Button(button)
            &&& button.text@ == encode_utf8(text@)
            &&& button.token == token && button.obj.obj_id == token
            &&& style is Light ==> {
                &&& button.inner_color == Color::White
                &&& button.border_color == Color::LightGray
                &&& button.foreground_color == Color::Black
            }
            &&& style is Dark ==> {
                &&& button.inner_color == Color::Black
                &&& button.border_color == Color::Black
                &&& button.foreground_color == Color::White
            }
            &&& style is NoBorder ==> {
                &&& button.inner_color == Color::White
                &&& button.border_color == Color::White
                &&& button.foreground_color == Color::Black
            }
            &&& button.radius == Radius::Px32 && button.font == Font::InterSemibold24
            &&& !button.localized
            &&& button.obj.type_ == ObjType::Button
            &&& button.obj.alignment_margin_x == x && button.obj.alignment_margin_y == y
            &&& button.obj.area.width == w && button.obj.area.height == h
            &&& button.obj.area.x0 == 0 && button.obj.area.y0 == 0
            &&& button.obj.area.background_color == Color::White
            &&& button.obj.area.bpp == Bpp::Four
            &&& button.obj.alignment == Alignment::TopLeft && button.obj.touch_id == 0
            &&& forall|e: u32|
                e < 16 ==> (#[trigger] (button.obj.touch_mask & (1u16 << e)) != 0 <==> e == touched)
        },
{
    lemma_mask_has_one_bit(touched);
    assert(shown->0.objs()[i].shows(canvas@[i], touched));
}

/// There is a screen exactly where there are items. It waits for the first tap, and
/// as long as there are at most 255 items it has a child for each.
pub proof fn law_canvas_opens_untapped(
    canvas: Canvas,
    touched: u32,
    shown: Option<CanvasScreen>,
    objects: &Vec<CanvasObj>,
    nb_items: u8,
    turn: Turn<Option<u8>>,
)
    requires
        call_ensures(Canvas::show, (canvas, touched), shown),
        shown matches Some(screen) ==> {
            &&& call_ensures(CanvasScreen::objects, (&screen,), objects)
            &&& call_ensures(CanvasScreen::nb_items, (&screen,), nb_items)
            &&& call_ensures(CanvasScreen::poll, (&screen,), turn)
        },
    ensures
        shown is None <==> canvas@.len() == 0,
        shown matches Some(screen) ==> {
            &&& screen.touch_event() == touched
            &&& objects@ == screen.objs() && objects@.len() == canvas@.len()
            &&& nb_items as int == canvas@.len() as int % 256
            &&& canvas@.len() <= 255 ==> nb_items == canvas@.len()
            &&& turn is Receive
        },
{
}

/// Items are drawn in the order in which they are added: each goes behind those that
/// are there, with the position, size, token and style that it was given.
pub proof fn law_items_keep_what_they_are_given<T: Into<String>>(
    canvas: Canvas,
    x: i16,
    y: i16,
    w: u16,
    h: u16,
    text: T,
    token: u8,
    style: ButtonStyle,
    labelled: Canvas,
    buttoned: Canvas,
)
    requires
        call_ensures(Canvas::text::<T>, (canvas, x, y, w, h, text), labelled),
        call_ensures(Canvas::button::<T>, (canvas, x, y, w, h, text, token, style), buttoned),
    ensures
        labelled@.len() == canvas@.len() + 1,
        labelled@.drop_last() == canvas@,
        labelled@.last() matches Item::Text { x: x1, y: y1, w: w1, h: h1, text: s } && {
            &&& x1 == x && y1 == y && w1 == w && h1 == h
            &&& call_ensures(T::into, (text,), s)
        },
        buttoned@.len() == canvas@.len() + 1,
        buttoned@.drop_last() == canvas@,
        buttoned@.last() matches Item::Button {
            x: x1,
            y: y1,
            w: w1,
            h: h1,
            text: s,
            token: t1,
            style: s1,
        } && {
            &&& x1 == x && y1 == y && w1 == w && h1 == h && t1 == token && s1 == style
            &&& call_ensures(T::into, (text,), s)
        },
{
}

/// A canvas starts out empty, and all is put on the lowest layer.
pub proof fn law_canvas_starts_empty(made: Canvas, by_default: Canvas)
    requires
        call_ensures(Canvas::new, (), made),
        call_ensures(<Canvas as Default>::default, (), by_default),
    ensures
        made@.len() == 0,
        by_default@.len() == 0,
        LAYER == 0,
{
}

/// A canvas can be handed to C code exactly where no text on it holds a NUL character.
pub proof fn law_canvas_can_be_shown_without_nul(canvas: Canvas, asked: bool)
    requires
        call_ensures(Canvas::is_nul_free, (&canvas,), asked),
    ensures
        asked <==> forall|i: int|
            0 <= i < canvas@.len() ==> match #[trigger] canvas@[i] {
                Item::Text { text, .. } => !text@.contains('\0'),
                Item::Button { text, .. } => !text@.contains('\0'),
            },
{
    if asked {
        assert forall|i: int| 0 <= i < canvas@.len() implies match #[trigger] canvas@[i] {
            Item::Text { text, .. } => !text@.contains('\0'),
            Item::Button { text, .. } => !text@.contains('\0'),
        } by {
            assert(nul_free(canvas@[i].label()));
        }
    } else {
        let i = choose|i: int| 0 <= i < canvas@.len() && !nul_free(#[trigger] canvas@[i].label());
        assert(match canvas@[i] {
            Item::Text { text, .. } => text@.contains('\0'),
            Item::Button { text, .. } => text@.contains('\0'),
        });
    }
}

/// Every touch event on an object is a tap, whatever its token: it leaves the screen,
/// and with that token. Any other event changes nothing.
pub proof fn law_touch_on_an_object_is_a_tap(
    screen: &mut CanvasScreen,
    token: Option<u8>,
    event: u32,
    turn: Turn<Option<u8>>,
)
    requires
        call_ensures(CanvasScreen::touch_cb, (screen, token, event), ()),
        call_ensures(CanvasScreen::poll, (final(screen),), turn),
    ensures
        final(screen).objs() == old(screen).objs(),
        final(screen).child_count() == old(screen).child_count(),
        final(screen).touch_event() == old(screen).touch_event(),
        event == old(screen).touch_event() && token is Some ==> {
            &&& final(screen).tap() == token
            &&& turn == Turn::Finish(token)
        },
        event != old(screen).touch_event() || token is None ==> {
            &&& final(screen).tap() == old(screen).tap()
            &&& turn is Finish <==> old(screen).tap() is Some
        },
{
}

/// A canvas is left without a token exactly on a failed reception. A touch or a tick
/// goes to the user interface exactly where a packet of one of the two types came with its tag.
pub proof fn law_canvas_waits_through_packets(
    screen: CanvasScreen,
    codes: SephCodes,
    status: i32,
    buf: [u8; RX_BUFFER_SIZE],
    turn: Turn<Option<u8>>,
)
    requires
        call_ensures(CanvasScreen::received, (&screen, &codes, status, &buf), turn),
    ensures
        ({
            let of_ui = status > 0 && (buf@[0] == codes.packet_seph || buf@[0]
                == codes.packet_se_evt);
            &&& turn is Finish <==> status < 0
            &&& turn matches Turn::Finish(token) ==> token is None
            &&& turn is Finger <==> of_ui && buf@[1] == codes.tag_finger
            &&& turn is Ticker <==> of_ui && buf@[1] == codes.tag_ticker && buf@[1]
                != codes.tag_finger
        }),
{
}

/// Each style has its own colours: inside, border and text.
pub proof fn law_styles_have_their_colors(style: ButtonStyle, colors: (Color, Color, Color))
    requires
        call_ensures(button_colors, (style,), colors),
    ensures
        style is Light ==> colors == (Color::White, Color::LightGray, Color::Black),
        style is Dark ==> colors == (Color::Black, Color::Black, Color::White),
        style is NoBorder ==> colors == (Color::White, Color::White, Color::Black),
{
}

/// An object's position goes into its margins, and all else that it was given is kept.
pub proof fn law_base_keeps_what_it_is_given(
    x: i16,
    y: i16,
    w: u16,
    h: u16,
    type_: ObjType,
    touch_mask: u16,
    obj_id: u8,
    obj: BaseObj,
)
    requires
        call_ensures(base_obj, (x, y, w, h, type_, touch_mask, obj_id), obj),
    ensures
        obj.alignment_margin_x == x && obj.alignment_margin_y == y,
        obj.area.width == w && obj.area.height == h,
        obj.type_ == type_ && obj.touch_mask == touch_mask && obj.obj_id == obj_id,
        ({
            &&& obj.area.x0 == 0 && obj.area.y0 == 0
            &&& obj.area.background_color == Color::White && obj.area.bpp == Bpp::Four
            &&& obj.alignment == Alignment::TopLeft && obj.touch_id == 0
        }),
{
}

} // verus!
