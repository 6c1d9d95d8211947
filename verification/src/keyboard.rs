//! A text-entry keyboard with a single confirmation button.
//!
//! [`NbglKeyboard`] collects the settings, [`NbglKeyboard::show`] hands out the
//! [`KeyboardScreen`] that waits until the user confirms or backs out, and says
//! what was typed.

use vstd::prelude::*;
use vstd::utf8::*;

use crate::c_text::{
    c_prefix, law_c_code_reads_up_to_the_first_zero, lemma_c_prefix, lemma_zero_free_encoding,
    nul_free, zero_free, CText,
};
use crate::seph::{after, classify, incoming, turn_after, Incoming, SephCodes, Turn, RX_BUFFER_SIZE};

verus! {

/// Size of the buffer that the keyboard writes the text into, with its zero byte.
pub const TEXT_BUFFER_SIZE: usize = 64;

/// The most bytes that an entry can have.
pub const ENTRY_LIMIT: u8 = 63;

/// The key set that the keyboard starts with.
#[derive(Clone, Copy, PartialEq, Eq, Structural, Debug)]
pub enum KeyboardMode {
    /// Letters.
    Letters,
    /// The key set of this number in the device's own numbering.
    Code(u32),
}

/// The letter case that the keyboard starts with.
#[derive(Clone, Copy, PartialEq, Eq, Structural, Debug)]
pub enum KeyboardCase {
    /// Lower case.
    Lower,
    /// The case of this number in the device's own numbering.
    Code(u32),
}

/// A builder to display a text-entry keyboard with a confirmation button.
#[derive(Debug)]
pub struct NbglKeyboard {
    title: CText,
    button_text: CText,
    entry_max_len: u8,
    mode: KeyboardMode,
    casing: KeyboardCase,
    letters_only: bool,
}

/// The settings of a keyboard.
pub ghost struct KeyboardSettings {
    pub title: Seq<u8>,
    pub button_text: Seq<u8>,
    pub entry_max_len: u8,
    pub mode: KeyboardMode,
    pub casing: KeyboardCase,
    pub letters_only: bool,
}

impl View for NbglKeyboard {
    type V = KeyboardSettings;

    closed spec fn view(&self) -> KeyboardSettings {
        KeyboardSettings {
            title: self.title@,
            button_text: self.button_text@,
            entry_max_len: self.entry_max_len,
            mode: self.mode,
            casing: self.casing,
            letters_only: self.letters_only,
        }
    }
}

/// The settings of a fresh keyboard.
pub open spec fn default_settings() -> KeyboardSettings {
    KeyboardSettings {
        title: encode_utf8("Enter text"@),
        button_text: encode_utf8("Confirm"@),
        entry_max_len: ENTRY_LIMIT,
        mode: KeyboardMode::Letters,
        casing: KeyboardCase::Lower,
        letters_only: false,
    }
}

impl NbglKeyboard {
    #[verifier::type_invariant]
    closed spec fn entry_fits(self) -> bool {
        self.entry_max_len <= ENTRY_LIMIT
    }

    /// A keyboard for lower-case letters that takes as much text as fits.
    pub fn new() -> (r: Self)
        ensures
            r@ == default_settings(),
    {
        proof {
            reveal_strlit("Enter text");
            reveal_strlit("Confirm");
            assert(nul_free("Enter text"@));
            assert(nul_free("Confirm"@));
        }
        Self {
            title: CText::new("Enter text").unwrap(),
            button_text: CText::new("Confirm").unwrap(),
            entry_max_len: ENTRY_LIMIT,
            mode: KeyboardMode::Letters,
            casing: KeyboardCase::Lower,
            letters_only: false,
        }
    }

    /// Sets the title.
    pub fn title(self, title: &str) -> (r: Self)
        requires
            nul_free(title@),
        ensures
            r@ == (KeyboardSettings { title: encode_utf8(title@), ..self@ }),
    {
        proof {
            use_type_invariant(&self);
        }
        Self {
            title: CText::new(title).unwrap(),
            button_text: self.button_text,
            entry_max_len: self.entry_max_len,
            mode: self.mode,
            casing: self.casing,
            letters_only: self.letters_only,
        }
    }

    /// Sets the label of the confirmation button.
    pub fn button_text(self, text: &str) -> (r: Self)
        requires
            nul_free(text@),
        ensures
            r@ == (KeyboardSettings { button_text: encode_utf8(text@), ..self@ }),
    {
        proof {
            use_type_invariant(&self);
        }
        Self {
            title: self.title,
            button_text: CText::new(text).unwrap(),
            entry_max_len: self.entry_max_len,
            mode: self.mode,
            casing: self.casing,
            letters_only: self.letters_only,
        }
    }

    /// Limits the length of the entry in bytes; what does not fit the buffer is
    /// cut down to what does.
    pub fn entry_max_len(self, max: u8) -> (r: Self)
        ensures
            r@ == (KeyboardSettings {
                entry_max_len: if max <= ENTRY_LIMIT {
                    max
                } else {
                    ENTRY_LIMIT
                },
                ..self@
            }),
    {
        let mut this = self;
        this.entry_max_len = if max <= ENTRY_LIMIT {
            max
        } else {
            ENTRY_LIMIT
        };
        this
    }

    /// Sets the key set.
    pub fn mode(self, mode: KeyboardMode) -> (r: Self)
        ensures
            r@ == (KeyboardSettings { mode, ..self@ }),
    {
        proof {
            use_type_invariant(&self);
        }
        let mut this = self;
        this.mode = mode;
        this
    }

    /// Sets the letter case.
    pub fn casing(self, casing: KeyboardCase) -> (r: Self)
        ensures
            r@ == (KeyboardSettings { casing, ..self@ }),
    {
        proof {
            use_type_invariant(&self);
        }
        let mut this = self;
        this.casing = casing;
        this
    }

    /// Restricts the entry to letters, or lifts the restriction.
    pub fn letters_only(self, letters_only: bool) -> (r: Self)
        ensures
            r@ == (KeyboardSettings { letters_only, ..self@ }),
    {
        proof {
            use_type_invariant(&self);
        }
        let mut this = self;
        this.letters_only = letters_only;
        this
    }

    /// Sets the keyboard up for display, with an empty text buffer, and waits for the user.
    pub fn show(self, text: &mut [u8; TEXT_BUFFER_SIZE]) -> (r: KeyboardScreen)
        ensures
            forall|i: int| 0 <= i < TEXT_BUFFER_SIZE ==> final(text)@[i] == 0,
            final(text)@ == Seq::new(TEXT_BUFFER_SIZE as nat, |i: int| 0u8),
            r.state() == fresh_state(self@),
            self@.entry_max_len < TEXT_BUFFER_SIZE,
    {
        proof {
            use_type_invariant(&self);
        }
        clear_text(text);
        KeyboardScreen {
            params: KeyboardParams {
                content: KeyboardContent::WithButton,
                title: self.title,
                entry_max_len: self.entry_max_len,
                mode: self.mode,
                letters_only: self.letters_only,
                numbered: false,
                number: 0,
                casing: self.casing,
                button_text: self.button_text,
            },
            done: false,
            confirmed: false,
        }
    }
}

impl Default for NbglKeyboard {
    fn default() -> (r: Self)
        ensures
            r@ == default_settings(),
    {
        Self::new()
    }
}

/// What stands above the keys.
#[derive(Clone, Copy, PartialEq, Eq, Structural, Debug)]
pub enum KeyboardContent {
    /// The confirmation button.
    WithButton,
}

/// What the device's toolkit is given to draw a keyboard.
#[derive(Debug)]
pub struct KeyboardParams {
    pub content: KeyboardContent,
    pub title: CText,
    pub entry_max_len: u8,
    pub mode: KeyboardMode,
    pub letters_only: bool,
    pub numbered: bool,
    pub number: u8,
    pub casing: KeyboardCase,
    pub button_text: CText,
}

/// A keyboard on the screen, with what it is drawn with and what the user has done.
pub ghost struct KeyboardState {
    pub settings: KeyboardSettings,
    pub content: KeyboardContent,
    pub numbered: bool,
    pub number: u8,
    /// The user has confirmed or backed out.
    pub done: bool,
    /// The user has confirmed.
    pub confirmed: bool,
}

/// The state of a keyboard that was just shown.
pub open spec fn fresh_state(settings: KeyboardSettings) -> KeyboardState {
    KeyboardState {
        settings,
        content: KeyboardContent::WithButton,
        numbered: false,
        number: 0,
        done: false,
        confirmed: false,
    }
}

/// What can happen to a keyboard on the screen.
pub ghost enum KeyboardOp {
    /// The user confirms.
    Confirm,
    /// The user backs out.
    Back,
    /// The screen is asked for its turn before a reception.
    Poll,
    /// The screen is asked for its turn after a reception.
    Received(Incoming),
}

/// `entry` is what these bytes are read as.
pub open spec fn is_read_as(entry: Seq<char>, bytes: Seq<u8>) -> bool {
    &&& entry == utf8_lossy(bytes)
    &&& valid_utf8(bytes) ==> entry == decode_utf8(bytes)
    &&& zero_free(bytes) ==> nul_free(entry)
    &&& entry.len() <= bytes.len()
}

impl KeyboardState {
    /// The screen is left: the user has confirmed or backed out, or the reception failed.
    pub open spec fn leaves(self, op: KeyboardOp) -> bool {
        match op {
            KeyboardOp::Poll => self.done,
            KeyboardOp::Received(received) => received is Failed,
            _ => false,
        }
    }

    /// The state after `op`.
    pub open spec fn after(self, op: KeyboardOp) -> KeyboardState {
        KeyboardState {
            done: self.done || op is Confirm || op is Back,
            confirmed: self.confirmed || op is Confirm,
            ..self
        }
    }

    /// `entry` is what the screen is left with while the text buffer holds `text`.
    pub open spec fn is_outcome(self, entry: Option<String>, text: Seq<u8>) -> bool {
        if self.confirmed {
            &&& entry matches Some(s)
            &&& is_read_as(s@, c_prefix(text))
        } else {
            entry is None
        }
    }
}

/// The state that a run of operations leads to.
pub open spec fn state_after(first: KeyboardState, ops: Seq<KeyboardOp>) -> KeyboardState
    decreases ops.len(),
{
    if ops.len() == 0 {
        first
    } else {
        state_after(first, ops.drop_last()).after(ops.last())
    }
}

/// The screen has been left in the course of the run.
pub open spec fn is_left(first: KeyboardState, ops: Seq<KeyboardOp>) -> bool
    decreases ops.len(),
{
    ops.len() > 0 && (is_left(first, ops.drop_last()) || state_after(
        first,
        ops.drop_last(),
    ).leaves(ops.last()))
}

/// A keyboard on the screen, waiting for the user.
#[derive(Debug)]
pub struct KeyboardScreen {
    params: KeyboardParams,
    done: bool,
    confirmed: bool,
}

impl KeyboardScreen {
    #[verifier::type_invariant]
    closed spec fn confirmed_is_done(self) -> bool {
        self.confirmed ==> self.done
    }

    /// The state of the screen.
    pub closed spec fn state(self) -> KeyboardState {
        KeyboardState {
            settings: KeyboardSettings {
                title: self.params.title@,
                button_text: self.params.button_text@,
                entry_max_len: self.params.entry_max_len,
                mode: self.params.mode,
                casing: self.params.casing,
                letters_only: self.params.letters_only,
            },
            content: self.params.content,
            numbered: self.params.numbered,
            number: self.params.number,
            done: self.done,
            confirmed: self.confirmed,
        }
    }

    /// What the device's toolkit is given to draw the keyboard.
    pub fn params(&self) -> (r: &KeyboardParams)
        ensures
            r.content == self.state().content,
            r.title@ == self.state().settings.title,
            r.button_text@ == self.state().settings.button_text,
            r.entry_max_len == self.state().settings.entry_max_len,
            r.mode == self.state().settings.mode,
            r.casing == self.state().settings.casing,
            r.letters_only == self.state().settings.letters_only,
            r.numbered == self.state().numbered,
            r.number == self.state().number,
    {
        &self.params
    }

    /// The user confirms the entry.
    pub fn confirm_cb(&mut self)
        ensures
            final(self).state() == old(self).state().after(KeyboardOp::Confirm),
    {
        self.done = true;
        self.confirmed = true;
    }

    /// The user backs out.
    pub fn back_cb(&mut self)
        ensures
            final(self).state() == old(self).state().after(KeyboardOp::Back),
    {
        self.done = true;
    }

    /// The entry that the screen is left with: the text in the buffer where the
    /// user has confirmed it.
    pub fn outcome(&self, text: &[u8; TEXT_BUFFER_SIZE]) -> (r: Option<String>)
        ensures
            self.state().is_outcome(r, text@),
    {
        if !self.confirmed {
            return None;
        }
        Some(entered_text(text))
    }

    /// The turn before a packet is awaited: the screen is left once the user has
    /// confirmed or backed out.
    pub fn poll(&self, text: &[u8; TEXT_BUFFER_SIZE]) -> (r: Turn<Option<String>>)
        ensures
            self.state().leaves(KeyboardOp::Poll) ==> {
                &&& r matches Turn::Finish(entry)
                &&& self.state().is_outcome(entry, text@)
            },
            !self.state().leaves(KeyboardOp::Poll) ==> r is Receive,
    {
        if self.done {
            Turn::Finish(self.outcome(text))
        } else {
            Turn::Receive
        }
    }

    /// The turn for a received packet: a failed reception leaves the screen.
    pub fn received(
        &self,
        codes: &SephCodes,
        status: i32,
        buf: &[u8; RX_BUFFER_SIZE],
        text: &[u8; TEXT_BUFFER_SIZE],
    ) -> (r: Turn<Option<String>>)
        ensures
            ({
                let received = incoming(*codes, status, buf@[0], buf@[1]);
                &&& self.state().leaves(KeyboardOp::Received(received)) ==> {
                    &&& r matches Turn::Finish(entry)
                    &&& self.state().is_outcome(entry, text@)
                    &&& self.state().done || entry is None
                }
                &&& !self.state().leaves(KeyboardOp::Received(received)) ==> r == turn_after(
                    received,
                    None::<String>,
                )
            }),
    {
        proof {
            use_type_invariant(self);
        }
        match classify(codes, status, buf) {
            Incoming::Failed => Turn::Finish(self.outcome(text)),
            other => after(other, None),
        }
    }
}

/// The text that [`String::from_utf8_lossy`] makes of these bytes.
pub uninterp spec fn utf8_lossy(bytes: Seq<u8>) -> Seq<char>;

/// Calls [`String::from_utf8_lossy`]: valid UTF-8 is decoded as it is, and each
/// malformed sequence becomes one replacement character. So every character comes
/// from at least one byte, and a NUL only from a zero byte. Which bytes make up one
/// malformed sequence is left to the name [`utf8_lossy`].
#[verifier::external_body]
fn from_utf8_lossy(bytes: &[u8]) -> (r: String)
    ensures
        r@ == utf8_lossy(bytes@),
        valid_utf8(bytes@) ==> r@ == decode_utf8(bytes@),
        zero_free(bytes@) ==> nul_free(r@),
        r@.len() <= bytes@.len(),
{
    String::from_utf8_lossy(bytes).into_owned()
}

/// The bytes of the entry: everything before the first zero byte of the buffer.
pub fn entry_bytes(text: &[u8; TEXT_BUFFER_SIZE]) -> (r: &[u8])
    ensures
        r@ == c_prefix(text@),
{
    let mut len: usize = 0;
    while len < TEXT_BUFFER_SIZE && text[len] != 0
        invariant
            len <= TEXT_BUFFER_SIZE,
            zero_free(text@.take(len as int)),
        decreases TEXT_BUFFER_SIZE - len,
    {
        proof {
            assert(text@.take(len + 1) == text@.take(len as int).push(text@[len as int]));
        }
        len = len + 1;
    }
    proof {
        let entry = text@.take(len as int);
        if len < TEXT_BUFFER_SIZE {
            let rest = text@.skip(len + 1);
            assert(text@ == entry.push(0) + rest);
            lemma_c_prefix(entry, rest);
        } else {
            assert(text@ == entry);
            lemma_c_prefix(entry, Seq::empty());
        }
    }
    vstd::slice::slice_subrange(text.as_slice(), 0, len)
}

/// The entry in the buffer, as text.
pub fn entered_text(text: &[u8; TEXT_BUFFER_SIZE]) -> (r: String)
    ensures
        is_read_as(r@, c_prefix(text@)),
{
    from_utf8_lossy(entry_bytes(text))
}

/// Empties the text buffer.
pub fn clear_text(text: &mut [u8; TEXT_BUFFER_SIZE])
    ensures
        forall|i: int| 0 <= i < TEXT_BUFFER_SIZE ==> final(text)@[i] == 0,
        final(text)@ == Seq::new(TEXT_BUFFER_SIZE as nat, |i: int| 0u8),
{
    let mut i: usize = 0;
    while i < TEXT_BUFFER_SIZE
        invariant
            i <= TEXT_BUFFER_SIZE,
            forall|j: int| 0 <= j < i ==> text@[j] == 0,
        decreases TEXT_BUFFER_SIZE - i,
    {
        text[i] = 0;
        i = i + 1;
    }
}

/// What the user typed and confirmed comes back character for character, whatever
/// the buffer holds behind it, also where the entry fills the buffer.
pub proof fn law_confirmed_entry_reads_back(
    state: KeyboardState,
    entry: Option<String>,
    text: Seq<u8>,
    typed: Seq<char>,
    rest: Seq<u8>,
)
    requires
        state.confirmed,
        state.is_outcome(entry, text),
        nul_free(typed),
        text == encode_utf8(typed).push(0) + rest || text == encode_utf8(typed),
    ensures
        entry matches Some(s) && s@ == typed,
{
    lemma_zero_free_encoding(typed);
    lemma_c_prefix(encode_utf8(typed), rest);
    encode_utf8_valid_utf8(typed);
    encode_utf8_decode_utf8(typed);
}

/// Confirming an empty buffer enters the empty text.
pub proof fn law_cleared_buffer_is_empty_entry(
    state: KeyboardState,
    entry: Option<String>,
    text: Seq<u8>,
)
    requires
        state.confirmed,
        state.is_outcome(entry, text),
        forall|i: int| 0 <= i < text.len() ==> text[i] == 0,
    ensures
        entry matches Some(s) && s@ == Seq::<char>::empty(),
{
    let none = Seq::<char>::empty();
    assert(encode_utf8(none) == Seq::<u8>::empty());
    if text.len() > 0 {
        let rest = text.drop_first();
        assert(text == encode_utf8(none).push(0) + rest);
        law_confirmed_entry_reads_back(state, entry, text, none, rest);
    } else {
        assert(text == encode_utf8(none));
        law_confirmed_entry_reads_back(state, entry, text, none, text);
    }
}

/// An entry within the limit leaves room in the buffer for its zero byte.
pub proof fn law_entry_leaves_room_for_terminator(settings: KeyboardSettings, typed: Seq<char>)
    requires
        settings.entry_max_len < TEXT_BUFFER_SIZE,
        encode_utf8(typed).len() <= settings.entry_max_len,
    ensures
        encode_utf8(typed).push(0).len() <= TEXT_BUFFER_SIZE,
{
}

/// A run goes on with what happens next to the keyboard.
pub proof fn lemma_run_goes_on(first: KeyboardState, ops: Seq<KeyboardOp>, op: KeyboardOp)
    ensures
        state_after(first, ops.push(op)) == state_after(first, ops).after(op),
        is_left(first, ops.push(op)) <==> is_left(first, ops) || state_after(first, ops).leaves(op),
{
    assert(ops.push(op).drop_last() == ops);
}

/// An operation occurs in a run where it occurs before the last one or is the last one.
proof fn lemma_contains_split(ops: Seq<KeyboardOp>, op: KeyboardOp)
    requires
        ops.len() > 0,
    ensures
        ops.contains(op) <==> ops.drop_last().contains(op) || ops.last() == op,
{
    let before = ops.drop_last();
    if ops.contains(op) && ops.last() != op {
        let i = choose|i: int| 0 <= i < ops.len() && ops[i] == op;
        assert(before[i] == op);
    }
    if before.contains(op) {
        let i = choose|i: int| 0 <= i < before.len() && before[i] == op;
        assert(ops[i] == op);
    }
    if ops.last() == op {
        assert(ops[ops.len() - 1] == op);
    }
}

/// The keyboard stays until the user answers: it is left only after the user has
/// confirmed or backed out, or on a failed reception. Once the user has answered,
/// the next poll leaves it. It is drawn the same all the time.
pub proof fn law_keyboard_stays_until_the_user_answers(
    settings: KeyboardSettings,
    ops: Seq<KeyboardOp>,
)
    ensures
        ({
            let first = fresh_state(settings);
            let state = state_after(first, ops);
            let answered = ops.contains(KeyboardOp::Confirm) || ops.contains(KeyboardOp::Back);
            &&& is_left(first, ops) ==> answered || ops.contains(
                KeyboardOp::Received(Incoming::Failed),
            )
            &&& state.leaves(KeyboardOp::Poll) <==> answered
            &&& state.confirmed <==> ops.contains(KeyboardOp::Confirm)
            &&& state == (KeyboardState { done: state.done, confirmed: state.confirmed, ..first })
        }),
    decreases ops.len(),
{
    if ops.len() > 0 {
        law_keyboard_stays_until_the_user_answers(settings, ops.drop_last());
        lemma_contains_split(ops, KeyboardOp::Confirm);
        lemma_contains_split(ops, KeyboardOp::Back);
        lemma_contains_split(ops, KeyboardOp::Received(Incoming::Failed));
    }
}

/// However the keyboard is left after a run, there is an entry exactly where the
/// user has confirmed in the run, and the entry is then the text in the buffer up to
/// its first zero byte. What leaves it is a poll after the user has confirmed or
/// backed out, or a failed reception.
pub proof fn law_session_ends_with_the_confirmed_text(
    settings: KeyboardSettings,
    ops: Seq<KeyboardOp>,
    op: KeyboardOp,
    entry: Option<String>,
    text: Seq<u8>,
)
    requires
        state_after(fresh_state(settings), ops).leaves(op),
        state_after(fresh_state(settings), ops).is_outcome(entry, text),
    ensures
        entry is Some <==> ops.contains(KeyboardOp::Confirm),
        entry matches Some(s) ==> is_read_as(s@, c_prefix(text)),
        op == KeyboardOp::Received(Incoming::Failed) || (op is Poll && (ops.contains(
            KeyboardOp::Confirm,
        ) || ops.contains(KeyboardOp::Back))),
{
    law_keyboard_stays_until_the_user_answers(settings, ops);
}

/// An entry holds no NUL character, so that it can be shown on a screen again, and
/// has no more characters than the buffer has bytes, also where it is malformed.
pub proof fn law_entry_can_be_shown_again(
    state: KeyboardState,
    entry: Option<String>,
    text: Seq<u8>,
)
    requires
        state.is_outcome(entry, text),
    ensures
        entry matches Some(s) ==> nul_free(s@) && s@.len() <= text.len(),
{
    text.index_of_first_ensures(0u8);
    assert(zero_free(c_prefix(text)));
    assert(c_prefix(text).len() <= text.len());
}

/// The title is set to what is given, and nothing else changes.
pub proof fn law_title_is_set(keyboard: NbglKeyboard, title: &str, set: NbglKeyboard)
    requires
        call_ensures(NbglKeyboard::title, (keyboard, title), set),
    ensures
        set@.title == encode_utf8(title@),
        set@.button_text == keyboard@.button_text,
        set@.entry_max_len == keyboard@.entry_max_len,
        set@.mode == keyboard@.mode,
        set@.casing == keyboard@.casing,
        set@.letters_only == keyboard@.letters_only,
{
}

/// The button's label is set to what is given, and nothing else changes.
pub proof fn law_button_label_is_set(keyboard: NbglKeyboard, text: &str, set: NbglKeyboard)
    requires
        call_ensures(NbglKeyboard::button_text, (keyboard, text), set),
    ensures
        set@.button_text == encode_utf8(text@),
        set@.title == keyboard@.title,
        set@.entry_max_len == keyboard@.entry_max_len,
        set@.mode == keyboard@.mode,
        set@.casing == keyboard@.casing,
        set@.letters_only == keyboard@.letters_only,
{
}

/// The entry is limited to the given length, or to 63 bytes where that is less, and
/// nothing else changes.
pub proof fn law_entry_length_is_limited(keyboard: NbglKeyboard, max: u8, set: NbglKeyboard)
    requires
        call_ensures(NbglKeyboard::entry_max_len, (keyboard, max), set),
    ensures
        max < 64 ==> set@.entry_max_len == max,
        max >= 64 ==> set@.entry_max_len == 63,
        set@.title == keyboard@.title,
        set@.button_text == keyboard@.button_text,
        set@.mode == keyboard@.mode,
        set@.casing == keyboard@.casing,
        set@.letters_only == keyboard@.letters_only,
{
}

/// The key set is the one that is given, and nothing else changes.
pub proof fn law_key_set_is_set(keyboard: NbglKeyboard, mode: KeyboardMode, set: NbglKeyboard)
    requires
        call_ensures(NbglKeyboard::mode, (keyboard, mode), set),
    ensures
        set@.mode == mode,
        set@.title == keyboard@.title,
        set@.button_text == keyboard@.button_text,
        set@.entry_max_len == keyboard@.entry_max_len,
        set@.casing == keyboard@.casing,
        set@.letters_only == keyboard@.letters_only,
{
}

/// The letter case is the one that is given, and nothing else changes.
pub proof fn law_letter_case_is_set(keyboard: NbglKeyboard, casing: KeyboardCase, set: NbglKeyboard)
    requires
        call_ensures(NbglKeyboard::casing, (keyboard, casing), set),
    ensures
        set@.casing == casing,
        set@.title == keyboard@.title,
        set@.button_text == keyboard@.button_text,
        set@.entry_max_len == keyboard@.entry_max_len,
        set@.mode == keyboard@.mode,
        set@.letters_only == keyboard@.letters_only,
{
}

/// The entry is limited to letters exactly where that is asked for, and nothing else changes.
pub proof fn law_letters_only_is_set(keyboard: NbglKeyboard, letters_only: bool, set: NbglKeyboard)
    requires
        call_ensures(NbglKeyboard::letters_only, (keyboard, letters_only), set),
    ensures
        set@.letters_only == letters_only,
        set@.title == keyboard@.title,
        set@.button_text == keyboard@.button_text,
        set@.entry_max_len == keyboard@.entry_max_len,
        set@.mode == keyboard@.mode,
        set@.casing == keyboard@.casing,
{
}

/// A fresh keyboard has these settings.
pub proof fn law_keyboard_starts_with_its_defaults(made: NbglKeyboard, by_default: NbglKeyboard)
    requires
        call_ensures(NbglKeyboard::new, (), made),
        call_ensures(<NbglKeyboard as Default>::default, (), by_default),
    ensures
        made@.title == encode_utf8("Enter text"@),
        made@.button_text == encode_utf8("Confirm"@),
        made@.entry_max_len == 63,
        made@.mode == KeyboardMode::Letters,
        made@.casing == KeyboardCase::Lower,
        !made@.letters_only,
        by_default@ == made@,
        TEXT_BUFFER_SIZE == 64,
{
}

/// What the toolkit is given is what the builder holds, setting by setting. The text
/// buffer is empty, and the screen waits for the user.
pub proof fn law_toolkit_is_given_the_settings(
    keyboard: NbglKeyboard,
    text: &mut [u8; TEXT_BUFFER_SIZE],
    screen: KeyboardScreen,
    params: &KeyboardParams,
    turn: Turn<Option<String>>,
)
    requires
        call_ensures(NbglKeyboard::show, (keyboard, text), screen),
        call_ensures(KeyboardScreen::params, (&screen,), params),
        call_ensures(KeyboardScreen::poll, (&screen, final(text)), turn),
    ensures
        params.title@ == keyboard@.title,
        params.button_text@ == keyboard@.button_text,
        params.entry_max_len == keyboard@.entry_max_len,
        params.entry_max_len < 64,
        params.mode == keyboard@.mode,
        params.casing == keyboard@.casing,
        params.letters_only == keyboard@.letters_only,
        params.content == KeyboardContent::WithButton,
        !params.numbered,
        params.number == 0,
        final(text)@.len() == 64,
        forall|i: int| 0 <= i < 64 ==> #[trigger] final(text)@[i] == 0,
        !screen.state().done && !screen.state().confirmed,
        turn is Receive,
{
}

/// Showing a keyboard keeps every setting.
pub proof fn law_showing_keeps_the_settings(settings: KeyboardSettings)
    ensures
        fresh_state(settings).settings == settings,
        !fresh_state(settings).done,
        !fresh_state(settings).confirmed,
{
}

/// Clearing the buffer leaves nothing in it.
pub proof fn law_clearing_leaves_zeros(text: &mut [u8; TEXT_BUFFER_SIZE])
    requires
        call_ensures(clear_text, (text,), ()),
    ensures
        final(text)@.len() == 64,
        forall|i: int| 0 <= i < 64 ==> #[trigger] final(text)@[i] == 0,
{
}

/// The entry is what the buffer holds before its first zero byte, or all of it where
/// there is none, read as UTF-8.
pub proof fn law_entry_is_read_up_to_the_first_zero(
    text: [u8; TEXT_BUFFER_SIZE],
    bytes: &[u8],
    entry: String,
)
    requires
        call_ensures(entry_bytes, (&text,), bytes),
        call_ensures(entered_text, (&text,), entry),
    ensures
        bytes@.len() <= 64,
        forall|i: int| 0 <= i < bytes@.len() ==> #[trigger] bytes@[i] == text@[i] && bytes@[i] != 0,
        bytes@.len() < 64 ==> text@[bytes@.len() as int] == 0,
        entry@ == utf8_lossy(bytes@),
        valid_utf8(bytes@) ==> entry@ == decode_utf8(bytes@),
{
    law_c_code_reads_up_to_the_first_zero(text@);
    assert forall|i: int| 0 <= i < bytes@.len() implies #[trigger] bytes@[i] == text@[i] && bytes@[i]
        != 0 by {
        assert(c_prefix(text@).contains(bytes@[i]));
    }
}

/// Once the user confirms, the keyboard is left with the entry in the buffer. It is
/// drawn as before.
pub proof fn law_confirming_enters_the_text(
    screen: &mut KeyboardScreen,
    text: [u8; TEXT_BUFFER_SIZE],
    bytes: &[u8],
    turn: Turn<Option<String>>,
)
    requires
        call_ensures(KeyboardScreen::confirm_cb, (screen,), ()),
        call_ensures(entry_bytes, (&text,), bytes),
        call_ensures(KeyboardScreen::poll, (final(screen), &text), turn),
    ensures
        turn matches Turn::Finish(Some(entry)) && {
            &&& entry@ == utf8_lossy(bytes@)
            &&& valid_utf8(bytes@) ==> entry@ == decode_utf8(bytes@)
        },
        final(screen).state().settings == old(screen).state().settings,
        final(screen).state().content == old(screen).state().content,
        final(screen).state().numbered == old(screen).state().numbered,
        final(screen).state().number == old(screen).state().number,
        final(screen).state().done && final(screen).state().confirmed,
{
}

/// Once the user backs out, the keyboard is left, with an entry only where the user
/// had confirmed before. It is drawn as before.
pub proof fn law_backing_out_enters_nothing(
    screen: &mut KeyboardScreen,
    text: [u8; TEXT_BUFFER_SIZE],
    turn: Turn<Option<String>>,
)
    requires
        call_ensures(KeyboardScreen::back_cb, (screen,), ()),
        call_ensures(KeyboardScreen::poll, (final(screen), &text), turn),
    ensures
        turn matches Turn::Finish(entry) && (entry is Some <==> old(screen).state().confirmed),
        final(screen).state().settings == old(screen).state().settings,
        final(screen).state().content == old(screen).state().content,
        final(screen).state().numbered == old(screen).state().numbered,
        final(screen).state().number == old(screen).state().number,
        final(screen).state().done,
        final(screen).state().confirmed == old(screen).state().confirmed,
{
}

/// A keyboard that the user has neither confirmed nor left stays on display.
pub proof fn law_unanswered_keyboard_waits(
    screen: KeyboardScreen,
    text: [u8; TEXT_BUFFER_SIZE],
    turn: Turn<Option<String>>,
    entry: Option<String>,
)
    requires
        call_ensures(KeyboardScreen::poll, (&screen, &text), turn),
        call_ensures(KeyboardScreen::outcome, (&screen, &text), entry),
    ensures
        turn is Finish <==> screen.state().done,
        turn is Receive <==> !screen.state().done,
        turn matches Turn::Finish(left_with) ==> (left_with is Some
            <==> screen.state().confirmed),
        entry is Some <==> screen.state().confirmed,
        entry matches Some(s) ==> s@ == utf8_lossy(c_prefix(text@)),
{
}

/// The keyboard is left over a packet exactly on a failed reception, with an entry
/// exactly where the user has confirmed. A touch or a tick goes to the user interface
/// exactly where a packet of one of the two types came with its tag.
pub proof fn law_keyboard_waits_through_packets(
    screen: KeyboardScreen,
    codes: SephCodes,
    status: i32,
    buf: [u8; RX_BUFFER_SIZE],
    text: [u8; TEXT_BUFFER_SIZE],
    turn: Turn<Option<String>>,
)
    requires
        call_ensures(KeyboardScreen::received, (&screen, &codes, status, &buf, &text), turn),
    ensures
        ({
            let of_ui = status > 0 && (buf@[0] == codes.packet_seph || buf@[0]
                == codes.packet_se_evt);
            &&& turn is Finish <==> status < 0
            &&& turn matches Turn::Finish(entry) ==> (entry is Some <==> screen.state().confirmed)
            &&& turn matches Turn::Finish(Some(s)) ==> s@ == utf8_lossy(c_prefix(text@))
            &&& turn is Finger <==> of_ui && buf@[1] == codes.tag_finger
            &&& turn is Ticker <==> of_ui && buf@[1] == codes.tag_ticker && buf@[1]
                != codes.tag_finger
        }),
{
}

/// A failed reception leaves the keyboard at any time, and so does a poll after the
/// user has answered.
pub proof fn law_keyboard_is_left_once_answered_or_failed(
    settings: KeyboardSettings,
    ops: Seq<KeyboardOp>,
)
    ensures
        ops.contains(KeyboardOp::Received(Incoming::Failed)) ==> is_left(fresh_state(settings), ops),
        forall|i: int, j: int|
            0 <= i < j < ops.len() && (#[trigger] ops[i] is Confirm || ops[i] is Back)
                && #[trigger] ops[j] is Poll ==> is_left(fresh_state(settings), ops),
    decreases ops.len(),
{
    let first = fresh_state(settings);
    if ops.len() > 0 {
        let before = ops.drop_last();
        let n = ops.len() - 1;
        law_keyboard_is_left_once_answered_or_failed(settings, before);
        law_keyboard_stays_until_the_user_answers(settings, before);
        lemma_contains_split(ops, KeyboardOp::Received(Incoming::Failed));
        assert forall|i: int, j: int|
            0 <= i < j < ops.len() && (#[trigger] ops[i] is Confirm || ops[i] is Back)
                && #[trigger] ops[j] is Poll implies is_left(first, ops) by {
            assert(before[i] == ops[i]);
            if j < n {
                assert(before[j] == ops[j]);
                assert(is_left(first, before));
            } else {
                assert(before.contains(ops[i]));
            }
        }
    }
}

} // verus!
