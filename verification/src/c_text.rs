//! Texts in the form in which C code reads them: UTF-8 bytes followed by a zero byte.

use vstd::prelude::*;
use vstd::utf8::*;

verus! {

/// Trusts [`String::from`] on a string slice to keep the text as it is.
pub assume_specification<'a>[ <String as From<&'a str>>::from ](s: &str) -> (r: String)
    ensures
        r@ == s@,
;

/// The text holds no NUL character, so that C code can read it to its end.
pub open spec fn nul_free(text: Seq<char>) -> bool {
    forall|i: int| 0 <= i < text.len() ==> text[i] != '\0'
}

/// No byte is zero.
pub open spec fn zero_free(bytes: Seq<u8>) -> bool {
    forall|i: int| 0 <= i < bytes.len() ==> bytes[i] != 0
}

/// What C code reads from `bytes`: everything before the first zero byte, or all
/// of it where no byte is zero.
pub open spec fn c_prefix(bytes: Seq<u8>) -> Seq<u8> {
    match bytes.index_of_first(0u8) {
        Some(end) => bytes.take(end),
        None => bytes,
    }
}

/// An owned text that C code can read: no byte of it is zero, and a zero byte follows it.
#[derive(Debug)]
pub struct CText {
    bytes: Vec<u8>,
}

impl View for CText {
    type V = Seq<u8>;

    /// The bytes of the text, without the zero byte that follows them.
    closed spec fn view(&self) -> Seq<u8> {
        self.bytes@.drop_last()
    }
}

impl CText {
    #[verifier::type_invariant]
    closed spec fn terminated(self) -> bool {
        &&& self.bytes@.len() > 0
        &&& self.bytes@.last() == 0
        &&& zero_free(self.bytes@.drop_last())
    }

    /// The text is `text`, in UTF-8.
    pub open spec fn holds(self, text: Seq<char>) -> bool {
        self@ == encode_utf8(text)
    }

    /// Takes over a text, unless it holds a NUL character.
    pub fn new(text: &str) -> (r: Option<CText>)
        ensures
            r is Some <==> nul_free(text@),
            r matches Some(c) ==> c.holds(text@),
    {
        let source = text.as_bytes();
        let mut bytes: Vec<u8> = Vec::new();
        let mut i: usize = 0;
        while i < source.len()
            invariant
                i <= source@.len(),
                source@ == encode_utf8(text@),
                bytes@ == source@.take(i as int),
                zero_free(bytes@),
            decreases source@.len() - i,
        {
            let byte: u8 = source[i];
            if byte == 0 {
                proof {
                    lemma_zero_free_encoding(text@);
                }
                return None;
            }
            bytes.push(byte);
            i = i + 1;
        }
        proof {
            lemma_zero_free_encoding(text@);
            assert(bytes@ == encode_utf8(text@));
            assert(bytes@.push(0).drop_last() == bytes@);
        }
        bytes.push(0);
        Some(CText { bytes })
    }

    /// The bytes of the text, without the zero byte.
    pub fn as_bytes(&self) -> (r: &[u8])
        ensures
            r@ == self@,
            zero_free(r@),
    {
        proof {
            use_type_invariant(self);
        }
        vstd::slice::slice_subrange(self.bytes.as_slice(), 0, self.bytes.len() - 1)
    }

    /// The bytes of the text and the zero byte: what C code is pointed at.
    pub fn as_bytes_with_nul(&self) -> (r: &[u8])
        ensures
            r@ == self@.push(0),
            c_prefix(r@) == self@,
    {
        proof {
            use_type_invariant(self);
            assert(self@.push(0) == self.bytes@);
            lemma_c_prefix(self@, Seq::empty());
            assert(self@.push(0) == self@.push(0) + Seq::<u8>::empty());
        }
        self.bytes.as_slice()
    }

    /// The length of the text in bytes, without the zero byte.
    pub fn len(&self) -> (r: usize)
        ensures
            r == self@.len(),
    {
        proof {
            use_type_invariant(self);
        }
        self.bytes.len() - 1
    }
}

/// Tells whether a text is free of NUL characters.
pub fn is_nul_free(text: &str) -> (r: bool)
    ensures
        r == nul_free(text@),
{
    let source = text.as_bytes();
    let mut i: usize = 0;
    while i < source.len()
        invariant
            i <= source@.len(),
            source@ == encode_utf8(text@),
            zero_free(source@.take(i as int)),
        decreases source@.len() - i,
    {
        if source[i] == 0 {
            proof {
                lemma_zero_free_encoding(text@);
            }
            return false;
        }
        i = i + 1;
        proof {
            assert(source@.take(i as int) == source@.take(i - 1).push(source@[i - 1]));
        }
    }
    proof {
        lemma_zero_free_encoding(text@);
        assert(source@.take(i as int) == source@);
    }
    true
}

/// The C form of a text that is known to hold no NUL character.
pub fn cstr(s: String) -> (r: CText)
    requires
        nul_free(s@),
    ensures
        r.holds(s@),
{
    CText::new(s.as_str()).unwrap()
}

/// The UTF-8 form of a character holds a zero byte only for NUL, which is that byte.
proof fn lemma_zero_free_scalar(c: char)
    ensures
        c != '\0' ==> zero_free(encode_scalar(c as u32)),
        c == '\0' ==> encode_scalar(c as u32) == seq![0u8],
{
    let v = c as u32;
    char_is_scalar(c);
    assert(0u32 < v && v <= 0x7F ==> ((v & 0x7F) as u8) != 0) by (bit_vector);
    assert((0u32 & 0x7F) as u8 == 0) by (bit_vector);
    assert((0xC0u8 | ((v >> 6) & 0x1F) as u8) != 0) by (bit_vector);
    assert((0xE0u8 | ((v >> 12) & 0x0F) as u8) != 0) by (bit_vector);
    assert((0xF0u8 | ((v >> 18) & 0x7) as u8) != 0) by (bit_vector);
    assert((0x80u8 | (v & 0x3F) as u8) != 0) by (bit_vector);
    assert((0x80u8 | ((v >> 6) & 0x3F) as u8) != 0) by (bit_vector);
    assert((0x80u8 | ((v >> 12) & 0x3F) as u8) != 0) by (bit_vector);
}

/// The UTF-8 form of a text is free of zero bytes exactly where the text is free
/// of NUL characters.
pub proof fn lemma_zero_free_encoding(text: Seq<char>)
    ensures
        zero_free(encode_utf8(text)) <==> nul_free(text),
    decreases text.len(),
{
    if text.len() > 0 {
        let head = encode_scalar(text[0] as u32);
        let rest = text.drop_first();
        lemma_zero_free_scalar(text[0]);
        lemma_zero_free_encoding(rest);
        assert(encode_utf8(text) == head + encode_utf8(rest));
        if zero_free(encode_utf8(text)) {
            assert forall|i: int| 0 <= i < encode_utf8(rest).len() implies encode_utf8(rest)[i]
                != 0 by {
                assert(encode_utf8(text)[head.len() + i] == encode_utf8(rest)[i]);
            }
            if text[0] == '\0' {
                assert(encode_utf8(text)[0] == head[0]);
            }
            assert forall|i: int| 0 <= i < text.len() implies text[i] != '\0' by {
                if i > 0 {
                    assert(rest[i - 1] == text[i]);
                }
            }
        }
        if nul_free(text) {
            assert forall|i: int| 0 <= i < rest.len() implies rest[i] != '\0' by {
                assert(rest[i] == text[i + 1]);
            }
        }
    }
}

/// C code stops at the zero byte behind a text that holds none, whatever lies behind it.
pub proof fn lemma_c_prefix(bytes: Seq<u8>, rest: Seq<u8>)
    requires
        zero_free(bytes),
    ensures
        c_prefix(bytes.push(0) + rest) == bytes,
        c_prefix(bytes) == bytes,
{
    let all = bytes.push(0) + rest;
    all.index_of_first_ensures(0u8);
    bytes.index_of_first_ensures(0u8);
    assert(all[bytes.len() as int] == 0);
    let end = all.index_of_first(0u8)->0;
    if end < bytes.len() {
        assert(all[end] == bytes[end]);
    }
    assert(all.take(end) == bytes);
}

/// A text in C form reads back as the text that went in, to its last character,
/// whatever bytes follow it in memory.
pub proof fn law_c_text_reads_back(c: CText, text: Seq<char>, rest: Seq<u8>)
    requires
        nul_free(text),
        c.holds(text),
    ensures
        c_prefix(c@.push(0) + rest) == c@,
        valid_utf8(c@),
        decode_utf8(c@) == text,
{
    lemma_zero_free_encoding(text);
    lemma_c_prefix(c@, rest);
    encode_utf8_valid_utf8(text);
    encode_utf8_decode_utf8(text);
}

/// To be free of NUL characters, or of zero bytes, is to hold none.
pub proof fn law_free_is_holding_none(text: Seq<char>, bytes: Seq<u8>)
    ensures
        nul_free(text) <==> !text.contains('\0'),
        zero_free(bytes) <==> !bytes.contains(0),
{
}

/// What C code reads is the beginning of the bytes up to a zero byte or to their end,
/// and there is no zero byte in it.
pub proof fn law_c_code_reads_up_to_the_first_zero(bytes: Seq<u8>)
    ensures
        ({
            let read = c_prefix(bytes);
            &&& read.len() <= bytes.len()
            &&& forall|i: int| 0 <= i < read.len() ==> #[trigger] read[i] == bytes[i]
            &&& !read.contains(0)
            &&& read.len() < bytes.len() ==> bytes[read.len() as int] == 0
        }),
{
    bytes.index_of_first_ensures(0u8);
}

/// A text can be taken over exactly where it holds no NUL character, and C code is
/// then pointed at its UTF-8 form with one zero byte behind it.
pub proof fn law_c_text_is_the_text_and_a_zero(
    text: &str,
    made: Option<CText>,
    bytes: &[u8],
    with_nul: &[u8],
    len: usize,
)
    requires
        call_ensures(CText::new, (text,), made),
        made matches Some(c) ==> {
            &&& call_ensures(CText::as_bytes, (&c,), bytes)
            &&& call_ensures(CText::as_bytes_with_nul, (&c,), with_nul)
            &&& call_ensures(CText::len, (&c,), len)
        },
    ensures
        made is Some <==> !text@.contains('\0'),
        made is Some ==> {
            &&& bytes@ == encode_utf8(text@)
            &&& with_nul@ == encode_utf8(text@).push(0)
            &&& len == encode_utf8(text@).len()
        },
{
}

/// Asking first whether a text is free of NUL characters tells whether it can be taken over.
pub proof fn law_asking_tells_what_can_be_taken_over(text: &str, asked: bool, made: Option<CText>)
    requires
        call_ensures(is_nul_free, (text,), asked),
        call_ensures(CText::new, (text,), made),
    ensures
        asked <==> made is Some,
        asked <==> !text@.contains('\0'),
{
}

/// The C form of a text is its UTF-8 form.
pub proof fn law_c_form_is_utf8(s: String, c: CText)
    requires
        call_ensures(cstr, (s,), c),
    ensures
        c@ == encode_utf8(s@),
{
}

} // verus!
