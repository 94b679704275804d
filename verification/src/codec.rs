//! The stored form of the face text.
//!
//! The registry keeps the text as a binary value: its UTF-8 bytes and one
//! closing nul byte. A reader takes the bytes in front of the first nul and
//! ignores what follows it. The editor's length rule counts UTF-16 code
//! units, which is what the game that reads the value measures.

use std::str::Utf8Error;
use vstd::prelude::*;
use vstd::utf8::*;

verus! {

/// The largest number of UTF-16 code units a face can show.
pub const FACE_TEXT_LIMIT: usize = 3;

/// `std::str::Utf8Error`, carried as a value that is not looked into.
#[verifier::external_type_specification]
#[verifier::external_body]
pub struct ExUtf8Error(std::str::Utf8Error);

/// `Utf8Error` is a plain value: its `clone` returns a copy of it.
pub assume_specification[ <std::str::Utf8Error as Clone>::clone ](e: &std::str::Utf8Error) -> (res: std::str::Utf8Error)
    ensures
        res == *e,
;

/// The error that `core::str::from_utf8` reports for bytes that are not
/// UTF-8. It records where the bytes stop being valid, so it depends on the
/// bytes and on nothing else.
pub uninterp spec fn utf8_error(bytes: Seq<u8>) -> Utf8Error;

/// `core::str::from_utf8` accepts exactly the well-formed UTF-8 byte
/// strings. The string slice it returns covers the bytes it was given;
/// for anything else it returns its error for those bytes.
pub assume_specification<'a>[ core::str::from_utf8 ](v: &'a [u8]) -> (res: Result<&'a str, std::str::Utf8Error>)
    ensures
        res is Ok <==> valid_utf8(v@),
        res matches Ok(s) ==> encode_utf8(s@) == v@,
        res matches Err(e) ==> e == utf8_error(v@),
;

/// `end` splits a stored value at its first nul byte: no byte in front of
/// `end` is nul, and `end` is either a nul byte or the end of the value.
pub open spec fn is_text_end(raw: Seq<u8>, end: int) -> bool {
    &&& 0 <= end <= raw.len()
    &&& forall|i: int| 0 <= i < end ==> raw[i] != 0
    &&& end < raw.len() ==> raw[end] == 0
}

/// The index of the first nul byte of a stored value, or its length where
/// it holds none.
pub open spec fn text_end(raw: Seq<u8>) -> int
    decreases raw.len(),
{
    if raw.len() == 0 || raw[0] == 0 {
        0
    } else {
        1 + text_end(raw.drop_first())
    }
}

/// The bytes of a stored value that hold the text.
pub open spec fn text_bytes(raw: Seq<u8>) -> Seq<u8> {
    raw.subrange(0, text_end(raw))
}

/// The text that a stored value holds, where its text bytes are UTF-8.
pub open spec fn decoded_text(raw: Seq<u8>) -> Option<Seq<char>> {
    if valid_utf8(text_bytes(raw)) {
        Some(decode_utf8(text_bytes(raw)))
    } else {
        None
    }
}

/// The stored value for a text: its UTF-8 bytes, then one nul byte.
pub open spec fn encoded_text(text: Seq<char>) -> Seq<u8> {
    encode_utf8(text).push(0)
}

/// The characters of a text in front of its first nul character: all of
/// them where it holds none.
pub open spec fn text_before_nul(text: Seq<char>) -> Seq<char>
    decreases text.len(),
{
    if text.len() == 0 || text[0] == '\0' {
        Seq::empty()
    } else {
        seq![text[0]] + text_before_nul(text.drop_first())
    }
}

/// The number of UTF-16 code units that one character takes.
pub open spec fn utf16_units(c: char) -> nat {
    if (c as u32) < 0x10000 {
        1
    } else {
        2
    }
}

/// The number of UTF-16 code units that a text takes.
pub open spec fn utf16_length(text: Seq<char>) -> nat
    decreases text.len(),
{
    if text.len() == 0 {
        0
    } else {
        utf16_units(text[0]) + utf16_length(text.drop_first())
    }
}

/// The UTF-16 code units that begin at one byte of a UTF-8 string: a byte
/// that continues a character begins none, the first byte of a four-byte
/// character begins a surrogate pair, any other first byte begins one unit.
pub open spec fn units_from_byte(b: u8) -> nat {
    if is_continuation_byte(b) {
        0
    } else if b >= 0xf0 {
        2
    } else {
        1
    }
}

/// The UTF-16 code units counted byte by byte.
pub open spec fn units_in_bytes(bytes: Seq<u8>) -> nat
    decreases bytes.len(),
{
    if bytes.len() == 0 {
        0
    } else {
        units_from_byte(bytes[0]) + units_in_bytes(bytes.drop_first())
    }
}

/// `text_end` is the one index that splits a value at its first nul byte.
pub proof fn lemma_text_end(raw: Seq<u8>)
    ensures
        is_text_end(raw, text_end(raw)),
        forall|end: int| is_text_end(raw, end) ==> end == text_end(raw),
    decreases raw.len(),
{
    if raw.len() == 0 || raw[0] == 0 {
    } else {
        let rest = raw.drop_first();
        lemma_text_end(rest);
        let here = text_end(raw);
        assert forall|i: int| 0 <= i < here implies raw[i] != 0 by {
            if i > 0 {
                assert(raw[i] == rest[i - 1]);
            }
        }
        assert forall|end: int| is_text_end(raw, end) implies end == here by {
            assert(end > 0);
            assert forall|i: int| 0 <= i < end - 1 implies rest[i] != 0 by {
                assert(rest[i] == raw[i + 1]);
            }
            assert(is_text_end(rest, end - 1));
        }
    }
}

proof fn lemma_scalar_bytes(scalar: u32)
    by (bit_vector)
    requires
        is_scalar(scalar),
    ensures
        has_width_1_encoding(scalar) ==> leading_byte_width_1(scalar) < 0x80 && (
        leading_byte_width_1(scalar) == 0 <==> scalar == 0),
        has_width_2_encoding(scalar) ==> 0xc0 <= leading_byte_width_2(scalar) < 0xe0,
        has_width_3_encoding(scalar) ==> 0xe0 <= leading_byte_width_3(scalar) < 0xf0,
        has_width_4_encoding(scalar) ==> 0xf0 <= leading_byte_width_4(scalar),
        0x80 <= last_continuation_byte(scalar) < 0xc0,
        0x80 <= second_last_continuation_byte(scalar) < 0xc0,
        0x80 <= third_last_continuation_byte(scalar) < 0xc0,
{
}

proof fn lemma_units_in_bytes_concat(front: Seq<u8>, back: Seq<u8>)
    ensures
        units_in_bytes(front + back) == units_in_bytes(front) + units_in_bytes(back),
    decreases front.len(),
{
    if front.len() == 0 {
        assert(front + back =~= back);
    } else {
        assert((front + back).drop_first() =~= front.drop_first() + back);
        lemma_units_in_bytes_concat(front.drop_first(), back);
    }
}

proof fn lemma_units_of_char(c: char)
    ensures
        units_in_bytes(encode_scalar(c as u32)) == utf16_units(c),
        utf16_units(c) <= encode_scalar(c as u32).len(),
{
    let scalar = c as u32;
    let bytes = encode_scalar(scalar);
    char_is_scalar(c);
    lemma_scalar_bytes(scalar);
    reveal_with_fuel(units_in_bytes, 5);
    if has_width_1_encoding(scalar) {
        assert(bytes.drop_first() =~= Seq::<u8>::empty());
    } else if has_width_2_encoding(scalar) {
        assert(bytes.drop_first() =~= seq![bytes[1]]);
        assert(bytes.drop_first().drop_first() =~= Seq::<u8>::empty());
    } else if has_width_3_encoding(scalar) {
        assert(bytes.drop_first() =~= seq![bytes[1], bytes[2]]);
        assert(bytes.drop_first().drop_first() =~= seq![bytes[2]]);
        assert(bytes.drop_first().drop_first().drop_first() =~= Seq::<u8>::empty());
    } else {
        assert(bytes.drop_first() =~= seq![bytes[1], bytes[2], bytes[3]]);
        assert(bytes.drop_first().drop_first() =~= seq![bytes[2], bytes[3]]);
        assert(bytes.drop_first().drop_first().drop_first() =~= seq![bytes[3]]);
        assert(bytes.drop_first().drop_first().drop_first().drop_first() =~= Seq::<u8>::empty());
    }
}

/// Counting byte by byte over the UTF-8 form of a text gives its UTF-16
/// length, which is never more than the number of its bytes.
pub proof fn lemma_units_in_utf8(text: Seq<char>)
    ensures
        units_in_bytes(encode_utf8(text)) == utf16_length(text),
        utf16_length(text) <= encode_utf8(text).len(),
    decreases text.len(),
{
    if text.len() > 0 {
        lemma_units_of_char(text[0]);
        lemma_units_in_utf8(text.drop_first());
        lemma_units_in_bytes_concat(encode_scalar(text[0] as u32), encode_utf8(text.drop_first()));
    }
}

/// The UTF-8 form of a text holds a nul byte only where the text holds a
/// nul character.
pub proof fn lemma_utf8_without_nul(text: Seq<char>)
    requires
        !text.contains('\0'),
    ensures
        !encode_utf8(text).contains(0u8),
    decreases text.len(),
{
    if text.len() > 0 {
        let c = text[0];
        let rest = text.drop_first();
        let head = encode_scalar(c as u32);
        assert(text.contains(c));
        assert(!rest.contains('\0')) by {
            if rest.contains('\0') {
                let i = choose|i: int| 0 <= i < rest.len() && rest[i] == '\0';
                assert(text[i + 1] == '\0');
            }
        }
        lemma_utf8_without_nul(rest);
        char_is_scalar(c);
        lemma_scalar_bytes(c as u32);
        assert(c as u32 != 0) by {
            if c as u32 == 0 {
                char_u32_cast(c, 0u32);
            }
        }
        let bytes = encode_utf8(text);
        assert forall|i: int| 0 <= i < bytes.len() implies bytes[i] != 0 by {
            if i >= head.len() {
                assert(encode_utf8(rest).contains(bytes[i]));
            }
        }
    }
}

/// A text without a nul character is all in front of its first nul.
pub proof fn lemma_text_before_nul_is_whole(text: Seq<char>)
    requires
        !text.contains('\0'),
    ensures
        text_before_nul(text) == text,
    decreases text.len(),
{
    if text.len() > 0 {
        let rest = text.drop_first();
        assert(text.contains(text[0]));
        assert(!rest.contains('\0')) by {
            if rest.contains('\0') {
                let i = choose|i: int| 0 <= i < rest.len() && rest[i] == '\0';
                assert(text[i + 1] == '\0');
            }
        }
        lemma_text_before_nul_is_whole(rest);
        assert(seq![text[0]] + rest =~= text);
    } else {
        assert(text =~= Seq::<char>::empty());
    }
}

proof fn lemma_text_before_nul(text: Seq<char>)
    ensures
        !text_before_nul(text).contains('\0'),
        text_before_nul(text).len() <= text.len(),
        text_before_nul(text) == text.subrange(0, text_before_nul(text).len() as int),
        text_before_nul(text).len() < text.len() ==> text[text_before_nul(text).len() as int]
            == '\0',
    decreases text.len(),
{
    let front = text_before_nul(text);
    if text.len() == 0 || text[0] == '\0' {
        assert(front =~= text.subrange(0, 0));
    } else {
        let rest = text.drop_first();
        let rest_front = text_before_nul(rest);
        lemma_text_before_nul(rest);
        assert forall|i: int| 0 <= i < front.len() implies front[i] != '\0' by {
            if i > 0 {
                assert(rest_front.contains(front[i]));
            }
        }
        assert(front =~= text.subrange(0, front.len() as int)) by {
            assert forall|i: int| 0 <= i < front.len() implies front[i] == text[i] by {
                if i > 0 {
                    assert(rest_front[i - 1] == rest.subrange(0, rest_front.len() as int)[i - 1]);
                }
            }
        }
        if front.len() < text.len() {
            assert(rest[rest_front.len() as int] == '\0');
        }
    }
}

proof fn lemma_encode_utf8_concat(front: Seq<char>, back: Seq<char>)
    ensures
        encode_utf8(front + back) == encode_utf8(front) + encode_utf8(back),
    decreases front.len(),
{
    if front.len() == 0 {
        assert(front + back =~= back);
        assert(encode_utf8(front) + encode_utf8(back) =~= encode_utf8(back));
    } else {
        assert((front + back).drop_first() =~= front.drop_first() + back);
        lemma_encode_utf8_concat(front.drop_first(), back);
        assert(encode_scalar(front[0] as u32) + (encode_utf8(front.drop_first()) + encode_utf8(
            back,
        )) =~= (encode_scalar(front[0] as u32) + encode_utf8(front.drop_first())) + encode_utf8(
            back,
        ));
    }
}

/// Decoding what was encoded gives the text in front of its first nul
/// character: a text that holds a nul character comes back cut there.
pub proof fn lemma_text_round_trip_cuts_at_nul(text: Seq<char>)
    ensures
        text_bytes(encoded_text(text)) == encode_utf8(text_before_nul(text)),
        decoded_text(encoded_text(text)) == Some(text_before_nul(text)),
{
    let front = text_before_nul(text);
    let back = text.subrange(front.len() as int, text.len() as int);
    let bytes = encode_utf8(front);
    let raw = encoded_text(text);
    lemma_text_before_nul(text);
    assert(text =~= front + back);
    lemma_encode_utf8_concat(front, back);
    lemma_utf8_without_nul(front);
    assert forall|i: int| 0 <= i < bytes.len() implies raw[i] != 0 by {
        assert(bytes.contains(raw[i]));
    }
    if back.len() > 0 {
        assert(back[0] == '\0');
        assert(encode_scalar(back[0] as u32) =~= seq![0u8]) by {
            assert(leading_byte_width_1(0u32) == 0u8) by (bit_vector);
        }
        assert(encode_utf8(back)[0] == 0);
        assert(raw[bytes.len() as int] == 0);
    }
    assert(is_text_end(raw, bytes.len() as int));
    lemma_text_end(raw);
    assert(text_bytes(raw) =~= bytes);
    encode_utf8_valid_utf8(front);
    encode_utf8_decode_utf8(front);
}

/// Decoding what was encoded gives the text back, for every text without a
/// nul character.
pub proof fn lemma_text_round_trip(text: Seq<char>)
    requires
        !text.contains('\0'),
    ensures
        text_bytes(encoded_text(text)) == encode_utf8(text),
        decoded_text(encoded_text(text)) == Some(text),
{
    lemma_text_before_nul_is_whole(text);
    lemma_text_round_trip_cuts_at_nul(text);
}

/// Finds where the text of a stored value ends.
fn find_text_end(raw: &[u8]) -> (end: usize)
    ensures
        end == text_end(raw@),
{
    let mut end: usize = 0;
    while end < raw.len() && raw[end] != 0
        invariant
            end <= raw.len(),
            forall|i: int| 0 <= i < end ==> raw@[i] != 0,
        decreases raw.len() - end,
    {
        end += 1;
    }
    proof {
        lemma_text_end(raw@);
    }
    end
}

/// Reads the text out of a stored value: the bytes in front of the first
/// nul byte, or all of them where there is none, taken as UTF-8. Bytes
/// behind that nul are ignored. Fails exactly where those bytes are not
/// UTF-8.
pub fn str_from_u8_nul_utf8(utf8_src: &[u8]) -> (res: Result<&str, Utf8Error>)
    ensures
        match res {
            Ok(s) => decoded_text(utf8_src@) == Some(s@),
            Err(e) => decoded_text(utf8_src@) is None && e == utf8_error(text_bytes(utf8_src@)),
        },
{
    let nul_range_end = find_text_end(utf8_src);
    proof {
        lemma_text_end(utf8_src@);
    }
    let res = core::str::from_utf8(&utf8_src[0..nul_range_end]);
    proof {
        if let Ok(s) = res {
            encode_utf8_decode_utf8(s@);
        }
    }
    res
}

/// Writes a text as a stored value: its UTF-8 bytes and one closing nul.
pub fn str_to_u8_nul_utf8(s: &str) -> (v: Vec<u8>)
    ensures
        v@ == encoded_text(s@),
{
    let mut v = vstd::slice::slice_to_vec(s.as_bytes());
    v.push(0);
    v
}

/// Counts the UTF-16 code units of a text.
pub fn utf16_len(s: &str) -> (n: usize)
    ensures
        n == utf16_length(s@),
{
    let bytes = s.as_bytes();
    let mut n: usize = 0;
    let mut i: usize = 0;
    proof {
        lemma_units_in_utf8(s@);
        assert(bytes@.subrange(0, 0) =~= Seq::<u8>::empty());
    }
    while i < bytes.len()
        invariant
            i <= bytes.len(),
            bytes@ == encode_utf8(s@),
            n == units_in_bytes(bytes@.subrange(0, i as int)),
            units_in_bytes(bytes@) == utf16_length(s@),
            utf16_length(s@) <= bytes.len(),
        decreases bytes.len() - i,
    {
        let b = bytes[i];
        proof {
            let done = bytes@.subrange(0, i as int);
            let rest = bytes@.subrange(i as int + 1, bytes.len() as int);
            assert(bytes@.subrange(0, i as int + 1) =~= done + seq![b]);
            assert(bytes@ =~= bytes@.subrange(0, i as int + 1) + rest);
            lemma_units_in_bytes_concat(done, seq![b]);
            lemma_units_in_bytes_concat(bytes@.subrange(0, i as int + 1), rest);
            assert(seq![b].drop_first() =~= Seq::<u8>::empty());
            assert(units_in_bytes(seq![b]) == units_from_byte(b)) by {
                reveal_with_fuel(units_in_bytes, 2);
            }
        }
        if b >= 0xf0 {
            n += 2;
        } else if b < 0x80 || b >= 0xc0 {
            n += 1;
        }
        i += 1;
    }
    proof {
        assert(bytes@.subrange(0, i as int) =~= bytes@);
    }
    n
}

/// The length rule of the editor: a face shows at most three UTF-16 code
/// units. The rule is advice; a longer text is stored all the same.
pub fn is_face_too_long(s: &str) -> (res: bool)
    ensures
        res == (utf16_length(s@) > FACE_TEXT_LIMIT),
{
    utf16_len(s) > FACE_TEXT_LIMIT
}

} // verus!
