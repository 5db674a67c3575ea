//! UTF-16 text as the host holds it: sequences of 16-bit units.

use vstd::prelude::*;

verus! {

/// A unit in the surrogate range, which never stands for a character alone.
pub open spec fn is_surrogate(unit: u16) -> bool {
    0xD800 <= unit <= 0xDFFF
}

/// The first unit of a surrogate pair.
pub open spec fn is_high_surrogate(unit: u16) -> bool {
    0xD800 <= unit <= 0xDBFF
}

/// The second unit of a surrogate pair.
pub open spec fn is_low_surrogate(unit: u16) -> bool {
    0xDC00 <= unit <= 0xDFFF
}

/// A code point that is a character: in range and no surrogate.
pub open spec fn is_scalar(code: u32) -> bool {
    code < 0xD800 || 0xE000 <= code <= 0x10FFFF
}

/// The code point that a surrogate pair stands for.
pub open spec fn pair_code(high: u16, low: u16) -> u32 {
    (0x10000 + (high - 0xD800) * 0x400 + (low - 0xDC00)) as u32
}

/// The units of one character: itself below 0x10000, a surrogate pair above.
pub open spec fn char_units(c: char) -> Seq<u16> {
    let code = c as u32;
    if code < 0x10000 {
        seq![code as u16]
    } else {
        seq![
            (0xD800 + (code - 0x10000) / 0x400) as u16,
            (0xDC00 + (code - 0x10000) % 0x400) as u16,
        ]
    }
}

/// The UTF-16 form of a text: the units of its characters, in order.
pub open spec fn encode_utf16(text: Seq<char>) -> Seq<u16>
    decreases text.len(),
{
    if text.len() == 0 {
        Seq::empty()
    } else {
        char_units(text[0]) + encode_utf16(text.skip(1))
    }
}

/// The text that a sequence of units stands for, or `None` where a surrogate
/// is not part of a pair.
pub open spec fn decode_utf16(units: Seq<u16>) -> Option<Seq<char>>
    decreases units.len(),
{
    if units.len() == 0 {
        Some(Seq::empty())
    } else if !is_surrogate(units[0]) {
        match decode_utf16(units.skip(1)) {
            Some(rest) => Some(seq![units[0] as char] + rest),
            None => None,
        }
    } else if is_high_surrogate(units[0]) && units.len() >= 2 && is_low_surrogate(units[1]) {
        match decode_utf16(units.skip(2)) {
            Some(rest) => Some(seq![pair_code(units[0], units[1]) as char] + rest),
            None => None,
        }
    } else {
        None
    }
}

/// The text of `units`, and the empty text where they are not well-formed.
pub open spec fn text_or_empty(units: Seq<u16>) -> Seq<char> {
    match decode_utf16(units) {
        Some(text) => text,
        None => Seq::empty(),
    }
}

/// What `encode_utf16` adds for one more character in front.
proof fn lemma_encode_step(text: Seq<char>, done: int)
    requires
        0 <= done < text.len(),
    ensures
        encode_utf16(text.skip(done)) == char_units(text[done]) + encode_utf16(
            text.skip(done + 1),
        ),
{
    assert(text.skip(done).skip(1) == text.skip(done + 1));
}

/// Encodes `text` as UTF-16 units, without a terminator.
pub fn to_wide(text: &str) -> (units: Vec<u16>)
    ensures
        units@ == encode_utf16(text@),
{
    let mut units: Vec<u16> = Vec::new();
    assert(text@.skip(0) == text@);
    assert(units@ + encode_utf16(text@) == encode_utf16(text@));
    for c in it: text.chars()
        invariant
            it.seq() == text@,
            encode_utf16(text@) == units@ + encode_utf16(text@.skip(it.index())),
    {
        proof {
            lemma_encode_step(text@, it.index());
        }
        let ghost before = units@;
        let code: u32 = c as u32;
        if code < 0x10000 {
            units.push(code as u16);
        } else {
            let offset: u32 = code - 0x10000;
            units.push((0xD800 + offset / 0x400) as u16);
            units.push((0xDC00 + offset % 0x400) as u16);
        }
        assert(units@ == before + char_units(c));
    }
    units
}

/// `char::from_u32` of std: the character with this code point, and `None`
/// for a surrogate or a number above 0x10FFFF.
pub assume_specification[ char::from_u32 ](i: u32) -> (c: Option<char>)
    ensures
        is_scalar(i) ==> c == Some(i as char),
        !is_scalar(i) ==> c is None,
;

/// `String::push` of std: the character is appended to the string.
pub assume_specification[ String::push ](s: &mut String, ch: char)
    ensures
        final(s)@ == old(s)@.push(ch),
;

/// What `decode_utf16` says of the units that are left, once `text` has been
/// read from the units before them.
spec fn decoded_so_far(text: Seq<char>, rest: Seq<u16>) -> Option<Seq<char>> {
    match decode_utf16(rest) {
        Some(tail) => Some(text + tail),
        None => None,
    }
}

/// Decodes UTF-16 units. `None` where a surrogate is not part of a pair.
pub fn from_wide(units: &[u16]) -> (text: Option<String>)
    ensures
        decode_utf16(units@) is Some <==> text is Some,
        text matches Some(t) ==> Some(t@) == decode_utf16(units@),
{
    let mut text = String::new();
    let mut at: usize = 0;
    assert(units@.skip(0) == units@);
    assert(Seq::<char>::empty() + decode_utf16(units@).unwrap() == decode_utf16(units@).unwrap());
    while at < units.len()
        invariant
            at <= units.len(),
            decode_utf16(units@) == decoded_so_far(text@, units@.skip(at as int)),
        decreases units.len() - at,
    {
        let ghost rest = units@.skip(at as int);
        let ghost before = text@;
        let unit: u16 = units[at];
        assert(rest[0] == unit);
        if unit < 0xD800 || unit > 0xDFFF {
            assert(rest.skip(1) == units@.skip(at + 1));
            match char::from_u32(unit as u32) {
                Some(c) => {
                    text.push(c);
                    at = at + 1;
                    proof {
                        let tail = decode_utf16(rest.skip(1));
                        if tail is Some {
                            assert(before + (seq![c] + tail.unwrap()) == before.push(c)
                                + tail.unwrap());
                        }
                    }
                },
                None => {
                    return None;
                },
            }
        } else if unit <= 0xDBFF && at + 1 < units.len() {
            let low: u16 = units[at + 1];
            assert(rest[1] == low);
            if low < 0xDC00 || low > 0xDFFF {
                return None;
            }
            assert(rest.skip(2) == units@.skip(at + 2));
            let code: u32 = 0x10000 + ((unit - 0xD800) as u32) * 0x400 + ((low - 0xDC00) as u32);
            match char::from_u32(code) {
                Some(c) => {
                    text.push(c);
                    at = at + 2;
                    proof {
                        let tail = decode_utf16(rest.skip(2));
                        if tail is Some {
                            assert(before + (seq![c] + tail.unwrap()) == before.push(c)
                                + tail.unwrap());
                        }
                    }
                },
                None => {
                    return None;
                },
            }
        } else {
            return None;
        }
    }
    assert(units@.skip(at as int) == Seq::<u16>::empty());
    assert(text@ + Seq::<char>::empty() == text@);
    Some(text)
}

/// Decodes UTF-16 units, and gives the empty string where they are not
/// well-formed.
pub fn text_from_wide(units: &[u16]) -> (text: String)
    ensures
        text@ == text_or_empty(units@),
{
    match from_wide(units) {
        Some(text) => text,
        None => String::new(),
    }
}

/// Decoding undoes encoding: the units of any text are well-formed and stand
/// for that text.
pub proof fn lemma_decode_encode(text: Seq<char>)
    ensures
        decode_utf16(encode_utf16(text)) == Some(text),
        text_or_empty(encode_utf16(text)) == text,
    decreases text.len(),
{
    if text.len() > 0 {
        let c = text[0];
        let code = c as u32;
        let head = char_units(c);
        let tail = encode_utf16(text.skip(1));
        let units = encode_utf16(text);
        lemma_decode_encode(text.skip(1));
        vstd::utf8::char_is_scalar(c);
        vstd::utf8::char_u32_cast(c, code);
        assert(units == head + tail);
        if code < 0x10000 {
            assert(units[0] == code);
            assert(units.skip(1) == tail);
            assert(units[0] as char == c);
        } else {
            assert(units[0] == (0xD800 + (code - 0x10000) / 0x400) as u16);
            assert(units[1] == (0xDC00 + (code - 0x10000) % 0x400) as u16);
            assert(units.skip(2) == tail);
            assert(pair_code(units[0], units[1]) == code);
        }
        assert(seq![c] + text.skip(1) == text);
    }
}

/// Encoding undoes decoding: well-formed units are the units of the text
/// that they stand for, so no two sequences of units stand for the same text.
pub proof fn lemma_encode_decode(units: Seq<u16>)
    requires
        decode_utf16(units) is Some,
    ensures
        encode_utf16(decode_utf16(units).unwrap()) == units,
    decreases units.len(),
{
    if units.len() > 0 {
        let text = decode_utf16(units).unwrap();
        if !is_surrogate(units[0]) {
            let rest = decode_utf16(units.skip(1)).unwrap();
            lemma_encode_decode(units.skip(1));
            assert(text == seq![units[0] as char] + rest);
            assert(text.skip(1) == rest);
            assert(text[0] as u32 == units[0]);
            assert(char_units(text[0]) == seq![units[0]]);
            assert(seq![units[0]] + units.skip(1) == units);
        } else {
            let rest = decode_utf16(units.skip(2)).unwrap();
            let code = pair_code(units[0], units[1]);
            lemma_encode_decode(units.skip(2));
            assert(text == seq![code as char] + rest);
            assert(text.skip(1) == rest);
            assert(text[0] as u32 == code);
            assert((code - 0x10000) / 0x400 == units[0] - 0xD800);
            assert((code - 0x10000) % 0x400 == units[1] - 0xDC00);
            assert(char_units(text[0]) == seq![units[0], units[1]]);
            assert(seq![units[0], units[1]] + units.skip(2) == units);
        }
    }
}

} // verus!
