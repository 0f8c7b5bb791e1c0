//! Decoding of the UTF-16 code units that the system delivers one message at a time.
use vstd::prelude::*;
use vstd::utf8::{char_is_scalar, char_u32_cast, is_scalar};

verus! {

/// `char::from_u32` gives a character exactly for the Unicode scalar values, and it is the
/// character with that number.
pub assume_specification[ char::from_u32 ](i: u32) -> (res: Option<char>)
    ensures
        res is Some <==> is_scalar(i),
        res matches Some(c) ==> c as u32 == i,
;

/// Stands for a code unit that is part of no character.
pub const REPLACEMENT_CHARACTER: char = '\u{FFFD}';

/// The first half of a surrogate pair.
pub open spec fn is_high_surrogate(unit: u16) -> bool {
    0xD800 <= unit <= 0xDBFF
}

/// The second half of a surrogate pair.
pub open spec fn is_low_surrogate(unit: u16) -> bool {
    0xDC00 <= unit <= 0xDFFF
}

/// The number of the character that a surrogate pair stands for.
pub open spec fn surrogate_pair(high: u16, low: u16) -> u32 {
    (0x10000 + (high - 0xD800) * 0x400 + (low - 0xDC00)) as u32
}

/// The text that the code units spell. A surrogate without its other half becomes
/// [`REPLACEMENT_CHARACTER`].
pub open spec fn utf16_text(units: Seq<u16>) -> Seq<char>
    decreases units.len(),
{
    if units.len() == 0 {
        seq![]
    } else if !is_high_surrogate(units[0]) && !is_low_surrogate(units[0]) {
        seq![units[0] as u32 as char] + utf16_text(units.skip(1))
    } else if is_high_surrogate(units[0]) && units.len() > 1 && is_low_surrogate(units[1]) {
        seq![surrogate_pair(units[0], units[1]) as char] + utf16_text(units.skip(2))
    } else {
        seq![REPLACEMENT_CHARACTER] + utf16_text(units.skip(1))
    }
}

/// The character with the number `i`.
fn scalar_to_char(i: u32) -> (res: char)
    requires
        is_scalar(i),
    ensures
        res == i as char,
{
    match char::from_u32(i) {
        Some(c) => {
            proof {
                char_u32_cast(c, i);
            }
            c
        },
        None => REPLACEMENT_CHARACTER,
    }
}

/// Decodes UTF-16 code units into characters.
pub fn decode_utf16(units: &Vec<u16>) -> (res: Vec<char>)
    ensures
        res@ == utf16_text(units@),
{
    let mut res: Vec<char> = Vec::new();
    let mut i: usize = 0;
    assert(units@.skip(0) =~= units@);
    while i < units.len()
        invariant
            i <= units.len(),
            res@ + utf16_text(units@.skip(i as int)) == utf16_text(units@),
        decreases units.len() - i,
    {
        let unit: u16 = units[i];
        let ghost rest = units@.skip(i as int);
        let ghost before = res@;
        assert(rest.skip(1) =~= units@.skip(i + 1));
        if unit < 0xD800 || unit > 0xDFFF {
            let c = scalar_to_char(unit as u32);
            res.push(c);
            assert(before + (seq![c] + utf16_text(rest.skip(1))) =~= res@ + utf16_text(
                rest.skip(1),
            ));
            i += 1;
        } else if unit <= 0xDBFF && units.len() - i > 1 && 0xDC00 <= units[i + 1] && units[i + 1]
            <= 0xDFFF {
            let low: u16 = units[i + 1];
            let number: u32 = 0x10000 + (unit as u32 - 0xD800) * 0x400 + (low as u32 - 0xDC00);
            assert(rest[1] == low);
            assert(number == surrogate_pair(unit, low));
            let c = scalar_to_char(number);
            res.push(c);
            assert(rest.skip(2) =~= units@.skip(i + 2));
            assert(before + (seq![c] + utf16_text(rest.skip(2))) =~= res@ + utf16_text(
                rest.skip(2),
            ));
            i += 2;
        } else {
            res.push(REPLACEMENT_CHARACTER);
            assert(units.len() - i > 1 ==> rest[1] == units[i + 1]);
            assert(before + (seq![REPLACEMENT_CHARACTER] + utf16_text(rest.skip(1))) =~= res@
                + utf16_text(rest.skip(1)));
            i += 1;
        }
    }
    assert(units@.skip(units.len() as int) =~= seq![]);
    assert(res@ + utf16_text(seq![]) =~= res@);
    res
}

/// The code units of a character: its number where that fits, else the two halves of a surrogate
/// pair, with the upper ten of the twenty bits above `0x10000` in the first.
pub open spec fn units_of_char(c: char) -> Seq<u16> {
    let number = c as u32 as int;
    if number < 0x10000 {
        seq![number as u16]
    } else {
        seq![
            (0xD800 + (number - 0x10000) / 0x400) as u16,
            (0xDC00 + (number - 0x10000) % 0x400) as u16,
        ]
    }
}

/// The code units of a text.
pub open spec fn utf16_units(text: Seq<char>) -> Seq<u16>
    decreases text.len(),
{
    if text.len() == 0 {
        seq![]
    } else {
        units_of_char(text[0]) + utf16_units(text.skip(1))
    }
}

/// Decoding the code units of a text gives the text back.
pub proof fn encoded_text_is_decoded(text: Seq<char>)
    ensures
        utf16_text(utf16_units(text)) == text,
    decreases text.len(),
{
    if text.len() > 0 {
        let c = text[0];
        let number = c as u32;
        let rest = utf16_units(text.skip(1));
        let units = utf16_units(text);
        encoded_text_is_decoded(text.skip(1));
        char_is_scalar(c);
        char_u32_cast(c, number);
        if number < 0x10000 {
            assert(units.skip(1) =~= rest);
            assert(units[0] as u32 == number);
        } else {
            assert(units.skip(2) =~= rest);
            assert(surrogate_pair(units[0], units[1]) == number);
        }
        assert(seq![c] + text.skip(1) =~= text);
    } else {
        assert(utf16_text(utf16_units(text)) =~= text);
    }
}

/// A half of a surrogate pair without the other half behind it becomes one replacement character,
/// and what follows is decoded as if it stood alone.
pub proof fn lone_surrogate_is_replaced(units: Seq<u16>)
    requires
        units.len() > 0,
        0xD800 <= units[0] <= 0xDFFF,
        units[0] >= 0xDC00 || units.len() == 1 || units[1] < 0xDC00 || units[1] > 0xDFFF,
    ensures
        utf16_text(units).len() > 0,
        utf16_text(units)[0] as u32 == 0xFFFD,
        utf16_text(units).skip(1) == utf16_text(units.skip(1)),
{
    assert(utf16_text(units).skip(1) =~= utf16_text(units.skip(1)));
}

/// Decoding the code units of a text gives the characters of the text, in order.
pub proof fn units_are_decoded(units: Vec<u16>, chars: Vec<char>, text: Seq<char>)
    requires
        call_ensures(decode_utf16, (&units,), chars),
        units@ == utf16_units(text),
    ensures
        chars@ == text,
{
    encoded_text_is_decoded(text);
}

/// Code units that begin with a half of a surrogate pair without the other half are decoded to a
/// replacement character and what the other units are decoded to.
pub proof fn broken_units_are_replaced(
    units: Vec<u16>,
    rest: Vec<u16>,
    chars: Vec<char>,
    rest_chars: Vec<char>,
)
    requires
        call_ensures(decode_utf16, (&units,), chars),
        call_ensures(decode_utf16, (&rest,), rest_chars),
        units@.len() > 0,
        rest@ == units@.skip(1),
        0xD800 <= units@[0] <= 0xDFFF,
        units@[0] >= 0xDC00 || units@.len() == 1 || units@[1] < 0xDC00 || units@[1] > 0xDFFF,
    ensures
        chars@ == seq!['\u{FFFD}'] + rest_chars@,
{
    lone_surrogate_is_replaced(units@);
}

} // verus!
