use vstd::prelude::*;
use vstd::string::axiom_spec_iter;
use vstd::std_specs::iter::IteratorSpec;

verus! {

/// The UTF-16 code units of one character: itself below `0x10000`, else
/// the surrogate pair that carries the 20 bits above that.
pub open spec fn utf16_of_char(c: char) -> Seq<u16> {
    let v = c as int;
    if v < 0x10000 {
        seq![v as u16]
    } else {
        let w = v - 0x10000;
        seq![(0xD800 + w / 0x400) as u16, (0xDC00 + w % 0x400) as u16]
    }
}

/// The UTF-16 encoding of a text, character by character.
pub open spec fn utf16_of(text: Seq<char>) -> Seq<u16>
    decreases text.len(),
{
    if text.len() == 0 {
        seq![]
    } else {
        utf16_of(text.drop_last()) + utf16_of_char(text.last())
    }
}

/// A unit that opens a surrogate pair.
pub open spec fn is_high_surrogate(u: u16) -> bool {
    0xD800 <= u <= 0xDBFF
}

/// A unit that closes a surrogate pair.
pub open spec fn is_low_surrogate(u: u16) -> bool {
    0xDC00 <= u <= 0xDFFF
}

/// The code point a surrogate pair stands for.
pub open spec fn pair_code_point(high: u16, low: u16) -> int {
    0x10000 + (high - 0xD800) * 0x400 + (low - 0xDC00)
}

/// Reads UTF-16 units back into characters, from the last unit: a high
/// surrogate followed by a low one is the character of the pair; any
/// other unit is the character with that code point.
pub open spec fn utf16_decode(units: Seq<u16>) -> Seq<char>
    decreases units.len(),
{
    if units.len() == 0 {
        seq![]
    } else if units.len() >= 2 && is_low_surrogate(units.last()) && is_high_surrogate(
        units[units.len() - 2],
    ) {
        utf16_decode(units.subrange(0, units.len() - 2)).push(
            pair_code_point(units[units.len() - 2], units.last()) as u32 as char,
        )
    } else {
        utf16_decode(units.drop_last()).push(units.last() as u32 as char)
    }
}

/// Reading the units of a text back gives the text.
pub proof fn utf16_round_trip(text: Seq<char>)
    ensures
        utf16_decode(utf16_of(text)) == text,
    decreases text.len(),
{
    if text.len() > 0 {
        let rest = text.drop_last();
        let c = text.last();
        utf16_round_trip(rest);
        let a = utf16_of(rest);
        let units = utf16_of(text);
        assert(units == a + utf16_of_char(c));
        let v = c as int;
        vstd::utf8::char_is_scalar(c);
        vstd::utf8::char_u32_cast(c, c as u32);
        assert(0 <= v <= 0x10FFFF);
        assert(v < 0xD800 || v > 0xDFFF);
        if v < 0x10000 {
            assert(units.drop_last() =~= a);
            assert(units.last() as int == v);
            assert(!is_low_surrogate(units.last()));
            assert(units.last() as u32 == c as u32);
        } else {
            let w = v - 0x10000;
            assert(0 <= w < 0x100000);
            assert(w / 0x400 < 0x400) by (nonlinear_arith)
                requires
                    0 <= w < 0x100000,
            ;
            assert((w / 0x400) * 0x400 + w % 0x400 == w) by (nonlinear_arith)
                requires
                    0 <= w,
            ;
            assert(0 <= w % 0x400 < 0x400) by (nonlinear_arith)
                requires
                    0 <= w,
            ;
            assert(units.subrange(0, units.len() - 2) =~= a);
            assert(units[units.len() - 2] as int == 0xD800 + w / 0x400);
            assert(units.last() as int == 0xDC00 + w % 0x400);
            assert(pair_code_point(units[units.len() - 2], units.last()) == v);
            assert(pair_code_point(units[units.len() - 2], units.last()) as u32 == c as u32);
        }
        assert(text =~= rest.push(c));
    }
}

/// A character below `0x10000` is the one unit equal to its code point;
/// any other is two units, a high surrogate then a low one.
pub proof fn utf16_units_of_one_character(c: char)
    ensures
        (c as int) < 0x10000 ==> utf16_of(seq![c]).len() == 1 && utf16_of(seq![c])[0] as int
            == c as int,
        (c as int) >= 0x10000 ==> utf16_of(seq![c]).len() == 2 && is_high_surrogate(
            utf16_of(seq![c])[0],
        ) && is_low_surrogate(utf16_of(seq![c])[1]) && pair_code_point(
            utf16_of(seq![c])[0],
            utf16_of(seq![c])[1],
        ) == c as int,
{
    assert(seq![c].drop_last() =~= Seq::<char>::empty());
    assert(utf16_of(Seq::<char>::empty()) =~= Seq::<u16>::empty());
    assert(utf16_of(seq![c]) =~= utf16_of_char(c));
    let v = c as int;
    if v >= 0x10000 {
        let w = v - 0x10000;
        assert(w / 0x400 < 0x400) by (nonlinear_arith)
            requires
                0 <= w < 0x100000,
        ;
        assert((w / 0x400) * 0x400 + w % 0x400 == w) by (nonlinear_arith)
            requires
                0 <= w,
        ;
        assert(0 <= w % 0x400 < 0x400) by (nonlinear_arith)
            requires
                0 <= w,
        ;
    }
}

fn push_utf16(out: &mut Vec<u16>, c: char)
    ensures
        final(out)@ == old(out)@ + utf16_of_char(c),
{
    let v: u32 = c as u32;
    if v < 0x10000 {
        out.push(v as u16);
    } else {
        let w: u32 = v - 0x10000;
        assert(w < 0x100000);
        out.push((0xD800 + w / 0x400) as u16);
        out.push((0xDC00 + w % 0x400) as u16);
    }
}

/// The UTF-16 encoding of a window title, unit by unit, with no
/// terminating zero.
pub fn wide_title(title: &str) -> (wide: Vec<u16>)
    ensures
        wide@ == utf16_of(title@),
        utf16_decode(wide@) == title@,
{
    let mut out: Vec<u16> = Vec::new();
    let mut chars = title.chars();
    let ghost done: Seq<char> = seq![];
    proof {
        axiom_spec_iter(title);
        assert(done + chars.remaining() =~= title@);
    }
    loop
        invariant
            done + chars.remaining() == title@,
            out@ == utf16_of(done),
            chars.decrease() is Some,
        ensures
            out@ == utf16_of(title@),
        decreases chars.decrease()->0,
    {
        match chars.next() {
            Some(c) => {
                proof {
                    assert(done.push(c).drop_last() =~= done);
                    assert(done.push(c) + chars.remaining() =~= title@);
                    done = done.push(c);
                }
                push_utf16(&mut out, c);
            },
            None => {
                assert(done =~= title@);
                assert(out@ == utf16_of(title@));
                break;
            },
        }
    }
    proof {
        utf16_round_trip(title@);
    }
    out
}

} // verus!
