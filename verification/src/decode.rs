//! Reading the written array back, and what holds of its layout.

use vstd::prelude::*;
use crate::codegen::{line_break, literal, module_text, values, CLOSING, OPENING, PREAMBLE};
use crate::text::{decimal, decimal_round_trip, decimal_value, digit_char, digit_value};

verus! {

/// Whether `c` serves the layout of the array only: a space or a line feed.
pub open spec fn is_layout(c: char) -> bool {
    c == ' ' || c == '\n'
}

/// `text` without its layout characters.
pub open spec fn without_layout(text: Seq<char>) -> Seq<char>
    decreases text.len(),
{
    if text.len() == 0 {
        Seq::empty()
    } else if is_layout(text.last()) {
        without_layout(text.drop_last())
    } else {
        without_layout(text.drop_last()).push(text.last())
    }
}

/// The byte that five characters denote, if they are `0x`, two hexadecimal
/// digits and a comma.
pub open spec fn literal_value(text: Seq<char>) -> Option<u8> {
    if text.len() == 5 && text[0] == '0' && text[1] == 'x' && text[4] == ',' {
        match (digit_value(text[2]), digit_value(text[3])) {
            (Some(high), Some(low)) => Some((high * 16 + low) as u8),
            _ => None,
        }
    } else {
        None
    }
}

/// The bytes that `text` denotes, if it is a run of five-character literals
/// and nothing else.
pub open spec fn decode_packed(text: Seq<char>) -> Option<Seq<u8>>
    decreases text.len(),
{
    if text.len() == 0 {
        Some(Seq::empty())
    } else if text.len() < 5 {
        None
    } else {
        let cut = text.len() - 5;
        match (decode_packed(text.take(cut)), literal_value(text.skip(cut))) {
            (Some(bytes), Some(byte)) => Some(bytes.push(byte)),
            _ => None,
        }
    }
}

/// The bytes that an array body denotes, whatever its layout.
pub open spec fn decode(text: Seq<char>) -> Option<Seq<u8>> {
    decode_packed(without_layout(text))
}

/// One value of the array without its layout.
pub open spec fn packed_literal(byte: u8) -> Seq<char> {
    seq!['0', 'x', digit_char(byte as int / 16), digit_char(byte as int % 16), ',']
}

/// Removing layout from two texts joined is removing it from each.
pub proof fn without_layout_of_joined(left: Seq<char>, right: Seq<char>)
    ensures
        without_layout(left + right) == without_layout(left) + without_layout(right),
    decreases right.len(),
{
    if right.len() == 0 {
        assert(left + right =~= left);
        assert(without_layout(left) + without_layout(right) =~= without_layout(left));
    } else {
        without_layout_of_joined(left, right.drop_last());
        assert((left + right).drop_last() =~= left + right.drop_last());
        assert((left + right).last() == right.last());
        assert(without_layout(left + right) =~= without_layout(left) + without_layout(right));
    }
}

/// Text made of layout characters only leaves nothing behind.
pub proof fn without_layout_of_gap(gap: Seq<char>)
    requires
        forall|i: int| 0 <= i < gap.len() ==> is_layout(#[trigger] gap[i]),
    ensures
        without_layout(gap) == Seq::<char>::empty(),
    decreases gap.len(),
{
    if gap.len() > 0 {
        without_layout_of_gap(gap.drop_last());
    }
}

/// Decoding does not see layout: a run of spaces and line feeds put anywhere
/// into a text changes nothing of what the text denotes.
pub proof fn decode_ignores_layout(before: Seq<char>, gap: Seq<char>, after: Seq<char>)
    requires
        forall|i: int| 0 <= i < gap.len() ==> is_layout(#[trigger] gap[i]),
    ensures
        decode(before + gap + after) == decode(before + after),
{
    without_layout_of_joined(before + gap, after);
    without_layout_of_joined(before, gap);
    without_layout_of_joined(before, after);
    without_layout_of_gap(gap);
    assert(without_layout(before) + Seq::<char>::empty() =~= without_layout(before));
}

/// A written value without its layout is its five characters.
proof fn without_layout_of_literal(byte: u8)
    ensures
        without_layout(literal(byte)) == packed_literal(byte),
{
    let text = literal(byte);
    let t5 = text.drop_last();
    let t4 = t5.drop_last();
    let t3 = t4.drop_last();
    let t2 = t3.drop_last();
    let t1 = t2.drop_last();
    let t0 = t1.drop_last();
    assert(t0.len() == 0);
    assert(without_layout(t0) =~= Seq::<char>::empty());
    assert(without_layout(t1) =~= Seq::<char>::empty());
    assert(without_layout(t2) =~= seq!['0']);
    assert(without_layout(t3) =~= seq!['0', 'x']);
    assert(without_layout(t4) =~= seq!['0', 'x', text[3]]);
    assert(without_layout(t5) =~= seq!['0', 'x', text[3], text[4]]);
    assert(without_layout(text) =~= packed_literal(byte));
}

/// The five characters of a value denote its byte.
proof fn value_of_packed_literal(byte: u8)
    ensures
        literal_value(packed_literal(byte)) == Some(byte),
{
    let high = byte as int / 16;
    let low = byte as int % 16;
    assert(0 <= high < 16 && 0 <= low < 16);
    assert(digit_value(digit_char(high)) == Some(high));
    assert(digit_value(digit_char(low)) == Some(low));
    assert(high * 16 + low == byte as int);
}

/// Round trip: the written values of a bundle denote exactly the bytes of the
/// bundle, in order.
pub proof fn decode_of_values(bytes: Seq<u8>)
    ensures
        decode(values(bytes)) == Some(bytes),
        without_layout(values(bytes)).len() == 5 * bytes.len(),
    decreases bytes.len(),
{
    if bytes.len() == 0 {
        assert(without_layout(values(bytes)) =~= Seq::<char>::empty());
    } else {
        let front = bytes.drop_last();
        let byte = bytes.last();
        decode_of_values(front);
        without_layout_of_literal(byte);
        value_of_packed_literal(byte);
        without_layout_of_joined(values(front), literal(byte));
        if bytes.len() % 8 == 0 {
            without_layout_of_joined(values(front) + literal(byte), line_break());
            without_layout_of_gap(line_break());
        }
        let packed = without_layout(values(bytes));
        assert(packed =~= without_layout(values(front)) + packed_literal(byte));
        let cut = packed.len() - 5;
        assert(packed.take(cut) =~= without_layout(values(front)));
        assert(packed.skip(cut) =~= packed_literal(byte));
        assert(front.push(byte) =~= bytes);
    }
}

/// The written values of `n` bytes take six characters each and twelve more
/// for every full line.
pub proof fn length_of_values(bytes: Seq<u8>)
    ensures
        values(bytes).len() == 6 * bytes.len() + 12 * (bytes.len() / 8),
    decreases bytes.len(),
{
    if bytes.len() > 0 {
        length_of_values(bytes.drop_last());
    }
}

/// Layout of the array, character by character. The text is a run of lines
/// of sixty characters: eight values of six characters each, then the line
/// break of twelve. So the character at `k` belongs to value number
/// `8 * (k / 60) + (k % 60) / 6` where `k % 60` is below forty-eight, and to
/// the line break behind eight values where it is not.
pub proof fn layout_of_values(bytes: Seq<u8>, k: int)
    requires
        0 <= k < values(bytes).len(),
    ensures
        k % 60 < 48 ==> 8 * (k / 60) + (k % 60) / 6 < bytes.len() && values(bytes)[k] == literal(
            bytes[8 * (k / 60) + (k % 60) / 6],
        )[(k % 60) % 6],
        k % 60 >= 48 ==> 8 * (k / 60) + 8 <= bytes.len() && values(bytes)[k] == line_break()[k % 60
            - 48],
    decreases bytes.len(),
{
    let front = bytes.drop_last();
    let byte = bytes.last();
    length_of_values(bytes);
    length_of_values(front);
    let start = values(front).len() as int;
    if k < start {
        layout_of_values(front, k);
        if k % 60 < 48 {
            assert(front[8 * (k / 60) + (k % 60) / 6] == bytes[8 * (k / 60) + (k % 60) / 6]);
        }
    } else if k < start + 6 {
        assert(values(bytes)[k] == literal(byte)[k - start]);
    } else {
        assert(values(bytes)[k] == line_break()[k - start - 6]);
    }
}

/// A line feed stands behind every eighth value and nowhere else.
pub proof fn line_feeds_of_values(bytes: Seq<u8>, k: int)
    requires
        0 <= k < values(bytes).len(),
    ensures
        values(bytes)[k] == '\n' <==> k % 60 == 48,
{
    layout_of_values(bytes, k);
    if k % 60 < 48 {
        let byte = bytes[8 * (k / 60) + (k % 60) / 6];
        assert(digit_char(byte as int / 16) != '\n' && digit_char(byte as int % 16) != '\n');
    }
}

/// The generated module for a bundle of S bytes declares an array of
/// exactly S bytes, and the values it writes denote exactly the bytes of the
/// bundle, in order.
pub proof fn module_holds_the_bundle(bytes: Seq<u8>)
    ensures
        module_text(bytes) == PREAMBLE@ + decimal(bytes.len()) + OPENING@ + values(bytes)
            + CLOSING@,
        decimal_value(decimal(bytes.len())) == bytes.len(),
        decode(values(bytes)) == Some(bytes),
{
    decimal_round_trip(bytes.len());
    decode_of_values(bytes);
}

} // verus!
