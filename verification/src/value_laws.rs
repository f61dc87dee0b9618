//! Numbers, texts and topics: what their order and their form mean.

use vstd::prelude::*;

use crate::ieee::{Double, Single};
use crate::text::{
    ascii_lower, bool_text, decimal_text, digit_char, hex_text, joined,
    same_ignoring_ascii_case, signed_text,
};
use crate::topic::tower_topic;

verus! {

/// Of two numbers exactly one is smaller, or they are equal; a value that is not a number
/// is neither smaller nor equal to anything.
pub proof fn numbers_are_in_one_order(a: Single, b: Single)
    ensures
        a.nan() <==> a.bits % 0x8000_0000 > 0x7F80_0000,
        a.finite() <==> a.bits % 0x8000_0000 < 0x7F80_0000,
        a.nan() || b.nan() ==> !a.lt_spec(b) && !a.le_spec(b),
        !a.nan() && !b.nan() ==> (a.lt_spec(b) <==> !b.le_spec(a)),
        a.lt_spec(b) ==> !b.lt_spec(a),
        a.le_spec(b) && b.le_spec(a) ==> a.rank() == b.rank(),
        !a.nan() ==> a.le_spec(a),
{
}

/// The order carries through.
pub proof fn the_order_carries_through(a: Single, b: Single, c: Single)
    requires
        a.le_spec(b),
        b.le_spec(c),
    ensures
        a.le_spec(c),
        a.lt_spec(b) || b.lt_spec(c) ==> a.lt_spec(c),
{
}

/// Positive numbers are ordered as their patterns are, negative ones the other way round,
/// and every negative number lies below every positive one.
pub proof fn patterns_order_numbers(a: Single, b: Single)
    requires
        !a.nan(),
        !b.nan(),
    ensures
        a.bits < 0x8000_0000 && b.bits < 0x8000_0000 ==> (a.lt_spec(b) <==> a.bits < b.bits),
        a.bits >= 0x8000_0000 && b.bits >= 0x8000_0000 ==> (a.lt_spec(b) <==> a.bits > b.bits),
        a.bits > 0x8000_0000 && b.bits < 0x8000_0000 ==> a.lt_spec(b),
{
}

/// The size of a value is never below zero and does not depend on its sign; flipping the
/// sign twice gives the value back, and turns the order round.
pub proof fn signs_can_be_flipped(a: Single, b: Single)
    ensures
        a.abs_spec().rank() >= 0,
        a.abs_spec() == a.neg_spec().abs_spec(),
        a.neg_spec().neg_spec() == a,
        a.neg_spec().rank() == -a.rank(),
        a.neg_spec().nan() == a.nan(),
        a.lt_spec(b) <==> b.neg_spec().lt_spec(a.neg_spec()),
        a.abs_spec() == a || a.abs_spec() == a.neg_spec(),
{
}

/// A number is kept within its bounds, and left alone where it lies within them.
pub proof fn a_clamped_number_keeps_to_its_bounds(value: Single, min: Single, max: Single)
    requires
        min.le_spec(max),
        !value.nan(),
    ensures
        ({
            let r = value.clamp_spec(min, max);
            &&& min.le_spec(r)
            &&& r.le_spec(max)
            &&& min.le_spec(value) && value.le_spec(max) ==> r == value
            &&& r == value || r == min || r == max
        }),
{
}

/// Double-precision values are ordered in the same way.
pub proof fn double_numbers_are_in_one_order(a: Double, b: Double)
    ensures
        a.nan() <==> a.bits % 0x8000_0000_0000_0000 > 0x7FF0_0000_0000_0000,
        a.finite() <==> a.bits % 0x8000_0000_0000_0000 < 0x7FF0_0000_0000_0000,
        a.nan() || b.nan() ==> !a.lt_spec(b) && !a.le_spec(b),
        !a.nan() && !b.nan() ==> (a.lt_spec(b) <==> !b.le_spec(a)),
        !a.nan() && !b.nan() && a.bits < 0x8000_0000_0000_0000 && b.bits
            < 0x8000_0000_0000_0000 ==> (a.lt_spec(b) <==> a.bits < b.bits),
        !a.nan() && !b.nan() && a.bits >= 0x8000_0000_0000_0000 && b.bits
            >= 0x8000_0000_0000_0000 ==> (a.lt_spec(b) <==> a.bits > b.bits),
        a.abs_spec().rank() >= 0,
        a.abs_spec().rank() == a.rank() || a.abs_spec().rank() == -a.rank(),
{
}

/// The number that a run of decimal digits stands for.
pub open spec fn decimal_value(text: Seq<char>) -> int
    decreases text.len(),
{
    if text.len() == 0 {
        0
    } else {
        decimal_value(text.drop_last()) * 10 + (text.last() as int - '0' as int)
    }
}

/// A number in decimal reads as that number, has digits only, and begins with no zero
/// unless it is zero.
pub proof fn a_decimal_reads_as_its_number(n: nat)
    ensures
        decimal_value(decimal_text(n)) == n,
        decimal_text(n).len() > 0,
        forall|i: int|
            0 <= i < decimal_text(n).len() ==> '0' <= #[trigger] decimal_text(n)[i] <= '9',
        n > 0 ==> decimal_text(n)[0] != '0',
    decreases n,
{
    let text = decimal_text(n);
    if n < 10 {
        assert(text.drop_last() =~= Seq::empty());
        assert(decimal_value(text.drop_last()) == 0);
    } else {
        a_decimal_reads_as_its_number(n / 10);
        assert(text.drop_last() =~= decimal_text(n / 10));
        assert(text[0] == decimal_text(n / 10)[0]);
        assert forall|i: int| 0 <= i < text.len() implies '0' <= #[trigger] text[i] <= '9' by {
            if i < text.len() - 1 {
                assert(text[i] == decimal_text(n / 10)[i]);
            }
        }
    }
}

/// A negative number is its size behind a minus sign.
pub proof fn a_minus_sign_tells_negative_numbers(n: int)
    ensures
        n < 0 ==> signed_text(n)[0] == '-' && decimal_value(signed_text(n).drop_first()) == -n,
        n >= 0 ==> decimal_value(signed_text(n)) == n && signed_text(n)[0] != '-',
{
    if n < 0 {
        assert(signed_text(n).drop_first() =~= decimal_text((-n) as nat));
        a_decimal_reads_as_its_number((-n) as nat);
    } else {
        a_decimal_reads_as_its_number(n as nat);
    }
}

/// A hexadecimal digit is a decimal one below ten and an upper-case letter from there on;
/// a text of them has the width that was asked for and ends with the lowest digit.
pub proof fn hexadecimal_digits_are_upper_case(n: nat, width: nat)
    ensures
        hex_text(n, width).len() == width,
        width > 0 ==> hex_text(n, width).last() as int == (if n % 16 < 10 {
            '0' as int + n % 16
        } else {
            'A' as int + n % 16 - 10
        }),
        width > 0 ==> hex_text(n, width).drop_last() == hex_text(n / 16, (width - 1) as nat),
    decreases width,
{
    if width > 0 {
        hexadecimal_digits_are_upper_case(n / 16, (width - 1) as nat);
        assert(hex_text(n, width).drop_last() =~= hex_text(n / 16, (width - 1) as nat));
        assert(hex_text(n, width).last() == digit_char(n % 16));
    }
}

/// Joining puts the separator between neighbours and nowhere else.
pub proof fn a_separator_stands_between_neighbours(
    parts: Seq<Seq<char>>,
    last: Seq<char>,
    separator: Seq<char>,
)
    ensures
        joined(Seq::empty(), separator).len() == 0,
        joined(seq![last], separator) == last,
        parts.len() > 0 ==> joined(parts.push(last), separator) == joined(parts, separator)
            + separator + last,
{
    assert(parts.push(last).drop_last() =~= parts);
}

/// Two characters are the same, or one letter in both cases.
pub open spec fn differs_in_case_only(a: char, b: char) -> bool {
    a == b || ('A' <= a <= 'Z' && b as int == a as int + 32) || ('A' <= b <= 'Z' && a as int
        == b as int + 32)
}

proof fn lower_case_is_shifted(c: char)
    ensures
        'A' <= c <= 'Z' ==> ascii_lower(c) as int == c as int + 32,
        !('A' <= c <= 'Z') ==> ascii_lower(c) == c,
{
    if 'A' <= c <= 'Z' {
        let n = c as u32;
        assert(65u32 <= n <= 90u32 ==> ((n + 32) as u32) as u8 == n + 32) by (bit_vector);
    }
}

/// The case of a letter is ignored exactly for the twenty-six letters of the alphabet.
pub proof fn only_the_case_of_letters_is_ignored(c: char, a: Seq<char>, b: Seq<char>)
    ensures
        'A' <= c <= 'Z' ==> ascii_lower(c) as int == c as int + 32,
        !('A' <= c <= 'Z') ==> ascii_lower(c) == c,
        a == b ==> same_ignoring_ascii_case(a, b),
        same_ignoring_ascii_case(a, b) <==> a.len() == b.len() && forall|i: int|
            0 <= i < a.len() ==> differs_in_case_only(#[trigger] a[i], b[i]),
        bool_text(true) == "true"@,
        bool_text(false) == "false"@,
{
    lower_case_is_shifted(c);
    if a.len() == b.len() {
        assert forall|i: int| 0 <= i < a.len() implies differs_in_case_only(
            #[trigger] a[i],
            b[i],
        ) == (ascii_lower(a[i]) == ascii_lower(b[i])) by {
            lower_case_is_shifted(a[i]);
            lower_case_is_shifted(b[i]);
        }
    }
}

/// The topics of a tower differ from each other, and from those of any other tower.
pub proof fn topics_tell_towers_and_purposes_apart(a: Seq<char>, b: Seq<char>, rest: Seq<char>)
    ensures
        tower_topic(a, rest) == tower_topic(b, rest) ==> a == b,
        tower_topic(a, "/status"@) != tower_topic(a, "/logs/error"@),
        tower_topic(a, "/status"@) != tower_topic(a, "/logs/boot"@),
        tower_topic(a, "/logs/error"@) != tower_topic(a, "/logs/boot"@),
        tower_topic(a, "/cmd/diagnostics"@) != tower_topic(a, "/status"@),
{
    let n = "tower/"@.len() as int;
    if tower_topic(a, rest) == tower_topic(b, rest) {
        assert(tower_topic(a, rest).len() == n + a.len() + rest.len());
        assert(tower_topic(b, rest).len() == n + b.len() + rest.len());
        assert(tower_topic(a, rest).subrange(n, n + a.len()) =~= a);
        assert(tower_topic(b, rest).subrange(n, n + b.len()) =~= b);
    }
    reveal_strlit("/status");
    reveal_strlit("/logs/error");
    reveal_strlit("/logs/boot");
    reveal_strlit("/cmd/diagnostics");
    assert(tower_topic(a, "/status"@).len() == n + a.len() + 7);
    assert(tower_topic(a, "/logs/error"@).len() == n + a.len() + 11);
    assert(tower_topic(a, "/logs/boot"@).len() == n + a.len() + 10);
    assert(tower_topic(a, "/cmd/diagnostics"@).len() == n + a.len() + 16);
}

} // verus!
