//! Numbers as text.

use vstd::prelude::*;
use vstd::string::*;

verus! {

/// The lower-case hexadecimal digit of a number below sixteen.
pub open spec fn digit(nibble: int) -> char {
    if nibble < 10 {
        ('0' as int + nibble) as char
    } else {
        ('a' as int + (nibble - 10)) as char
    }
}

/// A number in decimal digits, without leading zeros.
pub open spec fn decimal(number: nat) -> Seq<char>
    decreases number,
{
    if number < 10 {
        seq![digit(number as int)]
    } else {
        decimal(number / 10) + seq![digit((number % 10) as int)]
    }
}

/// A number in decimal digits, with a minus sign where it is negative.
pub open spec fn signed_decimal(number: int) -> Seq<char> {
    if number < 0 {
        "-"@ + decimal((-number) as nat)
    } else {
        decimal(number as nat)
    }
}

/// Numbers in decimal digits, with a comma and a blank between them.
pub open spec fn listed(numbers: Seq<usize>) -> Seq<char>
    decreases numbers.len(),
{
    if numbers.len() == 0 {
        Seq::empty()
    } else if numbers.len() == 1 {
        decimal(numbers[0] as nat)
    } else {
        listed(numbers.drop_last()) + ", "@ + decimal(numbers.last() as nat)
    }
}

/// The extents of a tensor as a list in square brackets.
pub open spec fn shape_text(dims: Seq<usize>) -> Seq<char> {
    "["@ + listed(dims) + "]"@
}

/// The lower-case hexadecimal digit of a number below sixteen.
pub(crate) fn digit_str(nibble: u8) -> (text: &'static str)
    requires
        nibble < 16,
    ensures
        text@ == seq![digit(nibble as int)],
{
    proof {
        reveal_strlit("0");
        reveal_strlit("1");
        reveal_strlit("2");
        reveal_strlit("3");
        reveal_strlit("4");
        reveal_strlit("5");
        reveal_strlit("6");
        reveal_strlit("7");
        reveal_strlit("8");
        reveal_strlit("9");
        reveal_strlit("a");
        reveal_strlit("b");
        reveal_strlit("c");
        reveal_strlit("d");
        reveal_strlit("e");
        reveal_strlit("f");
    }
    match nibble {
        0 => "0",
        1 => "1",
        2 => "2",
        3 => "3",
        4 => "4",
        5 => "5",
        6 => "6",
        7 => "7",
        8 => "8",
        9 => "9",
        10 => "a",
        11 => "b",
        12 => "c",
        13 => "d",
        14 => "e",
        _ => "f",
    }
}

/// Different numbers below sixteen have different digits.
pub proof fn lemma_digit_injective(lhs: int, rhs: int)
    requires
        0 <= lhs < 16,
        0 <= rhs < 16,
        digit(lhs) == digit(rhs),
    ensures
        lhs == rhs,
{
}

/// Appends a number in decimal digits.
pub(crate) fn append_number(text: &mut String, number: u64)
    ensures
        final(text)@ == old(text)@ + decimal(number as nat),
    decreases number,
{
    if number >= 10 {
        append_number(text, number / 10);
    }
    text.append(digit_str((number % 10) as u8));
    proof {
        if number >= 10 {
            assert(final(text)@ =~= old(text)@ + (decimal((number / 10) as nat) + seq![
                digit((number % 10) as int),
            ]));
        }
    }
}

/// Appends a number in decimal digits, with a minus sign where it is negative.
pub(crate) fn append_signed(text: &mut String, number: i64)
    ensures
        final(text)@ == old(text)@ + signed_decimal(number as int),
{
    if number < 0 {
        text.append("-");
        append_number(text, (-(number as i128)) as u64);
        assert(final(text)@ =~= old(text)@ + ("-"@ + decimal((-number) as nat)));
    } else {
        append_number(text, number as u64);
    }
}

/// Appends the extents of a tensor as a list in square brackets.
pub(crate) fn append_shape(text: &mut String, dims: &[usize])
    ensures
        final(text)@ == old(text)@ + shape_text(dims@),
{
    text.append("[");
    let ghost opened = text@;
    let mut i: usize = 0;
    assert(listed(dims@.take(0)) =~= Seq::<char>::empty());
    while i < dims.len()
        invariant
            i <= dims@.len(),
            text@ =~= opened + listed(dims@.take(i as int)),
        decreases dims@.len() - i,
    {
        if i > 0 {
            text.append(", ");
        }
        append_number(text, dims[i] as u64);
        assert(dims@.take(i + 1).drop_last() =~= dims@.take(i as int));
        assert(text@ =~= opened + listed(dims@.take(i + 1)));
        i = i + 1;
    }
    assert(dims@.take(dims@.len() as int) =~= dims@);
    text.append("]");
    assert(text@ =~= old(text)@ + shape_text(dims@));
}

/// The number that decimal digits stand for.
pub open spec fn read_decimal(text: Seq<char>) -> int
    decreases text.len(),
{
    if text.len() == 0 {
        0
    } else {
        read_decimal(text.drop_last()) * 10 + (text.last() as int - '0' as int)
    }
}

/// A number in decimal digits reads back as the number, and does not start with a zero
/// unless it is zero.
pub proof fn law_decimal_reads_back(number: nat)
    ensures
        read_decimal(decimal(number)) == number,
        decimal(number).len() > 0,
        forall|i: int|
            0 <= i < decimal(number).len() ==> '0' as int <= #[trigger] decimal(number)[i] as int
                <= '9' as int,
        number > 0 ==> decimal(number)[0] != '0',
        number < 10 ==> decimal(number).len() == 1,
    decreases number,
{
    let text = decimal(number);
    if number < 10 {
        assert(text.drop_last() =~= Seq::<char>::empty());
        assert(read_decimal(text.drop_last()) == 0);
    } else {
        law_decimal_reads_back(number / 10);
        assert(text.drop_last() =~= decimal(number / 10));
        assert(text.last() == digit((number % 10) as int));
        assert(text[0] == decimal(number / 10)[0]);
        assert forall|i: int| 0 <= i < text.len() implies '0' as int <= #[trigger] text[i] as int
            <= '9' as int by {
            if i < text.len() - 1 {
                assert(text[i] == decimal(number / 10)[i]);
            }
        }
    }
}

/// A negative number is a minus sign before the number without its sign.
pub proof fn law_signs_stand_before_the_digits(number: int)
    ensures
        number >= 0 ==> read_decimal(signed_decimal(number)) == number,
        number < 0 ==> signed_decimal(number)[0] == '-' && read_decimal(
            signed_decimal(number).skip(1),
        ) == -number,
{
    reveal_strlit("-");
    if number < 0 {
        law_decimal_reads_back((-number) as nat);
        assert(signed_decimal(number).skip(1) =~= decimal((-number) as nat));
    } else {
        law_decimal_reads_back(number as nat);
    }
}

/// The extents stand in square brackets: the first one, and behind a comma and a blank each
/// further one.
pub proof fn law_shapes_list_their_extents(dims: Seq<usize>, extent: usize)
    ensures
        shape_text(Seq::<usize>::empty()) == seq!['[', ']'],
        shape_text(seq![extent]) == seq!['['] + decimal(extent as nat) + seq![']'],
        dims.len() > 0 ==> shape_text(dims.push(extent)) == shape_text(dims).drop_last() + seq![
            ',',
            ' ',
        ] + decimal(extent as nat) + seq![']'],
{
    reveal_strlit("[");
    reveal_strlit("]");
    reveal_strlit(", ");
    assert(shape_text(Seq::<usize>::empty()) =~= seq!['[', ']']);
    assert(shape_text(seq![extent]) =~= seq!['['] + decimal(extent as nat) + seq![']']);
    if dims.len() > 0 {
        assert(dims.push(extent).drop_last() =~= dims);
        assert(dims.push(extent).last() == extent);
        assert(shape_text(dims.push(extent)) =~= shape_text(dims).drop_last() + seq![',', ' ']
            + decimal(extent as nat) + seq![']']);
    }
}

} // verus!
