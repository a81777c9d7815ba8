//! Numbers as text: decimal and hexadecimal digits, signs and padding.
//!
//! The spec functions say which characters a number is written with; the
//! executable functions append those characters to a string.

use vstd::prelude::*;

verus! {

/// The character of a decimal digit.
pub open spec fn digit(d: nat) -> char {
    (0x30 + d) as char
}

/// The character of a hexadecimal digit, in upper case.
pub open spec fn hex_digit(d: nat) -> char {
    if d < 10 {
        (0x30 + d) as char
    } else {
        (0x37 + d) as char
    }
}

/// `n` in decimal, without leading zeros.
pub open spec fn decimal(n: nat) -> Seq<char>
    decreases n,
{
    if n < 10 {
        seq![digit(n)]
    } else {
        decimal(n / 10).push(digit(n % 10))
    }
}

/// `i` in decimal, with a minus sign where it is negative.
pub open spec fn signed_decimal(i: int) -> Seq<char> {
    if i < 0 {
        seq!['-'] + decimal((-i) as nat)
    } else {
        decimal(i as nat)
    }
}

/// `i` in decimal, with its sign, plus or minus, in front.
pub open spec fn explicit_decimal(i: int) -> Seq<char> {
    if i < 0 {
        seq!['-'] + decimal((-i) as nat)
    } else {
        seq!['+'] + decimal(i as nat)
    }
}

/// The last `width` hexadecimal digits of `n`, in upper case, with leading
/// zeros.
pub open spec fn hex(n: nat, width: nat) -> Seq<char>
    decreases width,
{
    if width == 0 {
        Seq::empty()
    } else {
        hex(n / 16, (width - 1) as nat).push(hex_digit(n % 16))
    }
}

/// `n`, below one hundred, in two decimal digits.
pub open spec fn two_digits(n: nat) -> Seq<char> {
    seq![digit(n / 10), digit(n % 10)]
}

/// `count` spaces.
pub open spec fn spaces(count: int) -> Seq<char> {
    Seq::new(
        if count < 0 {
            0
        } else {
            count as nat
        },
        |i: int| ' ',
    )
}

/// `text` with spaces after it, up to `width` characters.
pub open spec fn left_aligned(text: Seq<char>, width: nat) -> Seq<char> {
    text + spaces(width - text.len())
}

/// `text` with spaces before it, up to `width` characters.
pub open spec fn right_aligned(text: Seq<char>, width: nat) -> Seq<char> {
    spaces(width - text.len()) + text
}

/// A number in decimal has at least one digit.
pub proof fn lemma_decimal_len(n: nat)
    ensures
        decimal(n).len() >= 1,
    decreases n,
{
    if n >= 10 {
        lemma_decimal_len(n / 10);
    }
}

/// Two digits are the number in decimal, after a zero where it has one digit
/// only.
pub proof fn lemma_two_digits(n: nat)
    requires
        n < 100,
    ensures
        n >= 10 ==> two_digits(n) == decimal(n),
        n < 10 ==> two_digits(n) == seq!['0'] + decimal(n),
{
    reveal_with_fuel(decimal, 2);
    if n >= 10 {
        assert(two_digits(n) =~= decimal(n));
    } else {
        assert(two_digits(n) =~= seq!['0'] + decimal(n));
    }
}

/// A number in hexadecimal has as many digits as were asked for.
pub proof fn lemma_hex_len(n: nat, width: nat)
    ensures
        hex(n, width).len() == width,
    decreases width,
{
    if width > 0 {
        lemma_hex_len(n / 16, (width - 1) as nat);
    }
}

/// `String::push` appends one character to the string.
pub assume_specification[ String::push ](text: &mut String, ch: char)
    ensures
        final(text)@ == old(text)@.push(ch),
;

/// Appends `n` in decimal.
pub fn push_decimal(text: &mut String, n: u64)
    ensures
        final(text)@ == old(text)@ + decimal(n as nat),
    decreases n,
{
    if n >= 10 {
        push_decimal(text, n / 10);
    }
    text.push((0x30 + (n % 10) as u8) as char);
    proof {
        let before = old(text)@;
        if n >= 10 {
            assert(final(text)@ =~= before + decimal(n as nat));
        } else {
            assert(final(text)@ =~= before + decimal(n as nat));
        }
    }
}

/// Appends `i` in decimal, with a minus sign where it is negative.
pub fn push_signed(text: &mut String, i: i32)
    ensures
        final(text)@ == old(text)@ + signed_decimal(i as int),
{
    if i < 0 {
        text.push('-');
        push_decimal(text, (-(i as i64)) as u64);
        assert(final(text)@ =~= old(text)@ + signed_decimal(i as int));
    } else {
        push_decimal(text, i as u64);
    }
}

/// Appends `i` in decimal, with its sign in front.
pub fn push_explicit(text: &mut String, i: i32)
    ensures
        final(text)@ == old(text)@ + explicit_decimal(i as int),
{
    if i < 0 {
        text.push('-');
        push_decimal(text, (-(i as i64)) as u64);
    } else {
        text.push('+');
        push_decimal(text, i as u64);
    }
    assert(final(text)@ =~= old(text)@ + explicit_decimal(i as int));
}

/// Appends the last `width` hexadecimal digits of `n`.
pub fn push_hex(text: &mut String, n: u32, width: u32)
    ensures
        final(text)@ == old(text)@ + hex(n as nat, width as nat),
    decreases width,
{
    if width > 0 {
        push_hex(text, n / 16, width - 1);
        let d = (n % 16) as u8;
        let ch = if d < 10 {
            (0x30 + d) as char
        } else {
            (0x37 + d) as char
        };
        text.push(ch);
    }
    assert(final(text)@ =~= old(text)@ + hex(n as nat, width as nat));
}

/// Appends `n` in two decimal digits.
pub fn push_two_digits(text: &mut String, n: u8)
    requires
        n < 100,
    ensures
        final(text)@ == old(text)@ + two_digits(n as nat),
{
    text.push((0x30 + n / 10) as char);
    text.push((0x30 + n % 10) as char);
    assert(final(text)@ =~= old(text)@ + two_digits(n as nat));
}

/// Appends `count` spaces.
pub fn push_spaces(text: &mut String, count: usize)
    ensures
        final(text)@ == old(text)@ + spaces(count as int),
{
    let mut done: usize = 0;
    while done < count
        invariant
            done <= count,
            text@ == old(text)@ + spaces(done as int),
        decreases count - done,
    {
        text.push(' ');
        done += 1;
        assert(text@ =~= old(text)@ + spaces(done as int));
    }
    assert(old(text)@ + spaces(0) =~= old(text)@);
}

/// Appends `word`, and spaces after it up to `width` characters.
pub fn push_left_aligned(text: &mut String, word: &str, width: usize)
    ensures
        final(text)@ == old(text)@ + left_aligned(word@, width as nat),
{
    text.append(word);
    let len = word.unicode_len();
    if len < width {
        push_spaces(text, width - len);
    }
    assert(final(text)@ =~= old(text)@ + left_aligned(word@, width as nat));
}

/// Appends spaces up to `width` characters less the length of `word`, and
/// then `word`.
pub fn push_right_aligned(text: &mut String, word: &str, width: usize)
    ensures
        final(text)@ == old(text)@ + right_aligned(word@, width as nat),
{
    let len = word.unicode_len();
    if len < width {
        push_spaces(text, width - len);
    }
    text.append(word);
    assert(final(text)@ =~= old(text)@ + right_aligned(word@, width as nat));
}

} // verus!
